use sublate::hegel::{
    first_descent, hegel_after_algorithm, hegel_after_code, hegel_after_lookup, hegel_after_test,
};
use sublate::protocol::HegelResponse;

fn failure(line: &str) -> HegelResponse {
    HegelResponse { logs: vec![line.to_string()], data: vec![], passed: false }
}

#[test]
fn first_descent_finds_first_drop() {
    assert_eq!(first_descent(&vec![]), None);
    assert_eq!(first_descent(&vec![5]), None);
    assert_eq!(first_descent(&vec![1, 2, 2, 9]), None);
    assert_eq!(first_descent(&vec![1, 5, 3, 2]), Some(2));
    assert_eq!(first_descent(&vec![4, 3]), Some(1));
}

#[test]
fn sorted_output_passes() {
    let r = hegel_after_algorithm(vec![3, 1, 2], Ok(vec![1, 2, 3]));
    assert_eq!(
        r,
        HegelResponse {
            logs: vec!["Hegel: Algorithm executed".to_string(), "Hegel: All invariants passed".to_string()],
            data: vec![3, 1, 2],
            passed: true,
        }
    );
}

#[test]
fn unsorted_output_reports_first_descent() {
    let r = hegel_after_algorithm(vec![9, -4], Ok(vec![1, 5, 3, -20]));
    assert!(!r.passed);
    assert_eq!(r.data, vec![9, -4]);
    assert_eq!(
        r.logs,
        vec![
            "Hegel: Algorithm executed".to_string(),
            "Invariant failed: item at 1 (5) > item at 2 (3)".to_string()
        ]
    );
    let r = hegel_after_algorithm(vec![], Ok(vec![-1, -7]));
    assert_eq!(r.logs[1], "Invariant failed: item at 0 (-1) > item at 1 (-7)");
}

#[test]
fn empty_output_passes() {
    let r = hegel_after_algorithm(vec![], Ok(vec![]));
    assert!(r.passed);
    assert_eq!(r.logs.len(), 2);
}

#[test]
fn failures_end_the_check() {
    assert_eq!(hegel_after_code(Ok(())), None);
    assert_eq!(hegel_after_code(Err("NameError".to_string())), Some(failure("Error running code: NameError")));
    assert_eq!(hegel_after_lookup(true), None);
    assert_eq!(hegel_after_lookup(false), Some(failure("Hegel: No build_test found")));
    assert_eq!(hegel_after_test(Ok(vec![2, 1])), Ok(vec![2, 1]));
    assert_eq!(
        hegel_after_test(Err("boom".to_string())),
        Err(failure("Hegel: build_test failed: boom"))
    );
    assert_eq!(
        hegel_after_algorithm(vec![1], Err("ValueError: x".to_string())),
        failure("Hegel: build_algorithm failed: ValueError: x")
    );
}
