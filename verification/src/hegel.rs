//! The property check run on an algorithm's output: after a user script has
//! sorted the data that its test generator produced, the result must be in
//! non-decreasing order. The steps of a check alternate with calls into the
//! script; each function here takes the outcome of one call and decides what
//! comes next.
use vstd::prelude::*;
use vstd::string::*;

use crate::protocol::HegelResponse;
use crate::text::{decimal_text, integer_text, joined};

verus! {

/// Element `i` of `s` is not below its predecessor.
pub open spec fn step_ordered(s: Seq<i32>, i: int) -> bool {
    s[i - 1] <= s[i]
}

/// Every element is at least its predecessor.
pub open spec fn adjacent_ordered(s: Seq<i32>) -> bool {
    forall|i: int| 1 <= i < s.len() ==> #[trigger] step_ordered(s, i)
}

/// The sequence is in non-decreasing order: no element exceeds a later one.
pub open spec fn non_decreasing(s: Seq<i32>) -> bool {
    forall|i: int, j: int| 0 <= i <= j < s.len() ==> s[i] <= s[j]
}

/// `k` is the first position at which the sequence goes down.
pub open spec fn is_first_descent(s: Seq<i32>, k: int) -> bool {
    &&& 1 <= k < s.len()
    &&& s[k - 1] > s[k]
    &&& forall|i: int| 1 <= i < k ==> #[trigger] step_ordered(s, i)
}

/// The text of the log line that reports a descent at position `k`.
pub open spec fn descent_line(s: Seq<i32>, k: int) -> Seq<char> {
    "Invariant failed: item at "@ + decimal_text(k - 1) + " ("@ + decimal_text(s[k - 1] as int)
        + ") > item at "@ + decimal_text(k) + " ("@ + decimal_text(s[k] as int) + ")"@
}

/// The text of each line of a log.
pub open spec fn text_lines(logs: Seq<String>) -> Seq<Seq<char>> {
    logs.map_values(|line: String| line@)
}

/// A response that reports one failure line, carries no data and did not pass.
pub open spec fn is_failure(r: HegelResponse, line: Seq<char>) -> bool {
    &&& text_lines(r.logs@) == seq![line]
    &&& r.data@.len() == 0
    &&& !r.passed
}

/// Comparing neighbours is enough: a sequence whose every element is at least
/// its predecessor is in non-decreasing order.
pub proof fn lemma_adjacent_ordered_is_non_decreasing(s: Seq<i32>)
    requires
        adjacent_ordered(s),
    ensures
        non_decreasing(s),
{
    assert forall|i: int, j: int| 0 <= i <= j < s.len() implies s[i] <= s[j] by {
        lemma_chain(s, i, j);
    }
}

proof fn lemma_chain(s: Seq<i32>, i: int, j: int)
    requires
        adjacent_ordered(s),
        0 <= i <= j < s.len(),
    ensures
        s[i] <= s[j],
    decreases j - i,
{
    if i < j {
        lemma_chain(s, i, j - 1);
        assert(step_ordered(s, j));
    }
}

/// The first position at which `data` goes down, or `None` when it never does.
pub fn first_descent(data: &Vec<i32>) -> (r: Option<usize>)
    ensures
        match r {
            Some(k) => is_first_descent(data@, k as int),
            None => non_decreasing(data@),
        },
{
    let n = data.len();
    let mut i: usize = 1;
    while i < n
        invariant
            n == data@.len(),
            1 <= i,
            forall|k: int| 1 <= k < i && k < n ==> #[trigger] step_ordered(data@, k),
        decreases n - i,
    {
        if data[i - 1] > data[i] {
            return Some(i);
        }
        assert(step_ordered(data@, i as int));
        i = i + 1;
    }
    proof {
        lemma_adjacent_ordered_is_non_decreasing(data@);
    }
    None
}

/// A response that reports `line` and nothing else.
fn failure(line: String) -> (r: HegelResponse)
    ensures
        is_failure(r, line@),
{
    let mut logs: Vec<String> = Vec::new();
    logs.push(line);
    let r = HegelResponse { logs, data: Vec::new(), passed: false };
    assert(text_lines(r.logs@) =~= seq![r.logs@[0]@]);
    r
}

/// After the script's code has run: a failure ends the check with its error,
/// success goes on to look up the test generator.
pub fn hegel_after_code(result: Result<(), String>) -> (r: Option<HegelResponse>)
    ensures
        match result {
            Ok(_) => r is None,
            Err(detail) => r matches Some(resp) && is_failure(
                resp,
                "Error running code: "@ + detail@,
            ),
        },
{
    match result {
        Ok(_) => None,
        Err(detail) => Some(failure(joined("Error running code: ", detail.as_str()))),
    }
}

/// After looking up the test generator `build_test`: without one the check ends.
pub fn hegel_after_lookup(found: bool) -> (r: Option<HegelResponse>)
    ensures
        found ==> r is None,
        !found ==> (r matches Some(resp) && is_failure(resp, "Hegel: No build_test found"@)),
{
    if found {
        None
    } else {
        Some(failure(String::from_str("Hegel: No build_test found")))
    }
}

/// After calling the test generator: its error ends the check; the data it
/// produced goes on to the algorithm.
pub fn hegel_after_test(result: Result<Vec<i32>, String>) -> (r: Result<Vec<i32>, HegelResponse>)
    ensures
        match result {
            Ok(data) => r == Ok::<Vec<i32>, HegelResponse>(data),
            Err(detail) => r matches Err(resp) && is_failure(
                resp,
                "Hegel: build_test failed: "@ + detail@,
            ),
        },
{
    match result {
        Ok(data) => Ok(data),
        Err(detail) => Err(failure(joined("Hegel: build_test failed: ", detail.as_str()))),
    }
}

/// The log of a finished run over the algorithm's output `sorted`.
pub open spec fn verdict_lines(sorted: Seq<i32>) -> Seq<Seq<char>> {
    if non_decreasing(sorted) {
        seq!["Hegel: Algorithm executed"@, "Hegel: All invariants passed"@]
    } else {
        seq![
            "Hegel: Algorithm executed"@,
            descent_line(sorted, choose|k: int| is_first_descent(sorted, k)),
        ]
    }
}

/// After the algorithm has run over a copy of `data` (the test generator's
/// output): its error ends the check; otherwise `sorted`, the data as the
/// algorithm left it, passes exactly when it is in non-decreasing order, and
/// the log names the first descent when there is one. The response carries
/// the generated data, not the sorted copy.
pub fn hegel_after_algorithm(data: Vec<i32>, result: Result<Vec<i32>, String>) -> (r: HegelResponse)
    ensures
        match result {
            Err(detail) => is_failure(r, "Hegel: build_algorithm failed: "@ + detail@),
            Ok(sorted) => {
                &&& r.passed == non_decreasing(sorted@)
                &&& r.data@ == data@
                &&& text_lines(r.logs@) == verdict_lines(sorted@)
            },
        },
{
    match result {
        Err(detail) => failure(joined("Hegel: build_algorithm failed: ", detail.as_str())),
        Ok(sorted) => {
            let mut logs: Vec<String> = Vec::new();
            logs.push(String::from_str("Hegel: Algorithm executed"));
            let passed = match first_descent(&sorted) {
                Some(k) => {
                    logs.push(descent_report(&sorted, k));
                    proof {
                        lemma_first_descent_unique(sorted@, k as int);
                    }
                    false
                },
                None => {
                    logs.push(String::from_str("Hegel: All invariants passed"));
                    true
                },
            };
            assert(text_lines(logs@) =~= verdict_lines(sorted@));
            HegelResponse { logs, data, passed }
        },
    }
}

/// A sequence that goes down somewhere is not in order, and its first descent is unique.
proof fn lemma_first_descent_unique(s: Seq<i32>, k: int)
    requires
        is_first_descent(s, k),
    ensures
        !non_decreasing(s),
        (choose|m: int| is_first_descent(s, m)) == k,
{
    assert(s[k - 1] > s[k]);
    let m = choose|m: int| is_first_descent(s, m);
    assert(is_first_descent(s, m));
    if m < k {
        assert(step_ordered(s, m));
    }
    if k < m {
        assert(step_ordered(s, k));
    }
}

/// The log line that reports the descent at position `k`.
fn descent_report(data: &Vec<i32>, k: usize) -> (s: String)
    requires
        1 <= k < data@.len(),
    ensures
        s@ == descent_line(data@, k as int),
{
    let mut s = String::from_str("Invariant failed: item at ");
    s.append(integer_text((k - 1) as i128).as_str());
    s.append(" (");
    s.append(integer_text(data[k - 1] as i128).as_str());
    s.append(") > item at ");
    s.append(integer_text(k as i128).as_str());
    s.append(" (");
    s.append(integer_text(data[k] as i128).as_str());
    s.append(")");
    s
}

} // verus!
