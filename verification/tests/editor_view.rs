use sublate::editor::{
    first_preview_state, hegel_log_line, hegel_log_line_with, hegel_reply, latest_first, lottie_update,
    stroke_paint,
};
use sublate::protocol::{Envelope, HegelResponse, Output, ReliableOutput};
use sublate::state_machine::SAM;

#[test]
fn lottie_update_takes_only_animation_replies() {
    let sam = SAM::default();
    let r = lottie_update(ReliableOutput::Msg(Envelope { seq: 3, msg: Output::LottieResult(sam.clone()) }));
    assert_eq!(r, Some(sam));
    assert_eq!(lottie_update(ReliableOutput::Watermark(3)), None);
    assert_eq!(lottie_update(ReliableOutput::Msg(Envelope { seq: 0, msg: Output::Result("x".to_string()) })), None);
}

#[test]
fn hegel_reply_takes_only_check_replies() {
    let resp = HegelResponse { logs: vec![], data: vec![1], passed: true };
    assert_eq!(
        hegel_reply(Some(ReliableOutput::Msg(Envelope { seq: 0, msg: Output::HegelResult(resp.clone()) }))),
        Some(resp)
    );
    assert_eq!(hegel_reply(Some(ReliableOutput::Watermark(0))), None);
    assert_eq!(hegel_reply(None), None);
}

#[test]
fn hegel_log_line_shows_verdict_and_log() {
    let resp = HegelResponse { logs: vec!["a".to_string(), "b \"c\"".to_string()], data: vec![], passed: true };
    assert_eq!(hegel_log_line(&resp), "Hegel (passed): [\"a\", \"b \\\"c\\\"\"]");
    let resp = HegelResponse { logs: vec![], data: vec![], passed: false };
    assert_eq!(hegel_log_line(&resp), "Hegel (failed): []");
    assert_eq!(hegel_log_line_with(true, "[x]"), "Hegel (passed): [x]");
}

#[test]
fn log_panel_shows_newest_first() {
    let lines: Vec<String> = (0..12).map(|i| format!("l{}", i)).collect();
    let shown = latest_first(&lines, 10);
    assert_eq!(shown.len(), 10);
    assert_eq!(shown[0], "l11");
    assert_eq!(shown[9], "l2");
    let few = vec!["a".to_string(), "b".to_string()];
    assert_eq!(latest_first(&few, 10), vec!["b".to_string(), "a".to_string()]);
}

#[test]
fn preview_helpers() {
    assert_eq!(first_preview_state(), "step_0");
    assert_eq!(stroke_paint(true), "white");
    assert_eq!(stroke_paint(false), "none");
}
