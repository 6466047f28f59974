//! The decisions of the editor view: which replies of the worker it takes
//! up, how it reports a property check, and what its log panel shows.
use vstd::prelude::*;
use vstd::string::*;

use crate::hegel::text_lines;
use crate::protocol::{HegelResponse, Output, ReliableOutput};
use crate::state_machine::SAM;

verus! {

/// The text that std's `Debug` formatting gives a list of strings (each
/// quoted and escaped, separated by ", ", in square brackets).
pub uninterp spec fn debug_list_text(lines: Seq<Seq<char>>) -> Seq<char>;

/// The `Debug` text of a list of strings, through std's `format!("{:?}", ..)`.
/// Its contract names the result as a function of the lines' text alone; the
/// exact quoting and escaping rules of `Debug` are not stated.
#[verifier::external_body]
fn debug_text(lines: &Vec<String>) -> (s: String)
    ensures
        s@ == debug_list_text(text_lines(lines@)),
{
    format!("{:?}", lines)
}

/// The animation that a reply of the worker carries, if it is a numbered
/// reply holding one; watermarks and other replies are passed over.
pub fn lottie_update(output: ReliableOutput) -> (r: Option<SAM>)
    ensures
        match output {
            ReliableOutput::Msg(e) => match e.msg {
                Output::LottieResult(sam) => r == Some(sam),
                _ => r is None,
            },
            ReliableOutput::Watermark(_) => r is None,
        },
{
    match output {
        ReliableOutput::Msg(e) => match e.msg {
            Output::LottieResult(sam) => Some(sam),
            _ => None,
        },
        ReliableOutput::Watermark(_) => None,
    }
}

/// The outcome of a property check that the worker's next message carries,
/// if that message is a numbered reply holding one.
pub fn hegel_reply(output: Option<ReliableOutput>) -> (r: Option<HegelResponse>)
    ensures
        match output {
            Some(ReliableOutput::Msg(e)) => match e.msg {
                Output::HegelResult(resp) => r == Some(resp),
                _ => r is None,
            },
            _ => r is None,
        },
{
    match output {
        Some(ReliableOutput::Msg(e)) => match e.msg {
            Output::HegelResult(resp) => Some(resp),
            _ => None,
        },
        _ => None,
    }
}

/// The word that reports a check: "passed" or "failed".
pub open spec fn verdict_word(passed: bool) -> Seq<char> {
    if passed {
        "passed"@
    } else {
        "failed"@
    }
}

/// The log-panel line of a check, given the text of its log: "Hegel (",
/// the verdict word, "): " and the log text.
pub fn hegel_log_line_with(passed: bool, logs_text: &str) -> (s: String)
    ensures
        s@ == "Hegel ("@ + verdict_word(passed) + "): "@ + logs_text@,
{
    let mut s = String::from_str("Hegel (");
    if passed {
        s.append("passed");
    } else {
        s.append("failed");
    }
    s.append("): ");
    s.append(logs_text);
    s
}

/// The log-panel line of a check: its verdict and the `Debug` text of its log.
pub fn hegel_log_line(resp: &HegelResponse) -> (s: String)
    ensures
        s@ == "Hegel ("@ + verdict_word(resp.passed) + "): "@ + debug_list_text(
            text_lines(resp.logs@),
        ),
{
    let text = debug_text(&resp.logs);
    hegel_log_line_with(resp.passed, text.as_str())
}

/// What the log panel shows: the newest `limit` lines, newest first.
pub fn latest_first(lines: &Vec<String>, limit: usize) -> (r: Vec<String>)
    ensures
        r@.len() == if lines@.len() < limit {
            lines@.len()
        } else {
            limit as nat
        },
        forall|i: int| 0 <= i < r@.len() ==> #[trigger] r@[i] == lines@[lines@.len() - 1 - i],
{
    let n = lines.len();
    let count = if n < limit {
        n
    } else {
        limit
    };
    let mut r: Vec<String> = Vec::new();
    let mut i: usize = 0;
    while i < count
        invariant
            n == lines@.len(),
            count <= n,
            i <= count,
            r@.len() == i,
            forall|j: int| 0 <= j < i ==> #[trigger] r@[j] == lines@[n - 1 - j],
        decreases count - i,
    {
        r.push(lines[n - 1 - i].clone());
        i = i + 1;
    }
    r
}

/// The name of the state a preview shows first.
pub fn first_preview_state() -> (s: String)
    ensures
        s@ == "step_0"@,
{
    String::from_str("step_0")
}

/// The stroke paint of a drawn path: white when the path has a stroke, none otherwise.
pub fn stroke_paint(has_stroke: bool) -> (s: &'static str)
    ensures
        s@ == if has_stroke {
            "white"@
        } else {
            "none"@
        },
{
    if has_stroke {
        "white"
    } else {
        "none"
    }
}

} // verus!
