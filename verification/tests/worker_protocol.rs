use sublate::protocol::{
    compile_report, init_report, Drain, Envelope, HegelResponse, Input, InputSequencer, Job, Output,
    Received, ReliableInput, ReliableLink, ReliableOutput, SinkState,
};

fn msg(seq: u64, input: Input) -> ReliableInput {
    ReliableInput::Msg(Envelope { seq, msg: input })
}

#[test]
fn compile_report_counts_bytes() {
    assert_eq!(compile_report(&"abc".to_string()), "Compiled: 3 bytes");
    assert_eq!(compile_report(&"".to_string()), "Compiled: 0 bytes");
    // 'é' takes two bytes in UTF-8
    assert_eq!(compile_report(&"héllo".to_string()), "Compiled: 6 bytes");
    assert_eq!(compile_report(&"x".repeat(1234)), "Compiled: 1234 bytes");
}

#[test]
fn init_report_prefixes_outcome() {
    assert_eq!(init_report(Ok("None".to_string())), "Init OK: None");
    assert_eq!(init_report(Err("SyntaxError".to_string())), "Init Error: SyntaxError");
}

#[test]
fn compile_request_is_answered_with_reply_then_watermark() {
    let mut link = ReliableLink::new();
    let r = link.receive(msg(7, Input::Compile("abc".to_string())));
    assert_eq!(r, Received::Answered);
    assert_eq!(link.last_received_seq(), 7);
    assert_eq!(link.next_output_seq(), 1);
    assert_eq!(
        link.drain(SinkState::Ready),
        Drain::Send(ReliableOutput::Msg(Envelope {
            seq: 0,
            msg: Output::Result("Compiled: 3 bytes".to_string())
        }))
    );
    assert_eq!(link.drain(SinkState::Ready), Drain::Send(ReliableOutput::Watermark(7)));
    assert!(!link.has_outgoing());
    assert_eq!(link.drain(SinkState::Ready), Drain::Wait);
}

#[test]
fn python_requests_become_work() {
    let mut link = ReliableLink::new();
    assert_eq!(
        link.receive(msg(0, Input::Init("x = 1".to_string()))),
        Received::Work(Job::Init("x = 1".to_string()))
    );
    assert_eq!(
        link.receive(msg(1, Input::RunHegel("code".to_string()))),
        Received::Work(Job::Hegel("code".to_string()))
    );
    assert_eq!(
        link.receive(msg(2, Input::GetLottie("code".to_string(), vec![3, 1]))),
        Received::Work(Job::Lottie("code".to_string(), vec![3, 1]))
    );
    assert_eq!(link.last_received_seq(), 2);
    assert!(!link.has_outgoing());
    assert_eq!(link.next_output_seq(), 0);
}

#[test]
fn watermark_input_changes_nothing() {
    let mut link = ReliableLink::new();
    link.receive(msg(4, Input::Compile("a".to_string())));
    let r = link.receive(ReliableInput::Watermark(99));
    assert_eq!(r, Received::Acknowledged);
    assert_eq!(link.last_received_seq(), 4);
    assert_eq!(link.next_output_seq(), 1);
}

#[test]
fn replies_are_numbered_consecutively_and_leave_in_order() {
    let mut link = ReliableLink::new();
    link.receive(msg(10, Input::Init("a".to_string())));
    link.reply(Output::InitResult("Init OK: 1".to_string()));
    link.receive(msg(11, Input::RunHegel("b".to_string())));
    let resp = HegelResponse { logs: vec!["x".to_string()], data: vec![1], passed: true };
    link.reply(Output::HegelResult(resp.clone()));
    assert_eq!(link.next_output_seq(), 2);
    let mut sent = Vec::new();
    while link.has_outgoing() {
        match link.drain(SinkState::Ready) {
            Drain::Send(m) => sent.push(m),
            other => panic!("unexpected {:?}", other),
        }
    }
    assert_eq!(
        sent,
        vec![
            ReliableOutput::Msg(Envelope { seq: 0, msg: Output::InitResult("Init OK: 1".to_string()) }),
            ReliableOutput::Watermark(10),
            ReliableOutput::Msg(Envelope { seq: 1, msg: Output::HegelResult(resp) }),
            ReliableOutput::Watermark(11),
        ]
    );
}

#[test]
fn busy_sink_keeps_and_closed_sink_drops_the_front() {
    let mut link = ReliableLink::new();
    link.receive(msg(0, Input::Compile("ab".to_string())));
    assert_eq!(link.drain(SinkState::Busy), Drain::Wait);
    assert!(link.has_outgoing());
    assert_eq!(link.drain(SinkState::Closed), Drain::Discarded);
    assert_eq!(link.drain(SinkState::Ready), Drain::Send(ReliableOutput::Watermark(0)));
    assert_eq!(link.drain(SinkState::Closed), Drain::Wait);
}

#[test]
fn sequencer_numbers_requests_from_zero() {
    let mut s = InputSequencer::new();
    let a = s.wrap(Input::RunHegel("a".to_string()));
    let b = s.wrap(Input::GetLottie("a".to_string(), vec![1, 2]));
    assert_eq!(a, ReliableInput::Msg(Envelope { seq: 0, msg: Input::RunHegel("a".to_string()) }));
    assert_eq!(
        b,
        ReliableInput::Msg(Envelope { seq: 1, msg: Input::GetLottie("a".to_string(), vec![1, 2]) })
    );
}
