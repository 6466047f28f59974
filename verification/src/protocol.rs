//! The messages between the editor and its worker, and the reliable link
//! that numbers the worker's replies and acknowledges what it received.
//!
//! Every request travels in an envelope with a sequence number. For each
//! request it handles, the worker queues its reply in an envelope numbered
//! one after the previous reply, followed by a watermark that acknowledges
//! the last request received. Queued messages leave in the order they were
//! queued.
use vstd::prelude::*;
use vstd::string::*;
use std::collections::VecDeque;

use crate::state_machine::SAM;
use crate::text::{decimal_text, integer_text, joined3};

verus! {

/// A request from the editor.
#[derive(Clone, Debug, PartialEq)]
pub enum Input {
    /// Run initialisation code in a fresh scope.
    Init(String),
    /// Report the size of the code.
    Compile(String),
    /// Run the property check of the code.
    RunHegel(String),
    /// Build the animation of the code over the given data.
    GetLottie(String, Vec<i32>),
}

/// A reply of the worker.
#[derive(Clone, Debug, PartialEq)]
pub enum Output {
    InitResult(String),
    Result(String),
    HegelResult(HegelResponse),
    LottieResult(SAM),
}

/// The outcome of a property check: its log, the data the test generator
/// produced, and whether every check passed.
#[derive(Clone, Debug, PartialEq)]
pub struct HegelResponse {
    pub logs: Vec<String>,
    pub data: Vec<i32>,
    pub passed: bool,
}

/// A message with its sequence number.
#[derive(Clone, Debug, PartialEq)]
pub struct Envelope<T> {
    pub seq: u64,
    pub msg: T,
}

/// What the editor sends: a numbered request, or a watermark.
#[derive(Clone, Debug, PartialEq)]
pub enum ReliableInput {
    Msg(Envelope<Input>),
    Watermark(u64),
}

/// What the worker sends: a numbered reply, or a watermark acknowledging the
/// last request received.
#[derive(Clone, Debug, PartialEq)]
pub enum ReliableOutput {
    Msg(Envelope<Output>),
    Watermark(u64),
}

/// The number of UTF-8 bytes that encode `s`, as `str::len` reports it.
pub open spec fn byte_len(s: Seq<char>) -> usize {
    vstd::utf8::encode_utf8(s).len() as usize
}

/// The reply to a `Compile` request for `code`.
pub open spec fn compile_text(code: Seq<char>) -> Seq<char> {
    "Compiled: "@ + decimal_text(byte_len(code) as int) + " bytes"@
}

/// Reports the size of `code` in bytes.
pub fn compile_report(code: &String) -> (s: String)
    ensures
        s@ == compile_text(code@),
{
    let n = code.as_str().len();
    joined3("Compiled: ", integer_text(n as i128).as_str(), " bytes")
}

/// The reply to an `Init` request, given the outcome of running its code:
/// the value's text after "Init OK: ", or the error's text after "Init Error: ".
pub fn init_report(outcome: Result<String, String>) -> (s: String)
    ensures
        match outcome {
            Ok(value) => s@ == "Init OK: "@ + value@,
            Err(error) => s@ == "Init Error: "@ + error@,
        },
{
    match outcome {
        Ok(value) => crate::text::joined("Init OK: ", value.as_str()),
        Err(error) => crate::text::joined("Init Error: ", error.as_str()),
    }
}

/// The sequence number of a numbered reply; a watermark has none.
pub open spec fn reply_seq(o: ReliableOutput) -> Option<u64> {
    match o {
        ReliableOutput::Msg(e) => Some(e.seq),
        ReliableOutput::Watermark(_) => None,
    }
}

/// The replies in `queue` are numbered in increasing order, each below `next`.
pub open spec fn replies_ordered(queue: Seq<ReliableOutput>, next: u64) -> bool {
    &&& forall|i: int|
        0 <= i < queue.len() && (#[trigger] reply_seq(queue[i])) is Some ==> reply_seq(
            queue[i],
        )->0 < next
    &&& forall|i: int, j: int|
        0 <= i < j < queue.len() && (#[trigger] reply_seq(queue[i])) is Some && (#[trigger] reply_seq(
            queue[j],
        )) is Some ==> reply_seq(queue[i])->0 < reply_seq(queue[j])->0
}

/// `after` is `before` followed by the reply numbered `seq` with the text
/// `text` as its `Output::Result`, and then by a watermark acknowledging `ack`.
pub open spec fn answered_with(
    before: Seq<ReliableOutput>,
    after: Seq<ReliableOutput>,
    seq: u64,
    text: Seq<char>,
    ack: u64,
) -> bool {
    &&& after.len() == before.len() + 2
    &&& after.subrange(0, before.len() as int) == before
    &&& after[before.len() as int] matches ReliableOutput::Msg(e) && e.seq == seq && (
    e.msg matches Output::Result(t) && t@ == text)
    &&& after[before.len() as int + 1] == ReliableOutput::Watermark(ack)
}

/// Work that a request asks of the Python interpreter.
#[derive(Debug, PartialEq)]
pub enum Job {
    /// Run initialisation code in a fresh scope.
    Init(String),
    /// Run the property check of the code.
    Hegel(String),
    /// Build the animation of the code over the data.
    Lottie(String, Vec<i32>),
}

/// What the link made of an incoming message.
#[derive(Debug, PartialEq)]
pub enum Received {
    /// A watermark: nothing to do.
    Acknowledged,
    /// A request answered at once; its reply is queued.
    Answered,
    /// A request whose reply needs the interpreter: run the job, then `reply`.
    Work(Job),
}

/// The state of the outgoing channel when the link is asked for a message.
#[derive(Clone, Copy, Debug, PartialEq, Eq)]
pub enum SinkState {
    /// The channel takes a message now.
    Ready,
    /// The channel has failed; the message at the front is lost.
    Closed,
    /// The channel cannot take a message yet.
    Busy,
}

/// What to do with the front of the queue.
#[derive(Debug, PartialEq)]
pub enum Drain {
    /// Send this message; it has left the queue.
    Send(ReliableOutput),
    /// The front message was dropped.
    Discarded,
    /// Nothing leaves now.
    Wait,
}

/// The worker's end of the reliable link: the number of its next reply, the
/// number of the last request it received, and the queue of messages not
/// yet sent.
pub struct ReliableLink {
    next_output_seq: u64,
    last_received_seq: u64,
    outbox: VecDeque<ReliableOutput>,
}

impl ReliableLink {
    /// The number the next reply will carry.
    pub closed spec fn next_seq(&self) -> u64 {
        self.next_output_seq
    }

    /// The number of the last request received.
    pub closed spec fn last_received(&self) -> u64 {
        self.last_received_seq
    }

    /// The messages waiting to be sent, front first.
    pub closed spec fn queued(&self) -> Seq<ReliableOutput> {
        self.outbox@
    }

    /// The queued replies are numbered in increasing order, each below the
    /// number of the next reply.
    pub open spec fn inv(&self) -> bool {
        replies_ordered(self.queued(), self.next_seq())
    }

    #[verifier::type_invariant]
    closed spec fn well_formed(self) -> bool {
        replies_ordered(self.outbox@, self.next_output_seq)
    }

    /// A fresh link: the first reply will be number 0, nothing received, nothing queued.
    pub fn new() -> (link: Self)
        ensures
            link.next_seq() == 0,
            link.last_received() == 0,
            link.queued() == Seq::<ReliableOutput>::empty(),
            link.inv(),
    {
        ReliableLink { next_output_seq: 0, last_received_seq: 0, outbox: VecDeque::new() }
    }

    /// The number the next reply will carry.
    pub fn next_output_seq(&self) -> (n: u64)
        ensures
            n == self.next_seq(),
    {
        self.next_output_seq
    }

    /// The number of the last request received.
    pub fn last_received_seq(&self) -> (n: u64)
        ensures
            n == self.last_received(),
    {
        self.last_received_seq
    }

    /// Whether any message waits to be sent.
    pub fn has_outgoing(&self) -> (b: bool)
        ensures
            b == (self.queued().len() > 0),
    {
        self.outbox.len() > 0
    }

    /// Queues the reply `output`, numbered one after the previous reply, and
    /// after it a watermark acknowledging the last request received.
    pub fn reply(&mut self, output: Output)
        requires
            old(self).next_seq() < u64::MAX,
        ensures
            final(self).inv(),
            final(self).next_seq() == old(self).next_seq() + 1,
            final(self).last_received() == old(self).last_received(),
            final(self).queued() == old(self).queued().push(
                ReliableOutput::Msg(Envelope { seq: old(self).next_seq(), msg: output }),
            ).push(ReliableOutput::Watermark(old(self).last_received())),
    {
        proof {
            use_type_invariant(&*self);
        }
        let seq = self.next_output_seq;
        let ack = self.last_received_seq;
        let mut q: VecDeque<ReliableOutput> = VecDeque::new();
        std::mem::swap(&mut q, &mut self.outbox);
        let ghost before = q@;
        q.push_back(ReliableOutput::Msg(Envelope { seq, msg: output }));
        q.push_back(ReliableOutput::Watermark(ack));
        proof {
            assert forall|i: int| 0 <= i < q@.len() && (#[trigger] reply_seq(q@[i])) is Some implies reply_seq(
                q@[i],
            )->0 < seq + 1 by {
                if i < before.len() {
                    assert(q@[i] == before[i]);
                }
            }
            assert forall|i: int, j: int|
                0 <= i < j < q@.len() && (#[trigger] reply_seq(q@[i])) is Some && (#[trigger] reply_seq(
                    q@[j],
                )) is Some implies reply_seq(q@[i])->0 < reply_seq(q@[j])->0 by {
                let n = before.len();
                if j < n {
                    assert(q@[i] == before[i]);
                    assert(q@[j] == before[j]);
                } else if i < n {
                    assert(q@[i] == before[i]);
                    assert(reply_seq(before[i]) is Some);
                }
            }
        }
        self.next_output_seq = seq + 1;
        self.outbox = q;
    }

    /// Takes in a message from the editor. A request is recorded as the last
    /// one received; a `Compile` request is answered at once with the size of
    /// its code, and any other request is handed back as work whose result
    /// goes to `reply`. A watermark changes nothing.
    pub fn receive(&mut self, input: ReliableInput) -> (r: Received)
        requires
            old(self).next_seq() < u64::MAX,
        ensures
            final(self).inv(),
            match input {
                ReliableInput::Watermark(_) => {
                    &&& r == Received::Acknowledged
                    &&& final(self).queued() == old(self).queued()
                    &&& final(self).next_seq() == old(self).next_seq()
                    &&& final(self).last_received() == old(self).last_received()
                },
                ReliableInput::Msg(env) => {
                    &&& final(self).last_received() == env.seq
                    &&& match env.msg {
                        Input::Compile(code) => {
                            &&& r == Received::Answered
                            &&& final(self).next_seq() == old(self).next_seq() + 1
                            &&& answered_with(
                                old(self).queued(),
                                final(self).queued(),
                                old(self).next_seq(),
                                compile_text(code@),
                                env.seq,
                            )
                        },
                        Input::Init(code) => {
                            &&& r == Received::Work(Job::Init(code))
                            &&& final(self).queued() == old(self).queued()
                            &&& final(self).next_seq() == old(self).next_seq()
                        },
                        Input::RunHegel(code) => {
                            &&& r == Received::Work(Job::Hegel(code))
                            &&& final(self).queued() == old(self).queued()
                            &&& final(self).next_seq() == old(self).next_seq()
                        },
                        Input::GetLottie(code, data) => {
                            &&& r == Received::Work(Job::Lottie(code, data))
                            &&& final(self).queued() == old(self).queued()
                            &&& final(self).next_seq() == old(self).next_seq()
                        },
                    }
                },
            },
    {
        proof {
            use_type_invariant(&*self);
        }
        match input {
            ReliableInput::Watermark(_) => Received::Acknowledged,
            ReliableInput::Msg(env) => {
                self.last_received_seq = env.seq;
                match env.msg {
                    Input::Compile(code) => {
                        let text = compile_report(&code);
                        self.reply(Output::Result(text));
                        assert(self.outbox@.subrange(0, old(self).outbox@.len() as int)
                            =~= old(self).outbox@);
                        Received::Answered
                    },
                    Input::Init(code) => Received::Work(Job::Init(code)),
                    Input::RunHegel(code) => Received::Work(Job::Hegel(code)),
                    Input::GetLottie(code, data) => Received::Work(Job::Lottie(code, data)),
                }
            },
        }
    }

    /// Offers the front of the queue to the outgoing channel: when the channel
    /// is ready the front message leaves to be sent; when it has failed the
    /// front message is dropped; when it is busy, or nothing is queued,
    /// nothing changes.
    pub fn drain(&mut self, sink: SinkState) -> (r: Drain)
        ensures
            final(self).inv(),
            final(self).next_seq() == old(self).next_seq(),
            final(self).last_received() == old(self).last_received(),
            old(self).queued().len() == 0 ==> r == Drain::Wait && final(self).queued()
                == old(self).queued(),
            old(self).queued().len() > 0 ==> match sink {
                SinkState::Ready => {
                    &&& r == Drain::Send(old(self).queued()[0])
                    &&& final(self).queued() == old(self).queued().drop_first()
                },
                SinkState::Closed => {
                    &&& r == Drain::Discarded
                    &&& final(self).queued() == old(self).queued().drop_first()
                },
                SinkState::Busy => {
                    &&& r == Drain::Wait
                    &&& final(self).queued() == old(self).queued()
                },
            },
    {
        proof {
            use_type_invariant(&*self);
        }
        if self.outbox.len() == 0 {
            return Drain::Wait;
        }
        if let SinkState::Busy = sink {
            return Drain::Wait;
        }
        let mut q: VecDeque<ReliableOutput> = VecDeque::new();
        std::mem::swap(&mut q, &mut self.outbox);
        let ghost before = q@;
        let front = q.pop_front();
        proof {
            assert forall|i: int| 0 <= i < q@.len() && (#[trigger] reply_seq(q@[i])) is Some implies reply_seq(
                q@[i],
            )->0 < self.next_output_seq by {
                assert(q@[i] == before[i + 1]);
            }
            assert forall|i: int, j: int|
                0 <= i < j < q@.len() && (#[trigger] reply_seq(q@[i])) is Some && (#[trigger] reply_seq(
                    q@[j],
                )) is Some implies reply_seq(q@[i])->0 < reply_seq(q@[j])->0 by {
                assert(q@[i] == before[i + 1]);
                assert(q@[j] == before[j + 1]);
            }
        }
        self.outbox = q;
        match sink {
            SinkState::Ready => match front {
                Some(msg) => Drain::Send(msg),
                None => Drain::Wait,
            },
            _ => Drain::Discarded,
        }
    }
}

/// Replies leave the link in the order of their numbers: of two queued
/// replies, the one nearer the front carries the smaller number, and both are
/// numbered below the next reply the link will make.
pub proof fn lemma_queued_replies_increase(link: &ReliableLink, i: int, j: int)
    requires
        link.inv(),
        0 <= i < j < link.queued().len(),
        reply_seq(link.queued()[i]) is Some,
        reply_seq(link.queued()[j]) is Some,
    ensures
        reply_seq(link.queued()[i])->0 < reply_seq(link.queued()[j])->0,
        reply_seq(link.queued()[j])->0 < link.next_seq(),
{
}

/// The editor's end of the link: numbers the requests it sends.
pub struct InputSequencer {
    next_input_seq: u64,
}

impl InputSequencer {
    /// The number the next request will carry.
    pub closed spec fn next_seq(&self) -> u64 {
        self.next_input_seq
    }

    /// A sequencer whose first request will be number 0.
    pub fn new() -> (s: Self)
        ensures
            s.next_seq() == 0,
    {
        InputSequencer { next_input_seq: 0 }
    }

    /// The number the next request will carry.
    pub fn next_input_seq(&self) -> (n: u64)
        ensures
            n == self.next_seq(),
    {
        self.next_input_seq
    }

    /// Puts `msg` in an envelope numbered one after the previous request.
    pub fn wrap(&mut self, msg: Input) -> (r: ReliableInput)
        requires
            old(self).next_seq() < u64::MAX,
        ensures
            r == ReliableInput::Msg(Envelope { seq: old(self).next_seq(), msg }),
            final(self).next_seq() == old(self).next_seq() + 1,
    {
        let seq = self.next_input_seq;
        self.next_input_seq = seq + 1;
        ReliableInput::Msg(Envelope { seq, msg })
    }
}

} // verus!
