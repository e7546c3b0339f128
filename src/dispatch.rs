//! The dispatch engine: the decisions of the event-stream loop. The loop
//! around it reads the connection and the keep-alive timer, hands each
//! arrival to the engine, and performs what the engine answers.

use vstd::prelude::*;
use rand::Rng;
use crate::client::AriClient;
use crate::errors::Error;
use crate::events::{decode, kind_named, text_failure, DecodeError, EventKind};
use crate::json::{json_tree, str_member};

verus! {

#[derive(Clone, Copy, Debug, PartialEq, Eq, Structural)]
pub enum LoopState {
    /// Not started yet.
    Idle,
    Running,
    /// Stopped for good: the peer closed the stream, or it failed.
    Terminated,
}

/// What the connection handed the loop.
#[derive(Clone, Debug, PartialEq)]
pub enum Inbound {
    Text(String),
    Binary(Vec<u8>),
    Ping(Vec<u8>),
    Pong(Vec<u8>),
    /// A close frame.
    Close,
    /// A raw frame of another kind.
    Frame,
    /// The stream ended without a close frame.
    End,
    /// Reading from the stream failed, with what was said of it.
    Failed(String),
}

/// What the engine made of an arrival, and what the loop has to do.
#[derive(Clone, Debug, PartialEq)]
pub enum Step {
    /// Send a pong with this payload; a failure to send is of no consequence.
    SendPong(Vec<u8>),
    /// Send a ping with this payload; a failure to send is of no consequence.
    SendPing(Vec<u8>),
    /// An event of this kind was offered to its consumer; whether it was taken.
    Delivered(EventKind, bool),
    /// An event of this kind arrived, and no consumer takes that kind.
    Unrouted(EventKind),
    /// A text that is no event.
    Rejected(DecodeError),
    /// Nothing to do.
    Ignored,
    /// A frame of a kind that the stream is not expected to carry.
    Unexpected,
    /// The peer closed the stream: the loop ends, successfully.
    Closed,
    /// The stream ended without a close frame: the loop ends, successfully.
    Ended,
    /// The stream failed: the loop ends with this error.
    Failed(Error),
    /// The engine is not running: nothing to do.
    Halted,
}

/// The kind of event that a text names in its `type` member.
pub open spec fn text_kind(t: Seq<char>) -> Option<EventKind> {
    match json_tree(t) {
        Some(j) => match str_member(j, "type"@) {
            Some(n) => kind_named(n),
            None => None,
        },
        None => None,
    }
}

/// The texts handed to a consumer, after the text `t` arrived, where the kinds
/// `reg` have a consumer: `t` joins them where it is an event of one of those
/// kinds.
pub open spec fn after_text(reg: Set<EventKind>, h: Seq<Seq<char>>, t: Seq<char>) -> Seq<
    Seq<char>,
> {
    if text_failure(t) is None && (text_kind(t) matches Some(k) && reg.contains(k)) {
        h.push(t)
    } else {
        h
    }
}

/// The texts handed to a consumer after the texts `ts` arrived in order.
pub open spec fn after_texts(reg: Set<EventKind>, h: Seq<Seq<char>>, ts: Seq<Seq<char>>) -> Seq<
    Seq<char>,
>
    decreases ts.len(),
{
    if ts.len() == 0 {
        h
    } else {
        after_text(reg, after_texts(reg, h, ts.drop_last()), ts.last())
    }
}

/// Events of one kind reach its consumer each once, in the order in which
/// they arrived: where every text of `ts` is an event of kind `v`, and `v` has
/// a consumer, the texts handed on after them are those handed on before,
/// followed by `ts`.
pub proof fn lemma_order_kept(
    reg: Set<EventKind>,
    h: Seq<Seq<char>>,
    ts: Seq<Seq<char>>,
    v: EventKind,
)
    requires
        reg.contains(v),
        forall|i: int|
            0 <= i < ts.len() ==> text_failure(#[trigger] ts[i]) is None && text_kind(ts[i])
                == Some(v),
    ensures
        after_texts(reg, h, ts) == h + ts,
    decreases ts.len(),
{
    if ts.len() == 0 {
        assert(h + ts =~= h);
    } else {
        let init = ts.drop_last();
        assert forall|i: int| 0 <= i < init.len() implies text_failure(#[trigger] init[i]) is None
            && text_kind(init[i]) == Some(v) by {
            assert(init[i] == ts[i]);
        }
        lemma_order_kept(reg, h, init, v);
        assert(text_failure(ts[ts.len() - 1]) is None);
        assert((h + init).push(ts.last()) =~= h + ts);
    }
}

/// An event of a kind that has no consumer is handed to no one.
pub proof fn lemma_unrouted_event_dropped(
    reg: Set<EventKind>,
    h: Seq<Seq<char>>,
    t: Seq<char>,
    v: EventKind,
)
    requires
        text_failure(t) is None,
        text_kind(t) == Some(v),
        !reg.contains(v),
    ensures
        after_text(reg, h, t) == h,
{
}

/// A text that is no event is handed to no one.
pub proof fn lemma_bad_text_dropped(reg: Set<EventKind>, h: Seq<Seq<char>>, t: Seq<char>)
    requires
        text_failure(t) is Some,
    ensures
        after_text(reg, h, t) == h,
{
}

/// Relies on rand::thread_rng and Rng::gen for `[u8; 32]`: 32 bytes drawn at
/// random.
#[verifier::external_body]
fn random_block() -> (r: Vec<u8>)
    ensures
        r.len() == 32,
{
    rand::thread_rng().gen::<[u8; 32]>().to_vec()
}

/// The state of the event-stream loop.
pub struct Dispatcher {
    state: LoopState,
    handed: Ghost<Seq<Seq<char>>>,
}

impl Dispatcher {
    pub closed spec fn state(&self) -> LoopState {
        self.state
    }

    /// The texts whose events were offered to a consumer, in order of arrival.
    pub closed spec fn handed(&self) -> Seq<Seq<char>> {
        self.handed@
    }

    pub fn new() -> (r: Dispatcher)
        ensures
            r.state() == LoopState::Idle,
            r.handed() == Seq::<Seq<char>>::empty(),
    {
        Dispatcher { state: LoopState::Idle, handed: Ghost(Seq::empty()) }
    }

    pub fn loop_state(&self) -> (r: LoopState)
        ensures
            r == self.state(),
    {
        self.state
    }

    /// Starts the loop: an idle engine runs from now on.
    pub fn start(&mut self)
        ensures
            final(self).state() == (if old(self).state() == LoopState::Idle {
                LoopState::Running
            } else {
                old(self).state()
            }),
            final(self).handed() == old(self).handed(),
    {
        if self.state == LoopState::Idle {
            self.state = LoopState::Running;
        }
    }

    /// Handles one arrival from the connection. A text is decoded, and its
    /// event offered to the consumer of its kind without waiting; a ping is
    /// answered with a pong of the same payload; a close frame, the end of the
    /// stream or a failure ends the loop. Nothing else ends it.
    pub fn receive(&mut self, client: &AriClient, input: Inbound) -> (r: Step)
        requires
            client.wf(),
        ensures
            old(self).state() != LoopState::Running ==> r == Step::Halted && *final(self) == *old(
                self,
            ),
            old(self).state() == LoopState::Running ==> match input {
                Inbound::Text(t) => {
                    &&& final(self).state() == LoopState::Running
                    &&& final(self).handed() == after_text(
                        client.registered(),
                        old(self).handed(),
                        t@,
                    )
                    &&& match r {
                        Step::Delivered(k, _) => text_failure(t@) is None && text_kind(t@) == Some(
                            k,
                        ) && client.registered().contains(k),
                        Step::Unrouted(k) => text_failure(t@) is None && text_kind(t@) == Some(k)
                            && !client.registered().contains(k),
                        Step::Rejected(e) => e.raw@ == t@ && text_failure(t@) == Some(e.kind),
                        _ => false,
                    }
                },
                Inbound::Ping(p) => {
                    &&& r matches Step::SendPong(q) && q@ == p@
                    &&& final(self).state() == LoopState::Running
                    &&& final(self).handed() == old(self).handed()
                },
                Inbound::Pong(_) => {
                    &&& r == Step::Ignored
                    &&& final(self).state() == LoopState::Running
                    &&& final(self).handed() == old(self).handed()
                },
                Inbound::Binary(_) | Inbound::Frame => {
                    &&& r == Step::Unexpected
                    &&& final(self).state() == LoopState::Running
                    &&& final(self).handed() == old(self).handed()
                },
                Inbound::Close => {
                    &&& r == Step::Closed
                    &&& final(self).state() == LoopState::Terminated
                    &&& final(self).handed() == old(self).handed()
                },
                Inbound::End => {
                    &&& r == Step::Ended
                    &&& final(self).state() == LoopState::Terminated
                    &&& final(self).handed() == old(self).handed()
                },
                Inbound::Failed(m) => {
                    &&& r == Step::Failed(Error::Websocket(m))
                    &&& final(self).state() == LoopState::Terminated
                    &&& final(self).handed() == old(self).handed()
                },
            },
    {
        if self.state != LoopState::Running {
            return Step::Halted;
        }
        match input {
            Inbound::Text(t) => match decode(t.as_str()) {
                Err(e) => Step::Rejected(e),
                Ok(e) => {
                    let kind = e.kind();
                    match client.consumer(kind) {
                        Some(c) => {
                            self.handed = Ghost(self.handed@.push(t@));
                            let accepted = c.deliver(e);
                            Step::Delivered(kind, accepted)
                        },
                        None => Step::Unrouted(kind),
                    }
                },
            },
            Inbound::Ping(p) => Step::SendPong(p),
            Inbound::Pong(_) => Step::Ignored,
            Inbound::Binary(_) => Step::Unexpected,
            Inbound::Frame => Step::Unexpected,
            Inbound::Close => {
                self.state = LoopState::Terminated;
                Step::Closed
            },
            Inbound::End => {
                self.state = LoopState::Terminated;
                Step::Ended
            },
            Inbound::Failed(m) => {
                self.state = LoopState::Terminated;
                Step::Failed(Error::Websocket(m))
            },
        }
    }

    /// Handles a tick of the keep-alive timer: a running engine asks for a
    /// ping with a fresh payload of 32 random bytes.
    pub fn keep_alive(&self) -> (r: Step)
        ensures
            self.state() == LoopState::Running ==> (r matches Step::SendPing(p) && p.len() == 32),
            self.state() != LoopState::Running ==> r == Step::Halted,
    {
        if self.state != LoopState::Running {
            return Step::Halted;
        }
        Step::SendPing(random_block())
    }
}

} // verus!
