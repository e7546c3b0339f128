//! The client: where the server is, the credentials, and the consumers to
//! which the event stream hands each kind of event.

use vstd::prelude::*;
use tokio::sync::mpsc::Sender;
use crate::endpoint::{stream_url, stream_url_result};
use crate::errors::Error;
use crate::events::{
    kind_index, kind_of, AriEvent, ChannelDestroyed, ChannelDtmfReceived, ChannelHangupRequest,
    ChannelStateChange, ChannelTalkingFinished, ChannelTalkingStarted, ChannelVarset, EventKind,
    PlaybackFinished, PlaybackStarted, RecordingFinished, RecordingStarted, StasisEnd,
    StasisStart, KIND_COUNT,
};
use crate::json::strs_view;

verus! {

#[verifier::external_type_specification]
#[verifier::external_body]
#[verifier::reject_recursive_types(T)]
pub struct ExSender<T>(tokio::sync::mpsc::Sender<T>);

/// Relies on tokio's Sender::try_send: it hands the value to the queue without
/// waiting, and fails where the queue is full or its receiver is gone.
#[verifier::external_body]
fn offer<T>(sender: &Sender<T>, value: T) -> (accepted: bool) {
    sender.try_send(value).is_ok()
}

/// A bounded queue that receives the events of one kind.
pub enum Consumer {
    StasisStart(Sender<StasisStart>),
    ChannelDtmfReceived(Sender<ChannelDtmfReceived>),
    ChannelHangupRequest(Sender<ChannelHangupRequest>),
    StasisEnd(Sender<StasisEnd>),
    ChannelTalkingFinished(Sender<ChannelTalkingFinished>),
    ChannelTalkingStarted(Sender<ChannelTalkingStarted>),
    ChannelDestroyed(Sender<ChannelDestroyed>),
    PlaybackStarted(Sender<PlaybackStarted>),
    PlaybackFinished(Sender<PlaybackFinished>),
    ChannelStateChange(Sender<ChannelStateChange>),
    ChannelVarset(Sender<ChannelVarset>),
    RecordingStarted(Sender<RecordingStarted>),
    RecordingFinished(Sender<RecordingFinished>),
}

pub open spec fn consumer_kind(c: Consumer) -> EventKind {
    match c {
        Consumer::StasisStart(_) => EventKind::StasisStart,
        Consumer::ChannelDtmfReceived(_) => EventKind::ChannelDtmfReceived,
        Consumer::ChannelHangupRequest(_) => EventKind::ChannelHangupRequest,
        Consumer::StasisEnd(_) => EventKind::StasisEnd,
        Consumer::ChannelTalkingFinished(_) => EventKind::ChannelTalkingFinished,
        Consumer::ChannelTalkingStarted(_) => EventKind::ChannelTalkingStarted,
        Consumer::ChannelDestroyed(_) => EventKind::ChannelDestroyed,
        Consumer::PlaybackStarted(_) => EventKind::PlaybackStarted,
        Consumer::PlaybackFinished(_) => EventKind::PlaybackFinished,
        Consumer::ChannelStateChange(_) => EventKind::ChannelStateChange,
        Consumer::ChannelVarset(_) => EventKind::ChannelVarset,
        Consumer::RecordingStarted(_) => EventKind::RecordingStarted,
        Consumer::RecordingFinished(_) => EventKind::RecordingFinished,
    }
}

impl Consumer {
    pub fn kind(&self) -> (r: EventKind)
        ensures
            r == consumer_kind(*self),
    {
        match self {
            Consumer::StasisStart(_) => EventKind::StasisStart,
            Consumer::ChannelDtmfReceived(_) => EventKind::ChannelDtmfReceived,
            Consumer::ChannelHangupRequest(_) => EventKind::ChannelHangupRequest,
            Consumer::StasisEnd(_) => EventKind::StasisEnd,
            Consumer::ChannelTalkingFinished(_) => EventKind::ChannelTalkingFinished,
            Consumer::ChannelTalkingStarted(_) => EventKind::ChannelTalkingStarted,
            Consumer::ChannelDestroyed(_) => EventKind::ChannelDestroyed,
            Consumer::PlaybackStarted(_) => EventKind::PlaybackStarted,
            Consumer::PlaybackFinished(_) => EventKind::PlaybackFinished,
            Consumer::ChannelStateChange(_) => EventKind::ChannelStateChange,
            Consumer::ChannelVarset(_) => EventKind::ChannelVarset,
            Consumer::RecordingStarted(_) => EventKind::RecordingStarted,
            Consumer::RecordingFinished(_) => EventKind::RecordingFinished,
        }
    }

    /// Offers `e` to the queue, without waiting; whether the queue took it.
    pub fn deliver(&self, e: AriEvent) -> (accepted: bool)
        requires
            consumer_kind(*self) == kind_of(e),
    {
        match (self, e) {
            (Consumer::StasisStart(s), AriEvent::StasisStart(x)) => offer(s, x),
            (Consumer::ChannelDtmfReceived(s), AriEvent::ChannelDtmfReceived(x)) => offer(s, x),
            (Consumer::ChannelHangupRequest(s), AriEvent::ChannelHangupRequest(x)) => offer(s, x),
            (Consumer::StasisEnd(s), AriEvent::StasisEnd(x)) => offer(s, x),
            (Consumer::ChannelTalkingFinished(s), AriEvent::ChannelTalkingFinished(x)) => offer(s, x),
            (Consumer::ChannelTalkingStarted(s), AriEvent::ChannelTalkingStarted(x)) => offer(s, x),
            (Consumer::ChannelDestroyed(s), AriEvent::ChannelDestroyed(x)) => offer(s, x),
            (Consumer::PlaybackStarted(s), AriEvent::PlaybackStarted(x)) => offer(s, x),
            (Consumer::PlaybackFinished(s), AriEvent::PlaybackFinished(x)) => offer(s, x),
            (Consumer::ChannelStateChange(s), AriEvent::ChannelStateChange(x)) => offer(s, x),
            (Consumer::ChannelVarset(s), AriEvent::ChannelVarset(x)) => offer(s, x),
            (Consumer::RecordingStarted(s), AriEvent::RecordingStarted(x)) => offer(s, x),
            (Consumer::RecordingFinished(s), AriEvent::RecordingFinished(x)) => offer(s, x),
            _ => false,
        }
    }
}

/// At most one consumer for each kind of event.
pub struct ConsumerRegistry {
    slots: Vec<Option<Consumer>>,
}

impl ConsumerRegistry {
    /// Each kind has one slot, which holds nothing or a consumer of that kind.
    pub closed spec fn wf(&self) -> bool {
        &&& self.slots@.len() == KIND_COUNT
        &&& forall|i: int|
            0 <= i < KIND_COUNT ==> (#[trigger] self.slots@[i] matches Some(c) ==> kind_index(
                consumer_kind(c),
            ) == i)
    }

    /// The consumer of kind `k`, if there is one.
    pub closed spec fn consumer_for(&self, k: EventKind) -> Option<Consumer> {
        self.slots@[kind_index(k)]
    }

    /// The kinds that have a consumer.
    pub open spec fn registered(&self) -> Set<EventKind> {
        Set::new(|k: EventKind| self.consumer_for(k) is Some)
    }

    pub fn new() -> (r: ConsumerRegistry)
        ensures
            r.wf(),
            forall|k: EventKind| #[trigger] r.consumer_for(k) is None,
    {
        let mut slots: Vec<Option<Consumer>> = Vec::new();
        let mut i: usize = 0;
        while i < KIND_COUNT
            invariant
                i <= KIND_COUNT,
                slots@.len() == i,
                forall|x: int| 0 <= x < i ==> #[trigger] slots@[x] is None,
            decreases KIND_COUNT - i,
        {
            slots.push(None);
            i += 1;
        }
        ConsumerRegistry { slots }
    }

    /// Makes `target` the consumer of kind `kind`, in place of the one before;
    /// `None` leaves the kind without one.
    pub fn set_consumer(&mut self, kind: EventKind, target: Option<Consumer>)
        requires
            old(self).wf(),
            target matches Some(c) ==> consumer_kind(c) == kind,
        ensures
            final(self).wf(),
            final(self).consumer_for(kind) == target,
            forall|k: EventKind| k != kind ==> #[trigger] final(self).consumer_for(k) == old(
                self,
            ).consumer_for(k),
    {
        let i = kind.index();
        self.slots.set(i, target);
        assert forall|k: EventKind| k != kind implies #[trigger] self.consumer_for(k) == old(
            self,
        ).consumer_for(k) by {
            if kind_index(k) == kind_index(kind) {
                lemma_kind_index_injective(k, kind);
            }
        }
    }

    /// The consumer of kind `kind`, if there is one.
    pub fn consumer(&self, kind: EventKind) -> (r: Option<&Consumer>)
        requires
            self.wf(),
        ensures
            match r {
                Some(c) => self.consumer_for(kind) == Some(*c) && consumer_kind(*c) == kind,
                None => self.consumer_for(kind) is None,
            },
    {
        let i = kind.index();
        match &self.slots[i] {
            Some(c) => {
                proof {
                    lemma_kind_index_injective(consumer_kind(*c), kind);
                }
                Some(c)
            },
            None => None,
        }
    }
}

proof fn lemma_kind_index_injective(a: EventKind, b: EventKind)
    requires
        kind_index(a) == kind_index(b),
    ensures
        a == b,
{
}

/// A client of one server.
pub struct AriClient {
    /// The base URL of the server's REST interface, e.g. http://localhost:8088/ari.
    pub url: String,
    pub user: String,
    pub password: String,
    /// The consumer of each kind of event, where it has one.
    pub consumers: ConsumerRegistry,
}

impl AriClient {
    /// The consumer of kind `k`, if there is one.
    pub closed spec fn consumer_for(&self, k: EventKind) -> Option<Consumer> {
        self.consumers.consumer_for(k)
    }

    /// The kinds that have a consumer.
    pub open spec fn registered(&self) -> Set<EventKind> {
        Set::new(|k: EventKind| self.consumer_for(k) is Some)
    }


    pub open spec fn wf(&self) -> bool {
        self.consumers.wf()
    }

    /// A client with no consumer.
    pub fn new(url: String, user: String, password: String) -> (r: AriClient)
        ensures
            r.wf(),
            r.url == url,
            r.user == user,
            r.password == password,
            forall|k: EventKind| #[trigger] r.consumer_for(k) is None,
    {
        AriClient { url, user, password, consumers: ConsumerRegistry::new() }
    }

    /// Makes `target` the consumer of kind `kind`, in place of the one before.
    pub fn set_consumer(&mut self, kind: EventKind, target: Option<Consumer>)
        requires
            old(self).wf(),
            target matches Some(c) ==> consumer_kind(c) == kind,
        ensures
            final(self).wf(),
            final(self).url == old(self).url,
            final(self).user == old(self).user,
            final(self).password == old(self).password,
            final(self).consumer_for(kind) == target,
            forall|k: EventKind| k != kind ==> #[trigger] final(self).consumer_for(k) == old(
                self,
            ).consumer_for(k),
    {
        self.consumers.set_consumer(kind, target);
    }

    /// The consumer of kind `kind`, if there is one.
    pub fn consumer(&self, kind: EventKind) -> (r: Option<&Consumer>)
        requires
            self.wf(),
        ensures
            match r {
                Some(c) => self.consumer_for(kind) == Some(*c) && consumer_kind(*c) == kind,
                None => self.consumer_for(kind) is None,
            },
    {
        self.consumers.consumer(kind)
    }

    pub fn set_stasis_start_sender(&mut self, sender: Option<Sender<StasisStart>>)
        requires
            old(self).wf(),
        ensures
            final(self).wf(),
            final(self).url == old(self).url,
            final(self).user == old(self).user,
            final(self).password == old(self).password,
            final(self).consumer_for(EventKind::StasisStart) == match sender {
                Some(s) => Some(Consumer::StasisStart(s)),
                None => None,
            },
            forall|k: EventKind| k != EventKind::StasisStart ==> #[trigger] final(self).consumer_for(k) == old(
                self,
            ).consumer_for(k),
    {
        let target = match sender {
            Some(s) => Some(Consumer::StasisStart(s)),
            None => None,
        };
        self.set_consumer(EventKind::StasisStart, target);
    }

    pub fn set_channel_dtmf_received_sender(&mut self, sender: Option<Sender<ChannelDtmfReceived>>)
        requires
            old(self).wf(),
        ensures
            final(self).wf(),
            final(self).url == old(self).url,
            final(self).user == old(self).user,
            final(self).password == old(self).password,
            final(self).consumer_for(EventKind::ChannelDtmfReceived) == match sender {
                Some(s) => Some(Consumer::ChannelDtmfReceived(s)),
                None => None,
            },
            forall|k: EventKind| k != EventKind::ChannelDtmfReceived ==> #[trigger] final(self).consumer_for(k) == old(
                self,
            ).consumer_for(k),
    {
        let target = match sender {
            Some(s) => Some(Consumer::ChannelDtmfReceived(s)),
            None => None,
        };
        self.set_consumer(EventKind::ChannelDtmfReceived, target);
    }

    pub fn set_channel_hangup_request_sender(&mut self, sender: Option<Sender<ChannelHangupRequest>>)
        requires
            old(self).wf(),
        ensures
            final(self).wf(),
            final(self).url == old(self).url,
            final(self).user == old(self).user,
            final(self).password == old(self).password,
            final(self).consumer_for(EventKind::ChannelHangupRequest) == match sender {
                Some(s) => Some(Consumer::ChannelHangupRequest(s)),
                None => None,
            },
            forall|k: EventKind| k != EventKind::ChannelHangupRequest ==> #[trigger] final(self).consumer_for(k) == old(
                self,
            ).consumer_for(k),
    {
        let target = match sender {
            Some(s) => Some(Consumer::ChannelHangupRequest(s)),
            None => None,
        };
        self.set_consumer(EventKind::ChannelHangupRequest, target);
    }

    pub fn set_stasis_end_sender(&mut self, sender: Option<Sender<StasisEnd>>)
        requires
            old(self).wf(),
        ensures
            final(self).wf(),
            final(self).url == old(self).url,
            final(self).user == old(self).user,
            final(self).password == old(self).password,
            final(self).consumer_for(EventKind::StasisEnd) == match sender {
                Some(s) => Some(Consumer::StasisEnd(s)),
                None => None,
            },
            forall|k: EventKind| k != EventKind::StasisEnd ==> #[trigger] final(self).consumer_for(k) == old(
                self,
            ).consumer_for(k),
    {
        let target = match sender {
            Some(s) => Some(Consumer::StasisEnd(s)),
            None => None,
        };
        self.set_consumer(EventKind::StasisEnd, target);
    }

    pub fn set_channel_talking_finished_sender(&mut self, sender: Option<Sender<ChannelTalkingFinished>>)
        requires
            old(self).wf(),
        ensures
            final(self).wf(),
            final(self).url == old(self).url,
            final(self).user == old(self).user,
            final(self).password == old(self).password,
            final(self).consumer_for(EventKind::ChannelTalkingFinished) == match sender {
                Some(s) => Some(Consumer::ChannelTalkingFinished(s)),
                None => None,
            },
            forall|k: EventKind| k != EventKind::ChannelTalkingFinished ==> #[trigger] final(self).consumer_for(k) == old(
                self,
            ).consumer_for(k),
    {
        let target = match sender {
            Some(s) => Some(Consumer::ChannelTalkingFinished(s)),
            None => None,
        };
        self.set_consumer(EventKind::ChannelTalkingFinished, target);
    }

    pub fn set_channel_talking_started_sender(&mut self, sender: Option<Sender<ChannelTalkingStarted>>)
        requires
            old(self).wf(),
        ensures
            final(self).wf(),
            final(self).url == old(self).url,
            final(self).user == old(self).user,
            final(self).password == old(self).password,
            final(self).consumer_for(EventKind::ChannelTalkingStarted) == match sender {
                Some(s) => Some(Consumer::ChannelTalkingStarted(s)),
                None => None,
            },
            forall|k: EventKind| k != EventKind::ChannelTalkingStarted ==> #[trigger] final(self).consumer_for(k) == old(
                self,
            ).consumer_for(k),
    {
        let target = match sender {
            Some(s) => Some(Consumer::ChannelTalkingStarted(s)),
            None => None,
        };
        self.set_consumer(EventKind::ChannelTalkingStarted, target);
    }

    pub fn set_channel_destroyed_sender(&mut self, sender: Option<Sender<ChannelDestroyed>>)
        requires
            old(self).wf(),
        ensures
            final(self).wf(),
            final(self).url == old(self).url,
            final(self).user == old(self).user,
            final(self).password == old(self).password,
            final(self).consumer_for(EventKind::ChannelDestroyed) == match sender {
                Some(s) => Some(Consumer::ChannelDestroyed(s)),
                None => None,
            },
            forall|k: EventKind| k != EventKind::ChannelDestroyed ==> #[trigger] final(self).consumer_for(k) == old(
                self,
            ).consumer_for(k),
    {
        let target = match sender {
            Some(s) => Some(Consumer::ChannelDestroyed(s)),
            None => None,
        };
        self.set_consumer(EventKind::ChannelDestroyed, target);
    }

    pub fn set_playback_started_sender(&mut self, sender: Option<Sender<PlaybackStarted>>)
        requires
            old(self).wf(),
        ensures
            final(self).wf(),
            final(self).url == old(self).url,
            final(self).user == old(self).user,
            final(self).password == old(self).password,
            final(self).consumer_for(EventKind::PlaybackStarted) == match sender {
                Some(s) => Some(Consumer::PlaybackStarted(s)),
                None => None,
            },
            forall|k: EventKind| k != EventKind::PlaybackStarted ==> #[trigger] final(self).consumer_for(k) == old(
                self,
            ).consumer_for(k),
    {
        let target = match sender {
            Some(s) => Some(Consumer::PlaybackStarted(s)),
            None => None,
        };
        self.set_consumer(EventKind::PlaybackStarted, target);
    }

    pub fn set_playback_finished_sender(&mut self, sender: Option<Sender<PlaybackFinished>>)
        requires
            old(self).wf(),
        ensures
            final(self).wf(),
            final(self).url == old(self).url,
            final(self).user == old(self).user,
            final(self).password == old(self).password,
            final(self).consumer_for(EventKind::PlaybackFinished) == match sender {
                Some(s) => Some(Consumer::PlaybackFinished(s)),
                None => None,
            },
            forall|k: EventKind| k != EventKind::PlaybackFinished ==> #[trigger] final(self).consumer_for(k) == old(
                self,
            ).consumer_for(k),
    {
        let target = match sender {
            Some(s) => Some(Consumer::PlaybackFinished(s)),
            None => None,
        };
        self.set_consumer(EventKind::PlaybackFinished, target);
    }

    pub fn set_channel_state_change_sender(&mut self, sender: Option<Sender<ChannelStateChange>>)
        requires
            old(self).wf(),
        ensures
            final(self).wf(),
            final(self).url == old(self).url,
            final(self).user == old(self).user,
            final(self).password == old(self).password,
            final(self).consumer_for(EventKind::ChannelStateChange) == match sender {
                Some(s) => Some(Consumer::ChannelStateChange(s)),
                None => None,
            },
            forall|k: EventKind| k != EventKind::ChannelStateChange ==> #[trigger] final(self).consumer_for(k) == old(
                self,
            ).consumer_for(k),
    {
        let target = match sender {
            Some(s) => Some(Consumer::ChannelStateChange(s)),
            None => None,
        };
        self.set_consumer(EventKind::ChannelStateChange, target);
    }

    pub fn set_channel_var_set_sender(&mut self, sender: Option<Sender<ChannelVarset>>)
        requires
            old(self).wf(),
        ensures
            final(self).wf(),
            final(self).url == old(self).url,
            final(self).user == old(self).user,
            final(self).password == old(self).password,
            final(self).consumer_for(EventKind::ChannelVarset) == match sender {
                Some(s) => Some(Consumer::ChannelVarset(s)),
                None => None,
            },
            forall|k: EventKind| k != EventKind::ChannelVarset ==> #[trigger] final(self).consumer_for(k) == old(
                self,
            ).consumer_for(k),
    {
        let target = match sender {
            Some(s) => Some(Consumer::ChannelVarset(s)),
            None => None,
        };
        self.set_consumer(EventKind::ChannelVarset, target);
    }

    pub fn set_recording_started_sender(&mut self, sender: Option<Sender<RecordingStarted>>)
        requires
            old(self).wf(),
        ensures
            final(self).wf(),
            final(self).url == old(self).url,
            final(self).user == old(self).user,
            final(self).password == old(self).password,
            final(self).consumer_for(EventKind::RecordingStarted) == match sender {
                Some(s) => Some(Consumer::RecordingStarted(s)),
                None => None,
            },
            forall|k: EventKind| k != EventKind::RecordingStarted ==> #[trigger] final(self).consumer_for(k) == old(
                self,
            ).consumer_for(k),
    {
        let target = match sender {
            Some(s) => Some(Consumer::RecordingStarted(s)),
            None => None,
        };
        self.set_consumer(EventKind::RecordingStarted, target);
    }

    pub fn set_recording_finished_sender(&mut self, sender: Option<Sender<RecordingFinished>>)
        requires
            old(self).wf(),
        ensures
            final(self).wf(),
            final(self).url == old(self).url,
            final(self).user == old(self).user,
            final(self).password == old(self).password,
            final(self).consumer_for(EventKind::RecordingFinished) == match sender {
                Some(s) => Some(Consumer::RecordingFinished(s)),
                None => None,
            },
            forall|k: EventKind| k != EventKind::RecordingFinished ==> #[trigger] final(self).consumer_for(k) == old(
                self,
            ).consumer_for(k),
    {
        let target = match sender {
            Some(s) => Some(Consumer::RecordingFinished(s)),
            None => None,
        };
        self.set_consumer(EventKind::RecordingFinished, target);
    }

    /// The address of this server's event stream for the applications `apps`.
    pub fn events_address(&self, apps: &Vec<String>) -> (r: Result<String, Error>)
        ensures
            match r {
                Ok(u) => stream_url_result(self.url@, strs_view(*apps), self.user@, self.password@)
                    == Ok::<Seq<char>, Error>(u@),
                Err(e) => stream_url_result(self.url@, strs_view(*apps), self.user@, self.password@)
                    == Err::<Seq<char>, Error>(e),
            },
    {
        stream_url(self.url.as_str(), apps, self.user.as_str(), self.password.as_str())
    }
}

} // verus!
