//! Events: the notifications that the server pushes over the event stream,
//! and their decoding from one text message.

use vstd::prelude::*;
use crate::channels::{channel_matches, channel_valid, Channel};
use crate::json::{
    get_member, get_i64, get_opt_bool, get_opt_i64, get_opt_str, get_str, get_str_list,
    int_member, json_tree, member, opt_bool_member, opt_int_member, opt_int_view, opt_str_member,
    opt_str_view, parse_json, str_eq, str_list_member, str_member, strs_view, JsonTree, JsonValue,
};
use crate::playbacks::{playback_matches, playback_valid, Playback};
use crate::recordings::{recording_matches, recording_valid, Recording};

verus! {

/// The part that every message of the stream has.
#[derive(Clone, Debug, PartialEq)]
pub struct Message {
    /// The type of this message.
    pub message_type: String,
    /// The unique ID of the Asterisk instance that raised this event.
    pub asterisk_id: Option<String>,
}

/// Whether a JSON value has the shape of a `Message`.
pub open spec fn message_valid(t: JsonTree) -> bool {
    &&& str_member(t, "type"@) is Some
    &&& opt_str_member(t, "asterisk_id"@) is Some
}

/// Whether `x` holds what the JSON value `t` holds.
pub open spec fn message_matches(t: JsonTree, x: Message) -> bool {
    &&& str_member(t, "type"@) == Some(x.message_type@)
    &&& opt_str_member(t, "asterisk_id"@) == Some(opt_str_view(x.asterisk_id))
}

impl Message {
    /// Reads a `Message` from a JSON object; `None` where a member is missing or
    /// of the wrong kind. Members that it does not know are ignored.
    pub fn from_json(j: &JsonValue) -> (r: Option<Message>)
        ensures
            match r {
                Some(x) => message_matches(j@, x),
                None => !message_valid(j@),
            },
    {
        let message_type = match get_str(j, "type") {
            Some(v) => v,
            None => {
                return None;
            },
        };
        let asterisk_id = match get_opt_str(j, "asterisk_id") {
            Some(v) => v,
            None => {
                return None;
            },
        };
        Some(Message { message_type, asterisk_id })
    }
}

/// The part that every event has.
#[derive(Clone, Debug, PartialEq)]
pub struct Event {
    /// The type of this event.
    pub event_type: String,
    /// The unique ID of the Asterisk instance that raised this event.
    pub asterisk_id: Option<String>,
    /// Name of the application receiving the event.
    pub application: String,
    /// When this event was created, as the server wrote it, e.g. 2020-11-22T20:12:51.214+0000.
    pub timestamp: String,
}

/// Whether a JSON value has the shape of a `Event`.
pub open spec fn event_valid(t: JsonTree) -> bool {
    &&& str_member(t, "type"@) is Some
    &&& opt_str_member(t, "asterisk_id"@) is Some
    &&& str_member(t, "application"@) is Some
    &&& str_member(t, "timestamp"@) is Some
}

/// Whether `x` holds what the JSON value `t` holds.
pub open spec fn event_matches(t: JsonTree, x: Event) -> bool {
    &&& str_member(t, "type"@) == Some(x.event_type@)
    &&& opt_str_member(t, "asterisk_id"@) == Some(opt_str_view(x.asterisk_id))
    &&& str_member(t, "application"@) == Some(x.application@)
    &&& str_member(t, "timestamp"@) == Some(x.timestamp@)
}

impl Event {
    /// Reads a `Event` from a JSON object; `None` where a member is missing or
    /// of the wrong kind. Members that it does not know are ignored.
    pub fn from_json(j: &JsonValue) -> (r: Option<Event>)
        ensures
            match r {
                Some(x) => event_matches(j@, x),
                None => !event_valid(j@),
            },
    {
        let event_type = match get_str(j, "type") {
            Some(v) => v,
            None => {
                return None;
            },
        };
        let asterisk_id = match get_opt_str(j, "asterisk_id") {
            Some(v) => v,
            None => {
                return None;
            },
        };
        let application = match get_str(j, "application") {
            Some(v) => v,
            None => {
                return None;
            },
        };
        let timestamp = match get_str(j, "timestamp") {
            Some(v) => v,
            None => {
                return None;
            },
        };
        Some(Event { event_type, asterisk_id, application, timestamp })
    }
}

/// A channel entered the application.
#[derive(Clone, Debug, PartialEq)]
pub struct StasisStart {
    /// The unique ID of the Asterisk instance that raised this event.
    pub asterisk_id: Option<String>,
    /// Name of the application receiving the event.
    pub application: String,
    /// When this event was created, as the server wrote it, e.g. 2020-11-22T20:12:51.214+0000.
    pub timestamp: String,
    /// Arguments to the application.
    pub args: Vec<String>,
    /// The channel.
    pub channel: Channel,
    /// The channel that this one replaces.
    pub replace_channel: Option<Channel>,
}

/// Whether a JSON value has the shape of a `StasisStart`.
pub open spec fn stasis_start_valid(t: JsonTree) -> bool {
    &&& opt_str_member(t, "asterisk_id"@) is Some
    &&& str_member(t, "application"@) is Some
    &&& str_member(t, "timestamp"@) is Some
    &&& str_list_member(t, "args"@) is Some
    &&& member(t, "channel"@) matches Some(c) && channel_valid(c)
    &&& (match member(t, "replace_channel"@) {
        None => true,
        Some(JsonTree::Null) => true,
        Some(c) => channel_valid(c),
    })
}

/// Whether `x` holds what the JSON value `t` holds.
pub open spec fn stasis_start_matches(t: JsonTree, x: StasisStart) -> bool {
    &&& opt_str_member(t, "asterisk_id"@) == Some(opt_str_view(x.asterisk_id))
    &&& str_member(t, "application"@) == Some(x.application@)
    &&& str_member(t, "timestamp"@) == Some(x.timestamp@)
    &&& str_list_member(t, "args"@) == Some(strs_view(x.args))
    &&& member(t, "channel"@) matches Some(c) && channel_matches(c, x.channel)
    &&& (match member(t, "replace_channel"@) {
        None => x.replace_channel is None,
        Some(JsonTree::Null) => x.replace_channel is None,
        Some(c) => x.replace_channel matches Some(v) && channel_matches(c, v),
    })
}

impl StasisStart {
    /// Reads a `StasisStart` from a JSON object; `None` where a member is missing or
    /// of the wrong kind. Members that it does not know are ignored.
    pub fn from_json(j: &JsonValue) -> (r: Option<StasisStart>)
        ensures
            match r {
                Some(x) => stasis_start_matches(j@, x),
                None => !stasis_start_valid(j@),
            },
    {
        let asterisk_id = match get_opt_str(j, "asterisk_id") {
            Some(v) => v,
            None => {
                return None;
            },
        };
        let application = match get_str(j, "application") {
            Some(v) => v,
            None => {
                return None;
            },
        };
        let timestamp = match get_str(j, "timestamp") {
            Some(v) => v,
            None => {
                return None;
            },
        };
        let args = match get_str_list(j, "args") {
            Some(v) => v,
            None => {
                return None;
            },
        };
        let channel = match get_member(j, "channel") {
            Some(c) => match Channel::from_json(c) {
                Some(v) => v,
                None => {
                    return None;
                },
            },
            None => {
                return None;
            },
        };
        let replace_channel = match get_member(j, "replace_channel") {
            None => None,
            Some(JsonValue::Null) => None,
            Some(c) => match Channel::from_json(c) {
                Some(v) => Some(v),
                None => {
                    return None;
                },
            },
        };
        Some(StasisStart { asterisk_id, application, timestamp, args, channel, replace_channel })
    }
}

/// A DTMF digit was received on a channel.
#[derive(Clone, Debug, PartialEq)]
pub struct ChannelDtmfReceived {
    /// The unique ID of the Asterisk instance that raised this event.
    pub asterisk_id: Option<String>,
    /// Name of the application receiving the event.
    pub application: String,
    /// When this event was created, as the server wrote it, e.g. 2020-11-22T20:12:51.214+0000.
    pub timestamp: String,
    /// The digit received (0-9, A-E, # or *).
    pub digit: String,
    /// How long the digit was received, in milliseconds.
    pub duration_ms: i64,
    /// The channel.
    pub channel: Channel,
}

/// Whether a JSON value has the shape of a `ChannelDtmfReceived`.
pub open spec fn channel_dtmf_received_valid(t: JsonTree) -> bool {
    &&& opt_str_member(t, "asterisk_id"@) is Some
    &&& str_member(t, "application"@) is Some
    &&& str_member(t, "timestamp"@) is Some
    &&& str_member(t, "digit"@) is Some
    &&& int_member(t, "duration_ms"@) is Some
    &&& member(t, "channel"@) matches Some(c) && channel_valid(c)
}

/// Whether `x` holds what the JSON value `t` holds.
pub open spec fn channel_dtmf_received_matches(t: JsonTree, x: ChannelDtmfReceived) -> bool {
    &&& opt_str_member(t, "asterisk_id"@) == Some(opt_str_view(x.asterisk_id))
    &&& str_member(t, "application"@) == Some(x.application@)
    &&& str_member(t, "timestamp"@) == Some(x.timestamp@)
    &&& str_member(t, "digit"@) == Some(x.digit@)
    &&& int_member(t, "duration_ms"@) == Some(x.duration_ms as int)
    &&& member(t, "channel"@) matches Some(c) && channel_matches(c, x.channel)
}

impl ChannelDtmfReceived {
    /// Reads a `ChannelDtmfReceived` from a JSON object; `None` where a member is missing or
    /// of the wrong kind. Members that it does not know are ignored.
    pub fn from_json(j: &JsonValue) -> (r: Option<ChannelDtmfReceived>)
        ensures
            match r {
                Some(x) => channel_dtmf_received_matches(j@, x),
                None => !channel_dtmf_received_valid(j@),
            },
    {
        let asterisk_id = match get_opt_str(j, "asterisk_id") {
            Some(v) => v,
            None => {
                return None;
            },
        };
        let application = match get_str(j, "application") {
            Some(v) => v,
            None => {
                return None;
            },
        };
        let timestamp = match get_str(j, "timestamp") {
            Some(v) => v,
            None => {
                return None;
            },
        };
        let digit = match get_str(j, "digit") {
            Some(v) => v,
            None => {
                return None;
            },
        };
        let duration_ms = match get_i64(j, "duration_ms") {
            Some(v) => v,
            None => {
                return None;
            },
        };
        let channel = match get_member(j, "channel") {
            Some(c) => match Channel::from_json(c) {
                Some(v) => v,
                None => {
                    return None;
                },
            },
            None => {
                return None;
            },
        };
        Some(ChannelDtmfReceived { asterisk_id, application, timestamp, digit, duration_ms, channel })
    }
}

/// A hangup was requested on a channel.
#[derive(Clone, Debug, PartialEq)]
pub struct ChannelHangupRequest {
    /// The unique ID of the Asterisk instance that raised this event.
    pub asterisk_id: Option<String>,
    /// Name of the application receiving the event.
    pub application: String,
    /// When this event was created, as the server wrote it, e.g. 2020-11-22T20:12:51.214+0000.
    pub timestamp: String,
    /// Integer representation of the cause of the hangup.
    pub cause: Option<i64>,
    /// Whether the request was a soft hangup.
    pub soft: Option<bool>,
    /// The channel.
    pub channel: Channel,
}

/// Whether a JSON value has the shape of a `ChannelHangupRequest`.
pub open spec fn channel_hangup_request_valid(t: JsonTree) -> bool {
    &&& opt_str_member(t, "asterisk_id"@) is Some
    &&& str_member(t, "application"@) is Some
    &&& str_member(t, "timestamp"@) is Some
    &&& opt_int_member(t, "cause"@) is Some
    &&& opt_bool_member(t, "soft"@) is Some
    &&& member(t, "channel"@) matches Some(c) && channel_valid(c)
}

/// Whether `x` holds what the JSON value `t` holds.
pub open spec fn channel_hangup_request_matches(t: JsonTree, x: ChannelHangupRequest) -> bool {
    &&& opt_str_member(t, "asterisk_id"@) == Some(opt_str_view(x.asterisk_id))
    &&& str_member(t, "application"@) == Some(x.application@)
    &&& str_member(t, "timestamp"@) == Some(x.timestamp@)
    &&& opt_int_member(t, "cause"@) == Some(opt_int_view(x.cause))
    &&& opt_bool_member(t, "soft"@) == Some(x.soft)
    &&& member(t, "channel"@) matches Some(c) && channel_matches(c, x.channel)
}

impl ChannelHangupRequest {
    /// Reads a `ChannelHangupRequest` from a JSON object; `None` where a member is missing or
    /// of the wrong kind. Members that it does not know are ignored.
    pub fn from_json(j: &JsonValue) -> (r: Option<ChannelHangupRequest>)
        ensures
            match r {
                Some(x) => channel_hangup_request_matches(j@, x),
                None => !channel_hangup_request_valid(j@),
            },
    {
        let asterisk_id = match get_opt_str(j, "asterisk_id") {
            Some(v) => v,
            None => {
                return None;
            },
        };
        let application = match get_str(j, "application") {
            Some(v) => v,
            None => {
                return None;
            },
        };
        let timestamp = match get_str(j, "timestamp") {
            Some(v) => v,
            None => {
                return None;
            },
        };
        let cause = match get_opt_i64(j, "cause") {
            Some(v) => v,
            None => {
                return None;
            },
        };
        let soft = match get_opt_bool(j, "soft") {
            Some(v) => v,
            None => {
                return None;
            },
        };
        let channel = match get_member(j, "channel") {
            Some(c) => match Channel::from_json(c) {
                Some(v) => v,
                None => {
                    return None;
                },
            },
            None => {
                return None;
            },
        };
        Some(ChannelHangupRequest { asterisk_id, application, timestamp, cause, soft, channel })
    }
}

/// A channel left the application.
#[derive(Clone, Debug, PartialEq)]
pub struct StasisEnd {
    /// The unique ID of the Asterisk instance that raised this event.
    pub asterisk_id: Option<String>,
    /// Name of the application receiving the event.
    pub application: String,
    /// When this event was created, as the server wrote it, e.g. 2020-11-22T20:12:51.214+0000.
    pub timestamp: String,
    /// The channel.
    pub channel: Channel,
}

/// Whether a JSON value has the shape of a `StasisEnd`.
pub open spec fn stasis_end_valid(t: JsonTree) -> bool {
    &&& opt_str_member(t, "asterisk_id"@) is Some
    &&& str_member(t, "application"@) is Some
    &&& str_member(t, "timestamp"@) is Some
    &&& member(t, "channel"@) matches Some(c) && channel_valid(c)
}

/// Whether `x` holds what the JSON value `t` holds.
pub open spec fn stasis_end_matches(t: JsonTree, x: StasisEnd) -> bool {
    &&& opt_str_member(t, "asterisk_id"@) == Some(opt_str_view(x.asterisk_id))
    &&& str_member(t, "application"@) == Some(x.application@)
    &&& str_member(t, "timestamp"@) == Some(x.timestamp@)
    &&& member(t, "channel"@) matches Some(c) && channel_matches(c, x.channel)
}

impl StasisEnd {
    /// Reads a `StasisEnd` from a JSON object; `None` where a member is missing or
    /// of the wrong kind. Members that it does not know are ignored.
    pub fn from_json(j: &JsonValue) -> (r: Option<StasisEnd>)
        ensures
            match r {
                Some(x) => stasis_end_matches(j@, x),
                None => !stasis_end_valid(j@),
            },
    {
        let asterisk_id = match get_opt_str(j, "asterisk_id") {
            Some(v) => v,
            None => {
                return None;
            },
        };
        let application = match get_str(j, "application") {
            Some(v) => v,
            None => {
                return None;
            },
        };
        let timestamp = match get_str(j, "timestamp") {
            Some(v) => v,
            None => {
                return None;
            },
        };
        let channel = match get_member(j, "channel") {
            Some(c) => match Channel::from_json(c) {
                Some(v) => v,
                None => {
                    return None;
                },
            },
            None => {
                return None;
            },
        };
        Some(StasisEnd { asterisk_id, application, timestamp, channel })
    }
}

/// Talking stopped on a channel.
#[derive(Clone, Debug, PartialEq)]
pub struct ChannelTalkingFinished {
    /// The unique ID of the Asterisk instance that raised this event.
    pub asterisk_id: Option<String>,
    /// Name of the application receiving the event.
    pub application: String,
    /// When this event was created, as the server wrote it, e.g. 2020-11-22T20:12:51.214+0000.
    pub timestamp: String,
    /// The channel.
    pub channel: Channel,
    /// How long talking was detected, in milliseconds.
    pub duration: i64,
}

/// Whether a JSON value has the shape of a `ChannelTalkingFinished`.
pub open spec fn channel_talking_finished_valid(t: JsonTree) -> bool {
    &&& opt_str_member(t, "asterisk_id"@) is Some
    &&& str_member(t, "application"@) is Some
    &&& str_member(t, "timestamp"@) is Some
    &&& member(t, "channel"@) matches Some(c) && channel_valid(c)
    &&& int_member(t, "duration"@) is Some
}

/// Whether `x` holds what the JSON value `t` holds.
pub open spec fn channel_talking_finished_matches(t: JsonTree, x: ChannelTalkingFinished) -> bool {
    &&& opt_str_member(t, "asterisk_id"@) == Some(opt_str_view(x.asterisk_id))
    &&& str_member(t, "application"@) == Some(x.application@)
    &&& str_member(t, "timestamp"@) == Some(x.timestamp@)
    &&& member(t, "channel"@) matches Some(c) && channel_matches(c, x.channel)
    &&& int_member(t, "duration"@) == Some(x.duration as int)
}

impl ChannelTalkingFinished {
    /// Reads a `ChannelTalkingFinished` from a JSON object; `None` where a member is missing or
    /// of the wrong kind. Members that it does not know are ignored.
    pub fn from_json(j: &JsonValue) -> (r: Option<ChannelTalkingFinished>)
        ensures
            match r {
                Some(x) => channel_talking_finished_matches(j@, x),
                None => !channel_talking_finished_valid(j@),
            },
    {
        let asterisk_id = match get_opt_str(j, "asterisk_id") {
            Some(v) => v,
            None => {
                return None;
            },
        };
        let application = match get_str(j, "application") {
            Some(v) => v,
            None => {
                return None;
            },
        };
        let timestamp = match get_str(j, "timestamp") {
            Some(v) => v,
            None => {
                return None;
            },
        };
        let channel = match get_member(j, "channel") {
            Some(c) => match Channel::from_json(c) {
                Some(v) => v,
                None => {
                    return None;
                },
            },
            None => {
                return None;
            },
        };
        let duration = match get_i64(j, "duration") {
            Some(v) => v,
            None => {
                return None;
            },
        };
        Some(ChannelTalkingFinished { asterisk_id, application, timestamp, channel, duration })
    }
}

/// Talking started on a channel.
#[derive(Clone, Debug, PartialEq)]
pub struct ChannelTalkingStarted {
    /// The unique ID of the Asterisk instance that raised this event.
    pub asterisk_id: Option<String>,
    /// Name of the application receiving the event.
    pub application: String,
    /// When this event was created, as the server wrote it, e.g. 2020-11-22T20:12:51.214+0000.
    pub timestamp: String,
    /// The channel.
    pub channel: Channel,
}

/// Whether a JSON value has the shape of a `ChannelTalkingStarted`.
pub open spec fn channel_talking_started_valid(t: JsonTree) -> bool {
    &&& opt_str_member(t, "asterisk_id"@) is Some
    &&& str_member(t, "application"@) is Some
    &&& str_member(t, "timestamp"@) is Some
    &&& member(t, "channel"@) matches Some(c) && channel_valid(c)
}

/// Whether `x` holds what the JSON value `t` holds.
pub open spec fn channel_talking_started_matches(t: JsonTree, x: ChannelTalkingStarted) -> bool {
    &&& opt_str_member(t, "asterisk_id"@) == Some(opt_str_view(x.asterisk_id))
    &&& str_member(t, "application"@) == Some(x.application@)
    &&& str_member(t, "timestamp"@) == Some(x.timestamp@)
    &&& member(t, "channel"@) matches Some(c) && channel_matches(c, x.channel)
}

impl ChannelTalkingStarted {
    /// Reads a `ChannelTalkingStarted` from a JSON object; `None` where a member is missing or
    /// of the wrong kind. Members that it does not know are ignored.
    pub fn from_json(j: &JsonValue) -> (r: Option<ChannelTalkingStarted>)
        ensures
            match r {
                Some(x) => channel_talking_started_matches(j@, x),
                None => !channel_talking_started_valid(j@),
            },
    {
        let asterisk_id = match get_opt_str(j, "asterisk_id") {
            Some(v) => v,
            None => {
                return None;
            },
        };
        let application = match get_str(j, "application") {
            Some(v) => v,
            None => {
                return None;
            },
        };
        let timestamp = match get_str(j, "timestamp") {
            Some(v) => v,
            None => {
                return None;
            },
        };
        let channel = match get_member(j, "channel") {
            Some(c) => match Channel::from_json(c) {
                Some(v) => v,
                None => {
                    return None;
                },
            },
            None => {
                return None;
            },
        };
        Some(ChannelTalkingStarted { asterisk_id, application, timestamp, channel })
    }
}

/// A channel was destroyed.
#[derive(Clone, Debug, PartialEq)]
pub struct ChannelDestroyed {
    /// The unique ID of the Asterisk instance that raised this event.
    pub asterisk_id: Option<String>,
    /// Name of the application receiving the event.
    pub application: String,
    /// When this event was created, as the server wrote it, e.g. 2020-11-22T20:12:51.214+0000.
    pub timestamp: String,
    /// Integer representation of the cause of the hangup.
    pub cause: i64,
    /// Text representation of the cause of the hangup.
    pub cause_txt: String,
    /// The channel.
    pub channel: Channel,
}

/// Whether a JSON value has the shape of a `ChannelDestroyed`.
pub open spec fn channel_destroyed_valid(t: JsonTree) -> bool {
    &&& opt_str_member(t, "asterisk_id"@) is Some
    &&& str_member(t, "application"@) is Some
    &&& str_member(t, "timestamp"@) is Some
    &&& int_member(t, "cause"@) is Some
    &&& str_member(t, "cause_txt"@) is Some
    &&& member(t, "channel"@) matches Some(c) && channel_valid(c)
}

/// Whether `x` holds what the JSON value `t` holds.
pub open spec fn channel_destroyed_matches(t: JsonTree, x: ChannelDestroyed) -> bool {
    &&& opt_str_member(t, "asterisk_id"@) == Some(opt_str_view(x.asterisk_id))
    &&& str_member(t, "application"@) == Some(x.application@)
    &&& str_member(t, "timestamp"@) == Some(x.timestamp@)
    &&& int_member(t, "cause"@) == Some(x.cause as int)
    &&& str_member(t, "cause_txt"@) == Some(x.cause_txt@)
    &&& member(t, "channel"@) matches Some(c) && channel_matches(c, x.channel)
}

impl ChannelDestroyed {
    /// Reads a `ChannelDestroyed` from a JSON object; `None` where a member is missing or
    /// of the wrong kind. Members that it does not know are ignored.
    pub fn from_json(j: &JsonValue) -> (r: Option<ChannelDestroyed>)
        ensures
            match r {
                Some(x) => channel_destroyed_matches(j@, x),
                None => !channel_destroyed_valid(j@),
            },
    {
        let asterisk_id = match get_opt_str(j, "asterisk_id") {
            Some(v) => v,
            None => {
                return None;
            },
        };
        let application = match get_str(j, "application") {
            Some(v) => v,
            None => {
                return None;
            },
        };
        let timestamp = match get_str(j, "timestamp") {
            Some(v) => v,
            None => {
                return None;
            },
        };
        let cause = match get_i64(j, "cause") {
            Some(v) => v,
            None => {
                return None;
            },
        };
        let cause_txt = match get_str(j, "cause_txt") {
            Some(v) => v,
            None => {
                return None;
            },
        };
        let channel = match get_member(j, "channel") {
            Some(c) => match Channel::from_json(c) {
                Some(v) => v,
                None => {
                    return None;
                },
            },
            None => {
                return None;
            },
        };
        Some(ChannelDestroyed { asterisk_id, application, timestamp, cause, cause_txt, channel })
    }
}

/// A playback started.
#[derive(Clone, Debug, PartialEq)]
pub struct PlaybackStarted {
    /// The unique ID of the Asterisk instance that raised this event.
    pub asterisk_id: Option<String>,
    /// Name of the application receiving the event.
    pub application: String,
    /// When this event was created, as the server wrote it, e.g. 2020-11-22T20:12:51.214+0000.
    pub timestamp: String,
    /// The playback.
    pub playback: Playback,
}

/// Whether a JSON value has the shape of a `PlaybackStarted`.
pub open spec fn playback_started_valid(t: JsonTree) -> bool {
    &&& opt_str_member(t, "asterisk_id"@) is Some
    &&& str_member(t, "application"@) is Some
    &&& str_member(t, "timestamp"@) is Some
    &&& member(t, "playback"@) matches Some(c) && playback_valid(c)
}

/// Whether `x` holds what the JSON value `t` holds.
pub open spec fn playback_started_matches(t: JsonTree, x: PlaybackStarted) -> bool {
    &&& opt_str_member(t, "asterisk_id"@) == Some(opt_str_view(x.asterisk_id))
    &&& str_member(t, "application"@) == Some(x.application@)
    &&& str_member(t, "timestamp"@) == Some(x.timestamp@)
    &&& member(t, "playback"@) matches Some(c) && playback_matches(c, x.playback)
}

impl PlaybackStarted {
    /// Reads a `PlaybackStarted` from a JSON object; `None` where a member is missing or
    /// of the wrong kind. Members that it does not know are ignored.
    pub fn from_json(j: &JsonValue) -> (r: Option<PlaybackStarted>)
        ensures
            match r {
                Some(x) => playback_started_matches(j@, x),
                None => !playback_started_valid(j@),
            },
    {
        let asterisk_id = match get_opt_str(j, "asterisk_id") {
            Some(v) => v,
            None => {
                return None;
            },
        };
        let application = match get_str(j, "application") {
            Some(v) => v,
            None => {
                return None;
            },
        };
        let timestamp = match get_str(j, "timestamp") {
            Some(v) => v,
            None => {
                return None;
            },
        };
        let playback = match get_member(j, "playback") {
            Some(c) => match Playback::from_json(c) {
                Some(v) => v,
                None => {
                    return None;
                },
            },
            None => {
                return None;
            },
        };
        Some(PlaybackStarted { asterisk_id, application, timestamp, playback })
    }
}

/// A playback finished.
#[derive(Clone, Debug, PartialEq)]
pub struct PlaybackFinished {
    /// The unique ID of the Asterisk instance that raised this event.
    pub asterisk_id: Option<String>,
    /// Name of the application receiving the event.
    pub application: String,
    /// When this event was created, as the server wrote it, e.g. 2020-11-22T20:12:51.214+0000.
    pub timestamp: String,
    /// The playback.
    pub playback: Playback,
}

/// Whether a JSON value has the shape of a `PlaybackFinished`.
pub open spec fn playback_finished_valid(t: JsonTree) -> bool {
    &&& opt_str_member(t, "asterisk_id"@) is Some
    &&& str_member(t, "application"@) is Some
    &&& str_member(t, "timestamp"@) is Some
    &&& member(t, "playback"@) matches Some(c) && playback_valid(c)
}

/// Whether `x` holds what the JSON value `t` holds.
pub open spec fn playback_finished_matches(t: JsonTree, x: PlaybackFinished) -> bool {
    &&& opt_str_member(t, "asterisk_id"@) == Some(opt_str_view(x.asterisk_id))
    &&& str_member(t, "application"@) == Some(x.application@)
    &&& str_member(t, "timestamp"@) == Some(x.timestamp@)
    &&& member(t, "playback"@) matches Some(c) && playback_matches(c, x.playback)
}

impl PlaybackFinished {
    /// Reads a `PlaybackFinished` from a JSON object; `None` where a member is missing or
    /// of the wrong kind. Members that it does not know are ignored.
    pub fn from_json(j: &JsonValue) -> (r: Option<PlaybackFinished>)
        ensures
            match r {
                Some(x) => playback_finished_matches(j@, x),
                None => !playback_finished_valid(j@),
            },
    {
        let asterisk_id = match get_opt_str(j, "asterisk_id") {
            Some(v) => v,
            None => {
                return None;
            },
        };
        let application = match get_str(j, "application") {
            Some(v) => v,
            None => {
                return None;
            },
        };
        let timestamp = match get_str(j, "timestamp") {
            Some(v) => v,
            None => {
                return None;
            },
        };
        let playback = match get_member(j, "playback") {
            Some(c) => match Playback::from_json(c) {
                Some(v) => v,
                None => {
                    return None;
                },
            },
            None => {
                return None;
            },
        };
        Some(PlaybackFinished { asterisk_id, application, timestamp, playback })
    }
}

/// The state of a channel changed.
#[derive(Clone, Debug, PartialEq)]
pub struct ChannelStateChange {
    /// The unique ID of the Asterisk instance that raised this event.
    pub asterisk_id: Option<String>,
    /// Name of the application receiving the event.
    pub application: String,
    /// When this event was created, as the server wrote it, e.g. 2020-11-22T20:12:51.214+0000.
    pub timestamp: String,
    /// The channel.
    pub channel: Channel,
}

/// Whether a JSON value has the shape of a `ChannelStateChange`.
pub open spec fn channel_state_change_valid(t: JsonTree) -> bool {
    &&& opt_str_member(t, "asterisk_id"@) is Some
    &&& str_member(t, "application"@) is Some
    &&& str_member(t, "timestamp"@) is Some
    &&& member(t, "channel"@) matches Some(c) && channel_valid(c)
}

/// Whether `x` holds what the JSON value `t` holds.
pub open spec fn channel_state_change_matches(t: JsonTree, x: ChannelStateChange) -> bool {
    &&& opt_str_member(t, "asterisk_id"@) == Some(opt_str_view(x.asterisk_id))
    &&& str_member(t, "application"@) == Some(x.application@)
    &&& str_member(t, "timestamp"@) == Some(x.timestamp@)
    &&& member(t, "channel"@) matches Some(c) && channel_matches(c, x.channel)
}

impl ChannelStateChange {
    /// Reads a `ChannelStateChange` from a JSON object; `None` where a member is missing or
    /// of the wrong kind. Members that it does not know are ignored.
    pub fn from_json(j: &JsonValue) -> (r: Option<ChannelStateChange>)
        ensures
            match r {
                Some(x) => channel_state_change_matches(j@, x),
                None => !channel_state_change_valid(j@),
            },
    {
        let asterisk_id = match get_opt_str(j, "asterisk_id") {
            Some(v) => v,
            None => {
                return None;
            },
        };
        let application = match get_str(j, "application") {
            Some(v) => v,
            None => {
                return None;
            },
        };
        let timestamp = match get_str(j, "timestamp") {
            Some(v) => v,
            None => {
                return None;
            },
        };
        let channel = match get_member(j, "channel") {
            Some(c) => match Channel::from_json(c) {
                Some(v) => v,
                None => {
                    return None;
                },
            },
            None => {
                return None;
            },
        };
        Some(ChannelStateChange { asterisk_id, application, timestamp, channel })
    }
}

/// A channel variable was set.
#[derive(Clone, Debug, PartialEq)]
pub struct ChannelVarset {
    /// The unique ID of the Asterisk instance that raised this event.
    pub asterisk_id: Option<String>,
    /// Name of the application receiving the event.
    pub application: String,
    /// When this event was created, as the server wrote it, e.g. 2020-11-22T20:12:51.214+0000.
    pub timestamp: String,
    /// The channel.
    pub channel: Channel,
    /// The variable.
    pub variable: String,
    /// Its new value.
    pub value: String,
}

/// Whether a JSON value has the shape of a `ChannelVarset`.
pub open spec fn channel_varset_valid(t: JsonTree) -> bool {
    &&& opt_str_member(t, "asterisk_id"@) is Some
    &&& str_member(t, "application"@) is Some
    &&& str_member(t, "timestamp"@) is Some
    &&& member(t, "channel"@) matches Some(c) && channel_valid(c)
    &&& str_member(t, "variable"@) is Some
    &&& str_member(t, "value"@) is Some
}

/// Whether `x` holds what the JSON value `t` holds.
pub open spec fn channel_varset_matches(t: JsonTree, x: ChannelVarset) -> bool {
    &&& opt_str_member(t, "asterisk_id"@) == Some(opt_str_view(x.asterisk_id))
    &&& str_member(t, "application"@) == Some(x.application@)
    &&& str_member(t, "timestamp"@) == Some(x.timestamp@)
    &&& member(t, "channel"@) matches Some(c) && channel_matches(c, x.channel)
    &&& str_member(t, "variable"@) == Some(x.variable@)
    &&& str_member(t, "value"@) == Some(x.value@)
}

impl ChannelVarset {
    /// Reads a `ChannelVarset` from a JSON object; `None` where a member is missing or
    /// of the wrong kind. Members that it does not know are ignored.
    pub fn from_json(j: &JsonValue) -> (r: Option<ChannelVarset>)
        ensures
            match r {
                Some(x) => channel_varset_matches(j@, x),
                None => !channel_varset_valid(j@),
            },
    {
        let asterisk_id = match get_opt_str(j, "asterisk_id") {
            Some(v) => v,
            None => {
                return None;
            },
        };
        let application = match get_str(j, "application") {
            Some(v) => v,
            None => {
                return None;
            },
        };
        let timestamp = match get_str(j, "timestamp") {
            Some(v) => v,
            None => {
                return None;
            },
        };
        let channel = match get_member(j, "channel") {
            Some(c) => match Channel::from_json(c) {
                Some(v) => v,
                None => {
                    return None;
                },
            },
            None => {
                return None;
            },
        };
        let variable = match get_str(j, "variable") {
            Some(v) => v,
            None => {
                return None;
            },
        };
        let value = match get_str(j, "value") {
            Some(v) => v,
            None => {
                return None;
            },
        };
        Some(ChannelVarset { asterisk_id, application, timestamp, channel, variable, value })
    }
}

/// A recording started.
#[derive(Clone, Debug, PartialEq)]
pub struct RecordingStarted {
    /// The unique ID of the Asterisk instance that raised this event.
    pub asterisk_id: Option<String>,
    /// Name of the application receiving the event.
    pub application: String,
    /// When this event was created, as the server wrote it, e.g. 2020-11-22T20:12:51.214+0000.
    pub timestamp: String,
    /// The recording.
    pub recording: Recording,
}

/// Whether a JSON value has the shape of a `RecordingStarted`.
pub open spec fn recording_started_valid(t: JsonTree) -> bool {
    &&& opt_str_member(t, "asterisk_id"@) is Some
    &&& str_member(t, "application"@) is Some
    &&& str_member(t, "timestamp"@) is Some
    &&& member(t, "recording"@) matches Some(c) && recording_valid(c)
}

/// Whether `x` holds what the JSON value `t` holds.
pub open spec fn recording_started_matches(t: JsonTree, x: RecordingStarted) -> bool {
    &&& opt_str_member(t, "asterisk_id"@) == Some(opt_str_view(x.asterisk_id))
    &&& str_member(t, "application"@) == Some(x.application@)
    &&& str_member(t, "timestamp"@) == Some(x.timestamp@)
    &&& member(t, "recording"@) matches Some(c) && recording_matches(c, x.recording)
}

impl RecordingStarted {
    /// Reads a `RecordingStarted` from a JSON object; `None` where a member is missing or
    /// of the wrong kind. Members that it does not know are ignored.
    pub fn from_json(j: &JsonValue) -> (r: Option<RecordingStarted>)
        ensures
            match r {
                Some(x) => recording_started_matches(j@, x),
                None => !recording_started_valid(j@),
            },
    {
        let asterisk_id = match get_opt_str(j, "asterisk_id") {
            Some(v) => v,
            None => {
                return None;
            },
        };
        let application = match get_str(j, "application") {
            Some(v) => v,
            None => {
                return None;
            },
        };
        let timestamp = match get_str(j, "timestamp") {
            Some(v) => v,
            None => {
                return None;
            },
        };
        let recording = match get_member(j, "recording") {
            Some(c) => match Recording::from_json(c) {
                Some(v) => v,
                None => {
                    return None;
                },
            },
            None => {
                return None;
            },
        };
        Some(RecordingStarted { asterisk_id, application, timestamp, recording })
    }
}

/// A recording finished.
#[derive(Clone, Debug, PartialEq)]
pub struct RecordingFinished {
    /// The unique ID of the Asterisk instance that raised this event.
    pub asterisk_id: Option<String>,
    /// Name of the application receiving the event.
    pub application: String,
    /// When this event was created, as the server wrote it, e.g. 2020-11-22T20:12:51.214+0000.
    pub timestamp: String,
    /// The recording.
    pub recording: Recording,
}

/// Whether a JSON value has the shape of a `RecordingFinished`.
pub open spec fn recording_finished_valid(t: JsonTree) -> bool {
    &&& opt_str_member(t, "asterisk_id"@) is Some
    &&& str_member(t, "application"@) is Some
    &&& str_member(t, "timestamp"@) is Some
    &&& member(t, "recording"@) matches Some(c) && recording_valid(c)
}

/// Whether `x` holds what the JSON value `t` holds.
pub open spec fn recording_finished_matches(t: JsonTree, x: RecordingFinished) -> bool {
    &&& opt_str_member(t, "asterisk_id"@) == Some(opt_str_view(x.asterisk_id))
    &&& str_member(t, "application"@) == Some(x.application@)
    &&& str_member(t, "timestamp"@) == Some(x.timestamp@)
    &&& member(t, "recording"@) matches Some(c) && recording_matches(c, x.recording)
}

impl RecordingFinished {
    /// Reads a `RecordingFinished` from a JSON object; `None` where a member is missing or
    /// of the wrong kind. Members that it does not know are ignored.
    pub fn from_json(j: &JsonValue) -> (r: Option<RecordingFinished>)
        ensures
            match r {
                Some(x) => recording_finished_matches(j@, x),
                None => !recording_finished_valid(j@),
            },
    {
        let asterisk_id = match get_opt_str(j, "asterisk_id") {
            Some(v) => v,
            None => {
                return None;
            },
        };
        let application = match get_str(j, "application") {
            Some(v) => v,
            None => {
                return None;
            },
        };
        let timestamp = match get_str(j, "timestamp") {
            Some(v) => v,
            None => {
                return None;
            },
        };
        let recording = match get_member(j, "recording") {
            Some(c) => match Recording::from_json(c) {
                Some(v) => v,
                None => {
                    return None;
                },
            },
            None => {
                return None;
            },
        };
        Some(RecordingFinished { asterisk_id, application, timestamp, recording })
    }
}

/// The kinds of event, one for each value of the `type` member.
#[derive(Clone, Copy, Debug, PartialEq, Eq, Structural)]
pub enum EventKind {
    StasisStart,
    ChannelDtmfReceived,
    ChannelHangupRequest,
    StasisEnd,
    ChannelTalkingFinished,
    ChannelTalkingStarted,
    ChannelDestroyed,
    PlaybackStarted,
    PlaybackFinished,
    ChannelStateChange,
    ChannelVarset,
    RecordingStarted,
    RecordingFinished,
}

/// The number of kinds of event.
pub const KIND_COUNT: usize = 13;

/// The kind that a `type` member names.
pub open spec fn kind_named(n: Seq<char>) -> Option<EventKind> {
    if n == "StasisStart"@ {
        Some(EventKind::StasisStart)
    } else     if n == "ChannelDtmfReceived"@ {
        Some(EventKind::ChannelDtmfReceived)
    } else     if n == "ChannelHangupRequest"@ {
        Some(EventKind::ChannelHangupRequest)
    } else     if n == "StasisEnd"@ {
        Some(EventKind::StasisEnd)
    } else     if n == "ChannelTalkingFinished"@ {
        Some(EventKind::ChannelTalkingFinished)
    } else     if n == "ChannelTalkingStarted"@ {
        Some(EventKind::ChannelTalkingStarted)
    } else     if n == "ChannelDestroyed"@ {
        Some(EventKind::ChannelDestroyed)
    } else     if n == "PlaybackStarted"@ {
        Some(EventKind::PlaybackStarted)
    } else     if n == "PlaybackFinished"@ {
        Some(EventKind::PlaybackFinished)
    } else     if n == "ChannelStateChange"@ {
        Some(EventKind::ChannelStateChange)
    } else     if n == "ChannelVarset"@ {
        Some(EventKind::ChannelVarset)
    } else     if n == "RecordingStarted"@ {
        Some(EventKind::RecordingStarted)
    } else     if n == "RecordingFinished"@ {
        Some(EventKind::RecordingFinished)
    } else {
        None
    }
}

/// The position of a kind in the order of declaration.
pub open spec fn kind_index(k: EventKind) -> int {
    match k {
        EventKind::StasisStart => 0,
        EventKind::ChannelDtmfReceived => 1,
        EventKind::ChannelHangupRequest => 2,
        EventKind::StasisEnd => 3,
        EventKind::ChannelTalkingFinished => 4,
        EventKind::ChannelTalkingStarted => 5,
        EventKind::ChannelDestroyed => 6,
        EventKind::PlaybackStarted => 7,
        EventKind::PlaybackFinished => 8,
        EventKind::ChannelStateChange => 9,
        EventKind::ChannelVarset => 10,
        EventKind::RecordingStarted => 11,
        EventKind::RecordingFinished => 12,
    }
}

impl EventKind {
    /// The kind that the `type` member `n` names, if any.
    pub fn from_name(n: &str) -> (r: Option<EventKind>)
        ensures
            r == kind_named(n@),
    {
        if str_eq(n, "StasisStart") {
            Some(EventKind::StasisStart)
        } else         if str_eq(n, "ChannelDtmfReceived") {
            Some(EventKind::ChannelDtmfReceived)
        } else         if str_eq(n, "ChannelHangupRequest") {
            Some(EventKind::ChannelHangupRequest)
        } else         if str_eq(n, "StasisEnd") {
            Some(EventKind::StasisEnd)
        } else         if str_eq(n, "ChannelTalkingFinished") {
            Some(EventKind::ChannelTalkingFinished)
        } else         if str_eq(n, "ChannelTalkingStarted") {
            Some(EventKind::ChannelTalkingStarted)
        } else         if str_eq(n, "ChannelDestroyed") {
            Some(EventKind::ChannelDestroyed)
        } else         if str_eq(n, "PlaybackStarted") {
            Some(EventKind::PlaybackStarted)
        } else         if str_eq(n, "PlaybackFinished") {
            Some(EventKind::PlaybackFinished)
        } else         if str_eq(n, "ChannelStateChange") {
            Some(EventKind::ChannelStateChange)
        } else         if str_eq(n, "ChannelVarset") {
            Some(EventKind::ChannelVarset)
        } else         if str_eq(n, "RecordingStarted") {
            Some(EventKind::RecordingStarted)
        } else         if str_eq(n, "RecordingFinished") {
            Some(EventKind::RecordingFinished)
        } else {
            None
        }
    }

    pub fn index(&self) -> (r: usize)
        ensures
            r == kind_index(*self),
            r < KIND_COUNT,
    {
        match self {
            EventKind::StasisStart => 0,
            EventKind::ChannelDtmfReceived => 1,
            EventKind::ChannelHangupRequest => 2,
            EventKind::StasisEnd => 3,
            EventKind::ChannelTalkingFinished => 4,
            EventKind::ChannelTalkingStarted => 5,
            EventKind::ChannelDestroyed => 6,
            EventKind::PlaybackStarted => 7,
            EventKind::PlaybackFinished => 8,
            EventKind::ChannelStateChange => 9,
            EventKind::ChannelVarset => 10,
            EventKind::RecordingStarted => 11,
            EventKind::RecordingFinished => 12,
        }
    }
}

/// One decoded event.
#[derive(Clone, Debug, PartialEq)]
pub enum AriEvent {
    StasisStart(StasisStart),
    ChannelDtmfReceived(ChannelDtmfReceived),
    ChannelHangupRequest(ChannelHangupRequest),
    StasisEnd(StasisEnd),
    ChannelTalkingFinished(ChannelTalkingFinished),
    ChannelTalkingStarted(ChannelTalkingStarted),
    ChannelDestroyed(ChannelDestroyed),
    PlaybackStarted(PlaybackStarted),
    PlaybackFinished(PlaybackFinished),
    ChannelStateChange(ChannelStateChange),
    ChannelVarset(ChannelVarset),
    RecordingStarted(RecordingStarted),
    RecordingFinished(RecordingFinished),
}

pub open spec fn kind_of(e: AriEvent) -> EventKind {
    match e {
        AriEvent::StasisStart(_) => EventKind::StasisStart,
        AriEvent::ChannelDtmfReceived(_) => EventKind::ChannelDtmfReceived,
        AriEvent::ChannelHangupRequest(_) => EventKind::ChannelHangupRequest,
        AriEvent::StasisEnd(_) => EventKind::StasisEnd,
        AriEvent::ChannelTalkingFinished(_) => EventKind::ChannelTalkingFinished,
        AriEvent::ChannelTalkingStarted(_) => EventKind::ChannelTalkingStarted,
        AriEvent::ChannelDestroyed(_) => EventKind::ChannelDestroyed,
        AriEvent::PlaybackStarted(_) => EventKind::PlaybackStarted,
        AriEvent::PlaybackFinished(_) => EventKind::PlaybackFinished,
        AriEvent::ChannelStateChange(_) => EventKind::ChannelStateChange,
        AriEvent::ChannelVarset(_) => EventKind::ChannelVarset,
        AriEvent::RecordingStarted(_) => EventKind::RecordingStarted,
        AriEvent::RecordingFinished(_) => EventKind::RecordingFinished,
    }
}

/// Whether a JSON object has the shape of the payload of kind `k`.
pub open spec fn payload_valid(k: EventKind, t: JsonTree) -> bool {
    match k {
        EventKind::StasisStart => stasis_start_valid(t),
        EventKind::ChannelDtmfReceived => channel_dtmf_received_valid(t),
        EventKind::ChannelHangupRequest => channel_hangup_request_valid(t),
        EventKind::StasisEnd => stasis_end_valid(t),
        EventKind::ChannelTalkingFinished => channel_talking_finished_valid(t),
        EventKind::ChannelTalkingStarted => channel_talking_started_valid(t),
        EventKind::ChannelDestroyed => channel_destroyed_valid(t),
        EventKind::PlaybackStarted => playback_started_valid(t),
        EventKind::PlaybackFinished => playback_finished_valid(t),
        EventKind::ChannelStateChange => channel_state_change_valid(t),
        EventKind::ChannelVarset => channel_varset_valid(t),
        EventKind::RecordingStarted => recording_started_valid(t),
        EventKind::RecordingFinished => recording_finished_valid(t),
    }
}

/// Whether `e` is what the JSON object `t` holds: the `type` member names
/// the variant of `e`, and the payload matches member by member.
pub open spec fn ari_event_matches(t: JsonTree, e: AriEvent) -> bool {
    &&& str_member(t, "type"@) matches Some(n) && kind_named(n) == Some(kind_of(e))
    &&& match e {
        AriEvent::StasisStart(x) => stasis_start_matches(t, x),
        AriEvent::ChannelDtmfReceived(x) => channel_dtmf_received_matches(t, x),
        AriEvent::ChannelHangupRequest(x) => channel_hangup_request_matches(t, x),
        AriEvent::StasisEnd(x) => stasis_end_matches(t, x),
        AriEvent::ChannelTalkingFinished(x) => channel_talking_finished_matches(t, x),
        AriEvent::ChannelTalkingStarted(x) => channel_talking_started_matches(t, x),
        AriEvent::ChannelDestroyed(x) => channel_destroyed_matches(t, x),
        AriEvent::PlaybackStarted(x) => playback_started_matches(t, x),
        AriEvent::PlaybackFinished(x) => playback_finished_matches(t, x),
        AriEvent::ChannelStateChange(x) => channel_state_change_matches(t, x),
        AriEvent::ChannelVarset(x) => channel_varset_matches(t, x),
        AriEvent::RecordingStarted(x) => recording_started_matches(t, x),
        AriEvent::RecordingFinished(x) => recording_finished_matches(t, x),
    }
}

impl AriEvent {
    pub fn kind(&self) -> (r: EventKind)
        ensures
            r == kind_of(*self),
    {
        match self {
            AriEvent::StasisStart(_) => EventKind::StasisStart,
            AriEvent::ChannelDtmfReceived(_) => EventKind::ChannelDtmfReceived,
            AriEvent::ChannelHangupRequest(_) => EventKind::ChannelHangupRequest,
            AriEvent::StasisEnd(_) => EventKind::StasisEnd,
            AriEvent::ChannelTalkingFinished(_) => EventKind::ChannelTalkingFinished,
            AriEvent::ChannelTalkingStarted(_) => EventKind::ChannelTalkingStarted,
            AriEvent::ChannelDestroyed(_) => EventKind::ChannelDestroyed,
            AriEvent::PlaybackStarted(_) => EventKind::PlaybackStarted,
            AriEvent::PlaybackFinished(_) => EventKind::PlaybackFinished,
            AriEvent::ChannelStateChange(_) => EventKind::ChannelStateChange,
            AriEvent::ChannelVarset(_) => EventKind::ChannelVarset,
            AriEvent::RecordingStarted(_) => EventKind::RecordingStarted,
            AriEvent::RecordingFinished(_) => EventKind::RecordingFinished,
        }
    }

    /// Reads an event from a JSON object: the `type` member selects the
    /// variant, and the rest of the object is read as its payload.
    pub fn from_json(j: &JsonValue) -> (r: Result<AriEvent, DecodeErrorKind>)
        ensures
            match r {
                Ok(e) => ari_event_matches(j@, e),
                Err(k) => failure_of(j@) == Some(k),
            },
    {
        let name = match get_str(j, "type") {
            Some(n) => n,
            None => {
                return Err(DecodeErrorKind::MissingType);
            },
        };
        let kind = match EventKind::from_name(name.as_str()) {
            Some(k) => k,
            None => {
                return Err(DecodeErrorKind::UnknownType);
            },
        };
        match kind {
            EventKind::StasisStart => match StasisStart::from_json(j) {
                Some(x) => Ok(AriEvent::StasisStart(x)),
                None => Err(DecodeErrorKind::Payload),
            },
            EventKind::ChannelDtmfReceived => match ChannelDtmfReceived::from_json(j) {
                Some(x) => Ok(AriEvent::ChannelDtmfReceived(x)),
                None => Err(DecodeErrorKind::Payload),
            },
            EventKind::ChannelHangupRequest => match ChannelHangupRequest::from_json(j) {
                Some(x) => Ok(AriEvent::ChannelHangupRequest(x)),
                None => Err(DecodeErrorKind::Payload),
            },
            EventKind::StasisEnd => match StasisEnd::from_json(j) {
                Some(x) => Ok(AriEvent::StasisEnd(x)),
                None => Err(DecodeErrorKind::Payload),
            },
            EventKind::ChannelTalkingFinished => match ChannelTalkingFinished::from_json(j) {
                Some(x) => Ok(AriEvent::ChannelTalkingFinished(x)),
                None => Err(DecodeErrorKind::Payload),
            },
            EventKind::ChannelTalkingStarted => match ChannelTalkingStarted::from_json(j) {
                Some(x) => Ok(AriEvent::ChannelTalkingStarted(x)),
                None => Err(DecodeErrorKind::Payload),
            },
            EventKind::ChannelDestroyed => match ChannelDestroyed::from_json(j) {
                Some(x) => Ok(AriEvent::ChannelDestroyed(x)),
                None => Err(DecodeErrorKind::Payload),
            },
            EventKind::PlaybackStarted => match PlaybackStarted::from_json(j) {
                Some(x) => Ok(AriEvent::PlaybackStarted(x)),
                None => Err(DecodeErrorKind::Payload),
            },
            EventKind::PlaybackFinished => match PlaybackFinished::from_json(j) {
                Some(x) => Ok(AriEvent::PlaybackFinished(x)),
                None => Err(DecodeErrorKind::Payload),
            },
            EventKind::ChannelStateChange => match ChannelStateChange::from_json(j) {
                Some(x) => Ok(AriEvent::ChannelStateChange(x)),
                None => Err(DecodeErrorKind::Payload),
            },
            EventKind::ChannelVarset => match ChannelVarset::from_json(j) {
                Some(x) => Ok(AriEvent::ChannelVarset(x)),
                None => Err(DecodeErrorKind::Payload),
            },
            EventKind::RecordingStarted => match RecordingStarted::from_json(j) {
                Some(x) => Ok(AriEvent::RecordingStarted(x)),
                None => Err(DecodeErrorKind::Payload),
            },
            EventKind::RecordingFinished => match RecordingFinished::from_json(j) {
                Some(x) => Ok(AriEvent::RecordingFinished(x)),
                None => Err(DecodeErrorKind::Payload),
            },
        }
    }
}

/// Why a message could not be decoded.
#[derive(Clone, Copy, Debug, PartialEq, Eq, Structural)]
pub enum DecodeErrorKind {
    /// The text is not one JSON document.
    Syntax,
    /// There is no `type` member that holds a string.
    MissingType,
    /// The `type` member names no kind of event.
    UnknownType,
    /// The payload lacks a member of its kind, or holds one of the wrong shape.
    Payload,
}

/// A message that could not be decoded, with its text.
#[derive(Clone, Debug, PartialEq)]
pub struct DecodeError {
    pub raw: String,
    pub kind: DecodeErrorKind,
}

/// Why a JSON value is no event; `None` where it is one.
pub open spec fn failure_of(t: JsonTree) -> Option<DecodeErrorKind> {
    match str_member(t, "type"@) {
        None => Some(DecodeErrorKind::MissingType),
        Some(n) => match kind_named(n) {
            None => Some(DecodeErrorKind::UnknownType),
            Some(k) => if payload_valid(k, t) {
                None
            } else {
                Some(DecodeErrorKind::Payload)
            },
        },
    }
}

/// Why a text is no event; `None` where it is one.
pub open spec fn text_failure(text: Seq<char>) -> Option<DecodeErrorKind> {
    match json_tree(text) {
        None => Some(DecodeErrorKind::Syntax),
        Some(t) => failure_of(t),
    }
}

/// Whether `e` is the event that the text holds.
pub open spec fn decodes_to(text: Seq<char>, e: AriEvent) -> bool {
    json_tree(text) matches Some(t) && ari_event_matches(t, e)
}

/// Every known kind decodes, where its payload has the shape of that kind:
/// the object is no failure, and an event that it holds is of that kind.
pub proof fn lemma_known_kind_decodes(t: JsonTree, n: Seq<char>, k: EventKind, e: AriEvent)
    requires
        str_member(t, "type"@) == Some(n),
        kind_named(n) == Some(k),
        payload_valid(k, t),
    ensures
        failure_of(t) is None,
        ari_event_matches(t, e) ==> kind_of(e) == k,
{
}

/// Decodes one text message of the event stream.
pub fn decode(text: &str) -> (r: Result<AriEvent, DecodeError>)
    ensures
        match r {
            Ok(e) => decodes_to(text@, e),
            Err(err) => err.raw@ == text@ && text_failure(text@) == Some(err.kind),
        },
{
    match parse_json(text) {
        None => Err(DecodeError { raw: text.to_owned(), kind: DecodeErrorKind::Syntax }),
        Some(j) => match AriEvent::from_json(&j) {
            Ok(e) => Ok(e),
            Err(kind) => Err(DecodeError { raw: text.to_owned(), kind }),
        },
    }
}

} // verus!
