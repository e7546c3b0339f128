//! Playbacks: media being played to a channel.

use vstd::prelude::*;
use crate::json::{
    get_opt_str, get_str, opt_str_member, opt_str_view, str_member, JsonTree, JsonValue,
};

verus! {

/// A playback of media on a channel or bridge.
#[derive(Clone, Debug, PartialEq)]
pub struct Playback {
    /// ID of this playback operation.
    pub id: String,
    /// The URI of the media being played back.
    pub media_uri: String,
    /// Where a list of URIs is played, the next one.
    pub next_media_uri: Option<String>,
    /// The channel or bridge that the media plays on, e.g. channel:1607454635.2.
    pub target_uri: String,
    /// The language requested, for media that has several.
    pub language: String,
    /// State of the playback: queued, playing, continuing or done.
    pub state: String,
}

/// Whether a JSON value has the shape of a `Playback`.
pub open spec fn playback_valid(t: JsonTree) -> bool {
    &&& str_member(t, "id"@) is Some
    &&& str_member(t, "media_uri"@) is Some
    &&& opt_str_member(t, "next_media_uri"@) is Some
    &&& str_member(t, "target_uri"@) is Some
    &&& str_member(t, "language"@) is Some
    &&& str_member(t, "state"@) is Some
}

/// Whether `x` holds what the JSON value `t` holds.
pub open spec fn playback_matches(t: JsonTree, x: Playback) -> bool {
    &&& str_member(t, "id"@) == Some(x.id@)
    &&& str_member(t, "media_uri"@) == Some(x.media_uri@)
    &&& opt_str_member(t, "next_media_uri"@) == Some(opt_str_view(x.next_media_uri))
    &&& str_member(t, "target_uri"@) == Some(x.target_uri@)
    &&& str_member(t, "language"@) == Some(x.language@)
    &&& str_member(t, "state"@) == Some(x.state@)
}

impl Playback {
    /// Reads a `Playback` from a JSON object; `None` where a member is missing or
    /// of the wrong kind. Members that it does not know are ignored.
    pub fn from_json(j: &JsonValue) -> (r: Option<Playback>)
        ensures
            match r {
                Some(x) => playback_matches(j@, x),
                None => !playback_valid(j@),
            },
    {
        let id = match get_str(j, "id") {
            Some(v) => v,
            None => {
                return None;
            },
        };
        let media_uri = match get_str(j, "media_uri") {
            Some(v) => v,
            None => {
                return None;
            },
        };
        let next_media_uri = match get_opt_str(j, "next_media_uri") {
            Some(v) => v,
            None => {
                return None;
            },
        };
        let target_uri = match get_str(j, "target_uri") {
            Some(v) => v,
            None => {
                return None;
            },
        };
        let language = match get_str(j, "language") {
            Some(v) => v,
            None => {
                return None;
            },
        };
        let state = match get_str(j, "state") {
            Some(v) => v,
            None => {
                return None;
            },
        };
        Some(Playback { id, media_uri, next_media_uri, target_uri, language, state })
    }
}

} // verus!
