//! Recordings: audio recorded from a channel.

use vstd::prelude::*;
use crate::json::{
    get_str, str_member, JsonTree, JsonValue,
};

verus! {

/// A live recording.
#[derive(Clone, Debug, PartialEq)]
pub struct Recording {
    /// The name of the recording.
    pub name: String,
    /// The format it is recorded in.
    pub format: String,
    /// State of the recording.
    pub state: String,
    pub target_uri: String,
}

/// Whether a JSON value has the shape of a `Recording`.
pub open spec fn recording_valid(t: JsonTree) -> bool {
    &&& str_member(t, "name"@) is Some
    &&& str_member(t, "format"@) is Some
    &&& str_member(t, "state"@) is Some
    &&& str_member(t, "target_uri"@) is Some
}

/// Whether `x` holds what the JSON value `t` holds.
pub open spec fn recording_matches(t: JsonTree, x: Recording) -> bool {
    &&& str_member(t, "name"@) == Some(x.name@)
    &&& str_member(t, "format"@) == Some(x.format@)
    &&& str_member(t, "state"@) == Some(x.state@)
    &&& str_member(t, "target_uri"@) == Some(x.target_uri@)
}

impl Recording {
    /// Reads a `Recording` from a JSON object; `None` where a member is missing or
    /// of the wrong kind. Members that it does not know are ignored.
    pub fn from_json(j: &JsonValue) -> (r: Option<Recording>)
        ensures
            match r {
                Some(x) => recording_matches(j@, x),
                None => !recording_valid(j@),
            },
    {
        let name = match get_str(j, "name") {
            Some(v) => v,
            None => {
                return None;
            },
        };
        let format = match get_str(j, "format") {
            Some(v) => v,
            None => {
                return None;
            },
        };
        let state = match get_str(j, "state") {
            Some(v) => v,
            None => {
                return None;
            },
        };
        let target_uri = match get_str(j, "target_uri") {
            Some(v) => v,
            None => {
                return None;
            },
        };
        Some(Recording { name, format, state, target_uri })
    }
}

} // verus!
