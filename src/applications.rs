//! Applications: the Stasis applications that receive events.

use vstd::prelude::*;
use crate::json::{
    get_str, get_str_list, str_list_member, str_member, strs_view, JsonTree, JsonValue,
};

verus! {

/// A Stasis application and what it is subscribed to.
#[derive(Clone, Debug, PartialEq)]
pub struct Application {
    pub name: String,
    pub channel_ids: Vec<String>,
    pub bridge_ids: Vec<String>,
    pub endpoint_ids: Vec<String>,
    pub device_names: Vec<String>,
}

/// Whether a JSON value has the shape of a `Application`.
pub open spec fn application_valid(t: JsonTree) -> bool {
    &&& str_member(t, "name"@) is Some
    &&& str_list_member(t, "channel_ids"@) is Some
    &&& str_list_member(t, "bridge_ids"@) is Some
    &&& str_list_member(t, "endpoint_ids"@) is Some
    &&& str_list_member(t, "device_names"@) is Some
}

/// Whether `x` holds what the JSON value `t` holds.
pub open spec fn application_matches(t: JsonTree, x: Application) -> bool {
    &&& str_member(t, "name"@) == Some(x.name@)
    &&& str_list_member(t, "channel_ids"@) == Some(strs_view(x.channel_ids))
    &&& str_list_member(t, "bridge_ids"@) == Some(strs_view(x.bridge_ids))
    &&& str_list_member(t, "endpoint_ids"@) == Some(strs_view(x.endpoint_ids))
    &&& str_list_member(t, "device_names"@) == Some(strs_view(x.device_names))
}

impl Application {
    /// Reads a `Application` from a JSON object; `None` where a member is missing or
    /// of the wrong kind. Members that it does not know are ignored.
    pub fn from_json(j: &JsonValue) -> (r: Option<Application>)
        ensures
            match r {
                Some(x) => application_matches(j@, x),
                None => !application_valid(j@),
            },
    {
        let name = match get_str(j, "name") {
            Some(v) => v,
            None => {
                return None;
            },
        };
        let channel_ids = match get_str_list(j, "channel_ids") {
            Some(v) => v,
            None => {
                return None;
            },
        };
        let bridge_ids = match get_str_list(j, "bridge_ids") {
            Some(v) => v,
            None => {
                return None;
            },
        };
        let endpoint_ids = match get_str_list(j, "endpoint_ids") {
            Some(v) => v,
            None => {
                return None;
            },
        };
        let device_names = match get_str_list(j, "device_names") {
            Some(v) => v,
            None => {
                return None;
            },
        };
        Some(Application { name, channel_ids, bridge_ids, endpoint_ids, device_names })
    }
}

} // verus!
