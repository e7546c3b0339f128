//! Channels: the calls and their parties as the server describes them.

use vstd::prelude::*;
use crate::json::{
    get_i64, get_member, get_opt_str, get_opt_value, get_str, int_member, member, opt_str_member,
    opt_str_view, opt_tree, opt_value_member, str_member, JsonTree, JsonValue,
};

verus! {

/// A party's name and number.
#[derive(Clone, Debug, PartialEq)]
pub struct CallerId {
    pub name: String,
    pub number: String,
}

/// Whether a JSON value has the shape of a `CallerId`.
pub open spec fn caller_id_valid(t: JsonTree) -> bool {
    &&& str_member(t, "name"@) is Some
    &&& str_member(t, "number"@) is Some
}

/// Whether `x` holds what the JSON value `t` holds.
pub open spec fn caller_id_matches(t: JsonTree, x: CallerId) -> bool {
    &&& str_member(t, "name"@) == Some(x.name@)
    &&& str_member(t, "number"@) == Some(x.number@)
}

impl CallerId {
    /// Reads a `CallerId` from a JSON object; `None` where a member is missing or
    /// of the wrong kind. Members that it does not know are ignored.
    pub fn from_json(j: &JsonValue) -> (r: Option<CallerId>)
        ensures
            match r {
                Some(x) => caller_id_matches(j@, x),
                None => !caller_id_valid(j@),
            },
    {
        let name = match get_str(j, "name") {
            Some(v) => v,
            None => {
                return None;
            },
        };
        let number = match get_str(j, "number") {
            Some(v) => v,
            None => {
                return None;
            },
        };
        Some(CallerId { name, number })
    }
}

/// A position in the dialplan.
#[derive(Clone, Debug, PartialEq)]
pub struct DialplanCep {
    /// Context in the dialplan.
    pub context: String,
    /// Extension in the dialplan.
    pub exten: String,
    /// Priority in the dialplan.
    pub priority: i64,
    /// Name of the current dialplan application.
    pub app_name: String,
    /// Parameter of the current dialplan application.
    pub app_data: String,
}

/// Whether a JSON value has the shape of a `DialplanCep`.
pub open spec fn dialplan_cep_valid(t: JsonTree) -> bool {
    &&& str_member(t, "context"@) is Some
    &&& str_member(t, "exten"@) is Some
    &&& int_member(t, "priority"@) is Some
    &&& str_member(t, "app_name"@) is Some
    &&& str_member(t, "app_data"@) is Some
}

/// Whether `x` holds what the JSON value `t` holds.
pub open spec fn dialplan_cep_matches(t: JsonTree, x: DialplanCep) -> bool {
    &&& str_member(t, "context"@) == Some(x.context@)
    &&& str_member(t, "exten"@) == Some(x.exten@)
    &&& int_member(t, "priority"@) == Some(x.priority as int)
    &&& str_member(t, "app_name"@) == Some(x.app_name@)
    &&& str_member(t, "app_data"@) == Some(x.app_data@)
}

impl DialplanCep {
    /// Reads a `DialplanCep` from a JSON object; `None` where a member is missing or
    /// of the wrong kind. Members that it does not know are ignored.
    pub fn from_json(j: &JsonValue) -> (r: Option<DialplanCep>)
        ensures
            match r {
                Some(x) => dialplan_cep_matches(j@, x),
                None => !dialplan_cep_valid(j@),
            },
    {
        let context = match get_str(j, "context") {
            Some(v) => v,
            None => {
                return None;
            },
        };
        let exten = match get_str(j, "exten") {
            Some(v) => v,
            None => {
                return None;
            },
        };
        let priority = match get_i64(j, "priority") {
            Some(v) => v,
            None => {
                return None;
            },
        };
        let app_name = match get_str(j, "app_name") {
            Some(v) => v,
            None => {
                return None;
            },
        };
        let app_data = match get_str(j, "app_data") {
            Some(v) => v,
            None => {
                return None;
            },
        };
        Some(DialplanCep { context, exten, priority, app_name, app_data })
    }
}

/// A snapshot of a channel.
#[derive(Clone, Debug, PartialEq)]
pub struct Channel {
    /// Unique identifier of the channel; the Uniqueid field of AMI.
    pub id: String,
    /// Name of the channel (i.e. SIP/foo-0000a7e3).
    pub name: String,
    pub state: String,
    pub caller: CallerId,
    pub connected: CallerId,
    pub accountcode: String,
    pub dialplan: DialplanCep,
    /// When the channel was created, as the server wrote it.
    pub creationtime: String,
    /// The default spoken language.
    pub language: Option<String>,
    /// Channel variables.
    pub channelvars: Option<JsonValue>,
}

/// Whether a JSON value has the shape of a `Channel`.
pub open spec fn channel_valid(t: JsonTree) -> bool {
    &&& str_member(t, "id"@) is Some
    &&& str_member(t, "name"@) is Some
    &&& str_member(t, "state"@) is Some
    &&& member(t, "caller"@) matches Some(c) && caller_id_valid(c)
    &&& member(t, "connected"@) matches Some(c) && caller_id_valid(c)
    &&& str_member(t, "accountcode"@) is Some
    &&& member(t, "dialplan"@) matches Some(c) && dialplan_cep_valid(c)
    &&& str_member(t, "creationtime"@) is Some
    &&& opt_str_member(t, "language"@) is Some
}

/// Whether `x` holds what the JSON value `t` holds.
pub open spec fn channel_matches(t: JsonTree, x: Channel) -> bool {
    &&& str_member(t, "id"@) == Some(x.id@)
    &&& str_member(t, "name"@) == Some(x.name@)
    &&& str_member(t, "state"@) == Some(x.state@)
    &&& member(t, "caller"@) matches Some(c) && caller_id_matches(c, x.caller)
    &&& member(t, "connected"@) matches Some(c) && caller_id_matches(c, x.connected)
    &&& str_member(t, "accountcode"@) == Some(x.accountcode@)
    &&& member(t, "dialplan"@) matches Some(c) && dialplan_cep_matches(c, x.dialplan)
    &&& str_member(t, "creationtime"@) == Some(x.creationtime@)
    &&& opt_str_member(t, "language"@) == Some(opt_str_view(x.language))
    &&& opt_value_member(t, "channelvars"@) == opt_tree(x.channelvars)
}

impl Channel {
    /// Reads a `Channel` from a JSON object; `None` where a member is missing or
    /// of the wrong kind. Members that it does not know are ignored.
    pub fn from_json(j: &JsonValue) -> (r: Option<Channel>)
        ensures
            match r {
                Some(x) => channel_matches(j@, x),
                None => !channel_valid(j@),
            },
    {
        let id = match get_str(j, "id") {
            Some(v) => v,
            None => {
                return None;
            },
        };
        let name = match get_str(j, "name") {
            Some(v) => v,
            None => {
                return None;
            },
        };
        let state = match get_str(j, "state") {
            Some(v) => v,
            None => {
                return None;
            },
        };
        let caller = match get_member(j, "caller") {
            Some(c) => match CallerId::from_json(c) {
                Some(v) => v,
                None => {
                    return None;
                },
            },
            None => {
                return None;
            },
        };
        let connected = match get_member(j, "connected") {
            Some(c) => match CallerId::from_json(c) {
                Some(v) => v,
                None => {
                    return None;
                },
            },
            None => {
                return None;
            },
        };
        let accountcode = match get_str(j, "accountcode") {
            Some(v) => v,
            None => {
                return None;
            },
        };
        let dialplan = match get_member(j, "dialplan") {
            Some(c) => match DialplanCep::from_json(c) {
                Some(v) => v,
                None => {
                    return None;
                },
            },
            None => {
                return None;
            },
        };
        let creationtime = match get_str(j, "creationtime") {
            Some(v) => v,
            None => {
                return None;
            },
        };
        let language = match get_opt_str(j, "language") {
            Some(v) => v,
            None => {
                return None;
            },
        };
        let channelvars = get_opt_value(j, "channelvars");
        Some(Channel { id, name, state, caller, connected, accountcode, dialplan, creationtime, language, channelvars })
    }
}

/// The value of a channel variable.
#[derive(Clone, Debug, PartialEq)]
pub struct Variable {
    pub value: String,
}

/// Whether a JSON value has the shape of a `Variable`.
pub open spec fn variable_valid(t: JsonTree) -> bool {
    &&& str_member(t, "value"@) is Some
}

/// Whether `x` holds what the JSON value `t` holds.
pub open spec fn variable_matches(t: JsonTree, x: Variable) -> bool {
    &&& str_member(t, "value"@) == Some(x.value@)
}

impl Variable {
    /// Reads a `Variable` from a JSON object; `None` where a member is missing or
    /// of the wrong kind. Members that it does not know are ignored.
    pub fn from_json(j: &JsonValue) -> (r: Option<Variable>)
        ensures
            match r {
                Some(x) => variable_matches(j@, x),
                None => !variable_valid(j@),
            },
    {
        let value = match get_str(j, "value") {
            Some(v) => v,
            None => {
                return None;
            },
        };
        Some(Variable { value })
    }
}

} // verus!
