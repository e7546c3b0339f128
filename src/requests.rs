//! The control plane: what each call sends the server's REST interface, and
//! how its answer is read. The HTTP exchange itself is the caller's.

use vstd::prelude::*;
use vstd::utf8::encode_utf8;
use crate::applications::{application_matches, application_valid, Application};
use crate::channels::{channel_matches, channel_valid, variable_valid, Channel, Variable};
use crate::client::AriClient;
use crate::endpoint::{decimal, decimal_string, percent_encoded};
use crate::errors::{ApiError, Error};
use crate::events::DecodeErrorKind;
use crate::json::{json_tree, parse_json, str_member, JsonTree, JsonValue};
use crate::playbacks::{playback_matches, playback_valid, Playback};

verus! {

#[derive(Clone, Copy, Debug, PartialEq, Eq, Structural)]
pub enum Method {
    Get,
    Post,
    Delete,
}

/// One call of the REST interface.
#[derive(Clone, Debug, PartialEq)]
pub struct Request {
    pub method: Method,
    pub url: String,
    /// A JSON body, where the call has one.
    pub body: Option<String>,
    /// The status code of a successful answer.
    pub expected: u16,
}

/// Which way of a channel's audio a snoop spies on or whispers to.
#[derive(Clone, Copy, Debug, PartialEq, Eq, Structural)]
pub enum Direction {
    Neither,
    Both,
    Out,
    In,
}

pub open spec fn direction_text(d: Direction) -> Seq<char> {
    match d {
        Direction::Neither => "none"@,
        Direction::Both => "both"@,
        Direction::Out => "out"@,
        Direction::In => "in"@,
    }
}

impl Direction {
    /// The name of the direction on the wire.
    pub fn as_text(&self) -> (r: &'static str)
        ensures
            r@ == direction_text(*self),
    {
        match self {
            Direction::Neither => "none",
            Direction::Both => "both",
            Direction::Out => "out",
            Direction::In => "in",
        }
    }
}

impl Default for Direction {
    fn default() -> (r: Direction)
        ensures
            r == Direction::Neither,
    {
        Direction::Neither
    }
}

pub open spec fn opt_direction_text(d: Option<Direction>) -> Seq<char> {
    match d {
        Some(x) => direction_text(x),
        None => "none"@,
    }
}

fn direction_or_none(d: Option<Direction>) -> (r: &'static str)
    ensures
        r@ == opt_direction_text(d),
{
    match d {
        Some(x) => x.as_text(),
        None => "none",
    }
}

pub open spec fn or_text(o: Option<&str>, default: Seq<char>) -> Seq<char> {
    match o {
        Some(s) => s@,
        None => default,
    }
}

pub open spec fn or_zero(o: Option<usize>) -> nat {
    match o {
        Some(n) => n as nat,
        None => 0,
    }
}

pub open spec fn bool_text(b: bool) -> Seq<char> {
    if b {
        "true"@
    } else {
        "false"@
    }
}

/// The body of a call that plays `media` on the channel `channel_id`.
pub open spec fn play_body(channel_id: Seq<char>, media: Seq<char>) -> Seq<char> {
    "{\"channelId\": \""@ + channel_id + "\", \"media\": \""@ + media + "\"}"@
}

/// The body of a call that snoops on a channel for the application `app`.
pub open spec fn snoop_body(app: Seq<char>, spy: Option<Direction>, whisper: Option<Direction>) -> Seq<
    char,
> {
    "{\"app\": \""@ + app + "\", \"spy\": \""@ + opt_direction_text(spy) + "\", \"whisper\": \""@
        + opt_direction_text(whisper) + "\"}"@
}

/// The body of a call that records a channel; what is not given takes its
/// default: the channel's ID as name, wav, no terminating digit, no limits,
/// failing where the recording exists, no beep.
pub open spec fn record_body(
    channel_id: Seq<char>,
    filepath: Option<&str>,
    audio_format: Option<&str>,
    terminate_on: Option<&str>,
    max_duration: Option<usize>,
    max_silence: Option<usize>,
    if_exists: Option<&str>,
    beep: Option<bool>,
) -> Seq<char> {
    "{\"name\": \""@ + or_text(filepath, channel_id) + "\", \"format\": \""@ + or_text(
        audio_format,
        "wav"@,
    ) + "\", \"terminateOn\": \""@ + or_text(terminate_on, "none"@) + "\", \"maxDuration\": "@
        + decimal(or_zero(max_duration)) + ", \"maxSilence\": "@ + decimal(or_zero(max_silence))
        + ", \"ifExists\": \""@ + or_text(if_exists, "fail"@) + "\", \"beep\": "@ + bool_text(
        match beep {
            Some(b) => b,
            None => false,
        },
    ) + "}"@
}

/// Relies on percent_encoding::utf8_percent_encode with NON_ALPHANUMERIC:
/// every byte of the text's UTF-8 form but ASCII letters and digits is
/// written `%XX`, in upper case.
#[verifier::external_body]
fn encode_path_segment(s: &str) -> (r: String)
    ensures
        r@ == percent_encoded(encode_utf8(s@), false),
{
    percent_encoding::utf8_percent_encode(s, percent_encoding::NON_ALPHANUMERIC).to_string()
}

/// What base64 makes of bytes, with the standard alphabet and padding.
pub uninterp spec fn base64_of(bytes: Seq<u8>) -> Seq<char>;

/// Relies on base64::encode: the text's UTF-8 form in base64, with the
/// standard alphabet and padding.
#[verifier::external_body]
#[allow(deprecated)]
fn base64_text(s: &str) -> (r: String)
    ensures
        r@ == base64_of(encode_utf8(s@)),
{
    base64::encode(s)
}

/// The value of an `Authorization` header for HTTP basic authentication,
/// from the credentials already in base64.
pub fn basic_credentials(encoded: &str) -> (r: String)
    ensures
        r@ == "Basic "@ + encoded@,
{
    let mut s = String::from_str("Basic ");
    s.append(encoded);
    s
}

/// Whether an answer has the status that the call expects; else the error
/// that carries its status and body.
pub fn check_status(status: u16, expected: u16, body: Option<String>) -> (r: Result<(), Error>)
    ensures
        status == expected ==> r is Ok,
        status != expected ==> r == Err::<(), Error>(Error::Api(ApiError { code: status, content: body })),
{
    if status != expected {
        Err(Error::new(status, body))
    } else {
        Ok(())
    }
}

/// Reads the `Playback` that an answer's body holds.
pub fn read_playback(body: &str) -> (r: Result<Playback, Error>)
    ensures
        match r {
            Ok(x) => json_tree(body@) matches Some(t) && playback_matches(t, x),
            Err(e) => match json_tree(body@) {
                None => e == Error::Json(DecodeErrorKind::Syntax),
                Some(t) => e == Error::Json(DecodeErrorKind::Payload) && !playback_valid(t),
            },
        },
{
    match parse_json(body) {
        None => Err(Error::Json(DecodeErrorKind::Syntax)),
        Some(j) => match Playback::from_json(&j) {
            Some(x) => Ok(x),
            None => Err(Error::Json(DecodeErrorKind::Payload)),
        },
    }
}

/// Reads the `Channel` that an answer's body holds.
pub fn read_channel(body: &str) -> (r: Result<Channel, Error>)
    ensures
        match r {
            Ok(x) => json_tree(body@) matches Some(t) && channel_matches(t, x),
            Err(e) => match json_tree(body@) {
                None => e == Error::Json(DecodeErrorKind::Syntax),
                Some(t) => e == Error::Json(DecodeErrorKind::Payload) && !channel_valid(t),
            },
        },
{
    match parse_json(body) {
        None => Err(Error::Json(DecodeErrorKind::Syntax)),
        Some(j) => match Channel::from_json(&j) {
            Some(x) => Ok(x),
            None => Err(Error::Json(DecodeErrorKind::Payload)),
        },
    }
}

/// Reads the `Application` that an answer's body holds.
pub fn read_application(body: &str) -> (r: Result<Application, Error>)
    ensures
        match r {
            Ok(x) => json_tree(body@) matches Some(t) && application_matches(t, x),
            Err(e) => match json_tree(body@) {
                None => e == Error::Json(DecodeErrorKind::Syntax),
                Some(t) => e == Error::Json(DecodeErrorKind::Payload) && !application_valid(t),
            },
        },
{
    match parse_json(body) {
        None => Err(Error::Json(DecodeErrorKind::Syntax)),
        Some(j) => match Application::from_json(&j) {
            Some(x) => Ok(x),
            None => Err(Error::Json(DecodeErrorKind::Payload)),
        },
    }
}

/// Reads the value of the variable that an answer's body holds.
pub fn read_variable(body: &str) -> (r: Result<String, Error>)
    ensures
        match r {
            Ok(v) => json_tree(body@) matches Some(t) && str_member(t, "value"@) == Some(v@),
            Err(e) => match json_tree(body@) {
                None => e == Error::Json(DecodeErrorKind::Syntax),
                Some(t) => e == Error::Json(DecodeErrorKind::Payload) && !variable_valid(t),
            },
        },
{
    match parse_json(body) {
        None => Err(Error::Json(DecodeErrorKind::Syntax)),
        Some(j) => match Variable::from_json(&j) {
            Some(x) => Ok(x.value),
            None => Err(Error::Json(DecodeErrorKind::Payload)),
        },
    }
}

/// Whether a JSON value is an array of applications.
pub open spec fn applications_valid(t: JsonTree) -> bool {
    match t {
        JsonTree::Array(items) => forall|i: int|
            0 <= i < items.len() ==> application_valid(#[trigger] items[i]),
        _ => false,
    }
}

/// Reads the list of applications that an answer's body holds.
pub fn read_applications(body: &str) -> (r: Result<Vec<Application>, Error>)
    ensures
        match r {
            Ok(v) => json_tree(body@) matches Some(JsonTree::Array(items)) && items.len() == v.len()
                && forall|i: int| 0 <= i < v.len() ==> application_matches(items[i], #[trigger] v[i]),
            Err(e) => match json_tree(body@) {
                None => e == Error::Json(DecodeErrorKind::Syntax),
                Some(t) => e == Error::Json(DecodeErrorKind::Payload) && !applications_valid(t),
            },
        },
{
    let j = match parse_json(body) {
        None => {
            return Err(Error::Json(DecodeErrorKind::Syntax));
        },
        Some(j) => j,
    };
    let ghost t = j@;
    match &j {
        JsonValue::Array(items) => {
            let ghost ts = match t {
                JsonTree::Array(x) => x,
                _ => Seq::empty(),
            };
            let mut out: Vec<Application> = Vec::new();
            let mut i: usize = 0;
            while i < items.len()
                invariant
                    i <= items.len(),
                    t == JsonTree::Array(ts),
                    json_tree(body@) == Some(t),
                    ts.len() == items.len(),
                    forall|x: int| 0 <= x < items.len() ==> ts[x] == items[x]@,
                    out.len() == i,
                    forall|x: int| 0 <= x < i ==> application_matches(ts[x], #[trigger] out[x]),
                decreases items.len() - i,
            {
                match Application::from_json(&items[i]) {
                    Some(a) => {
                        out.push(a);
                    },
                    None => {
                        assert(!application_valid(ts[i as int]));
                        assert(t->Array_0 == ts);
                        return Err(Error::Json(DecodeErrorKind::Payload));
                    },
                }
                i += 1;
            }
            Ok(out)
        },
        _ => Err(Error::Json(DecodeErrorKind::Payload)),
    }
}

impl AriClient {
    /// The value of the `Authorization` header of every call: basic
    /// authentication with the client's credentials.
    pub fn auth_header(&self) -> (r: String)
        ensures
            r@ == "Basic "@ + base64_of(encode_utf8(self.user@ + ":"@ + self.password@)),
    {
        let mut credentials = self.user.clone();
        credentials.append(":");
        credentials.append(self.password.as_str());
        basic_credentials(base64_text(credentials.as_str()).as_str())
    }

    /// Details of the application `application_name`.
    pub fn get_application_request(&self, application_name: &str) -> (r: Request)
        ensures
            r.method == Method::Get,
            r.url@ == self.url@ + "/applications/"@ + application_name@,
            r.body is None,
            r.expected == 200,
    {
        let mut url = self.url.clone();
        url.append("/applications/");
        url.append(application_name);
        Request { method: Method::Get, url, body: None, expected: 200 }
    }

    /// All applications.
    pub fn list_applications_request(&self) -> (r: Request)
        ensures
            r.method == Method::Get,
            r.url@ == self.url@ + "/applications"@,
            r.body is None,
            r.expected == 200,
    {
        let mut url = self.url.clone();
        url.append("/applications");
        Request { method: Method::Get, url, body: None, expected: 200 }
    }

    /// Answers the channel `channel_id`.
    pub fn answer_request(&self, channel_id: &str) -> (r: Request)
        ensures
            r.method == Method::Post,
            r.url@ == self.url@ + "/channels/"@ + channel_id@ + "/answer"@,
            r.body is None,
            r.expected == 204,
    {
        let mut url = self.url.clone();
        url.append("/channels/");
        url.append(channel_id);
        url.append("/answer");
        Request { method: Method::Post, url, body: None, expected: 204 }
    }

    /// Stops the playback `playback_id`.
    pub fn stop_play_request(&self, playback_id: &str) -> (r: Request)
        ensures
            r.method == Method::Delete,
            r.url@ == self.url@ + "/playbacks/"@ + playback_id@,
            r.body is None,
            r.expected == 204,
    {
        let mut url = self.url.clone();
        url.append("/playbacks/");
        url.append(playback_id);
        Request { method: Method::Delete, url, body: None, expected: 204 }
    }

    /// Reads the variable `var_name` of the channel `channel_id`.
    pub fn get_variable_request(&self, channel_id: &str, var_name: &str) -> (r: Request)
        ensures
            r.method == Method::Get,
            r.url@ == self.url@ + "/channels/"@ + channel_id@ + "/variable?variable="@ + var_name@,
            r.body is None,
            r.expected == 200,
    {
        let mut url = self.url.clone();
        url.append("/channels/");
        url.append(channel_id);
        url.append("/variable?variable=");
        url.append(var_name);
        Request { method: Method::Get, url, body: None, expected: 200 }
    }

    /// Sets the variable `var_name` of the channel `channel_id` to `var_value`.
    pub fn set_variable_request(&self, channel_id: &str, var_name: &str, var_value: &str) -> (r: Request)
        ensures
            r.method == Method::Post,
            r.url@ == self.url@ + "/channels/"@ + channel_id@ + "/variable?variable="@ + var_name@ + "&value="@ + var_value@,
            r.body is None,
            r.expected == 204,
    {
        let mut url = self.url.clone();
        url.append("/channels/");
        url.append(channel_id);
        url.append("/variable?variable=");
        url.append(var_name);
        url.append("&value=");
        url.append(var_value);
        Request { method: Method::Post, url, body: None, expected: 204 }
    }

    /// Hangs up the channel `channel_id`.
    pub fn hangup_request(&self, channel_id: &str) -> (r: Request)
        ensures
            r.method == Method::Delete,
            r.url@ == self.url@ + "/channels/"@ + channel_id@,
            r.body is None,
            r.expected == 204,
    {
        let mut url = self.url.clone();
        url.append("/channels/");
        url.append(channel_id);
        Request { method: Method::Delete, url, body: None, expected: 204 }
    }

    /// Lets the channel `channel_id` leave the application and go on in the dialplan.
    pub fn continue_in_dialplan_request(&self, channel_id: &str) -> (r: Request)
        ensures
            r.method == Method::Post,
            r.url@ == self.url@ + "/channels/"@ + channel_id@ + "/continue"@,
            r.body is None,
            r.expected == 204,
    {
        let mut url = self.url.clone();
        url.append("/channels/");
        url.append(channel_id);
        url.append("/continue");
        Request { method: Method::Post, url, body: None, expected: 204 }
    }

    /// Stops the live recording `recording_name` and stores it.
    pub fn stop_recording_request(&self, recording_name: &str) -> (r: Request)
        ensures
            r.method == Method::Post,
            r.url@ == self.url@ + "/recordings/live/"@ + recording_name@ + "/stop"@,
            r.body is None,
            r.expected == 204,
    {
        let mut url = self.url.clone();
        url.append("/recordings/live/");
        url.append(recording_name);
        url.append("/stop");
        Request { method: Method::Post, url, body: None, expected: 204 }
    }

    /// Pauses the live recording `recording_name`.
    pub fn pause_recording_request(&self, recording_name: &str) -> (r: Request)
        ensures
            r.method == Method::Post,
            r.url@ == self.url@ + "/recordings/live/"@ + recording_name@ + "/pause"@,
            r.body is None,
            r.expected == 204,
    {
        let mut url = self.url.clone();
        url.append("/recordings/live/");
        url.append(recording_name);
        url.append("/pause");
        Request { method: Method::Post, url, body: None, expected: 204 }
    }

    /// Resumes the live recording `recording_name`.
    pub fn unpause_recording_request(&self, recording_name: &str) -> (r: Request)
        ensures
            r.method == Method::Delete,
            r.url@ == self.url@ + "/recordings/live/"@ + recording_name@ + "/pause"@,
            r.body is None,
            r.expected == 204,
    {
        let mut url = self.url.clone();
        url.append("/recordings/live/");
        url.append(recording_name);
        url.append("/pause");
        Request { method: Method::Delete, url, body: None, expected: 204 }
    }

    /// Mutes the live recording `recording_name`.
    pub fn mute_recording_request(&self, recording_name: &str) -> (r: Request)
        ensures
            r.method == Method::Post,
            r.url@ == self.url@ + "/recordings/live/"@ + recording_name@ + "/mute"@,
            r.body is None,
            r.expected == 204,
    {
        let mut url = self.url.clone();
        url.append("/recordings/live/");
        url.append(recording_name);
        url.append("/mute");
        Request { method: Method::Post, url, body: None, expected: 204 }
    }

    /// Unmutes the live recording `recording_name`.
    pub fn unmute_recording_request(&self, recording_name: &str) -> (r: Request)
        ensures
            r.method == Method::Delete,
            r.url@ == self.url@ + "/recordings/live/"@ + recording_name@ + "/mute"@,
            r.body is None,
            r.expected == 204,
    {
        let mut url = self.url.clone();
        url.append("/recordings/live/");
        url.append(recording_name);
        url.append("/mute");
        Request { method: Method::Delete, url, body: None, expected: 204 }
    }

    /// Stops the live recording `recording_name` and discards it.
    pub fn delete_recording_request(&self, recording_name: &str) -> (r: Request)
        ensures
            r.method == Method::Delete,
            r.url@ == self.url@ + "/recordings/live/"@ + recording_name@,
            r.body is None,
            r.expected == 204,
    {
        let mut url = self.url.clone();
        url.append("/recordings/live/");
        url.append(recording_name);
        Request { method: Method::Delete, url, body: None, expected: 204 }
    }

    /// Plays `media` on the channel `channel_id`.
    pub fn play_request(&self, channel_id: &str, media: &str) -> (r: Request)
        ensures
            r.method == Method::Post,
            r.url@ == self.url@ + "/channels/"@ + channel_id@ + "/play"@,
            r.body matches Some(b) && b@ == play_body(channel_id@, media@),
            r.expected == 201,
    {
        let mut url = self.url.clone();
        url.append("/channels/");
        url.append(channel_id);
        url.append("/play");
        let mut body = String::from_str("{\"channelId\": \"");
        body.append(channel_id);
        body.append("\", \"media\": \"");
        body.append(media);
        body.append("\"}");
        Request { method: Method::Post, url, body: Some(body), expected: 201 }
    }

    /// Makes a channel that snoops on the channel `channel_id` for the
    /// application `app`; a direction not given is `none`.
    pub fn snoop_request(
        &self,
        channel_id: &str,
        app: &str,
        spy: Option<Direction>,
        whisper: Option<Direction>,
    ) -> (r: Request)
        ensures
            r.method == Method::Post,
            r.url@ == self.url@ + "/channels/"@ + channel_id@ + "/snoop"@,
            r.body matches Some(b) && b@ == snoop_body(app@, spy, whisper),
            r.expected == 200,
    {
        let mut url = self.url.clone();
        url.append("/channels/");
        url.append(channel_id);
        url.append("/snoop");
        let mut body = String::from_str("{\"app\": \"");
        body.append(app);
        body.append("\", \"spy\": \"");
        body.append(direction_or_none(spy));
        body.append("\", \"whisper\": \"");
        body.append(direction_or_none(whisper));
        body.append("\"}");
        Request { method: Method::Post, url, body: Some(body), expected: 200 }
    }

    /// Records the audio of the channel `channel_id`.
    pub fn record_request(
        &self,
        channel_id: &str,
        filepath: Option<&str>,
        audio_format: Option<&str>,
        terminate_on: Option<&str>,
        max_duration: Option<usize>,
        max_silence: Option<usize>,
        if_exists: Option<&str>,
        beep: Option<bool>,
    ) -> (r: Request)
        ensures
            r.method == Method::Post,
            r.url@ == self.url@ + "/channels/"@ + channel_id@ + "/record"@,
            r.body matches Some(b) && b@ == record_body(
                channel_id@,
                filepath,
                audio_format,
                terminate_on,
                max_duration,
                max_silence,
                if_exists,
                beep,
            ),
            r.expected == 201,
    {
        let mut url = self.url.clone();
        url.append("/channels/");
        url.append(channel_id);
        url.append("/record");
        let mut body = String::from_str("{\"name\": \"");
        body.append(
            match filepath {
                Some(f) => f,
                None => channel_id,
            },
        );
        body.append("\", \"format\": \"");
        body.append(
            match audio_format {
                Some(f) => f,
                None => "wav",
            },
        );
        body.append("\", \"terminateOn\": \"");
        body.append(
            match terminate_on {
                Some(t) => t,
                None => "none",
            },
        );
        body.append("\", \"maxDuration\": ");
        let md: usize = match max_duration {
            Some(n) => n,
            None => 0,
        };
        body.append(decimal_string(md as u64).as_str());
        body.append(", \"maxSilence\": ");
        let ms: usize = match max_silence {
            Some(n) => n,
            None => 0,
        };
        body.append(decimal_string(ms as u64).as_str());
        body.append(", \"ifExists\": \"");
        body.append(
            match if_exists {
                Some(e) => e,
                None => "fail",
            },
        );
        body.append("\", \"beep\": ");
        let b = match beep {
            Some(b) => b,
            None => false,
        };
        body.append(
            if b {
                "true"
            } else {
                "false"
            },
        );
        body.append("}");
        Request { method: Method::Post, url, body: Some(body), expected: 201 }
    }

    /// Fetches the file of the stored recording `recording_name`; the name is
    /// percent-encoded in the path.
    pub fn get_recording_request(&self, recording_name: &str) -> (r: Request)
        ensures
            r.method == Method::Get,
            r.url@ == self.url@ + "/recordings/stored/"@ + percent_encoded(
                encode_utf8(recording_name@),
                false,
            ) + "/file"@,
            r.body is None,
            r.expected == 200,
    {
        let mut url = self.url.clone();
        url.append("/recordings/stored/");
        url.append(encode_path_segment(recording_name).as_str());
        url.append("/file");
        Request { method: Method::Get, url, body: None, expected: 200 }
    }
}

} // verus!
