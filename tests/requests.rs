use asterisk_ari_client::client::AriClient;
use asterisk_ari_client::errors::{ApiError, Error};
use asterisk_ari_client::events::DecodeErrorKind;
use asterisk_ari_client::requests::{
    basic_credentials, check_status, read_applications, read_channel, read_playback,
    read_variable, Direction, Method,
};

fn client() -> AriClient {
    AriClient::new("http://localhost:8088/ari".to_string(), "asterisk".to_string(), "asterisk".to_string())
}

#[test]
fn auth_header_is_basic_base64() {
    assert_eq!(client().auth_header(), "Basic YXN0ZXJpc2s6YXN0ZXJpc2s=");
    assert_eq!(basic_credentials("abc"), "Basic abc");
}

#[test]
fn simple_requests() {
    let c = client();
    let r = c.answer_request("1606076223.3");
    assert_eq!(r.method, Method::Post);
    assert_eq!(r.url, "http://localhost:8088/ari/channels/1606076223.3/answer");
    assert_eq!(r.body, None);
    assert_eq!(r.expected, 204);
    let r = c.get_variable_request("ch", "VAR");
    assert_eq!(r.method, Method::Get);
    assert_eq!(r.url, "http://localhost:8088/ari/channels/ch/variable?variable=VAR");
    assert_eq!(r.expected, 200);
    let r = c.set_variable_request("ch", "VAR", "7");
    assert_eq!(r.url, "http://localhost:8088/ari/channels/ch/variable?variable=VAR&value=7");
    assert_eq!(r.expected, 204);
    let r = c.hangup_request("ch");
    assert_eq!((r.method, r.url.as_str()), (Method::Delete, "http://localhost:8088/ari/channels/ch"));
    let r = c.unpause_recording_request("rec");
    assert_eq!((r.method, r.url.as_str()), (Method::Delete, "http://localhost:8088/ari/recordings/live/rec/pause"));
    let r = c.list_applications_request();
    assert_eq!(r.url, "http://localhost:8088/ari/applications");
}

#[test]
fn play_request_body() {
    let r = client().play_request("ch", "sound:hello");
    assert_eq!(r.url, "http://localhost:8088/ari/channels/ch/play");
    assert_eq!(r.body.unwrap(), r#"{"channelId": "ch", "media": "sound:hello"}"#);
    assert_eq!(r.expected, 201);
}

#[test]
fn snoop_request_body() {
    let r = client().snoop_request("ch", "app", Some(Direction::In), None);
    assert_eq!(r.body.unwrap(), r#"{"app": "app", "spy": "in", "whisper": "none"}"#);
    assert_eq!(r.expected, 200);
    assert_eq!(Direction::default(), Direction::Neither);
    assert_eq!(Direction::Both.as_text(), "both");
}

#[test]
fn record_request_defaults() {
    let r = client().record_request("ch", None, None, None, None, None, None, None);
    assert_eq!(r.url, "http://localhost:8088/ari/channels/ch/record");
    assert_eq!(
        r.body.unwrap(),
        r#"{"name": "ch", "format": "wav", "terminateOn": "none", "maxDuration": 0, "maxSilence": 0, "ifExists": "fail", "beep": false}"#
    );
    let r = client().record_request("ch", Some("f"), Some("gsm"), Some("#"), Some(30), Some(5), Some("overwrite"), Some(true));
    assert_eq!(
        r.body.unwrap(),
        r##"{"name": "f", "format": "gsm", "terminateOn": "#", "maxDuration": 30, "maxSilence": 5, "ifExists": "overwrite", "beep": true}"##
    );
}

#[test]
fn recording_name_is_encoded() {
    let r = client().get_recording_request("my rec-1.wav");
    assert_eq!(r.url, "http://localhost:8088/ari/recordings/stored/my%20rec%2D1%2Ewav/file");
    assert_eq!(r.expected, 200);
}

#[test]
fn status_is_checked() {
    assert_eq!(check_status(204, 204, None), Ok(()));
    assert_eq!(
        check_status(404, 204, Some("gone".to_string())),
        Err(Error::Api(ApiError { code: 404, content: Some("gone".to_string()) }))
    );
    assert_eq!(Error::new(500, None), Error::Api(ApiError { code: 500, content: None }));
}

#[test]
fn bodies_are_read() {
    let p = read_playback(r#"{"id":"pb","media_uri":"m","target_uri":"t","language":"en","state":"done","next_media_uri":"n"}"#).unwrap();
    assert_eq!(p.next_media_uri, Some("n".to_string()));
    assert_eq!(read_playback("nope"), Err(Error::Json(DecodeErrorKind::Syntax)));
    assert_eq!(read_playback("{}"), Err(Error::Json(DecodeErrorKind::Payload)));
    assert_eq!(read_variable(r#"{"value":"42"}"#), Ok("42".to_string()));
    assert_eq!(read_variable(r#"{"value":42}"#), Err(Error::Json(DecodeErrorKind::Payload)));
    assert!(read_channel("{}").is_err());
    let apps = read_applications(
        r#"[{"name":"a","channel_ids":["c1"],"bridge_ids":[],"endpoint_ids":[],"device_names":[]}]"#,
    )
    .unwrap();
    assert_eq!(apps.len(), 1);
    assert_eq!(apps[0].channel_ids, vec!["c1".to_string()]);
    assert_eq!(read_applications("[]").unwrap().len(), 0);
    assert_eq!(read_applications("{}"), Err(Error::Json(DecodeErrorKind::Payload)));
    assert_eq!(read_applications(r#"[{"name":"a"}]"#), Err(Error::Json(DecodeErrorKind::Payload)));
}
