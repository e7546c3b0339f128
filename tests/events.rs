use asterisk_ari_client::events::{
    decode, AriEvent, ChannelStateChange, DecodeErrorKind, Event, EventKind, Message, StasisStart,
};
use asterisk_ari_client::json::JsonValue;

const STR_JSON: &str = "{\n  \"type\": \"StasisStart\",\n  \"timestamp\": \"2020-11-22T20:17:06.150+0000\",\n  \"args\": [\n    \"its-va-demo-app\",\n    \"en-US\"\n  ],\n  \"channel\": {\n    \"id\": \"1606076223.3\",\n    \"name\": \"PJSIP/6001-00000003\",\n    \"state\": \"Up\",\n    \"caller\": {\n      \"name\": \"\",\n      \"number\": \"6001\"\n    },\n    \"connected\": {\n      \"name\": \"\",\n      \"number\": \"\"\n    },\n    \"accountcode\": \"\",\n    \"dialplan\": {\n      \"context\": \"from-internal\",\n      \"exten\": \"101\",\n      \"priority\": 6,\n      \"app_name\": \"Stasis\",\n      \"app_data\": \"va-voicegw,its-va-demo-app,en-US\"\n    },\n    \"creationtime\": \"2020-11-22T20:17:03.741+0000\",\n    \"language\": \"en\"\n  },\n  \"asterisk_id\": \"00:15:5d:01:65:04\",\n  \"application\": \"va-voicegw\"\n}";
const STR_JSON2: &str = "{\n  \"type\": \"StasisStart\",\n  \"timestamp\": \"2021-01-07T21:12:57.268+0100\",\n  \"args\": [\n    \"freight-cs-voice\",\n    \"en-US\"\n  ],\n  \"channel\": {\n    \"id\": \"1610050377.0\",\n    \"name\": \"SIP/1004-00000000\",\n    \"state\": \"Ring\",\n    \"caller\": {\n      \"name\": \"Adam\",\n      \"number\": \"1004\"\n    },\n    \"connected\": {\n      \"name\": \"\",\n      \"number\": \"\"\n    },\n    \"accountcode\": \"\",\n    \"dialplan\": {\n      \"context\": \"internal\",\n      \"exten\": \"158\",\n      \"priority\": 10,\n      \"app_name\": \"Stasis\",\n      \"app_data\": \"va-voicegw-rs,freight-cs-voice,en-US\"\n    },\n    \"creationtime\": \"2021-01-07T21:12:57.267+0100\",\n    \"language\": \"en\"\n  },\n  \"asterisk_id\": \"00:50:56:98:74:21\",\n  \"application\": \"va-voicegw-rs\"\n}";
const STR_JSON_CHNL_STATE_CHANGED: &str = "{\n  \"type\": \"ChannelStateChange\",\n  \"timestamp\": \"2021-01-07T22:12:29.571+0100\",\n  \"channel\": {\n    \"id\": \"1610053949.0\",\n    \"name\": \"SIP/1004-00000000\",\n    \"state\": \"Up\",\n    \"caller\": {\n      \"name\": \"Adam\",\n      \"number\": \"1004\"\n    },\n    \"connected\": {\n      \"name\": \"\",\n      \"number\": \"\"\n    },\n    \"accountcode\": \"\",\n    \"dialplan\": {\n      \"context\": \"internal\",\n      \"exten\": \"158\",\n      \"priority\": 10,\n      \"app_name\": \"Stasis\",\n      \"app_data\": \"va-voicegw-rs,freight-cs-voice,en-US\"\n    },\n    \"creationtime\": \"2021-01-07T22:12:29.369+0100\",\n    \"language\": \"en\"\n  },\n  \"asterisk_id\": \"00:50:56:98:74:21\",\n  \"application\": \"va-voicegw-rs\"\n}";

const CHANNEL: &str = r#"{"id":"1606076223.3","name":"PJSIP/6001-00000003","state":"Up","caller":{"name":"","number":"6001"},"connected":{"name":"","number":""},"accountcode":"","dialplan":{"context":"from-internal","exten":"101","priority":6,"app_name":"Stasis","app_data":"x"},"creationtime":"2020-11-22T20:17:03.741+0000","language":"en"}"#;
const PLAYBACK: &str = r#"{"id":"pb1","media_uri":"sound:hello","target_uri":"channel:1","language":"en","state":"playing"}"#;
const RECORDING: &str = r#"{"name":"rec1","format":"wav","state":"recording","target_uri":"channel:1"}"#;

fn event_text(kind: &str, payload: &str) -> String {
    format!(
        r#"{{"type":"{}","timestamp":"2020-11-22T20:17:06.150+0000","application":"app"{}}}"#,
        kind, payload
    )
}

fn stasis_start_of(text: &str) -> StasisStart {
    match decode(text).unwrap() {
        AriEvent::StasisStart(e) => e,
        other => panic!("unexpected {:?}", other),
    }
}

#[test]
fn test_parse_stasis_start() {
    let ari_event = stasis_start_of(STR_JSON);
    println!("{:#?}", ari_event);
    assert_eq!(ari_event.application, "va-voicegw");
    assert_eq!(ari_event.channel.dialplan.priority, 6);
}

#[test]
fn test_2_parse_stasis_start() {
    let ari_event = stasis_start_of(STR_JSON2);
    println!("{:#?}", ari_event);
    assert_eq!(ari_event.timestamp, "2021-01-07T21:12:57.268+0100");
    assert_eq!(ari_event.channel.caller.name, "Adam");
}

#[test]
fn test_parse_channel_state_change() {
    let ari_event: ChannelStateChange = match decode(STR_JSON_CHNL_STATE_CHANGED).unwrap() {
        AriEvent::ChannelStateChange(e) => e,
        other => panic!("unexpected {:?}", other),
    };
    println!("{:#?}", ari_event);
    assert_eq!(ari_event.channel.state, "Up");
}

#[test]
fn test_parse_ari_event_stasis_start() {
    let ari_event = decode(STR_JSON).unwrap();
    println!("{:#?}", ari_event);
    assert!(matches!(ari_event, AriEvent::StasisStart(_)));
}

#[test]
fn stasis_start_literal_scenario() {
    let text = format!(
        r#"{{"type":"StasisStart","timestamp":"2020-11-22T20:17:06.150+0000","args":["app","en-US"],"channel":{},"asterisk_id":"00:15:5d:01:65:04","application":"app"}}"#,
        CHANNEL
    );
    match decode(&text).unwrap() {
        AriEvent::StasisStart(e) => {
            assert_eq!(e.application, "app");
            assert_eq!(e.args, vec!["app".to_string(), "en-US".to_string()]);
            assert_eq!(e.asterisk_id, Some("00:15:5d:01:65:04".to_string()));
            assert_eq!(e.channel.id, "1606076223.3");
            assert_eq!(e.channel.language, Some("en".to_string()));
            assert!(e.channel.channelvars.is_none());
            assert!(e.replace_channel.is_none());
        }
        other => panic!("unexpected {:?}", other),
    }
}

#[test]
fn unknown_type_is_rejected() {
    let err = decode(r#"{"type":"Bogus"}"#).unwrap_err();
    assert_eq!(err.kind, DecodeErrorKind::UnknownType);
    assert_eq!(err.raw, r#"{"type":"Bogus"}"#);
}

#[test]
fn missing_type_is_rejected() {
    assert_eq!(decode(r#"{"application":"app"}"#).unwrap_err().kind, DecodeErrorKind::MissingType);
    assert_eq!(decode(r#"{"type":7}"#).unwrap_err().kind, DecodeErrorKind::MissingType);
}

#[test]
fn text_that_is_no_json_is_rejected() {
    assert_eq!(decode("{\"type\": ").unwrap_err().kind, DecodeErrorKind::Syntax);
    assert_eq!(decode("").unwrap_err().kind, DecodeErrorKind::Syntax);
}

#[test]
fn missing_payload_field_is_rejected() {
    let text = event_text("StasisStart", r#","args":[]"#);
    assert_eq!(decode(&text).unwrap_err().kind, DecodeErrorKind::Payload);
    let text = event_text("StasisEnd", "");
    assert_eq!(decode(&text).unwrap_err().kind, DecodeErrorKind::Payload);
}

#[test]
fn wrongly_typed_field_is_rejected() {
    let text = event_text(
        "ChannelDtmfReceived",
        &format!(r#","digit":"5","duration_ms":1.5,"channel":{}"#, CHANNEL),
    );
    assert_eq!(decode(&text).unwrap_err().kind, DecodeErrorKind::Payload);
    let text = event_text(
        "ChannelDtmfReceived",
        &format!(r#","digit":"5","duration_ms":"100","channel":{}"#, CHANNEL),
    );
    assert_eq!(decode(&text).unwrap_err().kind, DecodeErrorKind::Payload);
    let text = event_text(
        "ChannelDtmfReceived",
        &format!(r#","digit":"5","duration_ms":9223372036854775808,"channel":{}"#, CHANNEL),
    );
    assert_eq!(decode(&text).unwrap_err().kind, DecodeErrorKind::Payload);
}

#[test]
fn every_kind_decodes() {
    let ch = format!(r#","channel":{}"#, CHANNEL);
    let pb = format!(r#","playback":{}"#, PLAYBACK);
    let rec = format!(r#","recording":{}"#, RECORDING);
    let cases: Vec<(&str, String, EventKind)> = vec![
        ("StasisStart", format!(r#","args":[]{}"#, ch), EventKind::StasisStart),
        (
            "ChannelDtmfReceived",
            format!(r#","digit":"5","duration_ms":120{}"#, ch),
            EventKind::ChannelDtmfReceived,
        ),
        ("ChannelHangupRequest", ch.clone(), EventKind::ChannelHangupRequest),
        ("StasisEnd", ch.clone(), EventKind::StasisEnd),
        (
            "ChannelTalkingFinished",
            format!(r#"{},"duration":3000"#, ch),
            EventKind::ChannelTalkingFinished,
        ),
        ("ChannelTalkingStarted", ch.clone(), EventKind::ChannelTalkingStarted),
        (
            "ChannelDestroyed",
            format!(r#","cause":16,"cause_txt":"Normal Clearing"{}"#, ch),
            EventKind::ChannelDestroyed,
        ),
        ("PlaybackStarted", pb.clone(), EventKind::PlaybackStarted),
        ("PlaybackFinished", pb.clone(), EventKind::PlaybackFinished),
        ("ChannelStateChange", ch.clone(), EventKind::ChannelStateChange),
        (
            "ChannelVarset",
            format!(r#","variable":"V","value":"1"{}"#, ch),
            EventKind::ChannelVarset,
        ),
        ("RecordingStarted", rec.clone(), EventKind::RecordingStarted),
        ("RecordingFinished", rec.clone(), EventKind::RecordingFinished),
    ];
    assert_eq!(cases.len(), 13);
    for (name, payload, kind) in cases {
        let text = event_text(name, &payload);
        let e = decode(&text).unwrap_or_else(|err| panic!("{}: {:?}", name, err));
        assert_eq!(e.kind(), kind);
        assert_eq!(EventKind::from_name(name), Some(kind));
    }
}

#[test]
fn event_fields_are_populated() {
    let text = event_text(
        "ChannelHangupRequest",
        &format!(r#","cause":-3,"soft":true,"asterisk_id":null,"channel":{}"#, CHANNEL),
    );
    match decode(&text).unwrap() {
        AriEvent::ChannelHangupRequest(e) => {
            assert_eq!(e.cause, Some(-3));
            assert_eq!(e.soft, Some(true));
            assert_eq!(e.asterisk_id, None);
            assert_eq!(e.application, "app");
        }
        other => panic!("unexpected {:?}", other),
    }
    let text = event_text(
        "ChannelDestroyed",
        &format!(r#","cause":-9223372036854775808,"cause_txt":"x","channel":{}"#, CHANNEL),
    );
    match decode(&text).unwrap() {
        AriEvent::ChannelDestroyed(e) => assert_eq!(e.cause, i64::MIN),
        other => panic!("unexpected {:?}", other),
    }
    let text = event_text("PlaybackFinished", &format!(r#","playback":{}"#, PLAYBACK));
    match decode(&text).unwrap() {
        AriEvent::PlaybackFinished(e) => {
            assert_eq!(e.playback.media_uri, "sound:hello");
            assert_eq!(e.playback.next_media_uri, None);
        }
        other => panic!("unexpected {:?}", other),
    }
}

#[test]
fn channel_variables_are_kept() {
    let ch = CHANNEL.replace(r#""language":"en""#, r#""language":"en","channelvars":{"A":"1","B":[true,null]}"#);
    let text = event_text("StasisEnd", &format!(r#","channel":{}"#, ch));
    match decode(&text).unwrap() {
        AriEvent::StasisEnd(e) => {
            let vars = e.channel.channelvars.unwrap();
            match vars {
                JsonValue::Object(m) => {
                    assert_eq!(m.len(), 2);
                    assert_eq!(m[0].0, "A");
                    assert_eq!(m[0].1, JsonValue::Str("1".to_string()));
                    assert_eq!(
                        m[1].1,
                        JsonValue::Array(vec![JsonValue::Bool(true), JsonValue::Null])
                    );
                }
                other => panic!("unexpected {:?}", other),
            }
        }
        other => panic!("unexpected {:?}", other),
    }
}

#[test]
fn numbers_keep_their_text() {
    let ch = CHANNEL.replace(r#""language":"en""#, r#""channelvars":[12, -4, 1.5]"#);
    let text = event_text("StasisEnd", &format!(r#","channel":{}"#, ch));
    match decode(&text).unwrap() {
        AriEvent::StasisEnd(e) => {
            assert_eq!(e.channel.language, None);
            assert_eq!(
                e.channel.channelvars,
                Some(JsonValue::Array(vec![
                    JsonValue::Number("12".to_string()),
                    JsonValue::Number("-4".to_string()),
                    JsonValue::Number("1.5".to_string()),
                ]))
            );
        }
        other => panic!("unexpected {:?}", other),
    }
}

#[test]
fn message_and_event_headers() {
    let s = |x: &str| JsonValue::Str(x.to_string());
    let j = JsonValue::Object(vec![
        ("application".to_string(), s("va-voicegw")),
        ("asterisk_id".to_string(), s("00:15:5d:01:65:04")),
        ("timestamp".to_string(), s("2020-11-22T20:17:06.150+0000")),
        ("type".to_string(), s("StasisStart")),
    ]);
    let m = Message::from_json(&j).unwrap();
    assert_eq!(m.message_type, "StasisStart");
    assert_eq!(m.asterisk_id, Some("00:15:5d:01:65:04".to_string()));
    let e = Event::from_json(&j).unwrap();
    assert_eq!(e.event_type, "StasisStart");
    assert_eq!(e.application, "va-voicegw");
    assert_eq!(e.timestamp, "2020-11-22T20:17:06.150+0000");
    let j = JsonValue::Object(vec![
        ("type".to_string(), JsonValue::Str("X".to_string())),
        ("asterisk_id".to_string(), JsonValue::Number("5".to_string())),
    ]);
    assert!(Message::from_json(&j).is_none());
    assert!(Event::from_json(&j).is_none());
}
