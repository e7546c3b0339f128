use asterisk_ari_client::client::AriClient;
use asterisk_ari_client::endpoint::{decimal_string, events_url, has_prefix, join, stream_url};
use asterisk_ari_client::errors::{EndpointFault, Error};

fn apps(names: &[&str]) -> Vec<String> {
    names.iter().map(|s| s.to_string()).collect()
}

#[test]
fn stream_url_for_plain_http() {
    let u = stream_url("http://localhost:8088/ari", &apps(&["app1", "app2"]), "asterisk", "p@ss w").unwrap();
    assert_eq!(u, "ws://localhost:8088/ari/events?app=app1,app2&api_key=asterisk:p%40ss%20w");
}

#[test]
fn stream_url_for_https_is_secure() {
    let u = stream_url("https://pbx.example.com:8089/ari", &apps(&["a"]), "u-1_.~", "é").unwrap();
    assert_eq!(u, "wss://pbx.example.com:8089/ari/events?app=a&api_key=u-1_.~:%C3%A9");
}

#[test]
fn stream_url_needs_a_port() {
    assert_eq!(
        stream_url("http://localhost/ari", &apps(&["a"]), "u", "p"),
        Err(Error::InvalidEndpoint(EndpointFault::MissingPort))
    );
    assert_eq!(
        stream_url("http://localhost:80/ari", &apps(&["a"]), "u", "p"),
        Err(Error::InvalidEndpoint(EndpointFault::MissingPort))
    );
}

#[test]
fn stream_url_needs_a_host() {
    assert_eq!(
        stream_url("unix:/run/ari.sock", &apps(&["a"]), "u", "p"),
        Err(Error::InvalidEndpoint(EndpointFault::MissingHost))
    );
}

#[test]
fn stream_url_needs_a_url() {
    assert_eq!(stream_url("not a url", &apps(&["a"]), "u", "p"), Err(Error::UrlParse));
    assert_eq!(stream_url("", &apps(&["a"]), "u", "p"), Err(Error::UrlParse));
}

#[test]
fn client_gives_its_events_address() {
    let c = AriClient::new("http://10.0.0.1:8088/ari".to_string(), "me".to_string(), "pw".to_string());
    assert_eq!(
        c.events_address(&apps(&["my-ast-app"])).unwrap(),
        "ws://10.0.0.1:8088/ari/events?app=my-ast-app&api_key=me:pw"
    );
}

#[test]
fn events_url_from_parts() {
    assert_eq!(
        events_url(true, "h", 1, &apps(&[]), "a b", "c"),
        "wss://h:1/ari/events?app=&api_key=a%20b:c"
    );
}

#[test]
fn text_helpers() {
    assert_eq!(decimal_string(0), "0");
    assert_eq!(decimal_string(8088), "8088");
    assert_eq!(decimal_string(u64::MAX), "18446744073709551615");
    assert_eq!(join(&apps(&[]), ","), "");
    assert_eq!(join(&apps(&["x"]), ","), "x");
    assert_eq!(join(&apps(&["x", "y", "z"]), ", "), "x, y, z");
    assert!(has_prefix("https://a", "https://"));
    assert!(!has_prefix("http://a", "https://"));
    assert!(!has_prefix("htt", "https://"));
}
