use asterisk_ari_client::client::{AriClient, Consumer};
use asterisk_ari_client::dispatch::{Dispatcher, Inbound, LoopState, Step};
use asterisk_ari_client::errors::Error;
use asterisk_ari_client::events::{DecodeErrorKind, EventKind, StasisEnd, StasisStart};
use tokio::sync::mpsc;

const CHANNEL: &str = r#"{"id":"1606076223.3","name":"PJSIP/6001-00000003","state":"Up","caller":{"name":"","number":"6001"},"connected":{"name":"","number":""},"accountcode":"","dialplan":{"context":"from-internal","exten":"101","priority":6,"app_name":"Stasis","app_data":"x"},"creationtime":"2020-11-22T20:17:03.741+0000","language":"en"}"#;

fn stasis_start(arg: &str) -> String {
    format!(
        r#"{{"type":"StasisStart","timestamp":"t","args":["{}"],"channel":{},"application":"app"}}"#,
        arg, CHANNEL
    )
}

fn stasis_end() -> String {
    format!(r#"{{"type":"StasisEnd","timestamp":"t","channel":{},"application":"app"}}"#, CHANNEL)
}

fn client() -> AriClient {
    AriClient::new(
        "http://localhost:8088/ari".to_string(),
        "asterisk".to_string(),
        "asterisk".to_string(),
    )
}

fn running() -> Dispatcher {
    let mut d = Dispatcher::new();
    d.start();
    assert_eq!(d.loop_state(), LoopState::Running);
    d
}

#[test]
fn idle_engine_does_nothing() {
    let c = client();
    let mut d = Dispatcher::new();
    assert_eq!(d.loop_state(), LoopState::Idle);
    assert_eq!(d.receive(&c, Inbound::Ping(vec![1])), Step::Halted);
    assert_eq!(d.keep_alive(), Step::Halted);
    assert_eq!(d.loop_state(), LoopState::Idle);
}

#[test]
fn events_reach_the_queue_in_order() {
    let mut c = client();
    let (tx, mut rx) = mpsc::channel::<StasisStart>(1000);
    c.set_stasis_start_sender(Some(tx));
    let mut d = running();
    for arg in ["a", "b", "c"] {
        assert_eq!(
            d.receive(&c, Inbound::Text(stasis_start(arg))),
            Step::Delivered(EventKind::StasisStart, true)
        );
    }
    for arg in ["a", "b", "c"] {
        let e = rx.try_recv().unwrap();
        assert_eq!(e.args, vec![arg.to_string()]);
    }
    assert!(rx.try_recv().is_err());
    assert_eq!(d.loop_state(), LoopState::Running);
}

#[test]
fn event_without_consumer_is_dropped() {
    let mut c = client();
    let (tx, mut rx) = mpsc::channel::<StasisStart>(10);
    c.set_stasis_start_sender(Some(tx));
    let mut d = running();
    assert_eq!(d.receive(&c, Inbound::Text(stasis_end())), Step::Unrouted(EventKind::StasisEnd));
    assert!(rx.try_recv().is_err());
    assert_eq!(d.loop_state(), LoopState::Running);
}

#[test]
fn bad_text_leaves_the_loop_running() {
    let c = client();
    let mut d = running();
    match d.receive(&c, Inbound::Text(r#"{"type":"Bogus"}"#.to_string())) {
        Step::Rejected(e) => assert_eq!(e.kind, DecodeErrorKind::UnknownType),
        other => panic!("unexpected {:?}", other),
    }
    assert_eq!(d.loop_state(), LoopState::Running);
    assert_eq!(d.receive(&c, Inbound::Text(stasis_end())), Step::Unrouted(EventKind::StasisEnd));
}

#[test]
fn full_queue_refuses_without_waiting() {
    let mut c = client();
    let (tx, mut rx) = mpsc::channel::<StasisStart>(1);
    c.set_stasis_start_sender(Some(tx));
    let mut d = running();
    assert_eq!(
        d.receive(&c, Inbound::Text(stasis_start("a"))),
        Step::Delivered(EventKind::StasisStart, true)
    );
    assert_eq!(
        d.receive(&c, Inbound::Text(stasis_start("b"))),
        Step::Delivered(EventKind::StasisStart, false)
    );
    assert_eq!(rx.try_recv().unwrap().args, vec!["a".to_string()]);
    assert_eq!(d.loop_state(), LoopState::Running);
}

#[test]
fn closed_queue_refuses() {
    let mut c = client();
    let (tx, rx) = mpsc::channel::<StasisEnd>(4);
    drop(rx);
    c.set_stasis_end_sender(Some(tx));
    let mut d = running();
    assert_eq!(d.receive(&c, Inbound::Text(stasis_end())), Step::Delivered(EventKind::StasisEnd, false));
}

#[test]
fn last_consumer_set_wins() {
    let mut c = client();
    let (tx1, mut rx1) = mpsc::channel::<StasisEnd>(4);
    let (tx2, mut rx2) = mpsc::channel::<StasisEnd>(4);
    c.set_stasis_end_sender(Some(tx1));
    c.set_consumer(EventKind::StasisEnd, Some(Consumer::StasisEnd(tx2)));
    let mut d = running();
    d.receive(&c, Inbound::Text(stasis_end()));
    assert!(rx1.try_recv().is_err());
    assert!(rx2.try_recv().is_ok());
    c.set_stasis_end_sender(None);
    assert_eq!(d.receive(&c, Inbound::Text(stasis_end())), Step::Unrouted(EventKind::StasisEnd));
}

#[test]
fn ping_is_answered_with_its_payload() {
    let c = client();
    let mut d = running();
    assert_eq!(d.receive(&c, Inbound::Ping(vec![7, 8, 9])), Step::SendPong(vec![7, 8, 9]));
    assert_eq!(d.receive(&c, Inbound::Ping(vec![])), Step::SendPong(vec![]));
    assert_eq!(d.loop_state(), LoopState::Running);
}

#[test]
fn pong_and_other_frames_are_ignored() {
    let c = client();
    let mut d = running();
    assert_eq!(d.receive(&c, Inbound::Pong(vec![1])), Step::Ignored);
    assert_eq!(d.receive(&c, Inbound::Binary(vec![1, 2])), Step::Unexpected);
    assert_eq!(d.receive(&c, Inbound::Frame), Step::Unexpected);
    assert_eq!(d.loop_state(), LoopState::Running);
}

#[test]
fn close_ends_the_loop_for_good() {
    let c = client();
    let mut d = running();
    assert_eq!(d.receive(&c, Inbound::Close), Step::Closed);
    assert_eq!(d.loop_state(), LoopState::Terminated);
    assert_eq!(d.receive(&c, Inbound::Ping(vec![1])), Step::Halted);
    assert_eq!(d.receive(&c, Inbound::Text(stasis_end())), Step::Halted);
    assert_eq!(d.keep_alive(), Step::Halted);
    d.start();
    assert_eq!(d.loop_state(), LoopState::Terminated);
}

#[test]
fn end_and_failure_end_the_loop() {
    let c = client();
    let mut d = running();
    assert_eq!(d.receive(&c, Inbound::End), Step::Ended);
    assert_eq!(d.loop_state(), LoopState::Terminated);
    let mut d = running();
    assert_eq!(
        d.receive(&c, Inbound::Failed("reset".to_string())),
        Step::Failed(Error::Websocket("reset".to_string()))
    );
    assert_eq!(d.loop_state(), LoopState::Terminated);
}

#[test]
fn keep_alive_pings_with_fresh_random_payload() {
    let d = running();
    let a = match d.keep_alive() {
        Step::SendPing(p) => p,
        other => panic!("unexpected {:?}", other),
    };
    let b = match d.keep_alive() {
        Step::SendPing(p) => p,
        other => panic!("unexpected {:?}", other),
    };
    assert_eq!(a.len(), 32);
    assert_eq!(b.len(), 32);
    assert_ne!(a, b);
}
