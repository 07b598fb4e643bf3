use pump_sniper::events::StreamEvent;
use pump_sniper::session::{
    connected_line, opening_messages, scanner_loop, scanner_session, stream_url, Incoming, SessionEvent, SessionStep,
};

#[test]
fn the_address_carries_the_key() {
    assert_eq!(stream_url("abc"), "wss://pumpportal.fun/api/data?api-key=abc");
}

#[test]
fn a_session_subscribes_to_three_things() {
    assert_eq!(
        opening_messages("W"),
        vec![
            r#"{"method":"subscribeNewToken"}"#.to_string(),
            r#"{"method":"subscribeMigration"}"#.to_string(),
            r#"{"keys":["W"],"method":"subscribeAccountTrade"}"#.to_string(),
        ]
    );
    assert_eq!(connected_line(), "\x1b[32m[WS] connected\x1b[0m");
}

#[test]
fn frames_become_steps() {
    let came = |incoming: Incoming| scanner_session(SessionEvent::Came(incoming));
    let raw = r#"{"txType":"create","mint":"M"}"#;
    let step = came(Incoming::Text(raw.to_string()));
    assert!(matches!(step, SessionStep::Event(StreamEvent::Created(_))));
    let step = came(Incoming::Binary(raw.as_bytes().to_vec()));
    assert!(matches!(step, SessionStep::Event(StreamEvent::Created(_))));
    assert!(matches!(came(Incoming::Binary(vec![0xff])), SessionStep::Nothing));
    assert!(matches!(came(Incoming::Text("?".to_string())), SessionStep::Event(StreamEvent::Other)));
    assert!(matches!(came(Incoming::Ping(vec![1, 2])), SessionStep::Pong(d) if d == vec![1, 2]));
    assert!(matches!(came(Incoming::Close), SessionStep::Finish));
    assert!(matches!(came(Incoming::End), SessionStep::Finish));
    assert!(matches!(came(Incoming::Failed("e".to_string())), SessionStep::Fail(e) if e == "e"));
    assert!(matches!(came(Incoming::Other), SessionStep::Nothing));
}

#[test]
fn shutdown_ends_a_session() {
    assert!(matches!(scanner_session(SessionEvent::Turn { shutdown: true }), SessionStep::Finish));
    assert!(matches!(scanner_session(SessionEvent::Turn { shutdown: false }), SessionStep::Read));
}

#[test]
fn sessions_follow_each_other_until_shutdown() {
    assert_eq!(scanner_loop(None, false), (None, true));
    assert_eq!(scanner_loop(Some("gone"), false), (Some("\x1b[31m[WS]\x1b[0m gone".to_string()), true));
    assert_eq!(scanner_loop(None, true), (None, false));
}
