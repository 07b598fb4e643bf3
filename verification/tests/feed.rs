use pump_sniper::feed::{
    connect_and_listen, feed_url, find_token_record, get_string, handle_message, read_url, session_end_line, FeedStep, SUBSCRIBE,
};
use pump_sniper::json::parse;
use pump_sniper::session::Incoming;

#[test]
fn the_address_is_a_url() {
    assert_eq!(feed_url().unwrap(), "wss://pumpportal.fun/api/data");
    assert_eq!(read_url("WSS://PumpPortal.fun:443").unwrap(), "wss://pumpportal.fun/");
    assert_eq!(read_url("nowhere").unwrap_err(), "relative URL without a base");
    assert_eq!(SUBSCRIBE, r#"{"method":"SubscribeNewToken"}"#);
}

fn found(raw: &str) -> Option<String> {
    let v = parse(raw).unwrap();
    find_token_record(&v).map(|r| get_string(r, &["mint"]).unwrap_or_default())
}

#[test]
fn records_are_found_depth_first() {
    assert_eq!(found(r#"{"mint":"a","data":{"mint":"b"}}"#).as_deref(), Some("a"));
    assert_eq!(found(r#"{"data":{"mint":"b"},"a":{"mint":"c"}}"#).as_deref(), Some("b"));
    assert_eq!(found(r#"{"z":{"mint":"z"},"b":[1,{"x":{"mint":"deep"}}]}"#).as_deref(), Some("deep"));
    assert_eq!(found(r#"[[],{"data":[{"mint":"in list"}]}]"#).as_deref(), Some("in list"));
    assert_eq!(found(r#"[{"data":{"mint":"first"}},{"mint":"second"}]"#).as_deref(), Some("first"));
    assert_eq!(found(r#"{"a":1}"#), None);
    assert_eq!(found("3"), None);
    assert_eq!(found(r#"{"mint":null}"#).as_deref(), Some(""));
}

#[test]
fn members_are_printed() {
    let v = parse(r#"{"s":"x","i":5,"f":2.5,"n":-7,"big":1e21,"o":{},"z":null}"#).unwrap();
    assert_eq!(get_string(&v, &["missing", "s"]).as_deref(), Some("x"));
    assert_eq!(get_string(&v, &["i"]).as_deref(), Some("5"));
    assert_eq!(get_string(&v, &["f"]).as_deref(), Some("2.5"));
    assert_eq!(get_string(&v, &["n"]).as_deref(), Some("-7"));
    assert_eq!(get_string(&v, &["big"]).as_deref(), Some("1000000000000000000000"));
    assert_eq!(get_string(&v, &["o", "z", "i"]).as_deref(), Some("5"));
    assert_eq!(get_string(&v, &["o", "z"]), None);
    assert_eq!(get_string(&v, &[]), None);
}

#[test]
fn tokens_are_printed() {
    let raw = r#"{"data":{"mint":"M","name":"N","symbol":"S","creator_address":"C","mc":1.5}}"#;
    assert_eq!(
        handle_message(raw).unwrap().as_deref(),
        Some("Token: N | Symbol: S | Mint: M | Creator: C | Market Cap: 1.5")
    );
    assert_eq!(
        handle_message(r#"{"mint":"M"}"#).unwrap().as_deref(),
        Some("Token: N/A | Symbol: N/A | Mint: M | Creator: N/A | Market Cap: N/A")
    );
    assert_eq!(
        handle_message(r#"{"mint":{},"tokenMint":"T"}"#).unwrap().as_deref(),
        Some("Token: N/A | Symbol: N/A | Mint: T | Creator: N/A | Market Cap: N/A")
    );
    assert_eq!(handle_message(r#"{"mint":"N/A","name":"N"}"#).unwrap(), None);
    assert_eq!(handle_message(r#"{"mint":{}}"#).unwrap(), None);
    assert_eq!(handle_message("[]").unwrap(), None);
    assert!(handle_message("{").is_err());
}

#[test]
fn what_the_feed_does_about_frames() {
    let token = r#"{"mint":"M"}"#;
    assert!(matches!(connect_and_listen(Incoming::Text(token.to_string())), FeedStep::Print(_)));
    assert!(matches!(connect_and_listen(Incoming::Binary(token.as_bytes().to_vec())), FeedStep::Print(_)));
    assert!(matches!(connect_and_listen(Incoming::Text("{}".to_string())), FeedStep::Nothing));
    let own = serde_json::from_str::<serde_json::Value>("x").unwrap_err();
    let FeedStep::Complain(c) = connect_and_listen(Incoming::Text("x".to_string())) else { panic!() };
    assert_eq!(c, format!("Failed to parse message: {own} | raw: x"));
    let FeedStep::Complain(c) = connect_and_listen(Incoming::Binary(vec![b'x', 0xff])) else { panic!() };
    assert_eq!(c, format!("Failed to parse binary message: {own} | raw: x\u{fffd}"));
    assert!(matches!(connect_and_listen(Incoming::Ping(vec![1])), FeedStep::Pong));
    assert!(matches!(connect_and_listen(Incoming::Close), FeedStep::Fail(e) if e == "WebSocket closed by server"));
    assert!(matches!(connect_and_listen(Incoming::End), FeedStep::Fail(e) if e == "WebSocket closed by server"));
    assert!(matches!(connect_and_listen(Incoming::Failed("e".to_string())), FeedStep::Fail(e) if e == "e"));
    assert!(matches!(connect_and_listen(Incoming::Other), FeedStep::Nothing));
}

#[test]
fn sessions_end_with_a_line() {
    assert_eq!(session_end_line(None), "WebSocket session ended. Reconnecting in 4s...");
    assert_eq!(session_end_line(Some("e")), "WebSocket error: e. Reconnecting in 4s...");
}
