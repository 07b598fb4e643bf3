use pump_sniper::double::Double;
use pump_sniper::events::{
    handle_ws_message, is_fresh, is_fresh_at, number_field, parse_new_token, parse_trade_event, resolve_trade,
    string_field, Amount, NewToken, StreamEvent,
};
use pump_sniper::json::parse;

fn d(x: f64) -> Double {
    Double { bits: x.to_bits() }
}

fn token(raw: &str) -> Option<NewToken> {
    parse_new_token(&parse(raw).unwrap())
}

#[test]
fn new_tokens() {
    let t = token(r#"{"txType":"create","mint":"M","name":"N","symbol":"S","timestamp":1700000000}"#).unwrap();
    assert_eq!((t.mint.as_str(), t.name.as_str(), t.symbol.as_str()), ("M", "N", "S"));
    assert_eq!(t.source_timestamp_ms, Some(1_700_000_000_000));
    let t = token(r#"{"txType":"create","mint":"M"}"#).unwrap();
    assert_eq!((t.name.as_str(), t.symbol.as_str()), ("Unknown", "?"));
    assert_eq!(t.source_timestamp_ms, None);
    assert!(token(r#"{"txType":"create"}"#).is_none());
    assert!(token(r#"{"txType":"buy","mint":"M"}"#).is_none());
    assert!(token(r#"{"mint":"M"}"#).is_none());
}

#[test]
fn time_stamps() {
    let at = |fields: &str| token(&format!(r#"{{"txType":"create","mint":"M",{fields}}}"#)).unwrap().source_timestamp_ms;
    assert_eq!(at(r#""timestamp":999999999999"#), Some(999_999_999_999_000));
    assert_eq!(at(r#""timestamp":1000000000000"#), Some(1_000_000_000_000));
    assert_eq!(at(r#""createdTimestamp":5"#), Some(5_000));
    assert_eq!(at(r#""created_timestamp":6"#), Some(6_000));
    assert_eq!(at(r#""timestamp":1,"createdTimestamp":2"#), Some(1_000));
    assert_eq!(at(r#""timestamp":null,"createdTimestamp":2"#), None);
    assert_eq!(at(r#""timestamp":-1"#), None);
    assert_eq!(at(r#""timestamp":"5""#), None);
}

#[test]
fn trades() {
    let v = parse(r#"{"mint":"M","txType":"sell","traderPublicKey":"T","solAmount":1.5,"tokenAmount":"200"}"#).unwrap();
    let t = parse_trade_event(&v).unwrap();
    assert_eq!((t.mint.as_str(), t.tx_type.as_str(), t.trader.as_str()), ("M", "sell", "T"));
    assert!(matches!(t.sol_amount, Amount::Value(x) if x.bits == d(1.5).bits));
    assert!(matches!(&t.token_amount, Amount::Text(s) if s == "200"));
    let e = resolve_trade(t, None, Some(d(200.0))).unwrap();
    assert_eq!(e.sol_amount.bits, d(1.5).bits);
    assert_eq!(e.token_amount.bits, d(200.0).bits);
    assert_eq!(e.trader, "T");
}

#[test]
fn trades_without_amounts_are_none() {
    let some = |raw: &str| parse_trade_event(&parse(raw).unwrap());
    assert!(some(r#"{"mint":"M","solAmount":1}"#).is_none());
    assert!(some(r#"{"mint":"M","tokenAmount":1}"#).is_none());
    assert!(some(r#"{"solAmount":1,"tokenAmount":1}"#).is_none());
    assert!(some(r#"{"mint":"M","solAmount":true,"tokenAmount":1}"#).is_none());
    let t = some(r#"{"mint":"M","solAmount":"x","tokenAmount":1,"trader":"T"}"#).unwrap();
    assert_eq!(t.trader, "T");
    assert_eq!(t.tx_type, "");
    assert!(resolve_trade(t, None, None).is_none());
}

#[test]
fn fields_by_kind() {
    let v = parse(r#"{"s":"x","n":3,"o":{}}"#).unwrap();
    assert_eq!(string_field(&v, "s").as_deref(), Some("x"));
    assert!(string_field(&v, "n").is_none());
    assert!(matches!(number_field(&v, "n"), Some(Amount::Value(x)) if x.bits == d(3.0).bits));
    assert!(matches!(number_field(&v, "s"), Some(Amount::Text(_))));
    assert!(number_field(&v, "o").is_none());
    assert!(number_field(&v, "missing").is_none());
}

#[test]
fn messages_are_sorted() {
    let m = handle_ws_message(r#"{"txType":"migrate","mint":"M","solAmount":1,"tokenAmount":1}"#);
    let StreamEvent::Migration { mint, name, symbol } = m else { panic!() };
    assert_eq!((mint.as_str(), name.as_str(), symbol.as_str()), ("M", "Migrated token", "?"));
    assert!(matches!(handle_ws_message(r#"{"txType":"migrate"}"#), StreamEvent::Other));
    let m = handle_ws_message(r#"{"txType":"create","mint":"M","solAmount":1,"tokenAmount":1}"#);
    assert!(matches!(m, StreamEvent::Created(_)));
    let m = handle_ws_message(r#"{"txType":"buy","mint":"M","solAmount":1,"tokenAmount":1}"#);
    assert!(matches!(m, StreamEvent::Trade(_)));
    assert!(matches!(handle_ws_message("not json"), StreamEvent::Other));
    assert!(matches!(handle_ws_message("[]"), StreamEvent::Other));
}

#[test]
fn freshness_goes_by_the_time_stamp() {
    let t = token(r#"{"txType":"create","mint":"M","timestamp":2000000000000}"#).unwrap();
    let at = 2_000_000_000_000u64;
    assert!(is_fresh_at(&t, at, 9_999, 1_000));
    assert!(is_fresh_at(&t, at + 1_000, 9_999, 1_000));
    assert!(!is_fresh_at(&t, at + 1_001, 0, 1_000));
    assert!(is_fresh_at(&t, at - 1, 1_000, 1_000));
    assert!(!is_fresh_at(&t, at - 1, 1_001, 1_000));
    assert!(is_fresh(&t, u64::MAX));
}

#[test]
fn freshness_without_a_time_stamp_goes_by_arrival() {
    let t = token(r#"{"txType":"create","mint":"M"}"#).unwrap();
    assert!(is_fresh_at(&t, 0, 10, 10));
    assert!(!is_fresh_at(&t, 0, 11, 10));
    assert!(is_fresh(&t, 60_000));
    let old = token(r#"{"txType":"create","mint":"M","timestamp":1}"#).unwrap();
    assert!(!is_fresh(&old, 1_000));
}
