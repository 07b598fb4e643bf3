use pump_sniper::config::Config;
use pump_sniper::double::Double;
use pump_sniper::monitor::{
    handle_new_token, stream_connected, stream_ended, stream_error, Detection, TokenEvent, TokenStep,
};
use pump_sniper::state::{new_state_at, AppState};
use pump_sniper::wallet::parse_address;

const T: &str = "12:00:00";

fn d(x: f64) -> Double {
    Double { bits: x.to_bits() }
}

fn detection() -> Detection {
    Detection { mint: "M".to_string(), symbol: "SYM".to_string(), name: "Name".to_string(), detected_at: 5 }
}

fn running() -> AppState {
    let mut s = new_state_at(true, 0);
    s.running = true;
    s
}

fn detected(s: &mut AppState, spent_after: Double) -> TokenStep {
    handle_new_token(s, T, &Config::default(), &detection(), TokenEvent::Detected { spent_after })
}

fn owned(s: &mut AppState, owner: Result<[u8; 32], &str>) -> TokenStep {
    handle_new_token(s, T, &Config::default(), &detection(), TokenEvent::Owner(owner))
}

fn held(s: &mut AppState, dev_pct: Result<Double, &str>, held: &str) -> TokenStep {
    handle_new_token(s, T, &Config::default(), &detection(), TokenEvent::Holder { dev_pct, held, limit: "10.0" })
}

#[test]
fn a_stopped_bot_buys_nothing() {
    let mut s = new_state_at(true, 0);
    assert_eq!(TokenStep::Skip, detected(&mut s, d(0.0)));
    let w = &s.watched[0];
    assert_eq!((w.mint.as_str(), w.symbol.as_str(), w.name.as_str(), w.detected_at), ("M", "SYM", "Name", 5));
    assert_eq!(w.skipped_reason.as_deref(), Some("bot is stopped"));
    assert!(!w.bought && w.dev_holder_pct.is_none());
}

#[test]
fn the_cap_is_kept() {
    let mut s = running();
    assert_eq!(TokenStep::AskOwner, detected(&mut s, d(0.5)));
    assert!(s.watched.is_empty());
    assert_eq!(TokenStep::Skip, detected(&mut s, d(0.51)));
    assert_eq!(s.watched[0].skipped_reason.as_deref(), Some("max SOL cap reached"));
    assert_eq!(TokenStep::Skip, detected(&mut s, d(f64::NAN)));
}

#[test]
fn only_the_legacy_program_passes() {
    let mut s = running();
    let key = parse_address("TokenkegQfeZyiNwAJbNbGKPFXCWuBvf9Ss623VQ5DA").unwrap();
    assert_eq!(TokenStep::AskHolder, owned(&mut s, Ok(key)));
    assert!(s.watched.is_empty() && s.log.is_empty());
    assert_eq!(TokenStep::Skip, owned(&mut s, Ok([0; 32])));
    assert_eq!(s.watched[0].skipped_reason.as_deref(), Some("Token-2022 mint (unsupported)"));
    assert!(s.log.is_empty());
    assert_eq!(TokenStep::Skip, owned(&mut s, Err("why")));
    assert_eq!(
        s.watched[0].skipped_reason.as_deref(),
        Some("could not check token program (skipped for safety)")
    );
    assert_eq!(s.log, vec!["[12:00:00] token-program check failed for SYM: why".to_string()]);
}

#[test]
fn creators_who_hold_too_much() {
    let mut s = running();
    assert_eq!(TokenStep::Buy, held(&mut s, Ok(d(10.0)), "10.0"));
    assert!(s.watched[0].bought);
    assert_eq!(s.watched[0].dev_holder_pct.unwrap().bits, d(10.0).bits);
    assert!(s.watched[0].skipped_reason.is_none());
    assert_eq!(TokenStep::Skip, held(&mut s, Ok(d(10.1)), "10.1"));
    assert_eq!(s.watched[0].skipped_reason.as_deref(), Some("dev holds 10.1% (limit 10.0%)"));
    assert_eq!(s.watched[0].dev_holder_pct.unwrap().bits, d(10.1).bits);
    assert!(!s.watched[0].bought);
    assert_eq!(TokenStep::Skip, held(&mut s, Err("why"), ""));
    assert_eq!(s.watched[0].skipped_reason.as_deref(), Some("dev-holder check failed (skipped for safety)"));
    assert!(s.watched[0].dev_holder_pct.is_none());
    assert_eq!(s.log, vec!["[12:00:00] dev-holder check failed for SYM: why".to_string()]);
}

#[test]
fn lines_about_the_stream() {
    let mut s = running();
    stream_connected(&mut s, T);
    stream_error(&mut s, T, "bad");
    stream_ended(&mut s, T, "over");
    assert_eq!(
        s.log,
        vec![
            "[12:00:00] Connected - watching pump.fun for new tokens.".to_string(),
            "[12:00:00] event stream parse error: bad".to_string(),
            "[12:00:00] monitor task ended with error: over".to_string(),
        ]
    );
}
