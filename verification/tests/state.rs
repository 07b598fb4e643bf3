use pump_sniper::double::Double;
use pump_sniper::state::{new_shared_state, new_state_at, AppState, Position, WatchedToken};

fn d(x: f64) -> Double {
    Double { bits: x.to_bits() }
}

fn position(entry: f64) -> Position {
    Position {
        mint: "m".to_string(),
        symbol: "S".to_string(),
        name: "N".to_string(),
        entry_price_sol: d(entry),
        token_amount: d(10.0),
        sol_spent: d(0.02),
        opened_at: 1_000,
        current_price_sol: d(entry),
        dev_holder_pct_at_entry: d(1.0),
    }
}

#[test]
fn a_session_starts_stopped_and_empty() {
    let s = new_state_at(true, 77);
    assert!(!s.running);
    assert!(s.dry_run);
    assert_eq!(s.sol_balance.bits, 0);
    assert_eq!(s.day_start_timestamp, 77);
    assert!(s.positions.is_empty() && s.history.is_empty() && s.watched.is_empty() && s.log.is_empty());
    assert!(!new_shared_state(false).dry_run);
    assert!(AppState::default().dry_run);
    assert!(AppState::default().day_start_timestamp > 1_600_000_000);
}

#[test]
fn log_lines_carry_a_stamp() {
    let mut s = new_state_at(true, 0);
    s.push_log_at("12:34:56", "hello");
    assert_eq!(s.log, vec!["[12:34:56] hello".to_string()]);
    s.push_log("again");
    assert_eq!(s.log.len(), 2);
    assert!(s.log[1].ends_with("] again"));
    assert_eq!(s.log[1].len(), "[12:34:56] again".len());
}

#[test]
fn the_log_keeps_its_newest_lines() {
    let mut s = new_state_at(true, 0);
    for i in 0..503 {
        s.push_log_at("00:00:00", &format!("line {i}"));
    }
    assert_eq!(s.log.len(), 500);
    assert_eq!(s.log[0], "[00:00:00] line 3");
    assert_eq!(s.log[499], "[00:00:00] line 502");
}

#[test]
fn detections_come_newest_first() {
    let mut s = new_state_at(true, 0);
    for i in 0..302 {
        s.push_watched(WatchedToken { mint: format!("{i}"), ..WatchedToken::default() });
    }
    assert_eq!(s.watched.len(), 300);
    assert_eq!(s.watched[0].mint, "301");
    assert_eq!(s.watched[299].mint, "2");
}

#[test]
fn a_detection_is_blank_by_default() {
    let w = WatchedToken::default();
    assert_eq!(w.mint, "");
    assert_eq!(w.detected_at, 0);
    assert!(w.dev_holder_pct.is_none() && w.skipped_reason.is_none() && !w.bought);
}

#[test]
fn gains_need_an_entry_price() {
    assert_eq!(position(2.0).unrealized_pct(d(50.0)).bits, d(50.0).bits);
    assert_eq!(position(0.0).unrealized_pct(d(50.0)).bits, 0);
    assert_eq!(position(-1.0).unrealized_pct(d(50.0)).bits, 0);
    assert_eq!(position(f64::NAN).unrealized_pct(d(50.0)).bits, d(50.0).bits);
}

#[test]
fn ages_count_from_the_opening() {
    assert_eq!(position(1.0).age_at(1_300), 300);
    assert_eq!(position(1.0).age_at(900), -100);
    assert!(position(1.0).age_seconds() > 1_600_000_000);
    let copy = position(3.0).copy();
    assert_eq!(copy.entry_price_sol.bits, d(3.0).bits);
    assert_eq!(copy.mint, "m");
}
