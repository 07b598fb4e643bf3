use pump_sniper::double::Double;
use pump_sniper::state::{new_state_at, AppState, Position, TradeRecord, WatchedToken};
use pump_sniper::storage::{autosave_failed, load_at, load_into, save_from, STORE_PATH};

const MIDNIGHT: i64 = 1_700_006_400;

fn d(x: f64) -> Double {
    Double { bits: x.to_bits() }
}

fn busy() -> AppState {
    let mut s = new_state_at(true, MIDNIGHT + 10);
    s.positions.push(Position {
        mint: "M".to_string(),
        symbol: "S".to_string(),
        name: "N".to_string(),
        entry_price_sol: d(1.0),
        token_amount: d(2.0),
        sol_spent: d(3.0),
        opened_at: 4,
        current_price_sol: d(5.0),
        dev_holder_pct_at_entry: d(6.0),
    });
    s.history.push(TradeRecord {
        mint: "M".to_string(),
        symbol: "S".to_string(),
        side: "buy".to_string(),
        sol_amount: d(1.0),
        token_amount: d(2.0),
        price_sol: d(0.5),
        fees_sol: d(0.1),
        tx_signature: Some("SIG".to_string()),
        timestamp: 7,
        reason: "manual".to_string(),
        dry_run: false,
    });
    s.push_watched(WatchedToken { skipped_reason: Some("r".to_string()), ..WatchedToken::default() });
    s.total_spent_sol = d(3.0);
    s.daily_realized_pnl_sol = d(-0.25);
    s.push_log_at("00:00:00", "not kept");
    s
}

#[test]
fn what_is_kept_comes_back_on_the_same_day() {
    let mut s = new_state_at(false, MIDNIGHT + 20);
    load_at(&mut s, save_from(&busy()), MIDNIGHT + 86_399);
    assert_eq!(s.positions[0].name, "N");
    assert_eq!(s.positions[0].current_price_sol.bits, d(5.0).bits);
    assert_eq!(s.history[0].tx_signature.as_deref(), Some("SIG"));
    assert_eq!(s.watched[0].skipped_reason.as_deref(), Some("r"));
    assert_eq!(s.total_spent_sol.bits, d(3.0).bits);
    assert_eq!(s.daily_realized_pnl_sol.bits, d(-0.25).bits);
    assert_eq!(s.day_start_timestamp, MIDNIGHT + 10);
    assert!(s.log.is_empty());
    assert!(!s.dry_run);
}

#[test]
fn a_new_day_starts_its_own_count() {
    let mut s = new_state_at(false, 0);
    load_at(&mut s, save_from(&busy()), MIDNIGHT + 86_400);
    assert_eq!(s.daily_realized_pnl_sol.bits, 0);
    assert_eq!(s.day_start_timestamp, MIDNIGHT + 86_400);
    assert_eq!(s.total_spent_sol.bits, d(3.0).bits);
    assert_eq!(s.positions.len(), 1);
}

#[test]
fn a_time_off_the_calendar_counts_as_today() {
    let mut kept = save_from(&busy());
    kept.day_start_timestamp = i64::MAX;
    let mut s = new_state_at(false, 0);
    load_at(&mut s, kept, MIDNIGHT);
    assert_eq!(s.daily_realized_pnl_sol.bits, d(-0.25).bits);
    assert_eq!(s.day_start_timestamp, i64::MAX);
}

#[test]
fn loading_now() {
    let mut s = new_state_at(false, 0);
    load_into(&mut s, save_from(&busy()));
    assert_eq!(s.daily_realized_pnl_sol.bits, 0);
    assert!(s.day_start_timestamp > MIDNIGHT);
    assert_eq!(STORE_PATH, "pumpsniper_data.json");
}

#[test]
fn a_save_that_failed_leaves_a_line() {
    let mut s = new_state_at(false, 0);
    autosave_failed(&mut s, "01:02:03", "disk full");
    assert_eq!(s.log, vec!["[01:02:03] autosave failed: disk full".to_string()]);
}
