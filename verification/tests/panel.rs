use pump_sniper::double::Double;
use pump_sniper::panel::{
    dev_column, finish_save, outcome_column, positions_heading, set_running, shown_as_gain, shows_pounds, tx_column,
};
use pump_sniper::state::{new_state_at, WatchedToken};

fn d(x: f64) -> Double {
    Double { bits: x.to_bits() }
}

#[test]
fn starting_and_stopping() {
    let mut s = new_state_at(true, 0);
    set_running(&mut s, "00:00:00", true);
    assert!(s.running);
    set_running(&mut s, "00:00:01", false);
    assert!(!s.running);
    assert_eq!(s.log, vec!["[00:00:00] Bot started.".to_string(), "[00:00:01] Bot stopped.".to_string()]);
    assert_eq!(positions_heading(&s), "0 open position(s)");
}

#[test]
fn signatures_are_cut_to_eight_bytes() {
    assert_eq!(tx_column(Some("abcdefghijkl")), "abcdefgh...");
    assert_eq!(tx_column(Some("abcdefgh")), "abcdefgh...");
    assert_eq!(tx_column(Some("abc")), "abc...");
    assert_eq!(tx_column(Some("")), "...");
    assert_eq!(tx_column(Some("éééééé")), "éééé...");
    assert_eq!(tx_column(Some("a€€b𝄞")), "a€€b...");
    assert_eq!(tx_column(Some("abcd𝄞z")), "abcd𝄞...");
    assert_eq!(tx_column(None), "(dry run)");
}

#[test]
fn columns_of_detections() {
    assert_eq!(dev_column(Some("1.5")), "1.5%");
    assert_eq!(dev_column(None), "-");
    let mut w = WatchedToken::default();
    assert_eq!(outcome_column(&w), "-");
    w.skipped_reason = Some("max SOL cap reached".to_string());
    assert_eq!(outcome_column(&w), "skipped: max SOL cap reached");
    w.bought = true;
    assert_eq!(outcome_column(&w), "bought");
}

#[test]
fn colours_and_pounds() {
    assert!(shown_as_gain(d(0.0)) && shown_as_gain(d(-0.0)) && shown_as_gain(d(1.0)));
    assert!(!shown_as_gain(d(-0.1)) && !shown_as_gain(d(f64::NAN)));
    let mut s = new_state_at(true, 0);
    assert!(!shows_pounds(&s));
    s.gbp_per_sol = d(100.0);
    assert!(shows_pounds(&s));
}

#[test]
fn saving_the_settings() {
    let mut s = new_state_at(true, 0);
    assert_eq!(finish_save(&mut s, "00:00:00", false, Ok(())), "Saved.");
    assert!(!s.dry_run);
    assert_eq!(s.log, vec!["[00:00:00] Settings saved.".to_string()]);
    assert_eq!(finish_save(&mut s, "00:00:00", true, Err("disk")), "Save failed: disk");
    assert!(s.dry_run);
    assert_eq!(s.log.len(), 1);
}
