use pump_sniper::double::Double;
use pump_sniper::pricing::{apply_balance, apply_price, fetch_sol_gbp, PRICE_URL};
use pump_sniper::state::new_state_at;

fn d(x: f64) -> Double {
    Double { bits: x.to_bits() }
}

#[test]
fn prices_are_read_from_the_reply() {
    assert_eq!(fetch_sol_gbp(br#"{"solana":{"gbp":101.25}}"#).unwrap().bits, d(101.25).bits);
    assert_eq!(fetch_sol_gbp(br#"{"solana":{"gbp":100}}"#).unwrap().bits, d(100.0).bits);
    let shape = "unexpected CoinGecko response shape";
    assert_eq!(fetch_sol_gbp(br#"{"solana":{"gbp":"100"}}"#).unwrap_err(), shape);
    assert_eq!(fetch_sol_gbp(br#"{"solana":[]}"#).unwrap_err(), shape);
    assert_eq!(fetch_sol_gbp(b"[]").unwrap_err(), shape);
    assert_eq!(fetch_sol_gbp(b"oops").unwrap_err(), "error decoding response body");
    assert!(PRICE_URL.starts_with("https://"));
}

#[test]
fn answers_reach_the_state() {
    let mut s = new_state_at(true, 0);
    apply_balance(&mut s, "00:00:00", Ok(d(1.5)));
    apply_price(&mut s, "00:00:00", Ok(d(99.0)));
    assert_eq!(s.sol_balance.bits, d(1.5).bits);
    assert_eq!(s.gbp_per_sol.bits, d(99.0).bits);
    apply_balance(&mut s, "00:00:01", Err("down"));
    apply_price(&mut s, "00:00:02", Err("odd"));
    assert_eq!(s.sol_balance.bits, d(1.5).bits);
    assert_eq!(s.gbp_per_sol.bits, d(99.0).bits);
    assert_eq!(
        s.log,
        vec!["[00:00:01] balance check failed: down".to_string(), "[00:00:02] price fetch failed: odd".to_string()]
    );
}
