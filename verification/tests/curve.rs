use pump_sniper::curve::{can_price, estimate_tokens_out, marginal_price_sol, platform_fee_lamports};
use pump_sniper::double::Double;

const SOL: u64 = 30_000_000_000;
const TOKENS: u64 = 1_073_000_000_000_000;

#[test]
fn a_purchase_against_fresh_reserves() {
    // 0.02 SOL at 1 %: 19 800 000 lamports reach the curve.
    let out = estimate_tokens_out(SOL, TOKENS, 100, 20_000_000);
    let k = SOL as u128 * TOKENS as u128;
    assert_eq!(out, TOKENS as u128 - k / (SOL as u128 + 19_800_000));
    assert_eq!(out, 707_712_909_480);
}

#[test]
fn empty_reserves_sell_nothing() {
    assert_eq!(estimate_tokens_out(0, TOKENS, 100, 20_000_000), 0);
    assert_eq!(estimate_tokens_out(SOL, 0, 100, 20_000_000), 0);
    assert_eq!(estimate_tokens_out(0, 0, u64::MAX, u128::MAX), 0);
}

#[test]
fn paying_nothing_gets_nothing() {
    assert_eq!(estimate_tokens_out(SOL, TOKENS, 100, 0), 0);
    assert_eq!(estimate_tokens_out(SOL, TOKENS, 10_000, 20_000_000), 0);
    assert_eq!(estimate_tokens_out(SOL, TOKENS, 20_000, 20_000_000), 0);
}

#[test]
fn more_buys_more_and_fees_buy_less() {
    let mut last = 0;
    for lamports in [1u128, 1_000, 1_000_000, 1_000_000_000, 1_000_000_000_000] {
        let out = estimate_tokens_out(SOL, TOKENS, 100, lamports);
        assert!(out >= last);
        assert!(out <= TOKENS as u128);
        assert!(estimate_tokens_out(SOL, TOKENS, 200, lamports) <= out);
        last = out;
    }
}

#[test]
fn the_platform_takes_its_share() {
    assert_eq!(platform_fee_lamports(20_000_000, 100), 200_000);
    assert_eq!(platform_fee_lamports(99, 100), 0);
    assert_eq!(platform_fee_lamports(1_000_000_000, 0), 0);
}

#[test]
fn price_without_tokens_is_zero() {
    let q = Double { bits: 2.5f64.to_bits() };
    assert_eq!(marginal_price_sol(SOL, 0, q).bits, 0);
    assert_eq!(marginal_price_sol(0, 1, q).bits, q.bits);
    assert_eq!(marginal_price_sol(SOL, TOKENS, q).bits, q.bits);
}

#[test]
fn payments_beyond_128_bits() {
    assert!(can_price(SOL, 100, 20_000_000));
    assert!(can_price(u64::MAX, 0, u128::MAX - u64::MAX as u128));
    assert!(!can_price(u64::MAX, 0, u128::MAX));
    assert!(!can_price(0, 2, u128::MAX));
    assert!(can_price(0, 1, u128::MAX));
}
