use pump_sniper::config::Config;
use pump_sniper::double::Double;
use pump_sniper::monitor::Detection;
use pump_sniper::state::{new_state_at, AppState, Position};
use pump_sniper::trade::{
    execute_buy, execute_sell, exit_reason, finish_dry_buy, finish_dry_sell, finish_live_buy, finish_live_sell,
    live_price, live_token_amount, open_mints, purchase_of, refresh_price, run_position_manager, take_position, trade_fees,
    BuyStep, CurveState, DryBuyTexts, ExitReason, Fill, Purchase, Sale, SellStep,
};
use pump_sniper::wallet::address;

const T: &str = "12:00:00";
const MINT: [u8; 32] = [3; 32];

fn d(x: f64) -> Double {
    Double { bits: x.to_bits() }
}

fn curve() -> CurveState {
    CurveState {
        virtual_sol_reserves: 30_000_000_000,
        virtual_token_reserves: 1_073_000_000_000_000,
        fee_basis_points: 100,
    }
}

fn purchase() -> Purchase {
    Purchase {
        mint: "M".to_string(),
        symbol: "SYM".to_string(),
        name: "Name".to_string(),
        dev_pct: d(1.5),
        sol_amount: d(0.02),
    }
}

fn fill() -> Fill {
    Fill {
        token_amount: d(700.0),
        price: d(0.00003),
        fees: d(0.0001),
        total_spent: d(0.04),
        opened_at: 10,
        recorded_at: 11,
    }
}

fn sale() -> Sale {
    Sale { price: d(0.00004), sol_out: d(0.03), fees: d(0.0002), daily_total: d(0.01), recorded_at: 20 }
}

fn position(mint: &str, entry: f64, opened_at: i64) -> Position {
    Position {
        mint: mint.to_string(),
        symbol: format!("sym-{mint}"),
        name: "n".to_string(),
        entry_price_sol: d(entry),
        token_amount: d(5.0),
        sol_spent: d(0.02),
        opened_at,
        current_price_sol: d(entry),
        dev_holder_pct_at_entry: d(0.0),
    }
}

fn state(mints: &[&str]) -> AppState {
    let mut s = new_state_at(true, 0);
    for m in mints {
        s.positions.push(position(m, 1.0, 0));
    }
    s
}

fn mints(s: &AppState) -> Vec<&str> {
    s.positions.iter().map(|p| p.mint.as_str()).collect()
}

#[test]
fn a_curve_that_cannot_be_read_ends_the_purchase() {
    let mut s = state(&[]);
    let step = execute_buy(&mut s, T, &Config::default(), MINT, "SYM", 20_000_000, Err("gone"));
    assert!(matches!(step, BuyStep::Stop));
    assert_eq!(s.log, vec!["[12:00:00] could not read bonding curve for SYM: gone".to_string()]);
}

#[test]
fn a_dry_run_is_simulated() {
    let mut s = state(&[]);
    let step = execute_buy(&mut s, T, &Config::default(), MINT, "SYM", 20_000_000, Ok(curve()));
    let BuyStep::Simulate { mint, sol_amount, base_units } = step else { panic!() };
    assert_eq!(mint, MINT);
    assert_eq!(sol_amount.bits, d(0.02).bits);
    assert_eq!(base_units, 707_712_909_480);
    assert!(s.log.is_empty());
}

#[test]
fn a_dry_run_that_buys_nothing_is_skipped() {
    let mut s = state(&[]);
    let step = execute_buy(&mut s, T, &Config::default(), MINT, "SYM", 0, Ok(curve()));
    assert!(matches!(step, BuyStep::Stop));
    let step = execute_buy(&mut s, T, &Config::default(), MINT, "SYM", 5, Ok(CurveState::unread()));
    assert!(matches!(step, BuyStep::Stop));
    assert_eq!(s.log.len(), 2);
    assert_eq!(s.log[0], "[12:00:00] [DRY RUN] SYM: price estimate came back zero, skipping");
    assert!(s.positions.is_empty());
}

#[test]
fn a_live_purchase_is_submitted() {
    let mut s = state(&[]);
    let cfg = Config { dry_run: false, ..Config::default() };
    let step = execute_buy(&mut s, T, &cfg, MINT, "SYM", 0, Ok(curve()));
    let BuyStep::Submit { mint, sol_amount, track_volume, slippage_bps, priority_fee } = step else { panic!() };
    assert_eq!(mint, MINT);
    assert_eq!(sol_amount.bits, d(0.02).bits);
    assert!(track_volume);
    assert_eq!(slippage_bps, 500);
    assert_eq!(priority_fee.unit_limit, Some(200_000));
    assert_eq!(priority_fee.unit_price, Some(200_000));
}

#[test]
fn a_simulated_purchase_is_recorded() {
    let mut s = state(&[]);
    let texts = DryBuyTexts { sol: "0.0200", tokens: "700", price: "0.0000300000", dev_pct: "1.5" };
    finish_dry_buy(&mut s, T, &purchase(), &fill(), &texts);
    assert_eq!(
        s.log,
        vec!["[12:00:00] [DRY RUN] would buy SYM: 0.0200 SOL -> ~700 tokens (~0.0000300000 SOL/token, dev held 1.5%)".to_string()]
    );
    assert_eq!(s.total_spent_sol.bits, d(0.04).bits);
    let p = &s.positions[0];
    assert_eq!((p.mint.as_str(), p.symbol.as_str(), p.name.as_str()), ("M", "SYM", "Name"));
    assert_eq!(p.entry_price_sol.bits, d(0.00003).bits);
    assert_eq!(p.current_price_sol.bits, d(0.00003).bits);
    assert_eq!(p.token_amount.bits, d(700.0).bits);
    assert_eq!(p.sol_spent.bits, d(0.02).bits);
    assert_eq!(p.dev_holder_pct_at_entry.bits, d(1.5).bits);
    assert_eq!(p.opened_at, 10);
    let h = &s.history[0];
    assert_eq!((h.side.as_str(), h.reason.as_str(), h.dry_run), ("buy", "dry_run", true));
    assert_eq!(h.fees_sol.bits, 0);
    assert!(h.tx_signature.is_none());
    assert_eq!(h.timestamp, 11);
}

#[test]
fn a_purchase_is_of_the_detected_token() {
    let found = Detection::of_mint(MINT, "SYM".to_string(), "Name".to_string(), 5);
    let p = purchase_of(&Config::default(), &found, d(1.5));
    assert_eq!(p.mint, address(MINT));
    assert_eq!((p.symbol.as_str(), p.name.as_str()), ("SYM", "Name"));
    assert_eq!(p.dev_pct.bits, d(1.5).bits);
    assert_eq!(p.sol_amount.bits, d(0.02).bits);
    let mut s = state(&[]);
    finish_live_buy(&mut s, T, &p, &fill(), "0.0200", Ok("SIG"));
    assert_eq!(s.positions[0].mint, address(MINT));
    assert_eq!(s.positions[0].sol_spent.bits, d(0.02).bits);
    assert_eq!(s.history[0].sol_amount.bits, d(0.02).bits);
}

#[test]
fn a_live_purchase_is_recorded() {
    let mut s = state(&[]);
    finish_live_buy(&mut s, T, &purchase(), &fill(), "0.0200", Ok("SIG"));
    assert_eq!(s.log, vec!["[12:00:00] BOUGHT SYM: 0.0200 SOL - tx SIG".to_string()]);
    let h = &s.history[0];
    assert_eq!((h.side.as_str(), h.reason.as_str(), h.dry_run), ("buy", "manual", false));
    assert_eq!(h.fees_sol.bits, d(0.0001).bits);
    assert_eq!(h.tx_signature.as_deref(), Some("SIG"));
    assert_eq!(s.positions.len(), 1);
    assert_eq!(s.total_spent_sol.bits, d(0.04).bits);
}

#[test]
fn a_failed_purchase_leaves_a_line() {
    let mut s = state(&[]);
    finish_live_buy(&mut s, T, &purchase(), &fill(), "0.0200", Err("why"));
    assert_eq!(s.log, vec!["[12:00:00] BUY FAILED for SYM: why".to_string()]);
    assert!(s.positions.is_empty() && s.history.is_empty());
    assert_eq!(s.total_spent_sol.bits, 0);
}

#[test]
fn live_amounts_and_prices() {
    assert_eq!(live_token_amount(Some(d(3.0))).bits, d(3.0).bits);
    assert_eq!(live_token_amount(None).bits, 0);
    assert_eq!(live_price(d(3.0), d(0.5)).bits, d(0.5).bits);
    assert_eq!(live_price(d(0.0), d(f64::INFINITY)).bits, 0);
    assert_eq!(live_price(d(f64::NAN), d(0.5)).bits, 0);
}

#[test]
fn fees_have_three_parts() {
    let f = trade_fees(&Config::default(), 20_000_000, 100);
    assert_eq!(f.network_lamports, 5_000);
    assert_eq!(f.priority_microlamports, 40_000_000_000);
    assert_eq!(f.platform_lamports, 200_000);
}

#[test]
fn the_first_position_with_a_mint_is_taken() {
    let mut s = state(&["a", "b", "a"]);
    s.positions[2].opened_at = 9;
    let p = take_position(&mut s, "a").unwrap();
    assert_eq!(p.opened_at, 0);
    assert_eq!(mints(&s), vec!["b", "a"]);
    assert!(take_position(&mut s, "c").is_none());
    assert_eq!(mints(&s), vec!["b", "a"]);
}

#[test]
fn a_sale_takes_the_position_out() {
    let mut s = state(&["a", "b"]);
    assert!(matches!(execute_sell(&mut s, &Config::default(), "b"), SellStep::Simulate(p) if p.mint == "b"));
    assert_eq!(mints(&s), vec!["a"]);
    assert!(matches!(execute_sell(&mut s, &Config::default(), "b"), SellStep::Stop));
    let cfg = Config { dry_run: false, slippage_bps: 77, ..Config::default() };
    let SellStep::Submit { position, slippage_bps, priority_fee } = execute_sell(&mut s, &cfg, "a") else { panic!() };
    assert_eq!(position.mint, "a");
    assert_eq!(slippage_bps, 77);
    assert_eq!(priority_fee.unit_limit, Some(200_000));
    assert!(s.positions.is_empty());
}

#[test]
fn a_simulated_sale_is_recorded() {
    let mut s = state(&[]);
    finish_dry_sell(&mut s, T, &position("a", 1.0, 0), "stop_loss", &sale(), "0.0300", "0.0100");
    assert_eq!(
        s.log,
        vec!["[12:00:00] [DRY RUN] would sell sym-a (stop_loss): ~0.0300 SOL back, P&L ~0.0100 SOL".to_string()]
    );
    assert_eq!(s.daily_realized_pnl_sol.bits, d(0.01).bits);
    let h = &s.history[0];
    assert_eq!((h.side.as_str(), h.reason.as_str(), h.dry_run), ("sell", "stop_loss", true));
    assert_eq!(h.sol_amount.bits, d(0.03).bits);
    assert_eq!(h.token_amount.bits, d(5.0).bits);
    assert_eq!(h.price_sol.bits, d(0.00004).bits);
    assert_eq!(h.fees_sol.bits, 0);
    assert_eq!(h.timestamp, 20);
}

#[test]
fn a_live_sale_is_recorded() {
    let mut s = state(&["b"]);
    finish_live_sell(&mut s, T, position("a", 1.0, 0), "max_hold", &sale(), Ok("SIG"));
    assert_eq!(s.log, vec!["[12:00:00] SOLD sym-a (max_hold): tx SIG".to_string()]);
    assert_eq!(s.history[0].tx_signature.as_deref(), Some("SIG"));
    assert_eq!(s.history[0].fees_sol.bits, d(0.0002).bits);
    assert!(!s.history[0].dry_run);
    assert_eq!(mints(&s), vec!["b"]);
}

#[test]
fn a_failed_sale_gives_the_position_back() {
    let mut s = state(&["a", "b"]);
    let p = take_position(&mut s, "a").unwrap();
    finish_live_sell(&mut s, T, p, "manual", &sale(), Err("why"));
    assert_eq!(s.log, vec!["[12:00:00] SELL FAILED for sym-a: why".to_string()]);
    assert_eq!(mints(&s), vec!["b", "a"]);
    assert!(s.history.is_empty());
    assert_eq!(s.daily_realized_pnl_sol.bits, 0);
}

#[test]
fn mints_that_are_addresses() {
    let one = address([1u8; 32]);
    let two = address([2u8; 32]);
    let s = state(&[&one, "junk", &two]);
    assert_eq!(open_mints(&s), vec![(one, [1u8; 32]), (two, [2u8; 32])]);
}

#[test]
fn one_price_is_refreshed() {
    let mut s = state(&["a", "b", "b"]);
    refresh_price(&mut s, "b", d(7.0));
    refresh_price(&mut s, "c", d(8.0));
    let prices: Vec<u64> = s.positions.iter().map(|p| p.current_price_sol.bits).collect();
    assert_eq!(prices, vec![d(1.0).bits, d(7.0).bits, d(1.0).bits]);
    assert_eq!(s.positions[1].symbol, "sym-b");
}

#[test]
fn exit_rules() {
    let c = Config::default();
    assert_eq!(exit_reason(&c, d(50.0), 0), Some(ExitReason::TakeProfit));
    assert_eq!(exit_reason(&c, d(50.0), 9_999), Some(ExitReason::TakeProfit));
    assert_eq!(exit_reason(&c, d(49.9), 0), None);
    assert_eq!(exit_reason(&c, d(-20.0), 0), Some(ExitReason::StopLoss));
    assert_eq!(exit_reason(&c, d(-19.9), 0), None);
    assert_eq!(exit_reason(&c, d(0.0), 299), None);
    assert_eq!(exit_reason(&c, d(0.0), 300), Some(ExitReason::MaxHold));
    assert_eq!(exit_reason(&c, d(f64::NAN), 299), None);
    let c = Config { max_hold_enabled: false, ..Config::default() };
    assert_eq!(exit_reason(&c, d(0.0), 300), None);
    let c = Config { max_hold_seconds: u64::MAX, ..Config::default() };
    assert_eq!(exit_reason(&c, d(0.0), 0), Some(ExitReason::MaxHold));
    assert_eq!(exit_reason(&c, d(0.0), -2), None);
    let c = Config { max_hold_seconds: i64::MAX as u64, ..Config::default() };
    assert_eq!(exit_reason(&c, d(0.0), i64::MAX - 1), None);
    assert_eq!(
        [ExitReason::TakeProfit.name(), ExitReason::StopLoss.name(), ExitReason::MaxHold.name()],
        ["take_profit", "stop_loss", "max_hold"]
    );
}

#[test]
fn due_positions() {
    let one = address([1u8; 32]);
    let two = address([2u8; 32]);
    let mut s = state(&[&one, "junk", &two]);
    s.positions.push(position(&one, 0.0, 1_000));
    let r = run_position_manager(&s, &Config::default(), &vec![d(60.0), d(60.0), d(-30.0), d(60.0)], 100);
    assert_eq!(r, vec![([1u8; 32], ExitReason::TakeProfit), ([2u8; 32], ExitReason::StopLoss)]);
    let r = run_position_manager(&s, &Config::default(), &vec![d(0.0), d(0.0), d(0.0), d(0.0)], 300);
    assert_eq!(r, vec![([1u8; 32], ExitReason::MaxHold), ([2u8; 32], ExitReason::MaxHold)]);
}
