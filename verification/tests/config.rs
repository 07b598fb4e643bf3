use pump_sniper::config::{save_settings, Config, DraftError, DraftNumbers, SettingsDraft};
use pump_sniper::double::Double;

fn d(x: f64) -> Double {
    Double { bits: x.to_bits() }
}

fn numbers() -> DraftNumbers {
    DraftNumbers {
        buy_amount_sol: Some(d(0.1)),
        max_total_sol_cap: Some(d(2.0)),
        slippage_bps: Some(750),
        take_profit_pct: Some(d(40.0)),
        stop_loss_pct: Some(d(15.0)),
        max_dev_holder_pct: Some(d(5.0)),
        max_hold_seconds: Some(60),
    }
}

fn draft() -> SettingsDraft {
    SettingsDraft {
        rpc_http_url: "http".to_string(),
        rpc_ws_url: "ws".to_string(),
        dry_run: false,
        max_hold_enabled: false,
    }
}

#[test]
fn defaults() {
    let c = Config::default();
    assert_eq!(c.rpc_http_url, "https://api.mainnet-beta.solana.com");
    assert_eq!(c.rpc_ws_url, "wss://api.mainnet-beta.solana.com");
    assert!(c.dry_run);
    assert_eq!(c.buy_amount_sol.bits, 0.02f64.to_bits());
    assert_eq!(c.max_total_sol_cap.bits, 0.5f64.to_bits());
    assert_eq!(c.slippage_bps, 500);
    assert_eq!(c.take_profit_pct.bits, 50.0f64.to_bits());
    assert_eq!(c.stop_loss_pct.bits, 20.0f64.to_bits());
    assert_eq!(c.max_dev_holder_pct.bits, 10.0f64.to_bits());
    assert!(c.max_hold_enabled);
    assert_eq!(c.max_hold_seconds, 300);
    assert_eq!(c.priority_fee_microlamports_per_cu, 200_000);
    assert_eq!(c.priority_fee_compute_unit_limit, 200_000);
    assert!(c.wallet_key_path.is_none());
}

#[test]
fn priority_fees() {
    let c = Config::default();
    assert_eq!(c.priority_fee_from().unit_limit, Some(200_000));
    assert_eq!(c.priority_fee_from().unit_price, Some(200_000));
    assert_eq!(c.priority_fee_microlamports(), 40_000_000_000);
}

#[test]
fn a_good_draft_is_taken_over() {
    let mut c = Config::default();
    c.wallet_key_path = Some("key".to_string());
    assert!(save_settings(&mut c, &draft(), &numbers()).is_ok());
    assert_eq!(c.rpc_http_url, "http");
    assert_eq!(c.rpc_ws_url, "ws");
    assert!(!c.dry_run && !c.max_hold_enabled);
    assert_eq!(c.buy_amount_sol.bits, d(0.1).bits);
    assert_eq!(c.slippage_bps, 750);
    assert_eq!(c.max_hold_seconds, 60);
    assert_eq!(c.wallet_key_path.as_deref(), Some("key"));
    assert_eq!(c.priority_fee_compute_unit_limit, 200_000);
}

#[test]
fn exit_percentages_are_kept_in_range() {
    let mut c = Config::default();
    let n = DraftNumbers { take_profit_pct: Some(d(250.0)), stop_loss_pct: Some(d(-3.0)), ..numbers() };
    assert!(save_settings(&mut c, &draft(), &n).is_ok());
    assert_eq!(c.take_profit_pct.bits, d(250.0).bits);
    assert_eq!(c.stop_loss_pct.bits, d(0.0).bits);
    let low = DraftNumbers { take_profit_pct: Some(d(-1.0)), stop_loss_pct: Some(d(101.0)), ..numbers() };
    let mut other = Config::default();
    assert!(save_settings(&mut other, &draft(), &low).is_ok());
    assert_eq!(other.take_profit_pct.bits, d(0.0).bits);
    assert_eq!(other.stop_loss_pct.bits, d(100.0).bits);
    let mut again = c.copy();
    assert!(save_settings(&mut again, &draft(), &n).is_ok());
    assert_eq!(again.take_profit_pct.bits, c.take_profit_pct.bits);
    assert_eq!(again.slippage_bps, c.slippage_bps);
}

#[test]
fn bad_numbers_are_named_and_change_nothing() {
    let cases = [
        (DraftNumbers { buy_amount_sol: None, max_total_sol_cap: None, ..numbers() }, DraftError::BuyAmount, "Invalid buy amount"),
        (DraftNumbers { max_total_sol_cap: None, ..numbers() }, DraftError::MaxCap, "Invalid max cap"),
        (DraftNumbers { slippage_bps: None, ..numbers() }, DraftError::Slippage, "Invalid slippage"),
        (DraftNumbers { take_profit_pct: None, ..numbers() }, DraftError::TakeProfit, "Invalid take profit"),
        (DraftNumbers { stop_loss_pct: None, ..numbers() }, DraftError::StopLoss, "Invalid stop loss"),
        (DraftNumbers { max_dev_holder_pct: None, ..numbers() }, DraftError::DevHolder, "Invalid dev holder %"),
        (DraftNumbers { max_hold_seconds: None, ..numbers() }, DraftError::MaxHoldSeconds, "Invalid max hold seconds"),
    ];
    for (n, fault, message) in cases {
        let mut c = Config::default();
        assert_eq!(save_settings(&mut c, &draft(), &n), Err(fault));
        assert_eq!(fault.message(), message);
        assert!(c.dry_run);
        assert_eq!(c.slippage_bps, 500);
    }
}

#[test]
fn a_draft_starts_from_the_settings() {
    let c = Config::default();
    let s = SettingsDraft::from_config(&c);
    assert_eq!(s.rpc_http_url, c.rpc_http_url);
    assert_eq!(s.rpc_ws_url, c.rpc_ws_url);
    assert!(s.dry_run && s.max_hold_enabled);
}
