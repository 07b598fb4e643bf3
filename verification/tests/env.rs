use pump_sniper::double::Double;
use pump_sniper::env::{
    credentials, hot_settings_from_map, map_bool, map_u64, no_env_file, number_texts, read_env_file, read_env_line,
    validate_settings, Env, HotNumbers, HotSettings, Live, SettingsError, SettingsWatch, StartError,
};

fn d(x: f64) -> Double {
    Double { bits: x.to_bits() }
}

fn none() -> HotNumbers {
    HotNumbers {
        trade_amount_sol: None,
        auto_sell_profit_pct: None,
        slippage_pct: None,
        priority_fee_sol: None,
        min_sol_reserve: None,
    }
}

fn defaults() -> HotSettings {
    hot_settings_from_map(&Env::new(), &none()).1
}

#[test]
fn lines_of_the_file() {
    let pair = |a: &str, b: &str| Some((a.to_string(), b.to_string()));
    assert_eq!(read_env_line("A=1"), pair("A", "1"));
    assert_eq!(read_env_line("  A = 1 \r"), pair("A", "1"));
    assert_eq!(read_env_line("A=b=c"), pair("A", "b=c"));
    assert_eq!(read_env_line("A=\"x y\""), pair("A", "x y"));
    assert_eq!(read_env_line("A='x'"), pair("A", "x"));
    assert_eq!(read_env_line("A=\"x'"), pair("A", "\"x'"));
    assert_eq!(read_env_line("A=\""), pair("A", "\""));
    assert_eq!(read_env_line("A=\"\""), pair("A", ""));
    assert_eq!(read_env_line("A="), pair("A", ""));
    assert_eq!(read_env_line("=x"), pair("", "x"));
    assert_eq!(read_env_line("# A=1"), None);
    assert_eq!(read_env_line("   "), None);
    assert_eq!(read_env_line("A"), None);
}

#[test]
fn later_lines_win() {
    let env = read_env_file("A=1\nB=2\n#A=9\r\nA=3\n");
    assert_eq!(env.text("A"), Some("3"));
    assert_eq!(env.text("B"), Some("2"));
    assert_eq!(env.text("C"), None);
}

#[test]
fn flags_and_numbers_have_defaults() {
    let env = read_env_file("T=true\nF=false\nX=maybe\nN=42\nM=-1");
    assert!(map_bool(&env, "T", false));
    assert!(!map_bool(&env, "F", true));
    assert!(map_bool(&env, "X", true));
    assert!(!map_bool(&env, "Y", false));
    assert_eq!(map_u64(&env, "N", 7), 42);
    assert_eq!(map_u64(&env, "M", 7), 7);
    assert_eq!(map_u64(&env, "Y", 7), 7);
}

#[test]
fn default_settings() {
    let (auto_buy, s) = hot_settings_from_map(&Env::new(), &none());
    assert!(auto_buy);
    assert_eq!(s.trade_amount_sol.bits, 0.03f64.to_bits());
    assert_eq!(s.max_token_age_ms, 1_000);
    assert_eq!(s.auto_sell_profit_pct.bits, 25.0f64.to_bits());
    assert_eq!(s.slippage_pct.bits, 25.0f64.to_bits());
    assert_eq!(s.priority_fee_sol.bits, 0.0002f64.to_bits());
    assert!(!s.mev_protection);
    assert!(s.pump_tokens_only);
    assert_eq!(s.min_sol_reserve.bits, 0.01f64.to_bits());
}

#[test]
fn settings_from_a_file() {
    let env = read_env_file(
        "AUTO_BUY_NEW_TOKENS=false\nTRADE_AMOUNT_SOL=0.5\nMAX_TOKEN_AGE_MS=250\nAUTO_SELL_PROFIT_PCT=10\nSLIPPAGE_PCT=5\nPRIORITY_FEE_SOL=0.001\nMEV_PROTECTION=true\nPUMP_TOKENS_ONLY=false\nMIN_SOL_RESERVE=0.2",
    );
    let texts = number_texts(&env);
    assert_eq!(texts.trade_amount_sol.as_deref(), Some("0.5"));
    assert_eq!(texts.auto_sell_profit_pct.as_deref(), Some("10"));
    assert_eq!(texts.slippage_pct.as_deref(), Some("5"));
    assert_eq!(texts.priority_fee_sol.as_deref(), Some("0.001"));
    assert_eq!(texts.min_sol_reserve.as_deref(), Some("0.2"));
    let (auto_buy, s) = hot_settings_from_map(
        &env,
        &HotNumbers { trade_amount_sol: Some(d(0.5)), slippage_pct: Some(d(5.0)), ..none() },
    );
    assert!(!auto_buy);
    assert_eq!(s.trade_amount_sol.bits, d(0.5).bits);
    assert_eq!(s.max_token_age_ms, 250);
    assert_eq!(s.slippage_pct.bits, d(5.0).bits);
    assert_eq!(s.auto_sell_profit_pct.bits, d(25.0).bits);
    assert!(s.mev_protection);
    assert!(!s.pump_tokens_only);
}

#[test]
fn settings_are_checked_at_the_start() {
    assert!(validate_settings(&defaults()).is_ok());
    let bad = |s: HotSettings| validate_settings(&s).unwrap_err();
    let e = bad(HotSettings { trade_amount_sol: d(0.0), ..defaults() });
    assert_eq!(e, SettingsError::TradeAmount);
    assert_eq!(e.message(), "TRADE_AMOUNT_SOL must be > 0");
    let e = bad(HotSettings { slippage_pct: d(100.5), ..defaults() });
    assert_eq!(e, SettingsError::Slippage);
    assert_eq!(e.message(), "SLIPPAGE_PCT must be between 0 and 100");
    assert_eq!(bad(HotSettings { slippage_pct: d(0.0), ..defaults() }), SettingsError::Slippage);
    let e = bad(HotSettings { auto_sell_profit_pct: d(-1.0), ..defaults() });
    assert_eq!(e, SettingsError::AutoSellProfit);
    assert_eq!(e.message(), "AUTO_SELL_PROFIT_PCT must be >= 0");
    assert!(validate_settings(&HotSettings { slippage_pct: d(100.0), auto_sell_profit_pct: d(0.0), ..defaults() }).is_ok());
}

#[test]
fn credentials_are_gathered_in_order() {
    let seed = "11111111111111111111111111111111";
    let mut env = Env::new();
    let e = credentials(&env).unwrap_err();
    assert!(matches!(e, StartError::MissingPrivateKey));
    assert_eq!(e.message(), "PRIVATE_KEY is missing from .env");
    env.set("PRIVATE_KEY".to_string(), "0".to_string());
    let e = credentials(&env).unwrap_err();
    assert!(matches!(e, StartError::Key(_)));
    assert!(e.message().starts_with("Invalid base58 PRIVATE_KEY: "));
    env.set("PRIVATE_KEY".to_string(), seed.to_string());
    let e = credentials(&env).unwrap_err();
    assert!(matches!(e, StartError::MissingRpcUrl));
    assert_eq!(e.message(), "RPC_URL or SOLANA_RPC_URL is missing from .env");
    env.set("SOLANA_RPC_URL".to_string(), "second".to_string());
    let e = credentials(&env).unwrap_err();
    assert!(matches!(e, StartError::MissingApiKey));
    assert_eq!(e.message(), "PUMPPORTAL_API_KEY is required for live auto-buy and auto-sell tracking");
    env.set("PUMPPORTAL_API_KEY".to_string(), "key".to_string());
    let c = credentials(&env).unwrap();
    assert_eq!(c.keypair.len(), 64);
    assert_eq!(c.rpc_url, "second");
    assert_eq!(c.api_key, "key");
    env.set("RPC_URL".to_string(), "first".to_string());
    assert_eq!(credentials(&env).unwrap().rpc_url, "first");
}

fn watch() -> SettingsWatch {
    SettingsWatch { modified: Some(5), auto_buy: true, settings: defaults() }
}

#[test]
fn only_a_new_time_is_news() {
    let mut w = watch();
    assert!(!w.notice(5));
    assert!(w.notice(6));
    assert!(!w.notice(6));
    let mut w = SettingsWatch { modified: None, ..watch() };
    assert!(w.notice(0));
    assert_eq!(w.modified, Some(0));
}

#[test]
fn a_file_that_says_the_same_leaves_the_console_alone() {
    let mut w = watch();
    let mut live = Live { auto_buy: false, settings: HotSettings { slippage_pct: d(1.0), ..defaults() } };
    let lines = w.reload(&mut live, true, &defaults());
    assert!(lines.is_empty());
    assert!(!live.auto_buy);
    assert_eq!(live.settings.slippage_pct.bits, d(1.0).bits);
}

#[test]
fn the_switch_moves_when_the_file_moves_it() {
    let mut w = watch();
    let mut live = Live { auto_buy: true, settings: defaults() };
    let lines = w.reload(&mut live, false, &defaults());
    assert_eq!(lines, vec!["[SETTINGS] auto_buy: ON -> OFF (.env changed)".to_string()]);
    assert!(!live.auto_buy);
    assert!(!w.auto_buy);
    let lines = w.reload(&mut live, true, &defaults());
    assert_eq!(lines, vec!["[SETTINGS] auto_buy: OFF -> ON (.env changed)".to_string()]);
}

#[test]
fn an_edit_elsewhere_leaves_the_switch_alone() {
    let mut w = watch();
    let mut live = Live { auto_buy: false, settings: HotSettings { trade_amount_sol: d(1.0), ..defaults() } };
    let file = HotSettings { slippage_pct: d(5.0), ..defaults() };
    let lines = w.reload(&mut live, true, &file);
    assert_eq!(lines, vec!["[SETTINGS] trade parameters reloaded from .env".to_string()]);
    assert!(!live.auto_buy);
    assert_eq!(live.settings.slippage_pct.bits, d(5.0).bits);
    assert_eq!(live.settings.trade_amount_sol.bits, d(1.0).bits);
    assert_eq!(w.settings.slippage_pct.bits, d(5.0).bits);
}

#[test]
fn an_edit_to_what_is_in_force_is_not_worth_a_line() {
    let mut w = watch();
    let mut live = Live { auto_buy: true, settings: HotSettings { slippage_pct: d(5.0), ..defaults() } };
    let file = HotSettings { slippage_pct: d(5.0), ..defaults() };
    assert!(w.reload(&mut live, true, &file).is_empty());
}

#[test]
fn without_a_file_nothing_is_watched() {
    assert_eq!(
        no_env_file("/x/.env"),
        "[SETTINGS] no .env file found at /x/.env — live reload disabled, restart to apply changes"
    );
}
