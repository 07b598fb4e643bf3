use pump_sniper::double::Double;
use pump_sniper::env::{hot_settings_from_map, Env, HotNumbers, HotSettings, Live, SettingsWatch};
use pump_sniper::events::{NewToken, TradeEvent};
use pump_sniper::sniper::{
    announce_purchase, buy_failed, parse_command, sell_line, subscribe_token, track_line, unsubscribe_token, Command,
    Sniper, TradeStep,
};

fn d(x: f64) -> Double {
    Double { bits: x.to_bits() }
}

fn sniper() -> Sniper {
    let none = HotNumbers {
        trade_amount_sol: None,
        auto_sell_profit_pct: None,
        slippage_pct: None,
        priority_fee_sol: None,
        min_sol_reserve: None,
    };
    let (auto_buy, settings) = hot_settings_from_map(&Env::new(), &none);
    Sniper::new(Live { auto_buy, settings })
}

fn token(mint: &str, at: Option<u64>) -> NewToken {
    NewToken {
        mint: mint.to_string(),
        name: "N".to_string(),
        symbol: "S".to_string(),
        received_at: std::time::Instant::now(),
        source_timestamp_ms: at,
    }
}

fn trade(mint: &str, trader: &str, kind: &str, sol: f64, tokens: f64) -> TradeEvent {
    TradeEvent {
        mint: mint.to_string(),
        tx_type: kind.to_string(),
        trader: trader.to_string(),
        sol_amount: d(sol),
        token_amount: d(tokens),
    }
}

#[test]
fn a_token_is_bought_once() {
    let mut s = sniper();
    assert!(s.admit_token(&token("apump", Some(100)), 200, 0));
    assert!(!s.admit_token(&token("apump", Some(100)), 200, 0));
    assert!(s.admit_token(&token("bpump", Some(100)), 200, 0));
    assert!(s.buy_new_token(&token("cpump", None)));
    assert!(!s.buy_new_token(&token("cpump", None)));
}

#[test]
fn tokens_that_are_passed_over() {
    let mut s = sniper();
    assert!(!s.admit_token(&token("other", Some(100)), 200, 0));
    assert!(!s.admit_token(&token("apump", Some(100)), 1_101, 0));
    s.live.settings.pump_tokens_only = false;
    assert!(s.admit_token(&token("other", Some(100)), 200, 0));
    s.live.auto_buy = false;
    assert!(!s.admit_token(&token("bpump", Some(100)), 200, 0));
    s.live.auto_buy = true;
    assert!(s.admit_token(&token("bpump", Some(100)), 200, 0));
}

#[test]
fn own_purchases_are_tracked() {
    let mut s = sniper();
    assert!(matches!(s.process_trade("W", &trade("M", "W", "BUY", 1.0, 4.0), d(0.25)), TradeStep::Opened));
    let p = s.position("M").unwrap();
    assert_eq!(p.mint, "M");
    assert_eq!(p.entry_price_sol_per_token.bits, d(0.25).bits);
    assert!(!p.selling);
    assert_eq!(s.position_count(), 1);
    assert!(matches!(s.process_trade("W", &trade("X", "W", "buy", 0.0, 4.0), d(0.0)), TradeStep::Nothing));
    assert!(matches!(s.process_trade("W", &trade("X", "W", "sell", 1.0, 4.0), d(0.25)), TradeStep::Nothing));
    assert!(matches!(s.process_trade("W", &trade("X", "V", "buy", 1.0, 4.0), d(0.25)), TradeStep::Nothing));
    assert_eq!(s.position_count(), 1);
}

#[test]
fn other_trades_price_a_position() {
    let mut s = sniper();
    s.process_trade("W", &trade("M", "W", "buy", 1.0, 4.0), d(0.25));
    let step = s.process_trade("W", &trade("M", "V", "sell", 2.0, 4.0), d(0.5));
    assert!(matches!(step, TradeStep::Evaluate { mint, entry_price } if mint == "M" && entry_price.bits == d(0.25).bits));
    assert!(matches!(s.process_trade("W", &trade("M", "V", "sell", 0.0, 4.0), d(0.0)), TradeStep::Nothing));
    assert!(matches!(s.process_trade("W", &trade("M", "V", "sell", 1.0, -4.0), d(0.0)), TradeStep::Nothing));
    assert!(matches!(s.process_trade("W", &trade("M", "V", "sell", 1.0, f64::NAN), d(0.0)), TradeStep::Evaluate { .. }));
}

#[test]
fn a_sale_starts_once_and_a_failure_reopens_it() {
    let mut s = sniper();
    s.process_trade("W", &trade("M", "W", "buy", 1.0, 4.0), d(0.25));
    assert!(!s.decide_sell("M", d(24.9)));
    assert!(s.decide_sell("M", d(25.0)));
    assert!(s.position("M").unwrap().selling);
    assert!(!s.decide_sell("M", d(99.0)));
    assert!(matches!(s.process_trade("W", &trade("M", "V", "sell", 2.0, 4.0), d(0.5)), TradeStep::Nothing));
    assert_eq!(s.sell_failed("M", "why"), "\x1b[31m\x1b[1m✗ SELL FAILED\x1b[0m M — why");
    assert!(!s.position("M").unwrap().selling);
    assert!(s.decide_sell("M", d(f64::NAN)));
    let o = s.sell_done("M", "25.00", "SIG");
    assert_eq!(
        o.line,
        "\x1b[32m\x1b[1m✓ SOLD\x1b[0m M +25.00%\n  └ \x1b[36m\x1b[4m\x1b]8;;https://solscan.io/tx/SIG\x1b\\https://solscan.io/tx/SIG\x1b]8;;\x1b\\\x1b[0m"
    );
    assert_eq!(o.message, r#"{"keys":["M"],"method":"unsubscribeTokenTrade"}"#);
    assert!(s.position("M").is_none());
    assert!(!s.decide_sell("M", d(99.0)));
    s.sell_failed("M", "late");
    assert_eq!(s.position_count(), 0);
}

#[test]
fn purchases_that_went_through() {
    let mut s = sniper();
    let o = s.buy_done("M", "SIG");
    assert_eq!(s.bought_count, 1);
    assert_eq!(
        o.line,
        "\x1b[32m\x1b[1m✓ SNIPED\x1b[0m M\n  └ \x1b[36m\x1b[4m\x1b]8;;https://solscan.io/tx/SIG\x1b\\https://solscan.io/tx/SIG\x1b]8;;\x1b\\\x1b[0m"
    );
    assert_eq!(o.message, r#"{"keys":["M"],"method":"subscribeTokenTrade"}"#);
    s.bought_count = u64::MAX;
    s.buy_done("M", "SIG");
    assert_eq!(s.bought_count, 0);
}

#[test]
fn migrations_are_counted() {
    let mut s = sniper();
    assert!(!s.has_migrated("M"));
    let card = s.on_migration("M", "N", "S");
    assert!(card.contains("🎯 MIGRATION"));
    assert!(s.has_migrated("M"));
    s.on_migration("M", "N", "S");
    assert_eq!(s.migration_count, 2);
}

#[test]
fn messages_are_json() {
    assert_eq!(subscribe_token("a\"b\\c\n\u{1}"), r#"{"keys":["a\"b\\c\n\u0001"],"method":"subscribeTokenTrade"}"#);
    let text = unsubscribe_token("x\u{7f}é\u{8}\u{c}\r\t");
    let v: serde_json::Value = serde_json::from_str(&text).unwrap();
    assert_eq!(v["keys"][0], "x\u{7f}é\u{8}\u{c}\r\t");
    assert_eq!(v["method"], "unsubscribeTokenTrade");
    assert_eq!(v.to_string(), text);
}

#[test]
fn lines_about_trades() {
    let (card, line) = announce_purchase(&token("apump", None), 12, "0.0300");
    assert!(card.contains("🟢 PUMP.FUN"));
    assert!(card.contains("· NEW TOKEN"));
    assert_eq!(line, "\x1b[2m[BUY]\x1b[0m apump · seen 12ms ago · buying 0.0300 SOL...");
    assert_eq!(buy_failed("M", "why"), "\x1b[31m\x1b[1m✗ BUY FAILED\x1b[0m M — why");
    assert_eq!(track_line("M", "0.250000000000"), "\x1b[2m[TRACK]\x1b[0m M entry 0.250000000000 SOL/token");
    assert_eq!(sell_line("M", "25.00"), "\x1b[33m[SELL]\x1b[0m M +25.00% · selling 100%...");
}

#[test]
fn commands() {
    assert_eq!(parse_command(" ON \n"), Command::On);
    assert_eq!(parse_command("buy on"), Command::On);
    assert_eq!(parse_command("off"), Command::Off);
    assert_eq!(parse_command("Buy Off"), Command::Off);
    assert_eq!(parse_command("stop"), Command::Off);
    assert_eq!(parse_command("STATUS"), Command::Status);
    assert_eq!(parse_command("quit"), Command::Quit);
    assert_eq!(parse_command("exit"), Command::Quit);
    assert_eq!(parse_command("buy  on"), Command::Help);
    assert_eq!(parse_command(""), Command::Help);
}

#[test]
fn commands_take_effect() {
    let mut s = sniper();
    let r = s.command("off", "0.0300", "25.0");
    assert_eq!((r.line.as_str(), r.stop), ("[CTRL] AUTO BUY OFF", false));
    assert!(!s.live.auto_buy);
    let r = s.command("on", "0.0300", "25.0");
    assert_eq!((r.line.as_str(), r.stop), ("[CTRL] AUTO BUY ON", false));
    assert!(s.live.auto_buy);
    s.process_trade("W", &trade("M", "W", "buy", 1.0, 4.0), d(0.25));
    s.buy_done("M", "SIG");
    let r = s.command("status", "0.0300", "25.0");
    assert_eq!(
        r.line,
        "[STATUS] auto_buy=ON positions=1 bought=1 migrations=0 trade_amount=0.0300 SOL slippage=25.0%"
    );
    assert_eq!(s.command("what", "", "").line, "[CTRL] on | off | status | quit");
    let r = s.command("quit", "", "");
    assert_eq!((r.line.as_str(), r.stop), ("[CTRL] shutdown", true));
    assert!(!s.live.auto_buy && s.shutdown);
}

#[test]
fn nothing_makes_the_sniper_forget_a_token() {
    let mut s = sniper();
    assert!(s.admit_token(&token("apump", Some(100)), 200, 0));
    let mut watch = SettingsWatch { modified: None, auto_buy: true, settings: s.live.settings };
    let file = HotSettings { slippage_pct: d(5.0), ..watch.settings };
    let lines = s.reload(&mut watch, true, &file);
    assert_eq!(lines, vec!["[SETTINGS] trade parameters reloaded from .env".to_string()]);
    assert_eq!(s.live.settings.slippage_pct.bits, d(5.0).bits);
    assert_eq!(watch.settings.slippage_pct.bits, d(5.0).bits);
    s.buy_done("apump", "SIG");
    s.on_migration("apump", "N", "S");
    s.process_trade("W", &trade("apump", "W", "buy", 1.0, 4.0), d(0.25));
    s.decide_sell("apump", d(99.0));
    s.sell_done("apump", "99.00", "SIG");
    s.command("off", "", "");
    s.command("on", "", "");
    assert!(!s.admit_token(&token("apump", Some(100)), 200, 0));
}
