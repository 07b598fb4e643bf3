use pump_sniper::display::{
    hyperlink, log_line, on_off, startup, status_line, token_card, StartupTexts, CYAN, GREEN, YELLOW,
};

fn visible(line: &str) -> usize {
    let mut n = 0;
    let mut rest = line.chars().peekable();
    while let Some(c) = rest.next() {
        if c != '\u{1b}' {
            n += 1;
            continue;
        }
        match rest.next() {
            Some('[') => {
                while let Some(c) = rest.next() {
                    if c == 'm' {
                        break;
                    }
                }
            }
            Some(']') => {
                while let Some(c) = rest.next() {
                    if c == '\u{1b}' {
                        rest.next();
                        break;
                    }
                }
            }
            _ => {}
        }
    }
    n
}

#[test]
fn switch_words() {
    assert_eq!(on_off(true), "ON");
    assert_eq!(on_off(false), "OFF");
}

#[test]
fn links_are_escape_sequences() {
    assert_eq!(hyperlink("u", "l"), "\x1b]8;;u\x1b\\l\x1b]8;;\x1b\\");
}

#[test]
fn a_card_in_full() {
    let card = token_card("NEW TOKEN", YELLOW, "Name", "SYM", "mint");
    let lines: Vec<&str> = card.split('\n').collect();
    assert_eq!(lines.len(), 7);
    assert_eq!(lines[0], format!("\x1b[33m┌{}┐\x1b[0m", "─".repeat(95)));
    assert_eq!(
        lines[1],
        format!(
            "\x1b[33m│\x1b[0m \x1b[1m🟢 PUMP.FUN\x1b[0m \x1b[2m· NEW TOKEN\x1b[0m{} \x1b[33m│\x1b[0m",
            " ".repeat(93 - 10 - 3 - 9 - 1)
        )
    );
    assert_eq!(lines[2], format!("\x1b[33m│\x1b[0m{} \x1b[33m│\x1b[0m", " ".repeat(94)));
    assert_eq!(
        lines[3],
        format!(
            "\x1b[33m│\x1b[0m  Name   \x1b[1mName\x1b[0m \x1b[2m(SYM)\x1b[0m{} \x1b[33m│\x1b[0m",
            " ".repeat(93 - "Name   Name (SYM)".len())
        )
    );
    assert_eq!(
        lines[4],
        format!("\x1b[33m│\x1b[0m  Mint   \x1b[2mmint\x1b[0m{} \x1b[33m│\x1b[0m", " ".repeat(93 - "Mint   mint".len()))
    );
    let url = "https://pump.fun/coin/mint";
    assert_eq!(
        lines[5],
        format!(
            "\x1b[33m│\x1b[0m  Link   \x1b[36m\x1b[4m{}\x1b[0m{} \x1b[33m│\x1b[0m",
            hyperlink(url, url),
            " ".repeat(93 - 7 - url.len())
        )
    );
    assert_eq!(lines[6], format!("\x1b[33m└{}┘\x1b[0m", "─".repeat(95)));
}

#[test]
fn migrations_have_their_own_title() {
    assert!(token_card("Migration", GREEN, "n", "s", "m").contains("🎯 MIGRATION"));
    assert!(token_card("NEW TOKEN", GREEN, "n", "s", "m").contains("🟢 PUMP.FUN"));
    assert!(token_card("MIGRATIONS", GREEN, "n", "s", "m").contains("🟢 PUMP.FUN"));
}

#[test]
fn long_names_widen_the_card() {
    let name = "é".repeat(200);
    let card = token_card("X", CYAN, &name, "S", "m");
    let lines: Vec<&str> = card.split('\n').collect();
    let width = "Name   ".len() + 200 + " (S)".len();
    assert_eq!(lines[0], format!("\x1b[36m┌{}┐\x1b[0m", "─".repeat(width + 2)));
    assert_eq!(visible(lines[3]), visible(lines[4]));
    assert_eq!(visible(lines[4]), visible(lines[5]));
}

#[test]
fn the_status_line() {
    assert_eq!(
        status_line(true, 2, 7, Some("1.2500")),
        "\r\x1b[2K\x1b[2mWallet\x1b[0m 1.2500 SOL  │  \x1b[32m\x1b[1mAUTO-BUY ON\x1b[0m  │  \x1b[2mMigrations\x1b[0m 7  \x1b[2mBought\x1b[0m 2  │  \x1b[32m●\x1b[0m LIVE"
    );
    assert_eq!(
        status_line(false, 0, 0, None),
        "\r\x1b[2K\x1b[2mWallet\x1b[0m …  │  \x1b[31m\x1b[1mAUTO-BUY OFF\x1b[0m  │  \x1b[2mMigrations\x1b[0m 0  \x1b[2mBought\x1b[0m 0  │  \x1b[32m●\x1b[0m LIVE"
    );
}

#[test]
fn log_lines_take_the_place_of_the_status_line() {
    assert_eq!(log_line("hello"), "\r\x1b[2Khello\n");
}

#[test]
fn the_start_up_screen() {
    let s = startup(&StartupTexts {
        wallet: "W",
        auto_buy: true,
        trade_amount: "0.0300",
        max_token_age_ms: 1000,
        auto_sell: "25",
        slippage: "25.0",
        priority_fee: "0.000200000",
        mev_protection: false,
        pump_tokens_only: true,
        min_sol_reserve: "0.0100",
        env_path: ".env",
    });
    assert!(s.starts_with("\n\x1b[36m \n ______"));
    assert!(s.contains(
        "\n\n\x1b[32m\x1b[1m========== PUMP.FUN SNIPER ==========\x1b[0m\nWallet: W\nAuto buy: ON\nTrade: 0.0300 SOL\nMax token age: 1000 ms\nAuto sell: +25%\nSlippage: 25.0%\nPriority fee: 0.000200000 SOL\nMEV protection: false\nPump.fun only: true\nMinimum reserve: 0.0100 SOL\nLive .env reload: watching .env\n=====================================\n\n\x1b[2m─"
    ));
    assert!(s.ends_with("─\x1b[0m\n\n"));
    assert_eq!(s.matches("LIVE TOKEN MONITOR").count(), 1);
}
