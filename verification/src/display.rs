//! What the sniper writes on the terminal.

use crate::text::{decimal, decimal_text, lowered, repeat, repeated, same_ignoring_case};
use vstd::prelude::*;
use vstd::string::*;

verus! {

pub const RESET: &'static str = "\x1b[0m";

pub const BOLD: &'static str = "\x1b[1m";

pub const DIM: &'static str = "\x1b[2m";

pub const UNDERLINE: &'static str = "\x1b[4m";

pub const GREEN: &'static str = "\x1b[32m";

pub const RED: &'static str = "\x1b[31m";

pub const YELLOW: &'static str = "\x1b[33m";

pub const CYAN: &'static str = "\x1b[36m";

/// Clears the line that the cursor is on.
pub const CLEAR_LINE: &'static str = "\r\x1b[2K";

/// Width of a token card. Long links expand the box.
pub const TOKEN_BOX_WIDTH: usize = 93;

pub const MIGRATION_TITLE: &'static str = "🎯 MIGRATION";

pub const PLATFORM_TITLE: &'static str = "🟢 PUMP.FUN";

pub const MONITOR_LINE: &'static str =
    "─────────────────────────────────────────────────────────────────────────────────────────────────────";

pub const PUMP_ASCII: &'static str = r#" 
 ______   __  __   ___ __ __   ______    
/_____/\ /_/\/_/\ /__//_//_/\ /_____/\   
\:::_ \ \\:\ \:\ \\::\| \| \ \\:::_ \ \  
 \:(_) \ \\:\ \:\ \\:.      \ \\:(_) \ \ 
  \: ___\/ \:\ \:\ \\:.\-/\  \ \\: ___\/ 
   \ \ \    \:\_\:\ \\. \  \  \ \\ \ \   
    \_\/     \_____\/ \__\/ \__\/ \_\/   
                                          "#;

pub open spec fn on_off_text(value: bool) -> Seq<char> {
    if value {
        "ON"@
    } else {
        "OFF"@
    }
}

/// `ON` or `OFF`.
pub fn on_off(value: bool) -> (r: &'static str)
    ensures
        r@ == on_off_text(value),
{
    if value {
        "ON"
    } else {
        "OFF"
    }
}

/// An OSC 8 hyperlink.
pub open spec fn link_text(url: Seq<char>, label: Seq<char>) -> Seq<char> {
    "\x1b]8;;"@ + url + "\x1b\\"@ + label + "\x1b]8;;\x1b\\"@
}

/// A label that the terminal shows as a link to a URL.
pub fn hyperlink(url: &str, label: &str) -> (r: String)
    ensures
        r@ == link_text(url@, label@),
{
    let mut s = "\x1b]8;;".to_owned();
    s.append(url);
    s.append("\x1b\\");
    s.append(label);
    s.append("\x1b]8;;\x1b\\");
    s
}

pub open spec fn larger(a: nat, b: nat) -> nat {
    if a < b {
        b
    } else {
        a
    }
}

/// What is left of a width.
pub open spec fn room(width: nat, used: nat) -> nat {
    if used < width {
        (width - used) as nat
    } else {
        0
    }
}

pub open spec fn blanks(n: nat) -> Seq<char> {
    repeated(" "@, n)
}

/// Where a token is shown.
pub open spec fn coin_url(mint: Seq<char>) -> Seq<char> {
    "https://pump.fun/coin/"@ + mint
}

/// The texts of a token card without colours, which decide its width.
pub open spec fn name_row(name: Seq<char>, symbol: Seq<char>) -> Seq<char> {
    "Name   "@ + name + " ("@ + symbol + ")"@
}

pub open spec fn mint_row(mint: Seq<char>) -> Seq<char> {
    "Mint   "@ + mint
}

pub open spec fn link_row(mint: Seq<char>) -> Seq<char> {
    "Link   "@ + coin_url(mint)
}

/// Columns between the blanks beside the borders.
pub open spec fn card_width(name: Seq<char>, symbol: Seq<char>, mint: Seq<char>) -> nat {
    larger(
        larger(larger(TOKEN_BOX_WIDTH as nat, name_row(name, symbol).len()), mint_row(mint).len()),
        link_row(mint).len(),
    )
}

pub open spec fn card_title(label: Seq<char>) -> Seq<char> {
    if lowered(label) == lowered("MIGRATION"@) {
        MIGRATION_TITLE@
    } else {
        PLATFORM_TITLE@
    }
}

/// A horizontal border between two corners.
pub open spec fn border(color: Seq<char>, left: Seq<char>, width: nat, right: Seq<char>) -> Seq<char> {
    color + left + repeated("─"@, width + 2) + right + RESET@
}

/// The left border of a row.
pub open spec fn row_start(color: Seq<char>) -> Seq<char> {
    color + "│"@ + RESET@
}

/// The end of a row: blanks, then the right border.
pub open spec fn row_end(padding: nat, color: Seq<char>) -> Seq<char> {
    blanks(padding) + " "@ + color + "│"@ + RESET@
}

pub open spec fn title_line(color: Seq<char>, label: Seq<char>, width: nat) -> Seq<char> {
    row_start(color) + " "@ + BOLD@ + card_title(label) + RESET@ + " "@ + DIM@ + "· "@ + label + RESET@ + row_end(
        room(width, card_title(label).len() + 3 + label.len() + 1),
        color,
    )
}

pub open spec fn empty_line(color: Seq<char>, width: nat) -> Seq<char> {
    row_start(color) + row_end(width + 1, color)
}

pub open spec fn name_line(color: Seq<char>, name: Seq<char>, symbol: Seq<char>, width: nat) -> Seq<char> {
    row_start(color) + "  Name   "@ + BOLD@ + name + RESET@ + " "@ + DIM@ + "("@ + symbol + ")"@ + RESET@ + row_end(
        room(width, name_row(name, symbol).len()),
        color,
    )
}

pub open spec fn mint_line(color: Seq<char>, mint: Seq<char>, width: nat) -> Seq<char> {
    row_start(color) + "  Mint   "@ + DIM@ + mint + RESET@ + row_end(room(width, mint_row(mint).len()), color)
}

pub open spec fn link_line(color: Seq<char>, mint: Seq<char>, width: nat) -> Seq<char> {
    row_start(color) + "  Link   "@ + CYAN@ + UNDERLINE@ + link_text(coin_url(mint), coin_url(mint)) + RESET@
        + row_end(room(width, link_row(mint).len()), color)
}

/// A box with a title, the token's name, its mint and a link to it.
pub open spec fn card_text(
    label: Seq<char>,
    color: Seq<char>,
    name: Seq<char>,
    symbol: Seq<char>,
    mint: Seq<char>,
) -> Seq<char> {
    let width = card_width(name, symbol, mint);
    border(color, "┌"@, width, "┐"@) + "\n"@ + title_line(color, label, width) + "\n"@ + empty_line(color, width)
        + "\n"@ + name_line(color, name, symbol, width) + "\n"@ + mint_line(color, mint, width) + "\n"@ + link_line(
        color,
        mint,
        width,
    ) + "\n"@ + border(color, "└"@, width, "┘"@)
}

fn max(a: usize, b: usize) -> (r: usize)
    ensures
        r == larger(a as nat, b as nat),
{
    if a < b {
        b
    } else {
        a
    }
}

fn border_line(color: &str, left: &str, width: usize, right: &str) -> (r: String)
    ensures
        r@ == border(color@, left@, width as nat, right@),
{
    let mut bar = repeat("─", width);
    bar.append("─");
    bar.append("─");
    proof {
        reveal_with_fuel(repeated, 3);
        assert(bar@ == repeated("─"@, (width + 2) as nat));
    }
    let mut s = color.to_owned();
    s.append(left);
    s.append(bar.as_str());
    s.append(right);
    s.append(RESET);
    s
}

fn start_row(color: &str) -> (r: String)
    ensures
        r@ == row_start(color@),
{
    let mut s = color.to_owned();
    s.append("│");
    s.append(RESET);
    s
}

/// Ends a row with the given blanks and the right border.
fn close_row(s: &mut String, padding: String, color: &str)
    ensures
        final(s)@ == old(s)@ + (padding@ + " "@ + color@ + "│"@ + RESET@),
{
    let mut tail = padding;
    tail.append(" ");
    tail.append(color);
    tail.append("│");
    tail.append(RESET);
    s.append(tail.as_str());
}

/// Ends a row whose content takes `used` of `width` columns.
fn end_row(s: &mut String, width: usize, used: usize, color: &str)
    ensures
        final(s)@ == old(s)@ + row_end(room(width as nat, used as nat), color@),
{
    let padding: usize = if used < width {
        width - used
    } else {
        0
    };
    close_row(s, repeat(" ", padding), color);
}

fn write_title(color: &str, label: &str, width: usize) -> (r: String)
    ensures
        r@ == title_line(color@, label@, width as nat),
{
    let title = if same_ignoring_case(label, "MIGRATION") {
        MIGRATION_TITLE
    } else {
        PLATFORM_TITLE
    };
    let mut s = start_row(color);
    s.append(" ");
    s.append(BOLD);
    s.append(title);
    s.append(RESET);
    s.append(" ");
    s.append(DIM);
    s.append("· ");
    s.append(label);
    s.append(RESET);
    let used: usize = title.unicode_len().saturating_add(3).saturating_add(label.unicode_len()).saturating_add(1);
    end_row(&mut s, width, used, color);
    s
}

fn write_gap(color: &str, width: usize) -> (r: String)
    ensures
        r@ == empty_line(color@, width as nat),
{
    let mut s = start_row(color);
    let mut gap = repeat(" ", width);
    gap.append(" ");
    close_row(&mut s, gap, color);
    s
}

fn write_name(color: &str, name: &str, symbol: &str, width: usize, used: usize) -> (r: String)
    requires
        used == name_row(name@, symbol@).len(),
    ensures
        r@ == name_line(color@, name@, symbol@, width as nat),
{
    let mut s = start_row(color);
    s.append("  Name   ");
    s.append(BOLD);
    s.append(name);
    s.append(RESET);
    s.append(" ");
    s.append(DIM);
    s.append("(");
    s.append(symbol);
    s.append(")");
    s.append(RESET);
    end_row(&mut s, width, used, color);
    s
}

fn write_mint(color: &str, mint: &str, width: usize, used: usize) -> (r: String)
    requires
        used == mint_row(mint@).len(),
    ensures
        r@ == mint_line(color@, mint@, width as nat),
{
    let mut s = start_row(color);
    s.append("  Mint   ");
    s.append(DIM);
    s.append(mint);
    s.append(RESET);
    end_row(&mut s, width, used, color);
    s
}

fn write_link(color: &str, mint: &str, url: &str, width: usize, used: usize) -> (r: String)
    requires
        url@ == coin_url(mint@),
        used == link_row(mint@).len(),
    ensures
        r@ == link_line(color@, mint@, width as nat),
{
    let link = hyperlink(url, url);
    let mut s = start_row(color);
    s.append("  Link   ");
    s.append(CYAN);
    s.append(UNDERLINE);
    s.append(link.as_str());
    s.append(RESET);
    end_row(&mut s, width, used, color);
    s
}

/// Writes a token card.
pub fn token_card(label: &str, color: &str, name: &str, symbol: &str, mint: &str) -> (r: String)
    ensures
        r@ == card_text(label@, color@, name@, symbol@, mint@),
{
    let mut url = "https://pump.fun/coin/".to_owned();
    url.append(mint);

    let mut name_text = "Name   ".to_owned();
    name_text.append(name);
    name_text.append(" (");
    name_text.append(symbol);
    name_text.append(")");
    let mut mint_text = "Mint   ".to_owned();
    mint_text.append(mint);
    let mut link_text = "Link   ".to_owned();
    link_text.append(url.as_str());

    let name_used: usize = name_text.as_str().unicode_len();
    let mint_used: usize = mint_text.as_str().unicode_len();
    let link_used: usize = link_text.as_str().unicode_len();
    let width: usize = max(max(max(TOKEN_BOX_WIDTH, name_used), mint_used), link_used);

    let top = border_line(color, "┌", width, "┐");
    let title = write_title(color, label, width);
    let gap = write_gap(color, width);
    let first = write_name(color, name, symbol, width, name_used);
    let second = write_mint(color, mint, width, mint_used);
    let third = write_link(color, mint, url.as_str(), width, link_used);
    let bottom = border_line(color, "└", width, "┘");

    let mut card = top;
    card.append("\n");
    card.append(title.as_str());
    card.append("\n");
    card.append(gap.as_str());
    card.append("\n");
    card.append(first.as_str());
    card.append("\n");
    card.append(second.as_str());
    card.append("\n");
    card.append(third.as_str());
    card.append("\n");
    card.append(bottom.as_str());
    card
}

/// The wallet's balance as the status line shows it.
pub open spec fn balance_text(balance: Option<Seq<char>>) -> Seq<char> {
    match balance {
        Some(b) => b + " SOL"@,
        None => "…"@,
    }
}

pub open spec fn auto_buy_text(auto_buy: bool) -> Seq<char> {
    if auto_buy {
        GREEN@ + BOLD@ + "AUTO-BUY ON"@ + RESET@
    } else {
        RED@ + BOLD@ + "AUTO-BUY OFF"@ + RESET@
    }
}

pub open spec fn status_text(auto_buy: bool, bought: nat, migrations: nat, balance: Option<Seq<char>>) -> Seq<char> {
    CLEAR_LINE@ + DIM@ + "Wallet"@ + RESET@ + " "@ + balance_text(balance) + "  │  "@ + auto_buy_text(auto_buy)
        + "  │  "@ + DIM@ + "Migrations"@ + RESET@ + " "@ + decimal_text(migrations) + "  "@ + DIM@ + "Bought"@
        + RESET@ + " "@ + decimal_text(bought) + "  │  "@ + GREEN@ + "●"@ + RESET@ + " LIVE"@
}

/// The status line, in place of the line that the cursor is on. `balance` is
/// the wallet's balance in SOL with four decimals, once it is known.
pub fn status_line(auto_buy: bool, bought: u64, migrations: u64, balance: Option<&str>) -> (r: String)
    ensures
        r@ == status_text(
            auto_buy,
            bought as nat,
            migrations as nat,
            match balance {
                Some(b) => Some(b@),
                None => None,
            },
        ),
{
    let wallet = match balance {
        Some(b) => {
            let mut s = b.to_owned();
            s.append(" SOL");
            s
        },
        None => "…".to_owned(),
    };
    let mut switch = if auto_buy {
        GREEN.to_owned()
    } else {
        RED.to_owned()
    };
    switch.append(BOLD);
    if auto_buy {
        switch.append("AUTO-BUY ON");
    } else {
        switch.append("AUTO-BUY OFF");
    }
    switch.append(RESET);
    let migrated = decimal(migrations as u128);
    let count = decimal(bought as u128);
    let mut s = CLEAR_LINE.to_owned();
    s.append(DIM);
    s.append("Wallet");
    s.append(RESET);
    s.append(" ");
    s.append(wallet.as_str());
    s.append("  │  ");
    s.append(switch.as_str());
    s.append("  │  ");
    s.append(DIM);
    s.append("Migrations");
    s.append(RESET);
    s.append(" ");
    s.append(migrated.as_str());
    s.append("  ");
    s.append(DIM);
    s.append("Bought");
    s.append(RESET);
    s.append(" ");
    s.append(count.as_str());
    s.append("  │  ");
    s.append(GREEN);
    s.append("●");
    s.append(RESET);
    s.append(" LIVE");
    s
}

/// A log line that takes the place of the status line and ends in a line break.
pub fn log_line(text: &str) -> (r: String)
    ensures
        r@ == CLEAR_LINE@ + text@ + "\n"@,
{
    let mut s = CLEAR_LINE.to_owned();
    s.append(text);
    s.append("\n");
    s
}

/// Settings as the start-up screen shows them.
pub struct StartupTexts<'a> {
    pub wallet: &'a str,
    pub auto_buy: bool,
    /// SOL per trade, four decimals.
    pub trade_amount: &'a str,
    pub max_token_age_ms: u64,
    /// Percent, no decimals.
    pub auto_sell: &'a str,
    /// Percent, one decimal.
    pub slippage: &'a str,
    /// SOL, nine decimals.
    pub priority_fee: &'a str,
    pub mev_protection: bool,
    pub pump_tokens_only: bool,
    /// SOL, four decimals.
    pub min_sol_reserve: &'a str,
    pub env_path: &'a str,
}

pub open spec fn bool_text(b: bool) -> Seq<char> {
    if b {
        "true"@
    } else {
        "false"@
    }
}

fn bool_word(b: bool) -> (r: &'static str)
    ensures
        r@ == bool_text(b),
{
    if b {
        "true"
    } else {
        "false"
    }
}

/// One line of the start-up screen: a name, what it stands for, a unit.
pub open spec fn item(name: Seq<char>, value: Seq<char>, unit: Seq<char>) -> Seq<char> {
    name + value + unit + "\n"@
}

fn put_item(s: &mut String, name: &str, value: &str, unit: &str)
    ensures
        final(s)@ == old(s)@ + item(name@, value@, unit@),
{
    let mut line = name.to_owned();
    line.append(value);
    line.append(unit);
    line.append("\n");
    s.append(line.as_str());
}

pub open spec fn startup_text(t: StartupTexts) -> Seq<char> {
    "\n"@ + item(CYAN@, PUMP_ASCII@, RESET@) + "\n"@ + item(
        GREEN@,
        BOLD@,
        "========== PUMP.FUN SNIPER =========="@ + RESET@,
    ) + item("Wallet: "@, t.wallet@, ""@) + item("Auto buy: "@, on_off_text(t.auto_buy), ""@) + item(
        "Trade: "@,
        t.trade_amount@,
        " SOL"@,
    ) + item("Max token age: "@, decimal_text(t.max_token_age_ms as nat), " ms"@) + item(
        "Auto sell: +"@,
        t.auto_sell@,
        "%"@,
    ) + item("Slippage: "@, t.slippage@, "%"@) + item("Priority fee: "@, t.priority_fee@, " SOL"@) + item(
        "MEV protection: "@,
        bool_text(t.mev_protection),
        ""@,
    ) + item("Pump.fun only: "@, bool_text(t.pump_tokens_only), ""@) + item(
        "Minimum reserve: "@,
        t.min_sol_reserve@,
        " SOL"@,
    ) + item("Live .env reload: watching "@, t.env_path@, ""@) + item(
        "====================================="@,
        ""@,
        ""@,
    ) + "\n"@ + item(DIM@, MONITOR_LINE@, RESET@) + item(GREEN@, BOLD@, "LIVE TOKEN MONITOR"@ + RESET@) + item(
        DIM@,
        MONITOR_LINE@,
        RESET@,
    ) + "\n"@
}

/// The start-up screen.
pub fn startup(t: &StartupTexts) -> (r: String)
    ensures
        r@ == startup_text(*t),
{
    let mut heading = "========== PUMP.FUN SNIPER ==========".to_owned();
    heading.append(RESET);
    let mut monitor = "LIVE TOKEN MONITOR".to_owned();
    monitor.append(RESET);
    let age = decimal(t.max_token_age_ms as u128);

    let mut s = "\n".to_owned();
    put_item(&mut s, CYAN, PUMP_ASCII, RESET);
    s.append("\n");
    put_item(&mut s, GREEN, BOLD, heading.as_str());
    put_item(&mut s, "Wallet: ", t.wallet, "");
    put_item(&mut s, "Auto buy: ", on_off(t.auto_buy), "");
    put_item(&mut s, "Trade: ", t.trade_amount, " SOL");
    put_item(&mut s, "Max token age: ", age.as_str(), " ms");
    put_item(&mut s, "Auto sell: +", t.auto_sell, "%");
    put_item(&mut s, "Slippage: ", t.slippage, "%");
    put_item(&mut s, "Priority fee: ", t.priority_fee, " SOL");
    put_item(&mut s, "MEV protection: ", bool_word(t.mev_protection), "");
    put_item(&mut s, "Pump.fun only: ", bool_word(t.pump_tokens_only), "");
    put_item(&mut s, "Minimum reserve: ", t.min_sol_reserve, " SOL");
    put_item(&mut s, "Live .env reload: watching ", t.env_path, "");
    put_item(&mut s, "=====================================", "", "");
    s.append("\n");
    put_item(&mut s, DIM, MONITOR_LINE, RESET);
    put_item(&mut s, GREEN, BOLD, monitor.as_str());
    put_item(&mut s, DIM, MONITOR_LINE, RESET);
    s.append("\n");
    s
}

/// However long a name, a mint or a link is, the card is wide enough for it,
/// and the rows under the title all come out at the same width.
pub proof fn rows_fill_the_card(name: Seq<char>, symbol: Seq<char>, mint: Seq<char>)
    ensures
        card_width(name, symbol, mint) >= TOKEN_BOX_WIDTH,
        name_row(name, symbol).len() + room(card_width(name, symbol, mint), name_row(name, symbol).len()) == card_width(
            name,
            symbol,
            mint,
        ),
        mint_row(mint).len() + room(card_width(name, symbol, mint), mint_row(mint).len()) == card_width(
            name,
            symbol,
            mint,
        ),
        link_row(mint).len() + room(card_width(name, symbol, mint), link_row(mint).len()) == card_width(
            name,
            symbol,
            mint,
        ),
{
}

/// A card is exactly as wide as it has to be: 93 columns, or as many as the longest of
/// its three rows takes.
pub proof fn a_card_is_as_wide_as_it_has_to_be(name: Seq<char>, symbol: Seq<char>, mint: Seq<char>)
    ensures
        ({
            let w = card_width(name, symbol, mint);
            &&& w >= 93 && w >= name_row(name, symbol).len() && w >= mint_row(mint).len() && w >= link_row(mint).len()
            &&& w == 93 || w == name_row(name, symbol).len() || w == mint_row(mint).len() || w == link_row(mint).len()
        }),
        name_row(name, symbol).len() == name.len() + symbol.len() + 10,
        mint_row(mint).len() == mint.len() + 7,
        link_row(mint).len() == mint.len() + 29,
{
    reveal_strlit("Name   ");
    reveal_strlit(" (");
    reveal_strlit(")");
    reveal_strlit("Mint   ");
    reveal_strlit("Link   ");
    reveal_strlit("https://pump.fun/coin/");
}

/// The room that is left of a width and what is used of it make up the width, and there
/// is none where more is used.
pub proof fn room_is_what_is_left(width: nat, used: nat)
    ensures
        used <= width ==> room(width, used) + used == width,
        used >= width ==> room(width, used) == 0,
        blanks(width).len() == width,
{
    reveal_strlit(" ");
    lemma_blanks(width);
}

proof fn lemma_blanks(n: nat)
    ensures
        " "@.len() == 1 ==> blanks(n).len() == n,
    decreases n,
{
    if n > 0 {
        lemma_blanks((n - 1) as nat);
    }
}

/// The title says whether the card is about a migration, the case of the label ignored;
/// any other card is about a new token.
pub proof fn the_title_tells_a_migration(label: Seq<char>)
    ensures
        lowered(label) == lowered("MIGRATION"@) ==> card_title(label) == "🎯 MIGRATION"@,
        lowered(label) != lowered("MIGRATION"@) ==> card_title(label) == "🟢 PUMP.FUN"@,
{
}

/// A card shows the token as it is: under the title a row each for its name and symbol,
/// its mint, and the link to it, framed and filled up to one width.
pub proof fn a_card_shows_the_token(
    label: Seq<char>,
    color: Seq<char>,
    name: Seq<char>,
    symbol: Seq<char>,
    mint: Seq<char>,
)
    ensures
        ({
            let w = card_width(name, symbol, mint);
            let left = color + "│"@ + RESET@;
            let url = "https://pump.fun/coin/"@ + mint;
            let n = name_line(color, name, symbol, w);
            let m = mint_line(color, mint, w);
            let l = link_line(color, mint, w);
            &&& n == left + "  Name   "@ + BOLD@ + name + RESET@ + " "@ + DIM@ + "("@ + symbol + ")"@ + RESET@ + (
            blanks((w - name_row(name, symbol).len()) as nat) + " "@ + color + "│"@ + RESET@)
            &&& m == left + "  Mint   "@ + DIM@ + mint + RESET@ + (blanks((w - mint_row(mint).len()) as nat) + " "@
                + color + "│"@ + RESET@)
            &&& l == left + "  Link   "@ + CYAN@ + UNDERLINE@ + link_text(url, url) + RESET@ + (blanks(
                (w - link_row(mint).len()) as nat,
            ) + " "@ + color + "│"@ + RESET@)
            &&& card_text(label, color, name, symbol, mint) == border(color, "┌"@, w, "┐"@) + "\n"@ + title_line(
                color,
                label,
                w,
            ) + "\n"@ + empty_line(color, w) + "\n"@ + n + "\n"@ + m + "\n"@ + l + "\n"@ + border(
                color,
                "└"@,
                w,
                "┘"@,
            )
        }),
{
    rows_fill_the_card(name, symbol, mint);
}

/// The frame of a card is as wide as its rows: a border has two columns more than the
/// text between the blanks, an empty row is filled up to the same width, and so is the
/// title, which shows the label behind it.
pub proof fn the_frame_fits_the_rows(color: Seq<char>, left: Seq<char>, right: Seq<char>, label: Seq<char>, width: nat)
    ensures
        border(color, left, width, right) == color + left + repeated("─"@, width + 2) + right + RESET@,
        empty_line(color, width) == color + "│"@ + RESET@ + (blanks(width + 1) + " "@ + color + "│"@ + RESET@),
        title_line(color, label, width) == color + "│"@ + RESET@ + " "@ + BOLD@ + card_title(label) + RESET@ + " "@
            + DIM@ + "· "@ + label + RESET@ + (blanks(room(width, card_title(label).len() + label.len() + 4)) + " "@
            + color + "│"@ + RESET@),
{
}

/// A link shows its label and leads to its address.
pub proof fn a_link_holds_address_and_label(url: Seq<char>, label: Seq<char>)
    ensures
        link_text(url, label) == "\x1b]8;;"@ + url + "\x1b\\"@ + label + "\x1b]8;;\x1b\\"@,
{
}

/// The status line shows the balance once it is known, the switch, and both counts.
pub proof fn the_status_shows_balance_switch_and_counts(auto_buy: bool, bought: nat, migrations: nat, balance: Seq<char>)
    ensures
        balance_text(Some(balance)) == balance + " SOL"@,
        balance_text(None) == "…"@,
        auto_buy_text(true) == GREEN@ + BOLD@ + "AUTO-BUY ON"@ + RESET@,
        auto_buy_text(false) == RED@ + BOLD@ + "AUTO-BUY OFF"@ + RESET@,
        status_text(auto_buy, bought, migrations, Some(balance)) == CLEAR_LINE@ + DIM@ + "Wallet"@ + RESET@ + " "@
            + balance_text(Some(balance)) + "  │  "@ + auto_buy_text(auto_buy) + "  │  "@ + DIM@ + "Migrations"@
            + RESET@ + " "@ + decimal_text(migrations) + "  "@ + DIM@ + "Bought"@ + RESET@ + " "@ + decimal_text(bought)
            + "  │  "@ + GREEN@ + "●"@ + RESET@ + " LIVE"@,
        on_off_text(true) == "ON"@,
        on_off_text(false) == "OFF"@,
        bool_text(true) == "true"@,
        bool_text(false) == "false"@,
{
}

/// The start-up screen shows every setting under its name, as it is.
pub proof fn the_screen_shows_every_setting(t: StartupTexts)
    ensures
        ({
            let top = "\n"@ + item(CYAN@, PUMP_ASCII@, RESET@) + "\n"@ + item(
                GREEN@,
                BOLD@,
                "========== PUMP.FUN SNIPER =========="@ + RESET@,
            );
            let on = if t.auto_buy {
                "ON"@
            } else {
                "OFF"@
            };
            let protected = if t.mev_protection {
                "true"@
            } else {
                "false"@
            };
            let pump = if t.pump_tokens_only {
                "true"@
            } else {
                "false"@
            };
            startup_text(t) == top + item("Wallet: "@, t.wallet@, ""@) + item("Auto buy: "@, on, ""@) + item(
                "Trade: "@,
                t.trade_amount@,
                " SOL"@,
            ) + item("Max token age: "@, decimal_text(t.max_token_age_ms as nat), " ms"@) + item(
                "Auto sell: +"@,
                t.auto_sell@,
                "%"@,
            ) + item("Slippage: "@, t.slippage@, "%"@) + item("Priority fee: "@, t.priority_fee@, " SOL"@) + item(
                "MEV protection: "@,
                protected,
                ""@,
            ) + item("Pump.fun only: "@, pump, ""@) + item("Minimum reserve: "@, t.min_sol_reserve@, " SOL"@) + item(
                "Live .env reload: watching "@,
                t.env_path@,
                ""@,
            ) + item("====================================="@, ""@, ""@) + "\n"@ + item(DIM@, MONITOR_LINE@, RESET@)
                + item(GREEN@, BOLD@, "LIVE TOKEN MONITOR"@ + RESET@) + item(DIM@, MONITOR_LINE@, RESET@) + "\n"@
        }),
        forall|name: Seq<char>, value: Seq<char>, unit: Seq<char>|
            #[trigger] item(name, value, unit) == name + value + unit + "\n"@,
{
}

} // verus!
