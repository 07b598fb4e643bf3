//! The console sniper: which new tokens it buys, which positions it tracks and
//! when it sells them.

use crate::clock;
use crate::display::{
    card_text, hyperlink, link_text, on_off, on_off_text, token_card, BOLD, CYAN, DIM, GREEN, RED, RESET, UNDERLINE,
    YELLOW,
};
use crate::double::Double;
use crate::env::{reload_lines, HotSettings, Live, SettingsWatch};
use crate::events::{fresh, is_fresh_at, NewToken, NewTokenView, TradeEvent, TradeEventView};
use crate::json::{quote, quoted};
use crate::state::line_views;
use crate::text::{
    capitals_become_small, decimal, decimal_text, ends_with, has_suffix, lower, lowered, same,
    same_ignoring_case, to_lower, trim, trimmed,
};
use vstd::hash_map::StringHashMap;
use vstd::hash_set::StringHashSet;
use vstd::prelude::*;
use vstd::string::*;

verus! {

/// A token that the wallet holds.
#[derive(Debug)]
pub struct Position {
    pub mint: String,
    pub entry_price_sol_per_token: Double,
    /// Whether a sale is under way.
    pub selling: bool,
}

/// What a position holds.
pub struct PositionView {
    pub mint: Seq<char>,
    pub entry_price_sol_per_token: Double,
    pub selling: bool,
}

impl View for Position {
    type V = PositionView;

    open spec fn view(&self) -> PositionView {
        PositionView {
            mint: self.mint@,
            entry_price_sol_per_token: self.entry_price_sol_per_token,
            selling: self.selling,
        }
    }
}

/// What the sniper knows.
pub struct Sniper {
    pub live: Live,
    pub shutdown: bool,
    pub bought_count: u64,
    pub migration_count: u64,
    positions: StringHashMap<Position>,
    seen: StringHashSet,
    migrated: StringHashSet,
}

/// What the sniper knows, as plain collections.
#[verifier::ext_equal]
pub struct SniperView {
    pub live: Live,
    pub shutdown: bool,
    pub bought_count: u64,
    pub migration_count: u64,
    /// Positions by mint.
    pub positions: Map<Seq<char>, PositionView>,
    /// Mints that were bought or about to be.
    pub seen: Set<Seq<char>>,
    /// Mints that left the bonding curve.
    pub migrated: Set<Seq<char>>,
}

impl View for Sniper {
    type V = SniperView;

    closed spec fn view(&self) -> SniperView {
        SniperView {
            live: self.live,
            shutdown: self.shutdown,
            bought_count: self.bought_count,
            migration_count: self.migration_count,
            positions: self.positions@.map_values(|p: Position| p@),
            seen: self.seen@,
            migrated: self.migrated@,
        }
    }
}

/// Whether a trade is a purchase by the wallet itself.
pub open spec fn own_purchase(wallet: Seq<char>, t: TradeEventView) -> bool {
    &&& t.trader == wallet
    &&& lowered(t.tx_type) == lowered("buy"@)
    &&& Double::spec_zero().below(t.token_amount)
    &&& Double::spec_zero().below(t.sol_amount)
}

impl SniperView {
    /// Whether every position stands under its own mint.
    pub open spec fn well_formed(self) -> bool {
        forall|k: Seq<char>| #[trigger] self.positions.contains_key(k) ==> self.positions[k].mint == k
    }

    /// The filters that a new token passes before the sniper looks whether it has
    /// seen the token.
    pub open spec fn wants(self, t: NewTokenView, now_ms: u64, waited_ms: u64) -> bool {
        &&& self.live.auto_buy
        &&& self.live.settings.pump_tokens_only ==> has_suffix(t.mint, "pump"@)
        &&& fresh(t.source_timestamp_ms, now_ms, waited_ms, self.live.settings.max_token_age_ms)
    }

    /// The state after a new token came by.
    pub open spec fn after_token(self, t: NewTokenView, now_ms: u64, waited_ms: u64) -> SniperView {
        if self.wants(t, now_ms, waited_ms) {
            SniperView { seen: self.seen.insert(t.mint), ..self }
        } else {
            self
        }
    }

    /// Whether the new token is to be bought.
    pub open spec fn buys(self, t: NewTokenView, now_ms: u64, waited_ms: u64) -> bool {
        self.wants(t, now_ms, waited_ms) && !self.seen.contains(t.mint)
    }

    /// The state with a migration noted.
    pub open spec fn after_migration(self, mint: Seq<char>) -> SniperView {
        SniperView {
            migrated: self.migrated.insert(mint),
            migration_count: self.migration_count.wrapping_add(1),
            ..self
        }
    }

    /// The state with a purchase counted.
    pub open spec fn after_purchase(self) -> SniperView {
        SniperView { bought_count: self.bought_count.wrapping_add(1), ..self }
    }

    /// The state after the settings were read again.
    pub open spec fn reloaded(self, seen: SettingsWatch, auto_buy: bool, settings: HotSettings) -> SniperView {
        SniperView { live: self.live.reloaded(seen, auto_buy, settings), ..self }
    }

    /// The state with a position opened at a price.
    pub open spec fn tracking(self, mint: Seq<char>, price: Double) -> SniperView {
        SniperView {
            positions: self.positions.insert(
                mint,
                PositionView { mint, entry_price_sol_per_token: price, selling: false },
            ),
            ..self
        }
    }

    /// Whether a trade gives a price for a position that could be sold.
    pub open spec fn prices(self, t: TradeEventView) -> bool {
        &&& self.positions.contains_key(t.mint)
        &&& !self.positions[t.mint].selling
        &&& !t.token_amount.at_most(Double::spec_zero())
        &&& !t.sol_amount.at_most(Double::spec_zero())
    }

    /// Whether a position is to be sold at a gain in percent.
    pub open spec fn sells(self, mint: Seq<char>, pnl: Double) -> bool {
        &&& !pnl.below(self.live.settings.auto_sell_profit_pct)
        &&& self.positions.contains_key(mint)
        &&& !self.positions[mint].selling
    }

    /// The state after a trade at a price per token.
    pub open spec fn after_trade(self, wallet: Seq<char>, t: TradeEventView, price: Double) -> SniperView {
        if own_purchase(wallet, t) {
            self.tracking(t.mint, price)
        } else {
            self
        }
    }

    /// What follows from a trade.
    pub open spec fn trade_step(self, wallet: Seq<char>, t: TradeEventView) -> TradeStepView {
        if own_purchase(wallet, t) {
            TradeStepView::Opened
        } else if self.prices(t) {
            TradeStepView::Evaluate {
                mint: self.positions[t.mint].mint,
                entry_price: self.positions[t.mint].entry_price_sol_per_token,
            }
        } else {
            TradeStepView::Nothing
        }
    }

    /// The state with a position marked as being sold or not.
    pub open spec fn marked(self, mint: Seq<char>, selling: bool) -> SniperView {
        if self.positions.contains_key(mint) {
            SniperView {
                positions: self.positions.insert(mint, PositionView { selling, ..self.positions[mint] }),
                ..self
            }
        } else {
            self
        }
    }

    /// The state once it is decided whether a position is sold at a gain in percent.
    pub open spec fn after_decision(self, mint: Seq<char>, pnl: Double) -> SniperView {
        if self.sells(mint, pnl) {
            self.marked(mint, true)
        } else {
            self
        }
    }

    /// The state without a position.
    pub open spec fn without(self, mint: Seq<char>) -> SniperView {
        SniperView { positions: self.positions.remove(mint), ..self }
    }
}

/// What follows from a trade.
#[derive(Debug)]
pub enum TradeStep {
    /// The wallet bought: its position is tracked from here.
    Opened,
    /// The position with this mint and entry price could be sold.
    Evaluate { mint: String, entry_price: Double },
    Nothing,
}

/// What follows from a trade.
pub enum TradeStepView {
    Opened,
    Evaluate { mint: Seq<char>, entry_price: Double },
    Nothing,
}

impl View for TradeStep {
    type V = TradeStepView;

    open spec fn view(&self) -> TradeStepView {
        match *self {
            TradeStep::Opened => TradeStepView::Opened,
            TradeStep::Evaluate { mint, entry_price } => TradeStepView::Evaluate { mint: mint@, entry_price },
            TradeStep::Nothing => TradeStepView::Nothing,
        }
    }
}

impl Sniper {
    /// A sniper that has seen nothing.
    pub fn new(live: Live) -> (r: Sniper)
        ensures
            r@ == (SniperView {
                live,
                shutdown: false,
                bought_count: 0,
                migration_count: 0,
                positions: Map::empty(),
                seen: Set::empty(),
                migrated: Set::empty(),
            }),
            r@.well_formed(),
    {
        let r = Sniper {
            live,
            shutdown: false,
            bought_count: 0,
            migration_count: 0,
            positions: StringHashMap::new(),
            seen: StringHashSet::new(),
            migrated: StringHashSet::new(),
        };
        proof {
            assert(r@.positions =~= Map::<Seq<char>, PositionView>::empty());
        }
        r
    }

    /// Number of positions.
    pub fn position_count(&self) -> (n: usize)
        ensures
            n == self@.positions.len(),
    {
        let n: usize = self.positions.len();
        proof {
            assert(self@.positions.dom() =~= self.positions@.dom());
        }
        n
    }

    /// A copy of the position with a mint.
    pub fn position(&self, mint: &str) -> (r: Option<Position>)
        ensures
            match r {
                Some(p) => self@.positions.contains_key(mint@) && p@ == self@.positions[mint@],
                None => !self@.positions.contains_key(mint@),
            },
    {
        match self.positions.get(mint) {
            Some(p) => Some(
                Position {
                    mint: p.mint.clone(),
                    entry_price_sol_per_token: p.entry_price_sol_per_token,
                    selling: p.selling,
                },
            ),
            None => None,
        }
    }

    fn put(&mut self, mint: &str, p: Position)
        ensures
            final(self)@ == (SniperView { positions: old(self)@.positions.insert(mint@, p@), ..old(self)@ }),
    {
        self.positions.insert(mint.to_owned(), p);
        proof {
            assert(self@.positions =~= old(self)@.positions.insert(mint@, p@));
        }
    }

    fn drop_position(&mut self, mint: &str)
        ensures
            final(self)@ == old(self)@.without(mint@),
    {
        self.positions.remove(mint);
        proof {
            assert(self@.positions =~= old(self)@.positions.remove(mint@));
        }
    }

    /// Takes note of a migration. Gives the card to log.
    pub fn on_migration(&mut self, mint: &str, name: &str, symbol: &str) -> (card: String)
        ensures
            final(self)@ == old(self)@.after_migration(mint@),
            card@ == card_text("MIGRATION"@, GREEN@, name@, symbol@, mint@),
    {
        let _ = self.migrated.insert(mint.to_owned());
        self.migration_count = self.migration_count.wrapping_add(1);
        token_card("MIGRATION", GREEN, name, symbol, mint)
    }

    /// Whether a mint has left the bonding curve.
    pub fn has_migrated(&self, mint: &str) -> (r: bool)
        ensures
            r == self@.migrated.contains(mint@),
    {
        self.migrated.contains(mint)
    }

    /// Decides whether a new token is bought, and remembers a token that passes
    /// the filters.
    pub fn admit_token(&mut self, token: &NewToken, now_ms: u64, waited_ms: u64) -> (r: bool)
        ensures
            r == old(self)@.buys(token@, now_ms, waited_ms),
            final(self)@ == old(self)@.after_token(token@, now_ms, waited_ms),
    {
        if !self.live.auto_buy {
            return false;
        }
        if self.live.settings.pump_tokens_only && !ends_with(token.mint.as_str(), "pump") {
            return false;
        }
        if !is_fresh_at(token, now_ms, waited_ms, self.live.settings.max_token_age_ms) {
            return false;
        }
        self.seen.insert(token.mint.clone())
    }

    /// Decides whether a new token is bought at the system time of the call, and by
    /// the time from the arrival of its message to the call.
    pub fn buy_new_token(&mut self, token: &NewToken) -> (r: bool)
        ensures
            exists|time: std::time::SystemTime, end: std::time::Instant|
                {
                    let now_ms = clock::epoch_millis(#[trigger] clock::epoch_reading(time));
                    let waited_ms = clock::cut_millis(#[trigger] clock::millis_apart(token.received_at, end));
                    &&& r == old(self)@.buys(token@, now_ms, waited_ms)
                    &&& final(self)@ == old(self)@.after_token(token@, now_ms, waited_ms)
                },
    {
        let now_ms: u64 = clock::unix_ms();
        let waited_ms: u64 = clock::low_millis(clock::elapsed_millis(&token.received_at));
        self.admit_token(token, now_ms, waited_ms)
    }

    /// Counts a purchase that went through. Gives the line to log and the
    /// message that subscribes to the token's trades.
    pub fn buy_done(&mut self, mint: &str, signature: &str) -> (r: Outcome)
        ensures
            final(self)@ == old(self)@.after_purchase(),
            r.line@ == sniped_text(mint@, signature@),
            r.message@ == keyed_message("subscribeTokenTrade"@, mint@),
    {
        self.bought_count = self.bought_count.wrapping_add(1);
        let mut line = GREEN.to_owned();
        line.append(BOLD);
        line.append("✓ SNIPED");
        line.append(RESET);
        line.append(" ");
        line.append(mint);
        let tail = transaction_line(signature);
        line.append(tail.as_str());
        Outcome { line, message: subscribe_token(mint) }
    }

    /// Takes note of a trade at a price per token.
    pub fn process_trade(&mut self, wallet: &str, trade: &TradeEvent, price: Double) -> (r: TradeStep)
        ensures
            own_purchase(wallet@, trade@) ==> r is Opened && final(self)@ == old(self)@.tracking(trade@.mint, price),
            !own_purchase(wallet@, trade@) ==> final(self)@ == old(self)@,
            !own_purchase(wallet@, trade@) && old(self)@.prices(trade@) ==> (r matches TradeStep::Evaluate {
                mint,
                entry_price,
            } && mint@ == old(self)@.positions[trade@.mint].mint && entry_price
                == old(self)@.positions[trade@.mint].entry_price_sol_per_token),
            !own_purchase(wallet@, trade@) && !old(self)@.prices(trade@) ==> r is Nothing,
            final(self)@ == old(self)@.after_trade(wallet@, trade@, price),
            r@ == old(self)@.trade_step(wallet@, trade@),
    {
        let zero = Double::zero();
        if same(trade.trader.as_str(), wallet) && same_ignoring_case(trade.tx_type.as_str(), "buy") && zero.lt(
            &trade.token_amount,
        ) && zero.lt(&trade.sol_amount) {
            self.put(
                trade.mint.as_str(),
                Position { mint: trade.mint.clone(), entry_price_sol_per_token: price, selling: false },
            );
            return TradeStep::Opened;
        }
        match self.position(trade.mint.as_str()) {
            Some(p) => if p.selling || trade.token_amount.le(&zero) || trade.sol_amount.le(&zero) {
                TradeStep::Nothing
            } else {
                TradeStep::Evaluate { mint: p.mint, entry_price: p.entry_price_sol_per_token }
            },
            None => TradeStep::Nothing,
        }
    }

    /// Decides whether a position is sold at a gain in percent, and marks it
    /// where it is.
    pub fn decide_sell(&mut self, mint: &str, pnl: Double) -> (r: bool)
        ensures
            r == old(self)@.sells(mint@, pnl),
            final(self)@ == if r {
                old(self)@.marked(mint@, true)
            } else {
                old(self)@
            },
            final(self)@ == old(self)@.after_decision(mint@, pnl),
    {
        if pnl.lt(&self.live.settings.auto_sell_profit_pct) {
            return false;
        }
        match self.position(mint) {
            Some(p) => {
                if p.selling {
                    return false;
                }
                self.put(mint, Position { selling: true, ..p });
                true
            },
            None => false,
        }
    }

    /// Forgets a position that was sold. Gives the line to log and the message
    /// that ends the subscription to the token's trades. `pnl` is the gain in
    /// percent with two decimals.
    pub fn sell_done(&mut self, mint: &str, pnl: &str, signature: &str) -> (r: Outcome)
        ensures
            final(self)@ == old(self)@.without(mint@),
            r.line@ == sold_text(mint@, pnl@, signature@),
            r.message@ == keyed_message("unsubscribeTokenTrade"@, mint@),
    {
        let mut line = GREEN.to_owned();
        line.append(BOLD);
        line.append("✓ SOLD");
        line.append(RESET);
        line.append(" ");
        line.append(mint);
        line.append(" +");
        line.append(pnl);
        line.append("%");
        let tail = transaction_line(signature);
        line.append(tail.as_str());
        self.drop_position(mint);
        Outcome { line, message: unsubscribe_token(mint) }
    }

    /// Opens a position for sale again after a sale that failed. Gives the line
    /// to log.
    pub fn sell_failed(&mut self, mint: &str, error: &str) -> (line: String)
        ensures
            final(self)@ == old(self)@.marked(mint@, false),
            line@ == failed_text("✗ SELL FAILED"@, mint@, error@),
    {
        match self.position(mint) {
            Some(p) => {
                self.put(mint, Position { selling: false, ..p });
            },
            None => {},
        }
        failure_line("✗ SELL FAILED", mint, error)
    }

    /// Applies what the `.env` file says now to the settings in force. Gives the
    /// lines to log.
    pub fn reload(&mut self, watch: &mut SettingsWatch, auto_buy: bool, settings: &HotSettings) -> (r: Vec<String>)
        ensures
            final(self)@ == old(self)@.reloaded(*old(watch), auto_buy, *settings),
            *final(watch) == (SettingsWatch { modified: old(watch).modified, auto_buy, settings: *settings }),
            line_views(r@) == reload_lines(old(watch).says(auto_buy, *settings), old(self)@.live, final(self)@.live),
    {
        watch.reload(&mut self.live, auto_buy, settings)
    }

    /// Carries out a line typed at the console. `trade_amount` is the amount per
    /// trade with four decimals, `slippage` the slippage with one.
    pub fn command(&mut self, line: &str, trade_amount: &str, slippage: &str) -> (r: Reply)
        ensures
            final(self)@ == old(self)@.commanded(command_of(line@)),
            r.line@ == reply_text(command_of(line@), old(self)@, trade_amount@, slippage@),
            r.stop == closes(command_of(line@)),
    {
        match parse_command(line) {
            Command::On => {
                self.live.auto_buy = true;
                Reply { line: "[CTRL] AUTO BUY ON".to_owned(), stop: false }
            },
            Command::Off => {
                self.live.auto_buy = false;
                Reply { line: "[CTRL] AUTO BUY OFF".to_owned(), stop: false }
            },
            Command::Status => {
                let positions = decimal(self.position_count() as u128);
                let bought = decimal(self.bought_count as u128);
                let migrations = decimal(self.migration_count as u128);
                let mut s = "[STATUS] auto_buy=".to_owned();
                s.append(on_off(self.live.auto_buy));
                s.append(" positions=");
                s.append(positions.as_str());
                s.append(" bought=");
                s.append(bought.as_str());
                s.append(" migrations=");
                s.append(migrations.as_str());
                s.append(" trade_amount=");
                s.append(trade_amount);
                s.append(" SOL slippage=");
                s.append(slippage);
                s.append("%");
                Reply { line: s, stop: false }
            },
            Command::Quit => {
                self.live.auto_buy = false;
                self.shutdown = true;
                Reply { line: "[CTRL] shutdown".to_owned(), stop: true }
            },
            Command::Help => Reply { line: CONSOLE_HELP.to_owned(), stop: false },
        }
    }
}

/// What the console understands.
pub const CONSOLE_HELP: &'static str = "[CTRL] on | off | status | quit";

/// A line to log and a message to send.
#[derive(Debug)]
pub struct Outcome {
    pub line: String,
    pub message: String,
}

/// A line to log, and whether the console closes.
#[derive(Debug)]
pub struct Reply {
    pub line: String,
    pub stop: bool,
}

/// Something to do that was typed at the console.
#[derive(Clone, Copy, Debug, PartialEq, Eq, Structural)]
pub enum Command {
    On,
    Off,
    Status,
    Quit,
    Help,
}

/// What a line typed at the console asks for, white space around it and the
/// case of its letters ignored.
pub open spec fn command_of(line: Seq<char>) -> Command {
    let word = lowered(trim(line));
    if word == "on"@ || word == "buy on"@ {
        Command::On
    } else if word == "off"@ || word == "buy off"@ || word == "stop"@ {
        Command::Off
    } else if word == "status"@ {
        Command::Status
    } else if word == "quit"@ || word == "exit"@ {
        Command::Quit
    } else {
        Command::Help
    }
}

/// What a line typed at the console asks for.
pub fn parse_command(line: &str) -> (r: Command)
    ensures
        r == command_of(line@),
{
    let lower = to_lower(trimmed(line));
    let word = lower.as_str();
    if same(word, "on") || same(word, "buy on") {
        Command::On
    } else if same(word, "off") || same(word, "buy off") || same(word, "stop") {
        Command::Off
    } else if same(word, "status") {
        Command::Status
    } else if same(word, "quit") || same(word, "exit") {
        Command::Quit
    } else {
        Command::Help
    }
}

impl SniperView {
    /// The state after a command.
    pub open spec fn commanded(self, c: Command) -> SniperView {
        match c {
            Command::On => SniperView { live: Live { auto_buy: true, ..self.live }, ..self },
            Command::Off => SniperView { live: Live { auto_buy: false, ..self.live }, ..self },
            Command::Quit => SniperView { live: Live { auto_buy: false, ..self.live }, shutdown: true, ..self },
            Command::Status | Command::Help => self,
        }
    }
}

/// Whether a command closes the console.
pub open spec fn closes(c: Command) -> bool {
    c is Quit
}

/// The answer to a command.
pub open spec fn reply_text(c: Command, s: SniperView, trade_amount: Seq<char>, slippage: Seq<char>) -> Seq<char> {
    match c {
        Command::On => "[CTRL] AUTO BUY ON"@,
        Command::Off => "[CTRL] AUTO BUY OFF"@,
        Command::Status => "[STATUS] auto_buy="@ + on_off_text(s.live.auto_buy) + " positions="@ + decimal_text(
            s.positions.len(),
        ) + " bought="@ + decimal_text(s.bought_count as nat) + " migrations="@ + decimal_text(
            s.migration_count as nat,
        ) + " trade_amount="@ + trade_amount + " SOL slippage="@ + slippage + "%"@,
        Command::Quit => "[CTRL] shutdown"@,
        Command::Help => CONSOLE_HELP@,
    }
}

/// A message that asks something for one key.
pub open spec fn keyed_message(method: Seq<char>, key: Seq<char>) -> Seq<char> {
    "{\"keys\":["@ + quoted(key) + "],\"method\":\""@ + method + "\"}"@
}

/// The message that asks something for one key.
pub fn key_message(method: &str, key: &str) -> (r: String)
    ensures
        r@ == keyed_message(method@, key@),
{
    let q = quote(key);
    let mut s = "{\"keys\":[".to_owned();
    s.append(q.as_str());
    s.append("],\"method\":\"");
    s.append(method);
    s.append("\"}");
    s
}

/// The message that subscribes to a token's trades.
pub fn subscribe_token(mint: &str) -> (r: String)
    ensures
        r@ == keyed_message("subscribeTokenTrade"@, mint@),
{
    key_message("subscribeTokenTrade", mint)
}

/// The message that ends the subscription to a token's trades.
pub fn unsubscribe_token(mint: &str) -> (r: String)
    ensures
        r@ == keyed_message("unsubscribeTokenTrade"@, mint@),
{
    key_message("unsubscribeTokenTrade", mint)
}

/// Where a transaction is shown.
pub open spec fn transaction_url(signature: Seq<char>) -> Seq<char> {
    "https://solscan.io/tx/"@ + signature
}

/// The line under a trade that links to its transaction.
pub open spec fn transaction_text(signature: Seq<char>) -> Seq<char> {
    "\n  └ "@ + CYAN@ + UNDERLINE@ + link_text(transaction_url(signature), transaction_url(signature)) + RESET@
}

fn transaction_line(signature: &str) -> (r: String)
    ensures
        r@ == transaction_text(signature@),
{
    let mut url = "https://solscan.io/tx/".to_owned();
    url.append(signature);
    let link = hyperlink(url.as_str(), url.as_str());
    let mut s = "\n  └ ".to_owned();
    s.append(CYAN);
    s.append(UNDERLINE);
    s.append(link.as_str());
    s.append(RESET);
    s
}

pub open spec fn sniped_text(mint: Seq<char>, signature: Seq<char>) -> Seq<char> {
    GREEN@ + BOLD@ + "✓ SNIPED"@ + RESET@ + " "@ + mint + transaction_text(signature)
}

pub open spec fn sold_text(mint: Seq<char>, pnl: Seq<char>, signature: Seq<char>) -> Seq<char> {
    GREEN@ + BOLD@ + "✓ SOLD"@ + RESET@ + " "@ + mint + " +"@ + pnl + "%"@ + transaction_text(signature)
}

pub open spec fn failed_text(what: Seq<char>, mint: Seq<char>, error: Seq<char>) -> Seq<char> {
    RED@ + BOLD@ + what + RESET@ + " "@ + mint + " — "@ + error
}

fn failure_line(what: &str, mint: &str, error: &str) -> (r: String)
    ensures
        r@ == failed_text(what@, mint@, error@),
{
    let mut s = RED.to_owned();
    s.append(BOLD);
    s.append(what);
    s.append(RESET);
    s.append(" ");
    s.append(mint);
    s.append(" — ");
    s.append(error);
    s
}

/// The line on a purchase that failed.
pub fn buy_failed(mint: &str, error: &str) -> (line: String)
    ensures
        line@ == failed_text("✗ BUY FAILED"@, mint@, error@),
{
    failure_line("✗ BUY FAILED", mint, error)
}

pub open spec fn buying_text(mint: Seq<char>, waited_ms: nat, amount: Seq<char>) -> Seq<char> {
    DIM@ + "[BUY]"@ + RESET@ + " "@ + mint + " · seen "@ + decimal_text(waited_ms) + "ms ago · buying "@ + amount
        + " SOL..."@
}

/// The lines on a token that is about to be bought, `waited_ms` after its
/// message arrived. `amount` is the amount in SOL with four decimals.
pub fn announce_purchase(token: &NewToken, waited_ms: u128, amount: &str) -> (r: (String, String))
    ensures
        r.0@ == card_text("NEW TOKEN"@, YELLOW@, token@.name, token@.symbol, token@.mint),
        r.1@ == buying_text(token@.mint, waited_ms as nat, amount@),
{
    let card = token_card("NEW TOKEN", YELLOW, token.name.as_str(), token.symbol.as_str(), token.mint.as_str());
    let ms = decimal(waited_ms);
    let mut s = DIM.to_owned();
    s.append("[BUY]");
    s.append(RESET);
    s.append(" ");
    s.append(token.mint.as_str());
    s.append(" · seen ");
    s.append(ms.as_str());
    s.append("ms ago · buying ");
    s.append(amount);
    s.append(" SOL...");
    (card, s)
}

pub open spec fn tracking_text(mint: Seq<char>, entry_price: Seq<char>) -> Seq<char> {
    DIM@ + "[TRACK]"@ + RESET@ + " "@ + mint + " entry "@ + entry_price + " SOL/token"@
}

/// The line on a position that is tracked from here. `entry_price` is the price
/// with twelve decimals.
pub fn track_line(mint: &str, entry_price: &str) -> (line: String)
    ensures
        line@ == tracking_text(mint@, entry_price@),
{
    let mut s = DIM.to_owned();
    s.append("[TRACK]");
    s.append(RESET);
    s.append(" ");
    s.append(mint);
    s.append(" entry ");
    s.append(entry_price);
    s.append(" SOL/token");
    s
}

pub open spec fn selling_text(mint: Seq<char>, pnl: Seq<char>) -> Seq<char> {
    YELLOW@ + "[SELL]"@ + RESET@ + " "@ + mint + " +"@ + pnl + "% · selling 100%..."@
}

/// The line on a sale that is about to be made. `pnl` is the gain in percent
/// with two decimals.
pub fn sell_line(mint: &str, pnl: &str) -> (line: String)
    ensures
        line@ == selling_text(mint@, pnl@),
{
    let mut s = YELLOW.to_owned();
    s.append("[SELL]");
    s.append(RESET);
    s.append(" ");
    s.append(mint);
    s.append(" +");
    s.append(pnl);
    s.append("% · selling 100%...");
    s
}

/// Something that happens to the sniper.
pub enum Step {
    /// A new token comes by.
    Token { token: NewTokenView, now_ms: u64, waited_ms: u64 },
    /// A token migrates.
    Migration { mint: Seq<char> },
    /// A purchase goes through.
    Purchase,
    /// A position is opened.
    Open { mint: Seq<char>, price: Double },
    /// A position is marked as being sold or not.
    Mark { mint: Seq<char>, selling: bool },
    /// A position is sold.
    Sale { mint: Seq<char> },
    /// A line is typed at the console.
    Console { command: Command },
    /// The settings are read again.
    Reload { seen: SettingsWatch, auto_buy: bool, settings: HotSettings },
}

impl SniperView {
    /// The state after a step.
    pub open spec fn after(self, step: Step) -> SniperView {
        match step {
            Step::Token { token, now_ms, waited_ms } => self.after_token(token, now_ms, waited_ms),
            Step::Migration { mint } => self.after_migration(mint),
            Step::Purchase => self.after_purchase(),
            Step::Open { mint, price } => self.tracking(mint, price),
            Step::Mark { mint, selling } => self.marked(mint, selling),
            Step::Sale { mint } => self.without(mint),
            Step::Console { command } => self.commanded(command),
            Step::Reload { seen, auto_buy, settings } => self.reloaded(seen, auto_buy, settings),
        }
    }

    /// The state after a row of steps.
    pub open spec fn after_all(self, steps: Seq<Step>) -> SniperView
        decreases steps.len(),
    {
        if steps.len() == 0 {
            self
        } else {
            self.after_all(steps.drop_last()).after(steps.last())
        }
    }
}

/// Nothing that the sniper does makes it forget a token that it has seen.
pub proof fn seen_tokens_stay_seen(s: SniperView, steps: Seq<Step>)
    ensures
        s.seen.subset_of(s.after_all(steps).seen),
    decreases steps.len(),
{
    if steps.len() > 0 {
        seen_tokens_stay_seen(s, steps.drop_last());
    }
}

/// A token is bought at most once: whatever happens in between, a token that
/// was to be bought is not bought again.
pub proof fn no_token_is_bought_twice(
    s: SniperView,
    t: NewTokenView,
    now_ms: u64,
    waited_ms: u64,
    steps: Seq<Step>,
    again: NewTokenView,
    later_ms: u64,
    later_waited_ms: u64,
)
    requires
        s.buys(t, now_ms, waited_ms),
        again.mint == t.mint,
    ensures
        !s.after_token(t, now_ms, waited_ms).after_all(steps).buys(again, later_ms, later_waited_ms),
{
    seen_tokens_stay_seen(s.after_token(t, now_ms, waited_ms), steps);
}

/// A token is bought exactly when auto-buy is on, its mint ends in `pump` where
/// that is asked for, it is fresh, and its mint is not among those seen. It is
/// fresh by its own time stamp where that has passed, else by how long ago its
/// message arrived.
pub proof fn a_token_is_bought_exactly_when_it_passes(s: SniperView, t: NewTokenView, now_ms: u64, waited_ms: u64)
    ensures
        ({
            let limit = s.live.settings.max_token_age_ms;
            let age = match t.source_timestamp_ms {
                Some(stamp) => if stamp <= now_ms {
                    now_ms - stamp
                } else {
                    waited_ms as int
                },
                None => waited_ms as int,
            };
            s.buys(t, now_ms, waited_ms) <==> s.live.auto_buy && (!s.live.settings.pump_tokens_only || (exists|
                front: Seq<char>,
            | t.mint == #[trigger] (front + "pump"@))) && age <= limit && !s.seen.contains(t.mint)
        }),
{
    let tail = "pump"@;
    if has_suffix(t.mint, tail) {
        let front = t.mint.take(t.mint.len() - tail.len());
        assert(t.mint =~= front + tail);
    }
    if exists|front: Seq<char>| t.mint == #[trigger] (front + tail) {
        let front = choose|front: Seq<char>| t.mint == #[trigger] (front + tail);
        assert(t.mint.skip(t.mint.len() - tail.len()) =~= tail);
    }
}

/// Whether a token is bought depends on nothing but the switch, the settings and
/// the tokens seen: not on what is held, what has migrated, or how much was
/// bought.
pub proof fn only_settings_and_seen_tokens_count_for_a_purchase(
    a: SniperView,
    b: SniperView,
    t: NewTokenView,
    now_ms: u64,
    waited_ms: u64,
    mint: Seq<char>,
    price: Double,
    selling: bool,
)
    ensures
        a.live == b.live && a.seen == b.seen ==> a.buys(t, now_ms, waited_ms) == b.buys(t, now_ms, waited_ms),
        a.tracking(mint, price).buys(t, now_ms, waited_ms) == a.buys(t, now_ms, waited_ms),
        a.after_migration(mint).buys(t, now_ms, waited_ms) == a.buys(t, now_ms, waited_ms),
        a.after_purchase().buys(t, now_ms, waited_ms) == a.buys(t, now_ms, waited_ms),
        a.marked(mint, selling).buys(t, now_ms, waited_ms) == a.buys(t, now_ms, waited_ms),
        a.without(mint).buys(t, now_ms, waited_ms) == a.buys(t, now_ms, waited_ms),
{
}

/// A token that is bought is remembered, and by a new token nothing else changes.
pub proof fn a_new_token_is_only_remembered(
    s: SniperView,
    t: NewTokenView,
    now_ms: u64,
    waited_ms: u64,
    mint: Seq<char>,
)
    ensures
        ({
            let after = s.after_token(t, now_ms, waited_ms);
            &&& after.seen.contains(mint) <==> s.seen.contains(mint) || (mint == t.mint && s.buys(t, now_ms, waited_ms))
            &&& (SniperView { seen: s.seen, ..after }) == s
        }),
{
}

/// A position is sold exactly when the gain is not below the settings' threshold,
/// the position is held, and no sale of it is under way.
pub proof fn a_sale_starts_exactly_when_it_pays(s: SniperView, mint: Seq<char>, pnl: Double)
    ensures
        s.sells(mint, pnl) <==> !pnl.below(s.live.settings.auto_sell_profit_pct) && s.positions.contains_key(mint)
            && !s.positions[mint].selling,
{
}

/// Whether a position is sold depends on nothing but the position, the gain and
/// the threshold: not on what was seen, what has migrated, how much was bought,
/// or whether auto-buy is on.
pub proof fn only_position_and_threshold_count_for_a_sale(
    a: SniperView,
    b: SniperView,
    mint: Seq<char>,
    pnl: Double,
    other: Seq<char>,
    t: NewTokenView,
    now_ms: u64,
    waited_ms: u64,
    c: Command,
)
    ensures
        a.positions == b.positions && a.live.settings == b.live.settings ==> a.sells(mint, pnl) == b.sells(mint, pnl),
        a.after_migration(other).sells(mint, pnl) == a.sells(mint, pnl),
        a.after_token(t, now_ms, waited_ms).sells(mint, pnl) == a.sells(mint, pnl),
        a.after_purchase().sells(mint, pnl) == a.sells(mint, pnl),
        a.commanded(c).sells(mint, pnl) == a.sells(mint, pnl),
        other != mint ==> a.marked(other, true).sells(mint, pnl) == a.sells(mint, pnl),
        other != mint ==> a.without(other).sells(mint, pnl) == a.sells(mint, pnl),
{
}

/// A higher gain never keeps a position that a lower one would sell.
pub proof fn a_higher_gain_sells_too(s: SniperView, mint: Seq<char>, pnl: Double, higher: Double)
    requires
        s.sells(mint, pnl),
        pnl.at_most(higher),
    ensures
        s.sells(mint, higher),
{
}

/// A position that is to be sold is marked as being sold, whatever the gain, and one that
/// is kept is left as it is; no other position is touched.
pub proof fn a_decision_marks_what_is_sold(s: SniperView, mint: Seq<char>, pnl: Double, other: Seq<char>)
    ensures
        ({
            let after = s.after_decision(mint, pnl);
            &&& s.sells(mint, pnl) ==> after.positions.contains_key(mint) && after.positions[mint].selling
                && after.positions[mint].mint == s.positions[mint].mint
                && after.positions[mint].entry_price_sol_per_token == s.positions[mint].entry_price_sol_per_token
            &&& !s.sells(mint, pnl) ==> after == s
            &&& after.positions.contains_key(other) <==> s.positions.contains_key(other)
            &&& s.positions.contains_key(other) && other != mint ==> after.positions[other] == s.positions[other]
            &&& (SniperView { positions: s.positions, ..after }) == s
        }),
{
}

/// Marking a position sets its mark and nothing else, and marks nothing that is
/// not held.
pub proof fn a_mark_touches_one_position(s: SniperView, mint: Seq<char>, selling: bool, other: Seq<char>)
    ensures
        ({
            let after = s.marked(mint, selling);
            &&& after.positions.contains_key(other) <==> s.positions.contains_key(other)
            &&& s.positions.contains_key(other) && other != mint ==> after.positions[other] == s.positions[other]
            &&& s.positions.contains_key(mint) ==> after.positions[mint].selling == selling
                && after.positions[mint].mint == s.positions[mint].mint
                && after.positions[mint].entry_price_sol_per_token == s.positions[mint].entry_price_sol_per_token
            &&& (SniperView { positions: s.positions, ..after }) == s
        }),
{
}

/// A trade is the wallet's own purchase exactly when the wallet made it, its type
/// is `buy` in small or capital letters, and both amounts are above zero.
pub proof fn own_purchases_are_told_by_trader_and_type(wallet: Seq<char>, t: TradeEventView)
    ensures
        own_purchase(wallet, t) <==> {
            &&& t.trader == wallet
            &&& t.tx_type.len() == 3
            &&& t.tx_type[0] == 'b' || t.tx_type[0] == 'B'
            &&& t.tx_type[1] == 'u' || t.tx_type[1] == 'U'
            &&& t.tx_type[2] == 'y' || t.tx_type[2] == 'Y'
            &&& Double::spec_zero().below(t.token_amount)
            &&& Double::spec_zero().below(t.sol_amount)
        },
{
    reveal_strlit("buy");
    let a = lowered(t.tx_type);
    let b = lowered("buy"@);
    assert(b.len() == 3 && b[0] == 'b' && b[1] == 'u' && b[2] == 'y');
    if t.tx_type.len() == 3 {
        assert(a[0] == lower(t.tx_type[0]));
        assert(a[1] == lower(t.tx_type[1]));
        assert(a[2] == lower(t.tx_type[2]));
        capitals_become_small(t.tx_type[0]);
        capitals_become_small(t.tx_type[1]);
        capitals_become_small(t.tx_type[2]);
        if own_purchase(wallet, t) {
            assert(a[0] == b[0] && a[1] == b[1] && a[2] == b[2]);
        }
        if lower(t.tx_type[0]) == 'b' && lower(t.tx_type[1]) == 'u' && lower(t.tx_type[2]) == 'y' {
            assert(a =~= b);
        }
    } else {
        assert(a.len() != b.len());
    }
}

/// A trade opens a position at its price exactly when it is the wallet's own
/// purchase, in place of one with the same mint; any other trade changes nothing.
/// No trade touches another position.
pub proof fn only_own_purchases_open_positions(
    s: SniperView,
    wallet: Seq<char>,
    t: TradeEventView,
    price: Double,
    other: Seq<char>,
)
    ensures
        ({
            let after = s.after_trade(wallet, t, price);
            &&& own_purchase(wallet, t) ==> after.positions.contains_key(t.mint) && after.positions[t.mint].mint
                == t.mint && after.positions[t.mint].entry_price_sol_per_token == price
                && !after.positions[t.mint].selling
            &&& other != t.mint || !own_purchase(wallet, t) ==> (after.positions.contains_key(other)
                <==> s.positions.contains_key(other)) && (s.positions.contains_key(other) ==> after.positions[other]
                == s.positions[other])
            &&& (SniperView { positions: s.positions, ..after }) == s
        }),
{
}

/// A trade is weighed against a position exactly when the position is held, no
/// sale of it is under way, and neither amount is zero or less; what is weighed is
/// that position, at the price that it was opened at. Who traded, and which way,
/// does not count, but the wallet's own purchase is no such trade.
pub proof fn every_priced_trade_is_weighed(s: SniperView, wallet: Seq<char>, t: TradeEventView)
    requires
        s.well_formed(),
    ensures
        match s.trade_step(wallet, t) {
            TradeStepView::Opened => own_purchase(wallet, t),
            TradeStepView::Evaluate { mint, entry_price } => !own_purchase(wallet, t) && s.positions.contains_key(t.mint)
                && !s.positions[t.mint].selling && !t.token_amount.at_most(Double::spec_zero())
                && !t.sol_amount.at_most(Double::spec_zero()) && mint == t.mint && entry_price
                == s.positions[t.mint].entry_price_sol_per_token,
            TradeStepView::Nothing => !own_purchase(wallet, t) && (!s.positions.contains_key(t.mint)
                || s.positions[t.mint].selling || t.token_amount.at_most(Double::spec_zero()) || t.sol_amount.at_most(
                Double::spec_zero(),
            )),
        },
{
}

/// A migration is noted and counted, a purchase is counted, and nothing else
/// changes by either.
pub proof fn migrations_and_purchases_are_counted(s: SniperView, mint: Seq<char>, other: Seq<char>)
    ensures
        s.after_migration(mint).migrated.contains(other) <==> s.migrated.contains(other) || other == mint,
        s.migration_count < u64::MAX ==> s.after_migration(mint).migration_count == s.migration_count + 1,
        (SniperView {
            migrated: s.migrated,
            migration_count: s.migration_count,
            ..s.after_migration(mint)
        }) == s,
        s.migration_count == u64::MAX ==> s.after_migration(mint).migration_count == 0,
        s.bought_count < u64::MAX ==> s.after_purchase().bought_count == s.bought_count + 1,
        s.bought_count == u64::MAX ==> s.after_purchase().bought_count == 0,
        (SniperView { bought_count: s.bought_count, ..s.after_purchase() }) == s,
{
}

/// A position that is sold is forgotten, and by that nothing else changes.
pub proof fn a_sale_only_forgets(s: SniperView, mint: Seq<char>)
    ensures
        s.without(mint).positions == s.positions.remove(mint),
        (SniperView { positions: s.positions, ..s.without(mint) }) == s,
{
}

/// The console turns auto-buy on and off and shuts down; it touches nothing else,
/// and asking for the status or for help touches nothing at all. Shutting down
/// turns auto-buy off.
pub proof fn the_console_turns_the_switch(s: SniperView, c: Command)
    ensures
        s.commanded(c).live.auto_buy == match c {
            Command::On => true,
            Command::Off => false,
            Command::Quit => false,
            Command::Status => s.live.auto_buy,
            Command::Help => s.live.auto_buy,
        },
        s.commanded(c).shutdown <==> s.shutdown || c is Quit,
        closes(c) <==> c == Command::Quit,
        s.commanded(c).live.settings == s.live.settings,
        s.commanded(c).live.auto_buy == s.live.auto_buy && !(c is Quit) ==> s.commanded(c) == s,
        (SniperView { live: s.live, shutdown: s.shutdown, ..s.commanded(c) }) == s,
{
}

/// The console knows eight inputs, each for one command, and answers everything
/// else with help.
pub proof fn the_console_knows_its_words(line: Seq<char>)
    ensures
        ({
            let word = lowered(trim(line));
            &&& command_of(line) is On <==> word == "on"@ || word == "buy on"@
            &&& command_of(line) is Off <==> word == "off"@ || word == "buy off"@ || word == "stop"@
            &&& command_of(line) is Status <==> word == "status"@
            &&& command_of(line) is Quit <==> word == "quit"@ || word == "exit"@
        }),
{
    reveal_strlit("on");
    reveal_strlit("buy on");
    reveal_strlit("off");
    reveal_strlit("buy off");
    reveal_strlit("stop");
    reveal_strlit("status");
    reveal_strlit("quit");
    reveal_strlit("exit");
    let word = lowered(trim(line));
    assert("stop"@ != "quit"@) by {
        assert("stop"@[0] != "quit"@[0]);
    }
    assert("stop"@ != "exit"@) by {
        assert("stop"@[0] != "exit"@[0]);
    }
    assert("status"@ != "buy on"@) by {
        assert("status"@[0] != "buy on"@[0]);
    }
    assert("on"@.len() == 2 && "off"@.len() == 3 && "stop"@.len() == 4 && "quit"@.len() == 4 && "exit"@.len() == 4);
    assert("buy on"@.len() == 6 && "status"@.len() == 6 && "buy off"@.len() == 7);
}

/// Reading the settings again changes the settings in force and nothing else.
pub proof fn a_reload_changes_only_the_settings(
    s: SniperView,
    seen: SettingsWatch,
    auto_buy: bool,
    settings: HotSettings,
)
    ensures
        s.reloaded(seen, auto_buy, settings).live == s.live.reloaded(seen, auto_buy, settings),
        (SniperView { live: s.live, ..s.reloaded(seen, auto_buy, settings) }) == s,
{
}

/// A message that asks something for a key is the JSON object of the key and the
/// method, in that order, whatever they are.
pub proof fn keyed_messages_hold_key_and_method(key: Seq<char>, method: Seq<char>)
    ensures
        keyed_message(method, key) == "{\"keys\":["@ + quoted(key) + "],\"method\":\""@ + method + "\"}"@,
{
}

/// The answer to a command says what was switched, or counts what the sniper
/// has.
pub proof fn replies_say_what_was_done(s: SniperView, trade_amount: Seq<char>, slippage: Seq<char>)
    ensures
        reply_text(Command::On, s, trade_amount, slippage) == "[CTRL] AUTO BUY ON"@,
        reply_text(Command::Off, s, trade_amount, slippage) == "[CTRL] AUTO BUY OFF"@,
        reply_text(Command::Quit, s, trade_amount, slippage) == "[CTRL] shutdown"@,
        reply_text(Command::Help, s, trade_amount, slippage) == "[CTRL] on | off | status | quit"@,
        reply_text(Command::Status, s, trade_amount, slippage) == "[STATUS] auto_buy="@ + (if s.live.auto_buy {
            "ON"@
        } else {
            "OFF"@
        }) + " positions="@ + decimal_text(s.positions.len()) + " bought="@ + decimal_text(s.bought_count as nat)
            + " migrations="@ + decimal_text(s.migration_count as nat) + " trade_amount="@ + trade_amount
            + " SOL slippage="@ + slippage + "%"@,
{
}

/// The line on a trade names the mint and what came of it, and one on a trade
/// that went through links to its transaction.
pub proof fn trade_lines_name_mint_and_outcome(
    mint: Seq<char>,
    pnl: Seq<char>,
    signature: Seq<char>,
    what: Seq<char>,
    error: Seq<char>,
)
    ensures
        transaction_url(signature) == "https://solscan.io/tx/"@ + signature,
        transaction_text(signature) == "\n  └ "@ + CYAN@ + UNDERLINE@ + link_text(
            "https://solscan.io/tx/"@ + signature,
            "https://solscan.io/tx/"@ + signature,
        ) + RESET@,
        sniped_text(mint, signature) == GREEN@ + BOLD@ + "✓ SNIPED"@ + RESET@ + " "@ + mint + transaction_text(
            signature,
        ),
        sold_text(mint, pnl, signature) == GREEN@ + BOLD@ + "✓ SOLD"@ + RESET@ + " "@ + mint + " +"@ + pnl + "%"@
            + transaction_text(signature),
        failed_text(what, mint, error) == RED@ + BOLD@ + what + RESET@ + " "@ + mint + " — "@ + error,
{
}

/// Nothing is bought while the switch is off.
pub proof fn nothing_is_bought_while_off(s: SniperView, t: NewTokenView, now_ms: u64, waited_ms: u64)
    requires
        !s.live.auto_buy,
    ensures
        !s.buys(t, now_ms, waited_ms),
        s.after_token(t, now_ms, waited_ms) == s,
{
}

/// While a sale is under way, no second sale of the same position starts.
pub proof fn no_second_sale_while_selling(s: SniperView, mint: Seq<char>, pnl: Double, other: Double)
    requires
        s.sells(mint, pnl),
    ensures
        !s.marked(mint, true).sells(mint, other),
{
}

/// A sale that failed leaves the sniper as it was before the sale.
pub proof fn failed_sale_leaves_no_trace(s: SniperView, mint: Seq<char>, pnl: Double)
    requires
        s.sells(mint, pnl),
    ensures
        s.marked(mint, true).marked(mint, false) == s,
{
    assert(s.marked(mint, true).marked(mint, false).positions =~= s.positions);
}

/// A position that was sold is gone, and no other position is touched.
pub proof fn sale_touches_one_position(s: SniperView, mint: Seq<char>, other: Seq<char>)
    requires
        other != mint,
    ensures
        !s.without(mint).positions.contains_key(mint),
        s.without(mint).positions.contains_key(other) == s.positions.contains_key(other),
        s.positions.contains_key(other) ==> s.without(mint).positions[other] == s.positions[other],
{
}

/// Whatever happens keeps the positions under their own mints.
pub proof fn steps_keep_positions_in_place(s: SniperView, steps: Seq<Step>)
    requires
        s.well_formed(),
    ensures
        s.after_all(steps).well_formed(),
    decreases steps.len(),
{
    if steps.len() > 0 {
        steps_keep_positions_in_place(s, steps.drop_last());
    }
}

/// What is about to be done is said with the token and the figures.
pub proof fn plans_name_token_and_figures(
    mint: Seq<char>,
    waited_ms: nat,
    amount: Seq<char>,
    price: Seq<char>,
    pnl: Seq<char>,
)
    ensures
        buying_text(mint, waited_ms, amount) == DIM@ + "[BUY]"@ + RESET@ + " "@ + mint + " · seen "@ + decimal_text(
            waited_ms,
        ) + "ms ago · buying "@ + amount + " SOL..."@,
        tracking_text(mint, price) == DIM@ + "[TRACK]"@ + RESET@ + " "@ + mint + " entry "@ + price
            + " SOL/token"@,
        selling_text(mint, pnl) == YELLOW@ + "[SELL]"@ + RESET@ + " "@ + mint + " +"@ + pnl
            + "% · selling 100%..."@,
{
}

/// Nothing of a position is left out of sight.
pub proof fn positions_are_in_sight(p: Position)
    ensures
        p@.mint == p.mint@,
        p@.entry_price_sol_per_token == p.entry_price_sol_per_token,
        p@.selling == p.selling,
{
}

} // verus!
