//! Settings of the sniper: the `.env` file, what it says, and reloading it
//! while the sniper runs.

use crate::display::{on_off, on_off_text};
use crate::double::Double;
use crate::state::{line_views, optional_text};
use crate::text::{
    a_trimmed_text_is_left_whole, bool_of, first_index, first_index_is_the_first, is_space,
    one_more_line_is_one_more_piece, only_two_words_are_truth_values, parse_bool, parse_unsigned, pieces, split_lines,
    split_once, trim, trimmed, unsigned_of, views, white_space_around_does_not_count, white_space_is_listed,
};
use crate::wallet::{keypair_from_text, load_keypair, KeyError, KeyErrorView, KEYPAIR_BYTES};
use vstd::hash_map::StringHashMap;
use vstd::prelude::*;
use vstd::string::*;

verus! {

pub const AUTO_BUY_DEFAULT: bool = true;

pub const MAX_TOKEN_AGE_DEFAULT: u64 = 1_000;

pub const MEV_PROTECTION_DEFAULT: bool = false;

pub const PUMP_ONLY_DEFAULT: bool = true;

/// The bits of 0.03.
pub const TRADE_AMOUNT_BITS: u64 = 0x3f9e_b851_eb85_1eb8;

/// The bits of 25.
pub const AUTO_SELL_PROFIT_BITS: u64 = 0x4039_0000_0000_0000;

/// The bits of 25.
pub const SLIPPAGE_BITS: u64 = 0x4039_0000_0000_0000;

/// The bits of 0.0002.
pub const PRIORITY_FEE_BITS: u64 = 0x3f2a_36e2_eb1c_432d;

/// The bits of 0.01.
pub const MIN_SOL_RESERVE_BITS: u64 = 0x3f84_7ae1_47ae_147b;

/// Names and the texts that they stand for.
pub struct Env {
    entries: StringHashMap<String>,
}

impl View for Env {
    type V = Map<Seq<char>, Seq<char>>;

    closed spec fn view(&self) -> Map<Seq<char>, Seq<char>> {
        self.entries@.map_values(|s: String| s@)
    }
}

impl Env {
    /// No names at all.
    pub fn new() -> (r: Env)
        ensures
            r@ == Map::<Seq<char>, Seq<char>>::empty(),
    {
        let r = Env { entries: StringHashMap::new() };
        proof {
            assert(r@ =~= Map::<Seq<char>, Seq<char>>::empty());
        }
        r
    }

    /// Lets a name stand for a text, in place of what it stood for.
    pub fn set(&mut self, name: String, text: String)
        ensures
            final(self)@ == old(self)@.insert(name@, text@),
    {
        self.entries.insert(name, text);
        proof {
            assert(self@ =~= old(self)@.insert(name@, text@));
        }
    }

    /// The text that a name stands for.
    pub fn text(&self, name: &str) -> (r: Option<&str>)
        ensures
            match r {
                Some(s) => entry(self@, name@) == Some(s@),
                None => entry(self@, name@) == None::<Seq<char>>,
            },
    {
        match self.entries.get(name) {
            Some(s) => Some(s.as_str()),
            None => None,
        }
    }

    fn owned(&self, name: &str) -> (r: Option<String>)
        ensures
            match r {
                Some(s) => entry(self@, name@) == Some(s@),
                None => entry(self@, name@) == None::<Seq<char>>,
            },
    {
        match self.text(name) {
            Some(s) => Some(s.to_owned()),
            None => None,
        }
    }
}

/// The text that a name stands for.
pub open spec fn entry(env: Map<Seq<char>, Seq<char>>, name: Seq<char>) -> Option<Seq<char>> {
    if env.contains_key(name) {
        Some(env[name])
    } else {
        None
    }
}

/// A text without the matching quotation marks that it may stand between.
pub open spec fn unquoted(v: Seq<char>) -> Seq<char> {
    if v.len() >= 2 && v[0] == v.last() && (v[0] == '"' || v[0] == '\'') {
        v.subrange(1, v.len() - 1)
    } else {
        v
    }
}

/// What one line of a `.env` file sets: nothing where it is empty, a comment or
/// without an equals sign; else the name before the first equals sign, and the
/// text after it.
pub open spec fn line_entry(line: Seq<char>) -> Option<(Seq<char>, Seq<char>)> {
    let t = trim(line);
    let i = first_index(t, '=');
    if t.len() == 0 || t[0] == '#' || i >= t.len() {
        None
    } else {
        Some((trim(t.take(i as int)), unquoted(trim(t.skip(i as int + 1)))))
    }
}

/// What the lines set, a later line over an earlier one.
pub open spec fn lines_set(lines: Seq<Seq<char>>) -> Map<Seq<char>, Seq<char>>
    decreases lines.len(),
{
    if lines.len() == 0 {
        Map::empty()
    } else {
        let before = lines_set(lines.drop_last());
        match line_entry(lines.last()) {
            Some((name, text)) => before.insert(name, text),
            None => before,
        }
    }
}

/// What a `.env` file sets.
pub open spec fn file_sets(contents: Seq<char>) -> Map<Seq<char>, Seq<char>> {
    lines_set(pieces(contents))
}

fn without_quotes(v: &str) -> (r: String)
    ensures
        r@ == unquoted(v@),
{
    let n: usize = v.unicode_len();
    if n >= 2 {
        let first = v.get_char(0);
        let last = v.get_char(n - 1);
        if first == last && (first == '"' || first == '\'') {
            return v.substring_char(1, n - 1).to_owned();
        }
    }
    v.to_owned()
}

/// What one line of a `.env` file sets.
pub fn read_env_line(line: &str) -> (r: Option<(String, String)>)
    ensures
        match r {
            Some((name, text)) => line_entry(line@) == Some((name@, text@)),
            None => line_entry(line@) == None::<(Seq<char>, Seq<char>)>,
        },
{
    let line = trimmed(line);
    if line.unicode_len() == 0 || line.get_char(0) == '#' {
        return None;
    }
    match split_once(line, '=') {
        Some((left, right)) => Some((trimmed(left).to_owned(), without_quotes(trimmed(right)))),
        None => None,
    }
}

/// What a `.env` file with these contents sets.
pub fn read_env_file(contents: &str) -> (r: Env)
    ensures
        r@ == file_sets(contents@),
{
    let lines = split_lines(contents);
    let mut env = Env::new();
    let n: usize = lines.len();
    let mut i: usize = 0;
    proof {
        assert(views(lines@).take(0) =~= Seq::empty());
    }
    while i < n
        invariant
            n == lines@.len(),
            i <= n,
            env@ == lines_set(views(lines@).take(i as int)),
        decreases n - i,
    {
        proof {
            let seen = views(lines@).take(i + 1);
            assert(seen.drop_last() =~= views(lines@).take(i as int));
            assert(seen.last() == lines@[i as int]@);
        }
        match read_env_line(lines[i]) {
            Some((name, text)) => {
                env.set(name, text);
            },
            None => {},
        }
        i += 1;
    }
    proof {
        assert(views(lines@).take(n as int) =~= views(lines@));
    }
    env
}

/// What a text says as a truth value, or the default where it says nothing.
pub open spec fn bool_or(text: Option<Seq<char>>, default: bool) -> bool {
    match text {
        Some(s) => match bool_of(s) {
            Some(b) => b,
            None => default,
        },
        None => default,
    }
}

/// What a text says as a `u64`, or the default where it says nothing.
pub open spec fn unsigned_or(text: Option<Seq<char>>, default: u64) -> u64 {
    match text {
        Some(s) => match unsigned_of(s) {
            Some(n) => n,
            None => default,
        },
        None => default,
    }
}

/// The truth value that a name stands for.
pub fn map_bool(env: &Env, key: &str, default: bool) -> (r: bool)
    ensures
        r == bool_or(entry(env@, key@), default),
{
    match env.text(key) {
        Some(s) => match parse_bool(s) {
            Some(b) => b,
            None => default,
        },
        None => default,
    }
}

/// The number that a name stands for.
pub fn map_u64(env: &Env, key: &str, default: u64) -> (r: u64)
    ensures
        r == unsigned_or(entry(env@, key@), default),
{
    match env.text(key) {
        Some(s) => match parse_unsigned(s) {
            Some(n) => n,
            None => default,
        },
        None => default,
    }
}

/// Settings that can change while the sniper runs.
#[derive(Clone, Copy, Debug)]
pub struct HotSettings {
    pub trade_amount_sol: Double,
    pub max_token_age_ms: u64,
    pub auto_sell_profit_pct: Double,
    pub slippage_pct: Double,
    pub priority_fee_sol: Double,
    pub mev_protection: bool,
    pub pump_tokens_only: bool,
    pub min_sol_reserve: Double,
}

/// The texts of the settings that are fractions.
#[derive(Debug)]
pub struct NumberTexts {
    pub trade_amount_sol: Option<String>,
    pub auto_sell_profit_pct: Option<String>,
    pub slippage_pct: Option<String>,
    pub priority_fee_sol: Option<String>,
    pub min_sol_reserve: Option<String>,
}

/// What the texts of the settings that are fractions parse to, where there is a
/// text and it parses.
#[derive(Clone, Copy, Debug)]
pub struct HotNumbers {
    pub trade_amount_sol: Option<Double>,
    pub auto_sell_profit_pct: Option<Double>,
    pub slippage_pct: Option<Double>,
    pub priority_fee_sol: Option<Double>,
    pub min_sol_reserve: Option<Double>,
}

impl NumberTexts {
    /// Whether these are the texts that the names stand for.
    pub open spec fn are_of(self, env: Map<Seq<char>, Seq<char>>) -> bool {
        &&& optional_text(self.trade_amount_sol) == entry(env, "TRADE_AMOUNT_SOL"@)
        &&& optional_text(self.auto_sell_profit_pct) == entry(env, "AUTO_SELL_PROFIT_PCT"@)
        &&& optional_text(self.slippage_pct) == entry(env, "SLIPPAGE_PCT"@)
        &&& optional_text(self.priority_fee_sol) == entry(env, "PRIORITY_FEE_SOL"@)
        &&& optional_text(self.min_sol_reserve) == entry(env, "MIN_SOL_RESERVE"@)
    }
}

/// The texts of the settings that are fractions.
pub fn number_texts(env: &Env) -> (r: NumberTexts)
    ensures
        r.are_of(env@),
        optional_text(r.trade_amount_sol) == entry(env@, "TRADE_AMOUNT_SOL"@),
        optional_text(r.auto_sell_profit_pct) == entry(env@, "AUTO_SELL_PROFIT_PCT"@),
        optional_text(r.slippage_pct) == entry(env@, "SLIPPAGE_PCT"@),
        optional_text(r.priority_fee_sol) == entry(env@, "PRIORITY_FEE_SOL"@),
        optional_text(r.min_sol_reserve) == entry(env@, "MIN_SOL_RESERVE"@),
{
    NumberTexts {
        trade_amount_sol: env.owned("TRADE_AMOUNT_SOL"),
        auto_sell_profit_pct: env.owned("AUTO_SELL_PROFIT_PCT"),
        slippage_pct: env.owned("SLIPPAGE_PCT"),
        priority_fee_sol: env.owned("PRIORITY_FEE_SOL"),
        min_sol_reserve: env.owned("MIN_SOL_RESERVE"),
    }
}

pub open spec fn double_or(n: Option<Double>, default_bits: u64) -> Double {
    match n {
        Some(d) => d,
        None => Double { bits: default_bits },
    }
}

fn or_default(n: Option<Double>, default_bits: u64) -> (r: Double)
    ensures
        r == double_or(n, default_bits),
{
    match n {
        Some(d) => d,
        None => Double { bits: default_bits },
    }
}

/// The settings that names stand for, each with its default.
pub open spec fn settings_in(env: Map<Seq<char>, Seq<char>>, n: HotNumbers) -> HotSettings {
    HotSettings {
        trade_amount_sol: double_or(n.trade_amount_sol, TRADE_AMOUNT_BITS),
        max_token_age_ms: unsigned_or(entry(env, "MAX_TOKEN_AGE_MS"@), MAX_TOKEN_AGE_DEFAULT),
        auto_sell_profit_pct: double_or(n.auto_sell_profit_pct, AUTO_SELL_PROFIT_BITS),
        slippage_pct: double_or(n.slippage_pct, SLIPPAGE_BITS),
        priority_fee_sol: double_or(n.priority_fee_sol, PRIORITY_FEE_BITS),
        mev_protection: bool_or(entry(env, "MEV_PROTECTION"@), MEV_PROTECTION_DEFAULT),
        pump_tokens_only: bool_or(entry(env, "PUMP_TOKENS_ONLY"@), PUMP_ONLY_DEFAULT),
        min_sol_reserve: double_or(n.min_sol_reserve, MIN_SOL_RESERVE_BITS),
    }
}

/// Whether auto-buy is on at the start.
pub open spec fn auto_buy_in(env: Map<Seq<char>, Seq<char>>) -> bool {
    bool_or(entry(env, "AUTO_BUY_NEW_TOKENS"@), AUTO_BUY_DEFAULT)
}

/// The auto-buy switch and the settings that names stand for. `numbers` is what
/// the texts of `number_texts` parse to.
pub fn hot_settings_from_map(env: &Env, numbers: &HotNumbers) -> (r: (bool, HotSettings))
    ensures
        r.0 == auto_buy_in(env@),
        r.1 == settings_in(env@, *numbers),
{
    let auto_buy = map_bool(env, "AUTO_BUY_NEW_TOKENS", AUTO_BUY_DEFAULT);
    let settings = HotSettings {
        trade_amount_sol: or_default(numbers.trade_amount_sol, TRADE_AMOUNT_BITS),
        max_token_age_ms: map_u64(env, "MAX_TOKEN_AGE_MS", MAX_TOKEN_AGE_DEFAULT),
        auto_sell_profit_pct: or_default(numbers.auto_sell_profit_pct, AUTO_SELL_PROFIT_BITS),
        slippage_pct: or_default(numbers.slippage_pct, SLIPPAGE_BITS),
        priority_fee_sol: or_default(numbers.priority_fee_sol, PRIORITY_FEE_BITS),
        mev_protection: map_bool(env, "MEV_PROTECTION", MEV_PROTECTION_DEFAULT),
        pump_tokens_only: map_bool(env, "PUMP_TOKENS_ONLY", PUMP_ONLY_DEFAULT),
        min_sol_reserve: or_default(numbers.min_sol_reserve, MIN_SOL_RESERVE_BITS),
    };
    (auto_buy, settings)
}

/// Why settings were refused.
#[derive(Clone, Copy, Debug, PartialEq, Eq, Structural)]
pub enum SettingsError {
    TradeAmount,
    Slippage,
    AutoSellProfit,
}

impl SettingsError {
    pub open spec fn text(self) -> Seq<char> {
        match self {
            SettingsError::TradeAmount => "TRADE_AMOUNT_SOL must be > 0"@,
            SettingsError::Slippage => "SLIPPAGE_PCT must be between 0 and 100"@,
            SettingsError::AutoSellProfit => "AUTO_SELL_PROFIT_PCT must be >= 0"@,
        }
    }

    /// The error in words.
    pub fn message(&self) -> (r: &'static str)
        ensures
            r@ == self.text(),
    {
        match self {
            SettingsError::TradeAmount => "TRADE_AMOUNT_SOL must be > 0",
            SettingsError::Slippage => "SLIPPAGE_PCT must be between 0 and 100",
            SettingsError::AutoSellProfit => "AUTO_SELL_PROFIT_PCT must be >= 0",
        }
    }
}

/// The first fault that the settings to start with have.
pub open spec fn settings_fault(s: HotSettings) -> Option<SettingsError> {
    let zero = Double::spec_zero();
    if s.trade_amount_sol.at_most(zero) {
        Some(SettingsError::TradeAmount)
    } else if s.slippage_pct.at_most(zero) || Double::spec_hundred().below(s.slippage_pct) {
        Some(SettingsError::Slippage)
    } else if s.auto_sell_profit_pct.below(zero) {
        Some(SettingsError::AutoSellProfit)
    } else {
        None
    }
}

/// Checks the settings to start with.
pub fn validate_settings(s: &HotSettings) -> (r: Result<(), SettingsError>)
    ensures
        match r {
            Ok(_) => settings_fault(*s) == None::<SettingsError>,
            Err(e) => settings_fault(*s) == Some(e),
        },
{
    let zero = Double::zero();
    if s.trade_amount_sol.le(&zero) {
        return Err(SettingsError::TradeAmount);
    }
    if s.slippage_pct.le(&zero) || Double::hundred().lt(&s.slippage_pct) {
        return Err(SettingsError::Slippage);
    }
    if s.auto_sell_profit_pct.lt(&zero) {
        return Err(SettingsError::AutoSellProfit);
    }
    Ok(())
}

/// What the sniper needs before it can start.
#[derive(Debug)]
pub struct Credentials {
    /// The bytes of the key pair.
    pub keypair: Vec<u8>,
    pub rpc_url: String,
    pub api_key: String,
}

/// Why the sniper cannot start.
#[derive(Debug)]
pub enum StartError {
    MissingPrivateKey,
    Key(KeyError),
    MissingRpcUrl,
    MissingApiKey,
}

/// What a start error holds.
pub enum StartErrorView {
    MissingPrivateKey,
    Key(KeyErrorView),
    MissingRpcUrl,
    MissingApiKey,
}

impl View for StartError {
    type V = StartErrorView;

    open spec fn view(&self) -> StartErrorView {
        match *self {
            StartError::MissingPrivateKey => StartErrorView::MissingPrivateKey,
            StartError::Key(e) => StartErrorView::Key(e@),
            StartError::MissingRpcUrl => StartErrorView::MissingRpcUrl,
            StartError::MissingApiKey => StartErrorView::MissingApiKey,
        }
    }
}

impl StartErrorView {
    pub open spec fn text(self) -> Seq<char> {
        match self {
            StartErrorView::MissingPrivateKey => "PRIVATE_KEY is missing from .env"@,
            StartErrorView::Key(e) => e.text(),
            StartErrorView::MissingRpcUrl => "RPC_URL or SOLANA_RPC_URL is missing from .env"@,
            StartErrorView::MissingApiKey =>
                "PUMPPORTAL_API_KEY is required for live auto-buy and auto-sell tracking"@,
        }
    }
}

impl StartError {
    /// The error in words.
    pub fn message(&self) -> (r: String)
        ensures
            r@ == self@.text(),
    {
        match self {
            StartError::MissingPrivateKey => "PRIVATE_KEY is missing from .env".to_owned(),
            StartError::Key(e) => e.message(),
            StartError::MissingRpcUrl => "RPC_URL or SOLANA_RPC_URL is missing from .env".to_owned(),
            StartError::MissingApiKey =>
                "PUMPPORTAL_API_KEY is required for live auto-buy and auto-sell tracking".to_owned(),
        }
    }
}

/// The endpoint: `RPC_URL`, or else `SOLANA_RPC_URL`.
pub open spec fn rpc_url_in(env: Map<Seq<char>, Seq<char>>) -> Option<Seq<char>> {
    match entry(env, "RPC_URL"@) {
        Some(u) => Some(u),
        None => entry(env, "SOLANA_RPC_URL"@),
    }
}

/// The first thing that keeps the sniper from starting: no private key, a
/// private key that cannot be read, no endpoint, no API key.
pub open spec fn start_fault(env: Map<Seq<char>, Seq<char>>) -> Option<StartErrorView> {
    match entry(env, "PRIVATE_KEY"@) {
        None => Some(StartErrorView::MissingPrivateKey),
        Some(key) => match keypair_from_text(key) {
            Err(e) => Some(StartErrorView::Key(e)),
            Ok(_) => if rpc_url_in(env) is None {
                Some(StartErrorView::MissingRpcUrl)
            } else if entry(env, "PUMPPORTAL_API_KEY"@) is None {
                Some(StartErrorView::MissingApiKey)
            } else {
                None
            },
        },
    }
}

/// Gathers what the sniper needs before it can start.
pub fn credentials(env: &Env) -> (r: Result<Credentials, StartError>)
    ensures
        match r {
            Ok(c) => {
                &&& start_fault(env@) == None::<StartErrorView>
                &&& keypair_from_text(env@["PRIVATE_KEY"@]) == Ok::<Seq<u8>, KeyErrorView>(c.keypair@)
                &&& c.keypair@.len() == KEYPAIR_BYTES
                &&& rpc_url_in(env@) == Some(c.rpc_url@)
                &&& entry(env@, "PUMPPORTAL_API_KEY"@) == Some(c.api_key@)
            },
            Err(e) => start_fault(env@) == Some(e@),
        },
{
    let keypair = match env.text("PRIVATE_KEY") {
        None => return Err(StartError::MissingPrivateKey),
        Some(key) => match load_keypair(key) {
            Err(e) => return Err(StartError::Key(e)),
            Ok(k) => k,
        },
    };
    let rpc_url = match env.owned("RPC_URL") {
        Some(u) => u,
        None => match env.owned("SOLANA_RPC_URL") {
            Some(u) => u,
            None => return Err(StartError::MissingRpcUrl),
        },
    };
    let api_key = match env.owned("PUMPPORTAL_API_KEY") {
        Some(k) => k,
        None => return Err(StartError::MissingApiKey),
    };
    Ok(Credentials { keypair, rpc_url, api_key })
}

impl HotSettings {
    /// Whether two settings are the same, field by field.
    pub open spec fn equals(self, other: HotSettings) -> bool {
        &&& self.trade_amount_sol.equals(other.trade_amount_sol)
        &&& self.max_token_age_ms == other.max_token_age_ms
        &&& self.auto_sell_profit_pct.equals(other.auto_sell_profit_pct)
        &&& self.slippage_pct.equals(other.slippage_pct)
        &&& self.priority_fee_sol.equals(other.priority_fee_sol)
        &&& self.mev_protection == other.mev_protection
        &&& self.pump_tokens_only == other.pump_tokens_only
        &&& self.min_sol_reserve.equals(other.min_sol_reserve)
    }

    /// Whether two settings are the same, field by field.
    pub fn same(&self, other: &HotSettings) -> (r: bool)
        ensures
            r == self.equals(*other),
    {
        self.trade_amount_sol.same(&other.trade_amount_sol) && self.max_token_age_ms == other.max_token_age_ms
            && self.auto_sell_profit_pct.same(&other.auto_sell_profit_pct) && self.slippage_pct.same(
            &other.slippage_pct,
        ) && self.priority_fee_sol.same(&other.priority_fee_sol) && self.mev_protection == other.mev_protection
            && self.pump_tokens_only == other.pump_tokens_only && self.min_sol_reserve.same(&other.min_sol_reserve)
    }

    /// The settings with every field taken from `file` that `file` has
    /// otherwise than `seen`.
    pub open spec fn updated(self, seen: HotSettings, file: HotSettings) -> HotSettings {
        HotSettings {
            trade_amount_sol: newer(self.trade_amount_sol, seen.trade_amount_sol, file.trade_amount_sol),
            max_token_age_ms: if file.max_token_age_ms == seen.max_token_age_ms {
                self.max_token_age_ms
            } else {
                file.max_token_age_ms
            },
            auto_sell_profit_pct: newer(
                self.auto_sell_profit_pct,
                seen.auto_sell_profit_pct,
                file.auto_sell_profit_pct,
            ),
            slippage_pct: newer(self.slippage_pct, seen.slippage_pct, file.slippage_pct),
            priority_fee_sol: newer(self.priority_fee_sol, seen.priority_fee_sol, file.priority_fee_sol),
            mev_protection: if file.mev_protection == seen.mev_protection {
                self.mev_protection
            } else {
                file.mev_protection
            },
            pump_tokens_only: if file.pump_tokens_only == seen.pump_tokens_only {
                self.pump_tokens_only
            } else {
                file.pump_tokens_only
            },
            min_sol_reserve: newer(self.min_sol_reserve, seen.min_sol_reserve, file.min_sol_reserve),
        }
    }

    fn update(&self, seen: &HotSettings, file: &HotSettings) -> (r: HotSettings)
        ensures
            r == self.updated(*seen, *file),
    {
        HotSettings {
            trade_amount_sol: pick(&self.trade_amount_sol, &seen.trade_amount_sol, &file.trade_amount_sol),
            max_token_age_ms: if file.max_token_age_ms == seen.max_token_age_ms {
                self.max_token_age_ms
            } else {
                file.max_token_age_ms
            },
            auto_sell_profit_pct: pick(
                &self.auto_sell_profit_pct,
                &seen.auto_sell_profit_pct,
                &file.auto_sell_profit_pct,
            ),
            slippage_pct: pick(&self.slippage_pct, &seen.slippage_pct, &file.slippage_pct),
            priority_fee_sol: pick(&self.priority_fee_sol, &seen.priority_fee_sol, &file.priority_fee_sol),
            mev_protection: if file.mev_protection == seen.mev_protection {
                self.mev_protection
            } else {
                file.mev_protection
            },
            pump_tokens_only: if file.pump_tokens_only == seen.pump_tokens_only {
                self.pump_tokens_only
            } else {
                file.pump_tokens_only
            },
            min_sol_reserve: pick(&self.min_sol_reserve, &seen.min_sol_reserve, &file.min_sol_reserve),
        }
    }
}

/// The value in force after the file was read again: the file's, where the file
/// changed it.
pub open spec fn newer(current: Double, seen: Double, file: Double) -> Double {
    if file.equals(seen) {
        current
    } else {
        file
    }
}

fn pick(current: &Double, seen: &Double, file: &Double) -> (r: Double)
    ensures
        r == newer(*current, *seen, *file),
{
    if file.same(seen) {
        *current
    } else {
        *file
    }
}

/// What the sniper last saw of its `.env` file.
#[derive(Clone, Copy, Debug)]
pub struct SettingsWatch {
    /// When the file was last written, where that could be told.
    pub modified: Option<i128>,
    pub auto_buy: bool,
    pub settings: HotSettings,
}

/// The settings in force.
#[derive(Clone, Copy, Debug)]
pub struct Live {
    pub auto_buy: bool,
    pub settings: HotSettings,
}

impl Live {
    /// The settings in force after the file was read again.
    pub open spec fn reloaded(self, seen: SettingsWatch, auto_buy: bool, settings: HotSettings) -> Live {
        Live {
            auto_buy: if auto_buy == seen.auto_buy {
                self.auto_buy
            } else {
                auto_buy
            },
            settings: self.settings.updated(seen.settings, settings),
        }
    }
}

pub open spec fn auto_buy_change(from: bool, to: bool) -> Seq<char> {
    "[SETTINGS] auto_buy: "@ + on_off_text(from) + " -> "@ + on_off_text(to) + " (.env changed)"@
}

/// What is said about the settings after the file was read again: nothing where
/// the file says what it said; else a line on the switch where it moved, and a
/// line on the rest where any of it did.
pub open spec fn reload_lines(unchanged: bool, before: Live, after: Live) -> Seq<Seq<char>> {
    let switch = if before.auto_buy != after.auto_buy {
        seq![auto_buy_change(before.auto_buy, after.auto_buy)]
    } else {
        seq![]
    };
    if unchanged {
        seq![]
    } else if after.settings.equals(before.settings) {
        switch
    } else {
        switch.push("[SETTINGS] trade parameters reloaded from .env"@)
    }
}

impl SettingsWatch {
    /// Whether the file still says what was last seen of it.
    pub open spec fn says(self, auto_buy: bool, settings: HotSettings) -> bool {
        auto_buy == self.auto_buy && settings.equals(self.settings)
    }
}

impl SettingsWatch {
    /// Whether a time of writing is news.
    pub open spec fn is_news(self, modified: i128) -> bool {
        self.modified != Some(modified)
    }

    /// Notes when the file was last written. Gives whether that is news.
    pub fn notice(&mut self, modified: i128) -> (r: bool)
        ensures
            r == old(self).is_news(modified),
            r == (old(self).modified != Some(modified)),
            *final(self) == (SettingsWatch { modified: Some(modified), ..*old(self) }),
    {
        let news = match self.modified {
            Some(m) => m != modified,
            None => true,
        };
        self.modified = Some(modified);
        news
    }

    /// Applies what the file says now: the values that changed in the file come
    /// into force, all others stay as they are. Gives the lines to log.
    pub fn reload(&mut self, live: &mut Live, auto_buy: bool, settings: &HotSettings) -> (r: Vec<String>)
        ensures
            *final(self) == (SettingsWatch { modified: old(self).modified, auto_buy, settings: *settings }),
            *final(live) == old(live).reloaded(*old(self), auto_buy, *settings),
            line_views(r@) == reload_lines(old(self).says(auto_buy, *settings), *old(live), *final(live)),
    {
        let mut lines: Vec<String> = Vec::new();
        let before = *live;
        let unchanged = auto_buy == self.auto_buy && settings.same(&self.settings);
        let switched = if auto_buy == self.auto_buy {
            before.auto_buy
        } else {
            auto_buy
        };
        let next = before.settings.update(&self.settings, settings);
        self.auto_buy = auto_buy;
        self.settings = *settings;
        if switched != before.auto_buy {
            let mut line = "[SETTINGS] auto_buy: ".to_owned();
            line.append(on_off(before.auto_buy));
            line.append(" -> ");
            line.append(on_off(switched));
            line.append(" (.env changed)");
            lines.push(line);
        }
        if !unchanged && !next.same(&before.settings) {
            lines.push("[SETTINGS] trade parameters reloaded from .env".to_owned());
        }
        live.auto_buy = switched;
        live.settings = next;
        proof {
            assert(line_views(lines@) =~= reload_lines(old(self).says(auto_buy, *settings), *old(live), *live));
        }
        lines
    }
}

/// What is said where there is no `.env` file to watch.
pub fn no_env_file(path: &str) -> (r: String)
    ensures
        r@ == "[SETTINGS] no .env file found at "@ + path@
            + " — live reload disabled, restart to apply changes"@,
{
    let mut s = "[SETTINGS] no .env file found at ".to_owned();
    s.append(path);
    s.append(" — live reload disabled, restart to apply changes");
    s
}

/// Reading a file again that says what it said changes nothing and says
/// nothing, so a switch by hand stays as it is.
pub proof fn unchanged_file_changes_nothing(live: Live, seen: SettingsWatch, auto_buy: bool, settings: HotSettings)
    requires
        seen.says(auto_buy, settings),
    ensures
        live.reloaded(seen, auto_buy, settings) == live,
        reload_lines(true, live, live.reloaded(seen, auto_buy, settings)) == Seq::<Seq<char>>::empty(),
{
}

/// A value that changed in the file is in force after the file was read again,
/// and a value that did not change in the file stays as it was.
pub proof fn only_changed_values_apply(live: Live, seen: SettingsWatch, auto_buy: bool, settings: HotSettings)
    ensures
        ({
            let after = live.reloaded(seen, auto_buy, settings);
            &&& after.auto_buy == if auto_buy == seen.auto_buy {
                live.auto_buy
            } else {
                auto_buy
            }
            &&& after.settings.trade_amount_sol == if settings.trade_amount_sol.equals(seen.settings.trade_amount_sol) {
                live.settings.trade_amount_sol
            } else {
                settings.trade_amount_sol
            }
            &&& after.settings.max_token_age_ms == if settings.max_token_age_ms == seen.settings.max_token_age_ms {
                live.settings.max_token_age_ms
            } else {
                settings.max_token_age_ms
            }
            &&& after.settings.auto_sell_profit_pct == if settings.auto_sell_profit_pct.equals(seen.settings.auto_sell_profit_pct) {
                live.settings.auto_sell_profit_pct
            } else {
                settings.auto_sell_profit_pct
            }
            &&& after.settings.slippage_pct == if settings.slippage_pct.equals(seen.settings.slippage_pct) {
                live.settings.slippage_pct
            } else {
                settings.slippage_pct
            }
            &&& after.settings.priority_fee_sol == if settings.priority_fee_sol.equals(seen.settings.priority_fee_sol) {
                live.settings.priority_fee_sol
            } else {
                settings.priority_fee_sol
            }
            &&& after.settings.mev_protection == if settings.mev_protection == seen.settings.mev_protection {
                live.settings.mev_protection
            } else {
                settings.mev_protection
            }
            &&& after.settings.pump_tokens_only == if settings.pump_tokens_only == seen.settings.pump_tokens_only {
                live.settings.pump_tokens_only
            } else {
                settings.pump_tokens_only
            }
            &&& after.settings.min_sol_reserve == if settings.min_sol_reserve.equals(seen.settings.min_sol_reserve) {
                live.settings.min_sol_reserve
            } else {
                settings.min_sol_reserve
            }
        }),
{
}

/// A later line for a name takes the place of an earlier one, and lines for
/// other names do not touch it.
pub proof fn last_line_for_a_name_wins(lines: Seq<Seq<char>>, line: Seq<char>, name: Seq<char>)
    ensures
        entry(lines_set(lines.push(line)), name) == match line_entry(line) {
            Some((n, text)) if n == name => Some(text),
            _ => entry(lines_set(lines), name),
        },
{
    assert(lines.push(line).drop_last() =~= lines);
}

/// Settings that were accepted have a trade amount above zero, a slippage above
/// zero and up to 100, and no negative profit target, unless they are no numbers
/// at all.
pub proof fn accepted_settings_are_in_range(s: HotSettings)
    requires
        settings_fault(s) is None,
    ensures
        s.trade_amount_sol.is_nan() || Double::spec_zero().below(s.trade_amount_sol),
        s.slippage_pct.is_nan() || Double::spec_zero().below(s.slippage_pct),
        s.slippage_pct.is_nan() || s.slippage_pct.at_most(Double::spec_hundred()),
        s.auto_sell_profit_pct.is_nan() || Double::spec_zero().at_most(s.auto_sell_profit_pct),
{
}

/// A line sets something exactly where it is no comment and has an equals sign: the
/// name before the first one, and the text behind it without its quotation marks.
/// White space around either does not count.
pub proof fn a_line_sets_what_stands_at_its_equals_sign(line: Seq<char>, left: Seq<char>, right: Seq<char>)
    ensures
        trim(line) == left + seq!['='] + right && (forall|k: int| 0 <= k < left.len() ==> #[trigger] left[k] != '=')
            && trim(line)[0] != '#' ==> line_entry(line) == Some((trim(left), unquoted(trim(right)))),
        trim(line).len() == 0 ==> line_entry(line) is None,
        trim(line).len() > 0 && trim(line)[0] == '#' ==> line_entry(line) is None,
        (forall|k: int| 0 <= k < trim(line).len() ==> #[trigger] trim(line)[k] != '=') ==> line_entry(line) is None,
{
    let t = trim(line);
    first_index_is_the_first(t, '=');
    let i = first_index(t, '=') as int;
    if t == left + seq!['='] + right && (forall|k: int| 0 <= k < left.len() ==> #[trigger] left[k] != '=') {
        assert(t[left.len() as int] == '=');
        assert(i <= left.len());
        if i < left.len() {
            assert(t[i] == left[i]);
        }
        assert(t.take(i) =~= left);
        assert(t.skip(i + 1) =~= right);
    }
}

/// A name set to a text is read back as that name with that text, bare or between
/// quotation marks of either kind, and with any white space around the line.
pub proof fn a_setting_is_read_back(name: Seq<char>, text: Seq<char>, mark: char, before: Seq<char>, behind: Seq<char>)
    requires
        name.len() > 0,
        !is_space(name[0]) && !is_space(name.last()) && name[0] != '#',
        forall|k: int| 0 <= k < name.len() ==> #[trigger] name[k] != '=',
        mark == '"' || mark == '\'',
        forall|k: int| 0 <= k < before.len() ==> is_space(#[trigger] before[k]),
        forall|k: int| 0 <= k < behind.len() ==> is_space(#[trigger] behind[k]),
    ensures
        line_entry(before + (name + seq!['='] + (seq![mark] + text + seq![mark])) + behind) == Some((name, text)),
        text.len() > 0 && !is_space(text[0]) && !is_space(text.last()) && text[0] != '"' && text[0] != '\'' ==> line_entry(
            before + (name + seq!['='] + text) + behind,
        ) == Some((name, text)),
{
    let quoted_text = seq![mark] + text + seq![mark];
    let a = name + seq!['='] + quoted_text;
    assert(quoted_text.subrange(1, quoted_text.len() - 1) =~= text);
    assert(quoted_text[0] == mark && quoted_text.last() == mark);
    assert(a[0] == name[0] && a.last() == mark);
    white_space_is_listed(mark);
    a_trimmed_text_is_left_whole(name);
    a_trimmed_text_is_left_whole(a);
    a_trimmed_text_is_left_whole(quoted_text);
    white_space_around_does_not_count(before, a, behind);
    a_line_sets_what_stands_at_its_equals_sign(before + a + behind, name, quoted_text);
    if text.len() > 0 && !is_space(text[0]) && !is_space(text.last()) && text[0] != '"' && text[0] != '\'' {
        let b = name + seq!['='] + text;
        assert(b[0] == name[0] && b.last() == text.last());
        a_trimmed_text_is_left_whole(text);
        a_trimmed_text_is_left_whole(b);
        white_space_around_does_not_count(before, b, behind);
        a_line_sets_what_stands_at_its_equals_sign(before + b + behind, name, text);
    }
}

/// One pair of matching quotation marks around a text is taken off, and nothing
/// else.
pub proof fn only_matching_marks_are_taken_off(v: Seq<char>, text: Seq<char>, mark: char)
    ensures
        mark == '"' || mark == '\'' ==> unquoted(seq![mark] + text + seq![mark]) == text,
        v.len() < 2 ==> unquoted(v) == v,
        v.len() > 0 && v[0] != v.last() ==> unquoted(v) == v,
        v.len() > 0 && v[0] != '"' && v[0] != '\'' ==> unquoted(v) == v,
{
    let q = seq![mark] + text + seq![mark];
    assert(q.subrange(1, q.len() - 1) =~= text);
    assert(q[0] == mark && q.last() == mark);
}

/// A file sets what its lines set, from the first to the last: an empty file nothing,
/// and one more line at the end what that line sets over what was set before.
pub proof fn a_file_is_read_line_by_line(contents: Seq<char>, line: Seq<char>, name: Seq<char>)
    requires
        forall|k: int| 0 <= k < line.len() ==> #[trigger] line[k] != '\n',
    ensures
        entry(file_sets(Seq::empty()), name) is None,
        entry(file_sets(contents + seq!['\n'] + line), name) == match line_entry(line) {
            Some((n, text)) if n == name => Some(text),
            _ => entry(file_sets(contents), name),
        },
        entry(file_sets(line), name) == match line_entry(line) {
            Some((n, text)) if n == name => Some(text),
            _ => None,
        },
{
    one_more_line_is_one_more_piece(contents, line);
    one_more_line_is_one_more_piece(contents, Seq::empty());
    last_line_for_a_name_wins(pieces(contents), line, name);
    let none = Seq::<Seq<char>>::empty();
    assert(none.push(line) =~= seq![line]);
    assert(none.push(Seq::<char>::empty()) =~= seq![Seq::<char>::empty()]);
    last_line_for_a_name_wins(none, line, name);
    last_line_for_a_name_wins(none, Seq::empty(), name);
    assert(trim(Seq::<char>::empty()).len() == 0) by {
        a_trimmed_text_is_left_whole(Seq::empty());
    }
}

/// What a name stands for counts where it can be read, and the default where it
/// cannot or where there is nothing.
pub proof fn defaults_stand_in_for_what_cannot_be_read(text: Seq<char>, b: bool, n: u64, d: Double, bits: u64)
    ensures
        bool_or(None, b) == b,
        bool_or(Some("true"@), b) == true,
        bool_or(Some("false"@), b) == false,
        text != "true"@ && text != "false"@ ==> bool_or(Some(text), b) == b,
        unsigned_or(None, n) == n,
        unsigned_of(text) is None ==> unsigned_or(Some(text), n) == n,
        unsigned_of(text) is Some ==> Some(unsigned_or(Some(text), n)) == unsigned_of(text),
        double_or(Some(d), bits) == d,
        double_or(None, bits).bits == bits,
{
    only_two_words_are_truth_values("true"@);
    only_two_words_are_truth_values("false"@);
    only_two_words_are_truth_values(text);
}

/// Each setting comes from its own name, and from no other, with its own default:
/// 0.03 SOL a trade, a second of age, 25 percent of profit and of slippage, 0.0002 SOL
/// of priority fee, no protection, pump tokens only, and 0.01 SOL of reserve. Auto-buy
/// is on unless it is turned off.
pub proof fn each_setting_has_its_name_and_default(env: Map<Seq<char>, Seq<char>>, n: HotNumbers)
    ensures
        ({
            let s = settings_in(env, n);
            &&& s.trade_amount_sol == double_or(n.trade_amount_sol, 0x3f9e_b851_eb85_1eb8)
            &&& s.max_token_age_ms == unsigned_or(entry(env, "MAX_TOKEN_AGE_MS"@), 1_000)
            &&& s.auto_sell_profit_pct == double_or(n.auto_sell_profit_pct, 0x4039_0000_0000_0000)
            &&& s.slippage_pct == double_or(n.slippage_pct, 0x4039_0000_0000_0000)
            &&& s.priority_fee_sol == double_or(n.priority_fee_sol, 0x3f2a_36e2_eb1c_432d)
            &&& s.mev_protection == bool_or(entry(env, "MEV_PROTECTION"@), false)
            &&& s.pump_tokens_only == bool_or(entry(env, "PUMP_TOKENS_ONLY"@), true)
            &&& s.min_sol_reserve == double_or(n.min_sol_reserve, 0x3f84_7ae1_47ae_147b)
        }),
        auto_buy_in(env) == bool_or(entry(env, "AUTO_BUY_NEW_TOKENS"@), true),
{
}

/// Settings are refused exactly for a trade amount of zero or less, else for a
/// slippage that is not above zero and up to a hundred, else for a profit target
/// below zero. Nothing else is a fault.
pub proof fn settings_are_refused_for_three_reasons(s: HotSettings)
    ensures
        ({
            let amount = s.trade_amount_sol.at_most(Double::spec_zero());
            let slippage = s.slippage_pct.at_most(Double::spec_zero()) || Double::spec_hundred().below(s.slippage_pct);
            let profit = s.auto_sell_profit_pct.below(Double::spec_zero());
            &&& settings_fault(s) == Some(SettingsError::TradeAmount) <==> amount
            &&& settings_fault(s) == Some(SettingsError::Slippage) <==> !amount && slippage
            &&& settings_fault(s) == Some(SettingsError::AutoSellProfit) <==> !amount && !slippage && profit
            &&& settings_fault(s) is None <==> !amount && !slippage && !profit
        }),
        SettingsError::TradeAmount.text() == "TRADE_AMOUNT_SOL must be > 0"@,
        SettingsError::Slippage.text() == "SLIPPAGE_PCT must be between 0 and 100"@,
        SettingsError::AutoSellProfit.text() == "AUTO_SELL_PROFIT_PCT must be >= 0"@,
{
}

/// The sniper starts exactly where there is a private key that can be read, an
/// endpoint and an API key; what is missing is named in that order. The endpoint is
/// `RPC_URL`, and only without it `SOLANA_RPC_URL`.
pub proof fn a_start_needs_key_endpoint_and_api_key(env: Map<Seq<char>, Seq<char>>)
    ensures
        ({
            let key = env.contains_key("PRIVATE_KEY"@);
            let read = key && keypair_from_text(env["PRIVATE_KEY"@]) is Ok;
            let url = env.contains_key("RPC_URL"@) || env.contains_key("SOLANA_RPC_URL"@);
            let api = env.contains_key("PUMPPORTAL_API_KEY"@);
            &&& start_fault(env) is None <==> read && url && api
            &&& !key ==> start_fault(env) == Some(StartErrorView::MissingPrivateKey)
            &&& key && !read ==> start_fault(env) == Some(
                StartErrorView::Key(keypair_from_text(env["PRIVATE_KEY"@])->Err_0),
            )
            &&& read && !url ==> start_fault(env) == Some(StartErrorView::MissingRpcUrl)
            &&& read && url && !api ==> start_fault(env) == Some(StartErrorView::MissingApiKey)
        }),
        env.contains_key("RPC_URL"@) ==> rpc_url_in(env) == Some(env["RPC_URL"@]),
        !env.contains_key("RPC_URL"@) && env.contains_key("SOLANA_RPC_URL"@) ==> rpc_url_in(env) == Some(
            env["SOLANA_RPC_URL"@],
        ),
        !env.contains_key("RPC_URL"@) && !env.contains_key("SOLANA_RPC_URL"@) ==> rpc_url_in(env) is None,
{
}

/// What keeps the sniper from starting is said in words.
pub proof fn start_errors_name_what_is_missing(e: KeyErrorView)
    ensures
        StartErrorView::MissingPrivateKey.text() == "PRIVATE_KEY is missing from .env"@,
        StartErrorView::Key(e).text() == e.text(),
        StartErrorView::MissingRpcUrl.text() == "RPC_URL or SOLANA_RPC_URL is missing from .env"@,
        StartErrorView::MissingApiKey.text()
            == "PUMPPORTAL_API_KEY is required for live auto-buy and auto-sell tracking"@,
{
}

/// Two settings are the same exactly where every one of them is, and a file says
/// what it said exactly where the switch and all of them are.
pub proof fn settings_are_compared_one_by_one(a: HotSettings, b: HotSettings, seen: SettingsWatch, auto_buy: bool)
    ensures
        a.equals(b) <==> a.trade_amount_sol.equals(b.trade_amount_sol) && a.max_token_age_ms == b.max_token_age_ms
            && a.auto_sell_profit_pct.equals(b.auto_sell_profit_pct) && a.slippage_pct.equals(b.slippage_pct)
            && a.priority_fee_sol.equals(b.priority_fee_sol) && a.mev_protection == b.mev_protection
            && a.pump_tokens_only == b.pump_tokens_only && a.min_sol_reserve.equals(b.min_sol_reserve),
        seen.says(auto_buy, a) <==> auto_buy == seen.auto_buy && a.equals(seen.settings),
{
}

/// After the file was read again there is a line on the switch exactly where it
/// moved, and then one on the rest exactly where any of it did; a file that says what
/// it said is passed over in silence.
pub proof fn what_changed_is_said(before: Live, after: Live)
    ensures
        reload_lines(true, before, after).len() == 0,
        ({
            let lines = reload_lines(false, before, after);
            let moved = before.auto_buy != after.auto_buy;
            let other = !after.settings.equals(before.settings);
            &&& lines.len() == (if moved {
                1int
            } else {
                0
            }) + (if other {
                1int
            } else {
                0
            })
            &&& moved && after.auto_buy ==> lines[0] == "[SETTINGS] auto_buy: "@ + "OFF"@ + " -> "@ + "ON"@
                + " (.env changed)"@
            &&& moved && !after.auto_buy ==> lines[0] == "[SETTINGS] auto_buy: "@ + "ON"@ + " -> "@ + "OFF"@
                + " (.env changed)"@
            &&& other ==> lines.last() == "[SETTINGS] trade parameters reloaded from .env"@
        }),
{
}

/// The texts of the fractions are those of their own names, as they stand, and missing
/// exactly where the name is.
pub proof fn fractions_are_read_under_their_names(t: NumberTexts, env: Map<Seq<char>, Seq<char>>)
    requires
        t.are_of(env),
    ensures
        t.trade_amount_sol is Some <==> env.contains_key("TRADE_AMOUNT_SOL"@),
        t.trade_amount_sol is Some ==> t.trade_amount_sol->0@ == env["TRADE_AMOUNT_SOL"@],
        t.auto_sell_profit_pct is Some <==> env.contains_key("AUTO_SELL_PROFIT_PCT"@),
        t.auto_sell_profit_pct is Some ==> t.auto_sell_profit_pct->0@ == env["AUTO_SELL_PROFIT_PCT"@],
        t.slippage_pct is Some <==> env.contains_key("SLIPPAGE_PCT"@),
        t.slippage_pct is Some ==> t.slippage_pct->0@ == env["SLIPPAGE_PCT"@],
        t.priority_fee_sol is Some <==> env.contains_key("PRIORITY_FEE_SOL"@),
        t.priority_fee_sol is Some ==> t.priority_fee_sol->0@ == env["PRIORITY_FEE_SOL"@],
        t.min_sol_reserve is Some <==> env.contains_key("MIN_SOL_RESERVE"@),
        t.min_sol_reserve is Some ==> t.min_sol_reserve->0@ == env["MIN_SOL_RESERVE"@],
{
}

/// A time of writing is news exactly where it is not the one last noted.
pub proof fn only_another_time_is_news(seen: SettingsWatch, modified: i128)
    ensures
        seen.modified is None ==> seen.is_news(modified),
        seen.modified is Some ==> (seen.is_news(modified) <==> seen.modified->0 != modified),
        !(SettingsWatch { modified: Some(modified), ..seen }).is_news(modified),
{
}

} // verus!
