//! What the desktop bot knows: open positions, trades, detections and its log.

use crate::clock::{self, is_clock_face};
use crate::double::Double;
use vstd::prelude::*;
use vstd::string::*;

verus! {

/// Log lines that are kept.
pub const LOG_LIMIT: usize = 500;

/// Detections that are kept.
pub const WATCHED_LIMIT: usize = 300;

/// An open position.
#[derive(Debug)]
pub struct Position {
    pub mint: String,
    pub symbol: String,
    pub name: String,
    pub entry_price_sol: Double,
    pub token_amount: Double,
    pub sol_spent: Double,
    pub opened_at: i64,
    pub current_price_sol: Double,
    pub dev_holder_pct_at_entry: Double,
}

/// A trade that was made, or would have been made in dry-run mode.
#[derive(Debug)]
pub struct TradeRecord {
    pub mint: String,
    pub symbol: String,
    /// `buy` or `sell`.
    pub side: String,
    pub sol_amount: Double,
    pub token_amount: Double,
    pub price_sol: Double,
    /// Network fee, priority fee and platform fee, in SOL.
    pub fees_sol: Double,
    pub tx_signature: Option<String>,
    pub timestamp: i64,
    /// `manual`, `take_profit`, `stop_loss`, `max_hold` or `dry_run`.
    pub reason: String,
    pub dry_run: bool,
}

/// A token that was detected.
#[derive(Debug)]
pub struct WatchedToken {
    pub mint: String,
    pub symbol: String,
    pub name: String,
    pub detected_at: i64,
    pub dev_holder_pct: Option<Double>,
    /// Why the bot did not buy the token, where it did not.
    pub skipped_reason: Option<String>,
    pub bought: bool,
}

/// The state that the bot's tasks and its window share.
#[derive(Debug)]
pub struct AppState {
    pub running: bool,
    pub dry_run: bool,
    pub sol_balance: Double,
    pub gbp_per_sol: Double,
    pub total_spent_sol: Double,
    pub daily_realized_pnl_sol: Double,
    pub day_start_timestamp: i64,
    pub positions: Vec<Position>,
    pub history: Vec<TradeRecord>,
    /// Most recent detections first.
    pub watched: Vec<WatchedToken>,
    pub log: Vec<String>,
}

/// What a position holds.
pub struct PositionView {
    pub mint: Seq<char>,
    pub symbol: Seq<char>,
    pub name: Seq<char>,
    pub entry_price_sol: Double,
    pub token_amount: Double,
    pub sol_spent: Double,
    pub opened_at: i64,
    pub current_price_sol: Double,
    pub dev_holder_pct_at_entry: Double,
}

/// What a trade record holds.
pub struct TradeView {
    pub mint: Seq<char>,
    pub symbol: Seq<char>,
    pub side: Seq<char>,
    pub sol_amount: Double,
    pub token_amount: Double,
    pub price_sol: Double,
    pub fees_sol: Double,
    pub tx_signature: Option<Seq<char>>,
    pub timestamp: i64,
    pub reason: Seq<char>,
    pub dry_run: bool,
}

/// What a detection holds.
pub struct WatchedView {
    pub mint: Seq<char>,
    pub symbol: Seq<char>,
    pub name: Seq<char>,
    pub detected_at: i64,
    pub dev_holder_pct: Option<Double>,
    pub skipped_reason: Option<Seq<char>>,
    pub bought: bool,
}

/// What the shared state holds.
#[verifier::ext_equal]
pub struct StateView {
    pub running: bool,
    pub dry_run: bool,
    pub sol_balance: Double,
    pub gbp_per_sol: Double,
    pub total_spent_sol: Double,
    pub daily_realized_pnl_sol: Double,
    pub day_start_timestamp: i64,
    pub positions: Seq<PositionView>,
    pub history: Seq<TradeView>,
    pub watched: Seq<WatchedView>,
    pub log: Seq<Seq<char>>,
}

/// The characters of an optional text.
pub open spec fn optional_text(s: Option<String>) -> Option<Seq<char>> {
    match s {
        Some(t) => Some(t@),
        None => None,
    }
}

impl View for Position {
    type V = PositionView;

    open spec fn view(&self) -> PositionView {
        PositionView {
            mint: self.mint@,
            symbol: self.symbol@,
            name: self.name@,
            entry_price_sol: self.entry_price_sol,
            token_amount: self.token_amount,
            sol_spent: self.sol_spent,
            opened_at: self.opened_at,
            current_price_sol: self.current_price_sol,
            dev_holder_pct_at_entry: self.dev_holder_pct_at_entry,
        }
    }
}

impl View for TradeRecord {
    type V = TradeView;

    open spec fn view(&self) -> TradeView {
        TradeView {
            mint: self.mint@,
            symbol: self.symbol@,
            side: self.side@,
            sol_amount: self.sol_amount,
            token_amount: self.token_amount,
            price_sol: self.price_sol,
            fees_sol: self.fees_sol,
            tx_signature: optional_text(self.tx_signature),
            timestamp: self.timestamp,
            reason: self.reason@,
            dry_run: self.dry_run,
        }
    }
}

impl View for WatchedToken {
    type V = WatchedView;

    open spec fn view(&self) -> WatchedView {
        WatchedView {
            mint: self.mint@,
            symbol: self.symbol@,
            name: self.name@,
            detected_at: self.detected_at,
            dev_holder_pct: self.dev_holder_pct,
            skipped_reason: optional_text(self.skipped_reason),
            bought: self.bought,
        }
    }
}

pub open spec fn position_views(v: Seq<Position>) -> Seq<PositionView> {
    v.map_values(|p: Position| p@)
}

pub open spec fn trade_views(v: Seq<TradeRecord>) -> Seq<TradeView> {
    v.map_values(|t: TradeRecord| t@)
}

pub open spec fn watched_views(v: Seq<WatchedToken>) -> Seq<WatchedView> {
    v.map_values(|w: WatchedToken| w@)
}

pub open spec fn line_views(v: Seq<String>) -> Seq<Seq<char>> {
    v.map_values(|s: String| s@)
}

impl View for AppState {
    type V = StateView;

    open spec fn view(&self) -> StateView {
        StateView {
            running: self.running,
            dry_run: self.dry_run,
            sol_balance: self.sol_balance,
            gbp_per_sol: self.gbp_per_sol,
            total_spent_sol: self.total_spent_sol,
            daily_realized_pnl_sol: self.daily_realized_pnl_sol,
            day_start_timestamp: self.day_start_timestamp,
            positions: position_views(self.positions@),
            history: trade_views(self.history@),
            watched: watched_views(self.watched@),
            log: line_views(self.log@),
        }
    }
}

/// A log line: the time of day in brackets, a blank, the message.
pub open spec fn stamped(stamp: Seq<char>, msg: Seq<char>) -> Seq<char> {
    "["@ + stamp + "] "@ + msg
}

/// The newest `limit` of the entries.
pub open spec fn newest<A>(entries: Seq<A>, limit: nat) -> Seq<A> {
    if entries.len() > limit {
        entries.skip(entries.len() - limit)
    } else {
        entries
    }
}

impl StateView {
    /// The state with a line added to its log.
    pub open spec fn logged(self, stamp: Seq<char>, msg: Seq<char>) -> StateView {
        StateView { log: newest(self.log.push(stamped(stamp, msg)), LOG_LIMIT as nat), ..self }
    }

    /// The state with a detection put in front of the others.
    pub open spec fn noticed(self, token: WatchedView) -> StateView {
        let all = seq![token] + self.watched;
        StateView {
            watched: if all.len() > WATCHED_LIMIT {
                all.take(WATCHED_LIMIT as int)
            } else {
                all
            },
            ..self
        }
    }

    /// The state that a session starts with.
    pub open spec fn fresh(dry_run: bool, day_start_timestamp: i64) -> StateView {
        StateView {
            running: false,
            dry_run,
            sol_balance: Double::spec_zero(),
            gbp_per_sol: Double::spec_zero(),
            total_spent_sol: Double::spec_zero(),
            daily_realized_pnl_sol: Double::spec_zero(),
            day_start_timestamp,
            positions: Seq::empty(),
            history: Seq::empty(),
            watched: Seq::empty(),
            log: Seq::empty(),
        }
    }
}

impl Position {
    /// Unrealized gain in percent. `change_pct` is the price change since entry
    /// as a percentage of the entry price; without a positive entry price the
    /// gain is zero.
    pub fn unrealized_pct(&self, change_pct: Double) -> (pct: Double)
        ensures
            pct == if self.entry_price_sol.at_most(Double::spec_zero()) {
                Double::spec_zero()
            } else {
                change_pct
            },
    {
        if self.entry_price_sol.le(&Double::zero()) {
            return Double::zero();
        }
        change_pct
    }

    /// Seconds from the opening of the position to `now`.
    pub fn age_at(&self, now: i64) -> (age: i64)
        requires
            i64::MIN <= now - self.opened_at <= i64::MAX,
        ensures
            age == now - self.opened_at,
    {
        now - self.opened_at
    }

    /// Seconds since the opening of the position.
    pub fn age_seconds(&self) -> (age: i64)
        requires
            self.opened_at >= clock::LAST_SECOND - i64::MAX,
        ensures
            -self.opened_at <= age <= clock::LAST_SECOND - self.opened_at,
            exists|now: i64| #[trigger] clock::is_moment(now) && age == now - self.opened_at,
    {
        let now: i64 = clock::now();
        self.age_at(now)
    }

    /// A copy of the position.
    pub fn copy(&self) -> (r: Position)
        ensures
            r@ == self@,
    {
        Position {
            mint: self.mint.clone(),
            symbol: self.symbol.clone(),
            name: self.name.clone(),
            entry_price_sol: self.entry_price_sol,
            token_amount: self.token_amount,
            sol_spent: self.sol_spent,
            opened_at: self.opened_at,
            current_price_sol: self.current_price_sol,
            dev_holder_pct_at_entry: self.dev_holder_pct_at_entry,
        }
    }
}

fn copy_optional_text(s: &Option<String>) -> (r: Option<String>)
    ensures
        optional_text(r) == optional_text(*s),
{
    match s {
        Some(t) => Some(t.clone()),
        None => None,
    }
}

impl TradeRecord {
    /// A copy of the record.
    pub fn copy(&self) -> (r: TradeRecord)
        ensures
            r@ == self@,
    {
        TradeRecord {
            mint: self.mint.clone(),
            symbol: self.symbol.clone(),
            side: self.side.clone(),
            sol_amount: self.sol_amount,
            token_amount: self.token_amount,
            price_sol: self.price_sol,
            fees_sol: self.fees_sol,
            tx_signature: copy_optional_text(&self.tx_signature),
            timestamp: self.timestamp,
            reason: self.reason.clone(),
            dry_run: self.dry_run,
        }
    }
}

impl WatchedToken {
    /// A copy of the detection.
    pub fn copy(&self) -> (r: WatchedToken)
        ensures
            r@ == self@,
    {
        WatchedToken {
            mint: self.mint.clone(),
            symbol: self.symbol.clone(),
            name: self.name.clone(),
            detected_at: self.detected_at,
            dev_holder_pct: self.dev_holder_pct,
            skipped_reason: copy_optional_text(&self.skipped_reason),
            bought: self.bought,
        }
    }
}

impl Default for WatchedToken {
    fn default() -> (r: WatchedToken)
        ensures
            r@ == (WatchedView {
                mint: Seq::empty(),
                symbol: Seq::empty(),
                name: Seq::empty(),
                detected_at: 0,
                dev_holder_pct: None,
                skipped_reason: None,
                bought: false,
            }),
    {
        WatchedToken {
            mint: String::new(),
            symbol: String::new(),
            name: String::new(),
            detected_at: 0,
            dev_holder_pct: None,
            skipped_reason: None,
            bought: false,
        }
    }
}

impl Default for AppState {
    fn default() -> (r: AppState)
        ensures
            r@ == StateView::fresh(true, r.day_start_timestamp),
            0 <= r.day_start_timestamp <= clock::LAST_SECOND,
            clock::is_moment(r.day_start_timestamp),
    {
        new_state_at(true, clock::now())
    }
}

/// The state of a session that starts at `now`.
pub fn new_state_at(dry_run: bool, now: i64) -> (r: AppState)
    ensures
        r@ == StateView::fresh(dry_run, now),
{
    let r = AppState {
        running: false,
        dry_run,
        sol_balance: Double::zero(),
        gbp_per_sol: Double::zero(),
        total_spent_sol: Double::zero(),
        daily_realized_pnl_sol: Double::zero(),
        day_start_timestamp: now,
        positions: Vec::new(),
        history: Vec::new(),
        watched: Vec::new(),
        log: Vec::new(),
    };
    proof {
        assert(r@ =~= StateView::fresh(dry_run, now));
    }
    r
}

/// The state of a session that starts now.
pub fn new_shared_state(dry_run: bool) -> (r: AppState)
    ensures
        r@ == StateView::fresh(dry_run, r.day_start_timestamp),
        0 <= r.day_start_timestamp <= clock::LAST_SECOND,
        clock::is_moment(r.day_start_timestamp),
{
    let mut s = AppState::default();
    s.dry_run = dry_run;
    s
}

impl AppState {
    /// Adds a line to the log under the time of day `stamp`, and lets the
    /// oldest lines go beyond the limit.
    pub fn push_log_at(&mut self, stamp: &str, msg: &str)
        ensures
            final(self)@ == old(self)@.logged(stamp@, msg@),
    {
        let mut line = "[".to_owned();
        line.append(stamp);
        line.append("] ");
        line.append(msg);
        let ghost before = self.log@;
        self.log.push(line);
        let n: usize = self.log.len();
        if n > LOG_LIMIT {
            let kept = self.log.split_off(n - LOG_LIMIT);
            self.log = kept;
        }
        proof {
            let all = line_views(before.push(line));
            assert(all =~= line_views(before).push(stamped(stamp@, msg@)));
            assert(line_views(self.log@) =~= newest(all, LOG_LIMIT as nat));
            assert(self@ =~= old(self)@.logged(stamp@, msg@));
        }
    }

    /// Adds a line to the log under the current time of day.
    pub fn push_log(&mut self, msg: &str)
        ensures
            exists|stamp: Seq<char>|
                is_clock_face(stamp) && final(self)@ == #[trigger] old(self)@.logged(stamp, msg@),
    {
        let stamp = clock::log_stamp();
        self.push_log_at(stamp.as_str(), msg);
    }

    /// Puts a detection in front of the others, and lets the oldest go beyond
    /// the limit.
    pub fn push_watched(&mut self, token: WatchedToken)
        ensures
            final(self)@ == old(self)@.noticed(token@),
    {
        let ghost before = self.watched@;
        self.watched.insert(0, token);
        if self.watched.len() > WATCHED_LIMIT {
            self.watched.truncate(WATCHED_LIMIT);
        }
        proof {
            let all = seq![token@] + watched_views(before);
            assert(watched_views(before.insert(0, token)) =~= all);
            if all.len() > WATCHED_LIMIT {
                assert(watched_views(self.watched@) =~= all.take(WATCHED_LIMIT as int));
            }
            assert(self@ =~= old(self)@.noticed(token@));
        }
    }
}

/// The log never outgrows its limit, its newest line is the one just written,
/// and every line that is kept keeps its text and its order.
pub proof fn log_keeps_newest_lines(s: StateView, stamp: Seq<char>, msg: Seq<char>)
    ensures
        s.logged(stamp, msg).log.len() <= 500,
        s.logged(stamp, msg).log.last() == stamped(stamp, msg),
        s.log.len() < 500 ==> s.logged(stamp, msg).log.drop_last() == s.log,
        s.log.len() >= 500 ==> s.logged(stamp, msg).log.len() == 500,
        forall|i: int|
            0 <= i < s.logged(stamp, msg).log.len() - 1 ==> #[trigger] s.logged(stamp, msg).log[i]
                == s.log[s.log.len() + 1 - s.logged(stamp, msg).log.len() + i],
{
    assert(s.log.len() < 500 ==> s.log.push(stamped(stamp, msg)).drop_last() =~= s.log);
}

/// The detections never outgrow their limit, the newest stands first, and the
/// others follow in the order in which they stood.
pub proof fn detections_stand_newest_first(s: StateView, token: WatchedView)
    ensures
        s.noticed(token).watched.len() <= 300,
        s.noticed(token).watched[0] == token,
        forall|i: int| 1 <= i < s.noticed(token).watched.len() ==> #[trigger] s.noticed(token).watched[i] == s.watched[i - 1],
        s.watched.len() < 300 ==> s.noticed(token).watched.len() == s.watched.len() + 1,
        s.watched.len() >= 300 ==> s.noticed(token).watched.len() == 300,
{
}

/// A line in the log is the time of day in brackets and the message, whatever the
/// message is. Writing one touches nothing but the log, and noting a detection
/// nothing but the list of detections.
pub proof fn a_note_touches_one_list(s: StateView, stamp: Seq<char>, msg: Seq<char>, token: WatchedView)
    ensures
        stamped(stamp, msg) == "["@ + stamp + "] "@ + msg,
        (StateView { log: s.log, ..s.logged(stamp, msg) }) == s,
        (StateView { watched: s.watched, ..s.noticed(token) }) == s,
{
}

/// A session starts stopped, in the mode that it is given, on the day that it is
/// given, with nothing in it.
pub proof fn a_session_starts_empty(dry_run: bool, day_start_timestamp: i64)
    ensures
        ({
            let s = StateView::fresh(dry_run, day_start_timestamp);
            &&& !s.running && s.dry_run == dry_run && s.day_start_timestamp == day_start_timestamp
            &&& s.positions.len() == 0 && s.history.len() == 0 && s.watched.len() == 0 && s.log.len() == 0
            &&& s.sol_balance.bits == 0 && s.gbp_per_sol.bits == 0
            &&& s.total_spent_sol.bits == 0 && s.daily_realized_pnl_sol.bits == 0
        }),
{
}

/// Nothing of a position, a record or a detection is left out of sight, and none of the
/// lists is.
pub proof fn everything_is_in_sight(p: Position, t: TradeRecord, w: WatchedToken, s: AppState, i: int)
    ensures
        p@.mint == p.mint@ && p@.symbol == p.symbol@ && p@.name == p.name@,
        p@.entry_price_sol == p.entry_price_sol && p@.token_amount == p.token_amount && p@.sol_spent == p.sol_spent,
        p@.opened_at == p.opened_at && p@.current_price_sol == p.current_price_sol,
        p@.dev_holder_pct_at_entry == p.dev_holder_pct_at_entry,
        t@.mint == t.mint@ && t@.symbol == t.symbol@ && t@.side == t.side@ && t@.reason == t.reason@,
        t@.sol_amount == t.sol_amount && t@.token_amount == t.token_amount && t@.price_sol == t.price_sol,
        t@.fees_sol == t.fees_sol && t@.timestamp == t.timestamp && t@.dry_run == t.dry_run,
        t@.tx_signature is Some <==> t.tx_signature is Some,
        t.tx_signature is Some ==> t@.tx_signature->0 == t.tx_signature->0@,
        w@.mint == w.mint@ && w@.symbol == w.symbol@ && w@.name == w.name@ && w@.detected_at == w.detected_at,
        w@.dev_holder_pct == w.dev_holder_pct && w@.bought == w.bought,
        w@.skipped_reason is Some <==> w.skipped_reason is Some,
        w.skipped_reason is Some ==> w@.skipped_reason->0 == w.skipped_reason->0@,
        s@.running == s.running && s@.dry_run == s.dry_run && s@.sol_balance == s.sol_balance,
        s@.gbp_per_sol == s.gbp_per_sol && s@.total_spent_sol == s.total_spent_sol,
        s@.daily_realized_pnl_sol == s.daily_realized_pnl_sol && s@.day_start_timestamp == s.day_start_timestamp,
        s@.positions.len() == s.positions@.len() && s@.history.len() == s.history@.len(),
        s@.watched.len() == s.watched@.len() && s@.log.len() == s.log@.len(),
        0 <= i < s.positions@.len() ==> s@.positions[i] == s.positions@[i]@,
        0 <= i < s.history@.len() ==> s@.history[i] == s.history@[i]@,
        0 <= i < s.watched@.len() ==> s@.watched[i] == s.watched@[i]@,
        0 <= i < s.log@.len() ==> s@.log[i] == s.log@[i]@,
{
}

} // verus!
