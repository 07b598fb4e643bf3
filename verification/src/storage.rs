//! What the desktop bot keeps between sessions.

use crate::clock::{self, same_day};
use crate::double::Double;
use crate::state::{
    position_views, trade_views, watched_views, AppState, Position, PositionView, StateView, TradeRecord, TradeView,
    WatchedToken, WatchedView,
};
use vstd::prelude::*;
use vstd::string::*;

verus! {

/// The file that is kept.
pub const STORE_PATH: &'static str = "pumpsniper_data.json";

/// What is kept.
#[derive(Debug)]
pub struct PersistedData {
    pub positions: Vec<Position>,
    pub history: Vec<TradeRecord>,
    pub watched: Vec<WatchedToken>,
    pub total_spent_sol: Double,
    pub daily_realized_pnl_sol: Double,
    pub day_start_timestamp: i64,
}

/// What is kept, as plain values.
#[verifier::ext_equal]
pub struct PersistedView {
    pub positions: Seq<PositionView>,
    pub history: Seq<TradeView>,
    pub watched: Seq<WatchedView>,
    pub total_spent_sol: Double,
    pub daily_realized_pnl_sol: Double,
    pub day_start_timestamp: i64,
}

impl View for PersistedData {
    type V = PersistedView;

    open spec fn view(&self) -> PersistedView {
        PersistedView {
            positions: position_views(self.positions@),
            history: trade_views(self.history@),
            watched: watched_views(self.watched@),
            total_spent_sol: self.total_spent_sol,
            daily_realized_pnl_sol: self.daily_realized_pnl_sol,
            day_start_timestamp: self.day_start_timestamp,
        }
    }
}

/// Whether a stored time belongs to the day of `now`; a time off the calendar
/// does.
pub open spec fn of_today(stored: i64, now: i64) -> bool {
    clock::on_calendar(stored as int) ==> clock::day_of(stored as int) == clock::day_of(now as int)
}

/// The state with what was kept in it. The day's profit or loss carries over
/// within the day that it was counted on, else the count starts afresh.
pub open spec fn restored(s: StateView, d: PersistedView, now: i64) -> StateView {
    StateView {
        positions: d.positions,
        history: d.history,
        watched: d.watched,
        total_spent_sol: d.total_spent_sol,
        daily_realized_pnl_sol: if of_today(d.day_start_timestamp, now) {
            d.daily_realized_pnl_sol
        } else {
            Double::spec_zero()
        },
        day_start_timestamp: if of_today(d.day_start_timestamp, now) {
            d.day_start_timestamp
        } else {
            now
        },
        ..s
    }
}

/// Puts what was kept into a state at `now`.
pub fn load_at(state: &mut AppState, data: PersistedData, now: i64)
    requires
        clock::on_calendar(now as int),
    ensures
        final(state)@ == restored(old(state)@, data@, now),
{
    state.positions = data.positions;
    state.history = data.history;
    state.watched = data.watched;
    state.total_spent_sol = data.total_spent_sol;
    if same_day(data.day_start_timestamp, now) {
        state.daily_realized_pnl_sol = data.daily_realized_pnl_sol;
        state.day_start_timestamp = data.day_start_timestamp;
    } else {
        state.daily_realized_pnl_sol = Double::zero();
        state.day_start_timestamp = now;
    }
}

/// Puts what was kept into a state now.
pub fn load_into(state: &mut AppState, data: PersistedData)
    ensures
        exists|now: i64|
            clock::is_moment(now) && 0 <= now <= clock::LAST_SECOND && final(state)@ == #[trigger] restored(
                old(state)@,
                data@,
                now,
            ),
{
    let now: i64 = clock::now();
    load_at(state, data, now);
}

/// What is kept of a state.
pub open spec fn kept(s: StateView) -> PersistedView {
    PersistedView {
        positions: s.positions,
        history: s.history,
        watched: s.watched,
        total_spent_sol: s.total_spent_sol,
        daily_realized_pnl_sol: s.daily_realized_pnl_sol,
        day_start_timestamp: s.day_start_timestamp,
    }
}

fn copy_positions(v: &Vec<Position>) -> (r: Vec<Position>)
    ensures
        position_views(r@) == position_views(v@),
{
    let mut out: Vec<Position> = Vec::new();
    let n: usize = v.len();
    let mut i: usize = 0;
    while i < n
        invariant
            n == v@.len(),
            i <= n,
            out@.len() == i,
            forall|k: int| 0 <= k < i ==> (#[trigger] out@[k])@ == v@[k]@,
        decreases n - i,
    {
        out.push(v[i].copy());
        i += 1;
    }
    proof {
        assert(position_views(out@) =~= position_views(v@));
    }
    out
}

fn copy_history(v: &Vec<TradeRecord>) -> (r: Vec<TradeRecord>)
    ensures
        trade_views(r@) == trade_views(v@),
{
    let mut out: Vec<TradeRecord> = Vec::new();
    let n: usize = v.len();
    let mut i: usize = 0;
    while i < n
        invariant
            n == v@.len(),
            i <= n,
            out@.len() == i,
            forall|k: int| 0 <= k < i ==> (#[trigger] out@[k])@ == v@[k]@,
        decreases n - i,
    {
        out.push(v[i].copy());
        i += 1;
    }
    proof {
        assert(trade_views(out@) =~= trade_views(v@));
    }
    out
}

fn copy_watched(v: &Vec<WatchedToken>) -> (r: Vec<WatchedToken>)
    ensures
        watched_views(r@) == watched_views(v@),
{
    let mut out: Vec<WatchedToken> = Vec::new();
    let n: usize = v.len();
    let mut i: usize = 0;
    while i < n
        invariant
            n == v@.len(),
            i <= n,
            out@.len() == i,
            forall|k: int| 0 <= k < i ==> (#[trigger] out@[k])@ == v@[k]@,
        decreases n - i,
    {
        out.push(v[i].copy());
        i += 1;
    }
    proof {
        assert(watched_views(out@) =~= watched_views(v@));
    }
    out
}

/// What is kept of a state.
pub fn save_from(state: &AppState) -> (r: PersistedData)
    ensures
        r@ == kept(state@),
{
    PersistedData {
        positions: copy_positions(&state.positions),
        history: copy_history(&state.history),
        watched: copy_watched(&state.watched),
        total_spent_sol: state.total_spent_sol,
        daily_realized_pnl_sol: state.daily_realized_pnl_sol,
        day_start_timestamp: state.day_start_timestamp,
    }
}

/// Puts a line about a save that failed in the log.
pub fn autosave_failed(state: &mut AppState, stamp: &str, e: &str)
    ensures
        final(state)@ == old(state)@.logged(stamp@, "autosave failed: "@ + e@),
{
    let mut msg = "autosave failed: ".to_owned();
    msg.append(e);
    state.push_log_at(stamp, msg.as_str());
}

/// What is kept and loaded again on the same day is what was there: everything
/// that is kept comes back, and loading keeps the rest of the state.
pub proof fn loading_undoes_saving(s: StateView, fresh: StateView, now: i64)
    requires
        of_today(s.day_start_timestamp, now),
    ensures
        kept(restored(fresh, kept(s), now)) == kept(s),
        restored(s, kept(s), now) == s,
        restored(fresh, kept(s), now).running == fresh.running,
        restored(fresh, kept(s), now).dry_run == fresh.dry_run,
        restored(fresh, kept(s), now).log == fresh.log,
{
}

/// On another day the positions, the history and what was spent come back, and
/// the day's profit or loss starts at zero from that moment.
pub proof fn a_new_day_starts_at_zero(s: StateView, fresh: StateView, now: i64)
    requires
        !of_today(s.day_start_timestamp, now),
    ensures
        restored(fresh, kept(s), now).positions == s.positions,
        restored(fresh, kept(s), now).history == s.history,
        restored(fresh, kept(s), now).watched == s.watched,
        restored(fresh, kept(s), now).total_spent_sol == s.total_spent_sol,
        restored(fresh, kept(s), now).daily_realized_pnl_sol == Double::spec_zero(),
        restored(fresh, kept(s), now).day_start_timestamp == now,
{
}

/// Loading leaves a state whose day is today's, so that loading it again at the
/// same moment changes nothing.
pub proof fn loading_twice_changes_nothing(s: StateView, d: PersistedView, now: i64)
    ensures
        of_today(restored(s, d, now).day_start_timestamp, now),
        restored(restored(s, d, now), kept(restored(s, d, now)), now) == restored(s, d, now),
{
}

/// A stored day is today's exactly where both times fall between the same two
/// midnights; a time that is on no calendar counts as today's.
pub proof fn a_stored_day_ends_at_midnight(stored: i64, now: i64)
    ensures
        -8_334_601_228_800 <= stored <= 8_210_266_876_799 ==> (of_today(stored, now) <==> stored as int / 86_400
            == now as int / 86_400),
        stored < -8_334_601_228_800 || stored > 8_210_266_876_799 ==> of_today(stored, now),
{
}

/// What was kept comes back as it was, on any day; only the day's result depends on
/// the day. What is not kept stays as the session has it.
pub proof fn what_was_kept_comes_back(s: StateView, d: PersistedView, now: i64)
    ensures
        ({
            let after = restored(s, d, now);
            &&& after.positions == d.positions && after.history == d.history && after.watched == d.watched
            &&& after.total_spent_sol == d.total_spent_sol
            &&& of_today(d.day_start_timestamp, now) ==> after.daily_realized_pnl_sol == d.daily_realized_pnl_sol
                && after.day_start_timestamp == d.day_start_timestamp
            &&& !of_today(d.day_start_timestamp, now) ==> after.daily_realized_pnl_sol.bits == 0
                && after.day_start_timestamp == now
            &&& after.running == s.running && after.dry_run == s.dry_run && after.log == s.log
            &&& after.sol_balance == s.sol_balance && after.gbp_per_sol == s.gbp_per_sol
        }),
{
}

/// Everything that a trade leaves behind is kept.
pub proof fn trades_are_kept(s: StateView)
    ensures
        kept(s).positions == s.positions && kept(s).history == s.history && kept(s).watched == s.watched,
        kept(s).total_spent_sol == s.total_spent_sol,
        kept(s).daily_realized_pnl_sol == s.daily_realized_pnl_sol,
        kept(s).day_start_timestamp == s.day_start_timestamp,
{
}

/// Nothing of what was kept is left out of sight.
pub proof fn what_was_kept_is_in_sight(d: PersistedData, i: int)
    ensures
        d@.positions.len() == d.positions@.len() && d@.history.len() == d.history@.len() && d@.watched.len()
            == d.watched@.len(),
        0 <= i < d.positions@.len() ==> d@.positions[i] == d.positions@[i]@,
        0 <= i < d.history@.len() ==> d@.history[i] == d.history@[i]@,
        0 <= i < d.watched@.len() ==> d@.watched[i] == d.watched@[i]@,
        d@.total_spent_sol == d.total_spent_sol,
        d@.daily_realized_pnl_sol == d.daily_realized_pnl_sol,
        d@.day_start_timestamp == d.day_start_timestamp,
{
}

} // verus!
