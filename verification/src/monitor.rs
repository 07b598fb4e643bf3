//! New tokens in the desktop bot: the filters that a token passes before it is
//! bought.

use crate::config::{Config, ConfigView};
use crate::double::Double;
use crate::risk::{is_legacy_spl_token, legacy_token_program};
use crate::state::{AppState, StateView, WatchedToken, WatchedView};
use crate::trade::{purchased, Fill, Purchase};
use crate::wallet::{address, address_text};
use vstd::prelude::*;
use vstd::string::*;

verus! {

/// A token that was just detected.
#[derive(Debug)]
pub struct Detection {
    pub mint: String,
    pub symbol: String,
    pub name: String,
    pub detected_at: i64,
}

impl Detection {
    /// The detection of a mint.
    pub fn of_mint(mint: [u8; 32], symbol: String, name: String, detected_at: i64) -> (d: Detection)
        ensures
            d.mint@ == address_text(mint@),
            d.symbol@ == symbol@,
            d.name@ == name@,
            d.detected_at == detected_at,
    {
        Detection { mint: address(mint), symbol, name, detected_at }
    }
}

/// A detection as the list of detections has it.
pub open spec fn entry(d: Detection, dev_pct: Option<Double>, reason: Option<Seq<char>>) -> WatchedView {
    WatchedView {
        mint: d.mint@,
        symbol: d.symbol@,
        name: d.name@,
        detected_at: d.detected_at,
        dev_holder_pct: dev_pct,
        skipped_reason: reason,
        bought: reason is None,
    }
}

fn note(state: &mut AppState, d: &Detection, dev_pct: Option<Double>, reason: Option<&str>)
    ensures
        final(state)@ == old(state)@.noticed(
            entry(
                *d,
                dev_pct,
                match reason {
                    Some(s) => Some(s@),
                    None => None,
                },
            ),
        ),
{
    let token = WatchedToken {
        mint: d.mint.clone(),
        symbol: d.symbol.clone(),
        name: d.name.clone(),
        detected_at: d.detected_at,
        dev_holder_pct: dev_pct,
        skipped_reason: match reason {
            Some(s) => Some(s.to_owned()),
            None => None,
        },
        bought: reason.is_none(),
    };
    state.push_watched(token);
}

/// Why a token is skipped before anything is asked about it: the bot is
/// stopped, or the purchase would go beyond the cap.
pub open spec fn early_reason(running: bool, c: ConfigView, spent_after: Double) -> Option<Seq<char>> {
    if !running {
        Some("bot is stopped"@)
    } else if !spent_after.at_most(c.max_total_sol_cap) {
        Some("max SOL cap reached"@)
    } else {
        None
    }
}

/// The filters before anything is asked about a token. `spent_after` is what would
/// be spent in all with this purchase. Gives whether the token goes on to the
/// next filter.
fn early_filters(state: &mut AppState, cfg: &Config, d: &Detection, spent_after: Double) -> (r: bool)
    ensures
        r == (early_reason(old(state)@.running, cfg@, spent_after) is None),
        final(state)@ == if r {
            old(state)@
        } else {
            old(state)@.noticed(entry(*d, None, early_reason(old(state)@.running, cfg@, spent_after)))
        },
{
    if !state.running {
        note(state, d, None, Some("bot is stopped"));
        return false;
    }
    if !spent_after.le(&cfg.max_total_sol_cap) {
        note(state, d, None, Some("max SOL cap reached"));
        return false;
    }
    true
}

/// Why a token is skipped for the owner of its mint: it is not the legacy token
/// program, or it could not be told.
pub open spec fn program_reason(owner: Result<Seq<u8>, Seq<char>>) -> Option<Seq<char>> {
    match owner {
        Ok(o) => if o == legacy_token_program() {
            None
        } else {
            Some("Token-2022 mint (unsupported)"@)
        },
        Err(_) => Some("could not check token program (skipped for safety)"@),
    }
}

/// The state with a failed check in the log.
pub open spec fn check_logged<T>(
    s: StateView,
    stamp: Seq<char>,
    what: Seq<char>,
    symbol: Seq<char>,
    answer: Result<T, Seq<char>>,
) -> StateView {
    match answer {
        Ok(_) => s,
        Err(e) => s.logged(stamp, what + symbol + ": "@ + e),
    }
}

pub open spec fn owner_view(owner: Result<[u8; 32], &str>) -> Result<Seq<u8>, Seq<char>> {
    match owner {
        Ok(o) => Ok(o@),
        Err(e) => Err(e@),
    }
}

fn log_failure(state: &mut AppState, stamp: &str, what: &str, symbol: &str, e: &str)
    ensures
        final(state)@ == old(state)@.logged(stamp@, what@ + symbol@ + ": "@ + e@),
{
    let mut msg = what.to_owned();
    msg.append(symbol);
    msg.append(": ");
    msg.append(e);
    state.push_log_at(stamp, msg.as_str());
}

/// The filter on the owner of the mint. Gives whether the token goes on to the
/// next filter.
fn program_filter(state: &mut AppState, stamp: &str, d: &Detection, owner: Result<[u8; 32], &str>) -> (r: bool)
    ensures
        r == (program_reason(owner_view(owner)) is None),
        final(state)@ == if r {
            old(state)@
        } else {
            check_logged(old(state)@, stamp@, "token-program check failed for "@, d.symbol@, owner_view(owner)).noticed(
                entry(*d, None, program_reason(owner_view(owner))),
            )
        },
{
    match owner {
        Ok(o) => {
            if is_legacy_spl_token(&o) {
                return true;
            }
            note(state, d, None, Some("Token-2022 mint (unsupported)"));
            false
        },
        Err(e) => {
            log_failure(state, stamp, "token-program check failed for ", d.symbol.as_str(), e);
            note(state, d, None, Some("could not check token program (skipped for safety)"));
            false
        },
    }
}

/// Why a token is skipped for what its creator holds. `held` and `limit` are the
/// two percentages with one decimal.
pub open spec fn holder_reason(
    c: ConfigView,
    dev_pct: Result<Double, Seq<char>>,
    held: Seq<char>,
    limit: Seq<char>,
) -> Option<Seq<char>> {
    match dev_pct {
        Err(_) => Some("dev-holder check failed (skipped for safety)"@),
        Ok(pct) => if c.max_dev_holder_pct.below(pct) {
            Some("dev holds "@ + held + "% (limit "@ + limit + "%)"@)
        } else {
            None
        },
    }
}

pub open spec fn pct_view(dev_pct: Result<Double, &str>) -> Result<Double, Seq<char>> {
    match dev_pct {
        Ok(p) => Ok(p),
        Err(e) => Err(e@),
    }
}

/// The last filter: what the creator holds. Notes the token either way, and gives
/// whether it is bought.
fn holder_filter(
    state: &mut AppState,
    stamp: &str,
    cfg: &Config,
    d: &Detection,
    dev_pct: Result<Double, &str>,
    held: &str,
    limit: &str,
) -> (r: bool)
    ensures
        r == (holder_reason(cfg@, pct_view(dev_pct), held@, limit@) is None),
        final(state)@ == check_logged(
            old(state)@,
            stamp@,
            "dev-holder check failed for "@,
            d.symbol@,
            pct_view(dev_pct),
        ).noticed(
            entry(
                *d,
                match dev_pct {
                    Ok(p) => Some(p),
                    Err(_) => None,
                },
                holder_reason(cfg@, pct_view(dev_pct), held@, limit@),
            ),
        ),
{
    match dev_pct {
        Err(e) => {
            log_failure(state, stamp, "dev-holder check failed for ", d.symbol.as_str(), e);
            note(state, d, None, Some("dev-holder check failed (skipped for safety)"));
            false
        },
        Ok(pct) => {
            if cfg.max_dev_holder_pct.lt(&pct) {
                let mut reason = "dev holds ".to_owned();
                reason.append(held);
                reason.append("% (limit ");
                reason.append(limit);
                reason.append("%)");
                note(state, d, Some(pct), Some(reason.as_str()));
                return false;
            }
            note(state, d, Some(pct), None);
            true
        },
    }
}

/// Whether a token passes every filter.
pub open spec fn passes(
    running: bool,
    c: ConfigView,
    spent_after: Double,
    owner: Result<Seq<u8>, Seq<char>>,
    dev_pct: Result<Double, Seq<char>>,
    held: Seq<char>,
    limit: Seq<char>,
) -> bool {
    &&& early_reason(running, c, spent_after) is None
    &&& program_reason(owner) is None
    &&& holder_reason(c, dev_pct, held, limit) is None
}

/// What became known about a new token.
pub enum TokenEvent<'a> {
    /// It was detected. `spent_after` is what would be spent in all with it.
    Detected { spent_after: Double },
    /// The owner of its mint, or why that could not be told.
    Owner(Result<[u8; 32], &'a str>),
    /// What its creator holds in percent, or why that could not be told; `held`
    /// and `limit` are the two percentages with one decimal.
    Holder { dev_pct: Result<Double, &'a str>, held: &'a str, limit: &'a str },
}

/// What is done about a new token next.
#[derive(Clone, Copy, Debug, PartialEq, Eq, Structural)]
pub enum TokenStep {
    /// Nothing: it is skipped.
    Skip,
    /// The owner of its mint is asked for.
    AskOwner,
    /// What its creator holds is asked for.
    AskHolder,
    /// It is bought.
    Buy,
}

/// Why a token is skipped for what became known.
pub open spec fn skip_reason(running: bool, c: ConfigView, e: TokenEvent) -> Option<Seq<char>> {
    match e {
        TokenEvent::Detected { spent_after } => early_reason(running, c, spent_after),
        TokenEvent::Owner(owner) => program_reason(owner_view(owner)),
        TokenEvent::Holder { dev_pct, held, limit } => holder_reason(c, pct_view(dev_pct), held@, limit@),
    }
}

/// What is done about a token that is not skipped.
pub open spec fn next_step(e: TokenEvent) -> TokenStep {
    match e {
        TokenEvent::Detected { .. } => TokenStep::AskOwner,
        TokenEvent::Owner(_) => TokenStep::AskHolder,
        TokenEvent::Holder { .. } => TokenStep::Buy,
    }
}

/// The state with what became known in its log, where that was a failure.
pub open spec fn event_logged(s: StateView, stamp: Seq<char>, d: Detection, e: TokenEvent) -> StateView {
    match e {
        TokenEvent::Detected { .. } => s,
        TokenEvent::Owner(owner) => check_logged(
            s,
            stamp,
            "token-program check failed for "@,
            d.symbol@,
            owner_view(owner),
        ),
        TokenEvent::Holder { dev_pct, .. } => check_logged(
            s,
            stamp,
            "dev-holder check failed for "@,
            d.symbol@,
            pct_view(dev_pct),
        ),
    }
}

/// What is known of the creator's share.
pub open spec fn known_share(e: TokenEvent) -> Option<Double> {
    match e {
        TokenEvent::Holder { dev_pct: Ok(p), .. } => Some(p),
        _ => None,
    }
}

/// What is done about a token once something became known of it.
pub open spec fn token_step(running: bool, c: ConfigView, e: TokenEvent) -> TokenStep {
    if skip_reason(running, c, e) is Some {
        TokenStep::Skip
    } else {
        next_step(e)
    }
}

/// The state once something became known of a token.
pub open spec fn event_taken(s: StateView, stamp: Seq<char>, c: ConfigView, d: Detection, e: TokenEvent) -> StateView {
    if skip_reason(s.running, c, e) is Some || next_step(e) == TokenStep::Buy {
        event_logged(s, stamp, d, e).noticed(entry(d, known_share(e), skip_reason(s.running, c, e)))
    } else {
        s
    }
}

/// Takes what became known about a new token into the state. A token that is
/// skipped or bought is listed; one that goes on to the next question is not
/// listed yet.
pub fn handle_new_token(state: &mut AppState, stamp: &str, cfg: &Config, d: &Detection, event: TokenEvent) -> (r:
    TokenStep)
    ensures
        r == if skip_reason(old(state)@.running, cfg@, event) is Some {
            TokenStep::Skip
        } else {
            next_step(event)
        },
        final(state)@ == if r == TokenStep::Skip || r == TokenStep::Buy {
            event_logged(old(state)@, stamp@, *d, event).noticed(
                entry(*d, known_share(event), skip_reason(old(state)@.running, cfg@, event)),
            )
        } else {
            old(state)@
        },
        r == token_step(old(state)@.running, cfg@, event),
        final(state)@ == event_taken(old(state)@, stamp@, cfg@, *d, event),
{
    match event {
        TokenEvent::Detected { spent_after } => if early_filters(state, cfg, d, spent_after) {
            TokenStep::AskOwner
        } else {
            TokenStep::Skip
        },
        TokenEvent::Owner(owner) => if program_filter(state, stamp, d, owner) {
            TokenStep::AskHolder
        } else {
            TokenStep::Skip
        },
        TokenEvent::Holder { dev_pct, held, limit } => if holder_filter(state, stamp, cfg, d, dev_pct, held, limit) {
            TokenStep::Buy
        } else {
            TokenStep::Skip
        },
    }
}

/// Puts a line about the event stream in the log: an event that could not be
/// read.
pub fn stream_error(state: &mut AppState, stamp: &str, e: &str)
    ensures
        final(state)@ == old(state)@.logged(stamp@, "event stream parse error: "@ + e@),
{
    let mut msg = "event stream parse error: ".to_owned();
    msg.append(e);
    state.push_log_at(stamp, msg.as_str());
}

/// Puts a line about the event stream in the log: it is connected.
pub fn stream_connected(state: &mut AppState, stamp: &str)
    ensures
        final(state)@ == old(state)@.logged(stamp@, "Connected - watching pump.fun for new tokens."@),
{
    state.push_log_at(stamp, "Connected - watching pump.fun for new tokens.");
}

/// Puts a line about the event stream in the log: it is over.
pub fn stream_ended(state: &mut AppState, stamp: &str, e: &str)
    ensures
        final(state)@ == old(state)@.logged(stamp@, "monitor task ended with error: "@ + e@),
{
    let mut msg = "monitor task ended with error: ".to_owned();
    msg.append(e);
    state.push_log_at(stamp, msg.as_str());
}

/// A token is bought only while the bot runs, within the cap, from the legacy
/// token program, and with a creator who holds no more than the limit: exactly
/// then none of the three events on its way gives a reason to skip it. What
/// cannot be checked is not bought.
pub proof fn purchases_pass_every_filter(
    running: bool,
    c: ConfigView,
    spent_after: Double,
    owner: Result<[u8; 32], &str>,
    dev_pct: Result<Double, &str>,
    held: &str,
    limit: &str,
)
    ensures
        passes(running, c, spent_after, owner_view(owner), pct_view(dev_pct), held@, limit@) <==> {
            &&& skip_reason(running, c, TokenEvent::Detected { spent_after }) is None
            &&& skip_reason(running, c, TokenEvent::Owner(owner)) is None
            &&& skip_reason(running, c, TokenEvent::Holder { dev_pct, held, limit }) is None
        },
        passes(running, c, spent_after, owner_view(owner), pct_view(dev_pct), held@, limit@) <==> {
            &&& running
            &&& spent_after.at_most(c.max_total_sol_cap)
            &&& owner_view(owner) == Ok::<Seq<u8>, Seq<char>>(legacy_token_program())
            &&& dev_pct is Ok
            &&& !c.max_dev_holder_pct.below(dev_pct->Ok_0)
        },
{
}

/// A token that was detected is listed as bought or with the reason why it was
/// not, never both and never neither.
pub proof fn detections_are_bought_or_explained(d: Detection, dev_pct: Option<Double>, reason: Option<Seq<char>>)
    ensures
        entry(d, dev_pct, reason).bought <==> entry(d, dev_pct, reason).skipped_reason is None,
{
}

/// What is spent stays within the cap: a purchase that passed the filters with
/// what would be spent in all, and that is recorded with it, leaves no more
/// spent than the cap.
pub proof fn spending_stays_within_the_cap(
    s: StateView,
    c: ConfigView,
    spent_after: Double,
    p: Purchase,
    f: Fill,
    signature: Option<Seq<char>>,
)
    requires
        skip_reason(s.running, c, TokenEvent::Detected { spent_after }) is None,
        f.total_spent == spent_after,
    ensures
        purchased(s, p, f, signature).total_spent_sol.at_most(c.max_total_sol_cap),
{
}

/// A detection goes on exactly while the bot runs and the purchase stays within
/// the cap. A stopped bot is the reason before the cap is. Nothing else counts.
pub proof fn a_detection_goes_on_within_the_cap(running: bool, c: ConfigView, spent_after: Double)
    ensures
        ({
            let e = TokenEvent::Detected { spent_after };
            &&& token_step(running, c, e) == if running && spent_after.at_most(c.max_total_sol_cap) {
                TokenStep::AskOwner
            } else {
                TokenStep::Skip
            }
            &&& !running ==> skip_reason(running, c, e) == Some("bot is stopped"@)
            &&& running && !spent_after.at_most(c.max_total_sol_cap) ==> skip_reason(running, c, e) == Some(
                "max SOL cap reached"@,
            )
            &&& running && spent_after.at_most(c.max_total_sol_cap) ==> skip_reason(running, c, e) is None
        }),
{
}

/// A token goes on from the check of its owner exactly where the owner is the
/// legacy token program, whatever the settings are and whether or not the bot
/// still runs. An owner that could not be told is a reason of its own.
pub proof fn only_legacy_tokens_go_on(running: bool, c: ConfigView, owner: [u8; 32], error: &str)
    ensures
        token_step(running, c, TokenEvent::Owner(Ok(owner))) == if owner@ == legacy_token_program() {
            TokenStep::AskHolder
        } else {
            TokenStep::Skip
        },
        token_step(running, c, TokenEvent::Owner(Err(error))) == TokenStep::Skip,
        owner@ == legacy_token_program() ==> skip_reason(running, c, TokenEvent::Owner(Ok(owner))) is None,
        owner@ != legacy_token_program() ==> skip_reason(running, c, TokenEvent::Owner(Ok(owner))) == Some(
            "Token-2022 mint (unsupported)"@,
        ),
        skip_reason(running, c, TokenEvent::Owner(Err(error))) == Some(
            "could not check token program (skipped for safety)"@,
        ),
{
}

/// A token is bought exactly where its creator's share is known and not above the
/// limit. A share above it is named together with the limit.
pub proof fn only_shares_within_the_limit_are_bought(
    running: bool,
    c: ConfigView,
    pct: Double,
    error: &str,
    held: &str,
    limit: &str,
)
    ensures
        token_step(running, c, TokenEvent::Holder { dev_pct: Ok(pct), held, limit })
            == if c.max_dev_holder_pct.below(pct) {
            TokenStep::Skip
        } else {
            TokenStep::Buy
        },
        token_step(running, c, TokenEvent::Holder { dev_pct: Err(error), held, limit }) == TokenStep::Skip,
        c.max_dev_holder_pct.below(pct) ==> skip_reason(
            running,
            c,
            TokenEvent::Holder { dev_pct: Ok(pct), held, limit },
        ) == Some("dev holds "@ + held@ + "% (limit "@ + limit@ + "%)"@),
        !c.max_dev_holder_pct.below(pct) ==> skip_reason(
            running,
            c,
            TokenEvent::Holder { dev_pct: Ok(pct), held, limit },
        ) is None,
        skip_reason(running, c, TokenEvent::Holder { dev_pct: Err(error), held, limit }) == Some(
            "dev-holder check failed (skipped for safety)"@,
        ),
{
}

/// A token on its way to the next question leaves the state as it was. One that
/// is skipped or bought is put at the head of the list, as itself, with what is
/// known of its creator's share; apart from that only the log changes, and only
/// where a check failed.
pub proof fn a_settled_token_is_listed(s: StateView, stamp: Seq<char>, c: ConfigView, d: Detection, e: TokenEvent)
    ensures
        ({
            let step = token_step(s.running, c, e);
            let after = event_taken(s, stamp, c, d, e);
            let w = after.watched[0];
            let failed = match e {
                TokenEvent::Detected { .. } => false,
                TokenEvent::Owner(owner) => owner is Err,
                TokenEvent::Holder { dev_pct, .. } => dev_pct is Err,
            };
            &&& step == TokenStep::AskOwner || step == TokenStep::AskHolder ==> after == s
            &&& step == TokenStep::Skip || step == TokenStep::Buy ==> {
                &&& w.mint == d.mint@ && w.symbol == d.symbol@ && w.name == d.name@
                &&& w.detected_at == d.detected_at
                &&& w.bought <==> step == TokenStep::Buy
                &&& w.skipped_reason == skip_reason(s.running, c, e)
                &&& w.dev_holder_pct == match e {
                    TokenEvent::Holder { dev_pct: Ok(p), .. } => Some(p),
                    _ => None,
                }
                &&& after.watched == s.noticed(w).watched
                &&& !failed ==> after.log == s.log
                &&& (StateView { watched: s.watched, log: s.log, ..after }) == s
            }
        }),
{
}

/// A check that failed is logged with the symbol of the token and the error.
pub proof fn failed_checks_are_logged(
    s: StateView,
    stamp: Seq<char>,
    c: ConfigView,
    d: Detection,
    error: &str,
    held: &str,
    limit: &str,
)
    ensures
        event_taken(s, stamp, c, d, TokenEvent::Owner(Err(error))).log == s.logged(
            stamp,
            "token-program check failed for "@ + d.symbol@ + ": "@ + error@,
        ).log,
        event_taken(s, stamp, c, d, TokenEvent::Holder { dev_pct: Err(error), held, limit }).log == s.logged(
            stamp,
            "dev-holder check failed for "@ + d.symbol@ + ": "@ + error@,
        ).log,
{
}

/// What was answered counts as it is: an owner by its bytes, a share by its value, and
/// an error as one whatever it says.
pub proof fn checks_are_taken_as_answered(owner: [u8; 32], pct: Double, e: &str)
    ensures
        owner_view(Ok(owner)) == Ok::<Seq<u8>, Seq<char>>(owner@),
        owner_view(Err(e)) == Err::<Seq<u8>, Seq<char>>(e@),
        pct_view(Ok(pct)) == Ok::<Double, Seq<char>>(pct),
        pct_view(Err(e)) == Err::<Double, Seq<char>>(e@),
{
}

} // verus!
