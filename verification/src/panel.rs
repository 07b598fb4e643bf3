//! What the desktop bot's window shows and does.

use crate::double::Double;
use crate::state::{AppState, StateView, WatchedToken};
use crate::text::{decimal, decimal_text};
use vstd::prelude::*;
use vstd::string::*;

verus! {

/// Bytes of a signature that the history shows.
pub const SHOWN_SIGNATURE_BYTES: usize = 8;

/// The state after the bot was started or stopped.
pub open spec fn switched(s: StateView, stamp: Seq<char>, running: bool) -> StateView {
    (StateView { running, ..s }).logged(
        stamp,
        if running {
            "Bot started."@
        } else {
            "Bot stopped."@
        },
    )
}

/// Starts or stops the bot.
pub fn set_running(state: &mut AppState, stamp: &str, running: bool)
    ensures
        final(state)@ == switched(old(state)@, stamp@, running),
{
    state.running = running;
    if running {
        state.push_log_at(stamp, "Bot started.");
    } else {
        state.push_log_at(stamp, "Bot stopped.");
    }
}

pub open spec fn heading(positions: nat) -> Seq<char> {
    decimal_text(positions) + " open position(s)"@
}

/// The heading over the open positions.
pub fn positions_heading(state: &AppState) -> (r: String)
    ensures
        r@ == heading(state@.positions.len()),
{
    let mut s = decimal(state.positions.len() as u128);
    s.append(" open position(s)");
    s
}

pub open spec fn is_gain(pnl: Double) -> bool {
    Double::spec_zero().at_most(pnl)
}

/// Whether a profit or loss is shown as a gain.
pub fn shown_as_gain(pnl: Double) -> (r: bool)
    ensures
        r == is_gain(pnl),
{
    Double::zero().le(&pnl)
}

pub open spec fn has_price(gbp_per_sol: Double) -> bool {
    Double::spec_zero().below(gbp_per_sol)
}

/// Whether a balance is also shown in pounds.
pub fn shows_pounds(state: &AppState) -> (r: bool)
    ensures
        r == has_price(state@.gbp_per_sol),
{
    Double::zero().lt(&state.gbp_per_sol)
}

/// Bytes of a character in UTF-8.
pub open spec fn width(c: char) -> nat {
    let u = c as u32;
    if u < 0x80 {
        1
    } else if u < 0x800 {
        2
    } else if u < 0x1_0000 {
        3
    } else {
        4
    }
}

/// How many characters make up the first `budget` bytes of a text, or the whole
/// of a shorter one; nothing where a character lies across the end.
pub open spec fn chars_within(s: Seq<char>, budget: nat) -> Option<nat>
    decreases s.len(),
{
    if s.len() == 0 || budget == 0 {
        Some(0)
    } else if width(s[0]) > budget {
        None
    } else {
        match chars_within(s.drop_first(), (budget - width(s[0])) as nat) {
            Some(n) => Some(n + 1),
            None => None,
        }
    }
}

fn char_width(c: char) -> (r: usize)
    ensures
        r == width(c),
{
    let u: u32 = c as u32;
    if u < 0x80 {
        1
    } else if u < 0x800 {
        2
    } else if u < 0x1_0000 {
        3
    } else {
        4
    }
}

/// The transaction column of the history.
pub open spec fn transaction_column(signature: Option<Seq<char>>) -> Seq<char> {
    match signature {
        Some(s) => s.take(chars_within(s, SHOWN_SIGNATURE_BYTES as nat)->0 as int) + "..."@,
        None => "(dry run)"@,
    }
}

/// The transaction column of the history: the start of the signature, or that
/// there is none.
pub fn tx_column(signature: Option<&str>) -> (r: String)
    requires
        signature matches Some(s) ==> chars_within(s@, SHOWN_SIGNATURE_BYTES as nat) is Some,
    ensures
        r@ == transaction_column(
            match signature {
                Some(s) => Some(s@),
                None => None,
            },
        ),
{
    match signature {
        Some(s) => {
            let n: usize = s.unicode_len();
            let mut budget: usize = SHOWN_SIGNATURE_BYTES;
            let mut i: usize = 0;
            proof {
                assert(s@.skip(0) =~= s@);
            }
            while i < n && budget > 0
                invariant
                    n == s@.len(),
                    i <= n,
                    budget <= SHOWN_SIGNATURE_BYTES,
                    chars_within(s@, SHOWN_SIGNATURE_BYTES as nat) is Some,
                    chars_within(s@.skip(i as int), budget as nat) is Some,
                    chars_within(s@, SHOWN_SIGNATURE_BYTES as nat)->0 == i + chars_within(
                        s@.skip(i as int),
                        budget as nat,
                    )->0,
                decreases n - i,
            {
                proof {
                    assert(s@.skip(i as int)[0] == s@[i as int]);
                    assert(s@.skip(i as int).drop_first() =~= s@.skip(i + 1));
                }
                budget = budget - char_width(s.get_char(i));
                i += 1;
            }
            let mut shown = s.substring_char(0, i).to_owned();
            proof {
                assert(s@.subrange(0, i as int) =~= s@.take(i as int));
            }
            shown.append("...");
            shown
        },
        None => "(dry run)".to_owned(),
    }
}

pub open spec fn share_column(pct: Option<Seq<char>>) -> Seq<char> {
    match pct {
        Some(p) => p + "%"@,
        None => "-"@,
    }
}

/// The creator's share in the list of detections, with one decimal.
pub fn dev_column(pct: Option<&str>) -> (r: String)
    ensures
        r@ == share_column(
            match pct {
                Some(p) => Some(p@),
                None => None,
            },
        ),
{
    match pct {
        Some(p) => {
            let mut s = p.to_owned();
            s.append("%");
            s
        },
        None => "-".to_owned(),
    }
}

/// What became of a detection.
pub open spec fn outcome(bought: bool, reason: Option<Seq<char>>) -> Seq<char> {
    if bought {
        "bought"@
    } else {
        match reason {
            Some(r) => "skipped: "@ + r,
            None => "-"@,
        }
    }
}

/// What became of a detection.
pub fn outcome_column(w: &WatchedToken) -> (r: String)
    ensures
        r@ == outcome(w@.bought, w@.skipped_reason),
{
    if w.bought {
        return "bought".to_owned();
    }
    match &w.skipped_reason {
        Some(reason) => {
            let mut s = "skipped: ".to_owned();
            s.append(reason.as_str());
            s
        },
        None => "-".to_owned(),
    }
}

/// The state after the settings were written to disk or could not be.
pub open spec fn saved(s: StateView, stamp: Seq<char>, dry_run: bool, written: Result<(), Seq<char>>) -> StateView {
    let t = StateView { dry_run, ..s };
    match written {
        Ok(_) => t.logged(stamp, "Settings saved."@),
        Err(_) => t,
    }
}

pub open spec fn save_message(written: Result<(), Seq<char>>) -> Seq<char> {
    match written {
        Ok(_) => "Saved."@,
        Err(e) => "Save failed: "@ + e,
    }
}

pub open spec fn written_view(written: Result<(), &str>) -> Result<(), Seq<char>> {
    match written {
        Ok(_) => Ok(()),
        Err(e) => Err(e@),
    }
}

/// Takes up the settings that were applied, once they were written to disk or
/// could not be. Gives the message under the form.
pub fn finish_save(state: &mut AppState, stamp: &str, dry_run: bool, written: Result<(), &str>) -> (r: String)
    ensures
        final(state)@ == saved(old(state)@, stamp@, dry_run, written_view(written)),
        r@ == save_message(written_view(written)),
{
    state.dry_run = dry_run;
    match written {
        Ok(_) => {
            state.push_log_at(stamp, "Settings saved.");
            "Saved.".to_owned()
        },
        Err(e) => {
            let mut s = "Save failed: ".to_owned();
            s.append(e);
            s
        },
    }
}

proof fn lemma_ascii_within(s: Seq<char>, budget: nat)
    requires
        forall|i: int| 0 <= i < s.len() ==> (#[trigger] s[i]) as u32 <= 0x7f,
    ensures
        chars_within(s, budget) == Some(
            if s.len() < budget {
                s.len()
            } else {
                budget
            },
        ),
    decreases s.len(),
{
    if s.len() > 0 && budget > 0 {
        assert(s[0] as u32 <= 0x7f);
        lemma_ascii_within(s.drop_first(), (budget - 1) as nat);
    }
}

/// Of a signature in ASCII, as every base58 text is, the history shows eight
/// characters, or all of a shorter one.
pub proof fn history_shows_eight_characters(signature: Seq<char>)
    requires
        forall|i: int| 0 <= i < signature.len() ==> (#[trigger] signature[i]) as u32 <= 0x7f,
    ensures
        chars_within(signature, SHOWN_SIGNATURE_BYTES as nat) is Some,
        transaction_column(Some(signature)) == signature.take(
            if signature.len() < 8 {
                signature.len() as int
            } else {
                8
            },
        ) + "..."@,
{
    lemma_ascii_within(signature, SHOWN_SIGNATURE_BYTES as nat);
}

/// Starting and stopping touches the switch and the log, nothing else.
pub proof fn switching_touches_nothing_else(s: StateView, stamp: Seq<char>, running: bool)
    ensures
        switched(s, stamp, running).running == running,
        (StateView { running: s.running, log: s.log, ..switched(s, stamp, running) }) == s,
{
}

/// Starting and stopping are logged as such.
pub proof fn switching_is_logged(s: StateView, stamp: Seq<char>)
    ensures
        switched(s, stamp, true).log == s.logged(stamp, "Bot started."@).log,
        switched(s, stamp, false).log == s.logged(stamp, "Bot stopped."@).log,
{
}

/// A detection is shown as bought where it was, else with the reason for which it
/// was skipped.
pub proof fn a_detection_shows_what_became_of_it(reason: Seq<char>, any: Option<Seq<char>>, pct: Seq<char>)
    ensures
        outcome(true, any) == "bought"@,
        outcome(false, Some(reason)) == "skipped: "@ + reason,
        outcome(false, None) == "-"@,
        share_column(Some(pct)) == pct + "%"@,
        share_column(None) == "-"@,
        transaction_column(None) == "(dry run)"@,
{
}

/// Settings that were applied set the mode, whether or not they could be written;
/// nothing else changes but the log, and that only where they were written. The
/// message says which.
pub proof fn applied_settings_set_the_mode(s: StateView, stamp: Seq<char>, dry_run: bool, e: Seq<char>)
    ensures
        saved(s, stamp, dry_run, Ok(())).dry_run == dry_run,
        saved(s, stamp, dry_run, Err(e)).dry_run == dry_run,
        (StateView { dry_run: s.dry_run, ..saved(s, stamp, dry_run, Err(e)) }) == s,
        (StateView { dry_run: s.dry_run, log: s.log, ..saved(s, stamp, dry_run, Ok(())) }) == s,
        saved(s, stamp, dry_run, Ok(())).log == s.logged(stamp, "Settings saved."@).log,
        save_message(Ok(())) == "Saved."@,
        save_message(Err(e)) == "Save failed: "@ + e,
{
}

/// Bytes of a text in UTF-8.
pub open spec fn bytes_of(s: Seq<char>) -> nat
    decreases s.len(),
{
    if s.len() == 0 {
        0
    } else {
        bytes_of(s.drop_last()) + width(s.last())
    }
}

proof fn lemma_bytes_behind_a_character(c: char, s: Seq<char>)
    ensures
        bytes_of(seq![c] + s) == width(c) + bytes_of(s),
    decreases s.len(),
{
    if s.len() == 0 {
        assert((seq![c] + s).drop_last() =~= Seq::<char>::empty());
        assert(bytes_of(Seq::<char>::empty()) == 0);
    } else {
        assert((seq![c] + s).drop_last() =~= seq![c] + s.drop_last());
        lemma_bytes_behind_a_character(c, s.drop_last());
    }
}

/// What is shown of a signature is the start of it that takes eight bytes, or all of
/// one that takes fewer.
pub proof fn the_shown_start_fills_the_budget(s: Seq<char>, budget: nat)
    requires
        chars_within(s, budget) is Some,
    ensures
        ({
            let n = chars_within(s, budget)->0;
            &&& n <= s.len()
            &&& bytes_of(s.take(n as int)) == budget || (n == s.len() && bytes_of(s) < budget)
        }),
    decreases s.len(),
{
    let n = chars_within(s, budget)->0;
    if s.len() == 0 || budget == 0 {
        assert(s.take(0) =~= Seq::<char>::empty());
        assert(s.len() == 0 ==> s =~= Seq::<char>::empty());
    } else {
        let rest = s.drop_first();
        the_shown_start_fills_the_budget(rest, (budget - width(s[0])) as nat);
        lemma_bytes_behind_a_character(s[0], rest.take(n - 1));
        lemma_bytes_behind_a_character(s[0], rest);
        assert(seq![s[0]] + rest.take(n - 1) =~= s.take(n as int));
        assert(seq![s[0]] + rest =~= s);
    }
}

/// A result of zero or more is a gain, one below zero is none; pounds are shown once
/// there is a price above zero. The heading counts the positions.
pub proof fn figures_are_shown_for_what_they_are(pnl: Double, price: Double, positions: nat)
    ensures
        is_gain(pnl) <==> pnl.equals(Double::spec_zero()) || Double::spec_zero().below(pnl),
        has_price(price) <==> Double::spec_zero().below(price),
        heading(positions) == decimal_text(positions) + " open position(s)"@,
{
}

/// A character takes from one to four bytes, as many as its number asks for.
pub proof fn characters_take_up_to_four_bytes(c: char)
    ensures
        (c as int) < 0x80 ==> width(c) == 1,
        0x80 <= (c as int) < 0x800 ==> width(c) == 2,
        0x800 <= (c as int) < 0x1_0000 ==> width(c) == 3,
        0x1_0000 <= (c as int) ==> width(c) == 4,
{
}

/// A start can be shown of every text that takes no more than the budget, and of every
/// text of which some characters take it up exactly.
pub proof fn a_start_on_a_boundary_can_be_shown(s: Seq<char>, budget: nat, n: int)
    requires
        0 <= n <= s.len(),
        bytes_of(s.take(n)) == budget || bytes_of(s) <= budget,
    ensures
        chars_within(s, budget) is Some,
    decreases s.len(),
{
    if s.len() > 0 && budget > 0 {
        let rest = s.drop_first();
        lemma_bytes_behind_a_character(s[0], rest);
        assert(seq![s[0]] + rest =~= s);
        if bytes_of(s) <= budget {
            a_start_on_a_boundary_can_be_shown(rest, (budget - width(s[0])) as nat, 0);
        } else {
            if n == 0 {
                assert(s.take(0) =~= Seq::<char>::empty());
            }
            assert(n > 0);
            lemma_bytes_behind_a_character(s[0], rest.take(n - 1));
            assert(seq![s[0]] + rest.take(n - 1) =~= s.take(n));
            a_start_on_a_boundary_can_be_shown(rest, (budget - width(s[0])) as nat, n - 1);
        }
    }
}

/// What was written or not is taken as it was told.
pub proof fn a_save_is_taken_as_told(e: &str)
    ensures
        written_view(Ok(())) == Ok::<(), Seq<char>>(()),
        written_view(Err(e)) == Err::<(), Seq<char>>(e@),
{
}

} // verus!
