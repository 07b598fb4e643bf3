//! Checks on a token before it is bought.

use crate::double::Double;
use crate::text::{decimal_reads_back, decimal_text, parse_unsigned, unsigned_of};
use crate::wallet::{associated_account, token_account};
use vstd::prelude::*;
use vstd::string::*;

verus! {

/// The key of the legacy SPL Token program, the only owner of a mint that the
/// bot knows how to trade against.
pub open spec fn legacy_token_program() -> Seq<u8> {
    seq![
        6u8, 221, 246, 225, 215, 101, 161, 147, 217, 203, 225, 70, 206, 235, 121, 172, 28, 180, 133, 237, 95, 91, 55,
        145, 58, 140, 245, 133, 126, 255, 0, 169,
    ]
}

/// Whether the owner of a mint's account is the legacy SPL Token program.
pub fn is_legacy_spl_token(owner: &[u8; 32]) -> (r: bool)
    ensures
        r == (owner@ == legacy_token_program()),
{
    let program: [u8; 32] = [
        6, 221, 246, 225, 215, 101, 161, 147, 217, 203, 225, 70, 206, 235, 121, 172, 28, 180, 133, 237, 95, 91, 55,
        145, 58, 140, 245, 133, 126, 255, 0, 169,
    ];
    proof {
        assert(program@ =~= legacy_token_program());
    }
    let mut i: usize = 0;
    while i < 32
        invariant
            i <= 32,
            program@ == legacy_token_program(),
            forall|k: int| 0 <= k < i ==> owner@[k] == program@[k],
        decreases 32 - i,
    {
        if owner[i] != program[i] {
            return false;
        }
        i += 1;
    }
    proof {
        assert(owner@ =~= program@);
    }
    true
}

/// The account whose balance tells what the creator holds, where one is needed.
pub open spec fn holder_account(creator: Seq<u8>, mint: Seq<u8>, total_supply: u64) -> Option<Seq<u8>> {
    if total_supply == 0 {
        None
    } else {
        Some(associated_account(creator, mint))
    }
}

/// The account whose balance tells what the creator holds. A token without
/// supply needs none: nobody holds any of it.
pub fn dev_holder_account(creator: [u8; 32], mint: [u8; 32], total_supply: u64) -> (r: Option<[u8; 32]>)
    ensures
        match r {
            Some(a) => total_supply != 0 && a@ == associated_account(creator@, mint@),
            None => total_supply == 0,
        },
        holder_account(creator@, mint@, total_supply) == match r {
            Some(a) => Some(a@),
            None => None,
        },
{
    if total_supply == 0 {
        return None;
    }
    Some(token_account(creator, mint))
}

/// Base units that the creator holds: what the account's balance says, or none
/// where there is no such account or the balance is no number.
pub open spec fn units_held(balance: Option<Seq<char>>) -> u64 {
    match balance {
        Some(s) => match unsigned_of(s) {
            Some(n) => n,
            None => 0,
        },
        None => 0,
    }
}

/// Base units that the creator holds.
pub fn dev_holder_units(balance: Option<&str>) -> (r: u64)
    ensures
        r == units_held(
            match balance {
                Some(s) => Some(s@),
                None => None,
            },
        ),
{
    match balance {
        Some(s) => match parse_unsigned(s) {
            Some(n) => n,
            None => 0,
        },
        None => 0,
    }
}

/// What the creator holds in percent of the supply.
pub open spec fn held_pct(total_supply: u64, share: Double) -> Double {
    if total_supply == 0 {
        Double::spec_zero()
    } else {
        share
    }
}

/// What the creator holds in percent of the supply. `share` is the base units
/// held over the supply, in percent; without supply the share is zero.
pub fn dev_holder_pct(total_supply: u64, share: Double) -> (r: Double)
    ensures
        r == held_pct(total_supply, share),
{
    if total_supply == 0 {
        return Double::zero();
    }
    share
}

/// The creator's account is asked for, and what it holds counts, exactly where there
/// is a supply to hold some of; without one the share is zero.
pub proof fn a_supply_has_a_holder(creator: Seq<u8>, mint: Seq<u8>, total_supply: u64, share: Double)
    ensures
        total_supply > 0 ==> holder_account(creator, mint, total_supply) == Some(associated_account(creator, mint)),
        total_supply > 0 ==> held_pct(total_supply, share) == share,
        holder_account(creator, mint, 0) is None,
        held_pct(0, share).bits == 0,
{
}

/// What the balance says is what the creator holds; a balance that is no number, or
/// no balance at all, counts as none.
pub proof fn a_balance_is_counted_as_it_reads(text: Seq<char>, n: u64)
    ensures
        units_held(Some(decimal_text(n as nat))) == n,
        unsigned_of(text) is None ==> units_held(Some(text)) == 0,
        unsigned_of(text) == Some(n) ==> units_held(Some(text)) == n,
        units_held(None) == 0,
{
    decimal_reads_back(n);
}

} // verus!
