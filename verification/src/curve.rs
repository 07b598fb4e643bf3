//! Prices on pump.fun's constant-product bonding curve.

use crate::double::Double;
use vstd::arithmetic::div_mod::{
    lemma_div_is_ordered, lemma_div_is_ordered_by_denominator, lemma_fundamental_div_mod, lemma_mod_bound,
};
use vstd::prelude::*;

verus! {

/// Basis points in the whole.
pub const WHOLE_BASIS_POINTS: u128 = 10_000;

/// The platform's share of a payment, in lamports.
pub open spec fn platform_fee(lamports: nat, fee_basis_points: nat) -> nat {
    lamports * fee_basis_points / 10_000
}

/// What is left of a payment after the platform fee; nothing where the fee
/// exceeds the payment.
pub open spec fn after_fee(lamports: nat, fee_basis_points: nat) -> nat {
    let fee = platform_fee(lamports, fee_basis_points);
    if fee <= lamports {
        (lamports - fee) as nat
    } else {
        0
    }
}

/// Token base units that a payment buys: the token reserve shrinks to the
/// largest whole number that keeps the product of the reserves from growing.
pub open spec fn tokens_bought(sol_reserve: nat, token_reserve: nat, fee_basis_points: nat, lamports: nat) -> nat {
    if sol_reserve == 0 || token_reserve == 0 {
        0
    } else {
        let grown = sol_reserve + after_fee(lamports, fee_basis_points);
        (token_reserve - sol_reserve * token_reserve / grown) as nat
    }
}

/// Whether the sums over a payment fit in 128 bits.
pub open spec fn payment_fits(sol_reserve: u64, fee_basis_points: u64, lamports: u128) -> bool {
    &&& lamports * fee_basis_points <= u128::MAX
    &&& sol_reserve + after_fee(lamports as nat, fee_basis_points as nat) <= u128::MAX
}

/// The platform's share of a payment, in lamports.
pub fn platform_fee_lamports(lamports: u128, fee_basis_points: u64) -> (fee: u128)
    requires
        lamports * fee_basis_points <= u128::MAX,
    ensures
        fee == platform_fee(lamports as nat, fee_basis_points as nat),
{
    lamports * (fee_basis_points as u128) / WHOLE_BASIS_POINTS
}

/// Whether the sums over a payment fit in 128 bits.
pub fn can_price(virtual_sol_reserves: u64, fee_basis_points: u64, sol_in_lamports: u128) -> (r: bool)
    ensures
        r == payment_fits(virtual_sol_reserves, fee_basis_points, sol_in_lamports),
{
    match sol_in_lamports.checked_mul(fee_basis_points as u128) {
        Some(_) => {
            let paid: u128 = sol_in_lamports.saturating_sub(platform_fee_lamports(sol_in_lamports, fee_basis_points));
            paid.checked_add(virtual_sol_reserves as u128).is_some()
        },
        None => false,
    }
}

/// The price of one whole token, where `quotient` is what one reserve divided by
/// the other comes to.
pub open spec fn price_of(token_reserve: nat, quotient: Double) -> Double {
    if token_reserve == 0 {
        Double::spec_zero()
    } else {
        quotient
    }
}

/// The SOL price of one whole token implied by the reserves. `quotient` is the
/// SOL reserve in SOL divided by the token reserve in whole tokens; with no
/// tokens in reserve there is no such quotient and the price is zero.
pub fn marginal_price_sol(virtual_sol_reserves: u64, virtual_token_reserves: u64, quotient: Double) -> (price: Double)
    ensures
        price == price_of(virtual_token_reserves as nat, quotient),
{
    if virtual_token_reserves == 0 {
        return Double::zero();
    }
    quotient
}

proof fn lemma_reserve_shrinks(sol: nat, token: nat, grown: nat)
    requires
        0 < sol <= grown,
    ensures
        sol * token / grown <= token,
        grown * (sol * token / grown) <= sol * token,
        sol * token < grown * (sol * token / grown + 1),
{
    assert(sol * token <= grown * token) by (nonlinear_arith)
        requires
            sol <= grown,
    ;
    lemma_fundamental_div_mod((sol * token) as int, grown as int);
    let q = sol * token / grown;
    assert(grown * q <= sol * token);
    assert(q <= token) by (nonlinear_arith)
        requires
            grown * q <= grown * token,
            grown > 0,
    ;
    lemma_mod_bound((sol * token) as int, grown as int);
    assert(grown * (q + 1) == grown * q + grown) by (nonlinear_arith);
}

/// Token base units bought by `sol_in_lamports`, net of the platform fee. A
/// preview only: a real trade is priced by the on-chain program.
pub fn estimate_tokens_out(
    virtual_sol_reserves: u64,
    virtual_token_reserves: u64,
    fee_basis_points: u64,
    sol_in_lamports: u128,
) -> (tokens: u128)
    requires
        virtual_sol_reserves == 0 || virtual_token_reserves == 0 || payment_fits(
            virtual_sol_reserves,
            fee_basis_points,
            sol_in_lamports,
        ),
    ensures
        tokens == tokens_bought(
            virtual_sol_reserves as nat,
            virtual_token_reserves as nat,
            fee_basis_points as nat,
            sol_in_lamports as nat,
        ),
{
    if virtual_sol_reserves == 0 || virtual_token_reserves == 0 {
        return 0;
    }
    let fee_lamports: u128 = platform_fee_lamports(sol_in_lamports, fee_basis_points);
    let sol_in_after_fee: u128 = sol_in_lamports.saturating_sub(fee_lamports);
    let sol: u128 = virtual_sol_reserves as u128;
    let token: u128 = virtual_token_reserves as u128;
    proof {
        assert(sol * token <= u64::MAX * u64::MAX) by (nonlinear_arith)
            requires
                0 <= sol <= u64::MAX,
                0 <= token <= u64::MAX,
        ;
        assert(u64::MAX * u64::MAX <= u128::MAX);
    }
    let k: u128 = sol * token;
    let new_sol_reserves: u128 = sol + sol_in_after_fee;
    let new_token_reserves: u128 = k / new_sol_reserves;
    proof {
        lemma_reserve_shrinks(sol as nat, token as nat, new_sol_reserves as nat);
    }
    token - new_token_reserves
}

/// The reserves stay on the curve: a purchase never takes more than the token
/// reserve holds, the product of the reserves does not grow, and one token more
/// in the reserve would make it larger than it was. So the buyer gets as many
/// tokens as the curve allows and no more.
pub proof fn purchase_keeps_curve(sol: nat, token: nat, fee_basis_points: nat, lamports: nat)
    ensures
        ({
            let bought = tokens_bought(sol, token, fee_basis_points, lamports);
            let grown = sol + after_fee(lamports, fee_basis_points);
            let left = token - bought;
            &&& bought <= token
            &&& sol > 0 && token > 0 ==> grown * left <= sol * token && sol * token < grown * (left + 1)
            &&& sol == 0 || token == 0 ==> bought == 0
        }),
{
    if sol > 0 && token > 0 {
        lemma_reserve_shrinks(sol, token, sol + after_fee(lamports, fee_basis_points));
    }
}

/// The platform's fee is its share of the payment in ten-thousandths, cut to
/// whole lamports.
pub proof fn fee_is_its_share(lamports: nat, fee_basis_points: nat)
    ensures
        10_000 * platform_fee(lamports, fee_basis_points) <= lamports * fee_basis_points,
        lamports * fee_basis_points < 10_000 * (platform_fee(lamports, fee_basis_points) + 1),
{
    lemma_fundamental_div_mod((lamports * fee_basis_points) as int, 10_000);
}

/// Where there are tokens in reserve the price is the quotient of the reserves,
/// however many there are; where there are none it is zero.
pub proof fn price_is_the_quotient(tokens: nat, quotient: Double)
    ensures
        tokens > 0 ==> price_of(tokens, quotient) == quotient,
        price_of(0, quotient).bits == 0,
{
}

/// Without a fee the whole payment goes into the curve.
pub proof fn no_fee_no_loss(lamports: nat)
    ensures
        platform_fee(lamports, 0) == 0,
        after_fee(lamports, 0) == lamports,
{
}

/// The platform fee and what is left make up the payment, or the fee exceeds it
/// and nothing is left; up to the whole the rate never takes more than there is.
pub proof fn fee_and_rest_make_up_the_payment(lamports: nat, fee_basis_points: nat)
    ensures
        platform_fee(lamports, fee_basis_points) <= lamports ==> after_fee(lamports, fee_basis_points) + platform_fee(
            lamports,
            fee_basis_points,
        ) == lamports,
        platform_fee(lamports, fee_basis_points) > lamports ==> after_fee(lamports, fee_basis_points) == 0,
        fee_basis_points <= 10_000 ==> platform_fee(lamports, fee_basis_points) <= lamports,
        fee_basis_points >= 10_000 ==> platform_fee(lamports, fee_basis_points) >= lamports,
{
    if fee_basis_points <= 10_000 {
        assert(lamports * fee_basis_points <= lamports * 10_000) by (nonlinear_arith)
            requires
                fee_basis_points <= 10_000,
        ;
        lemma_div_is_ordered((lamports * fee_basis_points) as int, (lamports * 10_000) as int, 10_000);
    }
    if fee_basis_points >= 10_000 {
        assert(lamports * fee_basis_points >= lamports * 10_000) by (nonlinear_arith)
            requires
                fee_basis_points >= 10_000,
        ;
        lemma_div_is_ordered((lamports * 10_000) as int, (lamports * fee_basis_points) as int, 10_000);
    }
}

proof fn lemma_more_sol_more_tokens(sol: nat, token: nat, a: nat, b: nat)
    requires
        0 < sol,
        a <= b,
    ensures
        sol * token / (sol + b) <= sol * token / (sol + a),
{
    assert(0 <= sol * token) by (nonlinear_arith);
    lemma_div_is_ordered_by_denominator((sol * token) as int, (sol + a) as int, (sol + b) as int);
}

proof fn lemma_after_fee_grows(fewer: nat, more: nat, fee_basis_points: nat)
    requires
        fewer <= more,
    ensures
        after_fee(fewer, fee_basis_points) <= after_fee(more, fee_basis_points),
{
    fee_and_rest_make_up_the_payment(fewer, fee_basis_points);
    fee_and_rest_make_up_the_payment(more, fee_basis_points);
    if fee_basis_points <= 10_000 {
        let x = (fewer * fee_basis_points) as int;
        let y = (more * fee_basis_points) as int;
        let d = more - fewer;
        assert(y == x + d * fee_basis_points) by (nonlinear_arith)
            requires
                x == fewer * fee_basis_points,
                y == more * fee_basis_points,
                d == more - fewer,
        ;
        assert(d * fee_basis_points <= d * 10_000) by (nonlinear_arith)
            requires
                0 <= d,
                0 <= fee_basis_points <= 10_000,
        ;
        lemma_div_is_ordered(y, x + d * 10_000, 10_000);
        assert((x + d * 10_000) / 10_000 == x / 10_000 + d);
    }
}

/// A larger payment never buys fewer tokens.
pub proof fn paying_more_never_buys_less(sol: nat, token: nat, fee_basis_points: nat, fewer: nat, more: nat)
    requires
        fewer <= more,
    ensures
        tokens_bought(sol, token, fee_basis_points, fewer) <= tokens_bought(sol, token, fee_basis_points, more),
{
    if sol > 0 && token > 0 {
        lemma_after_fee_grows(fewer, more, fee_basis_points);
        lemma_more_sol_more_tokens(
            sol,
            token,
            after_fee(fewer, fee_basis_points),
            after_fee(more, fee_basis_points),
        );
        lemma_reserve_shrinks(sol, token, sol + after_fee(fewer, fee_basis_points));
    }
}

/// A higher platform fee never buys more tokens.
pub proof fn higher_fee_never_buys_more(sol: nat, token: nat, low: nat, high: nat, lamports: nat)
    requires
        low <= high,
    ensures
        tokens_bought(sol, token, high, lamports) <= tokens_bought(sol, token, low, lamports),
{
    if sol > 0 && token > 0 {
        assert(lamports * low <= lamports * high) by (nonlinear_arith)
            requires
                low <= high,
        ;
        lemma_div_is_ordered((lamports * low) as int, (lamports * high) as int, 10_000);
        assert(after_fee(lamports, high) <= after_fee(lamports, low));
        lemma_more_sol_more_tokens(sol, token, after_fee(lamports, high), after_fee(lamports, low));
        lemma_reserve_shrinks(sol, token, sol + after_fee(lamports, high));
    }
}

/// A payment of nothing buys nothing.
pub proof fn paying_nothing_buys_nothing(sol: nat, token: nat, fee_basis_points: nat)
    ensures
        tokens_bought(sol, token, fee_basis_points, 0) == 0,
{
    if sol > 0 && token > 0 {
        assert(sol * token / sol == token) by (nonlinear_arith)
            requires
                sol > 0,
        ;
    }
}

/// A payment can be priced exactly where neither its fee nor the grown reserve goes
/// beyond 128 bits; so every payment below 2 to the 64 can, whatever the rate is.
pub proof fn ordinary_payments_can_be_priced(sol_reserve: u64, fee_basis_points: u64, lamports: u128)
    ensures
        payment_fits(sol_reserve, fee_basis_points, lamports) <==> lamports * fee_basis_points
            <= 0xffff_ffff_ffff_ffff_ffff_ffff_ffff_ffff && sol_reserve + after_fee(
            lamports as nat,
            fee_basis_points as nat,
        ) <= 0xffff_ffff_ffff_ffff_ffff_ffff_ffff_ffff,
        lamports <= u64::MAX ==> payment_fits(sol_reserve, fee_basis_points, lamports),
{
    if lamports <= u64::MAX {
        assert(lamports * fee_basis_points <= 0xffff_ffff_ffff_ffff * 0xffff_ffff_ffff_ffff) by (nonlinear_arith)
            requires
                lamports <= 0xffff_ffff_ffff_ffff,
                fee_basis_points <= 0xffff_ffff_ffff_ffff,
        ;
        fee_and_rest_make_up_the_payment(lamports as nat, fee_basis_points as nat);
    }
}

} // verus!
