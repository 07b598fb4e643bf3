//! The wallet's balance and what it is worth in pounds.

use crate::double::Double;
use crate::json::{double_in, inner, member, read_reply, reply_document, tree, Json, JsonView, UNREADABLE_REPLY};
use crate::state::{AppState, StateView};
use vstd::prelude::*;
use vstd::string::*;

verus! {

/// Where the price of SOL is asked for.
pub const PRICE_URL: &'static str =
    "https://api.coingecko.com/api/v3/simple/price?ids=solana&vs_currencies=gbp";

/// The price of one SOL in pounds in the reply of the price service.
pub open spec fn gbp_in(reply: JsonView) -> Option<Double> {
    match inner(reply, "solana"@, "gbp"@) {
        Some(x) => double_in(x),
        None => None,
    }
}

/// The price of one SOL in pounds in a reply, as a tree.
pub fn price_in(reply: &Json) -> (r: Option<Double>)
    ensures
        r == gbp_in(reply@),
{
    match reply.get("solana") {
        Some(m) => match m.get("gbp") {
            Some(x) => x.as_double(),
            None => None,
        },
        None => None,
    }
}

/// What the reply of the price service comes to.
pub open spec fn gbp_of(reply: Option<JsonView>) -> Result<Double, Seq<char>> {
    match reply {
        Some(v) => match gbp_in(v) {
            Some(d) => Ok(d),
            None => Err("unexpected CoinGecko response shape"@),
        },
        None => Err(UNREADABLE_REPLY@),
    }
}

/// The price of one SOL in pounds in the reply of the price service.
pub fn fetch_sol_gbp(body: &[u8]) -> (r: Result<Double, String>)
    ensures
        match r {
            Ok(d) => gbp_of(reply_document(body@)) == Ok::<Double, Seq<char>>(d),
            Err(e) => gbp_of(reply_document(body@)) == Err::<Double, Seq<char>>(e@),
        },
{
    match read_reply(body) {
        Some(v) => match price_in(&tree(v)) {
            Some(d) => Ok(d),
            None => Err("unexpected CoinGecko response shape".to_owned()),
        },
        None => Err(UNREADABLE_REPLY.to_owned()),
    }
}

/// What the answer to the request for a balance does to the state: the balance
/// in SOL, or a line in the log.
pub open spec fn balance_applied(s: StateView, stamp: Seq<char>, answer: Result<Double, Seq<char>>) -> StateView {
    match answer {
        Ok(sol) => StateView { sol_balance: sol, ..s },
        Err(e) => s.logged(stamp, "balance check failed: "@ + e),
    }
}

/// Takes the answer to the request for a balance into the state.
pub fn apply_balance(state: &mut AppState, stamp: &str, answer: Result<Double, &str>)
    ensures
        final(state)@ == balance_applied(
            old(state)@,
            stamp@,
            match answer {
                Ok(sol) => Ok(sol),
                Err(e) => Err(e@),
            },
        ),
{
    match answer {
        Ok(sol) => {
            state.sol_balance = sol;
        },
        Err(e) => {
            let mut msg = "balance check failed: ".to_owned();
            msg.append(e);
            state.push_log_at(stamp, msg.as_str());
        },
    }
}

/// What the answer to the request for a price does to the state.
pub open spec fn price_applied(s: StateView, stamp: Seq<char>, answer: Result<Double, Seq<char>>) -> StateView {
    match answer {
        Ok(price) => StateView { gbp_per_sol: price, ..s },
        Err(e) => s.logged(stamp, "price fetch failed: "@ + e),
    }
}

/// Takes the answer to the request for a price into the state.
pub fn apply_price(state: &mut AppState, stamp: &str, answer: Result<Double, &str>)
    ensures
        final(state)@ == price_applied(
            old(state)@,
            stamp@,
            match answer {
                Ok(price) => Ok(price),
                Err(e) => Err(e@),
            },
        ),
{
    match answer {
        Ok(price) => {
            state.gbp_per_sol = price;
        },
        Err(e) => {
            let mut msg = "price fetch failed: ".to_owned();
            msg.append(e);
            state.push_log_at(stamp, msg.as_str());
        },
    }
}

/// A request that fails leaves the last known balance and price as they were.
pub proof fn failures_keep_the_last_figures(s: StateView, stamp: Seq<char>, e: Seq<char>)
    ensures
        balance_applied(s, stamp, Err(e)).sol_balance == s.sol_balance,
        balance_applied(s, stamp, Err(e)).gbp_per_sol == s.gbp_per_sol,
        price_applied(s, stamp, Err(e)).sol_balance == s.sol_balance,
        price_applied(s, stamp, Err(e)).gbp_per_sol == s.gbp_per_sol,
{
}

/// An answer changes its own figure and nothing else; a failure changes nothing but
/// the log, which names what failed and why.
pub proof fn an_answer_changes_one_figure(s: StateView, stamp: Seq<char>, figure: Double, e: Seq<char>)
    ensures
        balance_applied(s, stamp, Ok(figure)).sol_balance == figure,
        (StateView { sol_balance: s.sol_balance, ..balance_applied(s, stamp, Ok(figure)) }) == s,
        price_applied(s, stamp, Ok(figure)).gbp_per_sol == figure,
        (StateView { gbp_per_sol: s.gbp_per_sol, ..price_applied(s, stamp, Ok(figure)) }) == s,
        balance_applied(s, stamp, Err(e)) == s.logged(stamp, "balance check failed: "@ + e),
        price_applied(s, stamp, Err(e)) == s.logged(stamp, "price fetch failed: "@ + e),
{
}

/// The price is the number under `gbp` in what the reply says of `solana`; a reply
/// without one is an error.
pub proof fn the_price_is_what_the_reply_says(reply: JsonView, coin: JsonView, price: JsonView, d: Double)
    ensures
        member(reply, "solana"@) == Some(coin) && member(coin, "gbp"@) == Some(price) && double_in(price) == Some(d)
            ==> gbp_of(Some(reply)) == Ok::<Double, Seq<char>>(d),
        member(reply, "solana"@) is None ==> gbp_of(Some(reply)) is Err,
        member(reply, "solana"@) == Some(coin) && member(coin, "gbp"@) is None ==> gbp_of(Some(reply)) is Err,
        member(reply, "solana"@) == Some(coin) && member(coin, "gbp"@) == Some(price) && double_in(price) is None
            ==> gbp_of(Some(reply)) == Err::<Double, Seq<char>>("unexpected CoinGecko response shape"@),
        gbp_of(None) is Err,
{
}

} // verus!
