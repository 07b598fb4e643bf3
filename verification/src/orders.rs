//! Orders of the sniper: the order itself, the signed transaction, and what
//! comes back from the servers.

use crate::json::{
    find_value, inner, json_rendered, member, open_value, quote, quoted, read_reply, render, reply_document,
    text_member, tree, unsigned_in, value_as_text, Json, JsonView, UNREADABLE_REPLY,
};
use crate::state::optional_text;
use crate::wallet::{
    base58_encode, base58_encoded, base64_encode, base64_text, sign_transaction, transaction_signed, Signed,
    SignedView,
};
use vstd::prelude::*;
use vstd::string::*;

verus! {

/// Where orders are turned into transactions.
pub const PUMPPORTAL_LOCAL_TX: &'static str = "https://pumpportal.fun/api/trade-local";

/// Where bundles are sent.
pub const JITO_BUNDLE_URL: &'static str = "https://mainnet.block-engine.jito.wtf/api/v1/bundles";

/// Which way an order goes.
#[derive(Clone, Copy, Debug, PartialEq, Eq, Structural)]
pub enum Side {
    Buy,
    Sell,
}

/// The pool that an order goes to: the automated market maker for a sale of a
/// token that migrated, else the bonding curve.
pub open spec fn pool_name(side: Side, migrated: bool) -> Seq<char> {
    if side == Side::Sell && migrated {
        "pump-amm"@
    } else {
        "pump"@
    }
}

/// The pool that an order goes to.
pub fn pool(side: Side, migrated: bool) -> (r: &'static str)
    ensures
        r@ == pool_name(side, migrated),
{
    match side {
        Side::Sell => if migrated {
            "pump-amm"
        } else {
            "pump"
        },
        Side::Buy => "pump",
    }
}

pub open spec fn side_name(side: Side) -> Seq<char> {
    match side {
        Side::Buy => "buy"@,
        Side::Sell => "sell"@,
    }
}

/// Texts of an order's numbers as JSON writes them.
pub struct OrderNumbers<'a> {
    pub amount: &'a str,
    pub slippage: &'a str,
    pub priority_fee: &'a str,
}

/// The amount in an order. A sale is always of everything.
pub open spec fn order_amount(side: Side, amount: Seq<char>) -> Seq<char> {
    match side {
        Side::Buy => amount,
        Side::Sell => "\"100%\""@,
    }
}

pub open spec fn order_in_sol(side: Side, denominated_in_sol: bool) -> Seq<char> {
    if side == Side::Buy && denominated_in_sol {
        "true"@
    } else {
        "false"@
    }
}

/// An order in JSON.
pub open spec fn order_text(
    wallet: Seq<char>,
    side: Side,
    mint: Seq<char>,
    denominated_in_sol: bool,
    migrated: bool,
    amount: Seq<char>,
    slippage: Seq<char>,
    priority_fee: Seq<char>,
) -> Seq<char> {
    "{\"action\":\""@ + side_name(side) + "\",\"amount\":"@ + order_amount(side, amount) + ",\"denominatedInSol\":\""@
        + order_in_sol(side, denominated_in_sol) + "\",\"mint\":"@ + quoted(mint) + ",\"pool\":\""@ + pool_name(
        side,
        migrated,
    ) + "\",\"priorityFee\":"@ + priority_fee + ",\"publicKey\":"@ + quoted(wallet) + ",\"slippage\":"@ + slippage
        + "}"@
}

/// An order in JSON.
pub fn order(
    wallet: &str,
    side: Side,
    mint: &str,
    denominated_in_sol: bool,
    migrated: bool,
    numbers: &OrderNumbers,
) -> (r: String)
    ensures
        r@ == order_text(
            wallet@,
            side,
            mint@,
            denominated_in_sol,
            migrated,
            numbers.amount@,
            numbers.slippage@,
            numbers.priority_fee@,
        ),
{
    let mint_text = quote(mint);
    let wallet_text = quote(wallet);
    let mut s = "{\"action\":\"".to_owned();
    match side {
        Side::Buy => {
            s.append("buy");
            s.append("\",\"amount\":");
            s.append(numbers.amount);
        },
        Side::Sell => {
            s.append("sell");
            s.append("\",\"amount\":");
            s.append("\"100%\"");
        },
    }
    s.append(",\"denominatedInSol\":\"");
    let in_sol = match side {
        Side::Buy => denominated_in_sol,
        Side::Sell => false,
    };
    if in_sol {
        s.append("true");
    } else {
        s.append("false");
    }
    s.append("\",\"mint\":");
    s.append(mint_text.as_str());
    s.append(",\"pool\":\"");
    s.append(pool(side, migrated));
    s.append("\",\"priorityFee\":");
    s.append(numbers.priority_fee);
    s.append(",\"publicKey\":");
    s.append(wallet_text.as_str());
    s.append(",\"slippage\":");
    s.append(numbers.slippage);
    s.append("}");
    s
}

/// A transaction on its way out.
#[derive(Debug)]
pub enum Outgoing {
    /// To the RPC endpoint; the signature comes back.
    Rpc { payload: String },
    /// To the block engine; the signature is known.
    Jito { payload: String, signature: Option<String> },
}

/// What a transaction on its way out holds.
pub enum OutgoingView {
    Rpc { payload: Seq<char> },
    Jito { payload: Seq<char>, signature: Option<Seq<char>> },
}

impl View for Outgoing {
    type V = OutgoingView;

    open spec fn view(&self) -> OutgoingView {
        match *self {
            Outgoing::Rpc { payload } => OutgoingView::Rpc { payload: payload@ },
            Outgoing::Jito { payload, signature } => OutgoingView::Jito {
                payload: payload@,
                signature: optional_text(signature),
            },
        }
    }
}

pub open spec fn send_transaction_text(encoded: Seq<char>) -> Seq<char> {
    "{\"id\":1,\"jsonrpc\":\"2.0\",\"method\":\"sendTransaction\",\"params\":["@ + quoted(encoded)
        + ",{\"encoding\":\"base64\",\"maxRetries\":0,\"preflightCommitment\":\"processed\",\"skipPreflight\":true}]}"@
}

/// The request that sends a transaction in base64.
pub fn send_transaction_request(encoded: &str) -> (r: String)
    ensures
        r@ == send_transaction_text(encoded@),
{
    let q = quote(encoded);
    let mut s = "{\"id\":1,\"jsonrpc\":\"2.0\",\"method\":\"sendTransaction\",\"params\":[".to_owned();
    s.append(q.as_str());
    s.append(
        ",{\"encoding\":\"base64\",\"maxRetries\":0,\"preflightCommitment\":\"processed\",\"skipPreflight\":true}]}",
    );
    s
}

pub open spec fn send_bundle_text(tx: Seq<char>) -> Seq<char> {
    "{\"id\":1,\"jsonrpc\":\"2.0\",\"method\":\"sendBundle\",\"params\":[["@ + quoted(tx) + "]]}"@
}

/// The request that sends a bundle of one transaction in base58.
pub fn send_bundle_request(tx: &str) -> (r: String)
    ensures
        r@ == send_bundle_text(tx@),
{
    let q = quote(tx);
    let mut s = "{\"id\":1,\"jsonrpc\":\"2.0\",\"method\":\"sendBundle\",\"params\":[[".to_owned();
    s.append(q.as_str());
    s.append("]]}");
    s
}

/// How a signed transaction goes out: as a bundle where it is to be protected
/// from front-running, else to the RPC endpoint.
pub open spec fn outgoing_of(t: SignedView, mev_protection: bool) -> OutgoingView {
    if mev_protection {
        OutgoingView::Jito {
            payload: send_bundle_text(base58_encoded(t.bytes)),
            signature: t.signature,
        }
    } else {
        OutgoingView::Rpc { payload: send_transaction_text(base64_text(t.bytes)) }
    }
}

pub open spec fn outgoing_result(r: Result<Outgoing, String>) -> Result<OutgoingView, Seq<char>> {
    match r {
        Ok(o) => Ok(o@),
        Err(e) => Err(e@),
    }
}

/// How a signed transaction goes out.
pub fn outgoing(t: &Signed, mev_protection: bool) -> (r: Outgoing)
    ensures
        r@ == outgoing_of(t@, mev_protection),
{
    if mev_protection {
        let tx = base58_encode(t.bytes.as_slice());
        let signature = match &t.signature {
            Some(s) => Some(s.clone()),
            None => None,
        };
        Outgoing::Jito { payload: send_bundle_request(tx.as_str()), signature }
    } else {
        let encoded = base64_encode(t.bytes.as_slice());
        Outgoing::Rpc { payload: send_transaction_request(encoded.as_str()) }
    }
}

/// What is made of the answer to an order.
pub open spec fn answer_signed(
    success: bool,
    status: Seq<char>,
    body: Seq<u8>,
    body_text: Seq<char>,
    keypair: Seq<u8>,
    mev_protection: bool,
) -> Result<OutgoingView, Seq<char>> {
    if !success {
        Err("PumpPortal HTTP "@ + status + ": "@ + body_text)
    } else if body.len() == 0 {
        Err("PumpPortal returned an empty transaction"@)
    } else {
        match transaction_signed(body, keypair) {
            Err(e) => Err(e),
            Ok(t) => Ok(outgoing_of(t, mev_protection)),
        }
    }
}

/// Signs the transaction that came in answer to an order. `status` is the HTTP
/// status in words and `body_text` the body as a text, for an answer that is
/// none of success.
pub fn execute_trade(
    success: bool,
    status: &str,
    body: &[u8],
    body_text: &str,
    keypair: &[u8],
    mev_protection: bool,
) -> (r: Result<Outgoing, String>)
    ensures
        outgoing_result(r) == answer_signed(success, status@, body@, body_text@, keypair@, mev_protection),
        r matches Ok(Outgoing::Jito { signature, .. }) ==> signature is Some,
{
    if !success {
        let mut s = "PumpPortal HTTP ".to_owned();
        s.append(status);
        s.append(": ");
        s.append(body_text);
        return Err(s);
    }
    if body.len() == 0 {
        return Err("PumpPortal returned an empty transaction".to_owned());
    }
    match sign_transaction(body, keypair) {
        Err(e) => Err(e),
        Ok(t) => Ok(outgoing(&t, mev_protection)),
    }
}

pub open spec fn text_result(r: Result<String, String>) -> Result<Seq<char>, Seq<char>> {
    match r {
        Ok(s) => Ok(s@),
        Err(e) => Err(e@),
    }
}

/// The signature in the reply to a transaction: none where the reply has an
/// error, or no result that is a text.
pub open spec fn rpc_signature(reply: JsonView) -> Result<Seq<char>, Seq<char>> {
    match member(reply, "error"@) {
        Some(e) => Err("RPC sendTransaction error: "@ + json_rendered(e)),
        None => match text_member(reply, "result"@) {
            Some(s) => Ok(s),
            None => Err("RPC returned no signature: "@ + json_rendered(reply)),
        },
    }
}

/// What the reply to a transaction comes to, given what it holds: its error in
/// words, its result where that is a text, and all of it in words.
pub fn rpc_outcome(error: Option<String>, result: Option<String>, whole: String) -> (r: Result<String, String>)
    ensures
        text_result(r) == match (error, result) {
            (Some(e), _) => Err::<Seq<char>, Seq<char>>("RPC sendTransaction error: "@ + e@),
            (None, Some(s)) => Ok(s@),
            (None, None) => Err("RPC returned no signature: "@ + whole@),
        },
{
    match error {
        Some(e) => {
            let mut s = "RPC sendTransaction error: ".to_owned();
            s.append(e.as_str());
            Err(s)
        },
        None => match result {
            Some(s) => Ok(s),
            None => {
                let mut s = "RPC returned no signature: ".to_owned();
                s.append(whole.as_str());
                Err(s)
            },
        },
    }
}

/// The signature in the reply to a transaction.
pub fn send_rpc(body: &[u8]) -> (r: Result<String, String>)
    ensures
        text_result(r) == match reply_document(body@) {
            Some(v) => rpc_signature(v),
            None => Err(UNREADABLE_REPLY@),
        },
{
    match read_reply(body) {
        Some(v) => {
            let whole = render(&v);
            let o = open_value(v);
            let error = match find_value(&o, "error") {
                Some(e) => Some(render(e)),
                None => None,
            };
            let result = match find_value(&o, "result") {
                Some(x) => value_as_text(x),
                None => None,
            };
            rpc_outcome(error, result, whole)
        },
        None => Err(UNREADABLE_REPLY.to_owned()),
    }
}

/// The signature of a bundle once the reply to it is there: an error in the
/// reply is an error, and so is a transaction without a signature.
pub open spec fn jito_signature(reply: JsonView, signature: Option<Seq<char>>) -> Result<Seq<char>, Seq<char>> {
    match member(reply, "error"@) {
        Some(e) => Err("Jito error: "@ + json_rendered(e)),
        None => match signature {
            Some(s) => Ok(s),
            None => Err("Signed transaction has no signature"@),
        },
    }
}

/// What the reply to a bundle comes to, given its error in words.
pub fn jito_outcome(error: Option<String>, signature: Option<String>) -> (r: Result<String, String>)
    ensures
        text_result(r) == match (error, signature) {
            (Some(e), _) => Err::<Seq<char>, Seq<char>>("Jito error: "@ + e@),
            (None, Some(s)) => Ok(s@),
            (None, None) => Err("Signed transaction has no signature"@),
        },
{
    match error {
        Some(e) => {
            let mut s = "Jito error: ".to_owned();
            s.append(e.as_str());
            Err(s)
        },
        None => match signature {
            Some(s) => Ok(s),
            None => Err("Signed transaction has no signature".to_owned()),
        },
    }
}

/// The signature of a bundle once the reply to it is there.
pub fn send_jito(body: &[u8], signature: Option<String>) -> (r: Result<String, String>)
    ensures
        text_result(r) == match reply_document(body@) {
            Some(v) => jito_signature(v, optional_text(signature)),
            None => Err(UNREADABLE_REPLY@),
        },
{
    match read_reply(body) {
        Some(v) => {
            let o = open_value(v);
            let error = match find_value(&o, "error") {
                Some(e) => Some(render(e)),
                None => None,
            };
            jito_outcome(error, signature)
        },
        None => Err(UNREADABLE_REPLY.to_owned()),
    }
}

pub open spec fn balance_request_text(wallet: Seq<char>) -> Seq<char> {
    "{\"id\":1,\"jsonrpc\":\"2.0\",\"method\":\"getBalance\",\"params\":["@ + quoted(wallet) + "]}"@
}

/// The request for a wallet's balance.
pub fn balance_request(wallet: &str) -> (r: String)
    ensures
        r@ == balance_request_text(wallet@),
{
    let q = quote(wallet);
    let mut s = "{\"id\":1,\"jsonrpc\":\"2.0\",\"method\":\"getBalance\",\"params\":[".to_owned();
    s.append(q.as_str());
    s.append("]}");
    s
}

/// The lamports in the reply to a request for a balance.
pub open spec fn balance_in(reply: JsonView) -> Option<u64> {
    match inner(reply, "result"@, "value"@) {
        Some(x) => unsigned_in(x),
        None => None,
    }
}

/// What the reply to a request for a balance comes to.
pub open spec fn balance_of(reply: Option<JsonView>) -> Result<u64, Seq<char>> {
    match reply {
        Some(v) => match balance_in(v) {
            Some(n) => Ok(n),
            None => Err("getBalance returned no value: "@ + json_rendered(v)),
        },
        None => Err(UNREADABLE_REPLY@),
    }
}

/// The lamports in a reply, as a tree.
pub fn lamports_in(reply: &Json) -> (r: Option<u64>)
    ensures
        r == balance_in(reply@),
{
    match reply.get("result") {
        Some(m) => match m.get("value") {
            Some(x) => x.as_u64(),
            None => None,
        },
        None => None,
    }
}

/// The lamports in the reply to a request for a balance.
pub fn fetch_sol_balance(body: &[u8]) -> (r: Result<u64, String>)
    ensures
        match r {
            Ok(n) => balance_of(reply_document(body@)) == Ok::<u64, Seq<char>>(n),
            Err(e) => balance_of(reply_document(body@)) == Err::<u64, Seq<char>>(e@),
        },
{
    match read_reply(body) {
        Some(v) => {
            let whole = render(&v);
            match lamports_in(&tree(v)) {
                Some(n) => Ok(n),
                None => {
                    let mut s = "getBalance returned no value: ".to_owned();
                    s.append(whole.as_str());
                    Err(s)
                },
            }
        },
        None => Err(UNREADABLE_REPLY.to_owned()),
    }
}

/// A sale goes to the market maker exactly where the token has migrated, and a
/// purchase never does; a sale is always of everything.
pub proof fn only_sales_of_migrated_tokens_leave_the_curve(side: Side, migrated: bool, amount: Seq<char>)
    ensures
        pool_name(side, migrated) == "pump-amm"@ <==> side == Side::Sell && migrated,
        order_amount(Side::Sell, amount) == "\"100%\""@,
{
    reveal_strlit("pump-amm");
    reveal_strlit("pump");
    assert("pump-amm"@.len() != "pump"@.len());
}

/// The part of an order behind the token: the pool, and what is the same for a
/// sale and a purchase.
pub open spec fn order_end(
    pool: Seq<char>,
    wallet: Seq<char>,
    slippage: Seq<char>,
    priority_fee: Seq<char>,
) -> Seq<char> {
    ",\"pool\":\""@ + pool + "\",\"priorityFee\":"@ + priority_fee + ",\"publicKey\":"@ + quoted(wallet)
        + ",\"slippage\":"@ + slippage + "}"@
}

proof fn lemma_order_parts(
    start: Seq<char>,
    pool: Seq<char>,
    wallet: Seq<char>,
    slippage: Seq<char>,
    priority_fee: Seq<char>,
)
    ensures
        start + ",\"pool\":\""@ + pool + "\",\"priorityFee\":"@ + priority_fee + ",\"publicKey\":"@ + quoted(wallet)
            + ",\"slippage\":"@ + slippage + "}"@ == start + order_end(pool, wallet, slippage, priority_fee),
{
    let a = ",\"pool\":\""@;
    let b = "\",\"priorityFee\":"@;
    let c = ",\"publicKey\":"@;
    let d = ",\"slippage\":"@;
    let w = quoted(wallet);
    assert(start + a + pool =~= start + (a + pool));
    assert(start + (a + pool) + b =~= start + (a + pool + b));
    assert(start + (a + pool + b) + priority_fee =~= start + (a + pool + b + priority_fee));
    assert(start + (a + pool + b + priority_fee) + c =~= start + (a + pool + b + priority_fee + c));
    assert(start + (a + pool + b + priority_fee + c) + w =~= start + (a + pool + b + priority_fee + c + w));
    assert(start + (a + pool + b + priority_fee + c + w) + d =~= start + (a + pool + b + priority_fee + c + w + d));
    assert(start + (a + pool + b + priority_fee + c + w + d) + slippage =~= start + (a + pool + b + priority_fee + c
        + w + d + slippage));
    assert(start + (a + pool + b + priority_fee + c + w + d + slippage) + "}"@ =~= start + (a + pool + b
        + priority_fee + c + w + d + slippage + "}"@));
}

/// A sale says that it is one, of all that is held of the token and not counted
/// in SOL, whatever amount is given and whether or not the token has migrated.
/// Only the pool tells a token that has migrated from one that has not.
pub proof fn a_sale_says_that_it_is_one(
    wallet: Seq<char>,
    mint: Seq<char>,
    denominated_in_sol: bool,
    migrated: bool,
    amount: Seq<char>,
    slippage: Seq<char>,
    priority_fee: Seq<char>,
)
    ensures
        order_text(wallet, Side::Sell, mint, denominated_in_sol, migrated, amount, slippage, priority_fee)
            == "{\"action\":\"sell\",\"amount\":\"100%\",\"denominatedInSol\":\"false\",\"mint\":"@ + quoted(mint)
            + order_end(
            if migrated {
                "pump-amm"@
            } else {
                "pump"@
            },
            wallet,
            slippage,
            priority_fee,
        ),
{
    reveal_strlit("{\"action\":\"");
    reveal_strlit("sell");
    reveal_strlit("\",\"amount\":");
    reveal_strlit("\"100%\"");
    reveal_strlit(",\"denominatedInSol\":\"");
    reveal_strlit("false");
    reveal_strlit("\",\"mint\":");
    reveal_strlit("{\"action\":\"sell\",\"amount\":\"100%\",\"denominatedInSol\":\"false\",\"mint\":");
    let start = "{\"action\":\"sell\",\"amount\":\"100%\",\"denominatedInSol\":\"false\",\"mint\":"@;
    assert("{\"action\":\""@ + "sell"@ + "\",\"amount\":"@ + "\"100%\""@ + ",\"denominatedInSol\":\""@ + "false"@
        + "\",\"mint\":"@ =~= start);
    lemma_order_parts(start + quoted(mint), pool_name(Side::Sell, migrated), wallet, slippage, priority_fee);
}

/// A purchase says that it is one, of the amount that is given, counted in SOL
/// where that is asked for. It goes to the bonding curve whether or not the token
/// has migrated.
pub proof fn a_purchase_says_that_it_is_one(
    wallet: Seq<char>,
    mint: Seq<char>,
    denominated_in_sol: bool,
    migrated: bool,
    amount: Seq<char>,
    slippage: Seq<char>,
    priority_fee: Seq<char>,
)
    ensures
        order_text(wallet, Side::Buy, mint, denominated_in_sol, migrated, amount, slippage, priority_fee)
            == "{\"action\":\"buy\",\"amount\":"@ + amount + (if denominated_in_sol {
            ",\"denominatedInSol\":\"true\",\"mint\":"@
        } else {
            ",\"denominatedInSol\":\"false\",\"mint\":"@
        }) + quoted(mint) + order_end("pump"@, wallet, slippage, priority_fee),
{
    reveal_strlit("{\"action\":\"");
    reveal_strlit("buy");
    reveal_strlit("\",\"amount\":");
    reveal_strlit(",\"denominatedInSol\":\"");
    reveal_strlit("true");
    reveal_strlit("false");
    reveal_strlit("\",\"mint\":");
    reveal_strlit("{\"action\":\"buy\",\"amount\":");
    reveal_strlit(",\"denominatedInSol\":\"true\",\"mint\":");
    reveal_strlit(",\"denominatedInSol\":\"false\",\"mint\":");
    let start = "{\"action\":\"buy\",\"amount\":"@;
    assert("{\"action\":\""@ + "buy"@ + "\",\"amount\":"@ =~= start);
    let unit = if denominated_in_sol {
        ",\"denominatedInSol\":\"true\",\"mint\":"@
    } else {
        ",\"denominatedInSol\":\"false\",\"mint\":"@
    };
    let d = ",\"denominatedInSol\":\""@;
    let m = "\",\"mint\":"@;
    let flag = order_in_sol(Side::Buy, denominated_in_sol);
    assert(d + flag + m =~= unit);
    let head = start + amount;
    assert(head + d + flag + m =~= head + (d + flag + m));
    lemma_order_parts(head + unit + quoted(mint), "pump"@, wallet, slippage, priority_fee);
}

/// Two orders that differ only in whether the token has migrated differ only in
/// the pool, and two purchases not at all.
pub proof fn migration_changes_only_the_pool(
    wallet: Seq<char>,
    side: Side,
    mint: Seq<char>,
    denominated_in_sol: bool,
    amount: Seq<char>,
    slippage: Seq<char>,
    priority_fee: Seq<char>,
)
    ensures
        exists|before: Seq<char>, behind: Seq<char>|
            {
                &&& order_text(wallet, side, mint, denominated_in_sol, true, amount, slippage, priority_fee) == before
                    + (if side == Side::Sell {
                    "pump-amm"@
                } else {
                    "pump"@
                }) + behind
                &&& order_text(wallet, side, mint, denominated_in_sol, false, amount, slippage, priority_fee)
                    == #[trigger] (before + "pump"@ + behind)
            },
{
    let before = "{\"action\":\""@ + side_name(side) + "\",\"amount\":"@ + order_amount(side, amount)
        + ",\"denominatedInSol\":\""@ + order_in_sol(side, denominated_in_sol) + "\",\"mint\":"@ + quoted(mint)
        + ",\"pool\":\""@;
    let behind = "\",\"priorityFee\":"@ + priority_fee + ",\"publicKey\":"@ + quoted(wallet) + ",\"slippage\":"@
        + slippage + "}"@;
    lemma_behind_the_pool(before + pool_name(side, true), wallet, slippage, priority_fee);
    lemma_behind_the_pool(before + pool_name(side, false), wallet, slippage, priority_fee);
    assert(order_text(wallet, side, mint, denominated_in_sol, false, amount, slippage, priority_fee) == before
        + "pump"@ + behind);
}

proof fn lemma_behind_the_pool(start: Seq<char>, wallet: Seq<char>, slippage: Seq<char>, priority_fee: Seq<char>)
    ensures
        start + "\",\"priorityFee\":"@ + priority_fee + ",\"publicKey\":"@ + quoted(wallet) + ",\"slippage\":"@
            + slippage + "}"@ == start + ("\",\"priorityFee\":"@ + priority_fee + ",\"publicKey\":"@ + quoted(wallet)
            + ",\"slippage\":"@ + slippage + "}"@),
{
    let b = "\",\"priorityFee\":"@;
    let c = ",\"publicKey\":"@;
    let d = ",\"slippage\":"@;
    let w = quoted(wallet);
    assert(start + b + priority_fee =~= start + (b + priority_fee));
    assert(start + (b + priority_fee) + c =~= start + (b + priority_fee + c));
    assert(start + (b + priority_fee + c) + w =~= start + (b + priority_fee + c + w));
    assert(start + (b + priority_fee + c + w) + d =~= start + (b + priority_fee + c + w + d));
    assert(start + (b + priority_fee + c + w + d) + slippage =~= start + (b + priority_fee + c + w + d + slippage));
    assert(start + (b + priority_fee + c + w + d + slippage) + "}"@ =~= start + (b + priority_fee + c + w + d
        + slippage + "}"@));
}

/// Protection alone decides where a signed transaction goes: with it to the
/// bundle endpoint in base58, together with its signature, and without it to the
/// RPC endpoint in base64. What is sent is the transaction as it was signed.
pub proof fn protection_decides_the_route(t: SignedView)
    ensures
        outgoing_of(t, true) == (OutgoingView::Jito {
            payload: "{\"id\":1,\"jsonrpc\":\"2.0\",\"method\":\"sendBundle\",\"params\":[["@ + quoted(
                base58_encoded(t.bytes),
            ) + "]]}"@,
            signature: t.signature,
        }),
        outgoing_of(t, false) == (OutgoingView::Rpc {
            payload: "{\"id\":1,\"jsonrpc\":\"2.0\",\"method\":\"sendTransaction\",\"params\":["@ + quoted(
                base64_text(t.bytes),
            )
                + ",{\"encoding\":\"base64\",\"maxRetries\":0,\"preflightCommitment\":\"processed\",\"skipPreflight\":true}]}"@,
        }),
{
}

/// An answer to an order is signed and sent exactly where it succeeded and holds
/// a transaction that can be signed. Otherwise the error says what is wrong with
/// it: first that it failed, with the status and the text, then that it is
/// empty, then what the signing said.
pub proof fn an_answer_is_signed_or_explained(
    success: bool,
    status: Seq<char>,
    body: Seq<u8>,
    body_text: Seq<char>,
    keypair: Seq<u8>,
    mev_protection: bool,
)
    ensures
        ({
            let r = answer_signed(success, status, body, body_text, keypair, mev_protection);
            &&& r is Ok <==> success && body.len() > 0 && transaction_signed(body, keypair) is Ok
            &&& r is Ok ==> r->Ok_0 == outgoing_of(transaction_signed(body, keypair)->Ok_0, mev_protection)
            &&& !success ==> r->Err_0 == "PumpPortal HTTP "@ + status + ": "@ + body_text
            &&& success && body.len() == 0 ==> r->Err_0 == "PumpPortal returned an empty transaction"@
            &&& success && body.len() > 0 && transaction_signed(body, keypair) is Err ==> r->Err_0
                == transaction_signed(body, keypair)->Err_0
        }),
{
}

/// A reply yields the signature in its result exactly where it has no error and
/// the result is a text; else the error is passed on in words, or the whole reply
/// where there is none.
pub proof fn a_reply_without_error_yields_its_result(reply: JsonView)
    ensures
        member(reply, "error"@) is None && text_member(reply, "result"@) is Some ==> rpc_signature(reply) == Ok::<
            Seq<char>,
            Seq<char>,
        >(text_member(reply, "result"@)->0),
        member(reply, "error"@) is Some ==> rpc_signature(reply) == Err::<Seq<char>, Seq<char>>(
            "RPC sendTransaction error: "@ + json_rendered(member(reply, "error"@)->0),
        ),
        member(reply, "error"@) is None && text_member(reply, "result"@) is None ==> rpc_signature(reply) == Err::<
            Seq<char>,
            Seq<char>,
        >("RPC returned no signature: "@ + json_rendered(reply)),
{
}

/// A bundle has the signature that the transaction was signed with exactly where
/// the reply has no error, whatever else the reply says.
pub proof fn a_bundle_has_its_transactions_signature(reply: JsonView, signature: Seq<char>)
    ensures
        member(reply, "error"@) is None ==> jito_signature(reply, Some(signature)) == Ok::<Seq<char>, Seq<char>>(
            signature,
        ),
        member(reply, "error"@) is None ==> jito_signature(reply, None) == Err::<Seq<char>, Seq<char>>(
            "Signed transaction has no signature"@,
        ),
        member(reply, "error"@) is Some ==> jito_signature(reply, Some(signature)) == Err::<Seq<char>, Seq<char>>(
            "Jito error: "@ + json_rendered(member(reply, "error"@)->0),
        ),
{
}

/// A balance is the unsigned number under `value` in the result of the reply, and
/// a reply that has none is an error that holds the reply.
pub proof fn a_balance_is_what_the_reply_says(reply: JsonView, result: JsonView, value: JsonView, n: u64)
    ensures
        member(reply, "result"@) == Some(result) && member(result, "value"@) == Some(value) && unsigned_in(value)
            == Some(n) ==> balance_of(Some(reply)) == Ok::<u64, Seq<char>>(n),
        member(reply, "result"@) is None ==> balance_of(Some(reply)) == Err::<u64, Seq<char>>(
            "getBalance returned no value: "@ + json_rendered(reply),
        ),
        member(reply, "result"@) == Some(result) && member(result, "value"@) is None ==> balance_of(Some(reply))
            == Err::<u64, Seq<char>>("getBalance returned no value: "@ + json_rendered(reply)),
        member(reply, "result"@) == Some(result) && member(result, "value"@) == Some(value) && unsigned_in(value)
            is None ==> balance_of(Some(reply)) == Err::<u64, Seq<char>>(
            "getBalance returned no value: "@ + json_rendered(reply),
        ),
        balance_of(None) is Err,
{
}

/// The request for a balance names the wallet, and nothing else in it changes.
pub proof fn a_balance_is_asked_for_the_wallet(wallet: Seq<char>)
    ensures
        balance_request_text(wallet) == "{\"id\":1,\"jsonrpc\":\"2.0\",\"method\":\"getBalance\",\"params\":["@
            + quoted(wallet) + "]}"@,
{
}

/// A reply with an error never yields a signature.
pub proof fn errors_yield_no_signature(reply: JsonView, signature: Option<Seq<char>>)
    requires
        member(reply, "error"@) is Some,
    ensures
        rpc_signature(reply) is Err,
        jito_signature(reply, signature) is Err,
{
}

/// An outcome is handed on as it is: what succeeded with what it gave, and an error with
/// what it says.
pub proof fn outcomes_are_handed_on(o: Outgoing, s: String)
    ensures
        outgoing_result(Ok(o)) == Ok::<OutgoingView, Seq<char>>(o@),
        outgoing_result(Err(s)) == Err::<OutgoingView, Seq<char>>(s@),
        text_result(Ok(s)) == Ok::<Seq<char>, Seq<char>>(s@),
        text_result(Err(s)) == Err::<Seq<char>, Seq<char>>(s@),
{
}

} // verus!
