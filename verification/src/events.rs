//! Messages of the token stream.

use crate::clock;
use crate::double::Double;
use crate::json::{self, json_document, member, text_member, unsigned_in, Json, JsonView};
use crate::text::same;
use vstd::prelude::*;
use vstd::string::*;

verus! {

/// Time stamps below this count seconds, others milliseconds.
pub const FIRST_MILLISECOND_STAMP: u64 = 1_000_000_000_000;

/// A token that was just created.
#[derive(Debug)]
pub struct NewToken {
    pub mint: String,
    pub name: String,
    pub symbol: String,
    /// When the message arrived.
    pub received_at: std::time::Instant,
    /// When the token was created according to the message, in milliseconds of
    /// the Unix epoch.
    pub source_timestamp_ms: Option<u64>,
}

/// What a message says of a new token.
pub struct NewTokenView {
    pub mint: Seq<char>,
    pub name: Seq<char>,
    pub symbol: Seq<char>,
    pub source_timestamp_ms: Option<u64>,
}

impl View for NewToken {
    type V = NewTokenView;

    open spec fn view(&self) -> NewTokenView {
        NewTokenView {
            mint: self.mint@,
            name: self.name@,
            symbol: self.symbol@,
            source_timestamp_ms: self.source_timestamp_ms,
        }
    }
}

/// An amount as a message gives it: a number, or a text that may write one.
#[derive(Debug)]
pub enum Amount {
    Value(Double),
    Unsigned(u64),
    Signed(i64),
    Text(String),
}

/// What an amount holds.
pub enum AmountView {
    Value(Double),
    Unsigned(u64),
    Signed(i64),
    Text(Seq<char>),
}

impl View for Amount {
    type V = AmountView;

    open spec fn view(&self) -> AmountView {
        match *self {
            Amount::Value(d) => AmountView::Value(d),
            Amount::Unsigned(n) => AmountView::Unsigned(n),
            Amount::Signed(n) => AmountView::Signed(n),
            Amount::Text(s) => AmountView::Text(s@),
        }
    }
}

/// A trade as a message gives it.
#[derive(Debug)]
pub struct RawTrade {
    pub mint: String,
    pub tx_type: String,
    pub trader: String,
    pub sol_amount: Amount,
    pub token_amount: Amount,
}

/// What a message says of a trade.
pub struct RawTradeView {
    pub mint: Seq<char>,
    pub tx_type: Seq<char>,
    pub trader: Seq<char>,
    pub sol_amount: AmountView,
    pub token_amount: AmountView,
}

impl View for RawTrade {
    type V = RawTradeView;

    open spec fn view(&self) -> RawTradeView {
        RawTradeView {
            mint: self.mint@,
            tx_type: self.tx_type@,
            trader: self.trader@,
            sol_amount: self.sol_amount@,
            token_amount: self.token_amount@,
        }
    }
}

/// A trade.
#[derive(Debug)]
pub struct TradeEvent {
    pub mint: String,
    pub tx_type: String,
    pub trader: String,
    pub sol_amount: Double,
    pub token_amount: Double,
}

/// What a trade holds.
pub struct TradeEventView {
    pub mint: Seq<char>,
    pub tx_type: Seq<char>,
    pub trader: Seq<char>,
    pub sol_amount: Double,
    pub token_amount: Double,
}

impl View for TradeEvent {
    type V = TradeEventView;

    open spec fn view(&self) -> TradeEventView {
        TradeEventView {
            mint: self.mint@,
            tx_type: self.tx_type@,
            trader: self.trader@,
            sol_amount: self.sol_amount,
            token_amount: self.token_amount,
        }
    }
}

/// What a message is about.
#[derive(Debug)]
pub enum StreamEvent {
    Migration { mint: String, name: String, symbol: String },
    Created(NewToken),
    Trade(RawTrade),
    Other,
}

/// What a message says.
pub enum StreamEventView {
    Migration { mint: Seq<char>, name: Seq<char>, symbol: Seq<char> },
    Created(NewTokenView),
    Trade(RawTradeView),
    Other,
}

impl View for StreamEvent {
    type V = StreamEventView;

    open spec fn view(&self) -> StreamEventView {
        match *self {
            StreamEvent::Migration { mint, name, symbol } => StreamEventView::Migration {
                mint: mint@,
                name: name@,
                symbol: symbol@,
            },
            StreamEvent::Created(t) => StreamEventView::Created(t@),
            StreamEvent::Trade(t) => StreamEventView::Trade(t@),
            StreamEvent::Other => StreamEventView::Other,
        }
    }
}

/// A text, or the default where there is none.
pub open spec fn text_or(s: Option<Seq<char>>, default: Seq<char>) -> Seq<char> {
    match s {
        Some(t) => t,
        None => default,
    }
}

/// The first of the three time stamps that the message has.
pub open spec fn stamp_member(v: JsonView) -> Option<JsonView> {
    if member(v, "timestamp"@) is Some {
        member(v, "timestamp"@)
    } else if member(v, "createdTimestamp"@) is Some {
        member(v, "createdTimestamp"@)
    } else {
        member(v, "created_timestamp"@)
    }
}

/// A time stamp in milliseconds.
pub open spec fn in_millis(ts: u64) -> u64 {
    if ts < FIRST_MILLISECOND_STAMP {
        (ts * 1_000) as u64
    } else {
        ts
    }
}

pub open spec fn stamp_in(v: JsonView) -> Option<u64> {
    match stamp_member(v) {
        Some(m) => match unsigned_in(m) {
            Some(ts) => Some(in_millis(ts)),
            None => None,
        },
        None => None,
    }
}

/// The new token that a message announces.
pub open spec fn new_token_in(v: JsonView) -> Option<NewTokenView> {
    if text_member(v, "txType"@) != Some("create"@) {
        None
    } else {
        match text_member(v, "mint"@) {
            Some(mint) => Some(
                NewTokenView {
                    mint,
                    name: text_or(text_member(v, "name"@), "Unknown"@),
                    symbol: text_or(text_member(v, "symbol"@), "?"@),
                    source_timestamp_ms: stamp_in(v),
                },
            ),
            None => None,
        }
    }
}

/// The amount that a member gives.
pub open spec fn amount_in(v: JsonView, key: Seq<char>) -> Option<AmountView> {
    match member(v, key) {
        Some(JsonView::Number(n)) => match (n.double, n.unsigned, n.signed) {
            (Some((d, _)), _, _) => Some(AmountView::Value(d)),
            (None, Some(u), _) => Some(AmountView::Unsigned(u)),
            (None, None, Some(i)) => Some(AmountView::Signed(i)),
            (None, None, None) => None,
        },
        Some(JsonView::Text(s)) => Some(AmountView::Text(s)),
        _ => None,
    }
}

/// Who traded.
pub open spec fn trader_in(v: JsonView) -> Seq<char> {
    match text_member(v, "traderPublicKey"@) {
        Some(s) => s,
        None => text_or(text_member(v, "trader"@), Seq::empty()),
    }
}

/// The trade that a message reports.
pub open spec fn trade_in(v: JsonView) -> Option<RawTradeView> {
    match (text_member(v, "mint"@), amount_in(v, "solAmount"@), amount_in(v, "tokenAmount"@)) {
        (Some(mint), Some(sol_amount), Some(token_amount)) => Some(
            RawTradeView {
                mint,
                tx_type: text_or(text_member(v, "txType"@), Seq::empty()),
                trader: trader_in(v),
                sol_amount,
                token_amount,
            },
        ),
        _ => None,
    }
}

/// What a message says: a migration where its type is `migrate`, else a new
/// token where it announces one, else a trade where it reports one.
pub open spec fn event_in(v: JsonView) -> StreamEventView {
    if text_member(v, "txType"@) == Some("migrate"@) {
        match text_member(v, "mint"@) {
            Some(mint) => StreamEventView::Migration {
                mint,
                name: text_or(text_member(v, "name"@), "Migrated token"@),
                symbol: text_or(text_member(v, "symbol"@), "?"@),
            },
            None => StreamEventView::Other,
        }
    } else {
        match (new_token_in(v), trade_in(v)) {
            (Some(t), _) => StreamEventView::Created(t),
            (None, Some(t)) => StreamEventView::Trade(t),
            (None, None) => StreamEventView::Other,
        }
    }
}

fn or_text(s: Option<String>, default: &str) -> (r: String)
    ensures
        r@ == text_or(
            match s {
                Some(t) => Some(t@),
                None => None,
            },
            default@,
        ),
{
    match s {
        Some(t) => t,
        None => default.to_owned(),
    }
}

/// The member called `key`, where it is a text.
pub fn string_field(v: &Json, key: &str) -> (r: Option<String>)
    ensures
        match r {
            Some(s) => text_member(v@, key@) == Some(s@),
            None => text_member(v@, key@) == None::<Seq<char>>,
        },
{
    v.text_field(key)
}

/// The amount that a member gives.
pub fn number_field(v: &Json, key: &str) -> (r: Option<Amount>)
    ensures
        match r {
            Some(a) => amount_in(v@, key@) == Some(a@),
            None => amount_in(v@, key@) == None::<AmountView>,
        },
{
    match v.get(key) {
        Some(Json::Number(n)) => match &n.double {
            Some(d) => Some(Amount::Value(d.value)),
            None => match n.unsigned {
                Some(u) => Some(Amount::Unsigned(u)),
                None => match n.signed {
                    Some(i) => Some(Amount::Signed(i)),
                    None => None,
                },
            },
        },
        Some(Json::Text(s)) => Some(Amount::Text(s.clone())),
        _ => None,
    }
}

fn source_stamp(v: &Json) -> (r: Option<u64>)
    ensures
        r == stamp_in(v@),
{
    let found = match v.get("timestamp") {
        Some(m) => Some(m),
        None => match v.get("createdTimestamp") {
            Some(m) => Some(m),
            None => v.get("created_timestamp"),
        },
    };
    match found {
        Some(m) => match m.as_u64() {
            Some(ts) => if ts < FIRST_MILLISECOND_STAMP {
                Some(ts * 1_000)
            } else {
                Some(ts)
            },
            None => None,
        },
        None => None,
    }
}

/// The new token that a message announces.
pub fn parse_new_token(v: &Json) -> (r: Option<NewToken>)
    ensures
        match r {
            Some(t) => new_token_in(v@) == Some(t@),
            None => new_token_in(v@) == None::<NewTokenView>,
        },
{
    let create = match v.get("txType") {
        Some(m) => match m.as_str() {
            Some(s) => same(s, "create"),
            None => false,
        },
        None => false,
    };
    if !create {
        return None;
    }
    let mint = match string_field(v, "mint") {
        Some(m) => m,
        None => return None,
    };
    let name = or_text(string_field(v, "name"), "Unknown");
    let symbol = or_text(string_field(v, "symbol"), "?");
    let source_timestamp_ms = source_stamp(v);
    Some(NewToken { mint, name, symbol, received_at: clock::instant_now(), source_timestamp_ms })
}

/// The trade that a message reports.
pub fn parse_trade_event(v: &Json) -> (r: Option<RawTrade>)
    ensures
        match r {
            Some(t) => trade_in(v@) == Some(t@),
            None => trade_in(v@) == None::<RawTradeView>,
        },
{
    let mint = match string_field(v, "mint") {
        Some(m) => m,
        None => return None,
    };
    let tx_type = match string_field(v, "txType") {
        Some(s) => s,
        None => String::new(),
    };
    let trader = match string_field(v, "traderPublicKey") {
        Some(s) => s,
        None => match string_field(v, "trader") {
            Some(s) => s,
            None => String::new(),
        },
    };
    let sol_amount = match number_field(v, "solAmount") {
        Some(a) => a,
        None => return None,
    };
    let token_amount = match number_field(v, "tokenAmount") {
        Some(a) => a,
        None => return None,
    };
    Some(RawTrade { mint, tx_type, trader, sol_amount, token_amount })
}

/// What a message says.
pub fn classify(v: &Json) -> (r: StreamEvent)
    ensures
        r@ == event_in(v@),
{
    let migrate = match v.get("txType") {
        Some(m) => match m.as_str() {
            Some(s) => same(s, "migrate"),
            None => false,
        },
        None => false,
    };
    if migrate {
        return match string_field(v, "mint") {
            Some(mint) => StreamEvent::Migration {
                mint,
                name: or_text(string_field(v, "name"), "Migrated token"),
                symbol: or_text(string_field(v, "symbol"), "?"),
            },
            None => StreamEvent::Other,
        };
    }
    match parse_new_token(v) {
        Some(t) => StreamEvent::Created(t),
        None => match parse_trade_event(v) {
            Some(t) => StreamEvent::Trade(t),
            None => StreamEvent::Other,
        },
    }
}

/// What the text of a message says. A text that is not JSON says nothing.
pub open spec fn event_of(raw: Seq<char>) -> StreamEventView {
    match json_document(raw) {
        Ok(v) => event_in(v),
        Err(_) => StreamEventView::Other,
    }
}

/// What the text of a message says.
pub fn handle_ws_message(raw: &str) -> (r: StreamEvent)
    ensures
        r@ == event_of(raw@),
{
    match json::parse(raw) {
        Ok(v) => classify(&v),
        Err(_) => StreamEvent::Other,
    }
}

/// An amount once it is a double: a number is one already or converts to one,
/// a text is one where it parses.
pub open spec fn resolved(a: AmountView, reading: Option<Double>) -> Option<Double> {
    match a {
        AmountView::Value(d) => Some(d),
        _ => reading,
    }
}

/// An amount once it is a double. `reading` is the integer as a double, or what
/// the text parses to; a double needs none.
pub fn resolve(a: &Amount, reading: Option<Double>) -> (r: Option<Double>)
    ensures
        r == resolved(a@, reading),
{
    match a {
        Amount::Value(d) => Some(*d),
        _ => reading,
    }
}

/// The trade once its amounts are doubles.
pub open spec fn trade_resolved(
    t: RawTradeView,
    sol_reading: Option<Double>,
    token_reading: Option<Double>,
) -> Option<TradeEventView> {
    match (resolved(t.sol_amount, sol_reading), resolved(t.token_amount, token_reading)) {
        (Some(sol_amount), Some(token_amount)) => Some(
            TradeEventView { mint: t.mint, tx_type: t.tx_type, trader: t.trader, sol_amount, token_amount },
        ),
        _ => None,
    }
}

/// The trade once its amounts are doubles. A trade with an amount that is none
/// is no trade.
pub fn resolve_trade(t: RawTrade, sol_reading: Option<Double>, token_reading: Option<Double>) -> (r: Option<TradeEvent>)
    ensures
        match (resolved(t@.sol_amount, sol_reading), resolved(t@.token_amount, token_reading)) {
            (Some(sol_amount), Some(token_amount)) => r matches Some(e) && e@ == (TradeEventView {
                mint: t@.mint,
                tx_type: t@.tx_type,
                trader: t@.trader,
                sol_amount,
                token_amount,
            }),
            _ => r is None,
        },
        match r {
            Some(e) => trade_resolved(t@, sol_reading, token_reading) == Some(e@),
            None => trade_resolved(t@, sol_reading, token_reading) is None,
        },
{
    let sol_amount = match resolve(&t.sol_amount, sol_reading) {
        Some(d) => d,
        None => return None,
    };
    let token_amount = match resolve(&t.token_amount, token_reading) {
        Some(d) => d,
        None => return None,
    };
    Some(TradeEvent { mint: t.mint, tx_type: t.tx_type, trader: t.trader, sol_amount, token_amount })
}

/// Whether a token is fresh: by its own time stamp where that is not in the
/// future, else by how long ago the message arrived.
pub open spec fn fresh(source_timestamp_ms: Option<u64>, now_ms: u64, waited_ms: u64, max_age_ms: u64) -> bool {
    match source_timestamp_ms {
        Some(t) if now_ms >= t => now_ms - t <= max_age_ms,
        _ => waited_ms <= max_age_ms,
    }
}

/// Whether a token is fresh at `now_ms`, `waited_ms` after its message arrived.
pub fn is_fresh_at(token: &NewToken, now_ms: u64, waited_ms: u64, max_age_ms: u64) -> (r: bool)
    ensures
        r == fresh(token.source_timestamp_ms, now_ms, waited_ms, max_age_ms),
{
    if let Some(t) = token.source_timestamp_ms {
        if now_ms >= t {
            return now_ms - t <= max_age_ms;
        }
    }
    waited_ms <= max_age_ms
}

/// Whether a token is fresh now: at the system time of the call, and by the time
/// from the arrival of its message to the call.
pub fn is_fresh(token: &NewToken, max_age_ms: u64) -> (r: bool)
    ensures
        exists|time: std::time::SystemTime, end: std::time::Instant|
            r == fresh(
                token.source_timestamp_ms,
                clock::epoch_millis(#[trigger] clock::epoch_reading(time)),
                clock::cut_millis(#[trigger] clock::millis_apart(token.received_at, end)),
                max_age_ms,
            ),
{
    let now_ms: u64 = clock::unix_ms();
    let waited_ms: u64 = clock::low_millis(clock::elapsed_millis(&token.received_at));
    is_fresh_at(token, now_ms, waited_ms, max_age_ms)
}

/// A time stamp comes out in milliseconds whichever unit it was in: what counts
/// seconds, below a million million, is multiplied without loss, and nothing else
/// is touched.
pub proof fn stamps_come_out_in_milliseconds(ts: u64)
    ensures
        ts < 1_000_000_000_000 ==> in_millis(ts) == ts * 1_000,
        ts >= 1_000_000_000_000 ==> in_millis(ts) == ts,
{
}

/// The first of the three names under which the message has a time stamp counts,
/// whatever the others hold. One that is no unsigned number counts as none.
pub proof fn the_first_stamp_counts(v: JsonView)
    ensures
        ({
            let a = member(v, "timestamp"@);
            let b = member(v, "createdTimestamp"@);
            let c = member(v, "created_timestamp"@);
            let m = if a is Some {
                a
            } else if b is Some {
                b
            } else {
                c
            };
            &&& m is None ==> stamp_in(v) is None
            &&& m is Some && unsigned_in(m->0) is None ==> stamp_in(v) is None
            &&& m is Some && unsigned_in(m->0) is Some ==> stamp_in(v) == Some(in_millis(unsigned_in(m->0)->0))
        }),
{
}

/// A message announces a token exactly where its type is `create` and its mint a
/// text. The name and the symbol are what it says, `Unknown` and `?` where it says
/// nothing, and neither decides whether there is a token.
pub proof fn a_creation_with_a_mint_is_a_new_token(v: JsonView)
    ensures
        new_token_in(v) is Some <==> text_member(v, "txType"@) == Some("create"@) && text_member(v, "mint"@) is Some,
        new_token_in(v) is Some ==> {
            let t = new_token_in(v)->0;
            &&& Some(t.mint) == text_member(v, "mint"@)
            &&& text_member(v, "name"@) is Some ==> Some(t.name) == text_member(v, "name"@)
            &&& text_member(v, "name"@) is None ==> t.name == "Unknown"@
            &&& text_member(v, "symbol"@) is Some ==> Some(t.symbol) == text_member(v, "symbol"@)
            &&& text_member(v, "symbol"@) is None ==> t.symbol == "?"@
            &&& t.source_timestamp_ms == stamp_in(v)
        },
{
}

/// An amount is a number or a text: a text as it stands, a number by its reading
/// as a double where it has one, else as an integer. Nothing else is an amount.
pub proof fn amounts_are_numbers_or_texts(v: JsonView, key: Seq<char>)
    ensures
        match member(v, key) {
            Some(JsonView::Text(s)) => amount_in(v, key) == Some(AmountView::Text(s)),
            Some(JsonView::Number(n)) => match n.double {
                Some((d, _)) => amount_in(v, key) == Some(AmountView::Value(d)),
                None => if n.unsigned is Some {
                    amount_in(v, key) == Some(AmountView::Unsigned(n.unsigned->0))
                } else if n.signed is Some {
                    amount_in(v, key) == Some(AmountView::Signed(n.signed->0))
                } else {
                    amount_in(v, key) is None
                },
            },
            _ => amount_in(v, key) is None,
        },
{
}

/// A message reports a trade exactly where it has a mint and both amounts. Type
/// and trader are what it says, or empty; they do not decide whether there is a
/// trade.
pub proof fn a_mint_and_two_amounts_are_a_trade(v: JsonView)
    ensures
        trade_in(v) is Some <==> text_member(v, "mint"@) is Some && amount_in(v, "solAmount"@) is Some && amount_in(
            v,
            "tokenAmount"@,
        ) is Some,
        trade_in(v) is Some ==> {
            let t = trade_in(v)->0;
            &&& Some(t.mint) == text_member(v, "mint"@)
            &&& Some(t.sol_amount) == amount_in(v, "solAmount"@)
            &&& Some(t.token_amount) == amount_in(v, "tokenAmount"@)
            &&& text_member(v, "txType"@) is Some ==> Some(t.tx_type) == text_member(v, "txType"@)
            &&& text_member(v, "txType"@) is None ==> t.tx_type.len() == 0
            &&& text_member(v, "traderPublicKey"@) is Some ==> Some(t.trader) == text_member(v, "traderPublicKey"@)
            &&& text_member(v, "traderPublicKey"@) is None && text_member(v, "trader"@) is Some ==> Some(t.trader)
                == text_member(v, "trader"@)
            &&& text_member(v, "traderPublicKey"@) is None && text_member(v, "trader"@) is None ==> t.trader.len()
                == 0
        },
{
}

/// What a message is taken for: a migration exactly where its type is `migrate`
/// and it has a mint; else the token that it announces; else the trade that it
/// reports; else nothing. A text that is not JSON is nothing either.
pub proof fn every_message_is_sorted(v: JsonView, raw: Seq<char>)
    ensures
        ({
            let migrates = text_member(v, "txType"@) == Some("migrate"@);
            match event_in(v) {
                StreamEventView::Migration { mint, name, symbol } => migrates && Some(mint) == text_member(v, "mint"@)
                    && name == match text_member(v, "name"@) {
                    Some(n) => n,
                    None => "Migrated token"@,
                } && symbol == match text_member(v, "symbol"@) {
                    Some(n) => n,
                    None => "?"@,
                },
                StreamEventView::Created(t) => !migrates && new_token_in(v) == Some(t),
                StreamEventView::Trade(t) => !migrates && new_token_in(v) is None && trade_in(v) == Some(t),
                StreamEventView::Other => if migrates {
                    text_member(v, "mint"@) is None
                } else {
                    new_token_in(v) is None && trade_in(v) is None
                },
            }
        }),
        match json_document(raw) {
            Ok(document) => event_of(raw) == event_in(document),
            Err(_) => event_of(raw) is Other,
        },
{
}

/// A token is fresh by its own time stamp once that has passed, whenever its
/// message arrived; without one, or with one that lies ahead, it is fresh by the
/// arrival. The limit itself is still fresh.
pub proof fn a_stamp_that_has_passed_decides(stamp: u64, now_ms: u64, waited_ms: u64, max_age_ms: u64)
    ensures
        stamp <= now_ms ==> (fresh(Some(stamp), now_ms, waited_ms, max_age_ms) <==> now_ms <= stamp + max_age_ms),
        stamp > now_ms ==> (fresh(Some(stamp), now_ms, waited_ms, max_age_ms) <==> waited_ms <= max_age_ms),
        fresh(None, now_ms, waited_ms, max_age_ms) <==> waited_ms <= max_age_ms,
{
}

/// A double is an amount whatever the reading; any other amount is what it reads
/// as, and none where it reads as nothing. A trade is one exactly where both its
/// amounts are, and keeps everything else.
pub proof fn a_trade_needs_both_amounts(t: RawTradeView, d: Double, sol: Option<Double>, token: Option<Double>)
    ensures
        resolved(AmountView::Value(d), sol) == Some(d),
        t.sol_amount !is Value ==> resolved(t.sol_amount, sol) == sol,
        trade_resolved(t, sol, token) is Some <==> resolved(t.sol_amount, sol) is Some && resolved(
            t.token_amount,
            token,
        ) is Some,
        trade_resolved(t, sol, token) is Some ==> {
            let e = trade_resolved(t, sol, token)->0;
            &&& e.mint == t.mint
            &&& e.tx_type == t.tx_type
            &&& e.trader == t.trader
            &&& Some(e.sol_amount) == resolved(t.sol_amount, sol)
            &&& Some(e.token_amount) == resolved(t.token_amount, token)
        },
{
}

/// A message that announces a token is never taken for a trade, and a message
/// about a migration is never taken for either.
pub proof fn messages_have_one_meaning(v: JsonView)
    ensures
        new_token_in(v) is Some ==> event_in(v) == StreamEventView::Created(new_token_in(v)->0),
        event_in(v) is Trade ==> new_token_in(v) is None && text_member(v, "txType"@) != Some("migrate"@),
        event_in(v) is Created ==> text_member(v, "txType"@) == Some("create"@),
        event_in(v) is Migration ==> text_member(v, "txType"@) == Some("migrate"@),
{
    reveal_strlit("create");
    reveal_strlit("migrate");
    assert("create"@ != "migrate"@) by {
        assert("create"@.len() != "migrate"@.len());
    }
}

/// A token gets no fresher by waiting: one that is stale at some time is stale
/// at every later one, once its time stamp lies in the past.
pub proof fn staleness_lasts(source: u64, now_ms: u64, later_ms: u64, waited_ms: u64, later_waited_ms: u64, max_age_ms: u64)
    requires
        source <= now_ms <= later_ms,
        !fresh(Some(source), now_ms, waited_ms, max_age_ms),
    ensures
        !fresh(Some(source), later_ms, later_waited_ms, max_age_ms),
{
}

} // verus!
