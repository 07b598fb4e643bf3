//! The token feed: a stream of messages, of which each token found is printed.

use crate::json::{self, json_document, lemma_members_of, lemma_trees_of, member, Json, JsonView, NumberView};
use crate::session::Incoming;
use crate::text::{decimal, decimal_signed, decimal_text, same, signed_text, utf8_lossy, utf8_text_lossy, views};
use vstd::prelude::*;
use vstd::string::*;

verus! {

/// Where the feed comes from.
pub const WS_URL: &'static str = "wss://pumpportal.fun/api/data";

/// Seconds before the feed is connected again.
pub const RECONNECT_SECONDS: u64 = 4;

/// What the feed asks for.
pub const SUBSCRIBE: &'static str = "{\"method\":\"SubscribeNewToken\"}";

/// What `Url::parse` makes of a text: the URL written out, or the message of its
/// error.
pub uninterp spec fn url_parsed(text: Seq<char>) -> Result<Seq<char>, Seq<char>>;

/// `Url::parse`, which depends on the text alone.
#[verifier::external_body]
fn parse_url(text: &str) -> (r: Result<String, String>)
    ensures
        match r {
            Ok(u) => url_parsed(text@) == Ok::<Seq<char>, Seq<char>>(u@),
            Err(e) => url_parsed(text@) == Err::<Seq<char>, Seq<char>>(e@),
        },
{
    url::Url::parse(text).map(|u| u.to_string()).map_err(|e| e.to_string())
}

/// The URL that a text writes.
pub fn read_url(text: &str) -> (r: Result<String, String>)
    ensures
        match r {
            Ok(u) => url_parsed(text@) == Ok::<Seq<char>, Seq<char>>(u@),
            Err(e) => url_parsed(text@) == Err::<Seq<char>, Seq<char>>(e@),
        },
{
    parse_url(text)
}

/// The address of the feed.
pub fn feed_url() -> (r: Result<String, String>)
    ensures
        match r {
            Ok(u) => url_parsed(WS_URL@) == Ok::<Seq<char>, Seq<char>>(u@),
            Err(e) => url_parsed(WS_URL@) == Err::<Seq<char>, Seq<char>>(e@),
        },
{
    read_url(WS_URL)
}

/// The first object with a mint in a document: the value itself, its `data`
/// member, or else what its members or items hold, one after the other.
pub open spec fn record_in(v: JsonView) -> Option<JsonView>
    decreases v,
{
    match v {
        JsonView::Object(members) => if member(v, "mint"@) is Some {
            Some(v)
        } else if member(v, "data"@) is Some && member(member(v, "data"@)->0, "mint"@) is Some {
            member(v, "data"@)
        } else {
            record_among_members(members)
        },
        JsonView::List(items) => record_among(items),
        _ => None,
    }
}

pub open spec fn record_among(items: Seq<JsonView>) -> Option<JsonView>
    decreases items,
{
    if items.len() == 0 {
        None
    } else if record_in(items[0]) is Some {
        record_in(items[0])
    } else {
        record_among(items.drop_first())
    }
}

pub open spec fn record_among_members(members: Seq<(Seq<char>, JsonView)>) -> Option<JsonView>
    decreases members,
{
    if members.len() == 0 {
        None
    } else if record_in(members[0].1) is Some {
        record_in(members[0].1)
    } else {
        record_among_members(members.drop_first())
    }
}

/// Finds the token record in a document.
pub fn find_token_record(value: &Json) -> (r: Option<&Json>)
    ensures
        match r {
            Some(j) => record_in(value@) == Some(j@),
            None => record_in(value@) == None::<JsonView>,
        },
    decreases value,
{
    match value {
        Json::Object(members) => {
            if value.get("mint").is_some() {
                return Some(value);
            }
            if let Some(data) = value.get("data") {
                if data.get("mint").is_some() {
                    return Some(data);
                }
            }
            let ghost tree = value@->Object_0;
            proof {
                assert(*value == Json::Object(*members));
                lemma_members_of(members@);
                assert(tree.skip(0) =~= tree);
            }
            let n: usize = members.len();
            let mut i: usize = 0;
            while i < n
                invariant
                    n == members@.len(),
                    i <= n,
                    *value == Json::Object(*members),
                    tree.len() == n,
                    record_in(value@) == record_among_members(tree),
                    forall|k: int| 0 <= k < n ==> #[trigger] tree[k] == (members@[k].0@, members@[k].1@),
                    record_among_members(tree) == record_among_members(tree.skip(i as int)),
                decreases n - i,
            {
                proof {
                    assert(tree.skip(i as int)[0] == tree[i as int]);
                    assert(tree.skip(i as int).drop_first() =~= tree.skip(i + 1));
                    assert(decreases_to!(value => members));
                    assert(decreases_to!(members => members@));
                    assert(decreases_to!(members@ => members@[i as int]));
                    assert(decreases_to!(members@[i as int] => members@[i as int].1));
                }
                let found = find_token_record(&members[i].1);
                if found.is_some() {
                    return found;
                }
                i += 1;
            }
            None
        },
        Json::List(items) => {
            let ghost tree = value@->List_0;
            proof {
                assert(*value == Json::List(*items));
                lemma_trees_of(items@);
                assert(tree.skip(0) =~= tree);
            }
            let n: usize = items.len();
            let mut i: usize = 0;
            while i < n
                invariant
                    n == items@.len(),
                    i <= n,
                    *value == Json::List(*items),
                    tree.len() == n,
                    record_in(value@) == record_among(tree),
                    forall|k: int| 0 <= k < n ==> #[trigger] tree[k] == items@[k]@,
                    record_among(tree) == record_among(tree.skip(i as int)),
                decreases n - i,
            {
                proof {
                    assert(tree.skip(i as int)[0] == tree[i as int]);
                    assert(tree.skip(i as int).drop_first() =~= tree.skip(i + 1));
                    assert(decreases_to!(value => items));
                    assert(decreases_to!(items => items@));
                    assert(decreases_to!(items@ => items@[i as int]));
                }
                let found = find_token_record(&items[i]);
                if found.is_some() {
                    return found;
                }
                i += 1;
            }
            None
        },
        _ => None,
    }
}

/// How a number is printed: as a double where it can be read as one.
pub open spec fn number_text(n: NumberView) -> Option<Seq<char>> {
    match (n.double, n.signed, n.unsigned) {
        (Some((_, text)), _, _) => Some(text),
        (None, Some(i), _) => Some(signed_text(i as int)),
        (None, None, Some(u)) => Some(signed_text(u as int)),
        (None, None, None) => None,
    }
}

/// How a value is printed: a text as it is, a number in decimal.
pub open spec fn value_text(v: JsonView) -> Option<Seq<char>> {
    match v {
        JsonView::Text(s) => Some(s),
        JsonView::Number(n) => number_text(n),
        _ => None,
    }
}

/// The first of the members called so that can be printed.
pub open spec fn first_text(v: JsonView, keys: Seq<Seq<char>>) -> Option<Seq<char>>
    decreases keys.len(),
{
    if keys.len() == 0 {
        None
    } else {
        match member(v, keys[0]) {
            Some(m) if value_text(m) is Some => value_text(m),
            _ => first_text(v, keys.drop_first()),
        }
    }
}

fn print_value(v: &Json) -> (r: Option<String>)
    ensures
        match r {
            Some(s) => value_text(v@) == Some(s@),
            None => value_text(v@) == None::<Seq<char>>,
        },
{
    match v {
        Json::Text(s) => Some(s.clone()),
        Json::Number(n) => match &n.double {
            Some(d) => Some(d.text.clone()),
            None => match n.signed {
                Some(i) => Some(decimal_signed(i)),
                None => match n.unsigned {
                    Some(u) => Some(decimal(u as u128)),
                    None => None,
                },
            },
        },
        _ => None,
    }
}

/// The first of the members called so that can be printed.
pub fn get_string(value: &Json, keys: &[&str]) -> (r: Option<String>)
    ensures
        match r {
            Some(s) => first_text(value@, views(keys@)) == Some(s@),
            None => first_text(value@, views(keys@)) == None::<Seq<char>>,
        },
{
    let n: usize = keys.len();
    let mut i: usize = 0;
    let ghost all = views(keys@);
    proof {
        assert(all.skip(0) =~= all);
    }
    while i < n
        invariant
            n == keys@.len(),
            i <= n,
            all == views(keys@),
            first_text(value@, all) == first_text(value@, all.skip(i as int)),
        decreases n - i,
    {
        proof {
            assert(all.skip(i as int)[0] == keys@[i as int]@);
            assert(all.skip(i as int).drop_first() =~= all.skip(i + 1));
        }
        if let Some(v) = value.get(keys[i]) {
            let s = print_value(v);
            if s.is_some() {
                return s;
            }
        }
        i += 1;
    }
    None
}

/// A text, or a placeholder where there is none.
pub open spec fn or_unknown(s: Option<Seq<char>>) -> Seq<char> {
    match s {
        Some(t) => t,
        None => "N/A"@,
    }
}

/// The line on the token in a document.
pub open spec fn token_line_in(v: JsonView) -> Option<Seq<char>> {
    match record_in(v) {
        None => None,
        Some(r) => {
            let mint = or_unknown(first_text(r, seq!["mint"@, "tokenMint"@, "token_mint"@]));
            let name = or_unknown(first_text(r, seq!["name"@]));
            let symbol = or_unknown(first_text(r, seq!["symbol"@]));
            let creator = or_unknown(first_text(r, seq!["creator"@, "creatorAddress"@, "creator_address"@]));
            let cap = or_unknown(first_text(r, seq!["marketCap"@, "market_cap"@, "mc"@, "marketcap"@]));
            if mint == "N/A"@ {
                None
            } else {
                Some(
                    "Token: "@ + name + " | Symbol: "@ + symbol + " | Mint: "@ + mint + " | Creator: "@ + creator
                        + " | Market Cap: "@ + cap,
                )
            }
        },
    }
}

fn text_or_unknown(s: Option<String>) -> (r: String)
    ensures
        r@ == or_unknown(
            match s {
                Some(t) => Some(t@),
                None => None,
            },
        ),
{
    match s {
        Some(t) => t,
        None => "N/A".to_owned(),
    }
}

/// The line on the token in a document.
pub fn token_line(value: &Json) -> (r: Option<String>)
    ensures
        match r {
            Some(s) => token_line_in(value@) == Some(s@),
            None => token_line_in(value@) == None::<Seq<char>>,
        },
{
    let record = match find_token_record(value) {
        Some(r) => r,
        None => return None,
    };
    let mint_keys: [&str; 3] = ["mint", "tokenMint", "token_mint"];
    let name_keys: [&str; 1] = ["name"];
    let symbol_keys: [&str; 1] = ["symbol"];
    let creator_keys: [&str; 3] = ["creator", "creatorAddress", "creator_address"];
    let cap_keys: [&str; 4] = ["marketCap", "market_cap", "mc", "marketcap"];
    proof {
        assert(views(mint_keys@) =~= seq!["mint"@, "tokenMint"@, "token_mint"@]);
        assert(views(name_keys@) =~= seq!["name"@]);
        assert(views(symbol_keys@) =~= seq!["symbol"@]);
        assert(views(creator_keys@) =~= seq!["creator"@, "creatorAddress"@, "creator_address"@]);
        assert(views(cap_keys@) =~= seq!["marketCap"@, "market_cap"@, "mc"@, "marketcap"@]);
    }
    let mint = text_or_unknown(get_string(record, mint_keys.as_slice()));
    let name = text_or_unknown(get_string(record, name_keys.as_slice()));
    let symbol = text_or_unknown(get_string(record, symbol_keys.as_slice()));
    let creator = text_or_unknown(get_string(record, creator_keys.as_slice()));
    let cap = text_or_unknown(get_string(record, cap_keys.as_slice()));
    if same(mint.as_str(), "N/A") {
        return None;
    }
    let mut s = "Token: ".to_owned();
    s.append(name.as_str());
    s.append(" | Symbol: ");
    s.append(symbol.as_str());
    s.append(" | Mint: ");
    s.append(mint.as_str());
    s.append(" | Creator: ");
    s.append(creator.as_str());
    s.append(" | Market Cap: ");
    s.append(cap.as_str());
    Some(s)
}

/// The line on the token in the text of a message, or the message of the error
/// where the text is not JSON.
pub open spec fn message_line(raw: Seq<char>) -> Result<Option<Seq<char>>, Seq<char>> {
    match json_document(raw) {
        Ok(v) => Ok(token_line_in(v)),
        Err(e) => Err(e),
    }
}

pub open spec fn line_result(r: Result<Option<String>, String>) -> Result<Option<Seq<char>>, Seq<char>> {
    match r {
        Ok(Some(s)) => Ok(Some(s@)),
        Ok(None) => Ok(None),
        Err(e) => Err(e@),
    }
}

/// The line on the token in the text of a message.
pub fn handle_message(raw: &str) -> (r: Result<Option<String>, String>)
    ensures
        line_result(r) == message_line(raw@),
{
    match json::parse(raw) {
        Ok(v) => Ok(token_line(&v)),
        Err(e) => Err(e),
    }
}

/// What the feed does next.
#[derive(Debug)]
pub enum FeedStep {
    /// Prints a line on a token.
    Print(String),
    /// Complains about a message.
    Complain(String),
    /// Answers a ping with nothing.
    Pong,
    /// Ends with an error.
    Fail(String),
    Nothing,
}

/// What the feed does next.
pub enum FeedStepView {
    Print(Seq<char>),
    Complain(Seq<char>),
    Pong,
    Fail(Seq<char>),
    Nothing,
}

impl View for FeedStep {
    type V = FeedStepView;

    open spec fn view(&self) -> FeedStepView {
        match *self {
            FeedStep::Print(s) => FeedStepView::Print(s@),
            FeedStep::Complain(s) => FeedStepView::Complain(s@),
            FeedStep::Pong => FeedStepView::Pong,
            FeedStep::Fail(e) => FeedStepView::Fail(e@),
            FeedStep::Nothing => FeedStepView::Nothing,
        }
    }
}

/// What follows from the text of a message; `complaint` opens what is said of
/// one that is not JSON.
pub open spec fn message_step(raw: Seq<char>, complaint: Seq<char>) -> FeedStepView {
    match message_line(raw) {
        Ok(Some(line)) => FeedStepView::Print(line),
        Ok(None) => FeedStepView::Nothing,
        Err(e) => FeedStepView::Complain(complaint + e + " | raw: "@ + raw),
    }
}

/// What the feed does about what came in.
pub open spec fn feed_step(incoming: Incoming) -> FeedStepView {
    match incoming {
        Incoming::Text(s) => message_step(s@, "Failed to parse message: "@),
        Incoming::Binary(b) => message_step(utf8_lossy(b@), "Failed to parse binary message: "@),
        Incoming::Ping(_) => FeedStepView::Pong,
        Incoming::Close | Incoming::End => FeedStepView::Fail("WebSocket closed by server"@),
        Incoming::Failed(e) => FeedStepView::Fail(e@),
        Incoming::Other => FeedStepView::Nothing,
    }
}

fn step_for(raw: &str, complaint: &str) -> (r: FeedStep)
    ensures
        r@ == message_step(raw@, complaint@),
{
    match handle_message(raw) {
        Ok(Some(line)) => FeedStep::Print(line),
        Ok(None) => FeedStep::Nothing,
        Err(e) => {
            let mut s = complaint.to_owned();
            s.append(e.as_str());
            s.append(" | raw: ");
            s.append(raw);
            FeedStep::Complain(s)
        },
    }
}

/// What the feed does about what came in.
pub fn connect_and_listen(incoming: Incoming) -> (r: FeedStep)
    ensures
        r@ == feed_step(incoming),
{
    match incoming {
        Incoming::Text(s) => step_for(s.as_str(), "Failed to parse message: "),
        Incoming::Binary(b) => {
            let text = utf8_text_lossy(b.as_slice());
            step_for(text.as_str(), "Failed to parse binary message: ")
        },
        Incoming::Ping(_) => FeedStep::Pong,
        Incoming::Close | Incoming::End => FeedStep::Fail("WebSocket closed by server".to_owned()),
        Incoming::Failed(e) => FeedStep::Fail(e),
        Incoming::Other => FeedStep::Nothing,
    }
}

/// What is said at the end of a session.
pub open spec fn session_end(error: Option<Seq<char>>) -> Seq<char> {
    match error {
        None => "WebSocket session ended. Reconnecting in "@ + decimal_text(RECONNECT_SECONDS as nat) + "s..."@,
        Some(e) => "WebSocket error: "@ + e + ". Reconnecting in "@ + decimal_text(RECONNECT_SECONDS as nat)
            + "s..."@,
    }
}

/// What is said at the end of a session.
pub fn session_end_line(error: Option<&str>) -> (r: String)
    ensures
        r@ == session_end(
            match error {
                Some(e) => Some(e@),
                None => None,
            },
        ),
{
    let seconds = decimal(RECONNECT_SECONDS as u128);
    match error {
        None => {
            let mut s = "WebSocket session ended. Reconnecting in ".to_owned();
            s.append(seconds.as_str());
            s.append("s...");
            s
        },
        Some(e) => {
            let mut s = "WebSocket error: ".to_owned();
            s.append(e);
            s.append(". Reconnecting in ");
            s.append(seconds.as_str());
            s.append("s...");
            s
        },
    }
}

/// A record that is found has a mint.
pub proof fn records_have_a_mint(v: JsonView)
    ensures
        record_in(v) matches Some(r) ==> member(r, "mint"@) is Some,
    decreases v,
{
    match v {
        JsonView::Object(members) => {
            if member(v, "mint"@) is None && !(member(v, "data"@) is Some && member(
                member(v, "data"@)->0,
                "mint"@,
            ) is Some) {
                assert(decreases_to!(v => v->Object_0));
                lemma_member_records(members);
            }
        },
        JsonView::List(items) => {
            assert(decreases_to!(v => v->List_0));
            lemma_item_records(items);
        },
        _ => {},
    }
}

proof fn lemma_item_records(items: Seq<JsonView>)
    ensures
        record_among(items) matches Some(r) ==> member(r, "mint"@) is Some,
    decreases items,
{
    if items.len() > 0 {
        records_have_a_mint(items[0]);
        lemma_item_records(items.drop_first());
    }
}

proof fn lemma_member_records(members: Seq<(Seq<char>, JsonView)>)
    ensures
        record_among_members(members) matches Some(r) ==> member(r, "mint"@) is Some,
    decreases members,
{
    if members.len() > 0 {
        records_have_a_mint(members[0].1);
        lemma_member_records(members.drop_first());
    }
}

/// A document that is itself a record is its own record, whatever it holds
/// besides.
pub proof fn outermost_record_comes_first(v: JsonView)
    requires
        member(v, "mint"@) is Some,
    ensures
        record_in(v) == Some(v),
{
}

/// Where the first member stands that holds a record.
proof fn lemma_first_member_record(members: Seq<(Seq<char>, JsonView)>, i: int)
    requires
        0 <= i < members.len(),
        record_in(members[i].1) is Some,
        forall|k: int| 0 <= k < i ==> record_in((#[trigger] members[k]).1) is None,
    ensures
        record_among_members(members) == record_in(members[i].1),
    decreases i,
{
    if i > 0 {
        assert(record_in(members[0].1) is None);
        assert forall|k: int| 0 <= k < i - 1 implies record_in((#[trigger] members.drop_first()[k]).1) is None by {
            assert(members.drop_first()[k] == members[k + 1]);
        }
        assert(members.drop_first()[i - 1] == members[i]);
        lemma_first_member_record(members.drop_first(), i - 1);
    }
}

proof fn lemma_no_member_record(members: Seq<(Seq<char>, JsonView)>)
    requires
        forall|k: int| 0 <= k < members.len() ==> record_in((#[trigger] members[k]).1) is None,
    ensures
        record_among_members(members) is None,
    decreases members.len(),
{
    if members.len() > 0 {
        assert(record_in(members[0].1) is None);
        assert forall|k: int| 0 <= k < members.drop_first().len() implies record_in(
            (#[trigger] members.drop_first()[k]).1,
        ) is None by {
            assert(members.drop_first()[k] == members[k + 1]);
        }
        lemma_no_member_record(members.drop_first());
    }
}

/// An object without a mint of its own and without one in its `data` has the record
/// of the first of its members that holds one, wherever that stands, and none where
/// no member holds one. One with a mint in its `data` has that.
pub proof fn an_objects_record_is_its_first_members(members: Seq<(Seq<char>, JsonView)>, i: int)
    ensures
        ({
            let v = JsonView::Object(members);
            let data = member(v, "data"@);
            let own = member(v, "mint"@) is Some;
            let in_data = data is Some && member(data->0, "mint"@) is Some;
            &&& !own && in_data ==> record_in(v) == data
            &&& !own && !in_data && 0 <= i < members.len() && record_in(members[i].1) is Some && (forall|k: int|
                0 <= k < i ==> record_in((#[trigger] members[k]).1) is None) ==> record_in(v) == record_in(
                members[i].1,
            )
            &&& !own && !in_data && (forall|k: int|
                0 <= k < members.len() ==> record_in((#[trigger] members[k]).1) is None) ==> record_in(v) is None
        }),
{
    if 0 <= i < members.len() && record_in(members[i].1) is Some && (forall|k: int|
        0 <= k < i ==> record_in((#[trigger] members[k]).1) is None) {
        lemma_first_member_record(members, i);
    }
    if forall|k: int| 0 <= k < members.len() ==> record_in((#[trigger] members[k]).1) is None {
        lemma_no_member_record(members);
    }
}

proof fn lemma_first_item_record(items: Seq<JsonView>, i: int)
    requires
        0 <= i < items.len(),
        record_in(items[i]) is Some,
        forall|k: int| 0 <= k < i ==> record_in(#[trigger] items[k]) is None,
    ensures
        record_among(items) == record_in(items[i]),
    decreases i,
{
    if i > 0 {
        assert(record_in(items[0]) is None);
        assert forall|k: int| 0 <= k < i - 1 implies record_in(#[trigger] items.drop_first()[k]) is None by {
            assert(items.drop_first()[k] == items[k + 1]);
        }
        assert(items.drop_first()[i - 1] == items[i]);
        lemma_first_item_record(items.drop_first(), i - 1);
    }
}

proof fn lemma_no_item_record(items: Seq<JsonView>)
    requires
        forall|k: int| 0 <= k < items.len() ==> record_in(#[trigger] items[k]) is None,
    ensures
        record_among(items) is None,
    decreases items.len(),
{
    if items.len() > 0 {
        assert(record_in(items[0]) is None);
        assert forall|k: int| 0 <= k < items.drop_first().len() implies record_in(#[trigger] items.drop_first()[k])
            is None by {
            assert(items.drop_first()[k] == items[k + 1]);
        }
        lemma_no_item_record(items.drop_first());
    }
}

/// A list has the record of the first of its items that holds one, however many come
/// before it, and none where no item holds one. A plain value has none.
pub proof fn a_lists_record_is_its_first_items(items: Seq<JsonView>, i: int, v: JsonView)
    ensures
        0 <= i < items.len() && record_in(items[i]) is Some && (forall|k: int|
            0 <= k < i ==> record_in(#[trigger] items[k]) is None) ==> record_in(JsonView::List(items)) == record_in(
            items[i],
        ),
        (forall|k: int| 0 <= k < items.len() ==> record_in(#[trigger] items[k]) is None) ==> record_in(
            JsonView::List(items),
        ) is None,
        v !is Object && v !is List ==> record_in(v) is None,
{
    if 0 <= i < items.len() && record_in(items[i]) is Some && (forall|k: int|
        0 <= k < i ==> record_in(#[trigger] items[k]) is None) {
        lemma_first_item_record(items, i);
    }
    if forall|k: int| 0 <= k < items.len() ==> record_in(#[trigger] items[k]) is None {
        lemma_no_item_record(items);
    }
}

/// Texts and numbers are printed and nothing else is: a text as it stands, a number
/// by its reading as a double where it has one, else as the integer that it is.
pub proof fn texts_and_numbers_are_printed(v: JsonView)
    ensures
        match v {
            JsonView::Text(s) => value_text(v) == Some(s),
            JsonView::Number(n) => match n.double {
                Some((_, text)) => value_text(v) == Some(text),
                None => if n.signed is Some {
                    value_text(v) == Some(signed_text(n.signed->0 as int))
                } else if n.unsigned is Some {
                    value_text(v) == Some(signed_text(n.unsigned->0 as int))
                } else {
                    value_text(v) is None
                },
            },
            _ => value_text(v) is None,
        },
{
}

/// Whether a document has a member of this name that can be printed.
pub open spec fn prints(v: JsonView, key: Seq<char>) -> bool {
    member(v, key) is Some && value_text(member(v, key)->0) is Some
}

/// Of some names the first counts whose member can be printed, whatever stands under
/// the others, and none where no member can be.
pub proof fn the_first_printable_member_counts(v: JsonView, keys: Seq<Seq<char>>, i: int)
    ensures
        0 <= i < keys.len() && prints(v, keys[i]) && (forall|k: int| 0 <= k < i ==> !prints(v, #[trigger] keys[k]))
            ==> first_text(v, keys) == value_text(member(v, keys[i])->0),
        (forall|k: int| 0 <= k < keys.len() ==> !prints(v, #[trigger] keys[k])) ==> first_text(v, keys) is None,
    decreases keys.len(),
{
    if keys.len() > 0 {
        let rest = keys.drop_first();
        the_first_printable_member_counts(v, rest, i - 1);
        if 0 <= i < keys.len() && prints(v, keys[i]) && (forall|k: int| 0 <= k < i ==> !prints(v, #[trigger] keys[k]))
            && i > 0 {
            assert(!prints(v, keys[0]));
            assert forall|k: int| 0 <= k < i - 1 implies !prints(v, #[trigger] rest[k]) by {
                assert(rest[k] == keys[k + 1]);
            }
            assert(rest[i - 1] == keys[i]);
        }
        if forall|k: int| 0 <= k < keys.len() ==> !prints(v, #[trigger] keys[k]) {
            assert(!prints(v, keys[0]));
            assert forall|k: int| 0 <= k < rest.len() implies !prints(v, #[trigger] rest[k]) by {
                assert(rest[k] == keys[k + 1]);
            }
        }
    }
}

/// A document has a line on a token exactly where it has a record whose mint can be
/// printed and is not the placeholder itself. The line gives name, symbol, mint,
/// creator and market cap, and the placeholder for each that is missing.
pub proof fn a_record_with_a_mint_has_a_line(v: JsonView)
    ensures
        record_in(v) is None ==> token_line_in(v) is None,
        record_in(v) is Some ==> {
            let r = record_in(v)->0;
            let mint = first_text(r, seq!["mint"@, "tokenMint"@, "token_mint"@]);
            let name = first_text(r, seq!["name"@]);
            let symbol = first_text(r, seq!["symbol"@]);
            let creator = first_text(r, seq!["creator"@, "creatorAddress"@, "creator_address"@]);
            let cap = first_text(r, seq!["marketCap"@, "market_cap"@, "mc"@, "marketcap"@]);
            &&& token_line_in(v) is Some <==> mint is Some && mint->0 != "N/A"@
            &&& token_line_in(v) is Some ==> token_line_in(v)->0 == "Token: "@ + or_unknown(name) + " | Symbol: "@
                + or_unknown(symbol) + " | Mint: "@ + mint->0 + " | Creator: "@ + or_unknown(creator)
                + " | Market Cap: "@ + or_unknown(cap)
        },
        or_unknown(None) == "N/A"@,
        forall|t: Seq<char>| #[trigger] or_unknown(Some(t)) == t,
{
}

/// The feed prints the line on a token where a message has one, is silent where it has
/// none, and complains where the message is not JSON, with the message. A ping is
/// answered. A closed connection and a failed read end the session.
pub proof fn the_feed_answers_what_comes_in(raw: Seq<char>, complaint: Seq<char>, s: String, b: Vec<u8>)
    ensures
        match json_document(raw) {
            Ok(v) => match token_line_in(v) {
                Some(line) => message_step(raw, complaint) == FeedStepView::Print(line),
                None => message_step(raw, complaint) is Nothing,
            },
            Err(e) => message_step(raw, complaint) == FeedStepView::Complain(complaint + e + " | raw: "@ + raw),
        },
        feed_step(Incoming::Text(s)) == message_step(s@, "Failed to parse message: "@),
        feed_step(Incoming::Binary(b)) == message_step(utf8_lossy(b@), "Failed to parse binary message: "@),
        feed_step(Incoming::Ping(b)) is Pong,
        feed_step(Incoming::Close) == FeedStepView::Fail("WebSocket closed by server"@),
        feed_step(Incoming::End) == FeedStepView::Fail("WebSocket closed by server"@),
        feed_step(Incoming::Failed(s)) == FeedStepView::Fail(s@),
        feed_step(Incoming::Other) is Nothing,
{
}

/// At the end of a session its error is said where there was one, and in either case
/// that there is another one in four seconds.
pub proof fn the_end_of_a_session_is_said(e: Seq<char>)
    ensures
        session_end(None) == "WebSocket session ended. Reconnecting in "@ + decimal_text(4) + "s..."@,
        session_end(Some(e)) == "WebSocket error: "@ + e + ". Reconnecting in "@ + decimal_text(4) + "s..."@,
{
}

/// A line, the want of one, and an error are handed on as they are.
pub proof fn lines_are_handed_on(s: String)
    ensures
        line_result(Ok(Some(s))) == Ok::<Option<Seq<char>>, Seq<char>>(Some(s@)),
        line_result(Ok(None)) == Ok::<Option<Seq<char>>, Seq<char>>(None),
        line_result(Err(s)) == Err::<Option<Seq<char>>, Seq<char>>(s@),
{
}

} // verus!
