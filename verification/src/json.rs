//! JSON documents as trees of plain values.

use crate::double::Double;
use crate::text::{same, utf8_text};
use vstd::prelude::*;
use vstd::string::*;
use vstd::utf8::*;

verus! {

/// A JSON number: the integer readings that it has, and its reading as a
/// double together with the double's shortest decimal text.
#[derive(Debug)]
pub struct Number {
    pub unsigned: Option<u64>,
    pub signed: Option<i64>,
    pub double: Option<DoubleText>,
}

/// A double and how it is written.
#[derive(Debug)]
pub struct DoubleText {
    pub value: Double,
    pub text: String,
}

/// A JSON value. Members of an object stand in the order in which they are
/// visited.
#[derive(Debug)]
pub enum Json {
    Null,
    Bool(bool),
    Number(Number),
    Text(String),
    List(Vec<Json>),
    Object(Vec<(String, Json)>),
}

/// What a number holds.
pub struct NumberView {
    pub unsigned: Option<u64>,
    pub signed: Option<i64>,
    pub double: Option<(Double, Seq<char>)>,
}

/// What a JSON value holds.
pub enum JsonView {
    Null,
    Bool(bool),
    Number(NumberView),
    Text(Seq<char>),
    List(Seq<JsonView>),
    Object(Seq<(Seq<char>, JsonView)>),
}

impl View for Number {
    type V = NumberView;

    open spec fn view(&self) -> NumberView {
        NumberView {
            unsigned: self.unsigned,
            signed: self.signed,
            double: match self.double {
                Some(d) => Some((d.value, d.text@)),
                None => None,
            },
        }
    }
}

/// What a JSON value holds, layer by layer.
pub open spec fn tree_of(j: Json) -> JsonView
    decreases j,
{
    match j {
        Json::Null => JsonView::Null,
        Json::Bool(b) => JsonView::Bool(b),
        Json::Number(n) => JsonView::Number(n@),
        Json::Text(s) => JsonView::Text(s@),
        Json::List(items) => JsonView::List(trees_of(items@)),
        Json::Object(members) => JsonView::Object(members_of(members@)),
    }
}

pub open spec fn trees_of(items: Seq<Json>) -> Seq<JsonView>
    decreases items,
{
    if items.len() == 0 {
        Seq::empty()
    } else {
        trees_of(items.drop_last()).push(tree_of(items.last()))
    }
}

pub open spec fn members_of(members: Seq<(String, Json)>) -> Seq<(Seq<char>, JsonView)>
    decreases members,
{
    if members.len() == 0 {
        Seq::empty()
    } else {
        members_of(members.drop_last()).push((members.last().0@, tree_of(members.last().1)))
    }
}

impl View for Json {
    type V = JsonView;

    open spec fn view(&self) -> JsonView {
        tree_of(*self)
    }
}

/// The items of a list are viewed one by one.
pub proof fn lemma_trees_of(items: Seq<Json>)
    ensures
        trees_of(items).len() == items.len(),
        forall|i: int| 0 <= i < items.len() ==> #[trigger] trees_of(items)[i] == items[i]@,
    decreases items.len(),
{
    if items.len() > 0 {
        lemma_trees_of(items.drop_last());
    }
}

/// The members of an object are viewed one by one.
pub proof fn lemma_members_of(members: Seq<(String, Json)>)
    ensures
        members_of(members).len() == members.len(),
        forall|i: int|
            0 <= i < members.len() ==> #[trigger] members_of(members)[i] == (members[i].0@, members[i].1@),
    decreases members.len(),
{
    if members.len() > 0 {
        lemma_members_of(members.drop_last());
    }
}

/// `serde_json::Value`, carried without being looked into.
#[verifier::external_type_specification]
#[verifier::external_body]
pub struct ExValue(serde_json::Value);

/// The tree that a `serde_json::Value` holds.
pub uninterp spec fn value_tree(v: serde_json::Value) -> JsonView;

/// One layer of a `serde_json::Value`.
pub enum Opened {
    Null,
    Bool(bool),
    Number(Number),
    Text(String),
    List(Vec<serde_json::Value>),
    Object(Vec<(String, serde_json::Value)>),
}

/// The tree under an opened layer.
pub open spec fn opened_tree(o: Opened) -> JsonView {
    match o {
        Opened::Null => JsonView::Null,
        Opened::Bool(b) => JsonView::Bool(b),
        Opened::Number(n) => JsonView::Number(n@),
        Opened::Text(s) => JsonView::Text(s@),
        Opened::List(items) => JsonView::List(
            items@.map_values(|v: serde_json::Value| value_tree(v)),
        ),
        Opened::Object(members) => JsonView::Object(
            members@.map_values(|m: (String, serde_json::Value)| (m.0@, value_tree(m.1))),
        ),
    }
}

/// Takes the variants of `serde_json::Value` apart. The layer holds what the
/// value held, members of an object in the order of `serde_json::Map`; a number
/// is read through `Number::as_u64`, `Number::as_i64` and the double accessor.
#[verifier::external_body]
pub(crate) fn open_value(v: serde_json::Value) -> (o: Opened)
    ensures
        opened_tree(o) == value_tree(v),
{
    match v {
        serde_json::Value::Null => Opened::Null,
        serde_json::Value::Bool(b) => Opened::Bool(b),
        serde_json::Value::Number(n) => Opened::Number(Number {
            unsigned: n.as_u64(),
            signed: n.as_i64(),
            double: n.as_f64().map(|x| DoubleText { value: Double { bits: x.to_bits() }, text: x.to_string() }),
        }),
        serde_json::Value::String(s) => Opened::Text(s),
        serde_json::Value::Array(items) => Opened::List(items),
        serde_json::Value::Object(members) => Opened::Object(members.into_iter().collect()),
    }
}

/// What `serde_json::from_str` makes of a text: the document's tree, or the
/// message of its error.
pub uninterp spec fn json_document(raw: Seq<char>) -> Result<JsonView, Seq<char>>;

/// `serde_json::from_str` into a `serde_json::Value`. The result depends on the
/// text alone.
#[verifier::external_body]
pub(crate) fn parse_value(raw: &str) -> (r: Result<serde_json::Value, String>)
    ensures
        match r {
            Ok(v) => json_document(raw@) == Ok::<JsonView, Seq<char>>(value_tree(v)),
            Err(e) => json_document(raw@) == Err::<JsonView, Seq<char>>(e@),
        },
{
    serde_json::from_str::<serde_json::Value>(raw).map_err(|e| e.to_string())
}

/// The JSON document that the body of a reply holds.
pub open spec fn reply_document(body: Seq<u8>) -> Option<JsonView> {
    if !valid_utf8(body) {
        None
    } else {
        match json_document(decode_utf8(body)) {
            Ok(v) => Some(v),
            Err(_) => None,
        }
    }
}

/// What is said of a body that holds no JSON document.
pub const UNREADABLE_REPLY: &'static str = "error decoding response body";

/// The JSON document that the body of a reply holds.
pub(crate) fn read_reply(body: &[u8]) -> (r: Option<serde_json::Value>)
    ensures
        match r {
            Some(v) => reply_document(body@) == Some(value_tree(v)),
            None => reply_document(body@) == None::<JsonView>,
        },
{
    match utf8_text(body) {
        Some(s) => match parse_value(s.as_str()) {
            Ok(v) => Some(v),
            Err(_) => None,
        },
        None => None,
    }
}

/// The plain tree of a `serde_json::Value`.
pub(crate) fn tree(v: serde_json::Value) -> (j: Json)
    ensures
        j@ == value_tree(v),
    decreases value_tree(v),
{
    match open_value(v) {
        Opened::Null => Json::Null,
        Opened::Bool(b) => Json::Bool(b),
        Opened::Number(n) => Json::Number(n),
        Opened::Text(s) => Json::Text(s),
        Opened::List(items) => {
            let ghost all = items@;
            let mut out: Vec<Json> = Vec::new();
            for item in it: items
                invariant
                    it.seq() == all,
                    value_tree(v) == JsonView::List(all.map_values(|v: serde_json::Value| value_tree(v))),
                    out@.len() == it.index(),
                    forall|i: int| 0 <= i < out@.len() ==> (#[trigger] out@[i])@ == value_tree(all[i]),
            {
                proof {
                    let s = all.map_values(|v: serde_json::Value| value_tree(v));
                    assert(s[it.index() as int] == value_tree(item));
                    assert(decreases_to!(value_tree(v) => value_tree(v)->List_0));
                    assert(decreases_to!(value_tree(v)->List_0 => value_tree(v)->List_0[it.index() as int]));
                }
                out.push(tree(item));
            }
            let j = Json::List(out);
            proof {
                lemma_trees_of(out@);
                assert(j@->List_0 =~= all.map_values(|v: serde_json::Value| value_tree(v)));
            }
            j
        },
        Opened::Object(members) => {
            let ghost all = members@;
            let mut out: Vec<(String, Json)> = Vec::new();
            for member in it: members
                invariant
                    it.seq() == all,
                    value_tree(v) == JsonView::Object(
                        all.map_values(|m: (String, serde_json::Value)| (m.0@, value_tree(m.1))),
                    ),
                    out@.len() == it.index(),
                    forall|i: int|
                        0 <= i < out@.len() ==> (#[trigger] out@[i]).0@ == all[i].0@ && out@[i].1@
                            == value_tree(all[i].1),
            {
                proof {
                    let s = all.map_values(|m: (String, serde_json::Value)| (m.0@, value_tree(m.1)));
                    assert(s[it.index() as int] == (member.0@, value_tree(member.1)));
                    assert(decreases_to!(value_tree(v) => value_tree(v)->Object_0));
                    assert(decreases_to!(value_tree(v)->Object_0 => value_tree(v)->Object_0[it.index() as int]));
                    assert(decreases_to!(s[it.index() as int] => s[it.index() as int].1));
                }
                let (name, inner) = member;
                out.push((name, tree(inner)));
            }
            let j = Json::Object(out);
            proof {
                lemma_members_of(out@);
                assert(j@->Object_0 =~= all.map_values(
                    |m: (String, serde_json::Value)| (m.0@, value_tree(m.1)),
                ));
            }
            j
        },
    }
}

/// Reads a JSON text.
pub fn parse(raw: &str) -> (r: Result<Json, String>)
    ensures
        match r {
            Ok(j) => json_document(raw@) == Ok::<JsonView, Seq<char>>(j@),
            Err(e) => json_document(raw@) == Err::<JsonView, Seq<char>>(e@),
        },
{
    match parse_value(raw) {
        Ok(v) => Ok(tree(v)),
        Err(e) => Err(e),
    }
}

/// The member called `key`; a value that is no object has none.
pub open spec fn member(t: JsonView, key: Seq<char>) -> Option<JsonView> {
    match t {
        JsonView::Object(members) => named(members, key),
        _ => None,
    }
}

/// The first of the members that is called `key`.
pub open spec fn named(members: Seq<(Seq<char>, JsonView)>, key: Seq<char>) -> Option<JsonView>
    decreases members.len(),
{
    if members.len() == 0 {
        None
    } else if members[0].0 == key {
        Some(members[0].1)
    } else {
        named(members.drop_first(), key)
    }
}

/// The characters of a text value.
pub open spec fn text_in(t: JsonView) -> Option<Seq<char>> {
    match t {
        JsonView::Text(s) => Some(s),
        _ => None,
    }
}

/// The unsigned reading of a number.
pub open spec fn unsigned_in(t: JsonView) -> Option<u64> {
    match t {
        JsonView::Number(n) => n.unsigned,
        _ => None,
    }
}

/// The reading of a number as a double.
pub open spec fn double_in(t: JsonView) -> Option<Double> {
    match t {
        JsonView::Number(n) => match n.double {
            Some((d, _)) => Some(d),
            None => None,
        },
        _ => None,
    }
}

/// The member called `key`, where it is a text.
pub open spec fn text_member(t: JsonView, key: Seq<char>) -> Option<Seq<char>> {
    match member(t, key) {
        Some(m) => text_in(m),
        None => None,
    }
}

/// The member of a member.
pub open spec fn inner(v: JsonView, outer: Seq<char>, key: Seq<char>) -> Option<JsonView> {
    match member(v, outer) {
        Some(m) => member(m, key),
        None => None,
    }
}

proof fn lemma_named_skip(members: Seq<(Seq<char>, JsonView)>, key: Seq<char>, k: int)
    requires
        0 <= k <= members.len(),
        forall|i: int| 0 <= i < k ==> (#[trigger] members[i]).0 != key,
    ensures
        named(members, key) == named(members.skip(k), key),
    decreases k,
{
    if k == 0 {
        assert(members.skip(0) =~= members);
    } else {
        lemma_named_skip(members.drop_first(), key, k - 1);
        assert(members.drop_first().skip(k - 1) =~= members.skip(k));
    }
}

proof fn lemma_named_at(members: Seq<(Seq<char>, JsonView)>, key: Seq<char>, k: int)
    requires
        0 <= k < members.len(),
        forall|i: int| 0 <= i < k ==> (#[trigger] members[i]).0 != key,
        members[k].0 == key,
    ensures
        named(members, key) == Some(members[k].1),
{
    lemma_named_skip(members, key, k);
}

proof fn lemma_named_nowhere(members: Seq<(Seq<char>, JsonView)>, key: Seq<char>)
    requires
        forall|i: int| 0 <= i < members.len() ==> (#[trigger] members[i]).0 != key,
    ensures
        named(members, key) == None::<JsonView>,
{
    lemma_named_skip(members, key, members.len() as int);
}

impl Json {
    /// The member called `key`.
    pub fn get(&self, key: &str) -> (r: Option<&Json>)
        ensures
            match r {
                Some(j) => member(self@, key@) == Some(j@),
                None => member(self@, key@) == None::<JsonView>,
            },
    {
        match self {
            Json::Object(members) => {
                let ghost tree = (*self)@->Object_0;
                proof {
                    assert(*self == Json::Object(*members));
                    lemma_members_of(members@);
                }
                let n: usize = members.len();
                let mut i: usize = 0;
                while i < n
                    invariant
                        n == members@.len(),
                        i <= n,
                        tree.len() == n,
                        (*self)@ == JsonView::Object(tree),
                        forall|k: int|
                            0 <= k < n ==> #[trigger] tree[k] == (members@[k].0@, members@[k].1@),
                        forall|k: int| 0 <= k < i ==> (#[trigger] tree[k]).0 != key@,
                    decreases n - i,
                {
                    proof {
                        assert(tree[i as int].0 == members@[i as int].0@);
                    }
                    if same(members[i].0.as_str(), key) {
                        proof {
                            lemma_named_at(tree, key@, i as int);
                        }
                        return Some(&members[i].1);
                    }
                    i += 1;
                }
                proof {
                    lemma_named_nowhere(tree, key@);
                }
                None
            },
            _ => None,
        }
    }

    /// The text, where the value is one.
    pub fn as_str(&self) -> (r: Option<&str>)
        ensures
            match r {
                Some(s) => text_in(self@) == Some(s@),
                None => text_in(self@) == None::<Seq<char>>,
            },
    {
        match self {
            Json::Text(s) => Some(s.as_str()),
            _ => None,
        }
    }

    /// The unsigned integer, where the value is one.
    pub fn as_u64(&self) -> (r: Option<u64>)
        ensures
            r == unsigned_in(self@),
    {
        match self {
            Json::Number(n) => n.unsigned,
            _ => None,
        }
    }

    /// The double, where the value is a number.
    pub fn as_double(&self) -> (r: Option<Double>)
        ensures
            r == double_in(self@),
    {
        match self {
            Json::Number(n) => match &n.double {
                Some(d) => Some(d.value),
                None => None,
            },
            _ => None,
        }
    }

    /// The member called `key`, where it is a text.
    pub fn text_field(&self, key: &str) -> (r: Option<String>)
        ensures
            match r {
                Some(s) => text_member(self@, key@) == Some(s@),
                None => text_member(self@, key@) == None::<Seq<char>>,
            },
    {
        match self.get(key) {
            Some(m) => match m.as_str() {
                Some(s) => Some(s.to_owned()),
                None => None,
            },
            None => None,
        }
    }
}

/// What `serde_json::Value` prints for a tree.
pub uninterp spec fn json_rendered(t: JsonView) -> Seq<char>;

/// The `Display` output of a `serde_json::Value`, which depends on its tree
/// alone.
#[verifier::external_body]
pub(crate) fn render(v: &serde_json::Value) -> (r: String)
    ensures
        r@ == json_rendered(value_tree(*v)),
{
    v.to_string()
}

/// `Value::as_str`: the text, where the value is one.
#[verifier::external_body]
pub(crate) fn value_as_text(v: &serde_json::Value) -> (r: Option<String>)
    ensures
        match r {
            Some(s) => text_in(value_tree(*v)) == Some(s@),
            None => text_in(value_tree(*v)) == None::<Seq<char>>,
        },
{
    v.as_str().map(|s| s.to_owned())
}

/// The member of an opened object called `key`.
pub(crate) fn find_value<'a>(o: &'a Opened, key: &str) -> (r: Option<&'a serde_json::Value>)
    ensures
        match r {
            Some(v) => member(opened_tree(*o), key@) == Some(value_tree(*v)),
            None => member(opened_tree(*o), key@) == None::<JsonView>,
        },
{
    match o {
        Opened::Object(members) => {
            let ghost tree = opened_tree(*o)->Object_0;
            let n: usize = members.len();
            let mut i: usize = 0;
            while i < n
                invariant
                    n == members@.len(),
                    i <= n,
                    *o == Opened::Object(*members),
                    tree == opened_tree(*o)->Object_0,
                    forall|k: int| 0 <= k < i ==> (#[trigger] tree[k]).0 != key@,
                decreases n - i,
            {
                proof {
                    assert(tree[i as int] == (members@[i as int].0@, value_tree(members@[i as int].1)));
                }
                if same(members[i].0.as_str(), key) {
                    proof {
                        lemma_named_at(tree, key@, i as int);
                    }
                    return Some(&members[i].1);
                }
                i += 1;
            }
            proof {
                lemma_named_nowhere(tree, key@);
            }
            None
        },
        _ => None,
    }
}

/// A small hexadecimal digit.
pub open spec fn hex(d: int) -> char {
    if d < 10 {
        (48 + d) as u8 as char
    } else {
        (87 + d) as u8 as char
    }
}

/// How a character stands inside a JSON string.
pub open spec fn escaped_char(c: char) -> Seq<char> {
    let u = c as u32 as int;
    if c == '"' {
        seq!['\\', '"']
    } else if c == '\\' {
        seq!['\\', '\\']
    } else if u == 0x08 {
        seq!['\\', 'b']
    } else if u == 0x09 {
        seq!['\\', 't']
    } else if u == 0x0a {
        seq!['\\', 'n']
    } else if u == 0x0c {
        seq!['\\', 'f']
    } else if u == 0x0d {
        seq!['\\', 'r']
    } else if u < 0x20 {
        seq!['\\', 'u', '0', '0', hex(u / 16), hex(u % 16)]
    } else {
        seq![c]
    }
}

/// How a text stands inside a JSON string.
pub open spec fn escaped(s: Seq<char>) -> Seq<char>
    decreases s.len(),
{
    if s.len() == 0 {
        Seq::empty()
    } else {
        escaped(s.drop_last()) + escaped_char(s.last())
    }
}

/// A text as a JSON string.
pub open spec fn quoted(s: Seq<char>) -> Seq<char> {
    seq!['"'] + escaped(s) + seq!['"']
}

/// `serde_json::Value::from` on a text, printed: the text between quotation
/// marks, with the quotation mark, the backslash and the control characters
/// below U+0020 escaped.
#[verifier::external_body]
pub(crate) fn quote(s: &str) -> (r: String)
    ensures
        r@ == quoted(s@),
{
    serde_json::Value::from(s).to_string()
}

proof fn lemma_escaped_plain(s: Seq<char>)
    requires
        forall|i: int| 0 <= i < s.len() ==> escaped_char(#[trigger] s[i]) == seq![s[i]],
    ensures
        escaped(s) == s,
    decreases s.len(),
{
    if s.len() > 0 {
        assert forall|i: int| 0 <= i < s.drop_last().len() implies escaped_char(#[trigger] s.drop_last()[i])
            == seq![s.drop_last()[i]] by {
            assert(s.drop_last()[i] == s[i]);
        }
        lemma_escaped_plain(s.drop_last());
        assert(escaped_char(s[s.len() - 1]) == seq![s.last()]);
        assert(s.drop_last() + seq![s.last()] =~= s);
    }
}

/// A text of characters that need no escape stands between the quotation marks
/// as it is.
pub proof fn plain_text_is_quoted_verbatim(s: Seq<char>)
    requires
        forall|i: int| 0 <= i < s.len() ==> (#[trigger] s[i]) as u32 >= 0x20 && s[i] != '"' && s[i] != '\\',
    ensures
        quoted(s) == seq!['"'] + s + seq!['"'],
{
    lemma_escaped_plain(s);
}

/// A member is found exactly where an object has one of its name, and it is the
/// first of that name; a value that is no object has no members.
pub proof fn the_first_member_of_a_name_counts(members: Seq<(Seq<char>, JsonView)>, key: Seq<char>, i: int)
    ensures
        0 <= i < members.len() && members[i].0 == key && (forall|k: int| 0 <= k < i ==> (#[trigger] members[k]).0 != key)
            ==> member(JsonView::Object(members), key) == Some(members[i].1),
        (forall|k: int| 0 <= k < members.len() ==> (#[trigger] members[k]).0 != key) ==> member(
            JsonView::Object(members),
            key,
        ) is None,
{
    if 0 <= i < members.len() && members[i].0 == key && (forall|k: int|
        0 <= k < i ==> (#[trigger] members[k]).0 != key) {
        lemma_named_skip(members, key, i);
        assert(members.skip(i)[0] == members[i]);
    }
    if forall|k: int| 0 <= k < members.len() ==> (#[trigger] members[k]).0 != key {
        lemma_named_skip(members, key, members.len() as int);
    }
}

/// A value is read as what it is: a text as its characters, a number by its
/// readings, and nothing as anything else.
pub proof fn values_are_read_as_what_they_are(v: JsonView, key: Seq<char>)
    ensures
        v !is Object ==> member(v, key) is None,
        match v {
            JsonView::Text(s) => text_in(v) == Some(s) && unsigned_in(v) is None && double_in(v) is None,
            JsonView::Number(n) => text_in(v) is None && unsigned_in(v) == n.unsigned && match n.double {
                Some((d, _)) => double_in(v) == Some(d),
                None => double_in(v) is None,
            },
            _ => text_in(v) is None && unsigned_in(v) is None && double_in(v) is None,
        },
        match member(v, key) {
            Some(m) => text_member(v, key) == text_in(m),
            None => text_member(v, key) is None,
        },
{
}

/// The text between the quotation marks is written character by character, so
/// that texts one behind the other are quoted one behind the other.
pub proof fn quoting_goes_character_by_character(a: Seq<char>, b: Seq<char>)
    ensures
        escaped(a + b) == escaped(a) + escaped(b),
        quoted(a) == seq!['"'] + escaped(a) + seq!['"'],
    decreases b.len(),
{
    if b.len() == 0 {
        assert(a + b =~= a);
        assert(escaped(a) + escaped(b) =~= escaped(a));
    } else {
        quoting_goes_character_by_character(a, b.drop_last());
        assert((a + b).drop_last() =~= a + b.drop_last());
        assert((a + b).last() == b.last());
        assert(escaped(a) + escaped(b.drop_last()) + escaped_char(b.last()) =~= escaped(a) + (escaped(b.drop_last())
            + escaped_char(b.last())));
    }
}

/// The body of a reply holds a document exactly where it is a text and the text is JSON,
/// and the document is that of the text.
pub proof fn a_reply_holds_the_document_of_its_text(body: Seq<u8>)
    ensures
        reply_document(body) is Some <==> valid_utf8(body) && json_document(decode_utf8(body)) is Ok,
        reply_document(body) is Some ==> json_document(decode_utf8(body)) == Ok::<JsonView, Seq<char>>(
            reply_document(body)->0,
        ),
{
}

} // verus!
