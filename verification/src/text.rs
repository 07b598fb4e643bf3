//! Text handling: trimming, splitting, letter case, decimal numbers.

use vstd::prelude::*;
use vstd::string::*;
use vstd::utf8::{decode_utf8, valid_utf8};

verus! {

/// `String::push` appends one character.
pub assume_specification[ String::push ](s: &mut String, c: char)
    ensures
        final(s)@ == old(s)@.push(c),
;

/// The characters with the Unicode property `White_Space`.
pub open spec fn is_space(c: char) -> bool {
    let u = c as u32;
    ||| 0x09 <= u <= 0x0d
    ||| u == 0x20
    ||| u == 0x85
    ||| u == 0xa0
    ||| u == 0x1680
    ||| 0x2000 <= u <= 0x200a
    ||| u == 0x2028
    ||| u == 0x2029
    ||| u == 0x202f
    ||| u == 0x205f
    ||| u == 0x3000
}

/// A text without its leading white space.
pub open spec fn trim_front(s: Seq<char>) -> Seq<char>
    decreases s.len(),
{
    if s.len() > 0 && is_space(s[0]) {
        trim_front(s.drop_first())
    } else {
        s
    }
}

/// A text without its trailing white space.
pub open spec fn trim_back(s: Seq<char>) -> Seq<char>
    decreases s.len(),
{
    if s.len() > 0 && is_space(s.last()) {
        trim_back(s.drop_last())
    } else {
        s
    }
}

/// A text without white space at either end.
pub open spec fn trim(s: Seq<char>) -> Seq<char> {
    trim_back(trim_front(s))
}

/// An ASCII capital as a small letter; any other character as it is.
pub open spec fn lower(c: char) -> char {
    if 'A' <= c <= 'Z' {
        (c as u8 + 32) as char
    } else {
        c
    }
}

/// A text with its ASCII capitals as small letters.
pub open spec fn lowered(s: Seq<char>) -> Seq<char> {
    s.map_values(|c: char| lower(c))
}

/// Position of the first `c` in `s`, or the length where there is none.
pub open spec fn first_index(s: Seq<char>, c: char) -> nat
    decreases s.len(),
{
    if s.len() == 0 || s[0] == c {
        0
    } else {
        1 + first_index(s.drop_first(), c)
    }
}

/// The pieces of `s` between the line feeds.
pub open spec fn pieces(s: Seq<char>) -> Seq<Seq<char>>
    decreases s.len(),
{
    let i = first_index(s, '\n');
    if i < s.len() {
        seq![s.take(i as int)] + pieces(s.skip(i as int + 1))
    } else {
        seq![s]
    }
}

/// The decimal digit of a number below ten.
pub open spec fn digit(d: nat) -> char {
    (48 + d) as u8 as char
}

/// A number in decimal.
pub open spec fn decimal_text(n: nat) -> Seq<char>
    decreases n,
{
    if n < 10 {
        seq![digit(n)]
    } else {
        decimal_text(n / 10).push(digit(n % 10))
    }
}

/// A signed number in decimal.
pub open spec fn signed_text(n: int) -> Seq<char> {
    if n < 0 {
        seq!['-'] + decimal_text((-n) as nat)
    } else {
        decimal_text(n as nat)
    }
}

pub open spec fn is_digit(c: char) -> bool {
    '0' <= c <= '9'
}

pub open spec fn digit_value(c: char) -> nat {
    (c as u32 - 48) as nat
}

pub open spec fn all_digits(s: Seq<char>) -> bool {
    forall|i: int| 0 <= i < s.len() ==> is_digit(#[trigger] s[i])
}

/// The number that a row of digits writes.
pub open spec fn number(s: Seq<char>) -> nat
    decreases s.len(),
{
    if s.len() == 0 {
        0
    } else {
        number(s.drop_last()) * 10 + digit_value(s.last())
    }
}

/// A text without the plus sign that it may start with.
pub open spec fn without_plus(s: Seq<char>) -> Seq<char> {
    if s.len() > 0 && s[0] == '+' {
        s.drop_first()
    } else {
        s
    }
}

/// The `u64` that a text writes: at least one digit, nothing but digits after
/// an optional plus sign, and a value that fits.
pub open spec fn unsigned_of(s: Seq<char>) -> Option<u64> {
    let d = without_plus(s);
    if d.len() > 0 && all_digits(d) && number(d) <= u64::MAX {
        Some(number(d) as u64)
    } else {
        None
    }
}

/// The truth value that a text spells out.
pub open spec fn bool_of(s: Seq<char>) -> Option<bool> {
    if s == "true"@ {
        Some(true)
    } else if s == "false"@ {
        Some(false)
    } else {
        None
    }
}

/// `piece` written `n` times.
pub open spec fn repeated(piece: Seq<char>, n: nat) -> Seq<char>
    decreases n,
{
    if n == 0 {
        Seq::empty()
    } else {
        repeated(piece, (n - 1) as nat) + piece
    }
}

/// `s` ends with `tail`.
pub open spec fn has_suffix(s: Seq<char>, tail: Seq<char>) -> bool {
    s.len() >= tail.len() && s.skip(s.len() - tail.len()) == tail
}

pub fn chars_of(s: &str) -> (r: Vec<char>)
    ensures
        r@ == s@,
{
    let mut v: Vec<char> = Vec::new();
    for c in it: s.chars()
        invariant
            it.seq() == s@,
            v@ == s@.take(it.index() as int),
    {
        v.push(c);
    }
    v
}

pub fn is_white_space(c: char) -> (r: bool)
    ensures
        r == is_space(c),
{
    let u = c as u32;
    (0x09 <= u && u <= 0x0d) || u == 0x20 || u == 0x85 || u == 0xa0 || u == 0x1680 || (0x2000 <= u && u
        <= 0x200a) || u == 0x2028 || u == 0x2029 || u == 0x202f || u == 0x205f || u == 0x3000
}

proof fn lemma_trim_front_skip(s: Seq<char>, k: int)
    requires
        0 <= k <= s.len(),
        forall|i: int| 0 <= i < k ==> is_space(#[trigger] s[i]),
        k < s.len() ==> !is_space(s[k]),
    ensures
        trim_front(s) == s.skip(k),
    decreases k,
{
    if k == 0 {
        assert(s.skip(0) =~= s);
    } else {
        lemma_trim_front_skip(s.drop_first(), k - 1);
        assert(s.drop_first().skip(k - 1) =~= s.skip(k));
    }
}

proof fn lemma_trim_back_take(s: Seq<char>, k: int)
    requires
        0 <= k <= s.len(),
        forall|i: int| k <= i < s.len() ==> is_space(#[trigger] s[i]),
        k > 0 ==> !is_space(s[k - 1]),
    ensures
        trim_back(s) == s.take(k),
    decreases s.len() - k,
{
    if k == s.len() {
        assert(s.take(k) =~= s);
    } else {
        lemma_trim_back_take(s.drop_last(), k);
        assert(s.drop_last().take(k) =~= s.take(k));
    }
}

/// The text without white space at either end.
pub fn trimmed<'a>(s: &'a str) -> (r: &'a str)
    ensures
        r@ == trim(s@),
{
    let v = chars_of(s);
    let n: usize = v.len();
    let mut i: usize = 0;
    while i < n && is_white_space(v[i])
        invariant
            n == v@.len(),
            i <= n,
            forall|k: int| 0 <= k < i ==> is_space(#[trigger] v@[k]),
        decreases n - i,
    {
        i += 1;
    }
    let mut j: usize = n;
    while i < j && is_white_space(v[j - 1])
        invariant
            n == v@.len(),
            i <= j <= n,
            forall|k: int| j <= k < n ==> is_space(#[trigger] v@[k]),
        decreases j,
    {
        j -= 1;
    }
    proof {
        lemma_trim_front_skip(s@, i as int);
        let t = s@.skip(i as int);
        lemma_trim_back_take(t, j - i);
        assert(t.take(j - i) =~= s@.subrange(i as int, j as int));
    }
    s.substring_char(i, j)
}

/// The two texts hold the same characters.
pub fn same(a: &str, b: &str) -> (r: bool)
    ensures
        r == (a@ == b@),
{
    let x = a.to_owned();
    let y = b.to_owned();
    x.eq(&y)
}

pub fn lower_char(c: char) -> (r: char)
    ensures
        r == lower(c),
{
    if 'A' <= c && c <= 'Z' {
        (c as u8 + 32) as char
    } else {
        c
    }
}

/// The text with its ASCII capitals as small letters.
pub fn to_lower(s: &str) -> (r: String)
    ensures
        r@ == lowered(s@),
{
    let mut out = String::new();
    for c in it: s.chars()
        invariant
            it.seq() == s@,
            out@ == lowered(s@.take(it.index() as int)),
    {
        proof {
            let i = it.index() as int;
            assert(s@.take(i + 1) =~= s@.take(i).push(c));
            assert(lowered(s@.take(i + 1)) =~= lowered(s@.take(i)).push(lower(c)));
        }
        out.push(lower_char(c));
    }
    proof {
        assert(s@.take(s@.len() as int) =~= s@);
    }
    out
}

/// The two texts differ at most in the case of ASCII letters.
pub fn same_ignoring_case(a: &str, b: &str) -> (r: bool)
    ensures
        r == (lowered(a@) == lowered(b@)),
{
    let x = to_lower(a);
    let y = to_lower(b);
    x.eq(&y)
}

/// `s` ends with `tail`.
pub fn ends_with(s: &str, tail: &str) -> (r: bool)
    ensures
        r == has_suffix(s@, tail@),
{
    let n: usize = s.unicode_len();
    let k: usize = tail.unicode_len();
    if n < k {
        return false;
    }
    let end = s.substring_char(n - k, n);
    proof {
        assert(s@.subrange(n - k, n as int) =~= s@.skip(n - k));
    }
    same(end, tail)
}

proof fn lemma_first_index(s: Seq<char>, c: char, i: int)
    requires
        0 <= i <= s.len(),
        forall|k: int| 0 <= k < i ==> #[trigger] s[k] != c,
        i < s.len() ==> s[i] == c,
    ensures
        first_index(s, c) == i,
    decreases i,
{
    if i > 0 {
        lemma_first_index(s.drop_first(), c, i - 1);
    }
}

/// Splits a text at the first `mark`, which goes to neither side.
pub fn split_once<'a>(s: &'a str, mark: char) -> (r: Option<(&'a str, &'a str)>)
    ensures
        match r {
            Some((left, right)) => {
                &&& first_index(s@, mark) < s@.len()
                &&& left@ == s@.take(first_index(s@, mark) as int)
                &&& right@ == s@.skip(first_index(s@, mark) as int + 1)
            },
            None => first_index(s@, mark) == s@.len(),
        },
{
    let v = chars_of(s);
    let n: usize = v.len();
    let mut i: usize = 0;
    while i < n && v[i] != mark
        invariant
            n == v@.len(),
            i <= n,
            forall|k: int| 0 <= k < i ==> #[trigger] v@[k] != mark,
        decreases n - i,
    {
        i += 1;
    }
    proof {
        lemma_first_index(s@, mark, i as int);
    }
    if i < n {
        let left = s.substring_char(0, i);
        let right = s.substring_char(i + 1, n);
        proof {
            assert(s@.subrange(0, i as int) =~= s@.take(i as int));
            assert(s@.subrange(i + 1, n as int) =~= s@.skip(i + 1));
        }
        Some((left, right))
    } else {
        None
    }
}

/// The views of a row of texts.
pub open spec fn views(v: Seq<&str>) -> Seq<Seq<char>> {
    v.map_values(|s: &str| s@)
}

/// The pieces of a text between its line feeds.
pub fn split_lines<'a>(s: &'a str) -> (r: Vec<&'a str>)
    ensures
        views(r@) == pieces(s@),
{
    let mut out: Vec<&'a str> = Vec::new();
    let mut rest: &'a str = s;
    loop
        invariant_except_break
            pieces(s@) == views(out@) + pieces(rest@),
        ensures
            pieces(s@) == views(out@),
        decreases rest@.len(),
    {
        match split_once(rest, '\n') {
            Some((left, right)) => {
                let ghost before = out@;
                out.push(left);
                proof {
                    assert(views(out@) =~= views(before) + seq![left@]);
                    assert(views(before) + (seq![left@] + pieces(right@)) =~= views(out@) + pieces(right@));
                }
                rest = right;
            },
            None => {
                let ghost before = out@;
                out.push(rest);
                proof {
                    assert(views(out@) =~= views(before) + seq![rest@]);
                }
                break;
            },
        }
    }
    out
}

fn digit_char(d: u8) -> (r: char)
    requires
        d < 10,
    ensures
        r == digit(d as nat),
{
    (48 + d) as char
}

/// A number in decimal.
pub fn decimal(n: u128) -> (r: String)
    ensures
        r@ == decimal_text(n as nat),
    decreases n,
{
    let mut s = if n < 10 {
        String::new()
    } else {
        decimal(n / 10)
    };
    let d: u8 = (n % 10) as u8;
    s.push(digit_char(d));
    proof {
        if n < 10 {
            assert(s@ =~= seq![digit(n as nat)]);
        }
    }
    s
}

/// A signed number in decimal.
pub fn decimal_signed(n: i64) -> (r: String)
    ensures
        r@ == signed_text(n as int),
{
    if n < 0 {
        let mut s = String::new();
        s.push('-');
        let m: u128 = (-(n as i128)) as u128;
        let d = decimal(m);
        s.append(d.as_str());
        proof {
            assert(s@ =~= seq!['-'] + decimal_text((-n) as nat));
        }
        s
    } else {
        decimal(n as u128)
    }
}

proof fn lemma_number_grows(s: Seq<char>, k: int)
    requires
        0 <= k <= s.len(),
    ensures
        number(s.take(k)) <= number(s),
    decreases s.len(),
{
    if k == s.len() {
        assert(s.take(k) =~= s);
    } else {
        lemma_number_grows(s.drop_last(), k);
        assert(s.drop_last().take(k) =~= s.take(k));
    }
}

/// The `u64` that a text writes.
pub fn parse_unsigned(s: &str) -> (r: Option<u64>)
    ensures
        r == unsigned_of(s@),
{
    let v = chars_of(s);
    let n: usize = v.len();
    let start: usize = if n > 0 && v[0] == '+' {
        1
    } else {
        0
    };
    let ghost d = without_plus(s@);
    proof {
        assert(d =~= v@.skip(start as int));
    }
    if start == n {
        return None;
    }
    let mut total: u128 = 0;
    let mut i: usize = start;
    while i < n
        invariant
            n == v@.len(),
            start <= i <= n,
            d == v@.skip(start as int),
            total == number(d.take(i - start)),
            total <= u64::MAX,
            forall|k: int| 0 <= k < i - start ==> is_digit(#[trigger] d[k]),
            d.len() == n - start,
            d == without_plus(s@),
        decreases n - i,
    {
        let c = v[i];
        proof {
            assert(d[i - start] == c);
        }
        if c < '0' || c > '9' {
            return None;
        }
        let ghost k = i - start;
        proof {
            assert(d.take(k + 1).drop_last() =~= d.take(k));
        }
        total = total * 10 + (c as u32 - 48) as u128;
        i += 1;
        if total > u64::MAX as u128 {
            proof {
                lemma_number_grows(d, k + 1);
            }
            return None;
        }
    }
    proof {
        assert(d.take(n - start) =~= d);
    }
    Some(total as u64)
}

/// The truth value that a text spells out.
pub fn parse_bool(s: &str) -> (r: Option<bool>)
    ensures
        r == bool_of(s@),
{
    if same(s, "true") {
        Some(true)
    } else if same(s, "false") {
        Some(false)
    } else {
        None
    }
}

/// `piece` written `n` times.
pub fn repeat(piece: &str, n: usize) -> (r: String)
    ensures
        r@ == repeated(piece@, n as nat),
{
    let mut s = String::new();
    let mut i: usize = 0;
    while i < n
        invariant
            i <= n,
            s@ == repeated(piece@, i as nat),
        decreases n - i,
    {
        s.append(piece);
        i += 1;
    }
    s
}

/// `std::str::from_utf8`: the text that the bytes encode, where they are valid
/// UTF-8.
#[verifier::external_body]
pub(crate) fn utf8_text(bytes: &[u8]) -> (r: Option<String>)
    ensures
        match r {
            Some(s) => valid_utf8(bytes@) && s@ == decode_utf8(bytes@),
            None => !valid_utf8(bytes@),
        },
{
    std::str::from_utf8(bytes).ok().map(|s| s.to_owned())
}

/// What `String::from_utf8_lossy` makes of bytes.
pub uninterp spec fn utf8_lossy(bytes: Seq<u8>) -> Seq<char>;

/// `String::from_utf8_lossy`: valid UTF-8 is decoded as it stands, and what is
/// not valid comes out as replacement characters.
#[verifier::external_body]
pub(crate) fn utf8_text_lossy(bytes: &[u8]) -> (r: String)
    ensures
        r@ == utf8_lossy(bytes@),
        valid_utf8(bytes@) ==> r@ == decode_utf8(bytes@),
{
    String::from_utf8_lossy(bytes).into_owned()
}

proof fn lemma_decimal_digits(n: nat)
    ensures
        decimal_text(n).len() > 0,
        all_digits(decimal_text(n)),
        number(decimal_text(n)) == n,
    decreases n,
{
    if n < 10 {
        assert(decimal_text(n).drop_last() =~= Seq::<char>::empty());
        assert(number(decimal_text(n).drop_last()) == 0);
    } else {
        lemma_decimal_digits(n / 10);
        assert(decimal_text(n).drop_last() =~= decimal_text(n / 10));
    }
}

/// Reading a number back from its decimal text gives the number.
pub proof fn decimal_reads_back(n: u64)
    ensures
        unsigned_of(decimal_text(n as nat)) == Some(n),
{
    lemma_decimal_digits(n as nat);
    assert(is_digit(decimal_text(n as nat)[0]));
}

proof fn lemma_trim_front_properties(s: Seq<char>)
    ensures
        trim_front(s).len() <= s.len(),
        trim_front(s) == s.skip(s.len() - trim_front(s).len()),
        trim_front(s).len() > 0 ==> !is_space(trim_front(s)[0]),
    decreases s.len(),
{
    if s.len() > 0 && is_space(s[0]) {
        lemma_trim_front_properties(s.drop_first());
        let t = trim_front(s.drop_first());
        assert(s.drop_first().skip(s.drop_first().len() - t.len()) =~= s.skip(s.len() - t.len()));
    } else {
        assert(s.skip(0) =~= s);
    }
}

proof fn lemma_trim_back_properties(s: Seq<char>)
    ensures
        trim_back(s).len() <= s.len(),
        trim_back(s) == s.take(trim_back(s).len() as int),
        trim_back(s).len() > 0 ==> !is_space(trim_back(s).last()),
    decreases s.len(),
{
    if s.len() > 0 && is_space(s.last()) {
        lemma_trim_back_properties(s.drop_last());
        let t = trim_back(s.drop_last());
        assert(s.drop_last().take(t.len() as int) =~= s.take(t.len() as int));
    } else {
        assert(s.take(s.len() as int) =~= s);
    }
}

/// A trimmed text has no white space at either end, and trimming it again
/// changes nothing.
pub proof fn trim_is_idempotent(s: Seq<char>)
    ensures
        trim(s).len() > 0 ==> !is_space(trim(s)[0]) && !is_space(trim(s).last()),
        trim(trim(s)) == trim(s),
{
    let f = trim_front(s);
    lemma_trim_front_properties(s);
    lemma_trim_back_properties(f);
    let t = trim_back(f);
    if t.len() > 0 {
        assert(t[0] == f[0]);
    }
}

/// Exactly the capitals from `A` to `Z` become the small letters that stand 32
/// places behind them; every other character stays as it is.
pub proof fn capitals_become_small(c: char)
    ensures
        65 <= c as int <= 90 ==> lower(c) as int == c as int + 32,
        !(65 <= c as int <= 90) ==> lower(c) == c,
{
}

/// Making letters small goes character by character.
pub proof fn letters_are_made_small_one_by_one(s: Seq<char>)
    ensures
        lowered(s).len() == s.len(),
        forall|i: int| 0 <= i < s.len() ==> #[trigger] lowered(s)[i] == lower(s[i]),
{
}

proof fn lemma_trim_front_cuts_spaces(s: Seq<char>)
    ensures
        trim_front(s).len() <= s.len(),
        trim_front(s) == s.skip(s.len() - trim_front(s).len()),
        forall|i: int| 0 <= i < s.len() - trim_front(s).len() ==> is_space(#[trigger] s[i]),
    decreases s.len(),
{
    lemma_trim_front_properties(s);
    if s.len() > 0 && is_space(s[0]) {
        lemma_trim_front_cuts_spaces(s.drop_first());
        assert forall|i: int| 0 <= i < s.len() - trim_front(s).len() implies is_space(#[trigger] s[i]) by {
            if i > 0 {
                assert(s.drop_first()[i - 1] == s[i]);
            }
        }
    }
}

proof fn lemma_trim_back_cuts_spaces(s: Seq<char>)
    ensures
        trim_back(s).len() <= s.len(),
        trim_back(s) == s.take(trim_back(s).len() as int),
        forall|i: int| trim_back(s).len() <= i < s.len() ==> is_space(#[trigger] s[i]),
    decreases s.len(),
{
    lemma_trim_back_properties(s);
    if s.len() > 0 && is_space(s.last()) {
        lemma_trim_back_cuts_spaces(s.drop_last());
        assert forall|i: int| trim_back(s).len() <= i < s.len() implies is_space(#[trigger] s[i]) by {
            if i < s.len() - 1 {
                assert(s.drop_last()[i] == s[i]);
            }
        }
    }
}

/// Trimming cuts white space off both ends and nothing else: what is left stands
/// in the text as it is, and everything before and behind it is white space.
pub proof fn trimming_cuts_only_white_space(s: Seq<char>)
    ensures
        exists|i: int, j: int|
            #![trigger s.subrange(i, j)]
            {
                &&& 0 <= i <= j <= s.len()
                &&& trim(s) == s.subrange(i, j)
                &&& forall|k: int| 0 <= k < i || j <= k < s.len() ==> is_space(#[trigger] s[k])
            },
{
    let f = trim_front(s);
    lemma_trim_front_cuts_spaces(s);
    lemma_trim_back_cuts_spaces(f);
    let i = s.len() - f.len();
    let j = i + trim(s).len();
    assert(trim(s) =~= s.subrange(i, j));
    assert forall|k: int| 0 <= k < i || j <= k < s.len() implies is_space(#[trigger] s[k]) by {
        if j <= k {
            assert(f[k - i] == s[k]);
        }
    }
}

/// White space is the tab to the carriage return, the blank, the next-line and the
/// no-break character, the Ogham mark, the spaces of general punctuation, the line
/// and paragraph separators, and the ideographic space. No letter, digit or sign
/// of ASCII is among it.
pub proof fn white_space_is_listed(c: char)
    ensures
        is_space(c) <==> seq![
            0x09int,
            0x0a,
            0x0b,
            0x0c,
            0x0d,
            0x20,
            0x85,
            0xa0,
            0x1680,
            0x2000,
            0x2001,
            0x2002,
            0x2003,
            0x2004,
            0x2005,
            0x2006,
            0x2007,
            0x2008,
            0x2009,
            0x200a,
            0x2028,
            0x2029,
            0x202f,
            0x205f,
            0x3000,
        ].contains(c as int),
        0x21 <= c as int <= 0x7e ==> !is_space(c),
{
    let l = seq![
        0x09int,
        0x0a,
        0x0b,
        0x0c,
        0x0d,
        0x20,
        0x85,
        0xa0,
        0x1680,
        0x2000,
        0x2001,
        0x2002,
        0x2003,
        0x2004,
        0x2005,
        0x2006,
        0x2007,
        0x2008,
        0x2009,
        0x200a,
        0x2028,
        0x2029,
        0x202f,
        0x205f,
        0x3000,
    ];
    let u = c as int;
    if is_space(c) {
        let i: int = if u <= 0x0d {
            u - 9
        } else if u == 0x20 {
            5
        } else if u == 0x85 {
            6
        } else if u == 0xa0 {
            7
        } else if u == 0x1680 {
            8
        } else if u <= 0x200a {
            u - 0x2000 + 9
        } else if u == 0x2028 {
            20
        } else if u == 0x2029 {
            21
        } else if u == 0x202f {
            22
        } else if u == 0x205f {
            23
        } else {
            24
        };
        assert(l[i] == u);
    }
}

/// The first index of a character is where it stands and stood nowhere before, or
/// the length where it stands nowhere.
pub proof fn first_index_is_the_first(s: Seq<char>, c: char)
    ensures
        first_index(s, c) <= s.len(),
        first_index(s, c) < s.len() ==> s[first_index(s, c) as int] == c,
        forall|k: int| 0 <= k < first_index(s, c) ==> #[trigger] s[k] != c,
    decreases s.len(),
{
    if s.len() > 0 && s[0] != c {
        first_index_is_the_first(s.drop_first(), c);
        assert forall|k: int| 0 <= k < first_index(s, c) implies #[trigger] s[k] != c by {
            if k > 0 {
                assert(s.drop_first()[k - 1] == s[k]);
            }
        }
    }
}

/// Pieces with a line feed between each two.
pub open spec fn joined(p: Seq<Seq<char>>) -> Seq<char>
    decreases p.len(),
{
    if p.len() == 0 {
        Seq::empty()
    } else if p.len() == 1 {
        p[0]
    } else {
        p[0] + seq!['\n'] + joined(p.drop_first())
    }
}

/// The pieces of a text hold no line feed, and put together again with line feeds
/// they are the text.
pub proof fn pieces_put_together_are_the_text(s: Seq<char>)
    ensures
        pieces(s).len() > 0,
        joined(pieces(s)) == s,
        forall|i: int, k: int|
            0 <= i < pieces(s).len() && 0 <= k < pieces(s)[i].len() ==> #[trigger] pieces(s)[i][k] != '\n',
    decreases s.len(),
{
    first_index_is_the_first(s, '\n');
    let i = first_index(s, '\n') as int;
    if i < s.len() {
        let rest = s.skip(i + 1);
        pieces_put_together_are_the_text(rest);
        assert(pieces(s).drop_first() =~= pieces(rest));
        assert(s.take(i) + seq!['\n'] + rest =~= s);
        assert forall|j: int, k: int| 0 <= j < pieces(s).len() && 0 <= k < pieces(s)[j].len() implies #[trigger] pieces(
            s,
        )[j][k] != '\n' by {
            if j > 0 {
                assert(pieces(s)[j] == pieces(rest)[j - 1]);
                assert(pieces(rest)[j - 1][k] != '\n');
            }
        }
    }
}

/// Every number is written in digits without a needless zero in front, and reads
/// back as itself; a negative one has a minus sign before that.
pub proof fn numbers_are_written_in_decimal(n: nat)
    ensures
        decimal_text(n).len() > 0,
        forall|i: int| 0 <= i < decimal_text(n).len() ==> '0' <= #[trigger] decimal_text(n)[i] <= '9',
        n > 0 ==> decimal_text(n)[0] != '0',
        n == 0 ==> decimal_text(n) == seq!['0'],
        number(decimal_text(n)) == n,
        signed_text(n as int) == decimal_text(n),
        n > 0 ==> signed_text(-n) == seq!['-'] + decimal_text(n),
    decreases n,
{
    lemma_decimal_digits(n);
    assert forall|i: int| 0 <= i < decimal_text(n).len() implies '0' <= #[trigger] decimal_text(n)[i] <= '9' by {
        assert(is_digit(decimal_text(n)[i]));
    }
    if n >= 10 {
        numbers_are_written_in_decimal(n / 10);
        assert(decimal_text(n)[0] == decimal_text(n / 10)[0]);
    }
}

/// A row of digits counts by tens: one digit more makes ten times as much and the
/// digit.
pub proof fn digits_count_by_tens(s: Seq<char>, c: char)
    ensures
        number(Seq::empty()) == 0,
        '0' <= c <= '9' ==> number(s.push(c)) == 10 * number(s) + (c as int - 48),
{
    assert(s.push(c).drop_last() =~= s);
}

/// A text is a number exactly where it holds digits and nothing else, at least one
/// of them, and the number that they write fits. One plus sign in front changes
/// nothing.
pub proof fn only_digits_make_a_number(d: Seq<char>)
    ensures
        unsigned_of(seq!['+'] + d) is Some <==> d.len() > 0 && (forall|i: int|
            0 <= i < d.len() ==> '0' <= #[trigger] d[i] <= '9') && number(d) <= 0xffff_ffff_ffff_ffff,
        unsigned_of(seq!['+'] + d) is Some ==> unsigned_of(seq!['+'] + d)->0 == number(d),
        d.len() == 0 || d[0] != '+' ==> unsigned_of(d) == unsigned_of(seq!['+'] + d),
{
    assert(without_plus(seq!['+'] + d) =~= d);
    if all_digits(d) {
        assert forall|i: int| 0 <= i < d.len() implies '0' <= #[trigger] d[i] <= '9' by {
            assert(is_digit(d[i]));
        }
    }
}

/// Only the two words `true` and `false`, in small letters, are truth values.
pub proof fn only_two_words_are_truth_values(s: Seq<char>)
    ensures
        bool_of(s) == Some(true) <==> s == "true"@,
        bool_of(s) == Some(false) <==> s == "false"@,
{
    reveal_strlit("true");
    reveal_strlit("false");
    assert("true"@.len() != "false"@.len());
}

/// A piece written some times and some times more is written as often as both
/// together; once is the piece itself, and never is nothing.
pub proof fn repetition_adds_up(piece: Seq<char>, a: nat, b: nat)
    ensures
        repeated(piece, 0).len() == 0,
        repeated(piece, 1) == piece,
        repeated(piece, a + b) == repeated(piece, a) + repeated(piece, b),
    decreases b,
{
    assert(repeated(piece, 1) == repeated(piece, 0) + piece);
    assert(Seq::<char>::empty() + piece =~= piece);
    if b == 0 {
        assert(repeated(piece, a) + repeated(piece, 0) =~= repeated(piece, a));
    } else {
        repetition_adds_up(piece, a, (b - 1) as nat);
        assert(repeated(piece, a) + repeated(piece, (b - 1) as nat) + piece =~= repeated(piece, a) + (repeated(
            piece,
            (b - 1) as nat,
        ) + piece));
        assert((a + b - 1) as nat == a + (b - 1) as nat);
    }
}

/// A text has a suffix exactly where something in front of the suffix makes up the
/// text.
pub proof fn a_suffix_is_what_a_text_ends_with(s: Seq<char>, front: Seq<char>, tail: Seq<char>)
    ensures
        has_suffix(front + tail, tail),
        has_suffix(s, tail) ==> s == s.take(s.len() - tail.len()) + tail,
{
    assert((front + tail).skip((front + tail).len() - tail.len()) =~= tail);
    if has_suffix(s, tail) {
        assert(s =~= s.take(s.len() - tail.len()) + tail);
    }
}

proof fn lemma_trim_front_skips(a: Seq<char>, s: Seq<char>)
    requires
        forall|k: int| 0 <= k < a.len() ==> is_space(#[trigger] a[k]),
    ensures
        trim_front(a + s) == trim_front(s),
    decreases a.len(),
{
    if a.len() == 0 {
        assert(a + s =~= s);
    } else {
        assert((a + s)[0] == a[0]);
        assert((a + s).drop_first() =~= a.drop_first() + s);
        assert forall|k: int| 0 <= k < a.drop_first().len() implies is_space(#[trigger] a.drop_first()[k]) by {
            assert(a.drop_first()[k] == a[k + 1]);
        }
        lemma_trim_front_skips(a.drop_first(), s);
    }
}

proof fn lemma_trim_back_skips(s: Seq<char>, b: Seq<char>)
    requires
        forall|k: int| 0 <= k < b.len() ==> is_space(#[trigger] b[k]),
    ensures
        trim_back(s + b) == trim_back(s),
    decreases b.len(),
{
    if b.len() == 0 {
        assert(s + b =~= s);
    } else {
        assert((s + b).last() == b[b.len() - 1]);
        assert((s + b).drop_last() =~= s + b.drop_last());
        assert forall|k: int| 0 <= k < b.drop_last().len() implies is_space(#[trigger] b.drop_last()[k]) by {
            assert(b.drop_last()[k] == b[k]);
        }
        lemma_trim_back_skips(s, b.drop_last());
    }
}

proof fn lemma_trim_front_keeps_the_end(s: Seq<char>, b: Seq<char>)
    ensures
        trim_front(s).len() > 0 ==> trim_front(s + b) == trim_front(s) + b,
        trim_front(s).len() == 0 ==> trim_front(s + b) == trim_front(b),
    decreases s.len(),
{
    if s.len() == 0 {
        assert(s + b =~= b);
    } else {
        assert((s + b)[0] == s[0]);
        if is_space(s[0]) {
            assert((s + b).drop_first() =~= s.drop_first() + b);
            lemma_trim_front_keeps_the_end(s.drop_first(), b);
        }
    }
}

/// White space before and behind a text does not change what is left of it.
pub proof fn white_space_around_does_not_count(a: Seq<char>, s: Seq<char>, b: Seq<char>)
    requires
        forall|k: int| 0 <= k < a.len() ==> is_space(#[trigger] a[k]),
        forall|k: int| 0 <= k < b.len() ==> is_space(#[trigger] b[k]),
    ensures
        trim(a + s + b) == trim(s),
{
    assert(a + s + b =~= a + (s + b));
    lemma_trim_front_skips(a, s + b);
    lemma_trim_front_keeps_the_end(s, b);
    if trim_front(s).len() > 0 {
        lemma_trim_back_skips(trim_front(s), b);
    } else {
        assert(b + Seq::<char>::empty() =~= b);
        lemma_trim_front_skips(b, Seq::empty());
        assert(trim_front(s) =~= Seq::<char>::empty());
    }
}

/// A text that neither starts nor ends with white space is left whole.
pub proof fn a_trimmed_text_is_left_whole(s: Seq<char>)
    requires
        s.len() > 0 ==> !is_space(s[0]) && !is_space(s.last()),
    ensures
        trim(s) == s,
{
}

proof fn lemma_pieces_of_one_more_line(a: Seq<char>, line: Seq<char>)
    requires
        forall|k: int| 0 <= k < line.len() ==> #[trigger] line[k] != '\n',
    ensures
        pieces(a + seq!['\n'] + line) == pieces(a).push(line),
    decreases a.len(),
{
    let s = a + seq!['\n'] + line;
    first_index_is_the_first(a, '\n');
    let i = first_index(a, '\n') as int;
    if i < a.len() {
        let rest = a.skip(i + 1);
        assert forall|k: int| 0 <= k < i implies #[trigger] s[k] != '\n' by {
            assert(s[k] == a[k]);
        }
        assert(s[i] == a[i]);
        lemma_first_index(s, '\n', i);
        assert(s.take(i) =~= a.take(i));
        assert(s.skip(i + 1) =~= rest + seq!['\n'] + line);
        lemma_pieces_of_one_more_line(rest, line);
        assert(pieces(s) == seq![a.take(i)] + pieces(rest + seq!['\n'] + line));
        assert(seq![a.take(i)] + pieces(rest).push(line) =~= (seq![a.take(i)] + pieces(rest)).push(line));
    } else {
        assert forall|k: int| 0 <= k < a.len() implies #[trigger] s[k] != '\n' by {
            assert(s[k] == a[k]);
        }
        lemma_first_index(s, '\n', a.len() as int);
        assert(s.take(a.len() as int) =~= a);
        assert(s.skip(a.len() as int + 1) =~= line);
        lemma_first_index(line, '\n', line.len() as int);
        assert(pieces(line) == seq![line]);
        assert(pieces(s) == seq![a] + pieces(line));
        assert(pieces(a) == seq![a]);
        assert(seq![a] + seq![line] =~= seq![a].push(line));
    }
}

/// A line behind a text is the last of its pieces, and the pieces of the text come
/// before it; a text without a line feed is its own only piece.
pub proof fn one_more_line_is_one_more_piece(a: Seq<char>, line: Seq<char>)
    requires
        forall|k: int| 0 <= k < line.len() ==> #[trigger] line[k] != '\n',
    ensures
        pieces(a + seq!['\n'] + line) == pieces(a).push(line),
        pieces(line) == seq![line],
{
    lemma_pieces_of_one_more_line(a, line);
    lemma_first_index(line, '\n', line.len() as int);
}

} // verus!
