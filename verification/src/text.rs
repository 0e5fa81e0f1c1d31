//! Text primitives: searching and cutting strings, decimal and hexadecimal digits.
//!
//! A string is modelled by its sequence of characters.

use vstd::prelude::*;
use vstd::utf8::*;

verus! {

/// `String::push` appends one character at the end.
pub assume_specification[ String::push ](text: &mut String, c: char)
    ensures
        final(text)@ == old(text)@.push(c),
;

/// `<str as PartialEq>::eq` holds exactly when both sides hold the same characters.
pub assume_specification[ <str as PartialEq<str>>::eq ](a: &str, b: &str) -> (r: bool)
    ensures
        r == (a@ == b@),
;

/// `std::str::from_utf8`: the characters that the bytes encode, when they are UTF-8.
#[verifier::external_body]
pub(crate) fn utf8_text<'a>(bytes: &'a [u8]) -> (r: Option<&'a str>)
    ensures
        match r {
            Some(t) => valid_utf8(bytes@) && t@ == decode_utf8(bytes@),
            None => !valid_utf8(bytes@),
        },
{
    std::str::from_utf8(bytes).ok()
}

/// The words in which the standard library says why bytes are not UTF-8.
pub uninterp spec fn utf8_error_text(bytes: Seq<u8>) -> Seq<char>;

/// `String::from_utf8`: the text that the bytes encode, or the words of the error.
#[verifier::external_body]
pub(crate) fn text_from_utf8(bytes: Vec<u8>) -> (r: Result<String, String>)
    ensures
        match r {
            Ok(t) => valid_utf8(bytes@) && t@ == decode_utf8(bytes@),
            Err(words) => !valid_utf8(bytes@) && words@ == utf8_error_text(bytes@),
        },
{
    String::from_utf8(bytes).map_err(|e| e.to_string())
}

/// A text in quotes, with its special characters escaped, as the standard library shows it for
/// debugging.
pub uninterp spec fn debug_text(text: Seq<char>) -> Seq<char>;

/// `<str as Debug>::fmt`: the text in quotes with its special characters escaped.
#[verifier::external_body]
pub(crate) fn quoted(text: &str) -> (r: String)
    ensures
        r@ == debug_text(text@),
{
    format!("{:?}", text)
}

/// The view of an optional string.
pub open spec fn opt_text(text: Option<String>) -> Option<Seq<char>> {
    match text {
        Some(t) => Some(t@),
        None => None,
    }
}

/// The view of an optional string slice.
pub open spec fn opt_str(text: Option<&str>) -> Option<Seq<char>> {
    match text {
        Some(t) => Some(t@),
        None => None,
    }
}

/// The views of a list of strings.
pub open spec fn texts(list: Seq<String>) -> Seq<Seq<char>> {
    list.map_values(|t: String| t@)
}

/// A copy of an optional string slice.
pub fn opt_to_owned(text: Option<&str>) -> (r: Option<String>)
    ensures
        opt_text(r) == opt_str(text),
{
    match text {
        Some(t) => Some(t.to_owned()),
        None => None,
    }
}

/// The characters of a string, in order.
pub fn chars_of(text: &str) -> (r: Vec<char>)
    ensures
        r@ == text@,
{
    let mut out: Vec<char> = Vec::new();
    for c in it: text.chars()
        invariant
            out@ == it.seq().take(it.index() as int),
            it.seq() == text@,
    {
        out.push(c);
    }
    assert(out@ == text@);
    out
}

/// Two texts, one after the other.
pub fn cat2(a: &str, b: &str) -> (r: String)
    ensures
        r@ == a@ + b@,
{
    let mut out = a.to_owned();
    out.append(b);
    out
}

/// Three texts, one after the other.
pub fn cat3(a: &str, b: &str, c: &str) -> (r: String)
    ensures
        r@ == a@ + b@ + c@,
{
    let mut out = a.to_owned();
    out.append(b);
    out.append(c);
    out
}

/// Five texts, one after the other.
pub fn cat5(a: &str, b: &str, c: &str, d: &str, e: &str) -> (r: String)
    ensures
        r@ == a@ + b@ + c@ + d@ + e@,
{
    let mut out = a.to_owned();
    out.append(b);
    out.append(c);
    out.append(d);
    out.append(e);
    out
}

// ---------------------------------------------------------------------
// Searching and cutting
// ---------------------------------------------------------------------

/// The parts of `text` before and after its first `c`, if it holds one.
pub open spec fn split_once_at(text: Seq<char>, c: char) -> Option<(Seq<char>, Seq<char>)> {
    match text.index_of_first(c) {
        Some(i) => Some((text.take(i), text.skip(i + 1))),
        None => None,
    }
}

/// The parts of `text` between its occurrences of `c`.
pub open spec fn split_at_each(text: Seq<char>, c: char) -> Seq<Seq<char>>
    decreases text.len(),
    via split_decreases
{
    match text.index_of_first(c) {
        Some(i) => seq![text.take(i)] + split_at_each(text.skip(i + 1), c),
        None => seq![text],
    }
}

#[via_fn]
proof fn split_decreases(text: Seq<char>, c: char) {
    text.index_of_first_ensures(c);
}

/// The index of the first `c` in `text`.
pub fn find_char(text: &str, c: char) -> (r: Option<usize>)
    ensures
        match r {
            Some(i) => text@.index_of_first(c) == Some(i as int) && i < text@.len()
                && text@[i as int] == c && !text@.take(i as int).contains(c),
            None => text@.index_of_first(c) is None && !text@.contains(c),
        },
{
    let chars = chars_of(text);
    let mut i: usize = 0;
    while i < chars.len()
        invariant
            0 <= i <= chars.len(),
            chars@ == text@,
            forall|j: int| 0 <= j < i ==> chars@[j] != c,
        decreases chars.len() - i,
    {
        if chars[i] == c {
            proof {
                text@.index_of_first_ensures(c);
                assert(text@.contains(c));
            }
            return Some(i);
        }
        i += 1;
    }
    proof {
        text@.index_of_first_ensures(c);
    }
    None
}

/// Splits `text` at its first `c`.
pub fn split_once<'a>(text: &'a str, c: char) -> (r: Option<(&'a str, &'a str)>)
    ensures
        match r {
            Some((head, tail)) => split_once_at(text@, c) == Some((head@, tail@)),
            None => split_once_at(text@, c) is None,
        },
{
    match find_char(text, c) {
        Some(i) => {
            let n = text.unicode_len();
            let head = text.substring_char(0, i);
            let tail = text.substring_char(i + 1, n);
            assert(head@ == text@.take(i as int));
            assert(tail@ == text@.skip(i + 1));
            Some((head, tail))
        },
        None => None,
    }
}

/// What follows `prefix` in `text`, if `text` begins with it.
pub open spec fn strip_prefix_of(text: Seq<char>, prefix: Seq<char>) -> Option<Seq<char>> {
    if prefix.is_prefix_of(text) {
        Some(text.skip(prefix.len() as int))
    } else {
        None
    }
}

/// Whether `text` begins with `prefix`.
pub fn starts_with(text: &str, prefix: &str) -> (r: bool)
    ensures
        r == prefix@.is_prefix_of(text@),
{
    let t = chars_of(text);
    let p = chars_of(prefix);
    if p.len() > t.len() {
        return false;
    }
    let mut i: usize = 0;
    while i < p.len()
        invariant
            0 <= i <= p.len() <= t.len(),
            p@ == prefix@,
            t@ == text@,
            forall|j: int| 0 <= j < i ==> p@[j] == t@[j],
        decreases p.len() - i,
    {
        if p[i] != t[i] {
            assert(text@.subrange(0, prefix@.len() as int)[i as int] == t@[i as int]);
            return false;
        }
        i += 1;
    }
    assert(prefix@ == text@.subrange(0, prefix@.len() as int));
    true
}

/// `text` without its leading `prefix`, if it begins with it.
pub fn strip_prefix<'a>(text: &'a str, prefix: &str) -> (r: Option<&'a str>)
    ensures
        match r {
            Some(rest) => strip_prefix_of(text@, prefix@) == Some(rest@),
            None => strip_prefix_of(text@, prefix@) is None,
        },
{
    if starts_with(text, prefix) {
        let n = prefix.unicode_len();
        let m = text.unicode_len();
        let rest = text.substring_char(n, m);
        assert(rest@ == text@.skip(n as int));
        Some(rest)
    } else {
        None
    }
}

/// Splits `text` at each `c`.
pub fn split_all(text: &str, c: char) -> (r: Vec<String>)
    ensures
        texts(r@) == split_at_each(text@, c),
        r.len() >= 1,
    decreases text@.len(),
{
    match split_once(text, c) {
        Some((head, tail)) => {
            proof {
                text@.index_of_first_ensures(c);
            }
            let mut out: Vec<String> = Vec::new();
            out.push(head.to_owned());
            let mut rest = split_all(tail, c);
            let ghost r0 = rest@;
            out.append(&mut rest);
            proof {
                assert(texts(out@) =~= seq![head@] + texts(r0));
            }
            out
        },
        None => {
            proof {
                text@.index_of_first_ensures(c);
            }
            let mut out: Vec<String> = Vec::new();
            out.push(text.to_owned());
            assert(texts(out@) =~= seq![text@]);
            out
        },
    }
}

/// What stands before the first `c` is the first part, and what follows it is split on.
pub proof fn lemma_split_head(head: Seq<char>, c: char, tail: Seq<char>)
    requires
        !head.contains(c),
    ensures
        split_once_at(head.push(c) + tail, c) == Some((head, tail)),
        split_at_each(head.push(c) + tail, c) == seq![head] + split_at_each(tail, c),
{
    let text = head.push(c) + tail;
    let n = head.len() as int;
    assert(text[n] == c);
    text.index_of_first_ensures(c);
    let i = text.index_of_first(c)->0;
    if i < n {
        assert(text[i] == head[i]);
        assert(head.contains(c));
    }
    if i > n {
        assert(text.take(i)[n] == c);
    }
    assert(i == n);
    assert(text.take(n) =~= head);
    assert(text.skip(n + 1) =~= tail);
}

/// A text without `c` is its only part.
pub proof fn lemma_split_last(text: Seq<char>, c: char)
    requires
        !text.contains(c),
    ensures
        split_once_at(text, c) is None,
        split_at_each(text, c) == seq![text],
{
    text.index_of_first_ensures(c);
}

// ---------------------------------------------------------------------
// Replacing characters
// ---------------------------------------------------------------------

/// Every character replaced by a text of its own.
pub open spec fn spread(text: Seq<char>, f: spec_fn(char) -> Seq<char>) -> Seq<char>
    decreases text.len(),
{
    if text.len() == 0 {
        Seq::empty()
    } else {
        spread(text.drop_last(), f) + f(text.last())
    }
}

/// The replacement of the first character comes first.
pub proof fn lemma_spread_front(text: Seq<char>, f: spec_fn(char) -> Seq<char>)
    requires
        text.len() > 0,
    ensures
        spread(text, f) == f(text[0]) + spread(text.skip(1), f),
    decreases text.len(),
{
    if text.len() == 1 {
        assert(text.drop_last() =~= Seq::<char>::empty());
        assert(text.skip(1) =~= Seq::<char>::empty());
        assert(spread(text, f) =~= f(text[0]) + spread(text.skip(1), f));
    } else {
        lemma_spread_front(text.drop_last(), f);
        assert(text.drop_last().skip(1) =~= text.skip(1).drop_last());
        assert(text.skip(1).last() == text.last());
        assert(spread(text, f) =~= f(text[0]) + spread(text.skip(1), f));
    }
}

// ---------------------------------------------------------------------
// Bytes of text
// ---------------------------------------------------------------------

/// The bytes of two texts, one after the other, are the bytes of both.
pub proof fn lemma_encode_add(a: Seq<char>, b: Seq<char>)
    ensures
        encode_utf8(a + b) == encode_utf8(a) + encode_utf8(b),
    decreases a.len(),
{
    if a.len() == 0 {
        assert(a + b =~= b);
        assert(encode_utf8(a) + encode_utf8(b) =~= encode_utf8(b));
    } else {
        assert((a + b).drop_first() =~= a.drop_first() + b);
        lemma_encode_add(a.drop_first(), b);
        assert(encode_utf8(a + b) =~= encode_utf8(a) + encode_utf8(b));
    }
}

/// How many bytes a character takes.
pub open spec fn char_bytes(c: char) -> nat {
    if c as u32 <= 0x7f {
        1
    } else if c as u32 <= 0x7ff {
        2
    } else if c as u32 <= 0xffff {
        3
    } else {
        4
    }
}

/// One more character takes its bytes more.
pub proof fn lemma_encode_push(text: Seq<char>, c: char)
    ensures
        encode_utf8(text.push(c)).len() == encode_utf8(text).len() + char_bytes(c),
{
    lemma_encode_add(text, seq![c]);
    assert(text + seq![c] =~= text.push(c));
    assert(seq![c].drop_first() =~= Seq::<char>::empty());
    assert(encode_utf8(Seq::<char>::empty()) =~= Seq::<u8>::empty());
    assert(encode_utf8(seq![c]) =~= encode_scalar(c as u32));
}

/// How many bytes a character takes.
pub fn char_len(c: char) -> (r: usize)
    ensures
        r == char_bytes(c),
{
    let code: u32 = c as u32;
    if code <= 0x7f {
        1
    } else if code <= 0x7ff {
        2
    } else if code <= 0xffff {
        3
    } else {
        4
    }
}

// ---------------------------------------------------------------------
// ASCII case
// ---------------------------------------------------------------------

/// The lower-case form of an ASCII letter; any other character unchanged.
pub open spec fn ascii_lower_of(c: char) -> char {
    if 'A' <= c <= 'Z' {
        ((c as u8) + 32) as char
    } else {
        c
    }
}

/// The lower-case form of an ASCII letter; any other character unchanged.
pub fn ascii_lower(c: char) -> (r: char)
    ensures
        r == ascii_lower_of(c),
{
    if 'A' <= c && c <= 'Z' {
        ((c as u8) + 32) as char
    } else {
        c
    }
}

/// Whether two strings agree up to the case of ASCII letters.
pub fn eq_ignore_ascii_case(a: &str, b: &str) -> (r: bool)
    ensures
        r == (a@.map_values(|c: char| ascii_lower_of(c)) == b@.map_values(
            |c: char| ascii_lower_of(c),
        )),
{
    let x = chars_of(a);
    let y = chars_of(b);
    let ghost lx = a@.map_values(|c: char| ascii_lower_of(c));
    let ghost ly = b@.map_values(|c: char| ascii_lower_of(c));
    if x.len() != y.len() {
        assert(lx.len() != ly.len());
        return false;
    }
    let mut i: usize = 0;
    while i < x.len()
        invariant
            0 <= i <= x.len() == y.len(),
            x@ == a@,
            y@ == b@,
            lx == a@.map_values(|c: char| ascii_lower_of(c)),
            ly == b@.map_values(|c: char| ascii_lower_of(c)),
            forall|j: int| 0 <= j < i ==> lx[j] == ly[j],
        decreases x.len() - i,
    {
        if ascii_lower(x[i]) != ascii_lower(y[i]) {
            assert(lx[i as int] != ly[i as int]);
            return false;
        }
        i += 1;
    }
    assert(lx =~= ly);
    true
}

// ---------------------------------------------------------------------
// Decimal numbers
// ---------------------------------------------------------------------

/// The decimal digit of a value under ten.
pub open spec fn digit_char(d: nat) -> char {
    (48 + d) as char
}

/// Whether a character is an ASCII decimal digit.
pub open spec fn is_digit(c: char) -> bool {
    '0' <= c <= '9'
}

/// The shortest decimal writing of a number.
pub open spec fn decimal(n: nat) -> Seq<char>
    decreases n,
{
    if n < 10 {
        seq![digit_char(n)]
    } else {
        decimal(n / 10).push(digit_char(n % 10))
    }
}

/// The shortest decimal writing of an integer, with `-` in front of a negative one.
pub open spec fn decimal_signed(n: int) -> Seq<char> {
    if n < 0 {
        seq!['-'] + decimal((-n) as nat)
    } else {
        decimal(n as nat)
    }
}

/// The value of a string of decimal digits.
pub open spec fn digits_value(text: Seq<char>) -> nat
    decreases text.len(),
{
    if text.len() == 0 {
        0
    } else {
        digits_value(text.drop_last()) * 10 + (text.last() as nat - 48) as nat
    }
}

/// Whether `text` is one or more decimal digits.
pub open spec fn all_digits(text: Seq<char>) -> bool {
    text.len() > 0 && forall|i: int| 0 <= i < text.len() ==> is_digit(#[trigger] text[i])
}

/// The unsigned integer up to `max` that `text` writes: digits after an optional `+`.
pub open spec fn unsigned_value(text: Seq<char>, max: nat) -> Option<nat> {
    let digits = if text.len() > 0 && text[0] == '+' {
        text.skip(1)
    } else {
        text
    };
    if all_digits(digits) && digits_value(digits) <= max {
        Some(digits_value(digits))
    } else {
        None
    }
}

/// The signed 64-bit integer that `text` writes: digits after an optional `+` or `-`.
pub open spec fn signed_value(text: Seq<char>) -> Option<int> {
    let negative = text.len() > 0 && text[0] == '-';
    let digits = if text.len() > 0 && (text[0] == '+' || text[0] == '-') {
        text.skip(1)
    } else {
        text
    };
    if !all_digits(digits) {
        None
    } else if negative {
        if digits_value(digits) <= 0x8000_0000_0000_0000 {
            Some(-(digits_value(digits) as int))
        } else {
            None
        }
    } else if digits_value(digits) <= 0x7fff_ffff_ffff_ffff {
        Some(digits_value(digits) as int)
    } else {
        None
    }
}

/// Writes `n` in decimal.
pub fn u64_to_decimal(n: u64) -> (r: String)
    ensures
        r@ == decimal(n as nat),
    decreases n,
{
    let digit: u8 = (n % 10) as u8;
    let c: char = (48 + digit) as char;
    if n < 10 {
        let mut out = String::new();
        out.push(c);
        assert(out@ =~= decimal(n as nat));
        out
    } else {
        let mut out = u64_to_decimal(n / 10);
        out.push(c);
        out
    }
}

/// Writes `n` in decimal, with `-` in front of a negative number.
pub fn i64_to_decimal(n: i64) -> (r: String)
    ensures
        r@ == decimal_signed(n as int),
{
    if n < 0 {
        let magnitude: u64 = (-(n as i128)) as u64;
        let digits = u64_to_decimal(magnitude);
        let mut out = String::new();
        out.push('-');
        out.append(digits.as_str());
        assert(out@ =~= seq!['-'] + decimal(magnitude as nat));
        out
    } else {
        u64_to_decimal(n as u64)
    }
}

/// Reading a prefix of a digit string gives at most what the whole string gives.
proof fn lemma_digits_value_monotone(text: Seq<char>, i: int)
    requires
        0 <= i <= text.len(),
        forall|j: int| 0 <= j < text.len() ==> is_digit(#[trigger] text[j]),
    ensures
        digits_value(text.take(i)) <= digits_value(text),
    decreases text.len() - i,
{
    if i == text.len() {
        assert(text.take(i) =~= text);
    } else {
        lemma_digits_value_monotone(text, i + 1);
        assert(text.take(i + 1).drop_last() =~= text.take(i));
        assert(text.take(i + 1).last() == text[i]);
    }
}

/// The value of the digits from `start` on, if they are digits only and the value is at most `max`.
fn digits_from(chars: &Vec<char>, start: usize, max: u64) -> (r: Option<u64>)
    requires
        start <= chars.len(),
    ensures
        match r {
            Some(v) => all_digits(chars@.skip(start as int)) && digits_value(
                chars@.skip(start as int),
            ) == v && v <= max,
            None => !all_digits(chars@.skip(start as int)) || digits_value(
                chars@.skip(start as int),
            ) > max,
        },
{
    let ghost digits = chars@.skip(start as int);
    if start == chars.len() {
        return None;
    }
    // Every character has to be a digit before the value means anything.
    let mut i: usize = start;
    while i < chars.len()
        invariant
            start <= i <= chars.len(),
            digits == chars@.skip(start as int),
            forall|j: int| start <= j < i ==> is_digit(#[trigger] chars@[j]),
        decreases chars.len() - i,
    {
        if !('0' <= chars[i] && chars[i] <= '9') {
            assert(!is_digit(digits[i - start]));
            return None;
        }
        i += 1;
    }
    assert(forall|j: int| 0 <= j < digits.len() ==> is_digit(#[trigger] digits[j]));
    let mut value: u64 = 0;
    let mut k: usize = start;
    assert(digits.take(0) =~= Seq::<char>::empty());
    while k < chars.len()
        invariant
            start <= k <= chars.len(),
            digits == chars@.skip(start as int),
            forall|j: int| 0 <= j < digits.len() ==> is_digit(#[trigger] digits[j]),
            value == digits_value(digits.take(k - start)),
            value <= max,
        decreases chars.len() - k,
    {
        assert(is_digit(digits[k - start]));
        let d: u64 = (chars[k] as u32 - 48) as u64;
        proof {
            assert(digits.take(k - start + 1).drop_last() =~= digits.take(k - start));
            assert(digits.take(k - start + 1).last() == chars@[k as int]);
            lemma_digits_value_monotone(digits, k - start + 1);
        }
        if value as u128 * 10 + d as u128 > max as u128 {
            return None;
        }
        value = value * 10 + d;
        k += 1;
    }
    assert(digits.take(digits.len() as int) =~= digits);
    Some(value)
}

/// Reads an unsigned integer up to `max` as `str::parse` does: digits after an optional `+`.
pub fn parse_unsigned(text: &str, max: u64) -> (r: Option<u64>)
    ensures
        match r {
            Some(v) => unsigned_value(text@, max as nat) == Some(v as nat),
            None => unsigned_value(text@, max as nat) is None,
        },
{
    let chars = chars_of(text);
    if chars.len() > 0 && chars[0] == '+' {
        digits_from(&chars, 1, max)
    } else {
        assert(chars@.skip(0) =~= chars@);
        digits_from(&chars, 0, max)
    }
}

/// Reads a 64-bit unsigned integer as `str::parse` does.
pub fn parse_u64(text: &str) -> (r: Option<u64>)
    ensures
        match r {
            Some(v) => unsigned_value(text@, u64::MAX as nat) == Some(v as nat),
            None => unsigned_value(text@, u64::MAX as nat) is None,
        },
{
    parse_unsigned(text, u64::MAX)
}

/// Reads a 64-bit signed integer as `str::parse` does: digits after an optional `+` or `-`.
pub fn parse_i64(text: &str) -> (r: Option<i64>)
    ensures
        match r {
            Some(v) => signed_value(text@) == Some(v as int),
            None => signed_value(text@) is None,
        },
{
    let chars = chars_of(text);
    if chars.len() > 0 && chars[0] == '-' {
        match digits_from(&chars, 1, 0x8000_0000_0000_0000) {
            Some(v) => Some((-(v as i128)) as i64),
            None => None,
        }
    } else if chars.len() > 0 && chars[0] == '+' {
        match digits_from(&chars, 1, 0x7fff_ffff_ffff_ffff) {
            Some(v) => Some(v as i64),
            None => None,
        }
    } else {
        assert(chars@.skip(0) =~= chars@);
        match digits_from(&chars, 0, 0x7fff_ffff_ffff_ffff) {
            Some(v) => Some(v as i64),
            None => None,
        }
    }
}

/// The decimal writing of a number holds digits only and reads back as the number.
pub proof fn lemma_decimal_reads_back(n: nat)
    ensures
        all_digits(decimal(n)),
        digits_value(decimal(n)) == n,
    decreases n,
{
    if n < 10 {
        let d = decimal(n);
        assert(d.drop_last() =~= Seq::<char>::empty());
        assert(digits_value(d.drop_last()) == 0);
        assert(d.last() == digit_char(n));
    } else {
        lemma_decimal_reads_back(n / 10);
        let d = decimal(n);
        assert(d.drop_last() =~= decimal(n / 10));
        assert(d.last() == digit_char(n % 10));
        assert forall|i: int| 0 <= i < d.len() implies is_digit(#[trigger] d[i]) by {
            if i < d.len() - 1 {
                assert(d[i] == decimal(n / 10)[i]);
            }
        }
    }
}

/// A number under a thousand has at most three digits, and a 64-bit number at most twenty.
pub proof fn lemma_decimal_len(n: nat)
    ensures
        n < 1_000 ==> decimal(n).len() <= 3,
        n <= u64::MAX ==> decimal(n).len() <= 20,
{
    reveal_with_fuel(decimal, 20);
}

/// Writing a 64-bit number in decimal and reading it gives the number back.
pub proof fn law_unsigned_reads_back(n: u64)
    ensures
        unsigned_value(decimal(n as nat), u64::MAX as nat) == Some(n as nat),
{
    lemma_decimal_reads_back(n as nat);
    assert(is_digit(decimal(n as nat)[0]));
}

/// Writing a signed 64-bit number in decimal and reading it gives the number back.
pub proof fn law_signed_reads_back(n: i64)
    ensures
        signed_value(decimal_signed(n as int)) == Some(n as int),
{
    if n < 0 {
        let m = (-(n as int)) as nat;
        lemma_decimal_reads_back(m);
        assert(decimal_signed(n as int).skip(1) =~= decimal(m));
    } else {
        lemma_decimal_reads_back(n as nat);
        assert(is_digit(decimal(n as nat)[0]));
    }
}

// ---------------------------------------------------------------------
// Hexadecimal digits
// ---------------------------------------------------------------------

/// The lower-case hexadecimal digit of a value under sixteen.
pub open spec fn hex_char(v: nat) -> char {
    if v < 10 {
        (48 + v) as char
    } else {
        (87 + v) as char
    }
}

/// The upper-case hexadecimal digit of a value under sixteen.
pub open spec fn hex_char_upper(v: nat) -> char {
    if v < 10 {
        (48 + v) as char
    } else {
        (55 + v) as char
    }
}

/// The value of a hexadecimal digit in either case, given as an ASCII byte.
pub open spec fn hex_value(b: u8) -> Option<u8> {
    if 48 <= b <= 57 {
        Some((b - 48) as u8)
    } else if 97 <= b <= 102 {
        Some((b - 87) as u8)
    } else if 65 <= b <= 70 {
        Some((b - 55) as u8)
    } else {
        None
    }
}

/// The lower-case hexadecimal digit of a value under sixteen.
pub fn hex_digit(v: u8) -> (r: char)
    requires
        v < 16,
    ensures
        r == hex_char(v as nat),
{
    if v < 10 {
        (48 + v) as char
    } else {
        (87 + v) as char
    }
}

/// The upper-case hexadecimal digit of a value under sixteen.
pub fn hex_digit_upper(v: u8) -> (r: char)
    requires
        v < 16,
    ensures
        r == hex_char_upper(v as nat),
{
    if v < 10 {
        (48 + v) as char
    } else {
        (55 + v) as char
    }
}

/// The value of a hexadecimal digit in either case.
pub fn decode_hex(b: u8) -> (r: Option<u8>)
    ensures
        r == hex_value(b),
        r matches Some(v) ==> v < 16,
{
    if 48 <= b && b <= 57 {
        Some(b - 48)
    } else if 97 <= b && b <= 102 {
        Some(b - 87)
    } else if 65 <= b && b <= 70 {
        Some(b - 55)
    } else {
        None
    }
}

} // verus!
