//! JSON texts, taken apart without losing anything.
//!
//! `serde_json` recognises the values; the members of an object are listed here in document
//! order, so that a member that occurs twice is seen twice.

use vstd::prelude::*;

use crate::text::{chars_of, texts};

verus! {

/// The shortest beginning of a text that `serde_json` reads as one JSON value (with the
/// whitespace in front of it), if the text begins with one.
pub uninterp spec fn json_value_head(text: Seq<char>) -> Option<Seq<char>>;

/// The string that `serde_json` reads from a text that is one JSON string.
pub uninterp spec fn json_string(text: Seq<char>) -> Option<Seq<char>>;

/// What `serde_json` reads from a text that is `null` or one JSON array of strings.
pub uninterp spec fn json_string_list(text: Seq<char>) -> Option<Option<Seq<Seq<char>>>>;

/// Whether `serde_json` reads a text as one value of its type `Value`.
pub uninterp spec fn json_readable(text: Seq<char>) -> bool;

/// `serde_json::from_str` at the type `serde_json::Value`: whether the text reads as one value,
/// with nothing but whitespace around it. Which texts do is the crate's grammar and is not
/// restated.
#[verifier::external_body]
pub(crate) fn is_readable(text: &str) -> (r: bool)
    ensures
        r == json_readable(text@),
{
    serde_json::from_str::<serde_json::Value>(text).is_ok()
}

/// `serde_json::StreamDeserializer::next` on `IgnoredAny`, and `byte_offset` after it: the text
/// up to the end of its first value. The head is not empty, and the text begins with it.
/// Which texts are values is the crate's grammar and is not restated.
#[verifier::external_body]
fn value_head<'a>(text: &'a str) -> (r: Option<&'a str>)
    ensures
        match r {
            Some(head) => json_value_head(text@) == Some(head@) && head@.is_prefix_of(text@)
                && head@.len() > 0,
            None => json_value_head(text@) is None,
        },
{
    let mut values = serde_json::Deserializer::from_str(text).into_iter::<serde::de::IgnoredAny>();
    match values.next() {
        Some(Ok(_)) => Some(&text[..values.byte_offset()]),
        _ => None,
    }
}

/// `serde_json::from_str` at the type `String`.
#[verifier::external_body]
fn parse_string(text: &str) -> (r: Option<String>)
    ensures
        match r {
            Some(value) => json_string(text@) == Some(value@),
            None => json_string(text@) is None,
        },
{
    serde_json::from_str::<String>(text).ok()
}

/// The views of an optional list of strings.
pub open spec fn opt_texts(list: Option<Vec<String>>) -> Option<Seq<Seq<char>>> {
    match list {
        Some(l) => Some(texts(l@)),
        None => None,
    }
}

/// `serde_json::from_str` at the type `Option<Vec<String>>`.
#[verifier::external_body]
pub(crate) fn parse_string_list(text: &str) -> (r: Option<Option<Vec<String>>>)
    ensures
        match r {
            Some(value) => json_string_list(text@) == Some(opt_texts(value)),
            None => json_string_list(text@) is None,
        },
{
    serde_json::from_str::<Option<Vec<String>>>(text).ok()
}

/// Whether a character is JSON whitespace.
pub open spec fn is_json_space(c: char) -> bool {
    c == ' ' || c == '\n' || c == '\t' || c == '\r'
}

/// `text` without its leading whitespace.
pub open spec fn skip_space_of(text: Seq<char>) -> Seq<char>
    decreases text.len(),
{
    if text.len() > 0 && is_json_space(text[0]) {
        skip_space_of(text.skip(1))
    } else {
        text
    }
}

/// What follows a head of the text.
pub open spec fn after_head(text: Seq<char>, head: Seq<char>) -> Seq<char> {
    if head.len() <= text.len() {
        text.skip(head.len() as int)
    } else {
        Seq::empty()
    }
}

/// What follows `c` in `text`, if `c` is its first character after whitespace.
pub open spec fn after_mark(text: Seq<char>, c: char) -> Option<Seq<char>> {
    let rest = skip_space_of(text);
    if rest.len() > 0 && rest[0] == c {
        Some(rest.skip(1))
    } else {
        None
    }
}

/// The members between here and the closing brace that ends the text; at least one.
pub open spec fn members_from(text: Seq<char>) -> Option<Seq<(Seq<char>, Seq<char>)>>
    decreases text.len(),
    via members_decrease
{
    match member_head(text) {
        Some((key, value, rest)) => match after_mark(rest, ',') {
            Some(more) => match members_from(more) {
                Some(others) => Some(seq![(key, value)] + others),
                None => None,
            },
            None => match after_mark(rest, '}') {
                Some(end) if skip_space_of(end).len() == 0 => Some(seq![(key, value)]),
                _ => None,
            },
        },
        None => None,
    }
}

/// The name, the value and what follows of the member that the text begins with.
pub open spec fn member_head(text: Seq<char>) -> Option<(Seq<char>, Seq<char>, Seq<char>)> {
    match json_value_head(text) {
        Some(name) => match json_string(name) {
            Some(key) => match after_mark(after_head(text, name), ':') {
                Some(rest) => match json_value_head(rest) {
                    Some(value) => Some((key, value, after_head(rest, value))),
                    None => None,
                },
                None => None,
            },
            None => None,
        },
        None => None,
    }
}

#[via_fn]
proof fn members_decrease(text: Seq<char>) {
    if let Some(name) = json_value_head(text) {
        let after_name = after_head(text, name);
        lemma_skip_space_shrinks(after_name);
        if let Some((key, value, rest)) = member_head(text) {
            lemma_skip_space_shrinks(rest);
        }
    }
}

/// The members of a text that is one JSON object: each name, and its value as it is written.
pub open spec fn object_members_of(text: Seq<char>) -> Option<Seq<(Seq<char>, Seq<char>)>> {
    match after_mark(text, '{') {
        Some(inner) => match after_mark(inner, '}') {
            Some(end) => if skip_space_of(end).len() == 0 {
                Some(Seq::empty())
            } else {
                None
            },
            None => members_from(inner),
        },
        None => None,
    }
}

/// Skipping whitespace makes no text longer.
pub proof fn lemma_skip_space_shrinks(text: Seq<char>)
    ensures
        skip_space_of(text).len() <= text.len(),
    decreases text.len(),
{
    if text.len() > 0 && is_json_space(text[0]) {
        lemma_skip_space_shrinks(text.skip(1));
    }
}

/// Skips the leading whitespace.
fn skip_space<'a>(text: &'a str) -> (r: &'a str)
    ensures
        r@ == skip_space_of(text@),
{
    let chars = chars_of(text);
    let mut i: usize = 0;
    assert(text@.skip(0) =~= text@);
    while i < chars.len() && (chars[i] == ' ' || chars[i] == '\n' || chars[i] == '\t' || chars[i]
        == '\r')
        invariant
            0 <= i <= chars.len(),
            chars@ == text@,
            skip_space_of(text@) == skip_space_of(text@.skip(i as int)),
        decreases chars.len() - i,
    {
        assert(text@.skip(i as int).skip(1) =~= text@.skip(i + 1));
        i += 1;
    }
    let n = text.unicode_len();
    let rest = text.substring_char(i, n);
    assert(rest@ == text@.skip(i as int));
    rest
}

/// What follows the first character after whitespace, if that is `c`.
fn take_mark<'a>(text: &'a str, c: char) -> (r: Option<&'a str>)
    ensures
        match r {
            Some(rest) => after_mark(text@, c) == Some(rest@),
            None => after_mark(text@, c) is None,
        },
        r matches Some(rest) ==> rest@.len() < text@.len(),
{
    let rest = skip_space(text);
    proof {
        lemma_skip_space_shrinks(text@);
    }
    let n = rest.unicode_len();
    if n > 0 && rest.get_char(0) == c {
        let tail = rest.substring_char(1, n);
        assert(tail@ == rest@.skip(1));
        Some(tail)
    } else {
        None
    }
}

/// What follows a head of the text.
fn skip_head<'a>(text: &'a str, head: &str) -> (r: &'a str)
    requires
        head@.is_prefix_of(text@),
    ensures
        r@ == after_head(text@, head@),
        r@.len() <= text@.len(),
{
    let n = text.unicode_len();
    let k = head.unicode_len();
    let rest = text.substring_char(k, n);
    assert(rest@ == text@.skip(k as int));
    rest
}

/// Whether only whitespace is left.
fn only_space(text: &str) -> (r: bool)
    ensures
        r == (skip_space_of(text@).len() == 0),
{
    skip_space(text).unicode_len() == 0
}

/// The views of a list of members.
pub open spec fn member_views(members: Seq<(String, String)>) -> Seq<(Seq<char>, Seq<char>)> {
    members.map_values(|m: (String, String)| (m.0@, m.1@))
}

/// The views of an optional list of members.
pub open spec fn opt_member_views(members: Option<Vec<(String, String)>>) -> Option<
    Seq<(Seq<char>, Seq<char>)>,
> {
    match members {
        Some(m) => Some(member_views(m@)),
        None => None,
    }
}

/// Lists the members of a text that is one JSON object, with their values as written.
pub fn object_members(text: &str) -> (r: Option<Vec<(String, String)>>)
    ensures
        opt_member_views(r) == object_members_of(text@),
{
    let inner = match take_mark(text, '{') {
        Some(inner) => inner,
        None => return None,
    };
    if let Some(end) = take_mark(inner, '}') {
        if only_space(end) {
            let none: Vec<(String, String)> = Vec::new();
            assert(member_views(none@) =~= Seq::<(Seq<char>, Seq<char>)>::empty());
            return Some(none);
        }
        return None;
    }
    let mut found: Vec<(String, String)> = Vec::new();
    let mut rest = inner;
    assert(member_views(found@) =~= Seq::<(Seq<char>, Seq<char>)>::empty());
    assert(members_from(inner@) matches Some(m) ==> Seq::<(Seq<char>, Seq<char>)>::empty() + m
        =~= m);
    loop
        invariant
            object_members_of(text@) == (match members_from(rest@) {
                Some(others) => Some(member_views(found@) + others),
                None => None,
            }),
        decreases rest@.len(),
    {
        let name = match value_head(rest) {
            Some(name) => name,
            None => return None,
        };
        let key = match parse_string(name) {
            Some(key) => key,
            None => return None,
        };
        let after_name = skip_head(rest, name);
        let value_text = match take_mark(after_name, ':') {
            Some(value_text) => value_text,
            None => return None,
        };
        let value = match value_head(value_text) {
            Some(value) => value,
            None => return None,
        };
        let tail = skip_head(value_text, value);
        let ghost before = member_views(found@);
        let ghost entry = (key@, value@);
        found.push((key, value.to_owned()));
        assert(member_views(found@) =~= before.push(entry));
        assert(before + seq![entry] =~= before.push(entry));
        match take_mark(tail, ',') {
            Some(more) => {
                assert(members_from(more@) matches Some(others) ==> before + (seq![entry] + others)
                    =~= member_views(found@) + others);
                rest = more;
            },
            None => {
                if let Some(end) = take_mark(tail, '}') {
                    if only_space(end) {
                        return Some(found);
                    }
                }
                return None;
            },
        }
    }
}

} // verus!
