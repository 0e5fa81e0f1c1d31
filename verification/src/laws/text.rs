//! What cutting, comparing and writing texts comes to.

use vstd::prelude::*;

use crate::order::text_before;
use crate::text::{
    all_digits, ascii_lower_of, decimal, decimal_signed, digits_value, hex_char, hex_char_upper,
    hex_value, is_digit, lemma_decimal_reads_back, signed_value, split_at_each, split_once_at,
    strip_prefix_of, unsigned_value,
};

verus! {

// ---------------------------------------------------------------------
// Cutting
// ---------------------------------------------------------------------

/// Parts with a character between each two of them.
pub open spec fn joined(parts: Seq<Seq<char>>, c: char) -> Seq<char>
    decreases parts.len(),
{
    if parts.len() == 0 {
        Seq::empty()
    } else if parts.len() == 1 {
        parts[0]
    } else {
        parts[0].push(c) + joined(parts.skip(1), c)
    }
}

/// A text that is cut at a character is its parts with the character between them, and no part
/// holds the character.
pub proof fn law_parts_make_the_text(text: Seq<char>, c: char)
    ensures
        split_at_each(text, c).len() >= 1,
        joined(split_at_each(text, c), c) == text,
        forall|i: int|
            0 <= i < split_at_each(text, c).len() ==> !(#[trigger] split_at_each(
                text,
                c,
            )[i]).contains(c),
    decreases text.len(),
{
    text.index_of_first_ensures(c);
    let parts = split_at_each(text, c);
    match text.index_of_first(c) {
        Some(i) => {
            let tail = text.skip(i + 1);
            let rest = split_at_each(tail, c);
            law_parts_make_the_text(tail, c);
            assert(parts == seq![text.take(i)] + rest);
            assert(parts.skip(1) =~= rest);
            assert(parts[0] == text.take(i));
            assert(text =~= text.take(i).push(c) + tail);
            assert forall|k: int| 0 <= k < parts.len() implies !(#[trigger] parts[k]).contains(
                c,
            ) by {
                if k > 0 {
                    assert(parts[k] == rest[k - 1]);
                }
            }
        },
        None => {
            assert(parts == seq![text]);
        },
    }
}

/// A text is cut in two at the first place where the character stands, and is not cut exactly
/// where it does not hold it.
pub proof fn law_first_mark_cuts(text: Seq<char>, c: char)
    ensures
        split_once_at(text, c) is None <==> !text.contains(c),
        split_once_at(text, c) matches Some((head, tail)) ==> text == head.push(c) + tail
            && !head.contains(c),
{
    text.index_of_first_ensures(c);
    if let Some(i) = text.index_of_first(c) {
        assert(text =~= text.take(i).push(c) + text.skip(i + 1));
    }
}

/// What is left behind a prefix is what the prefix lacks of the text.
pub proof fn law_prefixes_come_off(text: Seq<char>, prefix: Seq<char>, rest: Seq<char>)
    ensures
        strip_prefix_of(text, prefix) == Some(rest) <==> text == prefix + rest,
{
    if text == prefix + rest {
        assert(prefix.is_prefix_of(text));
        assert(text.skip(prefix.len() as int) =~= rest);
    }
    if prefix.is_prefix_of(text) {
        assert(text =~= prefix + text.skip(prefix.len() as int));
    }
}

// ---------------------------------------------------------------------
// Comparing
// ---------------------------------------------------------------------

/// Of two texts that begin alike, the one with the smaller next character comes first, and one
/// that ends there comes before one that goes on.
pub proof fn law_first_difference_decides(common: Seq<char>, a: Seq<char>, b: Seq<char>)
    requires
        a.len() > 0 && b.len() > 0 ==> a[0] != b[0],
    ensures
        text_before(common + a, common + b) <==> b.len() > 0 && (a.len() == 0 || a[0] < b[0]),
    decreases common.len(),
{
    if common.len() > 0 {
        law_first_difference_decides(common.skip(1), a, b);
        assert((common + a).skip(1) =~= common.skip(1) + a);
        assert((common + b).skip(1) =~= common.skip(1) + b);
    } else {
        assert(common + a =~= a);
        assert(common + b =~= b);
    }
}

/// Only the letters from `A` to `Z` change with their case, each to the one with its place among
/// those from `a` to `z`.
pub proof fn law_letters_lose_their_case(c: char)
    ensures
        'A' <= c && c <= 'Z' ==> 'a' <= ascii_lower_of(c) && ascii_lower_of(c) <= 'z' && (
        ascii_lower_of(c) as int) - ('a' as int) == (c as int) - ('A' as int),
        !('A' <= c && c <= 'Z') ==> ascii_lower_of(c) == c,
{
}

// ---------------------------------------------------------------------
// Numbers
// ---------------------------------------------------------------------

/// A number is written without a zero in front, and its last digit is what is left of tens.
pub proof fn law_numbers_begin_with_a_digit(n: nat)
    ensures
        n > 0 ==> decimal(n)[0] != '0',
        decimal(n).last() as int - '0' as int == n % 10,
        n < 10 <==> decimal(n).len() == 1,
        n >= 10 ==> decimal(n).drop_last() == decimal(n / 10),
    decreases n,
{
    if n >= 10 {
        law_numbers_begin_with_a_digit(n / 10);
        lemma_decimal_reads_back(n / 10);
        assert(decimal(n).drop_last() =~= decimal(n / 10));
    }
}

/// Numbers are read in their own range: a sign is no digit, and more than fits is no number.
pub proof fn law_numbers_are_in_range(text: Seq<char>, max: nat)
    ensures
        unsigned_value(text, max) matches Some(n) ==> n <= max && (text[0] == '+' || is_digit(
            text[0],
        )),
        signed_value(text) matches Some(n) ==> i64::MIN <= n <= i64::MAX && (n < 0 ==> text[0]
            == '-'),
        all_digits(text) && digits_value(text) <= max ==> unsigned_value(text, max) == Some(
            digits_value(text),
        ),
        all_digits(text) && digits_value(text) > max ==> unsigned_value(text, max) is None,
{
    if all_digits(text) {
        assert(is_digit(text[0]));
    }
}

/// A sign in front counts: behind a minus stands the same number with the other sign.
pub proof fn law_signs_count(digits: Seq<char>)
    requires
        all_digits(digits),
        digits_value(digits) <= i64::MAX,
    ensures
        signed_value(digits) == Some(digits_value(digits) as int),
        signed_value(seq!['+'] + digits) == Some(digits_value(digits) as int),
        signed_value(seq!['-'] + digits) == Some(-(digits_value(digits) as int)),
{
    assert(is_digit(digits[0]));
    assert((seq!['+'] + digits).skip(1) =~= digits);
    assert((seq!['-'] + digits).skip(1) =~= digits);
}

/// A number below zero is written as what it lacks to zero, with a minus in front.
pub proof fn law_minus_stands_in_front(n: int)
    ensures
        n < 0 ==> decimal_signed(n)[0] == '-' && decimal_signed(n).skip(1) == decimal_signed(-n),
        n >= 0 ==> all_digits(decimal_signed(n)) && digits_value(decimal_signed(n)) == n,
{
    if n >= 0 {
        lemma_decimal_reads_back(n as nat);
    } else {
        assert(decimal_signed(n).skip(1) =~= decimal((-n) as nat));
    }
}

/// The digits of hexadecimal numbers, and what they are worth in either case.
pub proof fn law_digits_are_worth_their_place(v: u8)
    requires
        v < 16,
    ensures
        hex_value(hex_char(v as nat) as u8) == Some(v),
        hex_value(hex_char_upper(v as nat) as u8) == Some(v),
        v < 10 ==> hex_char(v as nat) as int == '0' as int + v && hex_char_upper(v as nat)
            == hex_char(v as nat),
        v >= 10 ==> hex_char(v as nat) as int == 'a' as int + v - 10 && hex_char_upper(v as nat)
            as int == 'A' as int + v - 10,
{
}

/// Nothing else is a hexadecimal digit.
pub proof fn law_nothing_else_is_a_digit(b: u8)
    ensures
        hex_value(b) is Some <==> ({
            let c = b as char;
            ('0' <= c && c <= '9') || ('a' <= c && c <= 'f') || ('A' <= c && c <= 'F')
        }),
{
}

} // verus!
