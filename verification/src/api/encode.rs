//! Writing text into addresses, pages and scripts.

use vstd::prelude::*;
use vstd::utf8::*;

use crate::text::{
    chars_of, decode_hex, hex_char, hex_char_upper, hex_digit, hex_digit_upper, hex_value,
    lemma_spread_front, spread, text_from_utf8, utf8_error_text,
};

verus! {

// ---------------------------------------------------------------------
// Addresses
// ---------------------------------------------------------------------

/// Whether a byte stands for itself in an address: a letter, a digit, `-`, `.`, `_` or `~`.
pub open spec fn is_unreserved(b: u8) -> bool {
    (65 <= b <= 90) || (97 <= b <= 122) || (48 <= b <= 57) || b == 45 || b == 46 || b == 95 || b
        == 126
}

/// A byte as it is written in an address.
pub open spec fn percent_byte(b: u8) -> Seq<char> {
    if is_unreserved(b) {
        seq![b as char]
    } else {
        seq!['%', hex_char_upper((b / 16) as nat), hex_char_upper((b % 16) as nat)]
    }
}

/// Bytes as they are written in an address.
pub open spec fn percent_text(bytes: Seq<u8>) -> Seq<char>
    decreases bytes.len(),
{
    if bytes.len() == 0 {
        Seq::empty()
    } else {
        percent_text(bytes.drop_last()) + percent_byte(bytes.last())
    }
}

/// Whether a byte stands for itself in an address.
pub fn is_url_unreserved(b: u8) -> (r: bool)
    ensures
        r == is_unreserved(b),
{
    (65 <= b && b <= 90) || (97 <= b && b <= 122) || (48 <= b && b <= 57) || b == 45 || b == 46
        || b == 95 || b == 126
}

/// Writes a text as one segment of a path.
pub fn percent_encode_path_segment(input: &str) -> (r: String)
    ensures
        r@ == percent_text(encode_utf8(input@)),
{
    let bytes = input.as_bytes();
    let ghost all = bytes@;
    let mut out = String::new();
    let mut i: usize = 0;
    assert(all.take(0) =~= Seq::<u8>::empty());
    while i < bytes.len()
        invariant
            0 <= i <= bytes.len(),
            all == bytes@,
            out@ == percent_text(all.take(i as int)),
        decreases bytes.len() - i,
    {
        let b: u8 = bytes[i];
        let ghost before = out@;
        if is_url_unreserved(b) {
            out.push(b as char);
            assert(out@ =~= before + percent_byte(b));
        } else {
            out.push('%');
            out.push(hex_digit_upper(b / 16));
            out.push(hex_digit_upper(b % 16));
            assert(out@ =~= before + percent_byte(b));
        }
        proof {
            assert(all.take(i + 1).drop_last() =~= all.take(i as int));
        }
        i += 1;
    }
    assert(all.take(i as int) =~= all);
    out
}

/// Writes a text as the value of a query parameter.
pub fn percent_encode_query_value(input: &str) -> (r: String)
    ensures
        r@ == percent_text(encode_utf8(input@)),
{
    percent_encode_path_segment(input)
}

/// An ASCII byte as it is shown in a message: itself where it is printable, escaped otherwise.
pub open spec fn shown_byte(b: u8) -> Seq<char> {
    if b == 9 {
        seq!['\\', 't']
    } else if b == 10 {
        seq!['\\', 'n']
    } else if b == 13 {
        seq!['\\', 'r']
    } else if b == 34 || b == 39 || b == 92 {
        seq!['\\', b as char]
    } else if 32 <= b < 127 {
        seq![b as char]
    } else {
        seq!['\\', 'x', hex_char((b / 16) as nat), hex_char((b % 16) as nat)]
    }
}

/// Shows a byte in a message.
fn show_byte(b: u8) -> (r: String)
    ensures
        r@ == shown_byte(b),
{
    let mut out = String::new();
    if b == 9 {
        out.push('\\');
        out.push('t');
    } else if b == 10 {
        out.push('\\');
        out.push('n');
    } else if b == 13 {
        out.push('\\');
        out.push('r');
    } else if b == 34 || b == 39 || b == 92 {
        out.push('\\');
        out.push(b as char);
    } else if 32 <= b && b < 127 {
        out.push(b as char);
    } else {
        out.push('\\');
        out.push('x');
        out.push(hex_digit(b / 16));
        out.push(hex_digit(b % 16));
    }
    assert(out@ =~= shown_byte(b));
    out
}

/// What is said of a byte that is no hexadecimal digit.
pub open spec fn bad_hex_text(b: u8) -> Seq<char> {
    "invalid hex digit `"@ + shown_byte(b) + "` in %-escape"@
}

/// The bytes that a segment of a path writes: `%HH` is the byte with that value, and every other
/// byte is itself. A `+` is a plus sign.
pub open spec fn percent_bytes(raw: Seq<u8>) -> Result<Seq<u8>, Seq<char>>
    decreases raw.len(),
{
    if raw.len() == 0 {
        Ok(Seq::empty())
    } else if raw[0] != 37 {
        match percent_bytes(raw.skip(1)) {
            Ok(rest) => Ok(seq![raw[0]] + rest),
            Err(e) => Err(e),
        }
    } else if raw.len() < 3 {
        Err("truncated %-escape"@)
    } else {
        match (hex_value(raw[1]), hex_value(raw[2])) {
            (Some(high), Some(low)) => match percent_bytes(raw.skip(3)) {
                Ok(rest) => Ok(seq![(high * 16 + low) as u8] + rest),
                Err(e) => Err(e),
            },
            (Some(_), None) => Err(bad_hex_text(raw[2])),
            (None, _) => Err(bad_hex_text(raw[1])),
        }
    }
}

/// The text that a segment of a path writes, or what is wrong with it.
pub open spec fn percent_decoded(raw: Seq<char>) -> Result<Seq<char>, Seq<char>> {
    match percent_bytes(encode_utf8(raw)) {
        Ok(bytes) => if valid_utf8(bytes) {
            Ok(decode_utf8(bytes))
        } else {
            Err("decoded bytes are not valid UTF-8: "@ + utf8_error_text(bytes))
        },
        Err(e) => Err(e),
    }
}

/// Says that a byte is no hexadecimal digit.
fn bad_hex(b: u8) -> (r: String)
    ensures
        r@ == bad_hex_text(b),
{
    let mut out = "invalid hex digit `".to_owned();
    out.append(show_byte(b).as_str());
    out.append("` in %-escape");
    out
}

/// Reads one segment of a path.
pub fn percent_decode_segment(raw: &str) -> (r: Result<String, String>)
    ensures
        match r {
            Ok(text) => percent_decoded(raw@) == Ok::<Seq<char>, Seq<char>>(text@),
            Err(e) => percent_decoded(raw@) == Err::<Seq<char>, Seq<char>>(e@),
        },
{
    let bytes = raw.as_bytes();
    let ghost all = bytes@;
    let mut out: Vec<u8> = Vec::new();
    let mut i: usize = 0;
    assert(all.skip(0) =~= all);
    assert(percent_bytes(all) matches Ok(t) ==> Seq::<u8>::empty() + t =~= t);
    while i < bytes.len()
        invariant
            0 <= i <= bytes.len(),
            all == bytes@,
            all == encode_utf8(raw@),
            percent_bytes(all) == (match percent_bytes(all.skip(i as int)) {
                Ok(t) => Ok(out@ + t),
                Err(e) => Err(e),
            }),
        decreases bytes.len() - i,
    {
        let ghost before = out@;
        let ghost rest = all.skip(i as int);
        let b: u8 = bytes[i];
        assert(rest[0] == b);
        if b == 37 {
            if bytes.len() - i < 3 {
                return Err("truncated %-escape".to_owned());
            }
            let first: u8 = bytes[i + 1];
            let second: u8 = bytes[i + 2];
            assert(rest[1] == first && rest[2] == second);
            let high = match decode_hex(first) {
                Some(v) => v,
                None => return Err(bad_hex(first)),
            };
            let low = match decode_hex(second) {
                Some(v) => v,
                None => return Err(bad_hex(second)),
            };
            let value: u8 = high * 16 + low;
            out.push(value);
            proof {
                assert(rest.skip(3) =~= all.skip(i + 3));
                assert(percent_bytes(all.skip(i + 3)) matches Ok(t) ==> before + (seq![value] + t)
                    =~= out@ + t);
            }
            i += 3;
        } else {
            out.push(b);
            proof {
                assert(rest.skip(1) =~= all.skip(i + 1));
                assert(percent_bytes(all.skip(i + 1)) matches Ok(t) ==> before + (seq![b] + t)
                    =~= out@ + t);
            }
            i += 1;
        }
    }
    assert(all.skip(i as int) =~= Seq::<u8>::empty());
    assert(out@ + Seq::<u8>::empty() =~= out@);
    match text_from_utf8(out) {
        Ok(text) => Ok(text),
        Err(words) => {
            let mut message = "decoded bytes are not valid UTF-8: ".to_owned();
            message.append(words.as_str());
            Err(message)
        },
    }
}

// ---------------------------------------------------------------------
// Pages and scripts
// ---------------------------------------------------------------------

/// A character as it is written in an attribute of a page.
pub open spec fn html_char(c: char) -> Seq<char> {
    if c == '&' {
        "&amp;"@
    } else if c == '<' {
        "&lt;"@
    } else if c == '>' {
        "&gt;"@
    } else if c == '"' {
        "&quot;"@
    } else if c == '\'' {
        "&#39;"@
    } else {
        seq![c]
    }
}

/// A text as it is written in an attribute of a page.
pub open spec fn html_escaped(text: Seq<char>) -> Seq<char> {
    spread(text, |c: char| html_char(c))
}

/// Writes a text into an attribute of a page.
pub fn html_escape(input: &str) -> (r: String)
    ensures
        r@ == html_escaped(input@),
{
    let chars = chars_of(input);
    let ghost all = input@;
    let ghost f = |c: char| html_char(c);
    let mut out = String::new();
    let mut i: usize = 0;
    assert(all.take(0) =~= Seq::<char>::empty());
    while i < chars.len()
        invariant
            0 <= i <= chars.len(),
            chars@ == all,
            f == (|c: char| html_char(c)),
            out@ == spread(all.take(i as int), f),
        decreases chars.len() - i,
    {
        let c = chars[i];
        let ghost before = out@;
        if c == '&' {
            out.append("&amp;");
        } else if c == '<' {
            out.append("&lt;");
        } else if c == '>' {
            out.append("&gt;");
        } else if c == '"' {
            out.append("&quot;");
        } else if c == '\'' {
            out.append("&#39;");
        } else {
            out.push(c);
        }
        proof {
            assert(out@ =~= before + html_char(c));
            assert(all.take(i + 1).drop_last() =~= all.take(i as int));
        }
        i += 1;
    }
    assert(all.take(i as int) =~= all);
    out
}

/// A character as it is written in a string of a script.
pub open spec fn js_char(c: char) -> Seq<char> {
    if c == '\\' {
        "\\\\"@
    } else if c == '"' {
        "\\\""@
    } else if c == '\'' {
        "\\'"@
    } else if c == '\n' {
        "\\n"@
    } else if c == '\r' {
        "\\r"@
    } else if c == '<' {
        "\\u003c"@
    } else if c == '>' {
        "\\u003e"@
    } else if c == '&' {
        "\\u0026"@
    } else {
        seq![c]
    }
}

/// A text as it is written in a string of a script.
pub open spec fn js_escaped(text: Seq<char>) -> Seq<char> {
    spread(text, |c: char| js_char(c))
}

/// Writes a text into a string of a script.
pub fn js_string_escape(input: &str) -> (r: String)
    ensures
        r@ == js_escaped(input@),
{
    let chars = chars_of(input);
    let ghost all = input@;
    let ghost f = |c: char| js_char(c);
    let mut out = String::new();
    let mut i: usize = 0;
    assert(all.take(0) =~= Seq::<char>::empty());
    while i < chars.len()
        invariant
            0 <= i <= chars.len(),
            chars@ == all,
            f == (|c: char| js_char(c)),
            out@ == spread(all.take(i as int), f),
        decreases chars.len() - i,
    {
        let c = chars[i];
        let ghost before = out@;
        if c == '\\' {
            out.append("\\\\");
        } else if c == '"' {
            out.append("\\\"");
        } else if c == '\'' {
            out.append("\\'");
        } else if c == '\n' {
            out.append("\\n");
        } else if c == '\r' {
            out.append("\\r");
        } else if c == '<' {
            out.append("\\u003c");
        } else if c == '>' {
            out.append("\\u003e");
        } else if c == '&' {
            out.append("\\u0026");
        } else {
            out.push(c);
        }
        proof {
            assert(out@ =~= before + js_char(c));
            assert(all.take(i + 1).drop_last() =~= all.take(i as int));
        }
        i += 1;
    }
    assert(all.take(i as int) =~= all);
    out
}

// ---------------------------------------------------------------------
// Laws
// ---------------------------------------------------------------------

/// The characters of an ASCII text as bytes.
pub open spec fn ascii_bytes(text: Seq<char>) -> Seq<u8> {
    text.map_values(|c: char| c as u8)
}

/// What an address holds is ASCII, and the first byte is written first.
proof fn lemma_percent_front(bytes: Seq<u8>)
    ensures
        is_ascii_chars(percent_text(bytes)),
        bytes.len() > 0 ==> percent_text(bytes) == percent_byte(bytes[0]) + percent_text(
            bytes.skip(1),
        ),
    decreases bytes.len(),
{
    if bytes.len() > 0 {
        let init = bytes.drop_last();
        lemma_percent_front(init);
        assert(is_ascii_chars(percent_byte(bytes.last())));
        if bytes.len() == 1 {
            assert(init =~= Seq::<u8>::empty());
            assert(bytes.skip(1) =~= Seq::<u8>::empty());
            assert(percent_text(bytes) =~= percent_byte(bytes[0]) + percent_text(bytes.skip(1)));
        } else {
            assert(init.skip(1) =~= bytes.skip(1).drop_last());
            assert(bytes.skip(1).last() == bytes.last());
            assert(percent_text(bytes) =~= percent_byte(bytes[0]) + percent_text(bytes.skip(1)));
        }
    }
}

/// Bytes that are written into an address read back as they were.
proof fn lemma_percent_bytes_read_back(bytes: Seq<u8>)
    ensures
        percent_bytes(ascii_bytes(percent_text(bytes))) == Ok::<Seq<u8>, Seq<char>>(bytes),
    decreases bytes.len(),
{
    lemma_percent_front(bytes);
    let raw = ascii_bytes(percent_text(bytes));
    if bytes.len() == 0 {
        assert(raw =~= Seq::<u8>::empty());
        assert(bytes =~= Seq::<u8>::empty());
    } else {
        let b = bytes[0];
        let rest = bytes.skip(1);
        lemma_percent_bytes_read_back(rest);
        let tail = ascii_bytes(percent_text(rest));
        assert(bytes =~= seq![b] + rest);
        if is_unreserved(b) {
            assert(raw =~= seq![b] + tail);
            assert(raw.skip(1) =~= tail);
        } else {
            let high = hex_char_upper((b / 16) as nat) as u8;
            let low = hex_char_upper((b % 16) as nat) as u8;
            assert(raw =~= seq![37u8, high, low] + tail);
            assert(raw.skip(3) =~= tail);
            assert(hex_value(high) == Some((b / 16) as u8));
            assert(hex_value(low) == Some((b % 16) as u8));
        }
    }
}

/// A text that is written into an address reads back as it was.
pub proof fn law_percent_reads_back(text: Seq<char>)
    ensures
        percent_decoded(percent_text(encode_utf8(text))) == Ok::<Seq<char>, Seq<char>>(text),
{
    let bytes = encode_utf8(text);
    let written = percent_text(bytes);
    lemma_percent_front(bytes);
    is_ascii_chars_encode_utf8(written);
    assert(encode_utf8(written) =~= ascii_bytes(written));
    lemma_percent_bytes_read_back(bytes);
    encode_utf8_valid_utf8(text);
    encode_utf8_decode_utf8(text);
}

/// Whether every character of a text stands for itself in an address.
pub open spec fn is_plain_text(text: Seq<char>) -> bool {
    &&& is_ascii_chars(text)
    &&& forall|i: int| 0 <= i < text.len() ==> is_unreserved((#[trigger] text[i]) as u8)
}

/// A text in which every character stands for itself is written into an address as it is.
pub proof fn law_plain_text_stays(text: Seq<char>)
    requires
        is_plain_text(text),
    ensures
        percent_text(encode_utf8(text)) == text,
{
    is_ascii_chars_encode_utf8(text);
    let bytes = encode_utf8(text);
    assert forall|i: int| 0 <= i < bytes.len() implies is_unreserved(#[trigger] bytes[i])
        && bytes[i] as char == text[i] by {
        assert(bytes[i] == text[i] as u8);
    }
    lemma_unreserved_bytes_stay(bytes);
    assert(percent_text(bytes) =~= text);
}

/// Bytes that stand for themselves are written one by one.
proof fn lemma_unreserved_bytes_stay(bytes: Seq<u8>)
    requires
        forall|i: int| 0 <= i < bytes.len() ==> is_unreserved(#[trigger] bytes[i]),
    ensures
        percent_text(bytes) == Seq::new(bytes.len(), |i: int| bytes[i] as char),
    decreases bytes.len(),
{
    if bytes.len() > 0 {
        let init = bytes.drop_last();
        assert forall|i: int| 0 <= i < init.len() implies is_unreserved(#[trigger] init[i]) by {
            assert(init[i] == bytes[i]);
        }
        lemma_unreserved_bytes_stay(init);
        assert(is_unreserved(bytes[bytes.len() - 1]));
    }
    assert(percent_text(bytes) =~= Seq::new(bytes.len(), |i: int| bytes[i] as char));
}

/// A text that is written into an address holds only unreserved characters and escapes, so it
/// cannot end the part of the address that it stands in.
pub proof fn law_percent_text_is_plain(bytes: Seq<u8>, i: int)
    requires
        0 <= i < percent_text(bytes).len(),
    ensures
        percent_text(bytes)[i] == '%' || is_unreserved(percent_text(bytes)[i] as u8),
        percent_text(bytes)[i] as u32 <= 127,
    decreases bytes.len(),
{
    let init = percent_text(bytes.drop_last());
    if i < init.len() {
        law_percent_text_is_plain(bytes.drop_last(), i);
    } else {
        assert(percent_text(bytes)[i] == percent_byte(bytes.last())[i - init.len()]);
    }
}

/// What a browser reads from an attribute that holds only the five entities and plain characters.
pub open spec fn html_value(text: Seq<char>) -> Option<Seq<char>>
    decreases text.len(),
{
    if text.len() == 0 {
        Some(Seq::empty())
    } else if text[0] == '&' {
        if text.len() >= 5 && text.take(5) == "&amp;"@ {
            prepend('&', html_value(text.skip(5)))
        } else if text.len() >= 4 && text.take(4) == "&lt;"@ {
            prepend('<', html_value(text.skip(4)))
        } else if text.len() >= 4 && text.take(4) == "&gt;"@ {
            prepend('>', html_value(text.skip(4)))
        } else if text.len() >= 6 && text.take(6) == "&quot;"@ {
            prepend('"', html_value(text.skip(6)))
        } else if text.len() >= 5 && text.take(5) == "&#39;"@ {
            prepend('\'', html_value(text.skip(5)))
        } else {
            None
        }
    } else if text[0] == '<' || text[0] == '>' || text[0] == '"' || text[0] == '\'' {
        None
    } else {
        prepend(text[0], html_value(text.skip(1)))
    }
}

/// A character in front of a text, if there is a text.
pub open spec fn prepend(c: char, rest: Option<Seq<char>>) -> Option<Seq<char>> {
    match rest {
        Some(t) => Some(seq![c] + t),
        None => None,
    }
}

/// A text that is written into an attribute reads back as it was: no character of it ends the
/// attribute or opens a tag.
pub proof fn law_html_reads_back(text: Seq<char>)
    ensures
        html_value(html_escaped(text)) == Some(text),
    decreases text.len(),
{
    reveal_strlit("&amp;");
    reveal_strlit("&lt;");
    reveal_strlit("&gt;");
    reveal_strlit("&quot;");
    reveal_strlit("&#39;");
    let f = |c: char| html_char(c);
    if text.len() == 0 {
        assert(html_escaped(text) =~= Seq::<char>::empty());
        assert(text =~= Seq::<char>::empty());
    } else {
        let c = text[0];
        let rest = text.skip(1);
        law_html_reads_back(rest);
        lemma_spread_front(text, f);
        let written = html_escaped(text);
        let tail = html_escaped(rest);
        assert(written == html_char(c) + tail);
        assert(text =~= seq![c] + rest);
        assert(written.skip(html_char(c).len() as int) =~= tail);
        assert(written.take(html_char(c).len() as int) =~= html_char(c));
        if c == '<' || c == '>' || c == '"' || c == '\'' {
            assert(written[1] == html_char(c)[1]);
            assert(written.len() >= 5 ==> written.take(5)[1] == written[1]);
            assert(written.take(4)[1] == written[1]);
            assert(written.len() >= 6 ==> written.take(6)[1] == written[1]);
        }
    }
}

/// What a script reads from a string that holds only the escapes in use here and plain
/// characters. A quote, a line end or a character that matters to the page around the script
/// would end or break the string.
pub open spec fn js_value(text: Seq<char>) -> Option<Seq<char>>
    decreases text.len(),
{
    if text.len() == 0 {
        Some(Seq::empty())
    } else if text[0] == '\\' {
        if text.len() < 2 {
            None
        } else if text[1] == '\\' || text[1] == '"' || text[1] == '\'' {
            prepend(text[1], js_value(text.skip(2)))
        } else if text[1] == 'n' {
            prepend('\n', js_value(text.skip(2)))
        } else if text[1] == 'r' {
            prepend('\r', js_value(text.skip(2)))
        } else if text.len() >= 6 && text.take(6) == "\\u003c"@ {
            prepend('<', js_value(text.skip(6)))
        } else if text.len() >= 6 && text.take(6) == "\\u003e"@ {
            prepend('>', js_value(text.skip(6)))
        } else if text.len() >= 6 && text.take(6) == "\\u0026"@ {
            prepend('&', js_value(text.skip(6)))
        } else {
            None
        }
    } else if text[0] == '"' || text[0] == '\'' || text[0] == '\n' || text[0] == '\r' || text[0]
        == '<' || text[0] == '>' || text[0] == '&' {
        None
    } else {
        prepend(text[0], js_value(text.skip(1)))
    }
}

/// A text that is written into a string of a script reads back as it was: no character of it ends
/// the string or the script.
pub proof fn law_js_reads_back(text: Seq<char>)
    ensures
        js_value(js_escaped(text)) == Some(text),
    decreases text.len(),
{
    reveal_strlit("\\\\");
    reveal_strlit("\\\"");
    reveal_strlit("\\'");
    reveal_strlit("\\n");
    reveal_strlit("\\r");
    reveal_strlit("\\u003c");
    reveal_strlit("\\u003e");
    reveal_strlit("\\u0026");
    let f = |c: char| js_char(c);
    if text.len() == 0 {
        assert(js_escaped(text) =~= Seq::<char>::empty());
        assert(text =~= Seq::<char>::empty());
    } else {
        let c = text[0];
        let rest = text.skip(1);
        law_js_reads_back(rest);
        lemma_spread_front(text, f);
        let written = js_escaped(text);
        let tail = js_escaped(rest);
        assert(written == js_char(c) + tail);
        assert(text =~= seq![c] + rest);
        assert(written.skip(js_char(c).len() as int) =~= tail);
        assert(written.take(js_char(c).len() as int) =~= js_char(c));
        if c == '>' {
            assert("\\u003c"@[5] != "\\u003e"@[5]);
        }
        if c == '&' {
            assert("\\u003c"@[4] != "\\u0026"@[4]);
            assert("\\u003e"@[4] != "\\u0026"@[4]);
        }
    }
}

} // verus!
