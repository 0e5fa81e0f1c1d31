//! Short-lived tickets for a plugin's sandboxed user interface.
//!
//! A browser does not send the bearer of a page along when it loads a frame in it. The frame is
//! therefore opened with a ticket in its address:
//!
//! ```text
//! <expiry_ms>~<plugin_id>~<mac>
//! ```
//!
//! `mac` is the first half of the HMAC-SHA256 of `<expiry_ms>~<plugin_id>` under a secret of this
//! process, in hexadecimal. A ticket opens the interface of one plugin until it expires.

use sha2::{Digest, Sha256};
use vstd::prelude::*;
use vstd::utf8::*;

use crate::text::{
    all_digits, decimal, decode_hex, hex_char, hex_digit, hex_value, is_digit, law_unsigned_reads_back,
    lemma_decimal_reads_back, lemma_split_head, lemma_split_last, parse_u64, split_all,
    split_at_each, texts, u64_to_decimal, unsigned_value,
};

verus! {

/// How long a ticket is valid, in milliseconds.
pub const TICKET_TTL_MS: u64 = 300_000;

/// The longest ticket that is looked at, in bytes.
pub const MAX_TICKET_LEN: usize = 512;

/// Why a ticket opens nothing.
#[derive(Debug, Clone, Copy, PartialEq, Eq, Structural)]
pub enum TicketError {
    /// It does not have the shape of a ticket, or its code is not ours.
    Bad,
    /// Its code is ours, but its time has passed.
    Expired,
    /// Its code is ours and its time has not passed, but it is for another plugin.
    WrongPlugin,
}

// ---------------------------------------------------------------------
// The message code
// ---------------------------------------------------------------------

/// The SHA-256 digest of a message.
pub uninterp spec fn sha256_of(message: Seq<u8>) -> [u8; 32];

/// `sha2::Sha256::digest`: the digest of a message, thirty-two bytes.
#[verifier::external_body]
fn sha256(message: &[u8]) -> (r: [u8; 32])
    ensures
        r == sha256_of(message@),
{
    Sha256::digest(message).into()
}

/// The key, filled up to a block with zeroes and combined with a pad byte.
pub open spec fn padded_key(key: Seq<u8>, pad: u8) -> Seq<u8> {
    Seq::new(
        64,
        |i: int|
            if i < 32 {
                key[i] ^ pad
            } else {
                pad
            },
    )
}

/// HMAC-SHA256 with a key of thirty-two bytes.
pub open spec fn hmac_of(key: Seq<u8>, message: Seq<u8>) -> Seq<u8> {
    sha256_of(padded_key(key, 0x5c) + sha256_of(padded_key(key, 0x36) + message)@)@
}

/// The key, filled up to a block with zeroes and combined with a pad byte.
fn pad_key(key: &[u8; 32], pad: u8) -> (r: Vec<u8>)
    ensures
        r@ == padded_key(key@, pad),
{
    let mut out: Vec<u8> = Vec::new();
    let mut i: usize = 0;
    while i < 64
        invariant
            0 <= i <= 64,
            out.len() == i,
            forall|j: int| 0 <= j < i ==> #[trigger] out@[j] == padded_key(key@, pad)[j],
        decreases 64 - i,
    {
        if i < 32 {
            out.push(key[i] ^ pad);
        } else {
            out.push(pad);
        }
        i += 1;
    }
    assert(out@ =~= padded_key(key@, pad));
    out
}

/// HMAC-SHA256 with a key of thirty-two bytes.
pub fn hmac_sha256(key: &[u8; 32], message: &[u8]) -> (r: [u8; 32])
    ensures
        r@ == hmac_of(key@, message@),
{
    let mut inner = pad_key(key, 0x36);
    inner.extend_from_slice(message);
    assert(inner@ =~= padded_key(key@, 0x36) + message@);
    let inner_digest = sha256(inner.as_slice());
    let mut outer = pad_key(key, 0x5c);
    outer.extend_from_slice(inner_digest.as_slice());
    assert(outer@ =~= padded_key(key@, 0x5c) + inner_digest@);
    sha256(outer.as_slice())
}

/// Compares two byte strings without stopping at the first difference.
pub fn constant_time_eq(a: &[u8], b: &[u8]) -> (r: bool)
    ensures
        r == (a@ == b@),
{
    if a.len() != b.len() {
        return false;
    }
    let mut diff: u8 = 0;
    let mut i: usize = 0;
    while i < a.len()
        invariant
            0 <= i <= a.len() == b.len(),
            diff == 0 <==> forall|j: int| 0 <= j < i ==> #[trigger] a@[j] == b@[j],
        decreases a.len() - i,
    {
        let x: u8 = a[i];
        let y: u8 = b[i];
        assert(diff | (x ^ y) == 0 <==> diff == 0 && x == y) by (bit_vector);
        diff = diff | (x ^ y);
        i += 1;
    }
    proof {
        if diff == 0 {
            assert(a@ =~= b@);
        }
    }
    diff == 0
}

// ---------------------------------------------------------------------
// Hexadecimal
// ---------------------------------------------------------------------

/// Bytes in lower-case hexadecimal, two digits each.
pub open spec fn hex_text(bytes: Seq<u8>) -> Seq<char> {
    Seq::new(
        2 * bytes.len(),
        |i: int|
            if i % 2 == 0 {
                hex_char((bytes[i / 2] / 16) as nat)
            } else {
                hex_char((bytes[i / 2] % 16) as nat)
            },
    )
}

/// The byte that a pair of hexadecimal digits writes.
pub open spec fn hex_pair(a: u8, b: u8) -> Option<u8> {
    match (hex_value(a), hex_value(b)) {
        (Some(high), Some(low)) => Some((high * 16 + low) as u8),
        _ => None,
    }
}

/// The byte that two characters at a place write.
pub open spec fn pair_at(text: Seq<u8>, i: int) -> Option<u8> {
    hex_pair(text[2 * i], text[2 * i + 1])
}

/// The sixteen bytes that thirty-two characters write in hexadecimal.
pub open spec fn hex_bytes(text: Seq<u8>) -> Option<Seq<u8>> {
    if text.len() == 32 && forall|i: int| 0 <= i < 16 ==> #[trigger] pair_at(text, i) is Some {
        Some(Seq::new(16, |i: int| pair_at(text, i)->0))
    } else {
        None
    }
}

/// Writes bytes in hexadecimal.
fn to_hex(bytes: &[u8]) -> (r: String)
    requires
        bytes.len() <= 64,
    ensures
        r@ == hex_text(bytes@),
{
    let mut out = String::new();
    let mut i: usize = 0;
    while i < bytes.len()
        invariant
            0 <= i <= bytes.len() <= 64,
            out@.len() == 2 * i,
            forall|j: int| 0 <= j < 2 * i ==> #[trigger] out@[j] == hex_text(bytes@)[j],
        decreases bytes.len() - i,
    {
        let ghost before = out@;
        let b: u8 = bytes[i];
        out.push(hex_digit(b / 16));
        out.push(hex_digit(b % 16));
        proof {
            assert forall|j: int| 0 <= j < 2 * (i + 1) implies #[trigger] out@[j] == hex_text(
                bytes@,
            )[j] by {
                if j < 2 * i {
                    assert(out@[j] == before[j]);
                }
            }
        }
        i += 1;
    }
    assert(out@ =~= hex_text(bytes@));
    out
}

/// Reads one pair of characters.
fn read_pair(a: u8, b: u8) -> (r: Option<u8>)
    ensures
        r == hex_pair(a, b),
{
    match (decode_hex(a), decode_hex(b)) {
        (Some(high), Some(low)) => Some(high * 16 + low),
        _ => None,
    }
}

/// Reads sixteen bytes in hexadecimal.
fn from_hex(text: &[u8]) -> (r: Option<Vec<u8>>)
    ensures
        match r {
            Some(bytes) => hex_bytes(text@) == Some(bytes@),
            None => hex_bytes(text@) is None,
        },
{
    if text.len() != 32 {
        return None;
    }
    let mut out: Vec<u8> = Vec::new();
    let mut i: usize = 0;
    while i < 16
        invariant
            0 <= i <= 16,
            text.len() == 32,
            out.len() == i,
            forall|j: int| 0 <= j < i ==> #[trigger] pair_at(text@, j) == Some(out@[j]),
        decreases 16 - i,
    {
        match read_pair(text[2 * i], text[2 * i + 1]) {
            Some(b) => {
                assert(pair_at(text@, i as int) == Some(b));
                out.push(b);
            },
            None => {
                assert(pair_at(text@, i as int) is None);
                return None;
            },
        }
        i += 1;
    }
    assert(out@ =~= Seq::new(16, |i: int| pair_at(text@, i)->0));
    Some(out)
}

// ---------------------------------------------------------------------
// Tickets
// ---------------------------------------------------------------------

/// What a ticket's code covers.
pub open spec fn ticket_payload(expiry: Seq<char>, plugin_id: Seq<char>) -> Seq<char> {
    expiry + "~"@ + plugin_id
}

/// The code of a ticket: half of the message code of what it covers.
pub open spec fn ticket_mac(secret: Seq<u8>, expiry: Seq<char>, plugin_id: Seq<char>) -> Seq<u8> {
    hmac_of(secret, encode_utf8(ticket_payload(expiry, plugin_id))).take(16)
}

/// When a ticket that is issued now expires. An expiry before the epoch, or one that cannot be
/// computed, counts as the epoch; one past the last that fits counts as that.
pub open spec fn expiry_of(now_ms: i128) -> u64 {
    if now_ms + TICKET_TTL_MS < 0 || now_ms + TICKET_TTL_MS > i128::MAX {
        0
    } else if now_ms + TICKET_TTL_MS > u64::MAX {
        u64::MAX
    } else {
        (now_ms + TICKET_TTL_MS) as u64
    }
}

/// The ticket for a plugin with an expiry.
pub open spec fn ticket_text(secret: Seq<u8>, plugin_id: Seq<char>, expiry_ms: u64) -> Seq<char> {
    let expiry = decimal(expiry_ms as nat);
    ticket_payload(expiry, plugin_id) + "~"@ + hex_text(ticket_mac(secret, expiry, plugin_id))
}

/// The current time as the expiry is compared with it. A time that does not fit counts as the
/// epoch.
pub open spec fn clock_of(now_ms: int) -> u64 {
    if 0 <= now_ms <= u64::MAX {
        now_ms as u64
    } else {
        0
    }
}

/// What a ticket is good for.
pub open spec fn ticket_verdict(
    secret: Seq<u8>,
    raw: Seq<char>,
    expected_plugin_id: Seq<char>,
    now_ms: int,
) -> Result<(), TicketError> {
    let parts = split_at_each(raw, '~');
    if parts.len() != 3 || !all_digits(parts[0]) || parts[1].len() == 0 {
        Err(TicketError::Bad)
    } else {
        match (unsigned_value(parts[0], u64::MAX as nat), hex_bytes(encode_utf8(parts[2]))) {
            (Some(expiry), Some(mac)) => if mac != ticket_mac(secret, parts[0], parts[1]) {
                Err(TicketError::Bad)
            } else if clock_of(now_ms) >= expiry {
                Err(TicketError::Expired)
            } else if parts[1] != expected_plugin_id {
                Err(TicketError::WrongPlugin)
            } else {
                Ok(())
            },
            _ => Err(TicketError::Bad),
        }
    }
}

/// The code of a ticket.
fn mac_of(secret: &[u8; 32], expiry: &str, plugin_id: &str) -> (r: Vec<u8>)
    ensures
        r@ == ticket_mac(secret@, expiry@, plugin_id@),
        r.len() == 16,
{
    let mut payload = expiry.to_owned();
    payload.append("~");
    payload.append(plugin_id);
    let mac = hmac_sha256(secret, payload.as_str().as_bytes());
    let mut out: Vec<u8> = Vec::new();
    let mut i: usize = 0;
    while i < 16
        invariant
            0 <= i <= 16,
            out.len() == i,
            forall|j: int| 0 <= j < i ==> #[trigger] out@[j] == mac@[j],
        decreases 16 - i,
    {
        out.push(mac[i]);
        i += 1;
    }
    assert(out@ =~= mac@.take(16));
    out
}

/// When a ticket that is issued now expires.
pub fn expiry_after(now_ms: i128) -> (r: u64)
    ensures
        r == expiry_of(now_ms),
{
    match now_ms.checked_add(TICKET_TTL_MS as i128) {
        Some(end) => {
            if end < 0 {
                0
            } else if end > u64::MAX as i128 {
                u64::MAX
            } else {
                end as u64
            }
        },
        None => 0,
    }
}

/// Issues a ticket for a plugin. `now_ms` is the time in milliseconds since the Unix epoch.
pub fn issue(secret: &[u8; 32], plugin_id: &str, now_ms: i128) -> (r: String)
    ensures
        r@ == ticket_text(secret@, plugin_id@, expiry_of(now_ms)),
{
    let expiry_ms: u64 = expiry_after(now_ms);
    let expiry = u64_to_decimal(expiry_ms);
    let mac = mac_of(secret, expiry.as_str(), plugin_id);
    let hex = to_hex(mac.as_slice());
    let mut out = expiry;
    out.append("~");
    out.append(plugin_id);
    out.append("~");
    out.append(hex.as_str());
    out
}

/// Checks a ticket against the plugin that it is presented for. The code is checked before
/// anything else is said about the ticket.
pub fn verify(secret: &[u8; 32], raw: &str, expected_plugin_id: &str, now_ms: i128) -> (r: Result<
    (),
    TicketError,
>)
    ensures
        r == ticket_verdict(secret@, raw@, expected_plugin_id@, now_ms as int),
{
    let parts = split_all(raw, '~');
    let ghost views = texts(parts@);
    if parts.len() != 3 {
        return Err(TicketError::Bad);
    }
    let expiry_text = parts[0].as_str();
    let plugin_id = parts[1].as_str();
    let mac_hex = parts[2].as_str();
    assert(views[0] == expiry_text@ && views[1] == plugin_id@ && views[2] == mac_hex@);
    if expiry_text.unicode_len() == 0 || plugin_id.unicode_len() == 0 {
        return Err(TicketError::Bad);
    }
    if expiry_text.get_char(0) == '+' {
        assert(!is_digit(expiry_text@[0]));
        return Err(TicketError::Bad);
    }
    let expiry_ms: u64 = match parse_u64(expiry_text) {
        Some(v) => v,
        None => return Err(TicketError::Bad),
    };
    let expected = mac_of(secret, expiry_text, plugin_id);
    let supplied = match from_hex(mac_hex.as_bytes()) {
        Some(bytes) => bytes,
        None => return Err(TicketError::Bad),
    };
    if !constant_time_eq(expected.as_slice(), supplied.as_slice()) {
        return Err(TicketError::Bad);
    }
    let clock: u64 = if 0 <= now_ms && now_ms <= u64::MAX as i128 {
        now_ms as u64
    } else {
        0
    };
    if clock >= expiry_ms {
        return Err(TicketError::Expired);
    }
    if !plugin_id.eq(expected_plugin_id) {
        return Err(TicketError::WrongPlugin);
    }
    Ok(())
}

// ---------------------------------------------------------------------
// Laws
// ---------------------------------------------------------------------

/// Bytes written in hexadecimal read back as they were.
proof fn lemma_hex_reads_back(bytes: Seq<u8>)
    requires
        bytes.len() == 16,
    ensures
        hex_bytes(encode_utf8(hex_text(bytes))) == Some(bytes),
        !hex_text(bytes).contains('~'),
{
    let text = hex_text(bytes);
    assert(is_ascii_chars(text));
    is_ascii_chars_encode_utf8(text);
    let raw = encode_utf8(text);
    assert forall|i: int| 0 <= i < 16 implies #[trigger] pair_at(raw, i) == Some(bytes[i]) by {
        let b = bytes[i];
        assert(text[2 * i] == hex_char((b / 16) as nat)) by {
            assert((2 * i) % 2 == 0 && (2 * i) / 2 == i);
        }
        assert(text[2 * i + 1] == hex_char((b % 16) as nat)) by {
            assert((2 * i + 1) % 2 == 1 && (2 * i + 1) / 2 == i);
        }
        assert(raw[2 * i] == text[2 * i] as u8);
        assert(raw[2 * i + 1] == text[2 * i + 1] as u8);
        assert(hex_value(raw[2 * i]) == Some((b / 16) as u8));
        assert(hex_value(raw[2 * i + 1]) == Some((b % 16) as u8));
    }
    assert(Seq::new(16, |i: int| pair_at(raw, i)->0) =~= bytes);
    assert forall|i: int| 0 <= i < text.len() implies text[i] != '~' by {}
}

/// A ticket falls into the parts that it was put together from.
proof fn lemma_ticket_parts(secret: Seq<u8>, plugin_id: Seq<char>, expiry_ms: u64)
    requires
        secret.len() == 32,
        !plugin_id.contains('~'),
    ensures
        ({
            let expiry = decimal(expiry_ms as nat);
            split_at_each(ticket_text(secret, plugin_id, expiry_ms), '~') == seq![
                expiry,
                plugin_id,
                hex_text(ticket_mac(secret, expiry, plugin_id)),
            ]
        }),
        ticket_mac(secret, decimal(expiry_ms as nat), plugin_id).len() == 16,
{
    let expiry = decimal(expiry_ms as nat);
    lemma_decimal_reads_back(expiry_ms as nat);
    assert(!expiry.contains('~')) by {
        assert forall|i: int| 0 <= i < expiry.len() implies expiry[i] != '~' by {
            assert(is_digit(expiry[i]));
        }
    }
    let mac = ticket_mac(secret, expiry, plugin_id);
    let hex = hex_text(mac);
    lemma_hex_reads_back(mac);
    reveal_strlit("~");
    let rest = plugin_id.push('~') + hex;
    assert(ticket_text(secret, plugin_id, expiry_ms) =~= expiry.push('~') + rest);
    lemma_split_head(expiry, '~', rest);
    lemma_split_head(plugin_id, '~', hex);
    lemma_split_last(hex, '~');
    assert(seq![expiry] + (seq![plugin_id] + seq![hex]) =~= seq![expiry, plugin_id, hex]);
}

/// A ticket opens the interface of the plugin that it was issued for, until it expires.
pub proof fn law_issued_ticket_opens_its_plugin(
    secret: Seq<u8>,
    plugin_id: Seq<char>,
    issued_ms: i128,
    now_ms: i128,
)
    requires
        secret.len() == 32,
        plugin_id.len() > 0,
        !plugin_id.contains('~'),
        clock_of(now_ms as int) < expiry_of(issued_ms),
    ensures
        ticket_verdict(
            secret,
            ticket_text(secret, plugin_id, expiry_of(issued_ms)),
            plugin_id,
            now_ms as int,
        ) == Ok::<(), TicketError>(()),
{
    lemma_own_ticket(secret, plugin_id, plugin_id, expiry_of(issued_ms), now_ms);
}

/// A ticket that was issued at a time within the range of the clock is good for the whole of its
/// life, counted from that time.
pub proof fn law_ticket_lives_its_time(
    secret: Seq<u8>,
    plugin_id: Seq<char>,
    issued_ms: u64,
    elapsed_ms: u64,
)
    requires
        secret.len() == 32,
        plugin_id.len() > 0,
        !plugin_id.contains('~'),
        issued_ms + TICKET_TTL_MS <= u64::MAX,
        elapsed_ms < TICKET_TTL_MS,
    ensures
        ticket_verdict(
            secret,
            ticket_text(secret, plugin_id, expiry_of(issued_ms as i128)),
            plugin_id,
            issued_ms + elapsed_ms,
        ) == Ok::<(), TicketError>(()),
{
    law_issued_ticket_opens_its_plugin(
        secret,
        plugin_id,
        issued_ms as i128,
        (issued_ms + elapsed_ms) as i128,
    );
}

/// A ticket presented for another plugin than its own opens nothing: until it expires, it is
/// answered as one of another plugin.
pub proof fn law_ticket_is_bound_to_its_plugin(
    secret: Seq<u8>,
    plugin_id: Seq<char>,
    other: Seq<char>,
    issued_ms: i128,
    now_ms: i128,
)
    requires
        secret.len() == 32,
        plugin_id.len() > 0,
        !plugin_id.contains('~'),
        other != plugin_id,
        clock_of(now_ms as int) < expiry_of(issued_ms),
    ensures
        ticket_verdict(
            secret,
            ticket_text(secret, plugin_id, expiry_of(issued_ms)),
            other,
            now_ms as int,
        ) == Err::<(), TicketError>(TicketError::WrongPlugin),
{
    lemma_own_ticket(secret, plugin_id, other, expiry_of(issued_ms), now_ms);
}

/// From its expiry on, a ticket opens nothing, and is answered as expired whatever plugin it is
/// presented for.
pub proof fn law_ticket_expires(
    secret: Seq<u8>,
    plugin_id: Seq<char>,
    expected_plugin_id: Seq<char>,
    issued_ms: i128,
    now_ms: i128,
)
    requires
        secret.len() == 32,
        plugin_id.len() > 0,
        !plugin_id.contains('~'),
        clock_of(now_ms as int) >= expiry_of(issued_ms),
    ensures
        ticket_verdict(
            secret,
            ticket_text(secret, plugin_id, expiry_of(issued_ms)),
            expected_plugin_id,
            now_ms as int,
        ) == Err::<(), TicketError>(TicketError::Expired),
{
    lemma_own_ticket(secret, plugin_id, expected_plugin_id, expiry_of(issued_ms), now_ms);
}

/// Under another secret, a ticket is bad wherever the two secrets give it different codes.
pub proof fn law_ticket_needs_its_secret(
    secret: Seq<u8>,
    other_secret: Seq<u8>,
    plugin_id: Seq<char>,
    expected_plugin_id: Seq<char>,
    issued_ms: i128,
    now_ms: i128,
)
    requires
        secret.len() == 32,
        plugin_id.len() > 0,
        !plugin_id.contains('~'),
        ({
            let expiry = decimal(expiry_of(issued_ms) as nat);
            ticket_mac(secret, expiry, plugin_id) != ticket_mac(other_secret, expiry, plugin_id)
        }),
    ensures
        ticket_verdict(
            other_secret,
            ticket_text(secret, plugin_id, expiry_of(issued_ms)),
            expected_plugin_id,
            now_ms as int,
        ) == Err::<(), TicketError>(TicketError::Bad),
{
    let expiry_ms = expiry_of(issued_ms);
    let expiry = decimal(expiry_ms as nat);
    lemma_ticket_parts(secret, plugin_id, expiry_ms);
    law_unsigned_reads_back(expiry_ms);
    lemma_decimal_reads_back(expiry_ms as nat);
    lemma_hex_reads_back(ticket_mac(secret, expiry, plugin_id));
}

/// A ticket whose code is not written in hexadecimal digits alone is bad, whoever made it.
pub proof fn law_code_is_hexadecimal(
    secret: Seq<u8>,
    raw: Seq<char>,
    expected_plugin_id: Seq<char>,
    now_ms: int,
    i: int,
)
    requires
        split_at_each(raw, '~').len() == 3,
        0 <= i < encode_utf8(split_at_each(raw, '~')[2]).len(),
        hex_value(encode_utf8(split_at_each(raw, '~')[2])[i]) is None,
    ensures
        ticket_verdict(secret, raw, expected_plugin_id, now_ms) == Err::<(), TicketError>(
            TicketError::Bad,
        ),
{
    let code = encode_utf8(split_at_each(raw, '~')[2]);
    if code.len() == 32 {
        let at = i / 2;
        assert(pair_at(code, at) is None) by {
            assert(2 * at == i || 2 * at + 1 == i);
        }
    }
}

/// Whatever text is accepted carries the code of its own claims under the secret, names the
/// plugin that it is presented for, and has not expired.
pub proof fn law_accepted_ticket_is_signed(
    secret: Seq<u8>,
    raw: Seq<char>,
    expected_plugin_id: Seq<char>,
    now_ms: int,
)
    requires
        ticket_verdict(secret, raw, expected_plugin_id, now_ms) is Ok,
    ensures
        ({
            let parts = split_at_each(raw, '~');
            &&& parts.len() == 3
            &&& parts[1] == expected_plugin_id
            &&& hex_bytes(encode_utf8(parts[2])) == Some(ticket_mac(secret, parts[0], parts[1]))
            &&& unsigned_value(parts[0], u64::MAX as nat) is Some
            &&& clock_of(now_ms) < unsigned_value(parts[0], u64::MAX as nat)->0
        }),
{
}

/// What a ticket of one's own secret is good for.
proof fn lemma_own_ticket(
    secret: Seq<u8>,
    plugin_id: Seq<char>,
    expected: Seq<char>,
    expiry_ms: u64,
    now_ms: i128,
)
    requires
        secret.len() == 32,
        plugin_id.len() > 0,
        !plugin_id.contains('~'),
    ensures
        ticket_verdict(secret, ticket_text(secret, plugin_id, expiry_ms), expected, now_ms as int)
            == (if clock_of(now_ms as int) >= expiry_ms {
            Err::<(), TicketError>(TicketError::Expired)
        } else if plugin_id != expected {
            Err(TicketError::WrongPlugin)
        } else {
            Ok(())
        }),
{
    let expiry = decimal(expiry_ms as nat);
    lemma_ticket_parts(secret, plugin_id, expiry_ms);
    law_unsigned_reads_back(expiry_ms);
    lemma_decimal_reads_back(expiry_ms as nat);
    lemma_hex_reads_back(ticket_mac(secret, expiry, plugin_id));
}

} // verus!
