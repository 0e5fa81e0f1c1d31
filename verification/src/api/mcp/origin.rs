//! Which pages may reach the surface.
//!
//! A browser says in the `Origin` header which page a request comes from. Only pages of this
//! machine may talk to the surface, so that a page from elsewhere cannot use the browser to reach
//! it. A client that is no browser sends no such header and passes.

use vstd::prelude::*;

use crate::text::{all_digits, chars_of, is_digit, strip_prefix, strip_prefix_of};

verus! {

/// The host and port of an origin, which has no path. A slash at the very end does not count.
pub open spec fn authority_of(rest: Seq<char>) -> Seq<char> {
    if rest.len() > 0 && rest.last() == '/' {
        rest.drop_last()
    } else {
        rest
    }
}

/// Whether an authority is a host, with or without a port. A port is digits.
pub open spec fn names_host(
    authority: Seq<char>,
    host: Seq<char>,
    host_and_colon: Seq<char>,
) -> bool {
    authority == host || match strip_prefix_of(authority, host_and_colon) {
        Some(port) => all_digits(port),
        None => false,
    }
}

/// Whether an authority is this machine.
pub open spec fn is_loopback_authority(authority: Seq<char>) -> bool {
    ||| names_host(authority, "localhost"@, "localhost:"@)
    ||| names_host(authority, "127.0.0.1"@, "127.0.0.1:"@)
    ||| names_host(authority, "[::1]"@, "[::1]:"@)
}

/// Whether an origin is a page of this machine.
pub open spec fn is_loopback(origin: Seq<char>) -> bool {
    match strip_prefix_of(origin, "http://"@) {
        Some(rest) => is_loopback_authority(authority_of(rest)),
        None => match strip_prefix_of(origin, "https://"@) {
            Some(rest) => is_loopback_authority(authority_of(rest)),
            None => false,
        },
    }
}

/// Whether an authority is a host, with or without a port.
fn is_host(authority: &str, host: &str, host_and_colon: &str) -> (r: bool)
    ensures
        r == names_host(authority@, host@, host_and_colon@),
{
    if authority.eq(host) {
        return true;
    }
    match strip_prefix(authority, host_and_colon) {
        Some(port) => is_number(port),
        None => false,
    }
}

/// Whether a text is one or more decimal digits.
fn is_number(text: &str) -> (r: bool)
    ensures
        r == all_digits(text@),
{
    let chars = chars_of(text);
    if chars.len() == 0 {
        return false;
    }
    let mut i: usize = 0;
    while i < chars.len()
        invariant
            0 <= i <= chars.len(),
            chars@ == text@,
            forall|j: int| 0 <= j < i ==> is_digit(#[trigger] text@[j]),
        decreases chars.len() - i,
    {
        if !('0' <= chars[i] && chars[i] <= '9') {
            assert(!is_digit(text@[i as int]));
            return false;
        }
        i += 1;
    }
    true
}

/// Whether an origin is a page of this machine: `localhost`, `127.0.0.1` or `[::1]`, with or
/// without a port, over `http` or `https`.
pub fn is_loopback_origin(origin: &str) -> (r: bool)
    ensures
        r == is_loopback(origin@),
{
    let rest = match strip_prefix(origin, "http://") {
        Some(rest) => rest,
        None => match strip_prefix(origin, "https://") {
            Some(rest) => rest,
            None => return false,
        },
    };
    let n = rest.unicode_len();
    let authority = if n > 0 && rest.get_char(n - 1) == '/' {
        let head = rest.substring_char(0, n - 1);
        assert(head@ =~= rest@.drop_last());
        head
    } else {
        rest
    };
    is_host(authority, "localhost", "localhost:") || is_host(authority, "127.0.0.1", "127.0.0.1:")
        || is_host(authority, "[::1]", "[::1]:")
}

/// The `Origin` header of a request.
#[derive(Debug)]
pub enum OriginHeader<'a> {
    /// There is none.
    Absent,
    /// There is one that is no text.
    Unreadable,
    /// The page that the request comes from.
    Page(&'a str),
}

/// Whether a check is the one of an origin.
pub open spec fn is_origin_check(r: Result<(), &'static str>, origin: OriginHeader) -> bool {
    match origin {
        OriginHeader::Absent => r is Ok,
        OriginHeader::Unreadable => r matches Err(text) && text@ == "Invalid Origin header"@,
        OriginHeader::Page(page) => if is_loopback(page@) {
            r is Ok
        } else {
            r matches Err(text) && text@ == "Origin not allowed"@
        },
    }
}

/// Whether a request passes, or the text of the 403 that it gets.
pub fn require_local_origin(origin: OriginHeader) -> (r: Result<(), &'static str>)
    ensures
        is_origin_check(r, origin),
{
    match origin {
        OriginHeader::Absent => Ok(()),
        OriginHeader::Unreadable => Err("Invalid Origin header"),
        OriginHeader::Page(page) => {
            if is_loopback_origin(page) {
                Ok(())
            } else {
                Err("Origin not allowed")
            }
        },
    }
}

/// A name below `localhost` is not this machine: anybody can have one resolved to it.
pub proof fn law_subdomains_are_foreign(label: Seq<char>)
    requires
        label.len() > 0,
        !label.contains('/'),
        !label.contains(':'),
    ensures
        !is_loopback("http://"@ + label + ".localhost"@),
        !is_loopback("https://"@ + label + ".localhost"@),
{
    reveal_strlit("http://");
    reveal_strlit("https://");
    reveal_strlit(".localhost");
    reveal_strlit("localhost");
    reveal_strlit("localhost:");
    reveal_strlit("127.0.0.1");
    reveal_strlit("127.0.0.1:");
    reveal_strlit("[::1]");
    reveal_strlit("[::1]:");
    let authority = label + ".localhost"@;
    let plain = "http://"@ + label + ".localhost"@;
    let secure = "https://"@ + label + ".localhost"@;
    assert(plain.skip(7) =~= authority);
    assert(secure.skip(8) =~= authority);
    assert("http://"@ =~= plain.take(7));
    assert("https://"@ =~= secure.take(8));
    assert(secure[4] == 's' && "http://"@[4] == ':');
    assert forall|i: int| 0 <= i < authority.len() implies authority[i] != '/' && authority[i]
        != ':' by {
        if i < label.len() {
            assert(authority[i] == label[i]);
            assert(label.contains(label[i]));
        } else {
            assert(authority[i] == ".localhost"@[i - label.len()]);
        }
    }
    assert(authority.last() != '/');
    assert(authority_of(authority) == authority);
    assert("localhost:"@[9] == ':');
    assert("127.0.0.1:"@[9] == ':');
    assert("[::1]:"@[5] == ':');
    assert("[::1]"@[1] == ':');
    assert(authority.last() == 't' && "127.0.0.1"@.last() == '1');
    assert(authority.len() > "localhost"@.len());
}

/// Nothing but a port follows the host of a page of this machine: no name of another machine can
/// hide behind it.
pub proof fn law_only_ports_follow_the_host(authority: Seq<char>, i: int)
    requires
        0 <= i < authority.len(),
        authority[i] == '@' || authority[i] == '/' || authority[i] == '?' || authority[i] == '#',
    ensures
        !is_loopback_authority(authority),
{
    reveal_strlit("localhost");
    reveal_strlit("localhost:");
    reveal_strlit("127.0.0.1");
    reveal_strlit("127.0.0.1:");
    reveal_strlit("[::1]");
    reveal_strlit("[::1]:");
    let c = authority[i];
    let spare = seq!["localhost:"@, "127.0.0.1:"@, "[::1]:"@];
    assert forall|k: int| 0 <= k < spare.len() && (#[trigger] spare[k]).is_prefix_of(
        authority,
    ) implies !all_digits(authority.skip(spare[k].len() as int)) by {
        let n = spare[k].len() as int;
        if i < n {
            assert(authority[i] == spare[k][i]);
        } else {
            assert(authority.skip(n)[i - n] == c);
            assert(!is_digit(c));
        }
    }
    assert(!all_digits(authority.skip(10)) || !spare[0].is_prefix_of(authority));
    assert(!all_digits(authority.skip(10)) || !spare[1].is_prefix_of(authority));
    assert(!all_digits(authority.skip(6)) || !spare[2].is_prefix_of(authority));
}

} // verus!
