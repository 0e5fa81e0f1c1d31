//! Tickets, addresses and pages.

use vstd::prelude::*;
use vstd::utf8::*;

use crate::api::encode::{
    html_escaped, html_value, is_unreserved, js_escaped, js_value, law_html_reads_back,
    law_js_reads_back, law_percent_reads_back, law_percent_text_is_plain, percent_byte,
    percent_bytes, percent_decoded, percent_text, shown_byte,
};
use crate::api::paging::{
    device_runs, entries_of, is_page_length, lemma_runs_nonempty, run_bytes, runs_bytes,
};
use crate::api::scopes::scope_satisfied;
use crate::api::ui::{
    frame_url, is_frame_page, is_query_ticket, is_session_check, is_ui_session, is_wrapper_page,
    last_ticket, ui_reply, ui_verdict, wrapper_url, PluginUiError, UiPage, UiSession, UiVerdict,
    WRAPPER_HEAD, WRAPPER_MIDDLE, WRAPPER_TAIL,
};
use crate::api::ui_ticket::{
    clock_of, expiry_of, hex_bytes, hex_text, hmac_of, ticket_payload, ticket_verdict, TicketError,
};
use crate::state::DeviceState;
use crate::text::{hex_char, opt_text, split_at_each, unsigned_value};

verus! {

// ---------------------------------------------------------------------
// Tickets
// ---------------------------------------------------------------------

/// Whether a ticket is a payload with a code behind it.
pub open spec fn is_signed_text(raw: Seq<char>, payload: Seq<char>, code: Seq<char>) -> bool {
    raw == payload.push('~') + code
}

/// A text that is cut into three has the three parts, with the mark between them.
proof fn lemma_three_parts(text: Seq<char>, c: char)
    requires
        split_at_each(text, c).len() == 3,
    ensures
        ({
            let parts = split_at_each(text, c);
            text == parts[0].push(c) + parts[1].push(c) + parts[2]
        }),
{
    reveal_with_fuel(split_at_each, 4);
    text.index_of_first_ensures(c);
    let i = text.index_of_first(c)->0;
    let tail = text.skip(i + 1);
    tail.index_of_first_ensures(c);
    let j = tail.index_of_first(c)->0;
    let end = tail.skip(j + 1);
    end.index_of_first_ensures(c);
    assert(split_at_each(text, c) =~= seq![text.take(i)] + split_at_each(tail, c));
    assert(split_at_each(tail, c) =~= seq![tail.take(j)] + split_at_each(end, c));
    if let Some(k) = end.index_of_first(c) {
        let more = end.skip(k + 1);
        assert(split_at_each(end, c) =~= seq![end.take(k)] + split_at_each(more, c));
        more.index_of_first_ensures(c);
        assert(split_at_each(more, c).len() >= 1);
    }
    assert(split_at_each(end, c) =~= seq![end]);
    assert(split_at_each(text, c)[0] == text.take(i));
    assert(split_at_each(text, c)[1] == tail.take(j));
    assert(split_at_each(text, c)[2] == end);
    assert(tail =~= tail.take(j).push(c) + end);
    assert(text =~= text.take(i).push(c) + tail.take(j).push(c) + end);
}

/// Everything in a ticket before its code is signed by the code: a ticket that opens anything, or
/// that has expired, carries the code of all that stands before it.
pub proof fn law_all_of_a_ticket_is_signed(
    secret: Seq<u8>,
    raw: Seq<char>,
    expected_plugin_id: Seq<char>,
    now_ms: int,
)
    requires
        ticket_verdict(secret, raw, expected_plugin_id, now_ms) != Err::<(), TicketError>(
            TicketError::Bad,
        ),
    ensures
        exists|payload: Seq<char>, code: Seq<char>| #[trigger]
            is_signed_text(raw, payload, code) && hex_bytes(encode_utf8(code)) == Some(
                hmac_of(secret, encode_utf8(payload)).take(16),
            ),
{
    let parts = split_at_each(raw, '~');
    lemma_three_parts(raw, '~');
    reveal_strlit("~");
    let payload = parts[0].push('~') + parts[1];
    assert(ticket_payload(parts[0], parts[1]) =~= payload);
    assert(raw =~= payload.push('~') + parts[2]);
    assert(is_signed_text(raw, payload, parts[2]));
}

/// A ticket is answered as a bad one exactly where it would be under every id: where its code is
/// not that of what stands before it, or it is no ticket at all.
pub proof fn law_unsigned_tickets_are_bad(
    secret: Seq<u8>,
    raw: Seq<char>,
    plugin_id: Seq<char>,
    installation: Option<Seq<char>>,
    now_ms: int,
)
    ensures
        ui_verdict(secret, Some(raw), plugin_id, installation, now_ms) == UiVerdict::TicketBad
            <==> ticket_verdict(secret, raw, plugin_id, now_ms) == Err::<(), TicketError>(
            TicketError::Bad,
        ),
        ui_verdict(secret, Some(raw), plugin_id, installation, now_ms) == UiVerdict::TicketExpired
            <==> ticket_verdict(secret, raw, plugin_id, now_ms) == Err::<(), TicketError>(
            TicketError::Expired,
        ),
{
}

/// What a ticket says of itself: it opens the plugin that it names until the time that it names.
pub proof fn law_tickets_say_what_they_open(
    secret: Seq<u8>,
    raw: Seq<char>,
    expected_plugin_id: Seq<char>,
    now_ms: int,
)
    requires
        0 <= now_ms <= u64::MAX,
        ticket_verdict(secret, raw, expected_plugin_id, now_ms) != Err::<(), TicketError>(
            TicketError::Bad,
        ),
    ensures
        ({
            let parts = split_at_each(raw, '~');
            let until = unsigned_value(parts[0], u64::MAX as nat);
            let verdict = ticket_verdict(secret, raw, expected_plugin_id, now_ms);
            &&& parts.len() == 3 && until is Some
            &&& verdict is Ok <==> now_ms < until->0 && parts[1] == expected_plugin_id
            &&& verdict == Err::<(), TicketError>(TicketError::Expired) <==> now_ms >= until->0
            &&& verdict == Err::<(), TicketError>(TicketError::WrongPlugin) <==> now_ms < until->0
                && parts[1] != expected_plugin_id
        }),
{
}

/// A ticket lives for five minutes. A session says of its ticket when it expires, and its address
/// names the plugin and carries the ticket.
pub proof fn law_sessions_tell_when_they_expire(
    r: UiSession,
    plugin_id: Seq<char>,
    ticket: Seq<char>,
    now_ms: i128,
)
    requires
        is_ui_session(r, plugin_id, ticket, now_ms),
        0 <= now_ms,
        now_ms + 300_000 <= u64::MAX,
    ensures
        r.expires_ms == now_ms + 300_000,
        expiry_of(now_ms) == r.expires_ms,
        clock_of(now_ms as int) == now_ms,
        exists|segment: Seq<char>, value: Seq<char>| #[trigger]
            is_address(r.url@, "/ui?tk="@, plugin_id, ticket, segment, value),
{
    law_addresses_name_plugin_and_ticket(plugin_id, ticket);
}

/// The digits of a code are those from `0` to `9` and from `a` to `f`.
pub proof fn law_codes_are_lower_case(bytes: Seq<u8>, i: int)
    requires
        0 <= i < hex_text(bytes).len(),
    ensures
        hex_text(bytes).len() == 2 * bytes.len(),
        ('0' <= hex_text(bytes)[i] && hex_text(bytes)[i] <= '9') || ('a' <= hex_text(bytes)[i]
            && hex_text(bytes)[i] <= 'f'),
{
}

/// The ticket of a request is the value of the last parameter that is called `tk`, and there is
/// none exactly when no parameter is called so.
pub proof fn law_the_last_ticket_counts(parameters: Seq<Seq<char>>, i: int)
    requires
        0 <= i < parameters.len(),
        "tk="@.is_prefix_of(parameters[i]),
        forall|j: int| i < j < parameters.len() ==> !"tk="@.is_prefix_of(#[trigger] parameters[j]),
    ensures
        last_ticket(parameters) is Some,
        parameters[i] == "tk="@ + last_ticket(parameters)->0,
    decreases parameters.len(),
{
    if i < parameters.len() - 1 {
        assert(!"tk="@.is_prefix_of(parameters[parameters.len() - 1]));
        let init = parameters.drop_last();
        assert forall|j: int| i < j < init.len() implies !"tk="@.is_prefix_of(
            #[trigger] init[j],
        ) by {
            assert(init[j] == parameters[j]);
        }
        law_the_last_ticket_counts(init, i);
    } else {
        assert(parameters[i] =~= "tk="@ + parameters[i].skip("tk="@.len() as int));
    }
}

/// Without a parameter that is called `tk` there is no ticket.
pub proof fn law_no_ticket_without_parameter(parameters: Seq<Seq<char>>)
    requires
        forall|j: int| 0 <= j < parameters.len() ==> !"tk="@.is_prefix_of(#[trigger] parameters[j]),
    ensures
        last_ticket(parameters) is None,
    decreases parameters.len(),
{
    if parameters.len() > 0 {
        let init = parameters.drop_last();
        assert(!"tk="@.is_prefix_of(parameters[parameters.len() - 1]));
        assert forall|j: int| 0 <= j < init.len() implies !"tk="@.is_prefix_of(
            #[trigger] init[j],
        ) by {
            assert(init[j] == parameters[j]);
        }
        law_no_ticket_without_parameter(init);
    }
}

/// A query is read exactly up to the length that a ticket can have; a longer one is answered as a
/// bad ticket.
pub proof fn law_long_queries_are_refused(
    r: Result<Option<String>, PluginUiError>,
    query: Seq<char>,
)
    requires
        is_query_ticket(r, query),
    ensures
        r is Ok <==> encode_utf8(query).len() <= 515,
        r matches Err(e) ==> e is TicketBad,
        r matches Ok(ticket) ==> opt_text(ticket) == last_ticket(split_at_each(query, '&')),
{
}

/// A session is opened exactly for a caller who may open it, of a plugin that is installed.
pub proof fn law_sessions_need_scope_and_plugin(
    r: Result<(), PluginUiError>,
    held: Seq<Seq<char>>,
    installed: bool,
)
    requires
        is_session_check(r, held, installed),
    ensures
        r is Ok <==> scope_satisfied("plugins:ui"@, held) && installed,
        r matches Err(PluginUiError::Scope(denied)) ==> denied.required@ == "plugins:ui"@,
        r matches Err(e) ==> ui_reply(e).status == (if scope_satisfied("plugins:ui"@, held) {
            404u16
        } else {
            403u16
        }),
{
}

/// A page is shown only with a ticket, and only while the plugin is installed.
pub proof fn law_pages_need_ticket_and_plugin(
    secret: Seq<u8>,
    ticket: Option<Seq<char>>,
    plugin_id: Seq<char>,
    installation: Option<Seq<char>>,
    now_ms: int,
)
    ensures
        ticket is None ==> ui_verdict(secret, ticket, plugin_id, installation, now_ms)
            == UiVerdict::TicketBad,
        ui_verdict(secret, ticket, plugin_id, installation, now_ms) is Shown ==> ticket is Some
            && installation is Some,
{
}

/// How a page that is not shown is answered. What is said of a ticket is not kept by anyone.
pub proof fn law_hidden_pages_are_answered(err: PluginUiError)
    ensures
        ui_reply(err).status == (match err {
            PluginUiError::Scope(_) => 403u16,
            PluginUiError::NotFound => 404u16,
            PluginUiError::TicketBad => 400u16,
            PluginUiError::TicketExpired => 401u16,
        }),
        !(err is Scope) ==> ui_reply(err).no_store && ui_reply(err).denied_scope is None,
        err matches PluginUiError::Scope(denied) ==> ui_reply(err).denied_scope == Some(
            denied.required@,
        ),
{
}

// ---------------------------------------------------------------------
// Addresses and pages
// ---------------------------------------------------------------------

/// Whether an address stands for a plugin and a ticket, in a part each that reads back as them.
pub open spec fn is_address(
    url: Seq<char>,
    between: Seq<char>,
    plugin_id: Seq<char>,
    ticket: Seq<char>,
    segment: Seq<char>,
    value: Seq<char>,
) -> bool {
    &&& url == "/api/v1/plugins/"@ + segment + between + value
    &&& percent_decoded(segment) == Ok::<Seq<char>, Seq<char>>(plugin_id)
    &&& percent_decoded(value) == Ok::<Seq<char>, Seq<char>>(ticket)
    &&& !segment.contains('/') && !segment.contains('?')
    &&& !value.contains('&') && !value.contains('#')
}

/// A text as it stands in an address holds nothing that has a meaning there.
proof fn lemma_no_marks(text: Seq<char>)
    ensures
        ({
            let out = percent_text(encode_utf8(text));
            !out.contains('/') && !out.contains('?') && !out.contains('&') && !out.contains('#')
        }),
{
    let out = percent_text(encode_utf8(text));
    assert forall|i: int| 0 <= i < out.len() implies #[trigger] out[i] != '/' && out[i] != '?'
        && out[i] != '&' && out[i] != '#' by {
        law_percent_text_is_plain(encode_utf8(text), i);
    }
}

/// The addresses of a page and of its frame name the plugin and carry the ticket, whatever
/// characters these hold.
pub proof fn law_addresses_name_plugin_and_ticket(plugin_id: Seq<char>, ticket: Seq<char>)
    ensures
        exists|segment: Seq<char>, value: Seq<char>| #[trigger]
            is_address(
                wrapper_url(plugin_id, ticket),
                "/ui?tk="@,
                plugin_id,
                ticket,
                segment,
                value,
            ),
        exists|segment: Seq<char>, value: Seq<char>| #[trigger]
            is_address(
                frame_url(plugin_id, ticket),
                "/ui/frame?tk="@,
                plugin_id,
                ticket,
                segment,
                value,
            ),
{
    let segment = percent_text(encode_utf8(plugin_id));
    let value = percent_text(encode_utf8(ticket));
    law_percent_reads_back(plugin_id);
    law_percent_reads_back(ticket);
    lemma_no_marks(plugin_id);
    lemma_no_marks(ticket);
    assert(is_address(
        wrapper_url(plugin_id, ticket),
        "/ui?tk="@,
        plugin_id,
        ticket,
        segment,
        value,
    ));
    assert(is_address(
        frame_url(plugin_id, ticket),
        "/ui/frame?tk="@,
        plugin_id,
        ticket,
        segment,
        value,
    ));
}

/// Whether a page has these two texts in its places.
pub open spec fn is_filled(body: Seq<char>, address: Seq<char>, script: Seq<char>) -> bool {
    body == WRAPPER_HEAD@ + address + WRAPPER_MIDDLE@ + script + WRAPPER_TAIL@
}

/// The page embeds the frame of its own ticket and hands the plugin's id on, each in words that
/// read back as it. Neither page is kept by anyone, nor shown in a page from elsewhere.
pub proof fn law_pages_embed_their_frame(
    r: UiPage,
    frame: UiPage,
    plugin_id: Seq<char>,
    ticket: Seq<char>,
)
    requires
        is_wrapper_page(r, plugin_id, ticket),
        is_frame_page(frame),
    ensures
        r.status == 200 && frame.status == 501,
        exists|address: Seq<char>, script: Seq<char>| #[trigger]
            is_filled(r.body@, address, script) && html_value(address) == Some(
                frame_url(plugin_id, ticket),
            ) && js_value(script) == Some(plugin_id),
        r.cache_control@ == "no-store"@ && frame.cache_control@ == "no-store"@,
        r.frame_options@ == "SAMEORIGIN"@ && frame.frame_options@ == "SAMEORIGIN"@,
        r.type_options@ == "nosniff"@ && frame.type_options@ == "nosniff"@,
        r.content_type@ == "text/html; charset=utf-8"@ && frame.content_type@
            == "text/plain; charset=utf-8"@,
        frame.security_policy@ == "default-src 'none'"@,
        r.security_policy@
            == "default-src 'none'; frame-src 'self'; script-src 'unsafe-inline'; style-src 'unsafe-inline'"@,
{
    law_html_reads_back(frame_url(plugin_id, ticket));
    law_js_reads_back(plugin_id);
    assert(is_filled(
        r.body@,
        html_escaped(frame_url(plugin_id, ticket)),
        js_escaped(plugin_id),
    ));
}

/// The bytes that stand for themselves in an address.
pub proof fn law_these_bytes_stay(b: u8)
    ensures
        is_unreserved(b) <==> ({
            let c = b as char;
            ('A' <= c && c <= 'Z') || ('a' <= c && c <= 'z') || ('0' <= c && c <= '9') || c == '-'
                || c == '.' || c == '_' || c == '~'
        }),
        is_unreserved(b) ==> percent_byte(b) == seq![b as char],
{
}

/// Every other byte is a percent sign and two digits in upper case.
pub proof fn law_escapes_are_upper_case(b: u8, i: int)
    requires
        !is_unreserved(b),
        1 <= i < 3,
    ensures
        percent_byte(b).len() == 3,
        percent_byte(b)[0] == '%',
        ('0' <= percent_byte(b)[i] && percent_byte(b)[i] <= '9') || ('A' <= percent_byte(b)[i]
            && percent_byte(b)[i] <= 'F'),
{
}

/// A text without a percent sign is read as it stands.
pub proof fn law_text_without_escapes_stays(raw: Seq<u8>)
    requires
        !raw.contains(37),
    ensures
        percent_bytes(raw) == Ok::<Seq<u8>, Seq<char>>(raw),
    decreases raw.len(),
{
    if raw.len() > 0 {
        assert(raw[0] != 37);
        let rest = raw.skip(1);
        assert forall|i: int| 0 <= i < rest.len() implies rest[i] != 37 by {
            assert(rest[i] == raw[i + 1]);
        }
        law_text_without_escapes_stays(rest);
        assert(seq![raw[0]] + rest =~= raw);
    } else {
        assert(raw =~= Seq::<u8>::empty());
    }
}

/// A text in which an escape breaks off is refused.
pub proof fn law_broken_escapes_are_refused(raw: Seq<u8>, at: int)
    requires
        0 <= at < raw.len(),
        raw[at] == 37,
        raw.len() - at < 3,
    ensures
        percent_bytes(raw) is Err,
    decreases raw.len(),
{
    if raw[0] != 37 {
        assert(raw.skip(1)[at - 1] == 37);
        law_broken_escapes_are_refused(raw.skip(1), at - 1);
    } else if raw.len() >= 3 {
        if at >= 3 {
            assert(raw.skip(3)[at - 3] == 37);
            law_broken_escapes_are_refused(raw.skip(3), at - 3);
        } else {
            assert(at == 1 || at == 2);
        }
    }
}

/// Different numbers have different digits.
proof fn lemma_digits_differ(a: nat, b: nat)
    requires
        a < 16,
        b < 16,
        hex_char(a) == hex_char(b),
    ensures
        a == b,
{
    assert(hex_char(a) as u32 == hex_char(b) as u32);
    assert(a < 10 ==> hex_char(a) as u32 == 48 + a);
    assert(b < 10 ==> hex_char(b) as u32 == 48 + b);
    assert(a >= 10 ==> hex_char(a) as u32 == 87 + a);
    assert(b >= 10 ==> hex_char(b) as u32 == 87 + b);
}

/// What is shown of a byte is plain, and tells it from every other byte.
pub proof fn law_shown_bytes_are_told_apart(a: u8, b: u8)
    requires
        shown_byte(a) == shown_byte(b),
    ensures
        a == b,
        32 <= a < 127 && a != 34 && a != 39 && a != 92 ==> shown_byte(a) == seq![a as char],
        forall|i: int|
            0 <= i < shown_byte(a).len() ==> ' ' <= #[trigger] shown_byte(a)[i] && shown_byte(a)[i]
                <= '~',
{
    let x = shown_byte(a);
    let y = shown_byte(b);
    assert(x.len() == y.len());
    assert(x[0] == y[0]);
    if x.len() > 1 {
        assert(x[1] == y[1]);
    }
    if x.len() == 4 {
        assert(x[2] == y[2] && x[3] == y[3]);
        lemma_digits_differ((a / 16) as nat, (b / 16) as nat);
        lemma_digits_differ((a % 16) as nat, (b % 16) as nat);
        assert(a == (a / 16) * 16 + a % 16);
        assert(b == (b / 16) * 16 + b % 16);
    } else {
        assert((a as char) as u32 == a && (b as char) as u32 == b);
        if x.len() == 1 {
            assert(x[0] == a as char && y[0] == b as char);
            assert(a == b);
        } else {
            assert(x[1] as u32 == y[1] as u32);
            assert(a == 9 ==> x[1] == 't');
            assert(a == 10 ==> x[1] == 'n');
            assert(a == 13 ==> x[1] == 'r');
            assert(b == 9 ==> y[1] == 't');
            assert(b == 10 ==> y[1] == 'n');
            assert(b == 13 ==> y[1] == 'r');
            assert(a >= 34 ==> x[1] as u32 == a);
            assert(b >= 34 ==> y[1] as u32 == b);
            assert(a == b);
        }
    }
}

// ---------------------------------------------------------------------
// Pages of devices
// ---------------------------------------------------------------------

/// The bytes of the entries of a list: of the name of each capability, and of its fields.
pub open spec fn total_bytes(entries: Seq<DeviceState>) -> nat
    decreases entries.len(),
{
    if entries.len() == 0 {
        0
    } else {
        total_bytes(entries.drop_last()) + encode_utf8(entries.last().capability@).len()
            + entries.last().field_bytes as nat
    }
}

/// The bytes of two lists together.
proof fn lemma_total_bytes_add(a: Seq<DeviceState>, b: Seq<DeviceState>)
    ensures
        total_bytes(a + b) == total_bytes(a) + total_bytes(b),
    decreases b.len(),
{
    if b.len() == 0 {
        assert(a + b =~= a);
    } else {
        assert((a + b).drop_last() =~= a + b.drop_last());
        lemma_total_bytes_add(a, b.drop_last());
    }
}

/// The bytes of one device.
proof fn lemma_run_bytes(run: Seq<DeviceState>)
    ensures
        run_bytes(run) == total_bytes(run),
    decreases run.len(),
{
    if run.len() > 0 {
        lemma_run_bytes(run.drop_last());
    }
}

/// The size of a page counts every entry that is on it.
pub proof fn law_every_entry_counts(runs: Seq<Seq<DeviceState>>)
    ensures
        runs_bytes(runs) == total_bytes(entries_of(runs)),
    decreases runs.len(),
{
    if runs.len() > 0 {
        law_every_entry_counts(runs.drop_last());
        lemma_run_bytes(runs.last());
        lemma_total_bytes_add(entries_of(runs.drop_last()), runs.last());
    }
}

/// A page holds no more devices than asked for, and no more bytes than a mebibyte unless one
/// device alone has more. It ends before its time only where the next device would not fit.
pub proof fn law_pages_are_as_full_as_they_can_be(
    runs: Seq<Seq<DeviceState>>,
    n: int,
    limit: nat,
)
    requires
        is_page_length(runs, n, limit),
    ensures
        0 <= n <= runs.len(),
        n <= limit,
        n > 1 ==> total_bytes(entries_of(runs.take(n))) <= 1_048_576,
        n < runs.len() && n < limit ==> n >= 1 && total_bytes(entries_of(runs.take(n + 1)))
            > 1_048_576,
{
    law_every_entry_counts(runs.take(n));
    if n < runs.len() {
        law_every_entry_counts(runs.take(n + 1));
    }
}

/// Whether entries are all of one device.
pub open spec fn is_one_device(run: Seq<DeviceState>) -> bool {
    forall|i: int| 0 <= i < run.len() ==> (#[trigger] run[i]).device_id@ == run[0].device_id@
}

/// Whether two runs are of different devices.
pub open spec fn are_two_devices(a: Seq<DeviceState>, b: Seq<DeviceState>) -> bool {
    a[0].device_id@ != b[0].device_id@
}

/// A run holds the entries of one device, and the next one those of another.
pub proof fn law_runs_are_whole_devices(entries: Seq<DeviceState>)
    ensures
        forall|k: int|
            0 <= k < device_runs(entries).len() ==> is_one_device(#[trigger] device_runs(entries)[k]),
        forall|j: int, k: int|
            0 <= j && k == j + 1 && k < device_runs(entries).len() ==> #[trigger] are_two_devices(
                device_runs(entries)[j],
                device_runs(entries)[k],
            ),
    decreases entries.len(),
{
    if entries.len() > 0 {
        let init = entries.drop_last();
        let entry = entries.last();
        let before = device_runs(init);
        let runs = device_runs(entries);
        law_runs_are_whole_devices(init);
        lemma_runs_nonempty(init);
        let joins = before.len() > 0 && before.last()[0].device_id@ == entry.device_id@;
        if joins {
            assert(runs == before.drop_last().push(before.last().push(entry)));
            assert(is_one_device(before[before.len() - 1]));
        } else {
            assert(runs == before.push(seq![entry]));
        }
        assert forall|k: int| 0 <= k < runs.len() implies is_one_device(#[trigger] runs[k]) by {
            if joins && k == before.len() - 1 {
                let last = before[k];
                assert(last.len() > 0);
                assert(runs[k] == last.push(entry));
            } else if k < before.len() {
                assert(runs[k] == before[k]);
            } else {
                assert(runs[k] == seq![entry]);
            }
        }
        assert forall|j: int, k: int| 0 <= j && k == j + 1 && k < runs.len() implies #[trigger]
        are_two_devices(runs[j], runs[k]) by {
            assert(before[j].len() > 0);
            assert(runs[j] == before[j]);
            if k < before.len() {
                assert(before[k].len() > 0);
                assert(are_two_devices(before[j], before[k]));
                assert(runs[k][0] == before[k][0]);
            } else {
                assert(before[j] == before.last());
                assert(runs[k] == seq![entry]);
            }
        }
    }
}

} // verus!
