//! The sandboxed user interface of a plugin.
//!
//! A dashboard asks for a session and gets an address that carries a ticket. The page at that
//! address embeds the plugin's frame in a sandbox and hands the ticket on. Neither page asks for
//! a bearer, because a browser sends none when it opens a frame: the ticket is all there is, and
//! it is checked before anything is said about which plugins exist.

use vstd::prelude::*;
use vstd::utf8::*;

use crate::api::encode::{
    html_escape, html_escaped, is_plain_text, is_unreserved, js_escaped, js_string_escape,
    law_plain_text_stays, percent_encode_path_segment, percent_encode_query_value, percent_text,
};
use crate::api::reply::{denied_reply, plain, scope_denied, text_reply, Reply, ReplyModel};
use crate::api::scopes::{require_scope, scope_satisfied, Scope, ScopeDenied, PLUGINS_UI};
use crate::api::ui_ticket::{
    clock_of, expiry_of, hex_text, issue, law_issued_ticket_opens_its_plugin,
    law_ticket_expires, law_ticket_is_bound_to_its_plugin, ticket_mac, ticket_payload, ticket_text,
    ticket_verdict, verify, TicketError, MAX_TICKET_LEN, TICKET_TTL_MS,
};
use crate::auth::Actor;
use crate::text::{
    cat5, decimal, is_digit, lemma_decimal_len, lemma_decimal_reads_back, lemma_encode_add,
    lemma_split_head, opt_str, opt_text, split_all, split_at_each, strip_prefix, strip_prefix_of,
    texts, u64_to_decimal,
};

verus! {

/// Why a page of the interface is not shown.
#[derive(Debug)]
pub enum PluginUiError {
    Scope(ScopeDenied),
    NotFound,
    TicketBad,
    TicketExpired,
}

/// The answer to a request that failed. What concerns a ticket is never cached.
pub open spec fn ui_reply(err: PluginUiError) -> ReplyModel {
    match err {
        PluginUiError::Scope(denied) => denied_reply(denied.required@),
        PluginUiError::NotFound => ReplyModel { no_store: true, ..text_reply(404, ""@) },
        PluginUiError::TicketBad => ReplyModel { no_store: true, ..text_reply(400, BAD_TICKET_TEXT@)
        },
        PluginUiError::TicketExpired => ReplyModel {
            no_store: true,
            ..text_reply(401, EXPIRED_TICKET_TEXT@)
        },
    }
}

/// What is said of a ticket that is none.
pub const BAD_TICKET_TEXT: &'static str =
    "invalid or missing `tk` — POST /api/v1/plugins/{plugin_id}/ui-session to mint a fresh ticket";

/// What is said of a ticket whose time has passed.
pub const EXPIRED_TICKET_TEXT: &'static str =
    "ticket expired — POST /api/v1/plugins/{plugin_id}/ui-session to mint a fresh one";

impl PluginUiError {
    /// The answer to a request that failed.
    pub fn into_response(self) -> (r: Reply)
        ensures
            r@ == ui_reply(self),
    {
        let mut reply = match self {
            PluginUiError::Scope(denied) => return scope_denied(denied),
            PluginUiError::NotFound => plain(404, ""),
            PluginUiError::TicketBad => plain(400, BAD_TICKET_TEXT),
            PluginUiError::TicketExpired => plain(401, EXPIRED_TICKET_TEXT),
        };
        reply.no_store = true;
        reply
    }
}

// ---------------------------------------------------------------------
// The ticket of a request
// ---------------------------------------------------------------------

/// The value of the last `tk` among the parameters of a query, as it is written.
pub open spec fn last_ticket(parameters: Seq<Seq<char>>) -> Option<Seq<char>>
    decreases parameters.len(),
{
    if parameters.len() == 0 {
        None
    } else {
        match strip_prefix_of(parameters.last(), "tk="@) {
            Some(value) => Some(value),
            None => last_ticket(parameters.drop_last()),
        }
    }
}

/// Whether a ticket is the one that a query carries, if it carries one.
pub open spec fn is_query_ticket(
    r: Result<Option<String>, PluginUiError>,
    query: Seq<char>,
) -> bool {
    match r {
        Ok(ticket) => encode_utf8(query).len() <= MAX_TICKET_LEN + 3 && opt_text(ticket)
            == last_ticket(split_at_each(query, '&')),
        Err(e) => encode_utf8(query).len() > MAX_TICKET_LEN + 3 && e is TicketBad,
    }
}

/// The ticket of a query. A query that is longer than a ticket can be is not even taken apart.
/// The value is not decoded: every character of a ticket stands for itself.
pub fn ticket_of_query(query: &str) -> (r: Result<Option<String>, PluginUiError>)
    ensures
        is_query_ticket(r, query@),
{
    if query.as_bytes().len() > MAX_TICKET_LEN + 3 {
        return Err(PluginUiError::TicketBad);
    }
    let parameters = split_all(query, '&');
    let ghost all = texts(parameters@);
    let mut ticket: Option<String> = None;
    let mut i: usize = 0;
    assert(all.take(0) =~= Seq::<Seq<char>>::empty());
    while i < parameters.len()
        invariant
            0 <= i <= parameters.len(),
            all == texts(parameters@),
            opt_text(ticket) == last_ticket(all.take(i as int)),
        decreases parameters.len() - i,
    {
        proof {
            assert(all.take(i + 1).drop_last() =~= all.take(i as int));
            assert(all.take(i + 1).last() == parameters@[i as int]@);
        }
        if let Some(value) = strip_prefix(parameters[i].as_str(), "tk=") {
            ticket = Some(value.to_owned());
        }
        i += 1;
    }
    assert(all.take(i as int) =~= all);
    Ok(ticket)
}

// ---------------------------------------------------------------------
// What a ticket opens
// ---------------------------------------------------------------------

/// What the code of a ticket covers: a plugin together with one installation of it. The length in
/// front keeps the two apart whatever they are, and every character that is added stands for
/// itself in an address.
pub open spec fn ui_subject(plugin_id: Seq<char>, installation: Seq<char>) -> Seq<char> {
    decimal(plugin_id.len()) + "."@ + plugin_id + "."@ + installation
}

/// What the code of a ticket covers.
fn subject(plugin_id: &str, installation: &str) -> (r: String)
    ensures
        r@ == ui_subject(plugin_id@, installation@),
{
    let length = u64_to_decimal(plugin_id.unicode_len() as u64);
    cat5(length.as_str(), ".", plugin_id, ".", installation)
}

/// The ticket for the interface of an installed plugin.
pub open spec fn ui_ticket_text(
    secret: Seq<u8>,
    plugin_id: Seq<char>,
    installation: Seq<char>,
    issued_ms: i128,
) -> Seq<char> {
    ticket_text(secret, ui_subject(plugin_id, installation), expiry_of(issued_ms))
}

/// Issues a ticket for the interface of an installed plugin.
pub fn issue_ui_ticket(secret: &[u8; 32], plugin_id: &str, installation: &str, now_ms: i128) -> (r:
    String)
    ensures
        r@ == ui_ticket_text(secret@, plugin_id@, installation@, now_ms),
{
    issue(secret, subject(plugin_id, installation).as_str(), now_ms)
}

/// What becomes of a request for the interface of a plugin.
pub enum UiVerdict {
    Shown,
    NotFound,
    TicketBad,
    TicketExpired,
}

/// What a ticket has to be for to open the interface of a plugin. Nothing is installed under the
/// empty name.
pub open spec fn presented_subject(
    plugin_id: Seq<char>,
    installation: Option<Seq<char>>,
) -> Seq<char> {
    match installation {
        Some(uuid) => ui_subject(plugin_id, uuid),
        None => ui_subject(plugin_id, ""@),
    }
}

/// What becomes of a request for the interface of a plugin. `installation` is the present
/// installation of the plugin, if it is installed.
pub open spec fn ui_verdict(
    secret: Seq<u8>,
    ticket: Option<Seq<char>>,
    plugin_id: Seq<char>,
    installation: Option<Seq<char>>,
    now_ms: int,
) -> UiVerdict {
    match ticket {
        None => UiVerdict::TicketBad,
        Some(raw) => match ticket_verdict(
            secret,
            raw,
            presented_subject(plugin_id, installation),
            now_ms,
        ) {
            Err(TicketError::Bad) => UiVerdict::TicketBad,
            Err(TicketError::Expired) => UiVerdict::TicketExpired,
            Err(TicketError::WrongPlugin) => UiVerdict::NotFound,
            Ok(()) => if installation is Some {
                UiVerdict::Shown
            } else {
                UiVerdict::NotFound
            },
        },
    }
}

/// What a decision on a request comes to.
pub open spec fn verdict_of(decision: Result<(), PluginUiError>) -> Option<UiVerdict> {
    match decision {
        Ok(()) => Some(UiVerdict::Shown),
        Err(PluginUiError::NotFound) => Some(UiVerdict::NotFound),
        Err(PluginUiError::TicketBad) => Some(UiVerdict::TicketBad),
        Err(PluginUiError::TicketExpired) => Some(UiVerdict::TicketExpired),
        Err(PluginUiError::Scope(_)) => None,
    }
}

/// Whether the interface of a plugin is shown. `installation` is the present installation of the
/// plugin, if it is installed. A ticket that is good for something else, be it another plugin or
/// an earlier installation of this one, is answered as if the plugin did not exist.
pub fn admit_ui(
    secret: &[u8; 32],
    ticket: Option<&str>,
    plugin_id: &str,
    installation: Option<&str>,
    now_ms: i128,
) -> (r: Result<(), PluginUiError>)
    ensures
        verdict_of(r) == Some(
            ui_verdict(
                secret@,
                opt_str(ticket),
                plugin_id@,
                opt_str(installation),
                now_ms as int,
            ),
        ),
{
    let raw = match ticket {
        None => return Err(PluginUiError::TicketBad),
        Some(raw) => raw,
    };
    let expected = match installation {
        Some(uuid) => subject(plugin_id, uuid),
        None => subject(plugin_id, ""),
    };
    match verify(secret, raw, expected.as_str(), now_ms) {
        Err(TicketError::Bad) => Err(PluginUiError::TicketBad),
        Err(TicketError::Expired) => Err(PluginUiError::TicketExpired),
        Err(TicketError::WrongPlugin) => Err(PluginUiError::NotFound),
        Ok(()) => {
            if installation.is_some() {
                Ok(())
            } else {
                Err(PluginUiError::NotFound)
            }
        },
    }
}

/// Different plugins, and different installations of one, are never covered by one code.
proof fn lemma_subjects_differ(
    plugin_id: Seq<char>,
    installation: Seq<char>,
    other_id: Seq<char>,
    other_installation: Seq<char>,
)
    requires
        ui_subject(plugin_id, installation) == ui_subject(other_id, other_installation),
    ensures
        plugin_id == other_id,
        installation == other_installation,
{
    reveal_strlit(".");
    let a = decimal(plugin_id.len());
    let b = decimal(other_id.len());
    let rest_a = plugin_id + "."@ + installation;
    let rest_b = other_id + "."@ + other_installation;
    lemma_decimal_reads_back(plugin_id.len());
    lemma_decimal_reads_back(other_id.len());
    assert(!a.contains('.') && !b.contains('.'));
    assert(ui_subject(plugin_id, installation) =~= a.push('.') + rest_a);
    assert(ui_subject(other_id, other_installation) =~= b.push('.') + rest_b);
    lemma_split_head(a, '.', rest_a);
    lemma_split_head(b, '.', rest_b);
    assert(a == b && rest_a == rest_b);
    let n = plugin_id.len() as int;
    assert(plugin_id =~= rest_a.take(n));
    assert(other_id =~= rest_b.take(n));
    assert(installation =~= rest_a.skip(n + 1));
    assert(other_installation =~= rest_b.skip(n + 1));
}

/// What is covered by a code holds no `~` where the plugin and the installation hold none.
proof fn lemma_subject_is_plain(plugin_id: Seq<char>, installation: Seq<char>)
    requires
        !plugin_id.contains('~'),
        !installation.contains('~'),
    ensures
        !ui_subject(plugin_id, installation).contains('~'),
        ui_subject(plugin_id, installation).len() > 0,
{
    reveal_strlit(".");
    let length = decimal(plugin_id.len());
    let text = ui_subject(plugin_id, installation);
    lemma_decimal_reads_back(plugin_id.len());
    assert forall|i: int| 0 <= i < text.len() implies text[i] != '~' by {
        let n = length.len() as int;
        let m = n + 1 + plugin_id.len() as int;
        if i < n {
            assert(is_digit(length[i]));
        } else if n < i < m {
            assert(text[i] == plugin_id[i - n - 1]);
        } else if i > m {
            assert(text[i] == installation[i - m - 1]);
        }
    }
}

/// An issued ticket shows the interface of the installation that it was issued for, until it
/// expires.
pub proof fn law_ui_ticket_opens_its_installation(
    secret: Seq<u8>,
    plugin_id: Seq<char>,
    installation: Seq<char>,
    issued_ms: i128,
    now_ms: i128,
)
    requires
        secret.len() == 32,
        !plugin_id.contains('~'),
        !installation.contains('~'),
        clock_of(now_ms as int) < expiry_of(issued_ms),
    ensures
        ui_verdict(
            secret,
            Some(ui_ticket_text(secret, plugin_id, installation, issued_ms)),
            plugin_id,
            Some(installation),
            now_ms as int,
        ) == UiVerdict::Shown,
{
    lemma_subject_is_plain(plugin_id, installation);
    law_issued_ticket_opens_its_plugin(
        secret,
        ui_subject(plugin_id, installation),
        issued_ms,
        now_ms,
    );
}

/// An issued ticket shows nothing else: neither another plugin, installed or not, nor its own
/// plugin once that is gone or was installed anew. Until it expires, the answer is the one for a
/// plugin that does not exist.
pub proof fn law_ui_ticket_opens_nothing_else(
    secret: Seq<u8>,
    plugin_id: Seq<char>,
    installation: Seq<char>,
    presented_id: Seq<char>,
    present: Option<Seq<char>>,
    issued_ms: i128,
    now_ms: i128,
)
    requires
        secret.len() == 32,
        !plugin_id.contains('~'),
        !installation.contains('~'),
        presented_id != plugin_id || present != Some(installation),
    ensures
        ui_verdict(
            secret,
            Some(ui_ticket_text(secret, plugin_id, installation, issued_ms)),
            presented_id,
            present,
            now_ms as int,
        ) == (if clock_of(now_ms as int) < expiry_of(issued_ms) {
            UiVerdict::NotFound
        } else {
            UiVerdict::TicketExpired
        }),
{
    let own = ui_subject(plugin_id, installation);
    let wanted = presented_subject(presented_id, present);
    lemma_subject_is_plain(plugin_id, installation);
    if clock_of(now_ms as int) >= expiry_of(issued_ms) {
        law_ticket_expires(secret, own, wanted, issued_ms, now_ms);
    } else if own != wanted {
        law_ticket_is_bound_to_its_plugin(secret, own, wanted, issued_ms, now_ms);
    } else {
        let other_installation = match present {
            Some(uuid) => uuid,
            None => ""@,
        };
        lemma_subjects_differ(plugin_id, installation, presented_id, other_installation);
        law_issued_ticket_opens_its_plugin(secret, own, issued_ms, now_ms);
    }
}

/// After a plugin was uninstalled and installed anew, a ticket from before shows nothing of the
/// new installation.
pub proof fn law_reinstalled_plugin_needs_a_new_ticket(
    secret: Seq<u8>,
    plugin_id: Seq<char>,
    installation: Seq<char>,
    reinstalled: Seq<char>,
    issued_ms: i128,
    now_ms: i128,
)
    requires
        secret.len() == 32,
        !plugin_id.contains('~'),
        !installation.contains('~'),
        reinstalled != installation,
        clock_of(now_ms as int) < expiry_of(issued_ms),
    ensures
        ui_verdict(
            secret,
            Some(ui_ticket_text(secret, plugin_id, installation, issued_ms)),
            plugin_id,
            Some(reinstalled),
            now_ms as int,
        ) == UiVerdict::NotFound,
{
    law_ui_ticket_opens_nothing_else(
        secret,
        plugin_id,
        installation,
        plugin_id,
        Some(reinstalled),
        issued_ms,
        now_ms,
    );
}

/// Without a good ticket the answer is the same for every plugin, installed or not, so that
/// nobody learns from it which plugins there are.
pub proof fn law_bad_ticket_tells_nothing(
    secret: Seq<u8>,
    ticket: Option<Seq<char>>,
    plugin_id: Seq<char>,
    present: Option<Seq<char>>,
    other_id: Seq<char>,
    other_present: Option<Seq<char>>,
    now_ms: int,
)
    requires
        ({
            let verdict = ui_verdict(secret, ticket, plugin_id, present, now_ms);
            verdict is TicketBad || verdict is TicketExpired
        }),
    ensures
        ui_verdict(secret, ticket, plugin_id, present, now_ms) == ui_verdict(
            secret,
            ticket,
            other_id,
            other_present,
            now_ms,
        ),
{
}

// ---------------------------------------------------------------------
// Addresses
// ---------------------------------------------------------------------

/// The address of a plugin's wrapper page with a ticket.
pub open spec fn wrapper_url(plugin_id: Seq<char>, ticket: Seq<char>) -> Seq<char> {
    "/api/v1/plugins/"@ + percent_text(encode_utf8(plugin_id)) + "/ui?tk="@ + percent_text(
        encode_utf8(ticket),
    )
}

/// The address of a plugin's frame with a ticket.
pub open spec fn frame_url(plugin_id: Seq<char>, ticket: Seq<char>) -> Seq<char> {
    "/api/v1/plugins/"@ + percent_text(encode_utf8(plugin_id)) + "/ui/frame?tk="@ + percent_text(
        encode_utf8(ticket),
    )
}

/// The query of a plugin's page with a ticket.
pub open spec fn ticket_query(ticket: Seq<char>) -> Seq<char> {
    "tk="@ + percent_text(encode_utf8(ticket))
}

/// A ticket for a plugin whose name and installation stand for themselves in an address does so
/// too.
proof fn lemma_ui_ticket_is_plain(
    secret: Seq<u8>,
    plugin_id: Seq<char>,
    installation: Seq<char>,
    issued_ms: i128,
)
    requires
        secret.len() == 32,
        is_plain_text(plugin_id),
        is_plain_text(installation),
    ensures
        is_plain_text(ui_ticket_text(secret, plugin_id, installation, issued_ms)),
{
    reveal_strlit(".");
    reveal_strlit("~");
    let expiry = decimal(expiry_of(issued_ms) as nat);
    let length = decimal(plugin_id.len());
    let subject = ui_subject(plugin_id, installation);
    let code = ticket_mac(secret, expiry, subject);
    lemma_decimal_is_plain(expiry_of(issued_ms) as nat);
    lemma_decimal_is_plain(plugin_id.len());
    lemma_plain_parts(length, "."@);
    lemma_plain_parts(length + "."@, plugin_id);
    lemma_plain_parts(length + "."@ + plugin_id, "."@);
    lemma_plain_parts(length + "."@ + plugin_id + "."@, installation);
    lemma_plain_parts(expiry, "~"@);
    lemma_plain_parts(expiry + "~"@, subject);
    lemma_plain_parts(ticket_payload(expiry, subject), "~"@);
    assert(is_plain_text(hex_text(code)));
    lemma_plain_parts(ticket_payload(expiry, subject) + "~"@, hex_text(code));
}

/// The decimal writing of a number stands for itself in an address.
proof fn lemma_decimal_is_plain(n: nat)
    ensures
        is_plain_text(decimal(n)),
{
    lemma_decimal_reads_back(n);
    assert forall|i: int| 0 <= i < decimal(n).len() implies '0' <= #[trigger] decimal(n)[i]
        <= '9' by {
        assert(is_digit(decimal(n)[i]));
    }
}

/// Two texts that stand for themselves do so one after the other.
proof fn lemma_plain_parts(a: Seq<char>, b: Seq<char>)
    requires
        is_plain_text(a),
        is_plain_text(b),
    ensures
        is_plain_text(a + b),
{
    let text = a + b;
    assert forall|i: int| 0 <= i < text.len() implies '\0' <= #[trigger] text[i] <= '\u{7f}'
        && is_unreserved(text[i] as u8) by {
        if i < a.len() {
            assert(text[i] == a[i]);
        } else {
            assert(text[i] == b[i - a.len()]);
        }
    }
}

/// The length of a ticket for a plugin.
proof fn lemma_ui_ticket_len(
    secret: Seq<u8>,
    plugin_id: Seq<char>,
    installation: Seq<char>,
    issued_ms: i128,
)
    requires
        secret.len() == 32,
        plugin_id.len() + installation.len() <= 450,
    ensures
        ui_ticket_text(secret, plugin_id, installation, issued_ms).len() <= MAX_TICKET_LEN,
{
    reveal_strlit(".");
    reveal_strlit("~");
    let expiry = decimal(expiry_of(issued_ms) as nat);
    let code = ticket_mac(secret, expiry, ui_subject(plugin_id, installation));
    lemma_decimal_len(expiry_of(issued_ms) as nat);
    lemma_decimal_len(plugin_id.len());
    assert(hex_text(code).len() == 32);
}

/// The address that a session hands out carries its ticket: the page that is opened under it
/// finds the ticket in its query as it was issued. Where the plugin and the installation together
/// have no more than 450 characters, the query is short enough to be looked at.
pub proof fn law_session_address_carries_its_ticket(
    secret: Seq<u8>,
    plugin_id: Seq<char>,
    installation: Seq<char>,
    issued_ms: i128,
)
    requires
        secret.len() == 32,
        is_plain_text(plugin_id),
        is_plain_text(installation),
    ensures
        ({
            let ticket = ui_ticket_text(secret, plugin_id, installation, issued_ms);
            let page = "/api/v1/plugins/"@ + percent_text(encode_utf8(plugin_id)) + "/ui?"@;
            let frame = "/api/v1/plugins/"@ + percent_text(encode_utf8(plugin_id)) + "/ui/frame?"@;
            &&& wrapper_url(plugin_id, ticket) == page + ticket_query(ticket)
            &&& frame_url(plugin_id, ticket) == frame + ticket_query(ticket)
            &&& last_ticket(split_at_each(ticket_query(ticket), '&')) == Some(ticket)
            &&& plugin_id.len() + installation.len() <= 450 ==> encode_utf8(
                ticket_query(ticket),
            ).len() <= MAX_TICKET_LEN + 3
        }),
{
    reveal_strlit("tk=");
    reveal_strlit("/ui?");
    reveal_strlit("/ui?tk=");
    reveal_strlit("/ui/frame?");
    reveal_strlit("/ui/frame?tk=");
    let ticket = ui_ticket_text(secret, plugin_id, installation, issued_ms);
    let query = ticket_query(ticket);
    lemma_ui_ticket_is_plain(secret, plugin_id, installation, issued_ms);
    law_plain_text_stays(ticket);
    assert(query == "tk="@ + ticket);
    assert forall|i: int| 0 <= i < query.len() implies query[i] != '&' by {
        if i >= 3 {
            assert(query[i] == ticket[i - 3]);
        }
    }
    if plugin_id.len() + installation.len() <= 450 {
        lemma_ui_ticket_len(secret, plugin_id, installation, issued_ms);
        assert(is_ascii_chars("tk="@));
        is_ascii_chars_encode_utf8("tk="@);
        is_ascii_chars_encode_utf8(ticket);
        lemma_encode_add("tk="@, ticket);
    }
    query.index_of_first_ensures('&');
    assert(split_at_each(query, '&') =~= seq![query]);
    assert(seq![query].last() == query);
    assert(query.skip(3) =~= ticket);
    assert(query.take(3) =~= "tk="@);
    assert(strip_prefix_of(query, "tk="@) == Some(ticket));
    assert("/ui?tk="@ =~= "/ui?"@ + "tk="@);
    assert("/ui/frame?tk="@ =~= "/ui/frame?"@ + "tk="@);
    let id = percent_text(encode_utf8(plugin_id));
    assert(wrapper_url(plugin_id, ticket) =~= "/api/v1/plugins/"@ + id + "/ui?"@ + query);
    assert(frame_url(plugin_id, ticket) =~= "/api/v1/plugins/"@ + id + "/ui/frame?"@ + query);
}

/// Whether a check is the one of a caller who asks for a session.
pub open spec fn is_session_check(
    r: Result<(), PluginUiError>,
    held: Seq<Seq<char>>,
    installed: bool,
) -> bool {
    if !scope_satisfied(PLUGINS_UI@, held) {
        r matches Err(PluginUiError::Scope(denied)) && denied.required@ == PLUGINS_UI@
    } else if !installed {
        r matches Err(PluginUiError::NotFound)
    } else {
        r is Ok
    }
}

/// Whether a session may be opened for a caller.
pub fn check_ui_session(actor: &Actor, installed: bool) -> (r: Result<(), PluginUiError>)
    ensures
        is_session_check(r, actor@.scopes, installed),
{
    if let Err(denied) = require_scope(actor, Scope::new(PLUGINS_UI)) {
        return Err(PluginUiError::Scope(denied));
    }
    if installed {
        Ok(())
    } else {
        Err(PluginUiError::NotFound)
    }
}

/// A session that was opened for a dashboard.
#[derive(Debug)]
pub struct UiSession {
    /// The address to open in a frame.
    pub url: String,
    /// When its ticket expires.
    pub expires_ms: u64,
}

/// Whether a session is the one that a ticket opens.
pub open spec fn is_ui_session(
    r: UiSession,
    plugin_id: Seq<char>,
    ticket: Seq<char>,
    now_ms: i128,
) -> bool {
    &&& r.url@ == wrapper_url(plugin_id, ticket)
    &&& r.expires_ms == (if 0 <= now_ms + TICKET_TTL_MS <= u64::MAX {
        (now_ms + TICKET_TTL_MS) as u64
    } else {
        0
    })
}

/// The session for a freshly issued ticket.
pub fn ui_session(plugin_id: &str, ticket: &str, now_ms: i128) -> (r: UiSession)
    ensures
        is_ui_session(r, plugin_id@, ticket@, now_ms),
{
    let mut url = "/api/v1/plugins/".to_owned();
    url.append(percent_encode_path_segment(plugin_id).as_str());
    url.append("/ui?tk=");
    url.append(percent_encode_query_value(ticket).as_str());
    let expires_ms: u64 = match now_ms.checked_add(TICKET_TTL_MS as i128) {
        Some(end) => {
            if 0 <= end && end <= u64::MAX as i128 {
                end as u64
            } else {
                0
            }
        },
        None => 0,
    };
    UiSession { url, expires_ms }
}

// ---------------------------------------------------------------------
// Pages
// ---------------------------------------------------------------------

/// A page with the headers that go with it.
#[derive(Debug)]
pub struct UiPage {
    pub status: u16,
    pub body: String,
    pub content_type: &'static str,
    pub security_policy: &'static str,
    pub type_options: &'static str,
    pub frame_options: &'static str,
    pub cache_control: &'static str,
}

/// The wrapper page up to the address of the frame.
pub const WRAPPER_HEAD: &'static str =
    "<!DOCTYPE html>\n<html lang=\"en\">\n<head>\n<meta charset=\"utf-8\">\n<title>plugin ui</title>\n</head>\n<body>\n<iframe\n  id=\"oxidhome-plugin-frame\"\n  sandbox=\"allow-scripts allow-forms\"\n  src=\"";

/// The wrapper page from the address of the frame to the plugin id.
pub const WRAPPER_MIDDLE: &'static str =
    "\"\n  style=\"border:0;width:100%;height:100vh\"\n></iframe>\n<script>\n  // C6 typed postMessage broker. Bound to the iframe's\n  // *exact* MessagePort object, transferred at load time;\n  // NOT to event.origin (opaque-origin iframes all report\n  // origin: \"null\", so origin can't disambiguate plugins).\n  (function () {\n    var iframe = document.getElementById(\"oxidhome-plugin-frame\");\n    iframe.addEventListener(\"load\", function () {\n      var channel = new MessageChannel();\n      // port1 stays with the host page; port2 is transferred\n      // to the sandboxed iframe. All subsequent host <->\n      // plugin traffic flows on this dedicated pair — each\n      // plugin's iframe holds its own port and cannot reach\n      // any other plugin's channel.\n      channel.port1.onmessage = function (event) {\n        // TODO(phase-13): route typed message envelopes to\n        // the per-plugin capability dispatcher. First-cut\n        // shape: {\"type\": \"state.snapshot\" | ..., \"req\": <id>, ...}.\n        // Every message is bound to `iframe.contentWindow` by\n        // *arriving on this specific port*, so per-plugin\n        // capability enforcement is trivial: port ⇒ plugin.\n      };\n      iframe.contentWindow.postMessage(\n        { type: \"oxidhome:init\", plugin_id: \"";

/// The wrapper page after the plugin id.
pub const WRAPPER_TAIL: &'static str =
    "\" },\n        \"*\",\n        [channel.port2],\n      );\n    });\n  })();\n</script>\n</body>\n</html>\n";

/// What the wrapper page may load: its frame and its own script and style.
pub const WRAPPER_POLICY: &'static str =
    "default-src 'none'; frame-src 'self'; script-src 'unsafe-inline'; style-src 'unsafe-inline'";

/// The wrapper page of a plugin.
pub open spec fn wrapper_page(plugin_id: Seq<char>, ticket: Seq<char>) -> Seq<char> {
    WRAPPER_HEAD@ + html_escaped(frame_url(plugin_id, ticket)) + WRAPPER_MIDDLE@ + js_escaped(
        plugin_id,
    ) + WRAPPER_TAIL@
}

/// Whether a page is the one round the frame of a plugin.
pub open spec fn is_wrapper_page(r: UiPage, plugin_id: Seq<char>, ticket: Seq<char>) -> bool {
    &&& r.status == 200
    &&& r.body@ == wrapper_page(plugin_id, ticket)
    &&& r.content_type@ == "text/html; charset=utf-8"@
    &&& r.security_policy@ == WRAPPER_POLICY@
    &&& r.type_options@ == "nosniff"@
    &&& r.frame_options@ == "SAMEORIGIN"@
    &&& r.cache_control@ == "no-store"@
}

/// The wrapper page: the plugin's frame in a sandbox of its own.
pub fn plugin_ui_page(plugin_id: &str, ticket: &str) -> (r: UiPage)
    ensures
        is_wrapper_page(r, plugin_id@, ticket@),
{
    let mut src = "/api/v1/plugins/".to_owned();
    src.append(percent_encode_path_segment(plugin_id).as_str());
    src.append("/ui/frame?tk=");
    src.append(percent_encode_query_value(ticket).as_str());
    let mut body = WRAPPER_HEAD.to_owned();
    body.append(html_escape(src.as_str()).as_str());
    body.append(WRAPPER_MIDDLE);
    body.append(js_string_escape(plugin_id).as_str());
    body.append(WRAPPER_TAIL);
    UiPage {
        status: 200,
        body,
        content_type: "text/html; charset=utf-8",
        security_policy: WRAPPER_POLICY,
        type_options: "nosniff",
        frame_options: "SAMEORIGIN",
        cache_control: "no-store",
    }
}

/// Whether a page is the one that stands in the frame.
pub open spec fn is_frame_page(r: UiPage) -> bool {
    &&& r.status == 501
    &&& r.body@ == "plugin UI assets are a Phase 13 follow-up"@
    &&& r.content_type@ == "text/plain; charset=utf-8"@
    &&& r.security_policy@ == "default-src 'none'"@
    &&& r.type_options@ == "nosniff"@
    &&& r.frame_options@ == "SAMEORIGIN"@
    &&& r.cache_control@ == "no-store"@
}

/// The frame of a plugin. No plugin ships files for it yet.
pub fn plugin_ui_frame() -> (r: UiPage)
    ensures
        is_frame_page(r),
{
    UiPage {
        status: 501,
        body: "plugin UI assets are a Phase 13 follow-up".to_owned(),
        content_type: "text/plain; charset=utf-8",
        security_policy: "default-src 'none'",
        type_options: "nosniff",
        frame_options: "SAMEORIGIN",
        cache_control: "no-store",
    }
}

} // verus!
