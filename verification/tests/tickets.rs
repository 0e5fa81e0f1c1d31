//! Tickets for plugin pages, and the pages themselves.

use oxidhome_core::api::encode::{
    html_escape, is_url_unreserved, js_string_escape, percent_decode_segment,
    percent_encode_path_segment, percent_encode_query_value,
};
use oxidhome_core::api::reply::Body;
use oxidhome_core::api::ui::{
    admit_ui, check_ui_session, issue_ui_ticket, plugin_ui_frame, plugin_ui_page, ticket_of_query,
    ui_session, PluginUiError, BAD_TICKET_TEXT, EXPIRED_TICKET_TEXT,
};
use oxidhome_core::api::ui_ticket::{
    constant_time_eq, expiry_after, hmac_sha256, issue, verify, TicketError, MAX_TICKET_LEN,
    TICKET_TTL_MS,
};
use oxidhome_core::auth::Actor;

const NOW_MS: i128 = 1_700_000_000_000;

fn secret() -> [u8; 32] {
    [0x5a; 32]
}

#[test]
fn issued_ticket_verifies_for_same_plugin_id() {
    let t = issue(&secret(), "com.example.foo", NOW_MS);
    verify(&secret(), &t, "com.example.foo", NOW_MS).expect("fresh ticket verifies");
}

#[test]
fn ticket_rejects_wrong_plugin() {
    let t = issue(&secret(), "com.example.foo", NOW_MS);
    assert_eq!(
        verify(&secret(), &t, "com.example.bar", NOW_MS),
        Err(TicketError::WrongPlugin),
    );
}

#[test]
fn ticket_rejects_expired() {
    let t = issue(&secret(), "com.example.foo", NOW_MS);
    let later = NOW_MS + i128::from(TICKET_TTL_MS) + 1_000;
    assert_eq!(
        verify(&secret(), &t, "com.example.foo", later),
        Err(TicketError::Expired),
    );
}

#[test]
fn ticket_rejects_tampered_mac() {
    let t = issue(&secret(), "com.example.foo", NOW_MS);
    let mut chars: Vec<char> = t.chars().collect();
    let last = chars.len() - 1;
    chars[last] = if chars[last] == '0' { '1' } else { '0' };
    let tampered: String = chars.into_iter().collect();
    assert_eq!(
        verify(&secret(), &tampered, "com.example.foo", NOW_MS),
        Err(TicketError::Bad),
    );
}

#[test]
fn ticket_rejects_wrong_secret() {
    let t = issue(&secret(), "com.example.foo", NOW_MS);
    let other_secret = [0xa5; 32];
    assert_eq!(
        verify(&other_secret, &t, "com.example.foo", NOW_MS),
        Err(TicketError::Bad),
    );
}

#[test]
fn ticket_rejects_malformed_shapes() {
    assert_eq!(verify(&secret(), "", "id", NOW_MS), Err(TicketError::Bad));
    assert_eq!(verify(&secret(), "a~b", "id", NOW_MS), Err(TicketError::Bad));
    assert_eq!(
        verify(
            &secret(),
            "notdigits~id~00000000000000000000000000000000",
            "id",
            NOW_MS
        ),
        Err(TicketError::Bad),
    );
    assert_eq!(
        verify(&secret(), "1~id~short", "id", NOW_MS),
        Err(TicketError::Bad),
    );
}

#[test]
fn ticket_lives_up_to_its_last_millisecond() {
    let t = issue(&secret(), "p", NOW_MS);
    let expiry = i128::from(expiry_after(NOW_MS));
    assert_eq!(expiry, NOW_MS + 300_000);
    assert_eq!(verify(&secret(), &t, "p", expiry - 1), Ok(()));
    assert_eq!(verify(&secret(), &t, "p", expiry + 1), Err(TicketError::Expired));
}

#[test]
fn ticket_starts_with_its_expiry_and_plugin() {
    let t = issue(&secret(), "com.example.foo", NOW_MS);
    let parts: Vec<&str> = t.split('~').collect();
    assert_eq!(parts.len(), 3);
    assert_eq!(parts[0], "1700000300000");
    assert_eq!(parts[1], "com.example.foo");
    assert!(parts[2].chars().all(|c| c.is_ascii_hexdigit()));
}

#[test]
fn message_code_matches_a_known_value() {
    let mut key = [0u8; 32];
    key[..4].copy_from_slice(b"Jefe");
    let mac = hmac_sha256(&key, b"what do ya want for nothing?");
    let hex: String = mac.iter().map(|b| format!("{b:02x}")).collect();
    assert_eq!(
        hex,
        "5bdcc146bf60754e6a042426089575c75a003f089d2739839dec58b964ec3843"
    );
}

#[test]
fn byte_strings_are_compared_whole() {
    assert!(constant_time_eq(b"abc", b"abc"));
    assert!(constant_time_eq(b"", b""));
    assert!(!constant_time_eq(b"abc", b"abd"));
    assert!(!constant_time_eq(b"abc", b"ab"));
}

#[test]
fn clock_before_the_epoch_still_gives_an_expiry() {
    assert_eq!(expiry_after(-1), 299_999);
    assert_eq!(expiry_after(-300_001), 0);
    assert_eq!(expiry_after(0), 300_000);
}

#[test]
fn decodes_space_and_slash() {
    assert_eq!(
        percent_decode_segment("front%20door.jpg").unwrap(),
        "front door.jpg",
    );
    assert_eq!(
        percent_decode_segment("folder%2Fsnap.jpg").unwrap(),
        "folder/snap.jpg",
    );
}

#[test]
fn plus_is_literal_not_space() {
    assert_eq!(percent_decode_segment("a+b").unwrap(), "a+b");
}

#[test]
fn accepts_mixed_case_hex() {
    assert_eq!(percent_decode_segment("%3a%3A").unwrap(), "::");
}

#[test]
fn rejects_truncated_escape() {
    assert!(percent_decode_segment("bad%2").is_err());
    assert!(percent_decode_segment("bad%").is_err());
}

#[test]
fn rejects_invalid_hex() {
    assert!(percent_decode_segment("bad%GG").is_err());
}

#[test]
fn rejects_invalid_utf8_result() {
    assert!(percent_decode_segment("bad%FF").is_err());
}

#[test]
fn percent_encoding_reads_back() {
    assert_eq!(percent_encode_path_segment("a b/é~"), "a%20b%2F%C3%A9~");
    assert_eq!(percent_encode_query_value("a&b=c"), "a%26b%3Dc");
    for text in ["", "com.example.foo", "a b/é~%", "日本"] {
        let encoded = percent_encode_path_segment(text);
        assert!(encoded.bytes().all(|b| b == b'%' || is_url_unreserved(b)));
        assert_eq!(percent_decode_segment(&encoded).unwrap(), text);
    }
}

#[test]
fn markup_and_script_texts_are_escaped() {
    assert_eq!(html_escape("<a href=\"x\">&'"), "&lt;a href=&quot;x&quot;&gt;&amp;&#39;");
    assert_eq!(html_escape("plain é"), "plain é");
    assert_eq!(
        js_string_escape("a\"b\\c\r\n</b>&'"),
        "a\\\"b\\\\c\\r\\n\\u003c/b\\u003e\\u0026\\'"
    );
}

#[test]
fn query_without_ticket_has_none() {
    assert!(ticket_of_query("").unwrap().is_none());
    assert!(ticket_of_query("other=1").unwrap().is_none());
}

#[test]
fn query_ticket_is_read() {
    assert_eq!(ticket_of_query("tk=abc").unwrap().as_deref(), Some("abc"));
    let longest = "x".repeat(MAX_TICKET_LEN);
    let query = format!("tk={longest}");
    assert_eq!(ticket_of_query(&query).unwrap(), Some(longest));
    assert!(matches!(
        ticket_of_query(&format!("{query}x")),
        Err(PluginUiError::TicketBad)
    ));
}

#[test]
fn pages_open_with_a_fitting_ticket_only() {
    let t = issue_ui_ticket(&secret(), "p", "u-1", NOW_MS);
    let open_page = |ticket: Option<&str>, plugin: &str, installation: Option<&str>, now: i128| {
        admit_ui(&secret(), ticket, plugin, installation, now)
    };
    assert!(open_page(Some(&t), "p", Some("u-1"), NOW_MS).is_ok());
    assert!(matches!(
        open_page(Some(&t), "q", Some("u-1"), NOW_MS),
        Err(PluginUiError::NotFound)
    ));
    assert!(matches!(
        open_page(Some(&t), "p", None, NOW_MS),
        Err(PluginUiError::NotFound)
    ));
    let later = NOW_MS + i128::from(TICKET_TTL_MS) + 1;
    assert!(matches!(
        open_page(Some(&t), "p", Some("u-1"), later),
        Err(PluginUiError::TicketExpired)
    ));
    assert!(matches!(
        open_page(Some("1~p~ff"), "p", None, NOW_MS),
        Err(PluginUiError::TicketBad)
    ));
    assert!(matches!(
        open_page(None, "p", None, NOW_MS),
        Err(PluginUiError::TicketBad)
    ));
    let bare = issue(&secret(), "p", NOW_MS);
    assert!(matches!(
        open_page(Some(&bare), "p", Some("u-1"), NOW_MS),
        Err(PluginUiError::NotFound)
    ));
}

#[test]
fn reinstalled_plugins_need_a_new_ticket() {
    let old = issue_ui_ticket(&secret(), "p", "u-1", NOW_MS);
    assert!(matches!(
        admit_ui(&secret(), Some(&old), "p", Some("u-2"), NOW_MS),
        Err(PluginUiError::NotFound)
    ));
    let new = issue_ui_ticket(&secret(), "p", "u-2", NOW_MS);
    assert!(admit_ui(&secret(), Some(&new), "p", Some("u-2"), NOW_MS).is_ok());
}

#[test]
fn session_addresses_carry_their_ticket() {
    let ticket = issue_ui_ticket(&secret(), "com.example.foo", "inst-0af3", NOW_MS);
    let session = ui_session("com.example.foo", &ticket, NOW_MS);
    let (path, query) = session.url.split_once('?').expect("query");
    assert_eq!(path, "/api/v1/plugins/com.example.foo/ui");
    let found = ticket_of_query(query).expect("query");
    assert_eq!(found.as_deref(), Some(ticket.as_str()));
    let shown = admit_ui(
        &secret(),
        found.as_deref(),
        "com.example.foo",
        Some("inst-0af3"),
        NOW_MS,
    );
    assert!(shown.is_ok());
    let page = plugin_ui_page("com.example.foo", &ticket);
    assert!(page.body.contains(&format!("/ui/frame?tk={ticket}")));
}

#[test]
fn issued_tickets_fit_the_query() {
    let plugin = "p".repeat(400);
    let installation = "u".repeat(50);
    let ticket = issue_ui_ticket(&secret(), &plugin, &installation, i128::from(u64::MAX));
    let session = ui_session(&plugin, &ticket, NOW_MS);
    let (_, query) = session.url.split_once('?').expect("query");
    assert_eq!(ticket_of_query(query).expect("query"), Some(ticket));
}

#[test]
fn plugin_and_installation_are_told_apart() {
    let t = issue_ui_ticket(&secret(), "a.b", "c", NOW_MS);
    assert!(admit_ui(&secret(), Some(&t), "a.b", Some("c"), NOW_MS).is_ok());
    assert!(admit_ui(&secret(), Some(&t), "a", Some("b.c"), NOW_MS).is_err());
}

#[test]
fn expired_tickets_are_expired_for_every_plugin() {
    let t = issue(&secret(), "com.example.foo", NOW_MS);
    let later = NOW_MS + i128::from(TICKET_TTL_MS) + 1_000;
    assert_eq!(
        verify(&secret(), &t, "com.example.bar", later),
        Err(TicketError::Expired),
    );
    let ui = issue_ui_ticket(&secret(), "p", "u-1", NOW_MS);
    assert!(matches!(
        admit_ui(&secret(), Some(&ui), "q", Some("u-9"), later),
        Err(PluginUiError::TicketExpired)
    ));
}

#[test]
fn codes_are_written_in_hexadecimal_digits() {
    // Some ticket has a code with a pair `0x`, which `+x` must not stand for.
    let mut tried = false;
    for step in 0..500i128 {
        let t = issue(&secret(), "p", NOW_MS + step);
        let code = t.rfind('~').expect("code") + 1;
        let pair = (code..t.len()).step_by(2).find(|i| t.as_bytes()[*i] == b'0');
        if let Some(at) = pair {
            let mut signed = t.clone();
            signed.replace_range(at..at + 1, "+");
            assert_eq!(verify(&secret(), &t, "p", NOW_MS), Ok(()));
            assert_eq!(verify(&secret(), &signed, "p", NOW_MS), Err(TicketError::Bad));
            tried = true;
        }
    }
    assert!(tried);
    let t = issue(&secret(), "p", NOW_MS);
    assert_eq!(verify(&secret(), &format!("+{t}"), "p", NOW_MS), Err(TicketError::Bad));
}

#[test]
fn refused_pages_answer_alike() {
    let bad = PluginUiError::TicketBad.into_response();
    assert_eq!(bad.status, 400);
    assert!(bad.no_store);
    assert!(matches!(bad.body, Body::Text(t) if t == BAD_TICKET_TEXT));
    let expired = PluginUiError::TicketExpired.into_response();
    assert_eq!(expired.status, 401);
    assert!(matches!(expired.body, Body::Text(t) if t == EXPIRED_TICKET_TEXT));
    assert_eq!(PluginUiError::NotFound.into_response().status, 404);
}

#[test]
fn session_links_to_its_page() {
    let session = ui_session("a/b", "1~a~ff", NOW_MS);
    assert!(session.url.contains("a%2Fb"));
    assert!(session.url.contains("tk=1~a~ff"));
    assert_eq!(session.expires_ms, 1_700_000_300_000);
}

#[test]
fn page_shows_a_sandboxed_frame() {
    let page = plugin_ui_page("a\"b", "1~a~ff");
    assert_eq!(page.status, 200);
    assert!(page.body.contains("sandbox=\"allow-scripts allow-forms\""));
    assert!(page.body.contains("(phase-13): route typed message envelopes to\n"));
    assert!(page.body.starts_with("<!DOCTYPE html>\n<html lang=\"en\">\n"));
    assert!(page.body.ends_with("  })();\n</script>\n</body>\n</html>\n"));
    assert!(!page.body.contains("a\"b"));
    assert!(page.cache_control.contains("no-store"));
    let frame = plugin_ui_frame();
    assert_eq!(frame.type_options, "nosniff");
}

#[test]
fn sessions_are_for_installed_plugins() {
    let admin = Actor::api("a", vec!["*".to_string()]);
    let nobody = Actor::api("n", vec![]);
    assert!(check_ui_session(&admin, true).is_ok());
    assert!(matches!(check_ui_session(&admin, false), Err(PluginUiError::NotFound)));
    let denied = check_ui_session(&nobody, true).expect_err("no scope").into_response();
    assert_eq!(denied.status, 403);
    assert_eq!(denied.denied_scope, Some("plugins:ui"));
    assert!(!denied.no_store);
}
