//! The resources of the MCP surface.

use std::io::Write;

use oxidhome_core::api::mcp::contents::{
    blob_address, blob_installation, blob_outcome, blob_slot, devices_detail, encode,
    encode_body_capped, events_failure, logs_failure, plugins_detail, plugins_detail_body,
    status_ok, BlobOwner, BlobRead, BlobSlot, CappedWriter, DeviceDetail, EncodeEnd, EncodedBody,
    InstalledDetail, InstanceRow, PingEnd, StoreFailure, BLOB_ENVELOPE_OVERHEAD_BYTES,
    BLOB_INLINE_MAX_BYTES, MAX_BLOB_BODY_BYTES, MAX_BLOB_MIME_BYTES, MAX_TEXT_BODY_BYTES,
    MAX_TOOL_BODY_BYTES,
};
use oxidhome_core::api::mcp::error::{
    INTERNAL_ERROR_CODE, RESOURCE_BUSY_CODE, RESOURCE_NOT_FOUND_CODE, RESOURCE_TOO_LARGE_CODE,
    SCOPE_DENIED_CODE,
};
use oxidhome_core::api::mcp::filters::{
    parse_duration_ms, parse_query, plan_events_read, plan_logs_read, ROWS_MAX,
};
use oxidhome_core::api::mcp::resources::{
    audit_queue_full, finish_read, list_resource_templates, list_resources, new_audit_entry, route,
    start_read, Contents, LedgerWrite, ReadOutcome, ReadStart, ResourceKind, Route,
};
use oxidhome_core::api::mcp::server::MAX_RESPONSE_BODY_BYTES;
use oxidhome_core::auth::Actor;
use oxidhome_core::state::{LogLevel, TopicMatch};

#[test]
fn accepts_all_known_units() {
    assert_eq!(parse_duration_ms("30s").unwrap(), 30_000);
    assert_eq!(parse_duration_ms("5m").unwrap(), 300_000);
    assert_eq!(parse_duration_ms("2h").unwrap(), 7_200_000);
    assert_eq!(parse_duration_ms("1d").unwrap(), 86_400_000);
}

#[test]
fn rejects_non_ascii_suffix_without_panicking() {
    let err = parse_duration_ms("é").expect_err("must reject non-ASCII unit");
    assert!(err.contains("é"), "error must name the bad unit; got {err}");
}

#[test]
fn rejects_multi_byte_unit_after_digits() {
    let err = parse_duration_ms("1é").expect_err("must reject non-ASCII unit");
    assert!(err.contains("é"), "error must name the bad unit; got {err}");
}

#[test]
fn rejects_durations_without_number_or_unit() {
    assert!(parse_duration_ms("").is_err());
    assert!(parse_duration_ms("s").is_err());
    assert!(parse_duration_ms("12").is_err());
    assert!(parse_duration_ms("1w").is_err());
    assert!(parse_duration_ms("9223372036854775807d").is_err());
}

#[test]
fn rejects_signed_durations() {
    for signed in ["+5s", "-5s", "-0s", "++5s", "5 s"] {
        assert!(parse_duration_ms(signed).is_err(), "{signed}");
    }
    assert_eq!(parse_duration_ms("0s").unwrap(), 0);
    assert_eq!(parse_duration_ms("005s").unwrap(), 5_000);
}

#[test]
fn percent_decodes_values() {
    let q = parse_query("plugin=oxidhome_core%3A%3Aruntime").expect("parse ok");
    assert_eq!(
        q.get("plugin").map(String::as_str),
        Some("oxidhome_core::runtime"),
        "value must be percent-decoded before storage lookup; got {q:?}",
    );
}

#[test]
fn percent_decodes_keys_too() {
    let q = parse_query("%74opic=alarm").expect("parse ok");
    assert_eq!(q.get("topic").map(String::as_str), Some("alarm"));
}

#[test]
fn plus_decodes_to_space() {
    let q = parse_query("target=one+two").expect("parse ok");
    assert_eq!(q.get("target").map(String::as_str), Some("one two"));
}

#[test]
fn multiple_values_last_wins() {
    let q = parse_query("device=a&device=b").expect("parse ok");
    assert_eq!(q.get("device").map(String::as_str), Some("b"));
}

#[test]
fn empty_query_is_ok() {
    assert!(parse_query("").expect("parse ok").is_empty());
}

#[test]
fn event_filters_become_a_query() {
    let (query, limit) = plan_events_read(
        "since=1m&device=d&topic_prefix=auto.&after_id=7&limit=20",
        100_000,
    )
    .expect("plan");
    assert_eq!(query.since_ms, Some(40_000));
    assert_eq!(query.until_ms, None);
    assert_eq!(query.device_id.as_deref(), Some("d"));
    assert_eq!(query.topic, Some(("auto.".to_string(), TopicMatch::Prefix)));
    assert_eq!(query.after_id, Some(7));
    assert_eq!(limit, 20);
}

#[test]
fn rows_are_bounded() {
    assert_eq!(plan_events_read("", 0).unwrap().1, ROWS_MAX as usize);
    assert_eq!(plan_events_read("limit=0", 0).unwrap().1, 1);
    assert_eq!(plan_events_read("limit=5000", 0).unwrap().1, 100);
    assert!(plan_events_read("limit=x", 0).is_err());
}

#[test]
fn unknown_filters_are_refused() {
    let err = plan_events_read("colour=red", 0).expect_err("unknown filter");
    assert!(err.contains("colour"));
    assert!(plan_logs_read("topic=x", 0).is_err());
    assert!(plan_events_read("level=Info", 0).is_err());
}

#[test]
fn log_filters_become_a_query() {
    let (query, limit) = plan_logs_read("level=Warn&target=a&limit=3&until=1s", 5_000).expect("plan");
    assert_eq!(query.min_level, Some(LogLevel::Warn));
    assert_eq!(query.target.as_deref(), Some("a"));
    assert_eq!(query.until_ms, Some(4_000));
    assert_eq!(limit, 3);
    assert!(plan_logs_read("level=loud", 0).is_err());
}

#[test]
fn too_large_maps_to_413_and_dedicated_code() {
    let outcome = ReadOutcome::TooLarge("blob too big".into());
    assert_eq!(outcome.status(), 413);
    assert_eq!(outcome.decision(), "deny");
    assert!(outcome.required_scope().is_none());

    let err = outcome
        .into_result("oxidhome://blobs/foo/bar")
        .expect_err("TooLarge must surface as an Err");
    assert_eq!(err.code, RESOURCE_TOO_LARGE_CODE);
    assert!(
        err.message.contains("blob too big"),
        "reason must reach the caller: {err:?}",
    );
}

#[test]
fn busy_maps_to_503_and_dedicated_code() {
    let outcome = ReadOutcome::Busy("too many concurrent reads".into());
    assert_eq!(outcome.status(), 503);
    assert_eq!(outcome.decision(), "error");
    assert!(outcome.required_scope().is_none());

    let err = outcome
        .into_result("oxidhome://blobs/foo/bar")
        .expect_err("Busy must surface as an Err");
    assert_eq!(err.code, RESOURCE_BUSY_CODE);
    assert!(
        err.message.contains("too many concurrent reads"),
        "reason must reach the caller: {err:?}",
    );
}

struct Sink(CappedWriter);

impl Write for Sink {
    fn write(&mut self, chunk: &[u8]) -> std::io::Result<usize> {
        self.0
            .write(chunk)
            .map_err(|_| std::io::Error::from(std::io::ErrorKind::WriteZero))
    }

    fn flush(&mut self) -> std::io::Result<()> {
        Ok(())
    }
}

fn serialize(text: &str, cap: usize) -> EncodeEnd {
    let mut sink = Sink(CappedWriter::with_cap(cap));
    match serde_json::to_writer(&mut sink, text) {
        Ok(()) => EncodeEnd::Written(sink.0),
        Err(err) if err.io_error_kind() == Some(std::io::ErrorKind::WriteZero) => {
            EncodeEnd::CapReached
        }
        Err(_) => EncodeEnd::Failed,
    }
}

#[test]
fn encode_refuses_oversize_body() {
    let payload = "x".repeat(MAX_TEXT_BODY_BYTES + 4);
    let outcome = encode(serialize(&payload, MAX_TEXT_BODY_BYTES), "over-cap-test");
    assert!(
        matches!(&outcome, ReadOutcome::TooLarge(reason) if reason.contains("over-cap-test")),
        "expected TooLarge naming the resource; got wrong outcome variant",
    );
    assert_eq!(outcome.status(), 413);
    let err = outcome
        .into_result("oxidhome://events")
        .expect_err("must surface as Err");
    assert_eq!(err.code, RESOURCE_TOO_LARGE_CODE);
}

#[test]
fn capped_writer_refuses_past_cap() {
    let mut w = Sink(CappedWriter::with_cap(8));
    w.write_all(b"12345").expect("under cap");
    let err = w.write_all(b"6789").expect_err("past cap");
    assert_eq!(err.kind(), std::io::ErrorKind::WriteZero);
    assert_eq!(
        w.0.into_string().expect("valid utf8"),
        "12345",
        "no bytes may be appended after the write that hit the cap",
    );
}

#[test]
fn blob_cap_fits_max_raw_blob_encoded() {
    let raw = usize::try_from(BLOB_INLINE_MAX_BYTES).expect("cap fits in usize on this arch");
    let encoded = 4 * raw.div_ceil(3);
    let projected = encoded + MAX_BLOB_MIME_BYTES + BLOB_ENVELOPE_OVERHEAD_BYTES;
    assert!(
        projected <= MAX_BLOB_BODY_BYTES,
        "projected {projected} B (base64 {encoded} + mime {} + envelope {}) \
         must fit under blob cap {} B (raw {raw} B)",
        MAX_BLOB_MIME_BYTES,
        BLOB_ENVELOPE_OVERHEAD_BYTES,
        MAX_BLOB_BODY_BYTES,
    );
    let transport = MAX_RESPONSE_BODY_BYTES;
    assert!(
        MAX_BLOB_BODY_BYTES < transport,
        "blob cap ({}) must fit under the transport cap ({transport})",
        MAX_BLOB_BODY_BYTES,
    );
}

#[test]
fn encoded_texts_are_json() {
    match encode(serialize("hé", 100), "x") {
        ReadOutcome::OkText { body, mime } => {
            assert_eq!(body, "\"hé\"");
            assert_eq!(mime, "application/json");
        }
        other => panic!("{other:?}"),
    }
    assert!(matches!(encode(EncodeEnd::Failed, "x"), ReadOutcome::Internal(r) if r == "failed to serialize x"));
    let mut broken = CappedWriter::with_cap(4);
    broken.write(&[0xff]).unwrap();
    assert_eq!(broken.len(), 1);
    assert!(matches!(encode(EncodeEnd::Written(broken), "x"), ReadOutcome::Internal(_)));
    let mut bytes = CappedWriter::with_cap(2);
    bytes.write(b"ab").unwrap();
    assert_eq!(bytes.into_bytes(), b"ab");
}

#[test]
fn tool_bodies_have_their_own_cap() {
    assert!(matches!(
        encode_body_capped(serialize("a", 100), "t"),
        EncodedBody::Json(text) if text == "\"a\""
    ));
    let payload = "x".repeat(MAX_TOOL_BODY_BYTES);
    assert!(matches!(
        encode_body_capped(serialize(&payload, MAX_TEXT_BODY_BYTES), "t"),
        EncodedBody::TooLarge(reason) if reason.contains("2621440")
    ));
    assert!(matches!(
        encode_body_capped(EncodeEnd::Failed, "t"),
        EncodedBody::SerializeFailed(_)
    ));
    let mut broken = CappedWriter::with_cap(4);
    broken.write(&[0xff]).unwrap();
    assert!(matches!(
        encode_body_capped(EncodeEnd::Written(broken), "t"),
        EncodedBody::SerializeFailed(reason) if reason == "failed to re-parse t"
    ));
    for text in ["", "x", "{\"a\":}", "1 2", "1e999"] {
        let mut odd = CappedWriter::with_cap(16);
        odd.write(text.as_bytes()).unwrap();
        assert!(matches!(
            encode_body_capped(EncodeEnd::Written(odd), "t"),
            EncodedBody::SerializeFailed(reason) if reason == "failed to re-parse t"
        ));
    }
}

#[test]
fn broken_text_is_described() {
    let mut w = CappedWriter::with_cap(4);
    w.write(&[b'a', 0xff]).unwrap();
    let words = w.into_string().expect_err("not UTF-8");
    assert_eq!(words, "invalid utf-8 sequence of 1 bytes from index 1");
}

#[test]
fn store_failures_are_told_apart() {
    assert!(matches!(events_failure(StoreFailure::Saturated), ReadOutcome::Busy(_)));
    assert!(matches!(events_failure(StoreFailure::Failed), ReadOutcome::Internal(r) if r == "event query failed"));
    assert!(matches!(events_failure(StoreFailure::Broken), ReadOutcome::Internal(r) if r == "event query task panicked"));
    assert!(matches!(logs_failure(StoreFailure::Saturated), ReadOutcome::Busy(_)));
    assert!(matches!(logs_failure(StoreFailure::Failed), ReadOutcome::Internal(r) if r == "log query failed"));
    assert!(matches!(logs_failure(StoreFailure::Broken), ReadOutcome::Internal(r) if r == "log query task panicked"));
}

#[test]
fn details_of_what_is_not_there() {
    let missing = devices_detail("d", None).expect_err("no device");
    assert!(matches!(missing, ReadOutcome::NotFound(r) if r.contains('d')));
    let found = DeviceDetail {
        device_id: "d".to_string(),
        owner_instance: "i".to_string(),
        name: "lamp".to_string(),
        manufacturer: None,
        model: None,
        capabilities: vec![],
    };
    assert_eq!(devices_detail("d", Some(found)).unwrap().name, "lamp");
    assert!(plugins_detail("p", None, &vec![]).is_err());
}

#[test]
fn plugin_detail_lists_its_instances() {
    let row = |id: &str, plugin: &str| InstanceRow {
        instance_id: id.to_string(),
        plugin_id: plugin.to_string(),
        state: "Running".to_string(),
    };
    let rows = vec![row("b", "p"), row("x", "q"), row("a", "p")];
    let detail = plugins_detail_body("p", None, &rows).expect("runs");
    assert!(!detail.installed);
    assert!(detail.version.is_none());
    assert_eq!(detail.instances.len(), 2);
    let installed = InstalledDetail {
        version: "1.0".to_string(),
        singleton: true,
        content_digest: "dd".to_string(),
        installation_uuid: "u".to_string(),
    };
    let detail = plugins_detail("z", Some(installed), &rows).expect("installed");
    assert!(detail.installed);
    assert_eq!(detail.version.as_deref(), Some("1.0"));
    assert_eq!(detail.singleton, Some(true));
    assert!(detail.instances.is_empty());
}

#[test]
fn status_follows_the_ping() {
    assert_eq!(status_ok(PingEnd::Answered).unwrap(), true);
    assert_eq!(status_ok(PingEnd::Failed).unwrap(), false);
    assert!(status_ok(PingEnd::Broken).is_err());
}

#[test]
fn blobs_are_addressed_by_decoded_names() {
    let (instance, name) = blob_address("cam%231", "front%20door.jpg").expect("address");
    assert_eq!(instance, "cam#1");
    assert_eq!(name, "front door.jpg");
    assert!(blob_address("a%", "b").is_err());
    assert!(blob_address("a", "%zz").is_err());
}

#[test]
fn blobs_belong_to_loaded_instances() {
    assert!(matches!(blob_installation("i", BlobOwner::Absent), Err(ReadOutcome::NotFound(_))));
    assert!(matches!(blob_installation("i", BlobOwner::Loading), Err(_)));
    assert_eq!(
        blob_installation("i", BlobOwner::Loaded("u".to_string())).unwrap(),
        "u"
    );
    assert!(blob_slot(BlobSlot::Free).is_ok());
    assert!(matches!(blob_slot(BlobSlot::Full), Err(ReadOutcome::Busy(_))));
    assert!(matches!(blob_slot(BlobSlot::Closed), Err(ReadOutcome::Internal(_))));
}

#[test]
fn blobs_are_handed_out_in_base64() {
    let read = BlobRead::Found {
        bytes: b"any carnal pleas".to_vec(),
        mime: Some("image/png".to_string()),
    };
    match blob_outcome(read) {
        ReadOutcome::OkBlob { blob_b64, mime } => {
            assert_eq!(blob_b64, "YW55IGNhcm5hbCBwbGVhcw==");
            assert_eq!(mime.as_deref(), Some("image/png"));
        }
        other => panic!("{other:?}"),
    }
    let long = BlobRead::Found { bytes: vec![1], mime: Some("x".repeat(MAX_BLOB_BODY_BYTES)) };
    assert!(matches!(blob_outcome(long), ReadOutcome::TooLarge(_)));
    let missing = BlobRead::NotFound { what: "blob `a` not found".to_string() };
    assert!(matches!(blob_outcome(missing), ReadOutcome::NotFound(_)));
    let large = BlobRead::TooLarge { what: "w".to_string(), size_bytes: 9, cap: 8 };
    assert!(matches!(blob_outcome(large), ReadOutcome::TooLarge(_)));
    assert!(matches!(blob_outcome(BlobRead::Failed), ReadOutcome::Internal(_)));
    assert!(matches!(blob_outcome(BlobRead::Broken), ReadOutcome::Internal(_)));
}

#[test]
fn uris_are_routed() {
    assert!(matches!(
        route("oxidhome://devices"),
        Route::Found { scope: "devices:list", kind: ResourceKind::DevicesList, .. }
    ));
    assert!(matches!(
        route("oxidhome://devices/dev-1"),
        Route::Found { kind: ResourceKind::DevicesDetail(id), .. } if id == "dev-1"
    ));
    assert!(matches!(
        route("oxidhome://plugins/p"),
        Route::Found { scope: "plugins:list", kind: ResourceKind::PluginsDetail(id), .. } if id == "p"
    ));
    assert!(matches!(
        route("oxidhome://events?limit=3"),
        Route::Found { scope: "events:read", kind: ResourceKind::Events(q), .. } if q == "limit=3"
    ));
    assert!(matches!(
        route("oxidhome://logs"),
        Route::Found { scope: "logs:read", kind: ResourceKind::Logs(q), .. } if q.is_empty()
    ));
    assert!(matches!(
        route("oxidhome://blobs/i/n"),
        Route::Found { kind: ResourceKind::Blob(i, n), .. } if i == "i" && n == "n"
    ));
    assert!(matches!(
        route("oxidhome://status"),
        Route::Found { kind: ResourceKind::Status, .. }
    ));
    assert!(matches!(route("http://devices"), Route::Nowhere { .. }));
    assert!(matches!(route("oxidhome://nothing"), Route::Nowhere { .. }));
}

#[test]
fn reads_need_their_scope() {
    let nobody = Actor::api("tok", vec![]);
    match start_read("oxidhome://devices", &nobody) {
        ReadStart::Done { outcome: ReadOutcome::Denied { required }, .. } => {
            assert_eq!(required, "devices:list")
        }
        other => panic!("{other:?}"),
    }
    let reader = Actor::api("tok", vec!["devices:list".to_string()]);
    assert!(matches!(
        start_read("oxidhome://devices", &reader),
        ReadStart::Build { kind: ResourceKind::DevicesList, .. }
    ));
    let denied = ReadOutcome::Denied { required: "devices:list" };
    assert_eq!(denied.status(), 403);
    assert_eq!(denied.required_scope(), Some("devices:list"));
    let err = denied.into_result("u").expect_err("denied");
    assert_eq!(err.code, SCOPE_DENIED_CODE);
}

#[test]
fn unrecorded_reads_are_not_answered() {
    let body = || ReadOutcome::OkText { body: "{}".to_string(), mime: "application/json" };
    let done = finish_read(LedgerWrite::Written, body(), "oxidhome://status").expect("read");
    assert_eq!(done.uri, "oxidhome://status");
    assert!(matches!(done.contents, Contents::Text { body, .. } if body == "{}"));
    for write in [LedgerWrite::Failed, LedgerWrite::Broken] {
        let err = finish_read(write, body(), "oxidhome://status").expect_err("not recorded");
        assert_eq!(err.code, INTERNAL_ERROR_CODE);
    }
    assert_eq!(audit_queue_full().code, RESOURCE_BUSY_CODE);
}

#[test]
fn missing_resources_have_their_code() {
    let err = ReadOutcome::NotFound("gone".to_string()).into_result("u").expect_err("missing");
    assert_eq!(err.code, RESOURCE_NOT_FOUND_CODE);
    assert!(err.message.contains("gone"));
}

#[test]
fn read_rows_name_the_family() {
    let row = new_audit_entry("tok", "devices", &ReadOutcome::NotFound("x".to_string()));
    assert_eq!(row.token_id, "tok");
    assert_eq!(row.actor_kind, "mcp");
    assert_eq!(row.status, 404);
    assert_eq!(row.decision, "deny");
    assert!(row.path.contains("devices"));
}

#[test]
fn catalogue_lists_every_resource() {
    let resources = list_resources();
    let uris: Vec<&str> = resources.iter().map(|r| r.uri).collect();
    for uri in [
        "oxidhome://devices",
        "oxidhome://plugins",
        "oxidhome://events",
        "oxidhome://logs",
        "oxidhome://status",
    ] {
        assert!(uris.contains(&uri), "{uri} is listed");
        assert!(matches!(route(uri), Route::Found { .. }));
    }
    assert_eq!(list_resource_templates().len(), 3);
}
