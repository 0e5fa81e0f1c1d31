//! What HTTP and Connect callers are answered.

use oxidhome_core::api::auth::AuthReply;
use oxidhome_core::api::connect_rpc::{
    check_command_connect, check_start_connect, check_uninstall_connect, command_report,
    command_result_to_proto, connect_report,
    gate_reply, historical_to_proto, host_fault, install_error_to_connect, instances_running_error,
    is_anonymous_path, min_level_filter, overrides_from, plan_query_logs, proto_command,
    proto_key_value_to_wit, record_domain_outcome, require_scope_connect, rpc_err, start_overrides,
    tail_next, tail_received, uninstall_error_to_connect, wit_event_to_proto, HandlerOutcome,
    HostFault, ProtoButtonKind, ProtoCommand, ProtoCommandOutcome, ProtoEventPayload,
    ProtoKeyValue, ProtoLogLevel, RpcCode, RpcError, TailFrame, TailStep,
};
use oxidhome_core::api::paging::page_devices;
use oxidhome_core::api::plugins::{
    check_schema, check_start, check_uninstall, instances_of, list_plugins, registry_clear_step,
    start_instance_id, stopped_ids, unsafe_id_message, ClearStep, InstalledPlugin,
    PluginLifecycleError, PluginSchemaError, RunningInstance, StopAttempt,
};
use oxidhome_core::api::queries::{
    audit_cursor, audit_page, event_rows, log_limit, log_rows, parse_audit_cursor, plan_audit,
    plan_events, plan_logs, row_limit, AuditParams, EventsParams, QueryError,
};
use oxidhome_core::api::reply::{Body, ErrorField};
use oxidhome_core::api::scopes::Scope;
use oxidhome_core::api::server::{
    all_device_state_page, check_command, command_reply, get_device_state, host_command, page_limit,
    plan_all_device_state, plan_state_changes, readyz, state_changes_body, tail_frames,
    AllDevicesStateError, CommandBody, CommandError, CursorCheck, BAD_CURSOR_TEXT,
};
use oxidhome_core::api::wire::{
    command_result_to_wire, WireCommandResult, WireEvent, WireEventPayload, WireKeyValue, WireValue,
};
use oxidhome_core::auth::Actor;
use oxidhome_core::state::{
    AuditEntry, ButtonEvent, CommandResult, CustomEvent, DeviceState, Event, EventPayload,
    HistoricalEvent, HistoricalLogEvent, InstallError, KeyValue, LogLevel, LogQuery, LogValue,
    StateQuality, TopicMatch, UninstallError, WitError, WitValue,
};
use oxidhome_core::{MIN_SUPPORTED_SDK_VERSION, OXIDHOME_SDK_VERSION};

fn admin() -> Actor {
    Actor::api("admin", vec!["*".to_string()])
}

fn nobody() -> Actor {
    Actor::api("nobody", vec![])
}

fn values_equal(a: &WitValue, b: &WitValue) -> bool {
    match (a, b) {
        (WitValue::BoolVal(x), WitValue::BoolVal(y)) => x == y,
        (WitValue::IntVal(x), WitValue::IntVal(y)) => x == y,
        (WitValue::FloatVal(x), WitValue::FloatVal(y)) => x == y,
        (WitValue::StringVal(x), WitValue::StringVal(y))
        | (WitValue::JsonVal(x), WitValue::JsonVal(y)) => x == y,
        (WitValue::BytesVal(x), WitValue::BytesVal(y)) => x == y,
        _ => false,
    }
}

#[test]
fn wire_value_roundtrips_in_both_directions() {
    let cases = [
        WitValue::BoolVal(true),
        WitValue::IntVal(-42),
        WitValue::FloatVal(3.5f64.to_bits()),
        WitValue::StringVal("hi".into()),
        WitValue::BytesVal(vec![0x00, 0xff, 0x42]),
        WitValue::JsonVal(r#"{"nested":1}"#.into()),
    ];
    for input in cases {
        let wire = WireValue::from(input.clone());
        let back = WitValue::from(wire);
        assert!(values_equal(&input, &back), "round trip failed for {input:?}");
    }
}

fn button_event(input: ButtonEvent) -> Event {
    Event {
        device: Some("dev-1".into()),
        timestamp: 0,
        origin_plugin_id: String::new(),
        origin_instance_id: String::new(),
        row_id: None,
        payload: EventPayload::Button(input),
    }
}

#[test]
fn button_variant_projects_one_to_one() {
    let cases = [
        (ButtonEvent::Pressed, "pressed", None),
        (ButtonEvent::Released, "released", None),
        (ButtonEvent::SinglePress, "single_press", None),
        (ButtonEvent::DoublePress, "double_press", None),
        (ButtonEvent::LongPress, "long_press", None),
        (ButtonEvent::Rotated(1.5f64.to_bits()), "rotated", Some(1.5f64.to_bits())),
    ];
    for (input, expected_variant, expected_delta) in cases {
        let wire = WireEvent::from_host(&button_event(input));
        match wire.payload {
            WireEventPayload::Button { variant, delta } => {
                assert_eq!(variant, expected_variant, "variant mismatch for {input:?}");
                assert_eq!(delta, expected_delta, "delta mismatch for {input:?}");
            }
            other => panic!("expected Button payload, got {other:?}"),
        }
        assert_eq!(wire.topic, "button");
    }
}

#[test]
fn wire_event_carries_origin_envelope() {
    let event = Event {
        device: None,
        timestamp: 0,
        origin_plugin_id: "com.example.publisher".into(),
        origin_instance_id: "publisher-42".into(),
        row_id: None,
        payload: EventPayload::Custom(CustomEvent {
            topic: "automation.morning".into(),
            payload: String::new(),
        }),
    };
    let wire = WireEvent::from_host(&event);
    assert_eq!(wire.origin_plugin_id, "com.example.publisher");
    assert_eq!(wire.origin_instance_id, "publisher-42");
}

#[test]
fn versions_are_stated() {
    assert_eq!(OXIDHOME_SDK_VERSION, "0.2.0");
    assert_eq!(MIN_SUPPORTED_SDK_VERSION, "0.2.0");
}

#[test]
fn readiness_follows_the_store() {
    assert_eq!(readyz(true), (200, "ok"));
    assert_eq!(readyz(false), (503, "not_ready"));
}

#[test]
fn page_sizes_have_default_and_most() {
    assert_eq!(page_limit(None, 64, 256), 64);
    assert_eq!(page_limit(Some(0), 64, 256), 64);
    assert_eq!(page_limit(Some(10), 64, 256), 10);
    assert_eq!(page_limit(Some(1000), 64, 256), 256);
}

fn state(device: &str, capability: &str, bytes: usize) -> DeviceState {
    DeviceState {
        device_id: device.to_string(),
        capability: capability.to_string(),
        fields: vec![KeyValue { key: "on".into(), value: WitValue::BoolVal(true) }],
        field_bytes: bytes,
        global_revision: 1,
        received_ms: 2,
        observed_ms: 3,
        source_generation: 4,
        quality: StateQuality::Fresh,
    }
}

#[test]
fn device_state_is_sorted_by_capability() {
    let states = vec![state("d", "switch", 1), state("d", "dimmer", 1)];
    let snapshot = get_device_state(&admin(), "d", "e", 7, states).expect("state");
    assert_eq!(snapshot.device_id, "d");
    assert_eq!(snapshot.epoch, "e");
    assert_eq!(snapshot.revision, 7);
    let names: Vec<&str> = snapshot.capabilities.iter().map(|c| c.capability.as_str()).collect();
    assert_eq!(names, vec!["dimmer", "switch"]);
    assert!(get_device_state(&nobody(), "d", "e", 7, vec![]).is_err());
}

#[test]
fn state_pages_continue() {
    let plan = plan_all_device_state(&admin(), None, Some(1)).expect("plan");
    assert_eq!((plan.limit, plan.fetch), (1, 2));
    let entries = vec![state("a", "x", 1), state("a", "y", 1), state("b", "x", 1)];
    let page = all_device_state_page(1, None, "e".to_string(), 9, entries);
    assert_eq!(page.devices.len(), 1);
    assert_eq!(page.devices[0].capabilities.len(), 2);
    assert_eq!(page.cursor_after.as_deref(), Some("a"));
    assert_eq!(page.revision, 9);
    let cursor = CursorCheck::Valid { revision: 9, after_device_id: "a".to_string() };
    let plan = plan_all_device_state(&admin(), Some(cursor), Some(1)).expect("plan");
    assert_eq!(plan.after.as_deref(), Some("a"));
    assert_eq!(plan.pinned, Some(9));
    let last = all_device_state_page(1, plan.pinned, "e".to_string(), 12, vec![state("b", "x", 1)]);
    assert_eq!(last.revision, 9);
    assert!(last.cursor_after.is_none());
}

/// The states of the first `fetch` devices after one.
fn stored_after(after: Option<&str>, fetch: usize) -> Vec<DeviceState> {
    let mut ids: Vec<&str> = vec!["a", "b", "c", "d", "e"];
    ids.retain(|id| after.is_none_or(|a| a < *id));
    ids.truncate(fetch);
    let mut out = Vec::new();
    for id in ids {
        out.push(state(id, "x", if id == "c" { 2_000_000 } else { 10 }));
        out.push(state(id, "y", 10));
    }
    out
}

#[test]
fn walks_meet_every_device_once() {
    for (limit, expected) in [
        (1, vec!["a", "b", "c", "d", "e"]),
        (2, vec!["ab", "c", "de"]),
        (3, vec!["ab", "c", "de"]),
        (256, vec!["ab", "c", "de"]),
    ] {
        let mut pages: Vec<String> = Vec::new();
        let mut cursor: Option<CursorCheck> = None;
        let mut current = 9;
        loop {
            let plan = plan_all_device_state(&admin(), cursor, Some(limit)).expect("plan");
            let entries = stored_after(plan.after.as_deref(), plan.fetch);
            let page =
                all_device_state_page(plan.limit, plan.pinned, "e".to_string(), current, entries);
            assert_eq!(page.revision, 9);
            assert!(!page.devices.is_empty() && page.devices.len() <= limit);
            assert!(page.devices.iter().all(|d| d.capabilities.len() == 2));
            pages.push(page.devices.iter().map(|d| d.device_id.as_str()).collect());
            current += 1;
            match page.cursor_after {
                Some(after_device_id) => {
                    cursor = Some(CursorCheck::Valid { revision: page.revision, after_device_id });
                }
                None => break,
            }
        }
        assert_eq!(pages, expected, "limit {limit}");
    }
}

#[test]
fn empty_stores_have_one_empty_page() {
    let page = all_device_state_page(4, None, "e".to_string(), 9, vec![]);
    assert!(page.devices.is_empty());
    assert!(page.cursor_after.is_none());
}

#[test]
fn state_pages_stop_at_their_size() {
    let entries = vec![state("a", "x", 900_000), state("b", "x", 900_000), state("c", "x", 1)];
    let page = page_devices(entries, 10);
    assert_eq!(page.devices.len(), 1);
    assert!(page.more);
    let huge = page_devices(vec![state("a", "x", 5_000_000)], 10);
    assert_eq!(huge.devices.len(), 1);
    assert!(!huge.more);
}

#[test]
fn cursors_are_refused() {
    let err = plan_all_device_state(&admin(), Some(CursorCheck::Bad), None).expect_err("bad");
    let reply = err.into_response();
    assert_eq!(reply.status, 400);
    assert!(matches!(reply.body, Body::Text(t) if t == BAD_CURSOR_TEXT));
    let err = plan_all_device_state(&admin(), Some(CursorCheck::EpochChanged), None)
        .expect_err("changed");
    assert_eq!(err.into_response().status, 409);
    let err = plan_all_device_state(&nobody(), None, None).expect_err("no scope");
    assert!(matches!(err, AllDevicesStateError::Scope(_)));
    assert_eq!(err.into_response().status, 403);
}

#[test]
fn changes_begin_after_a_revision() {
    assert_eq!(plan_state_changes(&admin(), None, None).unwrap(), (0, 256));
    assert_eq!(plan_state_changes(&admin(), Some(5), Some(9999)).unwrap(), (5, 1024));
    let body = state_changes_body("e".to_string(), 8, true, vec![state("d", "x", 1)]);
    assert_eq!(body.changes.len(), 1);
    assert_eq!(body.current_revision, 8);
    assert!(body.reset_required);
}

#[test]
fn commands_are_dispatched_to_running_owners() {
    assert!(check_command(&admin(), Some(true)).is_ok());
    for owner in [None, Some(false)] {
        let err = check_command(&admin(), owner).expect_err("no owner");
        assert_eq!(err.into_response().status, 404);
    }
    let err = check_command(&nobody(), Some(true)).expect_err("no scope");
    let reply = err.into_response();
    assert_eq!(reply.status, 403);
    assert_eq!(reply.denied_scope, Some("devices:command"));
    assert_eq!(CommandError::Dispatch.into_response().status, 500);
    let command = host_command(CommandBody {
        capability: "c".into(),
        action: "a".into(),
        args: vec![WireKeyValue { key: "k".into(), value: WireValue::Text("v".into()) }],
    });
    assert!(matches!(&command.args[0].value, WitValue::StringVal(v) if v == "v"));
}

#[test]
fn plugin_errors_are_answered_with_success() {
    let reply = command_reply(CommandResult::Failed(WitError::NotFound("x".into())));
    assert!(matches!(reply.body, WireCommandResult::Failed { .. }));
    assert_eq!(reply.domain_error, Some("not_found"));
    let reply = command_reply(CommandResult::Done);
    assert!(matches!(reply.body, WireCommandResult::Done));
    assert_eq!(reply.domain_error, None);
}

#[test]
fn repeated_state_keys_keep_the_last() {
    let kv = |v: i64| KeyValue { key: "k".into(), value: WitValue::IntVal(v) };
    match command_result_to_wire(CommandResult::OkWithState(vec![kv(1), kv(2)])) {
        WireCommandResult::OkWithState { state } => {
            assert_eq!(state.len(), 1);
            assert!(matches!(state.get("k"), Some(WireValue::Int(2))));
        }
        other => panic!("{other:?}"),
    }
}

#[test]
fn skipped_events_are_announced() {
    let (notice, wire) = tail_frames(&button_event(ButtonEvent::Pressed), 3);
    assert_eq!(notice.as_deref(), Some("{\"lagged\":3}"));
    assert_eq!(wire.topic, "button");
    assert!(tail_frames(&button_event(ButtonEvent::Pressed), 0).0.is_none());
}

fn installed(id: &str) -> InstalledPlugin {
    InstalledPlugin { plugin_id: id.to_string(), version: "1.0".to_string() }
}

#[test]
fn plugin_listing_counts_instances() {
    let running = vec!["b".to_string(), "z".to_string(), "b".to_string()];
    let rows = list_plugins(vec![installed("c"), installed("b")], &running);
    let ids: Vec<&str> = rows.iter().map(|r| r.plugin_id.as_str()).collect();
    assert_eq!(ids, vec!["b", "c", "z"]);
    let counts: Vec<u32> = rows.iter().map(|r| r.instance_count).collect();
    assert_eq!(counts, vec![2, 0, 1]);
    assert!(rows[0].installed && rows[1].installed && !rows[2].installed);
    assert!(rows[2].version.is_none());
}

fn running(instance: &str, plugin: &str) -> RunningInstance {
    RunningInstance { instance_id: instance.to_string(), plugin_id: plugin.to_string() }
}

#[test]
fn running_plugins_are_not_uninstalled() {
    let instances = vec![running("i1", "p"), running("i2", "q"), running("i3", "p")];
    assert_eq!(instances_of(&instances, "p", None), vec!["i1", "i3"]);
    assert_eq!(instances_of(&instances, "p", Some("i3")), vec!["i3"]);
    assert!(instances_of(&instances, "p", Some("i2")).is_empty());
    assert!(check_uninstall(&instances, "r").is_ok());
    let reply = check_uninstall(&instances, "p").expect_err("runs").into_response();
    assert_eq!(reply.status, 409);
    match reply.body {
        Body::Fields(fields) => {
            assert!(matches!(&fields[0], ("error", ErrorField::Text(t)) if t == "instances_running"));
            assert!(matches!(&fields[1], ("instance_ids", ErrorField::List(l)) if l.len() == 2));
        }
        other => panic!("{other:?}"),
    }
}

#[test]
fn stops_pass_over_those_that_refuse() {
    let attempt = |id: &str, stopped: bool| StopAttempt { instance_id: id.to_string(), stopped };
    let attempts = vec![attempt("a", true), attempt("b", false), attempt("c", true)];
    assert_eq!(stopped_ids(&attempts), vec!["a", "c"]);
    assert!(stopped_ids(&vec![]).is_empty());
    assert_eq!(registry_clear_step(false, 0), ClearStep::Cleared);
    assert_eq!(registry_clear_step(true, 4_999), ClearStep::Wait(10));
    assert_eq!(registry_clear_step(true, 5_000), ClearStep::GiveUp);
}

#[test]
fn starts_are_checked() {
    assert_eq!(start_instance_id(None, "p"), "p");
    assert_eq!(start_instance_id(Some("i".to_string()), "p"), "i");
    assert!(check_start("i", true, true).is_ok());
    let err = check_start("a\"b", false, true).expect_err("unsafe");
    assert_eq!(err.into_response().status, 400);
    assert_eq!(
        unsafe_id_message("a\"b"),
        "instance_id \"a\\\"b\" is unsafe for use as a filesystem segment"
    );
    assert_eq!(check_start("i", true, false).expect_err("missing").into_response().status, 404);
}

#[test]
fn schemas_are_for_installed_plugins() {
    assert!(check_schema(&admin(), true).is_ok());
    assert_eq!(check_schema(&admin(), false).expect_err("missing").into_response().status, 404);
    let denied = check_schema(&nobody(), true).expect_err("no scope").into_response();
    assert_eq!(denied.status, 403);
    assert_eq!(denied.denied_scope, Some("plugins:list"));
    let broken = PluginSchemaError::Internal.into_response();
    assert_eq!(broken.status, 500);
}

#[test]
fn lifecycle_errors_have_their_status() {
    let status = |e: PluginLifecycleError| e.into_response().status;
    assert_eq!(status(InstallError::NoPluginsRoot.into()), 503);
    assert_eq!(status(InstallError::AlreadyInstalled { plugin_id: "p".into() }.into()), 409);
    assert_eq!(status(InstallError::Io("x".into()).into()), 500);
    assert_eq!(status(UninstallError::NotInstalled { plugin_id: "p".into() }.into()), 404);
    assert_eq!(status(PluginLifecycleError::Start("x".into())), 500);
    assert_eq!(status(PluginLifecycleError::BadInstall("x".into())), 422);
}

#[test]
fn row_limits_have_default_and_most() {
    assert_eq!(row_limit(None), 100);
    assert_eq!(row_limit(Some(5000)), 1000);
    assert_eq!(row_limit(Some(7)), 7);
    assert_eq!(log_limit(None), 100);
    assert_eq!(log_limit(Some(0)), 100);
    assert_eq!(log_limit(Some(5000)), 1000);
}

fn log_query() -> LogQuery {
    LogQuery {
        since_ms: Some(1),
        until_ms: None,
        min_level: None,
        instance_id: None,
        plugin_id: None,
        device_id: None,
        target: None,
        target_prefix: None,
        span_path_prefix: None,
    }
}

fn log_row() -> HistoricalLogEvent {
    HistoricalLogEvent {
        id: 3,
        ts_unix_ms: 4,
        level: LogLevel::Error,
        instance_id: Some("i".into()),
        plugin_id: None,
        device_id: None,
        target: "t".into(),
        span_path: None,
        message: "m".into(),
        fields: vec![("k".into(), LogValue::UInt(9))],
    }
}

#[test]
fn logs_are_queried_with_their_scope() {
    let (query, limit) = plan_logs(&admin(), log_query(), Some(5)).expect("plan");
    assert_eq!(query.since_ms, Some(1));
    assert_eq!(limit, 5);
    let err = plan_logs(&nobody(), log_query(), None).expect_err("no scope");
    assert_eq!(err.into_response().denied_scope, Some("logs:read"));
    assert_eq!(QueryError::Storage.into_response().status, 500);
    let rows = log_rows(vec![log_row()]);
    assert_eq!(rows[0].id, 3);
    assert_eq!(rows[0].message, "m");
}

#[test]
fn events_are_queried_with_their_scope() {
    let params = || EventsParams {
        since_ms: None,
        until_ms: Some(9),
        device_id: Some("d".into()),
        instance_id: None,
        plugin_id: None,
        topic: None,
        topic_prefix: Some("a.".into()),
        after_id: None,
        before_id: Some(4),
        limit: Some(2),
    };
    let (query, limit) = plan_events(&admin(), params()).expect("plan");
    assert_eq!(query.topic, Some(("a.".to_string(), TopicMatch::Prefix)));
    assert_eq!(query.before_id, Some(4));
    assert_eq!(limit, 2);
    assert!(plan_events(&nobody(), params()).is_err());
    let row = HistoricalEvent {
        id: 1,
        received_ms: 2,
        payload_ms: 3,
        device_id: None,
        instance_id: "i".into(),
        plugin_id: "p".into(),
        topic: "button".into(),
        payload: EventPayload::Button(ButtonEvent::Released),
    };
    let rows = event_rows(vec![row]);
    assert!(matches!(rows[0].payload, WireEventPayload::Button { variant: "released", delta: None }));
}

fn audit_row(id: u64, intent_ms: i64) -> AuditEntry {
    AuditEntry {
        id,
        intent_ms,
        finalized_ms: None,
        token_id: "t".into(),
        actor_kind: "api".into(),
        method: "GET".into(),
        path: "/".into(),
        status: 200,
        decision: "allow".into(),
        required_scope: None,
        execution_outcome: None,
        domain_error: None,
        credential_fp: None,
    }
}

fn audit_params(before: Option<&str>) -> AuditParams {
    AuditParams {
        since_ms: None,
        until_ms: None,
        token_id: None,
        decision: None,
        path: None,
        before: before.map(str::to_string),
        limit: Some(2),
    }
}

#[test]
fn ledger_pages_continue() {
    let page = audit_page(vec![audit_row(5, 10), audit_row(4, 9)], 2);
    assert_eq!(page.next_cursor.as_deref(), Some("9:4"));
    let (query, limit) =
        plan_audit(&admin(), 77, audit_params(page.next_cursor.as_deref())).expect("plan");
    assert_eq!(query.before, Some((9, 4)));
    assert_eq!(query.exclude_id, Some(77));
    assert_eq!(limit, 2);
    let last = audit_page(vec![audit_row(1, 1)], 2);
    assert!(last.next_cursor.is_none());
}

#[test]
fn ledger_walks_meet_every_row_once() {
    let keys = [(9i64, 7u64), (9, 5), (9, 4), (3, 8), (-2, 1)];
    for (count, expected) in [(5, vec![2, 2, 1]), (4, vec![2, 2, 0]), (1, vec![1]), (0, vec![0])] {
        let mut sizes: Vec<usize> = Vec::new();
        let mut met: Vec<(i64, u64)> = Vec::new();
        let mut cursor: Option<String> = None;
        loop {
            let params = audit_params(cursor.as_deref());
            let (query, limit) = plan_audit(&admin(), 99, params).expect("plan");
            // The requests of the walk write rows of their own.
            let mut ledger: Vec<(i64, u64)> = sizes.iter().map(|_| (10, 90)).collect();
            ledger.extend_from_slice(&keys[..count]);
            ledger.retain(|key| query.before.is_none_or(|before| *key < before));
            ledger.truncate(limit);
            let rows = ledger.iter().map(|(ms, id)| audit_row(*id, *ms)).collect();
            let page = audit_page(rows, limit);
            sizes.push(page.audit.len());
            met.extend(page.audit.iter().map(|row| (row.intent_ms, row.id)));
            match page.next_cursor {
                Some(next) => cursor = Some(next),
                None => break,
            }
        }
        assert_eq!(sizes, expected);
        assert_eq!(met, keys[..count].to_vec());
    }
}

#[test]
fn history_walks_meet_every_event_once() {
    let ids = [9u64, 7, 6, 2, 1];
    let mut met: Vec<u64> = Vec::new();
    let mut before_id: Option<u64> = None;
    loop {
        let params = EventsParams {
            since_ms: None,
            until_ms: None,
            device_id: None,
            instance_id: None,
            plugin_id: None,
            topic: None,
            topic_prefix: None,
            after_id: None,
            before_id,
            limit: Some(2),
        };
        let (query, limit) = plan_events(&admin(), params).expect("plan");
        let rows: Vec<HistoricalEvent> = ids
            .iter()
            .filter(|id| query.before_id.is_none_or(|before| **id < before))
            .take(limit)
            .map(|id| HistoricalEvent {
                id: *id,
                received_ms: 2,
                payload_ms: 3,
                device_id: None,
                instance_id: "i".into(),
                plugin_id: "p".into(),
                topic: "button".into(),
                payload: EventPayload::Button(ButtonEvent::Released),
            })
            .collect();
        let batch = event_rows(rows);
        met.extend(batch.iter().map(|event| event.id));
        match batch.last() {
            Some(last) => before_id = Some(last.id),
            None => break,
        }
    }
    assert_eq!(met, ids.to_vec());
}

#[test]
fn ledger_cursors_read_back() {
    for (ms, id) in [(0i64, 0u64), (-5, 7), (i64::MIN, u64::MAX), (i64::MAX, 1)] {
        assert_eq!(parse_audit_cursor(&audit_cursor(ms, id)), Ok((ms, id)));
    }
    for bad in ["", "5", "x:1", "1:x", "1:-1"] {
        assert!(parse_audit_cursor(bad).is_err(), "{bad}");
    }
    let err = plan_audit(&admin(), 1, audit_params(Some("zz"))).expect_err("bad cursor");
    assert_eq!(err.into_response().status, 400);
}

#[test]
fn rpc_codes_have_their_status() {
    let status = |code: RpcCode| rpc_err(&RpcError { code, message: "m".into() }).status;
    assert_eq!(status(RpcCode::Unauthenticated), Some(401));
    assert_eq!(status(RpcCode::PermissionDenied), Some(403));
    assert_eq!(status(RpcCode::NotFound), Some(404));
    assert_eq!(status(RpcCode::AlreadyExists), Some(409));
    assert_eq!(status(RpcCode::InvalidArgument), Some(400));
    assert_eq!(status(RpcCode::FailedPrecondition), Some(400));
    assert_eq!(status(RpcCode::Unavailable), Some(503));
    assert_eq!(status(RpcCode::Internal), Some(500));
}

#[test]
fn rpc_scopes_are_checked() {
    let scope = || Scope::new("plugins:list");
    assert!(require_scope_connect(Some(&admin()), scope()).is_ok());
    let (err, outcome) = require_scope_connect(Some(&nobody()), scope()).expect_err("no scope");
    assert_eq!(err.code, RpcCode::PermissionDenied);
    assert_eq!(err.message, "scope plugins:list required");
    assert_eq!(outcome.denied_scope, Some("plugins:list"));
    let (err, _) = require_scope_connect(None, scope()).expect_err("no actor");
    assert_eq!(err.code, RpcCode::Internal);
}

#[test]
fn rpc_reports_reach_the_ledger() {
    assert!(is_anonymous_path("/oxidhome.v1.HealthService/Check"));
    assert!(!is_anonymous_path("/oxidhome.v1.HealthService/Other"));
    assert_eq!(gate_reply(AuthReply::Unauthorized).code, RpcCode::Unauthenticated);
    assert_eq!(gate_reply(AuthReply::Forbidden).code, RpcCode::PermissionDenied);
    assert_eq!(gate_reply(AuthReply::Internal).code, RpcCode::Internal);
    let report = connect_report(200, None);
    assert_eq!(report.status, 200);
    let denied = HandlerOutcome {
        status: Some(403),
        denied_scope: Some("s"),
        domain_error: None,
    };
    let report = connect_report(200, Some(denied));
    assert_eq!(report.status, 403);
    assert_eq!(report.denied_scope.as_deref(), Some("s"));
    let failed = record_domain_outcome(&WitError::Internal("x".into()));
    let report = connect_report(200, Some(failed));
    assert_eq!(report.status, 200);
    assert_eq!(report.domain_error.as_deref(), Some("internal"));
}

#[test]
fn rpc_messages_are_converted() {
    let kv = proto_key_value_to_wit(ProtoKeyValue {
        key: "k".into(),
        value: Some(WireValue::Int(3)),
    });
    assert!(matches!(kv.value, WitValue::IntVal(3)));
    assert!(matches!(
        command_result_to_proto(CommandResult::Done),
        ProtoCommandOutcome::Done
    ));
    let event = wit_event_to_proto(button_event(ButtonEvent::Rotated(2.0f64.to_bits())));
    assert!(matches!(
        event.payload,
        ProtoEventPayload::Button { kind: ProtoButtonKind::Rotated, delta } if delta == 2.0f64.to_bits()
    ));
    let row = historical_to_proto(log_row());
    assert_eq!(row.level, ProtoLogLevel::Error);
    assert_eq!(row.id, 3);
}

#[test]
fn rpc_errors_of_plugins() {
    let err = install_error_to_connect(InstallError::AlreadyInstalled { plugin_id: "p".into() });
    assert_eq!(err.code, RpcCode::AlreadyExists);
    let err = uninstall_error_to_connect(UninstallError::NotInstalled { plugin_id: "p".into() });
    assert_eq!(err.code, RpcCode::NotFound);
    assert!(check_start_connect(true, "i", true).is_ok());
    assert_eq!(
        check_start_connect(true, "../i", false).expect_err("unsafe").code,
        RpcCode::InvalidArgument
    );
    assert_eq!(
        check_start_connect(false, "i", true).expect_err("missing").code,
        RpcCode::NotFound
    );
    let err = instances_running_error(&vec!["a".into(), "b\"".into()]);
    assert_eq!(err.code, RpcCode::FailedPrecondition);
    assert!(err.message.contains("[\"a\", \"b\\\"\"]"));
}

#[test]
fn rpc_removal_waits_for_the_instances() {
    let running = vec![
        RunningInstance { instance_id: "i-1".into(), plugin_id: "p".into() },
        RunningInstance { instance_id: "i-2".into(), plugin_id: "q".into() },
        RunningInstance { instance_id: "i-3".into(), plugin_id: "p".into() },
    ];
    assert!(check_uninstall_connect(&running, "other").is_ok());
    let err = check_uninstall_connect(&running, "p").expect_err("running");
    assert_eq!(err.code, RpcCode::FailedPrecondition);
    assert_eq!(err.message, "plugin instances still running: [\"i-1\", \"i-3\"]");
}

#[test]
fn rpc_commands_report_the_plugin_error() {
    assert!(command_report(&CommandResult::Done).is_none());
    assert!(command_report(&CommandResult::OkWithState(vec![])).is_none());
    let failed = CommandResult::Failed(WitError::Unavailable("x".into()));
    let outcome = command_report(&failed).expect("a report");
    assert_eq!(outcome.domain_error, Some("unavailable"));
    assert_eq!(outcome.status, None);
    assert_eq!(outcome.denied_scope, None);
}

#[test]
fn rpc_overrides_are_read() {
    assert!(start_overrides(None).unwrap().is_none());
    let table = start_overrides(Some("{\"a\": true}")).unwrap().expect("a table");
    assert_eq!(table["a"].as_bool(), Some(true));
    assert_eq!(
        start_overrides(Some("{")).expect_err("no JSON").code,
        RpcCode::InvalidArgument
    );
    assert!(overrides_from(Err("words".to_string())).is_err());
}

#[test]
fn rpc_log_levels_are_read() {
    assert_eq!(min_level_filter(None).unwrap(), None);
    assert_eq!(min_level_filter(Some(ProtoLogLevel::Unspecified)).unwrap(), None);
    assert_eq!(min_level_filter(Some(ProtoLogLevel::Warn)).unwrap(), Some(LogLevel::Warn));
    assert_eq!(
        min_level_filter(Some(ProtoLogLevel::Unknown(9))).expect_err("unknown").code,
        RpcCode::InvalidArgument
    );
    let (query, limit) =
        plan_query_logs(log_query(), Some(ProtoLogLevel::Info), Some(0)).expect("plan");
    assert_eq!(query.min_level, Some(LogLevel::Info));
    assert_eq!(limit, 100);
}

#[test]
fn rpc_tail_sends_the_notice_first() {
    assert!(matches!(tail_next(None), TailStep::Receive));
    let (frame, held) = tail_received(Some((button_event(ButtonEvent::Pressed), 2))).expect("frame");
    assert!(matches!(frame, TailFrame::Lagged(2)));
    assert!(matches!(tail_next(held), TailStep::Send(TailFrame::Event(_))));
    let (frame, held) = tail_received(Some((button_event(ButtonEvent::Pressed), 0))).expect("frame");
    assert!(matches!(frame, TailFrame::Event(_)));
    assert!(held.is_none());
    assert!(tail_received(None).is_none());
}

#[test]
fn rpc_commands_are_dispatched_to_running_owners() {
    assert!(check_command_connect(Some(true)).is_ok());
    for owner in [None, Some(false)] {
        let err = check_command_connect(owner).expect_err("no owner");
        assert_eq!(err.code, RpcCode::NotFound);
        assert_eq!(err.message, "device not found");
    }
    let command = proto_command(ProtoCommand {
        capability: "dimmer".into(),
        action: "set".into(),
        args: vec![
            ProtoKeyValue { key: "level".into(), value: Some(WireValue::Int(7)) },
            ProtoKeyValue { key: "none".into(), value: None },
        ],
    });
    assert_eq!(command.args.len(), 2);
    assert_eq!(command.args[0].key, "level");
    assert!(matches!(command.args[0].value, WitValue::IntVal(7)));
    assert!(matches!(&command.args[1].value, WitValue::JsonVal(j) if j.is_empty()));
}

#[test]
fn rpc_faults_are_internal() {
    let cases = [
        (HostFault::Dispatch, "device command dispatch failed"),
        (HostFault::Logs, "logs query failed"),
        (HostFault::Install, "install task join failed"),
        (HostFault::Uninstall, "uninstall task join failed"),
        (HostFault::Start("no wasm".into()), "start_instance failed: no wasm"),
        (HostFault::NotRunning("trap".into()), "wait_for_running failed: trap"),
    ];
    for (fault, message) in cases {
        let err = host_fault(fault);
        assert_eq!(err.code, RpcCode::Internal);
        assert_eq!(err.message, message);
    }
}
