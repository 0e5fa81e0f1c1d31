//! The tools and prompts of the MCP surface.

use oxidhome_core::api::mcp::catalogue::{list_tools, route_tool, ToolKind};
use oxidhome_core::api::mcp::contents::{EncodedBody, StoreFailure};
use oxidhome_core::api::mcp::error::{
    mcp_error, McpError, INTERNAL_ERROR_CODE, INVALID_PARAMS_CODE, METHOD_NOT_FOUND_CODE,
    RESOURCE_BUSY_CODE, RESOURCE_TOO_LARGE_CODE, SCOPE_DENIED_CODE,
};
use oxidhome_core::api::mcp::messages::{
    cap_message, command_result_json, truncate_plugin_error, MAX_PLUGIN_ERROR_MESSAGE_BYTES,
};
use oxidhome_core::api::mcp::prompts::{
    canonical_prompt_name, draft_automation_message, get, list_prompts, ArgValue,
};
use oxidhome_core::api::mcp::resources::LedgerWrite;
use oxidhome_core::api::mcp::tool_bodies::{
    check_not_running, check_start_tool, device_args, device_command, device_outcome,
    device_target, events_history_failure, events_history_plan, id_argument, install_failure,
    logs_query_failure, logs_query_plan, plugin_unknown, plugins_list_args, plugins_start_args,
    plugins_stop_args, start_result, uninstall_result, DeviceSendCommandArgs, EventsHistoryArgs,
    InstallEnd, LogsQueryArgs, PluginsStartArgs, PluginsStopArgs, StartEnd, UninstallEnd,
};
use oxidhome_core::api::mcp::tools::{
    attach_audit_meta, attach_audit_meta_to_error, begin, encoded_outcome,
    new_completed_audit_entry, new_pending_audit_entry, step, CallAction, CallEvent, CallStage,
    FinalizeInput, ToolContent, ToolOutcome, ToolValue,
};
use oxidhome_core::api::wire::{WireCommandResult, WireKeyValue, WireValue};
use oxidhome_core::auth::Actor;
use oxidhome_core::json_value::{json_text, object1, Json};
use oxidhome_core::overrides::table_from_json;
use oxidhome_core::state::{
    CommandResult, InstallError, KeyValue, LogLevel, TopicMatch, UninstallError, WitError, WitValue,
};
use oxidhome_core::text_map::TextMap;

fn text_at<'a>(value: &'a Json, name: &str) -> Option<&'a str> {
    match value.get(name) {
        Some(Json::Text(t)) => Some(t.as_str()),
        _ => None,
    }
}

fn intent_at(data: &Json) -> Option<i128> {
    match data.get("oxidhome.audit")?.get("intent_id") {
        Some(Json::Int(n)) => Some(*n),
        _ => None,
    }
}

#[test]
fn passes_through_short_messages_unchanged() {
    let short = "brief plugin error".to_string();
    assert_eq!(cap_message(short.clone()), short);
}

#[test]
fn truncates_over_cap_ascii_message() {
    let big = "x".repeat(MAX_PLUGIN_ERROR_MESSAGE_BYTES + 100);
    let out = cap_message(big);
    assert!(
        out.len() <= MAX_PLUGIN_ERROR_MESSAGE_BYTES + 32,
        "capped output {} B must fit within cap + suffix; got {}",
        MAX_PLUGIN_ERROR_MESSAGE_BYTES,
        out.len(),
    );
    assert!(out.ends_with("[truncated by host]"));
}

#[test]
fn truncation_respects_utf8_char_boundaries() {
    let emoji = "😀";
    assert_eq!(emoji.len(), 4);
    let big: String = emoji.repeat((MAX_PLUGIN_ERROR_MESSAGE_BYTES / 4) + 100);
    assert!(big.len() > MAX_PLUGIN_ERROR_MESSAGE_BYTES);
    let out = cap_message(big);
    assert!(out.is_char_boundary(out.len() - "… [truncated by host]".len()));
    assert!(out.ends_with("[truncated by host]"));
}

#[test]
fn truncation_keeps_the_longest_whole_prefix() {
    let big = format!("a{}", "é".repeat(MAX_PLUGIN_ERROR_MESSAGE_BYTES));
    let out = cap_message(big);
    let kept = out.strip_suffix("… [truncated by host]").expect("suffix");
    assert_eq!(kept.len(), MAX_PLUGIN_ERROR_MESSAGE_BYTES - 1);
}

#[test]
fn attaches_audit_correlation_when_data_is_absent() {
    let err = mcp_error(INTERNAL_ERROR_CODE, "plugin trapped after actuation".to_string());
    let err = attach_audit_meta_to_error(err, 42, "device.send_command");
    let data = err.data.expect("audit meta must land on data");
    assert_eq!(intent_at(&data), Some(42), "intent id must reach the client");
    let note = data.get("oxidhome.audit").unwrap();
    assert_eq!(text_at(note, "path"), Some("mcp.tool.device.send_command"));
}

#[test]
fn preserves_existing_object_data() {
    let err = McpError {
        code: INTERNAL_ERROR_CODE,
        message: "trapped".to_string(),
        data: Some(object1("trace_id", json_text("abc"))),
    };
    let err = attach_audit_meta_to_error(err, 7, "device.send_command");
    let data = err.data.expect("data must remain");
    assert_eq!(text_at(&data, "trace_id"), Some("abc"), "pre-existing keys must survive");
    assert_eq!(intent_at(&data), Some(7));
}

#[test]
fn wraps_non_object_data_under_previous_key() {
    let err = McpError {
        code: INTERNAL_ERROR_CODE,
        message: "trapped".to_string(),
        data: Some(json_text("opaque string payload")),
    };
    let err = attach_audit_meta_to_error(err, 3, "device.send_command");
    let data = err.data.expect("data must remain");
    assert_eq!(text_at(&data, "previous"), Some("opaque string payload"));
    assert_eq!(intent_at(&data), Some(3));
}

#[test]
fn outcomes_map_to_codes() {
    let cases = [
        (ToolOutcome::InvalidParams("r".into()), 400, "deny", INVALID_PARAMS_CODE),
        (ToolOutcome::TooLarge("r".into()), 413, "deny", RESOURCE_TOO_LARGE_CODE),
        (ToolOutcome::Busy("r".into()), 503, "error", RESOURCE_BUSY_CODE),
        (ToolOutcome::UnknownTool("r".into()), 404, "deny", METHOD_NOT_FOUND_CODE),
        (ToolOutcome::Denied { required: "x:y" }, 403, "deny", SCOPE_DENIED_CODE),
        (ToolOutcome::Internal("r".into()), 500, "error", INTERNAL_ERROR_CODE),
    ];
    for (outcome, status, decision, code) in cases {
        assert_eq!(outcome.status(), status);
        assert_eq!(outcome.decision(), decision);
        let err = outcome.into_result().expect_err("an error");
        assert_eq!(err.code, code);
    }
    let failed = ToolOutcome::ExecErr { message: "m".into(), structured: None, domain_kind: None };
    assert_eq!(failed.status(), 200);
    assert_eq!(failed.decision(), "allow");
    assert!(matches!(
        failed.into_result().unwrap().content,
        ToolContent::ErrorText(t) if t == "m"
    ));
}

#[test]
fn tools_are_found_by_name() {
    let tools = list_tools();
    assert_eq!(tools.len(), 9);
    for tool in &tools {
        let kind = route_tool(tool.name).expect("listed tools exist");
        assert_eq!(kind.name(), tool.name);
        assert!(tool.schema.get("type").is_some());
    }
    assert!(route_tool("plugins.explode").is_none());
    assert_eq!(ToolKind::PluginsStop.scope(), "plugins:stop");
}

#[test]
fn calls_run_on_the_record() {
    let actor = Actor::api("tok", vec!["plugins:list".to_string()]);
    let (stage, action) = begin("plugins.list", &actor, true);
    match action {
        CallAction::WriteIntent(row) => {
            assert_eq!(row.token_id, "tok");
            assert_eq!(row.path, "mcp.tool.plugins.list");
        }
        other => panic!("{other:?}"),
    }
    let (stage, action) = step(stage, CallEvent::IntentWritten(5));
    assert!(matches!(action, CallAction::RunTool(ToolKind::PluginsList)));
    let done = ToolOutcome::Success { value: ToolValue::Text("{}".into()), plugin_reached: false };
    let (stage, action) = step(stage, CallEvent::Ended(done));
    match action {
        CallAction::Complete { intent_id, input, answer } => {
            assert_eq!(intent_id, 5);
            assert_eq!(input.status, 200);
            assert_eq!(input.decision, "allow");
            assert!(input.execution_outcome.is_none());
            assert!(answer.unwrap().meta.is_some());
        }
        other => panic!("{other:?}"),
    }
    assert!(matches!(stage, CallStage::Done));
}

#[test]
fn refused_calls_leave_a_row() {
    let nobody = Actor::api("tok", vec![]);
    let (stage, action) = begin("plugins.list", &nobody, true);
    match action {
        CallAction::WriteRow(row) => {
            assert_eq!(row.status, 403);
            assert_eq!(row.required_scope.as_deref(), Some("plugins:list"));
        }
        other => panic!("{other:?}"),
    }
    let (_, action) = step(stage, CallEvent::RowWrite(LedgerWrite::Written));
    match action {
        CallAction::Answer(Err(err)) => assert_eq!(err.code, SCOPE_DENIED_CODE),
        other => panic!("{other:?}"),
    }
    let (stage, _) = begin("no.such.tool", &nobody, true);
    let (_, action) = step(stage, CallEvent::RowWrite(LedgerWrite::Failed));
    match action {
        CallAction::Answer(Err(err)) => assert_eq!(err.code, INTERNAL_ERROR_CODE),
        other => panic!("{other:?}"),
    }
}

#[test]
fn unrecorded_calls_do_not_run() {
    let admin = Actor::api("tok", vec!["*".to_string()]);
    let (_, action) = begin("plugins.list", &admin, false);
    assert!(!matches!(action, CallAction::RunTool(_)));
    for event in [CallEvent::IntentFailed, CallEvent::IntentBroken] {
        let (stage, _) = begin("plugins.list", &admin, true);
        let (_, action) = step(stage, event);
        match action {
            CallAction::Answer(Err(err)) => assert_eq!(err.code, INTERNAL_ERROR_CODE),
            other => panic!("{other:?}"),
        }
    }
}

#[test]
fn rows_follow_the_outcome() {
    let pending = new_pending_audit_entry("tok", "plugins.stop");
    assert_eq!(pending.path, "mcp.tool.plugins.stop");
    assert_eq!(pending.actor_kind, "mcp");
    let failed = ToolOutcome::ExecErr {
        message: "m".into(),
        structured: None,
        domain_kind: Some("unavailable"),
    };
    let row = new_completed_audit_entry("tok", "plugins.stop", &failed);
    assert_eq!(row.status, 200);
    let input = FinalizeInput::from_outcome(&failed);
    assert_eq!(input.execution_outcome.as_deref(), Some("failed"));
    assert_eq!(input.domain_error.as_deref(), Some("unavailable"));
    let reached = ToolOutcome::Success { value: ToolValue::Text("1".into()), plugin_reached: true };
    let input = FinalizeInput::from_outcome(&reached);
    assert_eq!(input.execution_outcome.as_deref(), Some("success"));
}

#[test]
fn successes_carry_their_row() {
    let result = ToolOutcome::Success { value: ToolValue::Text("1".into()), plugin_reached: true }
        .into_result()
        .unwrap();
    let result = attach_audit_meta(result, 9, "logs.query");
    let meta = result.meta.expect("meta");
    assert_eq!(meta.len(), 1);
    assert_eq!(meta[0].0, "oxidhome.audit");
    assert!(matches!(meta[0].1.get("intent_id"), Some(Json::Int(9))));
}

#[test]
fn bodies_become_outcomes() {
    assert!(matches!(
        encoded_outcome(EncodedBody::Json("{}".into())),
        ToolOutcome::Success { value: ToolValue::Text(t), plugin_reached: false } if t == "{}"
    ));
    assert!(matches!(
        encoded_outcome(EncodedBody::TooLarge("r".into())),
        ToolOutcome::TooLarge(_)
    ));
    assert!(matches!(
        encoded_outcome(EncodedBody::SerializeFailed("r".into())),
        ToolOutcome::Internal(_)
    ));
}

fn refusal<T: std::fmt::Debug>(r: Result<T, ToolOutcome>) -> String {
    match r {
        Err(ToolOutcome::InvalidParams(reason)) => reason,
        other => panic!("{other:?}"),
    }
}

fn report<T: std::fmt::Debug>(r: Result<T, ToolOutcome>) -> (String, Option<Json>) {
    match r {
        Err(ToolOutcome::ExecErr { message, structured, domain_kind: None }) => (message, structured),
        other => panic!("{other:?}"),
    }
}

#[test]
fn command_arguments_are_checked() {
    assert_eq!(
        refusal(device_args(None)),
        "device.send_command requires `device_id`, `capability`, and `action`"
    );
    assert_eq!(
        refusal(device_args(Some(Err("missing field".into())))),
        "device.send_command arguments do not match the input schema: missing field"
    );
    let args = DeviceSendCommandArgs {
        device_id: "d".into(),
        capability: "switch".into(),
        action: "set".into(),
        args: vec![WireKeyValue { key: "on".into(), value: WireValue::Bool(true) }],
    };
    let args = device_args(Some(Ok(args))).expect("fine");
    let (device, command) = device_command(args);
    assert_eq!(device, "d");
    assert_eq!(command.capability, "switch");
    assert_eq!(command.action, "set");
    assert!(matches!(command.args[0].value, WitValue::BoolVal(true)));
    assert!(device_target("d", Some(true)).is_ok());
    for missing in [None, Some(false)] {
        assert_eq!(
            report(device_target("d", missing)).0,
            "device `d` not found or not running"
        );
    }
}

#[test]
fn command_answers_become_outcomes() {
    assert!(matches!(
        device_outcome(None),
        ToolOutcome::Internal(r) if r == "device command dispatch failed"
    ));
    assert!(matches!(
        device_outcome(Some(CommandResult::Done)),
        ToolOutcome::Success { plugin_reached: true, .. }
    ));
    let failed = CommandResult::Failed(WitError::Unavailable("bulb off".into()));
    match device_outcome(Some(failed)) {
        ToolOutcome::ExecErr { message, structured: Some(_), domain_kind } => {
            assert_eq!(message, "device.send_command failed: unavailable — bulb off");
            assert_eq!(domain_kind, Some("unavailable"));
        }
        other => panic!("{other:?}"),
    }
}

#[test]
fn long_plugin_errors_are_cut() {
    let failed = CommandResult::Failed(WitError::Internal("x".repeat(10_000)));
    match truncate_plugin_error(failed) {
        CommandResult::Failed(WitError::Internal(m)) => {
            assert!(m.ends_with("… [truncated by host]"));
            assert!(m.len() <= MAX_PLUGIN_ERROR_MESSAGE_BYTES + 32);
        }
        other => panic!("{other:?}"),
    }
}

#[test]
fn states_become_objects() {
    let mut state = TextMap::new();
    state.insert("level".to_string(), WireValue::Int(4));
    let tree = command_result_json(WireCommandResult::OkWithState { state });
    assert_eq!(text_at(&tree, "kind"), Some("ok_with_state"));
    let level = tree.get("state").unwrap().get("level").unwrap();
    assert_eq!(text_at(level, "t"), Some("Int"));
    assert!(matches!(level.get("v"), Some(Json::Int(4))));
}

fn log_args() -> LogsQueryArgs {
    LogsQueryArgs {
        since: None,
        until: None,
        level: Some(LogLevel::Warn),
        instance: None,
        plugin: None,
        device: None,
        target: None,
        target_prefix: None,
        span_path_prefix: None,
        limit: None,
    }
}

#[test]
fn log_queries_are_planned() {
    let (query, limit) = logs_query_plan(Ok(log_args()), 0).expect("plan");
    assert_eq!(query.min_level, Some(LogLevel::Warn));
    assert_eq!(limit, 100);
    let args = LogsQueryArgs { since: Some("1s".into()), limit: Some(0), ..log_args() };
    let (query, limit) = logs_query_plan(Ok(args), 5_000).expect("plan");
    assert_eq!(query.since_ms, Some(4_000));
    assert_eq!(limit, 1);
    let args = LogsQueryArgs { since: Some("x".into()), ..log_args() };
    assert!(refusal(logs_query_plan(Ok(args), 0)).contains("`since`"));
    assert!(refusal(logs_query_plan(Err("w".into()), 0)).starts_with("logs.query arguments"));
    assert!(matches!(
        logs_query_failure(StoreFailure::Saturated),
        ToolOutcome::Busy(r) if r == "MCP store-query queue saturated (8 in-flight); retry shortly"
    ));
    assert!(matches!(logs_query_failure(StoreFailure::Failed), ToolOutcome::Internal(_)));
    assert!(matches!(logs_query_failure(StoreFailure::Broken), ToolOutcome::Internal(_)));
}

fn event_args() -> EventsHistoryArgs {
    EventsHistoryArgs {
        since: None,
        until: None,
        device: None,
        instance: None,
        plugin: None,
        topic: None,
        topic_prefix: None,
        after_id: None,
        before_id: None,
        limit: None,
    }
}

#[test]
fn event_queries_are_planned() {
    let args = EventsHistoryArgs {
        topic: Some("t".into()),
        topic_prefix: Some("p".into()),
        before_id: Some(9),
        limit: Some(1000),
        ..event_args()
    };
    let (query, limit) = events_history_plan(Ok(args), 0).expect("plan");
    assert_eq!(query.topic, Some(("p".to_string(), TopicMatch::Prefix)));
    assert_eq!(query.before_id, Some(9));
    assert_eq!(limit, 100);
    let args = EventsHistoryArgs { topic: Some("t".into()), ..event_args() };
    let (query, _) = events_history_plan(Ok(args), 0).expect("plan");
    assert_eq!(query.topic, Some(("t".to_string(), TopicMatch::Exact)));
    let args = EventsHistoryArgs { after_id: Some(u64::MAX), ..event_args() };
    assert_eq!(
        refusal(events_history_plan(Ok(args), 0)),
        "invalid `after_id` value `18446744073709551615`; must be <= 9223372036854775807"
    );
    let args = EventsHistoryArgs { before_id: Some(u64::MAX), ..event_args() };
    assert!(refusal(events_history_plan(Ok(args), 0)).contains("before_id"));
    assert!(refusal(events_history_plan(Err("w".into()), 0)).ends_with(": w"));
    assert!(matches!(
        events_history_failure(StoreFailure::Failed),
        ToolOutcome::Internal(r) if r == "event query failed"
    ));
}

#[test]
fn ids_must_not_be_empty() {
    assert!(plugins_list_args(Ok(())).is_ok());
    assert!(refusal(plugins_list_args(Err("w".into()))).starts_with("plugins.list"));
    assert_eq!(
        refusal(id_argument("plugins.show", "plugin_id", None)),
        "plugins.show requires a `plugin_id` argument"
    );
    assert_eq!(
        refusal(id_argument("plugins.show", "plugin_id", Some(Ok(String::new())))),
        "`plugin_id` must not be empty"
    );
    assert_eq!(
        id_argument("plugins.show", "plugin_id", Some(Ok("p".into()))).unwrap(),
        "p"
    );
    let empty = PluginsStopArgs { plugin_id: "p".into(), instance_id: Some(String::new()) };
    assert_eq!(
        refusal(plugins_stop_args(Some(Ok(empty)))),
        "`instance_id`, when supplied, must not be empty"
    );
    let all = PluginsStopArgs { plugin_id: "p".into(), instance_id: None };
    assert!(plugins_stop_args(Some(Ok(all))).is_ok());
    assert!(refusal(plugins_stop_args(None)).contains("plugins.stop requires"));
    assert!(matches!(plugin_unknown("p"), ToolOutcome::ExecErr { message, .. }
        if message == "plugin `p` is not installed and has no running instances"));
}

#[test]
fn starts_name_their_instance() {
    let args = PluginsStartArgs { plugin_id: "p".into(), instance_id: None, config_overrides: None };
    let (plugin, instance, overrides) = plugins_start_args(Some(Ok(args))).expect("args");
    assert_eq!((plugin.as_str(), instance.as_str()), ("p", "p"));
    assert!(overrides.is_none());
    assert!(refusal(check_start_tool("p", "../x", false, true)).contains("../x"));
    let (message, detail) = report(check_start_tool("p", "p", true, false));
    assert_eq!(message, "plugin `p` is not installed");
    assert_eq!(text_at(&detail.unwrap(), "kind"), Some("not_installed"));
    assert!(check_start_tool("p", "p", true, true).is_ok());
    let up = StartEnd::Running { state: "Running".into() };
    assert_eq!(start_result(up).unwrap(), "Running");
    assert!(matches!(start_result(StartEnd::Failed), Err(ToolOutcome::Internal(_))));
    assert!(matches!(start_result(StartEnd::NotRunning), Err(ToolOutcome::Internal(_))));
}

#[test]
fn running_plugins_stay() {
    assert!(check_not_running("p", &vec![]).is_ok());
    let (message, detail) = report(check_not_running("p", &vec!["a".into(), "b".into()]));
    assert_eq!(
        message,
        "plugin `p` has running instances: a, b — call plugins.stop first"
    );
    let detail = detail.unwrap();
    assert_eq!(text_at(&detail, "kind"), Some("instances_running"));
    assert!(matches!(detail.get("running"), Some(Json::List(l)) if l.len() == 2));
}

#[test]
fn removals_and_installations_end() {
    assert!(uninstall_result("p", UninstallEnd::Removed).is_ok());
    let gone = UninstallError::NotInstalled { plugin_id: "p".into() };
    assert_eq!(
        report(uninstall_result("p", UninstallEnd::Failed(gone))).0,
        "plugin `p` is not installed"
    );
    let rootless = UninstallEnd::Failed(UninstallError::NoPluginsRoot);
    assert!(report(uninstall_result("p", rootless)).1.is_some());
    let io = UninstallEnd::Failed(UninstallError::Io("disk".into()));
    assert!(matches!(uninstall_result("p", io), Err(ToolOutcome::Internal(r)) if !r.contains("disk")));
    assert!(matches!(
        uninstall_result("p", UninstallEnd::Broken),
        Err(ToolOutcome::Internal(_))
    ));

    let missing = InstallEnd::Failed(InstallError::SourceMissing { path: "/x".into() });
    assert!(matches!(install_failure(missing, None), ToolOutcome::ExecErr { message, .. }
        if message == "source dir is missing or has no manifest.toml: /x"));
    let twice = InstallEnd::Failed(InstallError::AlreadyInstalled { plugin_id: "p".into() });
    assert!(matches!(install_failure(twice, None), ToolOutcome::ExecErr { message, .. }
        if message == "plugin `p` is already installed"));
    let bad = || InstallEnd::Failed(InstallError::BadManifest {
        path: "/x/m.toml".into(),
        reason: "no id".into(),
    });
    assert!(matches!(install_failure(bad(), Some("m.toml")), ToolOutcome::ExecErr { message, .. }
        if message == "bad manifest in `m.toml`: no id"));
    assert!(matches!(install_failure(bad(), None), ToolOutcome::ExecErr { message, .. }
        if message == "bad manifest in `manifest.toml`: no id"));
    let io = InstallEnd::Failed(InstallError::Io("disk".into()));
    assert!(matches!(install_failure(io, None), ToolOutcome::Internal(r) if !r.contains("disk")));
    assert!(matches!(
        install_failure(InstallEnd::Broken, None),
        ToolOutcome::Internal(r) if r == "install task panicked"
    ));
}

#[test]
fn overrides_are_tables() {
    let table = table_from_json(r#"{"a":1,"b":{"c":"x"}}"#).expect("a table");
    assert_eq!(table["a"].as_integer(), Some(1));
    assert_eq!(table["b"]["c"].as_str(), Some("x"));
    assert!(table_from_json("[1]").is_err());
    assert!(table_from_json("3").is_err());
    assert!(table_from_json("{").is_err());
}

fn arguments(trigger: &str, action: &str) -> TextMap<ArgValue> {
    let mut map = TextMap::new();
    map.insert("trigger".to_string(), ArgValue::Text(trigger.to_string()));
    map.insert("action".to_string(), ArgValue::Text(action.to_string()));
    map
}

#[test]
fn prompts_need_their_scopes() {
    assert_eq!(list_prompts().len(), 3);
    for prompt in list_prompts() {
        assert_eq!(canonical_prompt_name(prompt.name), prompt.name);
    }
    let nobody = Actor::api("tok", vec![]);
    let err = get("summarize_today", None, &nobody).expect_err("no scope");
    assert_eq!(err.code, SCOPE_DENIED_CODE);
    assert_eq!(err.code, -32001);
    let other = get("explain_recent_errors", None, &nobody).expect_err("no scope");
    assert_eq!(err.message, other.message, "a refusal names no scope");
    assert!(!err.message.contains(':'), "{}", err.message);
    let admin = Actor::api("tok", vec!["*".to_string()]);
    assert!(get("summarize_today", None, &admin).is_ok());
    assert!(get("explain_recent_errors", None, &admin).is_ok());
    assert!(get("no_such_prompt", None, &admin).is_err());
}

#[test]
fn drafts_quote_trigger_and_action() {
    let admin = Actor::api("tok", vec!["*".to_string()]);
    let args = arguments("door opens", "light on");
    let prompt = get("draft_automation", Some(&args), &admin).expect("prompt");
    assert!(prompt.text.contains("> door opens"));
    assert!(prompt.text.contains("> light on"));
    assert_eq!(prompt.text, draft_automation_message("door opens", "light on"));
    assert_eq!(
        get("draft_automation", None, &admin).expect_err("no args").code,
        INVALID_PARAMS_CODE
    );
    let mut partial = TextMap::new();
    partial.insert("trigger".to_string(), ArgValue::Other);
    assert!(get("draft_automation", Some(&partial), &admin).is_err());
}

#[test]
fn plugin_state_reaches_the_wire() {
    let result = CommandResult::OkWithState(vec![KeyValue {
        key: "on".into(),
        value: WitValue::BoolVal(false),
    }]);
    match device_outcome(Some(result)) {
        ToolOutcome::Success { value: ToolValue::Tree(tree), plugin_reached: true } => {
            let on = tree.get("state").unwrap().get("on").unwrap();
            assert!(matches!(on.get("v"), Some(Json::Bool(false))));
        }
        other => panic!("{other:?}"),
    }
}
