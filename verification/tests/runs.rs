//! Tools and reads from their first step to their last.

use oxidhome_core::api::mcp::contents::{
    BlobOwner, BlobRead, BlobSlot, CappedWriter, EncodeEnd, InstanceRow, PingEnd, StoreFailure,
    BLOB_INLINE_MAX_BYTES,
};
use oxidhome_core::api::mcp::error::{INTERNAL_ERROR_CODE, RESOURCE_BUSY_CODE, SCOPE_DENIED_CODE};
use oxidhome_core::api::mcp::read_runs::{
    begin_read, step_read, DeviceEntry, HostCounts, ReadAction, ReadEvent, ReadRun, ReadStage,
    ResourceBody,
};
use oxidhome_core::api::mcp::resources::{Contents, LedgerWrite, ReadOutcome};
use oxidhome_core::api::mcp::tool_bodies::{
    DeviceSendCommandArgs, InstallEnd, LogsQueryArgs, PluginsStartArgs, PluginsStopArgs, StartEnd,
    UninstallEnd,
};
use oxidhome_core::api::mcp::tool_runs::{
    begin_run, step_run, InstalledRow, RunAction, RunEvent, RunStage, ToolArgs, ToolBody,
};
use oxidhome_core::api::mcp::tools::{ToolOutcome, ToolValue};
use oxidhome_core::api::plugins::{InstalledPlugin, RunningInstance, StopAttempt};
use oxidhome_core::auth::Actor;
use oxidhome_core::state::{
    ButtonEvent, CommandResult, EventPayload, HistoricalEvent, InstallError,
};

fn written(text: &str) -> EncodeEnd {
    let mut writer = CappedWriter::with_cap(1_000);
    writer.write(text.as_bytes()).expect("fits");
    EncodeEnd::Written(writer)
}

fn instance(id: &str, plugin: &str) -> RunningInstance {
    RunningInstance { instance_id: id.to_string(), plugin_id: plugin.to_string() }
}

fn command_args() -> DeviceSendCommandArgs {
    DeviceSendCommandArgs {
        device_id: "dev-1".into(),
        capability: "switch".into(),
        action: "toggle".into(),
        args: vec![],
    }
}

#[test]
fn command_runs_to_its_answer() {
    let (stage, action) = begin_run(ToolArgs::DeviceSendCommand(Some(Ok(command_args()))), 0);
    assert!(matches!(action, RunAction::FindOwner { device_id } if device_id == "dev-1"));
    let (stage, action) = step_run(stage, RunEvent::Owner(Some(true)));
    match action {
        RunAction::Dispatch { device_id, command } => {
            assert_eq!(device_id, "dev-1");
            assert_eq!(command.action, "toggle");
        }
        other => panic!("{other:?}"),
    }
    let (stage, action) = step_run(stage, RunEvent::Answered(Some(CommandResult::Done)));
    assert!(matches!(
        action,
        RunAction::End(ToolOutcome::Success { plugin_reached: true, .. })
    ));
    assert!(matches!(stage, RunStage::Done));
}

#[test]
fn command_without_owner_is_not_sent() {
    for owner in [None, Some(false)] {
        let (stage, _) = begin_run(ToolArgs::DeviceSendCommand(Some(Ok(command_args()))), 0);
        let (_, action) = step_run(stage, RunEvent::Owner(owner));
        assert!(matches!(action, RunAction::End(ToolOutcome::ExecErr { .. })));
    }
}

#[test]
fn log_query_runs_to_its_body() {
    let args = LogsQueryArgs {
        since: Some("1m".into()),
        until: None,
        level: None,
        instance: None,
        plugin: None,
        device: None,
        target: None,
        target_prefix: None,
        span_path_prefix: None,
        limit: Some(3),
    };
    let (stage, action) = begin_run(ToolArgs::LogsQuery(Ok(args)), 100_000);
    match action {
        RunAction::QueryLogs { query, limit } => {
            assert_eq!(query.since_ms, Some(40_000));
            assert_eq!(limit, 3);
        }
        other => panic!("{other:?}"),
    }
    let (stage, action) = step_run(stage, RunEvent::Logs(Ok(vec![])));
    assert!(matches!(action, RunAction::Encode(ToolBody::Logs { logs }) if logs.is_empty()));
    let (_, action) = step_run(stage, RunEvent::Encoded(written("{\"logs\":[]}")));
    match action {
        RunAction::End(ToolOutcome::Success { value: ToolValue::Text(text), plugin_reached }) => {
            assert_eq!(text, "{\"logs\":[]}");
            assert!(!plugin_reached);
        }
        other => panic!("{other:?}"),
    }
}

#[test]
fn saturated_stores_end_a_query() {
    let (stage, _) = begin_run(
        ToolArgs::EventsHistory(Err("ignored".into())),
        0,
    );
    assert!(matches!(stage, RunStage::Done));
    let (_, action) = step_run(RunStage::AwaitEvents, RunEvent::Events(Err(StoreFailure::Saturated)));
    assert!(matches!(action, RunAction::End(ToolOutcome::Busy(_))));
}

#[test]
fn listing_runs_to_its_body() {
    let (stage, action) = begin_run(ToolArgs::PluginsList(Ok(())), 0);
    assert!(matches!(action, RunAction::ListPlugins));
    let installed = vec![InstalledPlugin { plugin_id: "p".into(), version: "1".into() }];
    let event = RunEvent::Listing { installed, running: vec!["p".into(), "q".into()] };
    let (_, action) = step_run(stage, event);
    match action {
        RunAction::Encode(ToolBody::Plugins { plugins }) => {
            assert_eq!(plugins.len(), 2);
            assert_eq!(plugins[0].instance_count, 1);
            assert!(!plugins[1].installed);
        }
        other => panic!("{other:?}"),
    }
}

#[test]
fn unknown_plugins_are_reported() {
    let (stage, _) = begin_run(ToolArgs::PluginsShow(Some(Ok("p".into()))), 0);
    let (_, action) = step_run(stage, RunEvent::Detail { installed: None, rows: vec![] });
    assert!(matches!(action, RunAction::End(ToolOutcome::ExecErr { .. })));
    let (stage, _) = begin_run(ToolArgs::PluginsShow(Some(Ok("p".into()))), 0);
    let rows = vec![InstanceRow {
        instance_id: "i".into(),
        plugin_id: "p".into(),
        state: "Running".into(),
    }];
    let (_, action) = step_run(stage, RunEvent::Detail { installed: None, rows });
    assert!(matches!(action, RunAction::Encode(ToolBody::Plugin(d)) if d.instances.len() == 1));
}

#[test]
fn stop_takes_the_chosen_instances() {
    let args = PluginsStopArgs { plugin_id: "p".into(), instance_id: None };
    let (stage, action) = begin_run(ToolArgs::PluginsStop(Some(Ok(args))), 0);
    assert!(matches!(action, RunAction::ListInstances));
    let list = vec![instance("a", "p"), instance("b", "q"), instance("c", "p")];
    let (stage, action) = step_run(stage, RunEvent::Instances(list));
    assert!(matches!(action, RunAction::Stop { instances } if instances == vec!["a", "c"]));
    let attempts = vec![
        StopAttempt { instance_id: "a".into(), stopped: false },
        StopAttempt { instance_id: "c".into(), stopped: true },
    ];
    let (_, action) = step_run(stage, RunEvent::Stops(attempts));
    assert!(matches!(action, RunAction::Encode(ToolBody::Stopped { stopped }) if stopped == vec!["c"]));
}

#[test]
fn start_is_prepared_before_it_is_made() {
    let args = || PluginsStartArgs { plugin_id: "p".into(), instance_id: None, config_overrides: None };
    let (stage, action) = begin_run(ToolArgs::PluginsStart(Some(Ok(args()))), 0);
    assert!(matches!(action, RunAction::PrepareStart { instance_id, .. } if instance_id == "p"));
    let (stage, action) = step_run(stage, RunEvent::Readiness { id_is_safe: true, installed: true });
    assert!(matches!(action, RunAction::Start { plugin_id, .. } if plugin_id == "p"));
    let up = RunEvent::Started(StartEnd::Running { state: "Running".into() });
    let (_, action) = step_run(stage, up);
    assert!(matches!(
        action,
        RunAction::Encode(ToolBody::Started { state, .. }) if state == "Running"
    ));
    let (stage, _) = begin_run(ToolArgs::PluginsStart(Some(Ok(args()))), 0);
    let (_, action) = step_run(stage, RunEvent::Readiness { id_is_safe: false, installed: true });
    assert!(matches!(action, RunAction::End(ToolOutcome::InvalidParams(_))));
}

#[test]
fn install_ends_with_its_row() {
    let (stage, action) = begin_run(ToolArgs::PluginsInstall(Some(Ok("/src".into()))), 0);
    assert!(matches!(action, RunAction::Install { source_dir } if source_dir == "/src"));
    let row = InstalledRow {
        plugin_id: "p".into(),
        version: "1".into(),
        installed_path: "/state/plugins/p".into(),
    };
    let (_, action) = step_run(stage, RunEvent::Installed(row));
    assert!(matches!(action, RunAction::Encode(ToolBody::Installed(r)) if r.plugin_id == "p"));
    let (stage, _) = begin_run(ToolArgs::PluginsInstall(Some(Ok("/src".into()))), 0);
    let failed = RunEvent::NotInstalled {
        end: InstallEnd::Failed(InstallError::NoPluginsRoot),
        file: None,
    };
    let (_, action) = step_run(stage, failed);
    assert!(matches!(action, RunAction::End(ToolOutcome::ExecErr { .. })));
}

#[test]
fn running_plugins_are_kept() {
    let begin = || begin_run(ToolArgs::PluginsUninstall(Some(Ok("p".into()))), 0);
    let (stage, action) = begin();
    assert!(matches!(action, RunAction::PrepareUninstall { plugin_id } if plugin_id == "p"));
    let (_, action) = step_run(stage, RunEvent::Instances(vec![instance("i", "p")]));
    assert!(matches!(action, RunAction::End(ToolOutcome::ExecErr { .. })));
    let (stage, _) = begin();
    let (stage, action) = step_run(stage, RunEvent::Instances(vec![instance("i", "q")]));
    assert!(matches!(action, RunAction::Uninstall { plugin_id } if plugin_id == "p"));
    let (_, action) = step_run(stage, RunEvent::Removal(UninstallEnd::Removed));
    assert!(matches!(action, RunAction::Encode(ToolBody::Uninstalled { plugin_id }) if plugin_id == "p"));
}

#[test]
fn stray_events_end_a_tool() {
    let (_, action) = step_run(RunStage::AwaitLogs, RunEvent::Owner(None));
    assert!(matches!(action, RunAction::End(ToolOutcome::Internal(_))));
}

fn admin() -> Actor {
    Actor::api("tok", vec!["*".to_string()])
}

fn recorded(run: ReadRun, action: ReadAction) -> ReadRun {
    match action {
        ReadAction::WriteRow(row) => {
            assert_eq!(row.token_id, "tok");
            assert_eq!(row.actor_kind, "mcp");
        }
        other => panic!("{other:?}"),
    }
    run
}

#[test]
fn device_listing_is_read() {
    let (run, action) = begin_read("oxidhome://devices", &admin(), true, 0);
    assert!(matches!(action, ReadAction::ListDevices));
    let devices = vec![DeviceEntry {
        device_id: "d".into(),
        owner_instance: "i".into(),
        name: "lamp".into(),
    }];
    let (run, action) = step_read(run, ReadEvent::Devices(devices));
    assert!(matches!(action, ReadAction::Encode(ResourceBody::Devices { devices }) if devices.len() == 1));
    let (run, action) = step_read(run, ReadEvent::Encoded(written("{}")));
    let run = recorded(run, action);
    let (run, action) = step_read(run, ReadEvent::RowWrite(LedgerWrite::Written));
    match action {
        ReadAction::Answer(Ok(result)) => {
            assert_eq!(result.uri, "oxidhome://devices");
            assert!(matches!(result.contents, Contents::Text { body, .. } if body == "{}"));
        }
        other => panic!("{other:?}"),
    }
    assert!(matches!(run.stage, ReadStage::Done));
}

#[test]
fn blob_is_read_from_its_installation() {
    let (run, action) = begin_read("oxidhome://blobs/cam%231/a%20b", &admin(), true, 0);
    assert!(matches!(action, ReadAction::FindInstance { instance_id } if instance_id == "cam#1"));
    let (run, action) = step_read(run, ReadEvent::Instance(BlobOwner::Loaded("inst-1".into())));
    assert!(matches!(action, ReadAction::TakeSlot));
    let (run, action) = step_read(run, ReadEvent::Slot(BlobSlot::Free));
    match action {
        ReadAction::ReadBlob { installation, instance_id, name, max_bytes } => {
            assert_eq!(installation, "inst-1");
            assert_eq!(instance_id, "cam#1");
            assert_eq!(name, "a b");
            assert_eq!(max_bytes, BLOB_INLINE_MAX_BYTES);
        }
        other => panic!("{other:?}"),
    }
    let found = BlobRead::Found { bytes: vec![0xff], mime: None };
    let (run, action) = step_read(run, ReadEvent::Blob(found));
    let run = recorded(run, action);
    assert!(matches!(
        run.stage,
        ReadStage::AwaitRow { outcome: ReadOutcome::OkBlob { ref blob_b64, .. } } if blob_b64 == "/w=="
    ));
    let (_, action) = step_read(run, ReadEvent::RowWrite(LedgerWrite::Failed));
    assert!(matches!(action, ReadAction::Answer(Err(e)) if e.code == INTERNAL_ERROR_CODE));
}

#[test]
fn events_are_read_with_their_filters() {
    let (run, action) = begin_read("oxidhome://events?limit=2", &admin(), true, 0);
    assert!(matches!(action, ReadAction::QueryEvents { limit: 2, .. }));
    let row = HistoricalEvent {
        id: 8,
        received_ms: 1,
        payload_ms: 2,
        device_id: None,
        instance_id: "i".into(),
        plugin_id: "p".into(),
        topic: "button".into(),
        payload: EventPayload::Button(ButtonEvent::Pressed),
    };
    let (_, action) = step_read(run, ReadEvent::Events(Ok(vec![row])));
    assert!(matches!(action, ReadAction::Encode(ResourceBody::Events { events }) if events[0].id == 8));
    let (run, action) = begin_read("oxidhome://events?nope=1", &admin(), true, 0);
    let run = recorded(run, action);
    assert!(matches!(run.stage, ReadStage::AwaitRow { outcome: ReadOutcome::InvalidParams(_) }));
}

#[test]
fn status_counts_after_the_ping() {
    let (run, action) = begin_read("oxidhome://status", &admin(), true, 0);
    assert!(matches!(action, ReadAction::Ping));
    let (run, action) = step_read(run, ReadEvent::Ping(PingEnd::Failed));
    assert!(matches!(action, ReadAction::Count));
    let counts = HostCounts {
        uptime_ms: 1,
        installed_plugins: 2,
        running_instances: 3,
        devices: 4,
    };
    let (_, action) = step_read(run, ReadEvent::Counts(counts));
    assert!(matches!(
        action,
        ReadAction::Encode(ResourceBody::Status { ok: false, counts: c }) if c == counts
    ));
}

#[test]
fn refused_reads_are_recorded() {
    let nobody = Actor::api("tok", vec![]);
    let (run, action) = begin_read("oxidhome://logs", &nobody, true, 0);
    let run = recorded(run, action);
    let (_, action) = step_read(run, ReadEvent::RowWrite(LedgerWrite::Written));
    assert!(matches!(action, ReadAction::Answer(Err(e)) if e.code == SCOPE_DENIED_CODE));
    let (_, action) = begin_read("oxidhome://logs", &nobody, false, 0);
    assert!(matches!(action, ReadAction::Answer(Err(e)) if e.code == RESOURCE_BUSY_CODE));
}
