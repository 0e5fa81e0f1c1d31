//! The way of a tool from its arguments to its outcome.
//!
//! A tool asks the host for one thing after another. Each step takes what the host found and says
//! what is to be done next, until the outcome is there.

use vstd::prelude::*;

use crate::api::mcp::catalogue::{tool_name, ToolKind};
use crate::api::mcp::contents::{
    encode_body_capped, instances_of_plugin, is_encoded_body, is_plugin_detail,
    plugins_detail_body, EncodeEnd, EncodedBody, InstalledDetail, InstanceRow, PluginDetail,
    StoreFailure,
};
use crate::api::mcp::tool_bodies::{
    check_not_running, check_start_tool, device_args, device_args_of, device_command,
    device_outcome, device_target, events_history_failure, events_history_plan, fails,
    history_plan_of, id_argument, id_argument_of, install_failure, is_command_of,
    is_dispatch_outcome, is_install_failure, is_running_check, is_start_check, is_start_result,
    is_store_failure, is_uninstall_result, logs_plan_of, logs_query_failure, logs_query_plan,
    mismatch_text, no_target_text, plugin_unknown, plugins_list_args, plugins_start_args,
    plugins_stop_args, refuses, reports, start_args_of, start_result, started_id, stop_args_of,
    uninstall_result, unknown_plugin_text, DeviceSendCommandArgs, EventsHistoryArgs, InstallEnd,
    LogsQueryArgs, PluginsStartArgs, PluginsStopArgs, StartEnd, UninstallEnd,
};
use crate::api::mcp::tools::{body_outcome, encoded_outcome, ToolOutcome};
use crate::api::plugins::{
    instances_of, is_plugin_listing, law_listed_instances_run, list_plugins, plugin_runs,
    selected_instances, stopped_ids, stopped_of, InstalledPlugin, PluginSummary, RunningInstance,
    StopAttempt,
};
use crate::api::queries::{are_event_rows, event_rows};
use crate::api::wire::WireHistoricalEvent;
use crate::state::{
    Command, CommandResult, EventQuery, HistoricalEvent, HistoricalLogEvent, LogQuery,
};
use crate::text::{opt_text, texts};

verus! {

/// A tool with its arguments, as read from JSON. A tool that needs arguments may get none.
#[derive(Debug)]
pub enum ToolArgs {
    DeviceSendCommand(Option<Result<DeviceSendCommandArgs, String>>),
    LogsQuery(Result<LogsQueryArgs, String>),
    EventsHistory(Result<EventsHistoryArgs, String>),
    PluginsList(Result<(), String>),
    PluginsShow(Option<Result<String, String>>),
    PluginsStop(Option<Result<PluginsStopArgs, String>>),
    PluginsStart(Option<Result<PluginsStartArgs, String>>),
    PluginsInstall(Option<Result<String, String>>),
    PluginsUninstall(Option<Result<String, String>>),
}

/// What a plugin was installed as.
#[derive(Debug)]
pub struct InstalledRow {
    pub plugin_id: String,
    pub version: String,
    pub installed_path: String,
}

/// What a tool answers with, before it is written as JSON.
#[derive(Debug)]
pub enum ToolBody {
    Logs { logs: Vec<HistoricalLogEvent> },
    Events { events: Vec<WireHistoricalEvent> },
    Plugins { plugins: Vec<PluginSummary> },
    Plugin(PluginDetail),
    Stopped { stopped: Vec<String> },
    Started { plugin_id: String, instance_id: String, state: String },
    Installed(InstalledRow),
    Uninstalled { plugin_id: String },
}

/// What a tool waits for.
#[derive(Debug)]
#[allow(inconsistent_fields)]
pub enum RunStage {
    AwaitOwner(DeviceSendCommandArgs),
    AwaitAnswer,
    AwaitLogs,
    AwaitEvents,
    AwaitListing,
    AwaitDetail { plugin_id: String },
    AwaitInstances { plugin_id: String, instance_id: Option<String> },
    AwaitStops,
    AwaitReadiness { plugin_id: String, instance_id: String, overrides: Option<toml::Value> },
    AwaitStart { plugin_id: String, instance_id: String },
    AwaitInstall,
    AwaitRunning { plugin_id: String },
    AwaitRemoval { plugin_id: String },
    /// The body is being written.
    AwaitBody(ToolKind),
    Done,
}

/// What the host found.
#[derive(Debug)]
#[allow(inconsistent_fields)]
pub enum RunEvent {
    /// Whether the owner of the device runs, if the device has one.
    Owner(Option<bool>),
    /// What the plugin answered, if it could be reached.
    Answered(Option<CommandResult>),
    Logs(Result<Vec<HistoricalLogEvent>, StoreFailure>),
    Events(Result<Vec<HistoricalEvent>, StoreFailure>),
    /// The plugins on disk, and the plugin of each instance that runs.
    Listing { installed: Vec<InstalledPlugin>, running: Vec<String> },
    Detail { installed: Option<InstalledDetail>, rows: Vec<InstanceRow> },
    Instances(Vec<RunningInstance>),
    Stops(Vec<StopAttempt>),
    /// Whether the id can be part of a path, and whether the plugin is on disk.
    Readiness { id_is_safe: bool, installed: bool },
    Started(StartEnd),
    Installed(InstalledRow),
    /// The name of the manifest without its directory goes with the failure.
    NotInstalled { end: InstallEnd, file: Option<String> },
    Removal(UninstallEnd),
    Encoded(EncodeEnd),
}

/// What is to be done next.
#[derive(Debug)]
#[allow(inconsistent_fields)]
pub enum RunAction {
    FindOwner { device_id: String },
    Dispatch { device_id: String, command: Command },
    QueryLogs { query: LogQuery, limit: usize },
    QueryEvents { query: EventQuery, limit: usize },
    ListPlugins,
    LookUpPlugin { plugin_id: String },
    ListInstances,
    /// Stop these instances one after another, whatever becomes of each.
    Stop { instances: Vec<String> },
    /// Keep others from installing, starting and uninstalling the plugin until the run ends, and
    /// look whether it can be started.
    PrepareStart { plugin_id: String, instance_id: String },
    Start { plugin_id: String, instance_id: String, overrides: Option<toml::Value> },
    Install { source_dir: String },
    /// Keep others from installing, starting and uninstalling the plugin until the run ends, and
    /// list the instances that run.
    PrepareUninstall { plugin_id: String },
    Uninstall { plugin_id: String },
    Encode(ToolBody),
    End(ToolOutcome),
}

// ---------------------------------------------------------------------
// Ends
// ---------------------------------------------------------------------

/// Whether a run ends with arguments refused in these words.
pub open spec fn ends_refused(r: (RunStage, RunAction), words: Seq<char>) -> bool {
    r.0 is Done && match r.1 {
        RunAction::End(outcome) => refuses(outcome, words),
        _ => false,
    }
}

/// Ends a run.
fn end(outcome: ToolOutcome) -> (r: (RunStage, RunAction))
    ensures
        r == (RunStage::Done, RunAction::End(outcome)),
{
    (RunStage::Done, RunAction::End(outcome))
}

/// Has a body written.
fn encode(tool: ToolKind, body: ToolBody) -> (r: (RunStage, RunAction))
    ensures
        r == (RunStage::AwaitBody(tool), RunAction::Encode(body)),
{
    (RunStage::AwaitBody(tool), RunAction::Encode(body))
}

// ---------------------------------------------------------------------
// The first step
// ---------------------------------------------------------------------

/// Whether this is how a tool begins with these arguments. Wrong arguments end it before it asks
/// the host for anything.
pub open spec fn is_run_begin(r: (RunStage, RunAction), args: ToolArgs, now: i64) -> bool {
    match args {
        ToolArgs::DeviceSendCommand(a) => match device_args_of(a) {
            Err(words) => ends_refused(r, words),
            Ok(args) => r.0 == RunStage::AwaitOwner(args) && (r.1 matches RunAction::FindOwner {
                device_id,
            } && device_id@ == args.device_id@),
        },
        ToolArgs::LogsQuery(a) => match logs_plan_of(a, now) {
            Err(words) => ends_refused(r, words),
            Ok((q, n)) => r.0 is AwaitLogs && (r.1 matches RunAction::QueryLogs { query, limit }
                && query == q && limit == n),
        },
        ToolArgs::EventsHistory(a) => match history_plan_of(a, now) {
            Err(words) => ends_refused(r, words),
            Ok((q, n)) => r.0 is AwaitEvents && (r.1 matches RunAction::QueryEvents {
                query,
                limit,
            } && query == q && limit == n),
        },
        ToolArgs::PluginsList(a) => match a {
            Err(words) => ends_refused(r, mismatch_text("plugins.list"@, words@)),
            Ok(()) => r.0 is AwaitListing && r.1 is ListPlugins,
        },
        ToolArgs::PluginsShow(a) => match id_argument_of("plugins.show"@, "plugin_id"@, a) {
            Err(words) => ends_refused(r, words),
            Ok(id) => (r.0 matches RunStage::AwaitDetail { plugin_id } && plugin_id == id) && (
            r.1 matches RunAction::LookUpPlugin { plugin_id } && plugin_id@ == id@),
        },
        ToolArgs::PluginsStop(a) => match stop_args_of(a) {
            Err(words) => ends_refused(r, words),
            Ok(args) => r.0 == (RunStage::AwaitInstances {
                plugin_id: args.plugin_id,
                instance_id: args.instance_id,
            }) && r.1 is ListInstances,
        },
        ToolArgs::PluginsStart(a) => match start_args_of(a) {
            Err(words) => ends_refused(r, words),
            Ok(args) => (r.0 matches RunStage::AwaitReadiness { plugin_id, instance_id, overrides }
                && plugin_id == args.plugin_id && instance_id@ == started_id(args) && overrides
                == args.config_overrides) && (r.1 matches RunAction::PrepareStart {
                plugin_id,
                instance_id,
            } && plugin_id@ == args.plugin_id@ && instance_id@ == started_id(args)),
        },
        ToolArgs::PluginsInstall(a) => match id_argument_of("plugins.install"@, "source_dir"@, a) {
            Err(words) => ends_refused(r, words),
            Ok(dir) => r.0 is AwaitInstall && (r.1 matches RunAction::Install { source_dir }
                && source_dir == dir),
        },
        ToolArgs::PluginsUninstall(a) => match id_argument_of(
            "plugins.uninstall"@,
            "plugin_id"@,
            a,
        ) {
            Err(words) => ends_refused(r, words),
            Ok(id) => (r.0 matches RunStage::AwaitRunning { plugin_id } && plugin_id == id) && (
            r.1 matches RunAction::PrepareUninstall { plugin_id } && plugin_id@ == id@),
        },
    }
}

/// Begins a tool. `now` is the time in milliseconds since the Unix epoch.
pub fn begin_run(args: ToolArgs, now: i64) -> (r: (RunStage, RunAction))
    ensures
        is_run_begin(r, args, now),
{
    match args {
        ToolArgs::DeviceSendCommand(a) => match device_args(a) {
            Err(outcome) => end(outcome),
            Ok(args) => {
                let device_id = args.device_id.clone();
                (RunStage::AwaitOwner(args), RunAction::FindOwner { device_id })
            },
        },
        ToolArgs::LogsQuery(a) => match logs_query_plan(a, now) {
            Err(outcome) => end(outcome),
            Ok((query, limit)) => (RunStage::AwaitLogs, RunAction::QueryLogs { query, limit }),
        },
        ToolArgs::EventsHistory(a) => match events_history_plan(a, now) {
            Err(outcome) => end(outcome),
            Ok((query, limit)) => (RunStage::AwaitEvents, RunAction::QueryEvents { query, limit }),
        },
        ToolArgs::PluginsList(a) => match plugins_list_args(a) {
            Err(outcome) => end(outcome),
            Ok(()) => (RunStage::AwaitListing, RunAction::ListPlugins),
        },
        ToolArgs::PluginsShow(a) => match id_argument("plugins.show", "plugin_id", a) {
            Err(outcome) => end(outcome),
            Ok(plugin_id) => {
                let wanted = plugin_id.clone();
                (RunStage::AwaitDetail { plugin_id }, RunAction::LookUpPlugin { plugin_id: wanted })
            },
        },
        ToolArgs::PluginsStop(a) => match plugins_stop_args(a) {
            Err(outcome) => end(outcome),
            Ok(args) => (
                RunStage::AwaitInstances {
                    plugin_id: args.plugin_id,
                    instance_id: args.instance_id,
                },
                RunAction::ListInstances,
            ),
        },
        ToolArgs::PluginsStart(a) => match plugins_start_args(a) {
            Err(outcome) => end(outcome),
            Ok((plugin_id, instance_id, overrides)) => {
                let action = RunAction::PrepareStart {
                    plugin_id: plugin_id.clone(),
                    instance_id: instance_id.clone(),
                };
                (RunStage::AwaitReadiness { plugin_id, instance_id, overrides }, action)
            },
        },
        ToolArgs::PluginsInstall(a) => match id_argument("plugins.install", "source_dir", a) {
            Err(outcome) => end(outcome),
            Ok(source_dir) => (RunStage::AwaitInstall, RunAction::Install { source_dir }),
        },
        ToolArgs::PluginsUninstall(a) => match id_argument("plugins.uninstall", "plugin_id", a) {
            Err(outcome) => end(outcome),
            Ok(plugin_id) => {
                let wanted = plugin_id.clone();
                (
                    RunStage::AwaitRunning { plugin_id },
                    RunAction::PrepareUninstall { plugin_id: wanted },
                )
            },
        },
    }
}

// ---------------------------------------------------------------------
// The steps after it
// ---------------------------------------------------------------------

/// What is said of an event that does not belong to the stage.
pub const OUT_OF_STEP_TEXT: &'static str = "MCP tool run out of step";

/// Whether an outcome is that of a tool whose body was written, or was not.
pub open spec fn is_body_outcome(outcome: ToolOutcome, end: EncodeEnd, tool: ToolKind) -> bool {
    exists|body: EncodedBody| #[trigger]
        is_encoded_body(body, end, tool_name(tool)) && outcome == body_outcome(body)
}

/// Whether a run ends as a check said, unless the check found nothing.
pub open spec fn ends_with<A>(r: (RunStage, RunAction), check: Result<A, ToolOutcome>) -> bool {
    r.0 is Done && (r.1 matches RunAction::End(outcome) && check == Err::<A, ToolOutcome>(outcome))
}

/// Whether the body of a tool is to be written.
pub open spec fn writes(r: (RunStage, RunAction), tool: ToolKind) -> bool {
    r.0 == RunStage::AwaitBody(tool) && r.1 is Encode
}

/// Whether this is how a start goes on after it was looked whether it can be made.
pub open spec fn goes_on_to_start(
    r: (RunStage, RunAction),
    plugin_id: String,
    instance_id: String,
    overrides: Option<toml::Value>,
    id_is_safe: bool,
    installed: bool,
) -> bool {
    exists|check: Result<(), ToolOutcome>| #[trigger]
        is_start_check(check, plugin_id@, instance_id@, id_is_safe, installed) && match check {
            Err(_) => ends_with(r, check),
            Ok(()) => (r.0 matches RunStage::AwaitStart { plugin_id: p, instance_id: i } && p@
                == plugin_id@ && i@ == instance_id@) && r.1 == (RunAction::Start {
                plugin_id,
                instance_id,
                overrides,
            }),
        }
}

/// Whether this is how a start goes on after it was made.
pub open spec fn goes_on_from_start(
    r: (RunStage, RunAction),
    plugin_id: String,
    instance_id: String,
    made: StartEnd,
) -> bool {
    exists|check: Result<String, ToolOutcome>| #[trigger]
        is_start_result(check, made) && match check {
            Err(_) => ends_with(r, check),
            Ok(state) => writes(r, ToolKind::PluginsStart) && r.1 == RunAction::Encode(
                ToolBody::Started { plugin_id, instance_id, state },
            ),
        }
}

/// Whether this is how a removal goes on after the instances were listed.
pub open spec fn goes_on_to_remove(
    r: (RunStage, RunAction),
    plugin_id: String,
    instances: Seq<RunningInstance>,
) -> bool {
    exists|check: Result<(), ToolOutcome>| #[trigger]
        is_running_check(check, plugin_id@, selected_instances(instances, plugin_id@, None))
            && match check {
            Err(_) => ends_with(r, check),
            Ok(()) => (r.0 matches RunStage::AwaitRemoval { plugin_id: p } && p@ == plugin_id@)
                && r.1 == (RunAction::Uninstall { plugin_id }),
        }
}

/// Whether this is how a removal goes on after it was made.
pub open spec fn goes_on_from_removal(
    r: (RunStage, RunAction),
    plugin_id: String,
    made: UninstallEnd,
) -> bool {
    exists|check: Result<(), ToolOutcome>| #[trigger]
        is_uninstall_result(check, plugin_id@, made) && match check {
            Err(_) => ends_with(r, check),
            Ok(()) => writes(r, ToolKind::PluginsUninstall) && r.1 == RunAction::Encode(
                ToolBody::Uninstalled { plugin_id },
            ),
        }
}

/// One step of a tool: what follows from what it waited for and what the host found.
pub open spec fn is_run_step(
    before: RunStage,
    event: RunEvent,
    r: (RunStage, RunAction),
) -> bool {
    match (before, event) {
        (RunStage::AwaitOwner(args), RunEvent::Owner(runs)) => if runs == Some(true) {
            r.0 is AwaitAnswer && (r.1 matches RunAction::Dispatch { device_id, command }
                && device_id == args.device_id && is_command_of(command, args))
        } else {
            r.0 is Done && (r.1 matches RunAction::End(outcome) && reports(
                outcome,
                no_target_text(args.device_id@),
                None,
            ))
        },
        (RunStage::AwaitAnswer, RunEvent::Answered(result)) => r.0 is Done && (r.1 matches
            RunAction::End(outcome) && is_dispatch_outcome(outcome, result)),
        (RunStage::AwaitLogs, RunEvent::Logs(found)) => match found {
            Ok(logs) => writes(r, ToolKind::LogsQuery) && r.1 == RunAction::Encode(
                ToolBody::Logs { logs },
            ),
            Err(failure) => r.0 is Done && (r.1 matches RunAction::End(outcome)
                && is_store_failure(outcome, failure, "log"@)),
        },
        (RunStage::AwaitEvents, RunEvent::Events(found)) => match found {
            Ok(rows) => writes(r, ToolKind::EventsHistory) && (r.1 matches RunAction::Encode(
                ToolBody::Events { events },
            ) && are_event_rows(events@, rows@)),
            Err(failure) => r.0 is Done && (r.1 matches RunAction::End(outcome)
                && is_store_failure(outcome, failure, "event"@)),
        },
        (RunStage::AwaitListing, RunEvent::Listing { installed, running }) => writes(
            r,
            ToolKind::PluginsList,
        ) && (r.1 matches RunAction::Encode(ToolBody::Plugins { plugins }) && is_plugin_listing(
            plugins@,
            installed@,
            texts(running@),
        )),
        (RunStage::AwaitDetail { plugin_id }, RunEvent::Detail { installed, rows }) => if installed
            is None && instances_of_plugin(rows@, plugin_id@).len() == 0 {
            r.0 is Done && (r.1 matches RunAction::End(outcome) && reports(
                outcome,
                unknown_plugin_text(plugin_id@),
                None,
            ))
        } else {
            writes(r, ToolKind::PluginsShow) && (r.1 matches RunAction::Encode(
                ToolBody::Plugin(detail),
            ) && is_plugin_detail(detail, plugin_id@, installed, rows@))
        },
        (
            RunStage::AwaitInstances { plugin_id, instance_id },
            RunEvent::Instances(list),
        ) => r.0 is AwaitStops && (r.1 matches RunAction::Stop { instances } && texts(instances@)
            == selected_instances(list@, plugin_id@, opt_text(instance_id))),
        (RunStage::AwaitStops, RunEvent::Stops(attempts)) => writes(r, ToolKind::PluginsStop) && (
        r.1 matches RunAction::Encode(ToolBody::Stopped { stopped }) && texts(stopped@)
            == stopped_of(attempts@)),
        (
            RunStage::AwaitReadiness { plugin_id, instance_id, overrides },
            RunEvent::Readiness { id_is_safe, installed },
        ) => goes_on_to_start(r, plugin_id, instance_id, overrides, id_is_safe, installed),
        (
            RunStage::AwaitStart { plugin_id, instance_id },
            RunEvent::Started(made),
        ) => goes_on_from_start(r, plugin_id, instance_id, made),
        (RunStage::AwaitInstall, RunEvent::Installed(row)) => writes(r, ToolKind::PluginsInstall)
            && r.1 == RunAction::Encode(ToolBody::Installed(row)),
        (RunStage::AwaitInstall, RunEvent::NotInstalled { end, file }) => r.0 is Done && (
        r.1 matches RunAction::End(outcome) && is_install_failure(outcome, end, opt_text(file))),
        (
            RunStage::AwaitRunning { plugin_id },
            RunEvent::Instances(list),
        ) => goes_on_to_remove(r, plugin_id, list@),
        (
            RunStage::AwaitRemoval { plugin_id },
            RunEvent::Removal(made),
        ) => goes_on_from_removal(r, plugin_id, made),
        (RunStage::AwaitBody(tool), RunEvent::Encoded(end)) => r.0 is Done && (r.1 matches
            RunAction::End(outcome) && is_body_outcome(outcome, end, tool)),
        (_, _) => r.0 is Done && (r.1 matches RunAction::End(outcome) && fails(
            outcome,
            OUT_OF_STEP_TEXT@,
        )),
    }
}

/// Takes a tool one step further.
pub fn step_run(stage: RunStage, event: RunEvent) -> (r: (RunStage, RunAction))
    requires
        event matches RunEvent::Listing { running, .. } ==> running.len() <= u32::MAX,
    ensures
        is_run_step(stage, event, r),
{
    match (stage, event) {
        (RunStage::AwaitOwner(args), RunEvent::Owner(runs)) => {
            match device_target(args.device_id.as_str(), runs) {
                Err(outcome) => end(outcome),
                Ok(()) => {
                    let (device_id, command) = device_command(args);
                    (RunStage::AwaitAnswer, RunAction::Dispatch { device_id, command })
                },
            }
        },
        (RunStage::AwaitAnswer, RunEvent::Answered(result)) => end(device_outcome(result)),
        (RunStage::AwaitLogs, RunEvent::Logs(found)) => match found {
            Ok(logs) => encode(ToolKind::LogsQuery, ToolBody::Logs { logs }),
            Err(failure) => end(logs_query_failure(failure)),
        },
        (RunStage::AwaitEvents, RunEvent::Events(found)) => match found {
            Ok(rows) => encode(
                ToolKind::EventsHistory,
                ToolBody::Events { events: event_rows(rows) },
            ),
            Err(failure) => end(events_history_failure(failure)),
        },
        (RunStage::AwaitListing, RunEvent::Listing { installed, running }) => encode(
            ToolKind::PluginsList,
            ToolBody::Plugins { plugins: list_plugins(installed, &running) },
        ),
        (RunStage::AwaitDetail { plugin_id }, RunEvent::Detail { installed, rows }) => {
            match plugins_detail_body(plugin_id.as_str(), installed, &rows) {
                Some(detail) => encode(ToolKind::PluginsShow, ToolBody::Plugin(detail)),
                None => end(plugin_unknown(plugin_id.as_str())),
            }
        },
        (RunStage::AwaitInstances { plugin_id, instance_id }, RunEvent::Instances(list)) => {
            let wanted = match &instance_id {
                Some(id) => Some(id.as_str()),
                None => None,
            };
            let instances = instances_of(&list, plugin_id.as_str(), wanted);
            (RunStage::AwaitStops, RunAction::Stop { instances })
        },
        (RunStage::AwaitStops, RunEvent::Stops(attempts)) => encode(
            ToolKind::PluginsStop,
            ToolBody::Stopped { stopped: stopped_ids(&attempts) },
        ),
        (
            RunStage::AwaitReadiness { plugin_id, instance_id, overrides },
            RunEvent::Readiness { id_is_safe, installed },
        ) => {
            match check_start_tool(plugin_id.as_str(), instance_id.as_str(), id_is_safe, installed) {
                Err(outcome) => end(outcome),
                Ok(()) => {
                    let next = RunStage::AwaitStart {
                        plugin_id: plugin_id.clone(),
                        instance_id: instance_id.clone(),
                    };
                    (next, RunAction::Start { plugin_id, instance_id, overrides })
                },
            }
        },
        (RunStage::AwaitStart { plugin_id, instance_id }, RunEvent::Started(made)) => {
            match start_result(made) {
                Err(outcome) => end(outcome),
                Ok(state) => encode(
                    ToolKind::PluginsStart,
                    ToolBody::Started { plugin_id, instance_id, state },
                ),
            }
        },
        (RunStage::AwaitInstall, RunEvent::Installed(row)) => encode(
            ToolKind::PluginsInstall,
            ToolBody::Installed(row),
        ),
        (RunStage::AwaitInstall, RunEvent::NotInstalled { end: failure, file }) => {
            let name = match &file {
                Some(name) => Some(name.as_str()),
                None => None,
            };
            end(install_failure(failure, name))
        },
        (RunStage::AwaitRunning { plugin_id }, RunEvent::Instances(list)) => {
            let running = instances_of(&list, plugin_id.as_str(), None);
            match check_not_running(plugin_id.as_str(), &running) {
                Err(outcome) => end(outcome),
                Ok(()) => {
                    let next = RunStage::AwaitRemoval { plugin_id: plugin_id.clone() };
                    (next, RunAction::Uninstall { plugin_id })
                },
            }
        },
        (RunStage::AwaitRemoval { plugin_id }, RunEvent::Removal(made)) => {
            match uninstall_result(plugin_id.as_str(), made) {
                Err(outcome) => end(outcome),
                Ok(()) => encode(ToolKind::PluginsUninstall, ToolBody::Uninstalled { plugin_id }),
            }
        },
        (RunStage::AwaitBody(tool), RunEvent::Encoded(written)) => end(
            encoded_outcome(encode_body_capped(written, tool.name())),
        ),
        (_, _) => end(ToolOutcome::Internal(OUT_OF_STEP_TEXT.to_owned())),
    }
}

// ---------------------------------------------------------------------
// Laws
// ---------------------------------------------------------------------

/// The steps of one tool in a row, each from where the one before it ended.
pub open spec fn is_tool_run(
    start: (RunStage, RunAction),
    run: Seq<(RunStage, RunEvent, RunStage, RunAction)>,
) -> bool {
    &&& forall|i: int|
        0 <= i < run.len() ==> {
            let s = #[trigger] run[i];
            is_run_step(s.0, s.1, (s.2, s.3))
        }
    &&& forall|i: int| 0 < i < run.len() ==> (#[trigger] run[i]).0 == run[i - 1].2
    &&& run.len() > 0 ==> run[0].0 == start.0
}

/// Whether an action changes anything outside the tool.
pub open spec fn touches(action: RunAction) -> bool {
    action is Dispatch || action is Stop || action is Start || action is Install
        || action is Uninstall
}

/// Whether an action refuses the arguments.
pub open spec fn refuses_arguments(action: RunAction) -> bool {
    action matches RunAction::End(outcome) && outcome is InvalidParams
}

/// A command goes only to a device whose owner runs.
pub proof fn law_commands_reach_running_owners(
    before: RunStage,
    event: RunEvent,
    after: RunStage,
    action: RunAction,
)
    requires
        is_run_step(before, event, (after, action)),
        action is Dispatch,
    ensures
        event == RunEvent::Owner(Some(true)),
        before is AwaitOwner,
        action->Dispatch_device_id == before->AwaitOwner_0.device_id,
{
}

/// A plugin is uninstalled only where that was asked for, and only once the instances were listed
/// and none of them was of the plugin.
pub proof fn law_running_plugins_are_not_uninstalled(
    start: (RunStage, RunAction),
    run: Seq<(RunStage, RunEvent, RunStage, RunAction)>,
    args: ToolArgs,
    now: i64,
    i: int,
)
    requires
        is_run_begin(start, args, now),
        is_tool_run(start, run),
        0 <= i < run.len(),
        run[i].3 is Uninstall,
    ensures
        i == 0,
        run[i].1 is Instances,
        !plugin_runs(run[i].1->Instances_0@, run[i].3->Uninstall_plugin_id@),
        args matches ToolArgs::PluginsUninstall(Some(Ok(id))) && id@
            == run[i].3->Uninstall_plugin_id@,
{
    let s = run[i];
    assert(is_run_step(s.0, s.1, (s.2, s.3)));
    assert(s.0 is AwaitRunning);
    let id = s.3->Uninstall_plugin_id;
    law_listed_instances_run(s.1->Instances_0@, id@);
    if i > 0 {
        assert(run[i].0 == run[i - 1].2);
        let p = run[i - 1];
        assert(is_run_step(p.0, p.1, (p.2, p.3)));
    }
}

/// Where arguments are refused, nothing was touched before.
pub proof fn law_refused_arguments_touch_nothing(
    start: (RunStage, RunAction),
    run: Seq<(RunStage, RunEvent, RunStage, RunAction)>,
    args: ToolArgs,
    now: i64,
    i: int,
)
    requires
        is_run_begin(start, args, now),
        is_tool_run(start, run),
        0 <= i < run.len(),
        refuses_arguments(run[i].3),
    ensures
        !touches(start.1),
        forall|j: int| 0 <= j <= i ==> !touches((#[trigger] run[j]).3),
{
    let s = run[i];
    assert(is_run_step(s.0, s.1, (s.2, s.3)));
    assert(s.0 is AwaitReadiness);
    if i > 0 {
        assert(run[i].0 == run[i - 1].2);
        let p = run[i - 1];
        assert(is_run_step(p.0, p.1, (p.2, p.3)));
    }
}

/// How many steps are left at most.
pub open spec fn steps_left(stage: RunStage) -> nat {
    match stage {
        RunStage::Done => 0,
        RunStage::AwaitBody(_) | RunStage::AwaitAnswer => 1,
        RunStage::AwaitInstances { .. } | RunStage::AwaitReadiness { .. }
        | RunStage::AwaitRunning { .. } => 3,
        _ => 2,
    }
}

/// Every step brings a tool closer to its end, so that it ends after three steps at most.
pub proof fn law_tools_end(
    start: (RunStage, RunAction),
    run: Seq<(RunStage, RunEvent, RunStage, RunAction)>,
    args: ToolArgs,
    now: i64,
    i: int,
)
    requires
        is_run_begin(start, args, now),
        is_tool_run(start, run),
        0 <= i < run.len(),
    ensures
        steps_left(start.0) <= 3,
        steps_left(run[i].2) + i < 3 || run[i].2 is Done,
        run[i].2 is Done ==> run[i].3 is End,
    decreases i,
{
    let s = run[i];
    assert(is_run_step(s.0, s.1, (s.2, s.3)));
    if i > 0 {
        assert(run[i].0 == run[i - 1].2);
        law_tools_end(start, run, args, now, i - 1);
    }
}

} // verus!
