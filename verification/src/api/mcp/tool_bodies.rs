//! What each tool makes of its arguments, and of what it finds.
//!
//! The arguments of a tool arrive as read from JSON: either its own arguments, or the words in
//! which reading them says what is wrong.

use vstd::prelude::*;

use crate::api::auth::wit_error_name;
use crate::api::mcp::contents::StoreFailure;
use crate::api::mcp::filters::{
    clamp_rows, clamp_to_rows, comma_list, since_from, since_of, ROWS_MAX,
};
use crate::api::mcp::messages::{
    command_result_json, is_capped, is_result_json, message_of_wire_error, truncate_plugin_error,
    wire_error_name, wire_message, wit_error_kind_of_wire, wit_message,
};
use crate::api::mcp::resources::STORE_QUERY_MAX;
use crate::api::mcp::tools::{ToolOutcome, ToolValue};
use crate::api::plugins::start_instance_id;
use crate::api::queries::{topic_filter, topic_of};
use crate::api::wire::{
    command_result_to_wire, host_fields, state_map, wire_key_values, WireCommandResult,
    WireKeyValue,
};
use crate::json_value::{
    json_text, json_texts, object1, object2, object3, text_list, Json, JsonModel,
};
use crate::state::{
    key_values, Command, CommandResult, EventQuery, InstallError, LogLevel, LogQuery,
    UninstallError,
};
use crate::text::{cat2, cat3, cat5, decimal, opt_str, opt_text, texts, u64_to_decimal};

verus! {

// ---------------------------------------------------------------------
// Common to all tools
// ---------------------------------------------------------------------

/// Whether an outcome refuses the arguments with these words.
pub open spec fn refuses(outcome: ToolOutcome, words: Seq<char>) -> bool {
    outcome matches ToolOutcome::InvalidParams(reason) && reason@ == words
}

/// Whether an outcome is a failure of the host with these words.
pub open spec fn fails(outcome: ToolOutcome, words: Seq<char>) -> bool {
    outcome matches ToolOutcome::Internal(reason) && reason@ == words
}

/// Whether an outcome reports this, with this detail, and no plugin took part.
pub open spec fn reports(
    outcome: ToolOutcome,
    words: Seq<char>,
    detail: Option<JsonModel>,
) -> bool {
    match outcome {
        ToolOutcome::ExecErr { message, structured, domain_kind } => message@ == words
            && domain_kind is None && (match structured {
            Some(v) => detail == Some(v@),
            None => detail is None,
        }),
        _ => false,
    }
}

/// What is said of arguments that are not what a tool takes.
pub open spec fn mismatch_text(tool: Seq<char>, words: Seq<char>) -> Seq<char> {
    tool + " arguments do not match the input schema: "@ + words
}

/// Refuses arguments that are not what a tool takes.
fn mismatch(tool: &str, words: &str) -> (r: ToolOutcome)
    ensures
        refuses(r, mismatch_text(tool@, words@)),
{
    ToolOutcome::InvalidParams(
        cat3(tool, " arguments do not match the input schema: ", words),
    )
}

/// The arguments of a tool, or what is wrong with them. `missing` is said where there are none.
pub open spec fn taken<A>(
    tool: Seq<char>,
    missing: Seq<char>,
    arguments: Option<Result<A, String>>,
) -> Result<A, Seq<char>> {
    match arguments {
        None => Err(missing),
        Some(Err(words)) => Err(mismatch_text(tool, words@)),
        Some(Ok(args)) => Ok(args),
    }
}

/// Whether a result gives the arguments of a tool, or refuses them with the words that belong to
/// it.
pub open spec fn is_taken<A>(r: Result<A, ToolOutcome>, args: Result<A, Seq<char>>) -> bool {
    match args {
        Ok(a) => r == Ok::<A, ToolOutcome>(a),
        Err(words) => r is Err && refuses(r->Err_0, words),
    }
}

/// Reports a failure without detail.
fn report(message: String) -> (r: ToolOutcome)
    ensures
        reports(r, message@, None),
{
    ToolOutcome::ExecErr { message, structured: None, domain_kind: None }
}

/// Reports a failure with a detail.
fn report_with(message: String, detail: Json) -> (r: ToolOutcome)
    ensures
        reports(r, message@, Some(detail@)),
{
    ToolOutcome::ExecErr { message, structured: Some(detail), domain_kind: None }
}

/// What is said when too many store queries run.
pub open spec fn saturated_text() -> Seq<char> {
    "MCP store-query queue saturated ("@ + decimal(STORE_QUERY_MAX as nat)
        + " in-flight); retry shortly"@
}

/// Says that too many store queries run.
fn saturated() -> (r: ToolOutcome)
    ensures
        r matches ToolOutcome::Busy(reason) && reason@ == saturated_text(),
{
    let digits = u64_to_decimal(STORE_QUERY_MAX as u64);
    ToolOutcome::Busy(
        cat3(
            "MCP store-query queue saturated (",
            digits.as_str(),
            " in-flight); retry shortly",
        ),
    )
}

// ---------------------------------------------------------------------
// device.send_command
// ---------------------------------------------------------------------

/// The arguments of a command.
#[derive(Debug)]
pub struct DeviceSendCommandArgs {
    pub device_id: String,
    pub capability: String,
    pub action: String,
    pub args: Vec<WireKeyValue>,
}

/// The arguments of a command, or what is wrong with them.
pub open spec fn device_args_of(
    arguments: Option<Result<DeviceSendCommandArgs, String>>,
) -> Result<DeviceSendCommandArgs, Seq<char>> {
    taken(
        "device.send_command"@,
        "device.send_command requires `device_id`, `capability`, and `action`"@,
        arguments,
    )
}

/// Looks at the arguments of a command.
pub fn device_args(arguments: Option<Result<DeviceSendCommandArgs, String>>) -> (r: Result<
    DeviceSendCommandArgs,
    ToolOutcome,
>)
    ensures
        is_taken(r, device_args_of(arguments)),
{
    match arguments {
        Some(Ok(args)) => Ok(args),
        Some(Err(words)) => Err(mismatch("device.send_command", words.as_str())),
        None => Err(
            ToolOutcome::InvalidParams(
                "device.send_command requires `device_id`, `capability`, and `action`".to_owned(),
            ),
        ),
    }
}

/// What is said of a device that no command can be sent to.
pub open spec fn no_target_text(device_id: Seq<char>) -> Seq<char> {
    "device `"@ + device_id + "` not found or not running"@
}

/// Whether a check is the one of a device that a command is sent to.
pub open spec fn is_device_target(
    r: Result<(), ToolOutcome>,
    device_id: Seq<char>,
    owner_runs: Option<bool>,
) -> bool {
    if owner_runs == Some(true) {
        r is Ok
    } else {
        r is Err && reports(r->Err_0, no_target_text(device_id), None)
    }
}

/// Whether a command can be sent. `owner_runs` tells for the owner of the device, if the device
/// has one, whether it runs. A device that does not exist and one whose owner does not run are
/// not told apart.
pub fn device_target(device_id: &str, owner_runs: Option<bool>) -> (r: Result<(), ToolOutcome>)
    ensures
        is_device_target(r, device_id@, owner_runs),
{
    match owner_runs {
        Some(true) => Ok(()),
        _ => Err(report(cat3("device `", device_id, "` not found or not running"))),
    }
}

/// Whether a command is the one that the arguments ask for.
pub open spec fn is_command_of(command: Command, args: DeviceSendCommandArgs) -> bool {
    &&& command.capability == args.capability
    &&& command.action == args.action
    &&& key_values(command.args@) == wire_key_values(args.args@)
}

/// The command for the plugin, and the device that it is for.
pub fn device_command(args: DeviceSendCommandArgs) -> (r: (String, Command))
    ensures
        r.0 == args.device_id,
        is_command_of(r.1, args),
{
    (
        args.device_id,
        Command { capability: args.capability, action: args.action, args: host_fields(args.args) },
    )
}

/// Whether an answer on the wire is what a plugin answered, with the message of an error cut.
pub open spec fn is_carried(wire: WireCommandResult, result: CommandResult) -> bool {
    match result {
        CommandResult::Done => wire is Done,
        CommandResult::OkWithState(list) => wire matches WireCommandResult::OkWithState { state }
            && state@ == state_map(list@),
        CommandResult::Failed(e) => wire matches WireCommandResult::Failed { error }
            && wire_error_name(error) == wit_error_name(e) && is_capped(
            wit_message(e),
            wire_message(error),
        ),
    }
}

/// Whether an outcome is what the answer of a plugin comes to.
pub open spec fn is_command_outcome(r: ToolOutcome, wire: WireCommandResult) -> bool {
    match wire {
        WireCommandResult::Failed { error } => match r {
            ToolOutcome::ExecErr { message, structured: Some(detail), domain_kind } => message@
                == "device.send_command failed: "@ + wire_error_name(error) + " — "@
                + wire_message(error) && is_result_json(detail@, wire) && opt_str(domain_kind)
                == Some(wire_error_name(error)),
            _ => false,
        },
        _ => match r {
            ToolOutcome::Success { value: ToolValue::Tree(tree), plugin_reached } => plugin_reached
                && is_result_json(tree@, wire),
            _ => false,
        },
    }
}

/// Whether an outcome is what a dispatched command comes to.
pub open spec fn is_dispatch_outcome(r: ToolOutcome, result: Option<CommandResult>) -> bool {
    match result {
        None => fails(r, "device command dispatch failed"@),
        Some(answer) => exists|wire: WireCommandResult| #[trigger]
            is_carried(wire, answer) && is_command_outcome(r, wire),
    }
}

/// What the answer of a plugin comes to. `None` means that the plugin could not be reached.
pub fn device_outcome(result: Option<CommandResult>) -> (r: ToolOutcome)
    ensures
        is_dispatch_outcome(r, result),
{
    let answer = match result {
        Some(answer) => answer,
        None => return ToolOutcome::Internal("device command dispatch failed".to_owned()),
    };
    let ghost given = answer;
    let wire = command_result_to_wire(truncate_plugin_error(answer));
    let ghost carried = wire;
    proof {
        assert(is_carried(carried, given));
    }
    let failure = match &wire {
        WireCommandResult::Failed { error } => {
            let kind = wit_error_kind_of_wire(error);
            let mut message = "device.send_command failed: ".to_owned();
            message.append(kind);
            message.append(" — ");
            message.append(message_of_wire_error(error));
            Some((message, kind))
        },
        _ => None,
    };
    let tree = command_result_json(wire);
    match failure {
        Some((message, kind)) => ToolOutcome::ExecErr {
            message,
            structured: Some(tree),
            domain_kind: Some(kind),
        },
        None => ToolOutcome::Success { value: ToolValue::Tree(tree), plugin_reached: true },
    }
}

// ---------------------------------------------------------------------
// logs.query
// ---------------------------------------------------------------------

/// The arguments of a log query.
#[derive(Debug)]
pub struct LogsQueryArgs {
    pub since: Option<String>,
    pub until: Option<String>,
    pub level: Option<LogLevel>,
    pub instance: Option<String>,
    pub plugin: Option<String>,
    pub device: Option<String>,
    pub target: Option<String>,
    pub target_prefix: Option<String>,
    pub span_path_prefix: Option<String>,
    pub limit: Option<u32>,
}

/// How many rows are asked for.
pub open spec fn rows_of(limit: Option<u32>) -> nat {
    match limit {
        Some(n) => clamp_rows(n as nat),
        None => ROWS_MAX as nat,
    }
}

/// How many rows are asked for.
fn rows(limit: Option<u32>) -> (r: usize)
    ensures
        r == rows_of(limit),
{
    match limit {
        Some(n) => clamp_to_rows(n as u64),
        None => ROWS_MAX as usize,
    }
}

/// The string slice of an optional string.
fn opt_slice(text: &Option<String>) -> (r: Option<&str>)
    ensures
        opt_str(r) == opt_text(*text),
{
    match text {
        Some(t) => Some(t.as_str()),
        None => None,
    }
}

/// The query and the number of rows that the arguments of a log query ask for, or what is wrong
/// with them.
pub open spec fn logs_plan_of(arguments: Result<LogsQueryArgs, String>, now: i64) -> Result<
    (LogQuery, nat),
    Seq<char>,
> {
    match arguments {
        Err(words) => Err(mismatch_text("logs.query"@, words@)),
        Ok(args) => match since_of(opt_text(args.since), "since"@, now) {
            Err(e) => Err(e),
            Ok(since_ms) => match since_of(opt_text(args.until), "until"@, now) {
                Err(e) => Err(e),
                Ok(until_ms) => Ok(
                    (
                        LogQuery {
                            since_ms,
                            until_ms,
                            min_level: args.level,
                            instance_id: args.instance,
                            plugin_id: args.plugin,
                            device_id: args.device,
                            target: args.target,
                            target_prefix: args.target_prefix,
                            span_path_prefix: args.span_path_prefix,
                        },
                        rows_of(args.limit),
                    ),
                ),
            },
        },
    }
}

/// Whether a result gives a query and its number of rows, or refuses the arguments with the words
/// that belong to it.
pub open spec fn is_plan<Q>(
    r: Result<(Q, usize), ToolOutcome>,
    plan: Result<(Q, nat), Seq<char>>,
) -> bool {
    match plan {
        Ok((query, limit)) => r is Ok && r->Ok_0.0 == query && r->Ok_0.1 == limit,
        Err(words) => r is Err && refuses(r->Err_0, words),
    }
}

/// Prepares a log query: the query and the number of rows.
pub fn logs_query_plan(arguments: Result<LogsQueryArgs, String>, now: i64) -> (r: Result<
    (LogQuery, usize),
    ToolOutcome,
>)
    ensures
        is_plan(r, logs_plan_of(arguments, now)),
{
    let args = match arguments {
        Ok(args) => args,
        Err(words) => return Err(mismatch("logs.query", words.as_str())),
    };
    let since_ms = match since_from(opt_slice(&args.since), "since", now) {
        Ok(v) => v,
        Err(e) => return Err(ToolOutcome::InvalidParams(e)),
    };
    let until_ms = match since_from(opt_slice(&args.until), "until", now) {
        Ok(v) => v,
        Err(e) => return Err(ToolOutcome::InvalidParams(e)),
    };
    let limit = rows(args.limit);
    let query = LogQuery {
        since_ms,
        until_ms,
        min_level: args.level,
        instance_id: args.instance,
        plugin_id: args.plugin,
        device_id: args.device,
        target: args.target,
        target_prefix: args.target_prefix,
        span_path_prefix: args.span_path_prefix,
    };
    Ok((query, limit))
}

/// Whether an outcome is that of a query that the store gave no rows for. `what` names the query.
pub open spec fn is_store_failure(
    r: ToolOutcome,
    failure: StoreFailure,
    what: Seq<char>,
) -> bool {
    match failure {
        StoreFailure::Saturated => r matches ToolOutcome::Busy(reason) && reason@
            == saturated_text(),
        StoreFailure::Failed => fails(r, what + " query failed"@),
        StoreFailure::Broken => fails(r, what + " query task panicked"@),
    }
}

/// The outcome of a query that the store gave no rows for.
fn store_failure(failure: StoreFailure, what: &str) -> (r: ToolOutcome)
    ensures
        is_store_failure(r, failure, what@),
{
    match failure {
        StoreFailure::Saturated => saturated(),
        StoreFailure::Failed => ToolOutcome::Internal(cat2(what, " query failed")),
        StoreFailure::Broken => ToolOutcome::Internal(cat2(what, " query task panicked")),
    }
}

/// The outcome of a log query that the store gave no rows for.
pub fn logs_query_failure(failure: StoreFailure) -> (r: ToolOutcome)
    ensures
        is_store_failure(r, failure, "log"@),
{
    store_failure(failure, "log")
}

// ---------------------------------------------------------------------
// events.history
// ---------------------------------------------------------------------

/// The arguments of an event query.
#[derive(Debug)]
pub struct EventsHistoryArgs {
    pub since: Option<String>,
    pub until: Option<String>,
    pub device: Option<String>,
    pub instance: Option<String>,
    pub plugin: Option<String>,
    pub topic: Option<String>,
    pub topic_prefix: Option<String>,
    pub after_id: Option<u64>,
    pub before_id: Option<u64>,
    pub limit: Option<u32>,
}

/// The largest id that a row can have.
pub const CURSOR_MAX: u64 = 0x7fff_ffff_ffff_ffff;

/// What is said of an id that no row can have.
pub open spec fn cursor_error(name: Seq<char>, id: u64) -> Seq<char> {
    "invalid `"@ + name + "` value `"@ + decimal(id as nat) + "`; must be <= "@ + decimal(
        CURSOR_MAX as nat,
    )
}

/// Refuses an id that no row can have: the store would take it for a smaller one and widen the
/// query.
fn check_cursor(name: &str, id: Option<u64>) -> (r: Result<(), ToolOutcome>)
    ensures
        match id {
            Some(v) => if v > CURSOR_MAX {
                r is Err && refuses(r->Err_0, cursor_error(name@, v))
            } else {
                r is Ok
            },
            None => r is Ok,
        },
{
    match id {
        Some(v) => {
            if v > CURSOR_MAX {
                let digits = u64_to_decimal(v);
                let mut message = cat5(
                    "invalid `",
                    name,
                    "` value `",
                    digits.as_str(),
                    "`; must be <= ",
                );
                message.append(u64_to_decimal(CURSOR_MAX).as_str());
                Err(ToolOutcome::InvalidParams(message))
            } else {
                Ok(())
            }
        },
        None => Ok(()),
    }
}

/// Whether an id is one that no row can have.
pub open spec fn over_cursor(id: Option<u64>) -> bool {
    id matches Some(v) && v > CURSOR_MAX
}

/// The query and the number of rows that the arguments of an event query ask for, or what is
/// wrong with them.
pub open spec fn history_plan_of(arguments: Result<EventsHistoryArgs, String>, now: i64) -> Result<
    (EventQuery, nat),
    Seq<char>,
> {
    match arguments {
        Err(words) => Err(mismatch_text("events.history"@, words@)),
        Ok(args) => match since_of(opt_text(args.since), "since"@, now) {
            Err(e) => Err(e),
            Ok(since_ms) => match since_of(opt_text(args.until), "until"@, now) {
                Err(e) => Err(e),
                Ok(until_ms) => if over_cursor(args.after_id) {
                    Err(cursor_error("after_id"@, args.after_id->0))
                } else if over_cursor(args.before_id) {
                    Err(cursor_error("before_id"@, args.before_id->0))
                } else {
                    Ok(
                        (
                            EventQuery {
                                since_ms,
                                until_ms,
                                device_id: args.device,
                                instance_id: args.instance,
                                plugin_id: args.plugin,
                                topic: topic_of(args.topic, args.topic_prefix),
                                after_id: args.after_id,
                                before_id: args.before_id,
                            },
                            rows_of(args.limit),
                        ),
                    )
                },
            },
        },
    }
}

/// Prepares an event query: the query and the number of rows.
pub fn events_history_plan(arguments: Result<EventsHistoryArgs, String>, now: i64) -> (r: Result<
    (EventQuery, usize),
    ToolOutcome,
>)
    ensures
        is_plan(r, history_plan_of(arguments, now)),
{
    let args = match arguments {
        Ok(args) => args,
        Err(words) => return Err(mismatch("events.history", words.as_str())),
    };
    let since_ms = match since_from(opt_slice(&args.since), "since", now) {
        Ok(v) => v,
        Err(e) => return Err(ToolOutcome::InvalidParams(e)),
    };
    let until_ms = match since_from(opt_slice(&args.until), "until", now) {
        Ok(v) => v,
        Err(e) => return Err(ToolOutcome::InvalidParams(e)),
    };
    let limit = rows(args.limit);
    if let Err(outcome) = check_cursor("after_id", args.after_id) {
        return Err(outcome);
    }
    if let Err(outcome) = check_cursor("before_id", args.before_id) {
        return Err(outcome);
    }
    let query = EventQuery {
        since_ms,
        until_ms,
        device_id: args.device,
        instance_id: args.instance,
        plugin_id: args.plugin,
        topic: topic_filter(args.topic, args.topic_prefix),
        after_id: args.after_id,
        before_id: args.before_id,
    };
    Ok((query, limit))
}

/// The outcome of an event query that the store gave no rows for.
pub fn events_history_failure(failure: StoreFailure) -> (r: ToolOutcome)
    ensures
        is_store_failure(r, failure, "event"@),
{
    store_failure(failure, "event")
}

// ---------------------------------------------------------------------
// plugins.list and plugins.show
// ---------------------------------------------------------------------

/// Looks at the arguments of a listing: there are none.
pub fn plugins_list_args(arguments: Result<(), String>) -> (r: Result<(), ToolOutcome>)
    ensures
        match arguments {
            Ok(()) => r is Ok,
            Err(words) => r is Err && refuses(
                r->Err_0,
                mismatch_text("plugins.list"@, words@),
            ),
        },
{
    match arguments {
        Ok(()) => Ok(()),
        Err(words) => Err(mismatch("plugins.list", words.as_str())),
    }
}

/// The one id that a tool takes, or what is wrong with it.
pub open spec fn id_argument_of(
    tool: Seq<char>,
    name: Seq<char>,
    argument: Option<Result<String, String>>,
) -> Result<String, Seq<char>> {
    match taken(tool, tool + " requires a `"@ + name + "` argument"@, argument) {
        Err(words) => Err(words),
        Ok(id) => if id@.len() == 0 {
            Err("`"@ + name + "` must not be empty"@)
        } else {
            Ok(id)
        },
    }
}

/// Looks at the one id that a tool takes: it has to be there and not empty.
pub fn id_argument(tool: &str, name: &str, argument: Option<Result<String, String>>) -> (r: Result<
    String,
    ToolOutcome,
>)
    ensures
        is_taken(r, id_argument_of(tool@, name@, argument)),
{
    match argument {
        None => {
            let mut message = cat3(tool, " requires a `", name);
            message.append("` argument");
            Err(ToolOutcome::InvalidParams(message))
        },
        Some(Err(words)) => Err(mismatch(tool, words.as_str())),
        Some(Ok(id)) => {
            if id.as_str().unicode_len() == 0 {
                Err(ToolOutcome::InvalidParams(cat3("`", name, "` must not be empty")))
            } else {
                Ok(id)
            }
        },
    }
}

/// What is said of a plugin that is neither on disk nor running.
pub open spec fn unknown_plugin_text(plugin_id: Seq<char>) -> Seq<char> {
    "plugin `"@ + plugin_id + "` is not installed and has no running instances"@
}

/// The outcome of a look-up of a plugin that is neither on disk nor running.
pub fn plugin_unknown(plugin_id: &str) -> (r: ToolOutcome)
    ensures
        reports(r, unknown_plugin_text(plugin_id@), None),
{
    report(
        cat3("plugin `", plugin_id, "` is not installed and has no running instances"),
    )
}

// ---------------------------------------------------------------------
// plugins.stop
// ---------------------------------------------------------------------

/// The arguments of a stop.
#[derive(Debug)]
pub struct PluginsStopArgs {
    pub plugin_id: String,
    /// Absent means every instance. A value that is no text never gets here as absent.
    pub instance_id: Option<String>,
}

/// What is wrong with the ids of a stop or a start.
pub open spec fn ids_error(plugin_id: Seq<char>, instance_id: Option<Seq<char>>) -> Option<
    Seq<char>,
> {
    if plugin_id.len() == 0 {
        Some("`plugin_id` must not be empty"@)
    } else if instance_id matches Some(id) && id.len() == 0 {
        Some("`instance_id`, when supplied, must not be empty"@)
    } else {
        None
    }
}

/// Looks at the ids of a stop or a start.
fn check_ids(plugin_id: &str, instance_id: Option<&str>) -> (r: Result<(), ToolOutcome>)
    ensures
        match ids_error(plugin_id@, opt_str(instance_id)) {
            Some(words) => r is Err && refuses(r->Err_0, words),
            None => r is Ok,
        },
{
    if plugin_id.unicode_len() == 0 {
        return Err(ToolOutcome::InvalidParams("`plugin_id` must not be empty".to_owned()));
    }
    if let Some(id) = instance_id {
        if id.unicode_len() == 0 {
            return Err(
                ToolOutcome::InvalidParams(
                    "`instance_id`, when supplied, must not be empty".to_owned(),
                ),
            );
        }
    }
    Ok(())
}

/// The arguments of a stop, or what is wrong with them.
pub open spec fn stop_args_of(arguments: Option<Result<PluginsStopArgs, String>>) -> Result<
    PluginsStopArgs,
    Seq<char>,
> {
    match taken(
        "plugins.stop"@,
        "plugins.stop requires a `plugin_id` argument"@,
        arguments,
    ) {
        Err(words) => Err(words),
        Ok(args) => match ids_error(args.plugin_id@, opt_text(args.instance_id)) {
            Some(words) => Err(words),
            None => Ok(args),
        },
    }
}

/// Looks at the arguments of a stop.
pub fn plugins_stop_args(arguments: Option<Result<PluginsStopArgs, String>>) -> (r: Result<
    PluginsStopArgs,
    ToolOutcome,
>)
    ensures
        is_taken(r, stop_args_of(arguments)),
{
    match arguments {
        None => Err(
            ToolOutcome::InvalidParams("plugins.stop requires a `plugin_id` argument".to_owned()),
        ),
        Some(Err(words)) => Err(mismatch("plugins.stop", words.as_str())),
        Some(Ok(args)) => match check_ids(args.plugin_id.as_str(), opt_slice(&args.instance_id)) {
            Ok(()) => Ok(args),
            Err(outcome) => Err(outcome),
        },
    }
}

// ---------------------------------------------------------------------
// plugins.uninstall
// ---------------------------------------------------------------------

/// What names a plugin in a detail.
pub open spec fn plugin_detail(kind: Seq<char>, plugin_id: Seq<char>) -> JsonModel {
    JsonModel::Object(
        seq![("kind"@, JsonModel::Text(kind)), ("plugin_id"@, JsonModel::Text(plugin_id))],
    )
}

/// What names a plugin in a detail.
fn plugin_detail_json(kind: &str, plugin_id: &str) -> (r: Json)
    ensures
        r@ == plugin_detail(kind@, plugin_id@),
{
    object2("kind", json_text(kind), "plugin_id", json_text(plugin_id))
}

/// Puts commas between texts.
fn join_texts(list: &Vec<String>) -> (r: String)
    ensures
        r@ == comma_list(texts(list@)),
{
    let ghost all = texts(list@);
    let mut out = String::new();
    let mut i: usize = 0;
    assert(all.take(0) =~= Seq::<Seq<char>>::empty());
    while i < list.len()
        invariant
            0 <= i <= list.len(),
            all == texts(list@),
            out@ == comma_list(all.take(i as int)),
        decreases list.len() - i,
    {
        if i > 0 {
            out.append(", ");
        }
        out.append(list[i].as_str());
        proof {
            let next = all.take(i + 1);
            assert(next.drop_last() =~= all.take(i as int));
            assert(next.last() == all[i as int]);
            assert(out@ =~= comma_list(next));
        }
        i += 1;
    }
    assert(all.take(i as int) =~= all);
    out
}

/// What is said of a plugin that still runs.
pub open spec fn still_running_text(plugin_id: Seq<char>, running: Seq<Seq<char>>) -> Seq<char> {
    "plugin `"@ + plugin_id + "` has running instances: "@ + comma_list(running)
        + " — call plugins.stop first"@
}

/// Whether a result says whether a plugin may be uninstalled.
pub open spec fn is_running_check(
    r: Result<(), ToolOutcome>,
    plugin_id: Seq<char>,
    running: Seq<Seq<char>>,
) -> bool {
    if running.len() == 0 {
        r is Ok
    } else {
        r is Err && reports(
            r->Err_0,
            still_running_text(plugin_id, running),
            Some(
                JsonModel::Object(
                    seq![
                        ("kind"@, JsonModel::Text("instances_running"@)),
                        ("plugin_id"@, JsonModel::Text(plugin_id)),
                        ("running"@, text_list(running)),
                    ],
                ),
            ),
        )
    }
}

/// Whether a plugin may be uninstalled. `running` holds its instances that run.
pub fn check_not_running(plugin_id: &str, running: &Vec<String>) -> (r: Result<(), ToolOutcome>)
    ensures
        is_running_check(r, plugin_id@, texts(running@)),
{
    assert(texts(running@).len() == running@.len());
    if running.len() == 0 {
        return Ok(());
    }
    let list = join_texts(running);
    let message = cat5(
        "plugin `",
        plugin_id,
        "` has running instances: ",
        list.as_str(),
        " — call plugins.stop first",
    );
    let detail = object3(
        "kind",
        json_text("instances_running"),
        "plugin_id",
        json_text(plugin_id),
        "running",
        json_texts(running),
    );
    Err(report_with(message, detail))
}

/// How a removal ended.
#[derive(Debug)]
pub enum UninstallEnd {
    Removed,
    Failed(UninstallError),
    Broken,
}

/// Whether a result is what a removal comes to. Details of the host stay with the host.
pub open spec fn is_uninstall_result(
    r: Result<(), ToolOutcome>,
    plugin_id: Seq<char>,
    end: UninstallEnd,
) -> bool {
    match end {
        UninstallEnd::Removed => r is Ok,
        UninstallEnd::Failed(UninstallError::NotInstalled { .. }) => r is Err && reports(
            r->Err_0,
            "plugin `"@ + plugin_id + "` is not installed"@,
            Some(plugin_detail("not_installed"@, plugin_id)),
        ),
        UninstallEnd::Failed(UninstallError::NoPluginsRoot) => r is Err && reports(
            r->Err_0,
            "uninstall requires a state-dir-backed engine"@,
            Some(plugin_detail("no_plugins_root"@, plugin_id)),
        ),
        UninstallEnd::Failed(_) => r is Err && fails(
            r->Err_0,
            "uninstall failed; see server logs"@,
        ),
        UninstallEnd::Broken => r is Err && fails(r->Err_0, "uninstall task panicked"@),
    }
}

/// What a removal comes to.
pub fn uninstall_result(plugin_id: &str, end: UninstallEnd) -> (r: Result<(), ToolOutcome>)
    ensures
        is_uninstall_result(r, plugin_id@, end),
{
    match end {
        UninstallEnd::Removed => Ok(()),
        UninstallEnd::Failed(UninstallError::NotInstalled { plugin_id: _ }) => Err(
            report_with(
                cat3("plugin `", plugin_id, "` is not installed"),
                plugin_detail_json("not_installed", plugin_id),
            ),
        ),
        UninstallEnd::Failed(UninstallError::NoPluginsRoot) => Err(
            report_with(
                "uninstall requires a state-dir-backed engine".to_owned(),
                plugin_detail_json("no_plugins_root", plugin_id),
            ),
        ),
        UninstallEnd::Failed(_) => Err(
            ToolOutcome::Internal("uninstall failed; see server logs".to_owned()),
        ),
        UninstallEnd::Broken => Err(ToolOutcome::Internal("uninstall task panicked".to_owned())),
    }
}

// ---------------------------------------------------------------------
// plugins.start
// ---------------------------------------------------------------------

/// The arguments of a start.
#[derive(Debug)]
pub struct PluginsStartArgs {
    pub plugin_id: String,
    pub instance_id: Option<String>,
    pub config_overrides: Option<toml::Value>,
}

/// The arguments of a start, or what is wrong with them.
pub open spec fn start_args_of(arguments: Option<Result<PluginsStartArgs, String>>) -> Result<
    PluginsStartArgs,
    Seq<char>,
> {
    match taken(
        "plugins.start"@,
        "plugins.start requires a `plugin_id` argument"@,
        arguments,
    ) {
        Err(words) => Err(words),
        Ok(args) => match ids_error(args.plugin_id@, opt_text(args.instance_id)) {
            Some(words) => Err(words),
            None => Ok(args),
        },
    }
}

/// The id of the instance that a start asks for: that of the plugin where none is given.
pub open spec fn started_id(args: PluginsStartArgs) -> Seq<char> {
    match args.instance_id {
        Some(id) => id@,
        None => args.plugin_id@,
    }
}

/// Whether a result gives the arguments of a start, or refuses them with the words that belong to
/// it.
pub open spec fn are_start_args(
    r: Result<(String, String, Option<toml::Value>), ToolOutcome>,
    arguments: Option<Result<PluginsStartArgs, String>>,
) -> bool {
    match start_args_of(arguments) {
        Ok(args) => r is Ok && r->Ok_0.0 == args.plugin_id && r->Ok_0.1@ == started_id(args)
            && r->Ok_0.2 == args.config_overrides,
        Err(words) => r is Err && refuses(r->Err_0, words),
    }
}

/// Looks at the arguments of a start. The result also holds the id of the instance.
pub fn plugins_start_args(arguments: Option<Result<PluginsStartArgs, String>>) -> (r: Result<
    (String, String, Option<toml::Value>),
    ToolOutcome,
>)
    ensures
        are_start_args(r, arguments),
{
    match arguments {
        None => Err(
            ToolOutcome::InvalidParams("plugins.start requires a `plugin_id` argument".to_owned()),
        ),
        Some(Err(words)) => Err(mismatch("plugins.start", words.as_str())),
        Some(Ok(args)) => {
            if let Err(outcome) = check_ids(
                args.plugin_id.as_str(),
                opt_slice(&args.instance_id),
            ) {
                return Err(outcome);
            }
            let instance_id = start_instance_id(args.instance_id, args.plugin_id.as_str());
            Ok((args.plugin_id, instance_id, args.config_overrides))
        },
    }
}

/// Whether a result says whether an instance may be started.
pub open spec fn is_start_check(
    r: Result<(), ToolOutcome>,
    plugin_id: Seq<char>,
    instance_id: Seq<char>,
    id_is_safe: bool,
    installed: bool,
) -> bool {
    if !id_is_safe {
        r is Err && refuses(
            r->Err_0,
            "`instance_id` `"@ + instance_id + "` is not a safe filesystem segment"@,
        )
    } else if !installed {
        r is Err && reports(
            r->Err_0,
            "plugin `"@ + plugin_id + "` is not installed"@,
            Some(plugin_detail("not_installed"@, plugin_id)),
        )
    } else {
        r is Ok
    }
}

/// Whether an instance may be started. `id_is_safe` says whether its id can be part of a path.
pub fn check_start_tool(
    plugin_id: &str,
    instance_id: &str,
    id_is_safe: bool,
    installed: bool,
) -> (r: Result<(), ToolOutcome>)
    ensures
        is_start_check(r, plugin_id@, instance_id@, id_is_safe, installed),
{
    if !id_is_safe {
        return Err(
            ToolOutcome::InvalidParams(
                cat3("`instance_id` `", instance_id, "` is not a safe filesystem segment"),
            ),
        );
    }
    if !installed {
        return Err(
            report_with(
                cat3("plugin `", plugin_id, "` is not installed"),
                plugin_detail_json("not_installed", plugin_id),
            ),
        );
    }
    Ok(())
}

/// How a start ended.
#[derive(Debug)]
pub enum StartEnd {
    Running { state: String },
    Failed,
    /// The instance was started but did not come up.
    NotRunning,
}

/// Whether a result is what a start comes to. Details of the host stay with the host.
pub open spec fn is_start_result(r: Result<String, ToolOutcome>, end: StartEnd) -> bool {
    match end {
        StartEnd::Running { state } => r == Ok::<String, ToolOutcome>(state),
        StartEnd::Failed => r is Err && fails(
            r->Err_0,
            "start failed; see server logs for details"@,
        ),
        StartEnd::NotRunning => r is Err && fails(
            r->Err_0,
            "instance failed to reach Running; see server logs for details"@,
        ),
    }
}

/// What a start comes to: the state of the instance, or why it does not run.
pub fn start_result(end: StartEnd) -> (r: Result<String, ToolOutcome>)
    ensures
        is_start_result(r, end),
{
    match end {
        StartEnd::Running { state } => Ok(state),
        StartEnd::Failed => Err(
            ToolOutcome::Internal("start failed; see server logs for details".to_owned()),
        ),
        StartEnd::NotRunning => Err(
            ToolOutcome::Internal(
                "instance failed to reach Running; see server logs for details".to_owned(),
            ),
        ),
    }
}

// ---------------------------------------------------------------------
// plugins.install
// ---------------------------------------------------------------------

/// How an installation ended.
#[derive(Debug)]
pub enum InstallEnd {
    Failed(InstallError),
    Broken,
}

/// Whether an outcome is what an installation that failed comes to. `file` is the name of the
/// manifest without its directory. Details of the host stay with the host.
pub open spec fn is_install_failure(
    r: ToolOutcome,
    end: InstallEnd,
    file: Option<Seq<char>>,
) -> bool {
    match end {
        InstallEnd::Failed(InstallError::SourceMissing { path }) => reports(
            r,
            "source dir is missing or has no manifest.toml: "@ + path@,
            Some(
                JsonModel::Object(
                    seq![
                        ("kind"@, JsonModel::Text("source_missing"@)),
                        ("source_dir"@, JsonModel::Text(path@)),
                    ],
                ),
            ),
        ),
        InstallEnd::Failed(InstallError::AlreadyInstalled { plugin_id }) => reports(
            r,
            "plugin `"@ + plugin_id@ + "` is already installed"@,
            Some(plugin_detail("already_installed"@, plugin_id@)),
        ),
        InstallEnd::Failed(InstallError::BadManifest { path, reason }) => reports(
            r,
            "bad manifest in `"@ + (match file {
                Some(name) => name,
                None => "manifest.toml"@,
            }) + "`: "@ + reason@,
            Some(
                JsonModel::Object(
                    seq![
                        ("kind"@, JsonModel::Text("bad_manifest"@)),
                        ("reason"@, JsonModel::Text(reason@)),
                    ],
                ),
            ),
        ),
        InstallEnd::Failed(InstallError::NoPluginsRoot) => reports(
            r,
            "install requires a state-dir-backed engine"@,
            Some(JsonModel::Object(seq![("kind"@, JsonModel::Text("no_plugins_root"@))])),
        ),
        InstallEnd::Failed(_) => fails(r, "install failed; see server logs for details"@),
        InstallEnd::Broken => fails(r, "install task panicked"@),
    }
}

/// What an installation that failed comes to.
pub fn install_failure(end: InstallEnd, file: Option<&str>) -> (r: ToolOutcome)
    ensures
        is_install_failure(r, end, opt_str(file)),
{
    match end {
        InstallEnd::Failed(InstallError::SourceMissing { path }) => {
            let detail = object2(
                "kind",
                json_text("source_missing"),
                "source_dir",
                json_text(path.as_str()),
            );
            report_with(
                cat2("source dir is missing or has no manifest.toml: ", path.as_str()),
                detail,
            )
        },
        InstallEnd::Failed(InstallError::AlreadyInstalled { plugin_id }) => report_with(
            cat3("plugin `", plugin_id.as_str(), "` is already installed"),
            plugin_detail_json("already_installed", plugin_id.as_str()),
        ),
        InstallEnd::Failed(InstallError::BadManifest { path: _, reason }) => {
            let name = match file {
                Some(name) => name,
                None => "manifest.toml",
            };
            let mut message = cat3("bad manifest in `", name, "`: ");
            message.append(reason.as_str());
            let detail = object2(
                "kind",
                json_text("bad_manifest"),
                "reason",
                json_text(reason.as_str()),
            );
            report_with(message, detail)
        },
        InstallEnd::Failed(InstallError::NoPluginsRoot) => report_with(
            "install requires a state-dir-backed engine".to_owned(),
            object1("kind", json_text("no_plugins_root")),
        ),
        InstallEnd::Failed(_) => ToolOutcome::Internal(
            "install failed; see server logs for details".to_owned(),
        ),
        InstallEnd::Broken => ToolOutcome::Internal("install task panicked".to_owned()),
    }
}

} // verus!
