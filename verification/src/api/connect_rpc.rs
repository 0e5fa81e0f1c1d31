//! The RPC surface: authentication, scopes and shapes of the Connect services.
//!
//! Errors of this surface may travel inside an HTTP answer that is itself a success. What the
//! ledger records is therefore what the handler reported, not the status of the answer.

use vstd::prelude::*;

use crate::api::auth::{
    completion_of, is_success, wit_error_kind, wit_error_name, AuthReply, HandlerReport,
};
use crate::api::plugins::{
    instances_of, law_listed_instances_run, plugin_runs, selected_instances, unsafe_id_message,
    unsafe_id_text, RunningInstance,
};
use crate::api::queries::{log_limit, log_limit_of};
use crate::api::scopes::{require_scope, scope_satisfied, Scope};
use crate::api::wire::{
    button_delta, host_value, wire_error, wire_fields, wire_key_values, WireKeyValue, WireValue,
    WireWitError,
};
use crate::auth::Actor;
use crate::overrides::{json_as_toml, toml_from_json};
use crate::state::{
    key_values, ButtonEvent, Command, CommandResult, Event, EventPayload, HistoricalLogEvent,
    InstallError, KeyValue, LogLevel, LogQuery, LogValue, UninstallError, ValueModel, WitError,
    WitValue,
};
use crate::text::{
    cat2, debug_text, decimal_signed, i64_to_decimal, opt_str, opt_text, opt_to_owned, quoted,
    texts,
};

verus! {

// ---------------------------------------------------------------------
// Errors
// ---------------------------------------------------------------------

/// The codes of RPC errors that are in use here.
#[derive(Debug, Clone, Copy, PartialEq, Eq, Structural)]
pub enum RpcCode {
    Unauthenticated,
    PermissionDenied,
    NotFound,
    AlreadyExists,
    InvalidArgument,
    FailedPrecondition,
    Unavailable,
    Internal,
}

/// The HTTP status that goes with a code.
pub open spec fn rpc_status(code: RpcCode) -> u16 {
    match code {
        RpcCode::Unauthenticated => 401,
        RpcCode::PermissionDenied => 403,
        RpcCode::NotFound => 404,
        RpcCode::AlreadyExists => 409,
        RpcCode::InvalidArgument => 400,
        RpcCode::FailedPrecondition => 400,
        RpcCode::Unavailable => 503,
        RpcCode::Internal => 500,
    }
}

/// `connectrpc::ErrorCode::http_status`: the HTTP status that goes with a code.
#[verifier::external_body]
fn http_status(code: RpcCode) -> (r: u16)
    ensures
        r == rpc_status(code),
{
    let outside = match code {
        RpcCode::Unauthenticated => connectrpc::ErrorCode::Unauthenticated,
        RpcCode::PermissionDenied => connectrpc::ErrorCode::PermissionDenied,
        RpcCode::NotFound => connectrpc::ErrorCode::NotFound,
        RpcCode::AlreadyExists => connectrpc::ErrorCode::AlreadyExists,
        RpcCode::InvalidArgument => connectrpc::ErrorCode::InvalidArgument,
        RpcCode::FailedPrecondition => connectrpc::ErrorCode::FailedPrecondition,
        RpcCode::Unavailable => connectrpc::ErrorCode::Unavailable,
        RpcCode::Internal => connectrpc::ErrorCode::Internal,
    };
    outside.http_status().as_u16()
}

/// An RPC error.
#[derive(Debug)]
pub struct RpcError {
    pub code: RpcCode,
    pub message: String,
}

/// Whether an error has this code and message.
pub open spec fn is_rpc_error(err: RpcError, code: RpcCode, message: Seq<char>) -> bool {
    err.code == code && err.message@ == message
}

/// An RPC error.
fn rpc_error(code: RpcCode, message: &str) -> (r: RpcError)
    ensures
        is_rpc_error(r, code, message@),
{
    RpcError { code, message: message.to_owned() }
}

/// What a handler reports to the ledger.
#[derive(Debug, Clone, Copy)]
pub struct HandlerOutcome {
    /// The status that goes with the error it returned, if it returned one.
    pub status: Option<u16>,
    /// The scope that it found missing.
    pub denied_scope: Option<&'static str>,
    /// The kind of error that a plugin reported.
    pub domain_error: Option<&'static str>,
}

/// What an error other than a missing scope reports to the ledger.
pub fn rpc_err(err: &RpcError) -> (r: HandlerOutcome)
    ensures
        r.status == Some(rpc_status(err.code)),
        r.denied_scope is None,
        r.domain_error is None,
{
    HandlerOutcome { status: Some(http_status(err.code)), denied_scope: None, domain_error: None }
}

/// What an error of a plugin reports to the ledger: the call itself succeeded.
pub fn record_domain_outcome(err: &WitError) -> (r: HandlerOutcome)
    ensures
        r.status is None,
        r.denied_scope is None,
        opt_str(r.domain_error) == Some(wit_error_name(*err)),
{
    HandlerOutcome { status: None, denied_scope: None, domain_error: Some(wit_error_kind(err)) }
}

/// What is said of a missing scope.
pub open spec fn missing_scope_text(required: Seq<char>) -> Seq<char> {
    "scope "@ + required + " required"@
}

/// Whether a check is the one of a requirement against the scopes of a caller, if there is one.
pub open spec fn is_scope_check(
    r: Result<(), (RpcError, HandlerOutcome)>,
    held: Option<Seq<Seq<char>>>,
    required: Seq<char>,
) -> bool {
    match held {
        Some(scopes) => if scope_satisfied(required, scopes) {
            r is Ok
        } else {
            r matches Err((err, outcome)) && is_rpc_error(
                err,
                RpcCode::PermissionDenied,
                missing_scope_text(required),
            ) && outcome.status == Some(403u16) && opt_str(outcome.denied_scope) == Some(required)
                && outcome.domain_error is None
        },
        None => r matches Err((err, outcome)) && is_rpc_error(
            err,
            RpcCode::Internal,
            "connect handler ran without an Actor extension"@,
        ) && outcome.status == Some(500u16) && outcome.denied_scope is None
            && outcome.domain_error is None,
    }
}

/// Checks a requirement against the scopes of the caller. A call without a caller is a fault of
/// the host. Either error comes with its report to the ledger.
pub fn require_scope_connect(actor: Option<&Actor>, required: Scope) -> (r: Result<
    (),
    (RpcError, HandlerOutcome),
>)
    ensures
        is_scope_check(
            r,
            match actor {
                Some(a) => Some(a@.scopes),
                None => None,
            },
            required.0@,
        ),
{
    let actor = match actor {
        Some(actor) => actor,
        None => {
            let err = rpc_error(
                RpcCode::Internal,
                "connect handler ran without an Actor extension",
            );
            let outcome = rpc_err(&err);
            return Err((err, outcome));
        },
    };
    match require_scope(actor, required) {
        Ok(()) => Ok(()),
        Err(denied) => {
            let mut message = "scope ".to_owned();
            message.append(denied.required);
            message.append(" required");
            Err(
                (
                    RpcError { code: RpcCode::PermissionDenied, message },
                    HandlerOutcome {
                        status: Some(403),
                        denied_scope: Some(denied.required),
                        domain_error: None,
                    },
                ),
            )
        },
    }
}

// ---------------------------------------------------------------------
// Authentication
// ---------------------------------------------------------------------

/// The method that anyone may call.
pub const ANONYMOUS_CONNECT_PATH: &'static str = "/oxidhome.v1.HealthService/Check";

/// Whether a path may be called without a token.
pub fn is_anonymous_path(path: &str) -> (r: bool)
    ensures
        r == (path@ == ANONYMOUS_CONNECT_PATH@),
{
    path.eq(ANONYMOUS_CONNECT_PATH)
}

/// The error that stands for an answer that authentication gives.
pub open spec fn gate_error(reply: AuthReply) -> (RpcCode, Seq<char>) {
    match reply {
        AuthReply::Unauthorized => (RpcCode::Unauthenticated, "unauthenticated"@),
        AuthReply::Forbidden => (RpcCode::PermissionDenied, ""@),
        AuthReply::Internal => (RpcCode::Internal, "internal error"@),
    }
}

/// The error that stands for an answer that authentication gives.
pub fn gate_reply(reply: AuthReply) -> (r: RpcError)
    ensures
        is_rpc_error(r, gate_error(reply).0, gate_error(reply).1),
{
    match reply {
        AuthReply::Unauthorized => rpc_error(RpcCode::Unauthenticated, "unauthenticated"),
        AuthReply::Forbidden => rpc_error(RpcCode::PermissionDenied, ""),
        AuthReply::Internal => rpc_error(RpcCode::Internal, "internal error"),
    }
}

/// Whether a report to the ledger is the one of a handler, or of the answer where it left none.
pub open spec fn is_report_of(
    report: HandlerReport,
    response_status: u16,
    outcome: Option<HandlerOutcome>,
) -> bool {
    &&& report.status == (match outcome {
        Some(o) => match o.status {
            Some(status) => status,
            None => response_status,
        },
        None => response_status,
    })
    &&& opt_text(report.denied_scope) == (match outcome {
        Some(o) => opt_str(o.denied_scope),
        None => None,
    })
    &&& opt_text(report.domain_error) == (match outcome {
        Some(o) => opt_str(o.domain_error),
        None => None,
    })
}

/// How a handler ended, for the ledger: what it reported counts before the status of the answer.
pub fn connect_report(response_status: u16, outcome: Option<HandlerOutcome>) -> (r: HandlerReport)
    ensures
        is_report_of(r, response_status, outcome),
{
    match outcome {
        Some(o) => HandlerReport {
            status: match o.status {
                Some(status) => status,
                None => response_status,
            },
            denied_scope: opt_to_owned(o.denied_scope),
            domain_error: opt_to_owned(o.domain_error),
        },
        None => HandlerReport { status: response_status, denied_scope: None, domain_error: None },
    }
}

/// Every RPC error has a status that is no success, so that the ledger never records one as
/// allowed, whatever status the answer travels with.
pub proof fn law_rpc_errors_are_never_allowed(code: RpcCode, audit_id: u64)
    ensures
        !is_success(rpc_status(code)),
        completion_of(audit_id, rpc_status(code), None, None).decision != "allow"@,
{
    reveal_strlit("allow");
    reveal_strlit("error");
    reveal_strlit("deny");
    assert("allow"@.len() == 5 && "deny"@.len() == 4);
    assert("allow"@[0] != "error"@[0]);
}

// ---------------------------------------------------------------------
// Values
// ---------------------------------------------------------------------

/// A named value as a caller sends it. The value may be missing.
#[derive(Debug)]
pub struct ProtoKeyValue {
    pub key: String,
    pub value: Option<WireValue>,
}

/// Whether a named value for the plugin is what a caller sent. A missing value is an empty JSON
/// text.
pub open spec fn is_wit_key_value(out: KeyValue, kv: ProtoKeyValue) -> bool {
    &&& out.key == kv.key
    &&& match kv.value {
        Some(v) => out.value == host_value(v),
        None => out.value@ == ValueModel::Json(Seq::<char>::empty()),
    }
}

/// A named value for the plugin.
pub fn proto_key_value_to_wit(kv: ProtoKeyValue) -> (r: KeyValue)
    ensures
        is_wit_key_value(r, kv),
{
    let value = match kv.value {
        Some(v) => WitValue::from(v),
        None => WitValue::JsonVal(String::new()),
    };
    KeyValue { key: kv.key, value }
}

/// A command as a caller sends it.
#[derive(Debug)]
pub struct ProtoCommand {
    pub capability: String,
    pub action: String,
    pub args: Vec<ProtoKeyValue>,
}

/// Whether a command for a plugin is one that a caller sent.
pub open spec fn is_proto_command(out: Command, command: ProtoCommand) -> bool {
    &&& out.capability@ == command.capability@
    &&& out.action@ == command.action@
    &&& out.args.len() == command.args.len()
    &&& forall|i: int|
        0 <= i < out.args.len() ==> is_wit_key_value(#[trigger] out.args@[i], command.args@[i])
}

/// The command for the plugin. The arguments keep their order.
pub fn proto_command(command: ProtoCommand) -> (r: Command)
    ensures
        is_proto_command(r, command),
        r.capability == command.capability,
        r.action == command.action,
        r.args.len() == command.args.len(),
        forall|i: int|
            0 <= i < r.args.len() ==> is_wit_key_value(
                #[trigger] r.args@[i],
                command.args@[i],
            ),
{
    let ghost all = command.args@;
    let mut rest = command.args;
    let mut args: Vec<KeyValue> = Vec::new();
    assert(all.skip(0) =~= all);
    while rest.len() > 0
        invariant
            rest.len() + args.len() == all.len(),
            rest@ == all.skip(args.len() as int),
            forall|i: int|
                0 <= i < args.len() ==> is_wit_key_value(#[trigger] args@[i], all[i]),
        decreases rest.len(),
    {
        let ghost done = args.len() as int;
        let kv = rest.remove(0);
        proof {
            assert(kv == all[done]);
            assert(rest@ =~= all.skip(done + 1));
        }
        args.push(proto_key_value_to_wit(kv));
    }
    Command { capability: command.capability, action: command.action, args }
}

/// Whether a check is the one of a device, given whether its owner runs.
pub open spec fn is_target_check(r: Result<(), RpcError>, owner_runs: Option<bool>) -> bool {
    if owner_runs == Some(true) {
        r is Ok
    } else {
        r matches Err(e) && is_rpc_error(e, RpcCode::NotFound, "device not found"@)
    }
}

/// Whether a command may be dispatched. `owner_runs` tells for the owner of the device, if the
/// device has one, whether it runs. A device that does not exist and one whose owner does not run
/// are not told apart.
pub fn check_command_connect(owner_runs: Option<bool>) -> (r: Result<(), RpcError>)
    ensures
        is_target_check(r, owner_runs),
{
    match owner_runs {
        Some(true) => Ok(()),
        _ => Err(rpc_error(RpcCode::NotFound, "device not found")),
    }
}

/// A failure of the host itself.
#[derive(Debug)]
pub enum HostFault {
    /// A command did not reach its plugin.
    Dispatch,
    /// The logs could not be read.
    Logs,
    /// An installation broke down.
    Install,
    /// A removal broke down.
    Uninstall,
    /// An instance could not be started, in these words.
    Start(String),
    /// An instance was started but did not come up, in these words.
    NotRunning(String),
}

/// What is said of a failure of the host.
pub open spec fn fault_text(fault: HostFault) -> Seq<char> {
    match fault {
        HostFault::Dispatch => "device command dispatch failed"@,
        HostFault::Logs => "logs query failed"@,
        HostFault::Install => "install task join failed"@,
        HostFault::Uninstall => "uninstall task join failed"@,
        HostFault::Start(words) => "start_instance failed: "@ + words@,
        HostFault::NotRunning(words) => "wait_for_running failed: "@ + words@,
    }
}

/// The error for a failure of the host.
pub fn host_fault(fault: HostFault) -> (r: RpcError)
    ensures
        is_rpc_error(r, RpcCode::Internal, fault_text(fault)),
{
    match fault {
        HostFault::Dispatch => rpc_error(RpcCode::Internal, "device command dispatch failed"),
        HostFault::Logs => rpc_error(RpcCode::Internal, "logs query failed"),
        HostFault::Install => rpc_error(RpcCode::Internal, "install task join failed"),
        HostFault::Uninstall => rpc_error(RpcCode::Internal, "uninstall task join failed"),
        HostFault::Start(words) => RpcError {
            code: RpcCode::Internal,
            message: cat2("start_instance failed: ", words.as_str()),
        },
        HostFault::NotRunning(words) => RpcError {
            code: RpcCode::Internal,
            message: cat2("wait_for_running failed: ", words.as_str()),
        },
    }
}

/// The answer to a command.
#[derive(Debug)]
pub enum ProtoCommandOutcome {
    Done,
    OkWithState { state: Vec<WireKeyValue> },
    Failed { error: WireWitError },
}

/// Whether an answer that goes out is the one of a plugin.
pub open spec fn is_proto_outcome(out: ProtoCommandOutcome, result: CommandResult) -> bool {
    match result {
        CommandResult::Done => out is Done,
        CommandResult::OkWithState(list) => out matches ProtoCommandOutcome::OkWithState { state }
            && wire_key_values(state@) == key_values(list@),
        CommandResult::Failed(e) => out == (ProtoCommandOutcome::Failed { error: wire_error(e) }),
    }
}

/// The answer of a plugin as it goes out. The new state keeps its order.
pub fn command_result_to_proto(result: CommandResult) -> (r: ProtoCommandOutcome)
    ensures
        is_proto_outcome(r, result),
{
    match result {
        CommandResult::Done => ProtoCommandOutcome::Done,
        CommandResult::OkWithState(list) => ProtoCommandOutcome::OkWithState {
            state: wire_fields(&list),
        },
        CommandResult::Failed(e) => ProtoCommandOutcome::Failed { error: WireWitError::from(e) },
    }
}

/// Whether a report is the one of a command with this answer.
pub open spec fn is_command_report(r: Option<HandlerOutcome>, result: CommandResult) -> bool {
    match result {
        CommandResult::Failed(e) => r matches Some(outcome) && outcome.status is None
            && outcome.denied_scope is None && opt_str(outcome.domain_error) == Some(
            wit_error_name(e),
        ),
        _ => r is None,
    }
}

/// What a command reports to the ledger: the error of the plugin, if it answered with one.
pub fn command_report(result: &CommandResult) -> (r: Option<HandlerOutcome>)
    ensures
        is_command_report(r, *result),
{
    match result {
        CommandResult::Failed(e) => Some(record_domain_outcome(e)),
        _ => None,
    }
}

// ---------------------------------------------------------------------
// Plugins
// ---------------------------------------------------------------------

/// The error for a failed installation.
pub open spec fn install_rpc_error(err: InstallError) -> (RpcCode, Seq<char>) {
    match err {
        InstallError::NoPluginsRoot => (
            RpcCode::Unavailable,
            "plugin install requires a state-dir-backed engine"@,
        ),
        InstallError::SourceMissing { path } => (
            RpcCode::NotFound,
            "source dir missing or has no manifest.toml: "@ + path@,
        ),
        InstallError::AlreadyInstalled { plugin_id } => (
            RpcCode::AlreadyExists,
            "plugin "@ + plugin_id@ + " is already installed"@,
        ),
        InstallError::BadManifest { path, reason } => (
            RpcCode::InvalidArgument,
            "manifest at "@ + path@ + ": "@ + reason@,
        ),
        InstallError::Io(_) => (RpcCode::Internal, "install io error"@),
        InstallError::Persistence(_) => (RpcCode::Internal, "install persistence error"@),
    }
}

/// The error for a failed installation.
pub fn install_error_to_connect(err: InstallError) -> (r: RpcError)
    ensures
        is_rpc_error(r, install_rpc_error(err).0, install_rpc_error(err).1),
{
    match err {
        InstallError::NoPluginsRoot => rpc_error(
            RpcCode::Unavailable,
            "plugin install requires a state-dir-backed engine",
        ),
        InstallError::SourceMissing { path } => {
            let mut message = "source dir missing or has no manifest.toml: ".to_owned();
            message.append(path.as_str());
            RpcError { code: RpcCode::NotFound, message }
        },
        InstallError::AlreadyInstalled { plugin_id } => {
            let mut message = "plugin ".to_owned();
            message.append(plugin_id.as_str());
            message.append(" is already installed");
            RpcError { code: RpcCode::AlreadyExists, message }
        },
        InstallError::BadManifest { path, reason } => {
            let mut message = "manifest at ".to_owned();
            message.append(path.as_str());
            message.append(": ");
            message.append(reason.as_str());
            RpcError { code: RpcCode::InvalidArgument, message }
        },
        InstallError::Io(_) => rpc_error(RpcCode::Internal, "install io error"),
        InstallError::Persistence(_) => rpc_error(RpcCode::Internal, "install persistence error"),
    }
}

/// The error for a failed removal.
pub open spec fn uninstall_rpc_error(err: UninstallError) -> (RpcCode, Seq<char>) {
    match err {
        UninstallError::NoPluginsRoot => (
            RpcCode::Unavailable,
            "plugin uninstall requires a state-dir-backed engine"@,
        ),
        UninstallError::NotInstalled { plugin_id } => (
            RpcCode::NotFound,
            "plugin "@ + plugin_id@ + " is not installed"@,
        ),
        UninstallError::Io(_) => (RpcCode::Internal, "uninstall io error"@),
        UninstallError::Persistence(_) => (RpcCode::Internal, "uninstall persistence error"@),
    }
}

/// The error for a failed removal.
pub fn uninstall_error_to_connect(err: UninstallError) -> (r: RpcError)
    ensures
        is_rpc_error(r, uninstall_rpc_error(err).0, uninstall_rpc_error(err).1),
{
    match err {
        UninstallError::NoPluginsRoot => rpc_error(
            RpcCode::Unavailable,
            "plugin uninstall requires a state-dir-backed engine",
        ),
        UninstallError::NotInstalled { plugin_id } => {
            let mut message = "plugin ".to_owned();
            message.append(plugin_id.as_str());
            message.append(" is not installed");
            RpcError { code: RpcCode::NotFound, message }
        },
        UninstallError::Io(_) => rpc_error(RpcCode::Internal, "uninstall io error"),
        UninstallError::Persistence(_) => rpc_error(
            RpcCode::Internal,
            "uninstall persistence error",
        ),
    }
}

/// Whether a decision on a start is the one for an id and a plugin.
pub open spec fn is_rpc_start(
    r: Result<(), RpcError>,
    installed: bool,
    instance_id: Seq<char>,
    id_is_safe: bool,
) -> bool {
    if !installed {
        r matches Err(e) && is_rpc_error(e, RpcCode::NotFound, "plugin not installed"@)
    } else if !id_is_safe {
        r matches Err(e) && is_rpc_error(e, RpcCode::InvalidArgument, unsafe_id_text(instance_id))
    } else {
        r is Ok
    }
}

/// Whether an instance of a plugin may be started. `id_is_safe` says whether its id can be part
/// of a path.
pub fn check_start_connect(installed: bool, instance_id: &str, id_is_safe: bool) -> (r: Result<
    (),
    RpcError,
>)
    ensures
        is_rpc_start(r, installed, instance_id@, id_is_safe),
{
    if !installed {
        return Err(rpc_error(RpcCode::NotFound, "plugin not installed"));
    }
    if !id_is_safe {
        return Err(
            RpcError { code: RpcCode::InvalidArgument, message: unsafe_id_message(instance_id) },
        );
    }
    Ok(())
}

/// Whether overrides are those that a text writes, if there is one.
pub open spec fn are_overrides(
    r: Result<Option<toml::Value>, RpcError>,
    json: Option<Seq<char>>,
) -> bool {
    match json {
        None => r == Ok::<Option<toml::Value>, RpcError>(None),
        Some(text) => if text.len() == 0 {
            r == Ok::<Option<toml::Value>, RpcError>(None)
        } else {
            overrides_read(json_as_toml(text), r)
        },
    }
}

/// The overrides of a start request: none where the text is missing or empty, and an error where
/// it is not what it has to be.
pub fn start_overrides(json: Option<&str>) -> (r: Result<Option<toml::Value>, RpcError>)
    ensures
        are_overrides(r, opt_str(json)),
{
    match json {
        None => Ok(None),
        Some(text) => {
            if text.unicode_len() == 0 {
                Ok(None)
            } else {
                overrides_from(toml_from_json(text))
            }
        },
    }
}

/// Whether a result is what overrides that were read come to.
pub open spec fn overrides_read(
    read: Result<toml::Value, Seq<char>>,
    r: Result<Option<toml::Value>, RpcError>,
) -> bool {
    match read {
        Ok(value) => r == Ok::<Option<toml::Value>, RpcError>(Some(value)),
        Err(words) => r matches Err(e) && is_rpc_error(
            e,
            RpcCode::InvalidArgument,
            "config_overrides_json: "@ + words,
        ),
    }
}

/// What overrides that were read come to.
pub fn overrides_from(read: Result<toml::Value, String>) -> (r: Result<
    Option<toml::Value>,
    RpcError,
>)
    ensures
        overrides_read(
            match read {
                Ok(value) => Ok::<toml::Value, Seq<char>>(value),
                Err(words) => Err(words@),
            },
            r,
        ),
{
    match read {
        Ok(value) => Ok(Some(value)),
        Err(words) => {
            let mut message = "config_overrides_json: ".to_owned();
            message.append(words.as_str());
            Err(RpcError { code: RpcCode::InvalidArgument, message })
        },
    }
}

/// A list of texts as it is shown for debugging: in brackets, each in quotes.
pub open spec fn debug_list(list: Seq<Seq<char>>) -> Seq<char> {
    "["@ + debug_items(list) + "]"@
}

/// The elements of a list as they are shown for debugging.
pub open spec fn debug_items(list: Seq<Seq<char>>) -> Seq<char>
    decreases list.len(),
{
    if list.len() == 0 {
        Seq::empty()
    } else if list.len() == 1 {
        debug_text(list[0])
    } else {
        debug_items(list.drop_last()) + ", "@ + debug_text(list.last())
    }
}

/// Shows a list of texts for debugging.
fn show_list(list: &Vec<String>) -> (r: String)
    ensures
        r@ == debug_list(texts(list@)),
{
    let ghost all = texts(list@);
    let mut out = "[".to_owned();
    let mut i: usize = 0;
    assert(all.take(0) =~= Seq::<Seq<char>>::empty());
    assert("["@ + Seq::<char>::empty() =~= "["@);
    while i < list.len()
        invariant
            0 <= i <= list.len(),
            all == texts(list@),
            out@ == "["@ + debug_items(all.take(i as int)),
        decreases list.len() - i,
    {
        let ghost before = out@;
        if i > 0 {
            out.append(", ");
        }
        out.append(quoted(list[i].as_str()).as_str());
        proof {
            let next = all.take(i + 1);
            assert(next.drop_last() =~= all.take(i as int));
            assert(next.last() == all[i as int]);
            if i == 0 {
                assert(before =~= "["@);
                assert(out@ =~= "["@ + debug_items(next));
            } else {
                assert(out@ =~= "["@ + debug_items(next));
            }
        }
        i += 1;
    }
    assert(all.take(i as int) =~= all);
    out.append("]");
    out
}

/// The error for a removal that instances of the plugin prevent.
pub fn instances_running_error(running: &Vec<String>) -> (r: RpcError)
    ensures
        is_rpc_error(
            r,
            RpcCode::FailedPrecondition,
            "plugin instances still running: "@ + debug_list(texts(running@)),
        ),
{
    let mut message = "plugin instances still running: ".to_owned();
    message.append(show_list(running).as_str());
    RpcError { code: RpcCode::FailedPrecondition, message }
}

/// Whether a decision on a removal is the one for a plugin, given the running instances.
pub open spec fn is_rpc_removal(
    r: Result<(), RpcError>,
    instances: Seq<RunningInstance>,
    plugin_id: Seq<char>,
) -> bool {
    match r {
        Ok(()) => !plugin_runs(instances, plugin_id),
        Err(e) => plugin_runs(instances, plugin_id) && is_rpc_error(
            e,
            RpcCode::FailedPrecondition,
            "plugin instances still running: "@ + debug_list(
                selected_instances(instances, plugin_id, None),
            ),
        ),
    }
}

/// Whether a plugin may be uninstalled: none of its instances runs.
pub fn check_uninstall_connect(instances: &Vec<RunningInstance>, plugin_id: &str) -> (r: Result<
    (),
    RpcError,
>)
    ensures
        is_rpc_removal(r, instances@, plugin_id@),
{
    let running = instances_of(instances, plugin_id, None);
    proof {
        law_listed_instances_run(instances@, plugin_id@);
        assert(texts(running@).len() == running@.len());
    }
    if running.len() > 0 {
        Err(instances_running_error(&running))
    } else {
        Ok(())
    }
}

// ---------------------------------------------------------------------
// Logs
// ---------------------------------------------------------------------

/// A log level as a caller sends it.
#[derive(Debug, Clone, Copy, PartialEq, Eq, Structural)]
pub enum ProtoLogLevel {
    Unspecified,
    Trace,
    Debug,
    Info,
    Warn,
    Error,
    /// A number that stands for no level.
    Unknown(i32),
}

/// The level that a caller's level stands for. None stands for no filter.
pub open spec fn host_level(level: ProtoLogLevel) -> Option<LogLevel> {
    match level {
        ProtoLogLevel::Trace => Some(LogLevel::Trace),
        ProtoLogLevel::Debug => Some(LogLevel::Debug),
        ProtoLogLevel::Info => Some(LogLevel::Info),
        ProtoLogLevel::Warn => Some(LogLevel::Warn),
        ProtoLogLevel::Error => Some(LogLevel::Error),
        ProtoLogLevel::Unspecified => None,
        ProtoLogLevel::Unknown(_) => None,
    }
}

/// The level that a caller's level stands for.
pub fn proto_log_level_to_host(level: ProtoLogLevel) -> (r: Option<LogLevel>)
    ensures
        r == host_level(level),
{
    match level {
        ProtoLogLevel::Trace => Some(LogLevel::Trace),
        ProtoLogLevel::Debug => Some(LogLevel::Debug),
        ProtoLogLevel::Info => Some(LogLevel::Info),
        ProtoLogLevel::Warn => Some(LogLevel::Warn),
        ProtoLogLevel::Error => Some(LogLevel::Error),
        ProtoLogLevel::Unspecified => None,
        ProtoLogLevel::Unknown(_) => None,
    }
}

/// A level as it goes out.
pub fn host_log_level_to_proto(level: LogLevel) -> (r: ProtoLogLevel)
    ensures
        host_level(r) == Some(level),
{
    match level {
        LogLevel::Trace => ProtoLogLevel::Trace,
        LogLevel::Debug => ProtoLogLevel::Debug,
        LogLevel::Info => ProtoLogLevel::Info,
        LogLevel::Warn => ProtoLogLevel::Warn,
        LogLevel::Error => ProtoLogLevel::Error,
    }
}

/// The least level that a caller asks for. A number that stands for no level is an error: taking
/// it for no filter would widen the query unseen.
pub fn min_level_filter(level: Option<ProtoLogLevel>) -> (r: Result<Option<LogLevel>, RpcError>)
    ensures
        match level {
            Some(ProtoLogLevel::Unknown(v)) => r matches Err(e) && is_rpc_error(
                e,
                RpcCode::InvalidArgument,
                "min_level: unknown log-level value "@ + decimal_signed(v as int),
            ),
            Some(l) => r == Ok::<Option<LogLevel>, RpcError>(host_level(l)),
            None => r == Ok::<Option<LogLevel>, RpcError>(None),
        },
{
    match level {
        Some(ProtoLogLevel::Unknown(v)) => {
            let mut message = "min_level: unknown log-level value ".to_owned();
            message.append(i64_to_decimal(v as i64).as_str());
            Err(RpcError { code: RpcCode::InvalidArgument, message })
        },
        Some(l) => Ok(proto_log_level_to_host(l)),
        None => Ok(None),
    }
}

/// Whether a plan asks for what the caller asks for, at the level and in the number asked for.
pub open spec fn is_rpc_log_plan(
    r: Result<(LogQuery, usize), RpcError>,
    query: LogQuery,
    min_level: Option<ProtoLogLevel>,
    limit: Option<u32>,
) -> bool {
    match min_level {
        Some(ProtoLogLevel::Unknown(v)) => r matches Err(e) && is_rpc_error(
            e,
            RpcCode::InvalidArgument,
            "min_level: unknown log-level value "@ + decimal_signed(v as int),
        ),
        Some(l) => r matches Ok(plan) && plan.0 == (LogQuery {
            min_level: host_level(l),
            ..query
        }) && plan.1 == log_limit_of(limit),
        None => r matches Ok(plan) && plan.0 == (LogQuery { min_level: None, ..query }) && plan.1
            == log_limit_of(limit),
    }
}

/// What a caller asks of the logs. The level of the query is that of the request.
pub fn plan_query_logs(query: LogQuery, min_level: Option<ProtoLogLevel>, limit: Option<u32>) -> (r:
    Result<(LogQuery, usize), RpcError>)
    ensures
        is_rpc_log_plan(r, query, min_level, limit),
{
    let level = match min_level_filter(min_level) {
        Ok(level) => level,
        Err(e) => return Err(e),
    };
    let plan = LogQuery {
        since_ms: query.since_ms,
        until_ms: query.until_ms,
        min_level: level,
        instance_id: query.instance_id,
        plugin_id: query.plugin_id,
        device_id: query.device_id,
        target: query.target,
        target_prefix: query.target_prefix,
        span_path_prefix: query.span_path_prefix,
    };
    Ok((plan, log_limit(limit)))
}

/// A log entry as it goes out.
#[derive(Debug)]
pub struct ProtoLogEvent {
    pub id: u64,
    pub ts_unix_ms: i64,
    pub level: ProtoLogLevel,
    pub instance_id: Option<String>,
    pub plugin_id: Option<String>,
    pub device_id: Option<String>,
    pub target: String,
    pub span_path: Option<String>,
    pub message: String,
    pub fields: Vec<(String, LogValue)>,
}

/// Whether a log entry that goes out is a stored one.
pub open spec fn is_proto_log(out: ProtoLogEvent, row: HistoricalLogEvent) -> bool {
    &&& host_level(out.level) == Some(row.level)
    &&& out.id == row.id
    &&& out.ts_unix_ms == row.ts_unix_ms
    &&& out.instance_id == row.instance_id
    &&& out.plugin_id == row.plugin_id
    &&& out.device_id == row.device_id
    &&& out.target == row.target
    &&& out.span_path == row.span_path
    &&& out.message == row.message
    &&& out.fields == row.fields
}

/// A log entry as it goes out.
pub fn historical_to_proto(row: HistoricalLogEvent) -> (r: ProtoLogEvent)
    ensures
        is_proto_log(r, row),
        host_level(r.level) == Some(row.level),
        r == (ProtoLogEvent {
            id: row.id,
            ts_unix_ms: row.ts_unix_ms,
            level: r.level,
            instance_id: row.instance_id,
            plugin_id: row.plugin_id,
            device_id: row.device_id,
            target: row.target,
            span_path: row.span_path,
            message: row.message,
            fields: row.fields,
        }),
{
    ProtoLogEvent {
        id: row.id,
        ts_unix_ms: row.ts_unix_ms,
        level: host_log_level_to_proto(row.level),
        instance_id: row.instance_id,
        plugin_id: row.plugin_id,
        device_id: row.device_id,
        target: row.target,
        span_path: row.span_path,
        message: row.message,
        fields: row.fields,
    }
}

// ---------------------------------------------------------------------
// Events
// ---------------------------------------------------------------------

/// What happened at a button.
#[derive(Debug, Clone, Copy, PartialEq, Eq, Structural)]
pub enum ProtoButtonKind {
    Pressed,
    Released,
    SinglePress,
    DoublePress,
    LongPress,
    Rotated,
}

/// The payload of an event as it goes out. The angle of a rotation is held by its bit pattern and
/// is zero for everything else.
#[derive(Debug)]
pub enum ProtoEventPayload {
    StateChanged { capability: String, fields: Vec<WireKeyValue> },
    Button { kind: ProtoButtonKind, delta: u64 },
    Inference { model: String, payload: String, frame_timestamp_ms: Option<u64> },
    Custom { topic: String, payload: String },
}

/// An event as it goes out.
#[derive(Debug)]
pub struct ProtoEvent {
    pub device_id: Option<String>,
    pub timestamp_ms: u64,
    pub origin_plugin_id: String,
    pub origin_instance_id: String,
    pub payload: ProtoEventPayload,
}

/// The kind of what happened at a button.
pub open spec fn button_kind(button: ButtonEvent) -> ProtoButtonKind {
    match button {
        ButtonEvent::Pressed => ProtoButtonKind::Pressed,
        ButtonEvent::Released => ProtoButtonKind::Released,
        ButtonEvent::SinglePress => ProtoButtonKind::SinglePress,
        ButtonEvent::DoublePress => ProtoButtonKind::DoublePress,
        ButtonEvent::LongPress => ProtoButtonKind::LongPress,
        ButtonEvent::Rotated(_) => ProtoButtonKind::Rotated,
    }
}

/// Whether an outgoing payload says what the payload of an event says.
pub open spec fn is_proto_payload(out: ProtoEventPayload, payload: EventPayload) -> bool {
    match payload {
        EventPayload::StateChanged(change) => out matches ProtoEventPayload::StateChanged {
            capability,
            fields,
        } && capability == change.capability && wire_key_values(fields@) == key_values(
            change.fields@,
        ),
        EventPayload::Button(button) => out == (ProtoEventPayload::Button {
            kind: button_kind(button),
            delta: match button_delta(button) {
                Some(d) => d,
                None => 0,
            },
        }),
        EventPayload::Inference(found) => out == (ProtoEventPayload::Inference {
            model: found.model,
            payload: found.payload,
            frame_timestamp_ms: found.frame_timestamp,
        }),
        EventPayload::Custom(custom) => out == (ProtoEventPayload::Custom {
            topic: custom.topic,
            payload: custom.payload,
        }),
    }
}

/// Whether an outgoing event says what an event of the bus says.
pub open spec fn is_proto_event(out: ProtoEvent, event: Event) -> bool {
    &&& out.device_id == event.device
    &&& out.timestamp_ms == event.timestamp
    &&& out.origin_plugin_id == event.origin_plugin_id
    &&& out.origin_instance_id == event.origin_instance_id
    &&& is_proto_payload(out.payload, event.payload)
}

/// An event of the bus as it goes out.
pub fn wit_event_to_proto(event: Event) -> (r: ProtoEvent)
    ensures
        is_proto_event(r, event),
{
    let payload = match event.payload {
        EventPayload::StateChanged(change) => ProtoEventPayload::StateChanged {
            fields: wire_fields(&change.fields),
            capability: change.capability,
        },
        EventPayload::Button(button) => {
            let (kind, delta): (ProtoButtonKind, u64) = match button {
                ButtonEvent::Pressed => (ProtoButtonKind::Pressed, 0),
                ButtonEvent::Released => (ProtoButtonKind::Released, 0),
                ButtonEvent::SinglePress => (ProtoButtonKind::SinglePress, 0),
                ButtonEvent::DoublePress => (ProtoButtonKind::DoublePress, 0),
                ButtonEvent::LongPress => (ProtoButtonKind::LongPress, 0),
                ButtonEvent::Rotated(d) => (ProtoButtonKind::Rotated, d),
            };
            ProtoEventPayload::Button { kind, delta }
        },
        EventPayload::Inference(found) => ProtoEventPayload::Inference {
            model: found.model,
            payload: found.payload,
            frame_timestamp_ms: found.frame_timestamp,
        },
        EventPayload::Custom(custom) => ProtoEventPayload::Custom {
            topic: custom.topic,
            payload: custom.payload,
        },
    };
    ProtoEvent {
        device_id: event.device,
        timestamp_ms: event.timestamp,
        origin_plugin_id: event.origin_plugin_id,
        origin_instance_id: event.origin_instance_id,
        payload,
    }
}

/// A frame of the event stream.
#[derive(Debug)]
pub enum TailFrame {
    Event(ProtoEvent),
    /// So many events before the next one were skipped.
    Lagged(u64),
}

/// What the stream does next, given the event that it holds back, if it holds one.
#[derive(Debug)]
pub enum TailStep {
    /// Send this frame, and hold nothing back.
    Send(TailFrame),
    /// Wait for the next message.
    Receive,
}

/// Whether a step is the one before waiting, with an event held back or none.
pub open spec fn is_tail_next(r: TailStep, held: Option<Event>) -> bool {
    match held {
        Some(event) => r matches TailStep::Send(TailFrame::Event(out)) && is_proto_event(
            out,
            event,
        ),
        None => r is Receive,
    }
}

/// What the stream does before it waits: an event that was held back goes out first.
pub fn tail_next(held: Option<Event>) -> (r: TailStep)
    ensures
        is_tail_next(r, held),
{
    match held {
        Some(event) => TailStep::Send(TailFrame::Event(wit_event_to_proto(event))),
        None => TailStep::Receive,
    }
}

/// Whether this is what is sent, and held back, for a message.
pub open spec fn is_tail_received(
    r: Option<(TailFrame, Option<Event>)>,
    message: Option<(Event, u64)>,
) -> bool {
    match message {
        None => r is None,
        Some((event, skipped)) => if skipped == 0 {
            r matches Some((TailFrame::Event(out), None)) && is_proto_event(out, event)
        } else {
            r == Some((TailFrame::Lagged(skipped), Some(event)))
        },
    }
}

/// What the stream does with a message: an event, and how many were skipped before it. Where some
/// were, that goes out first and the event is held back. No message ends the stream.
pub fn tail_received(message: Option<(Event, u64)>) -> (r: Option<(TailFrame, Option<Event>)>)
    ensures
        is_tail_received(r, message),
{
    match message {
        None => None,
        Some((event, skipped)) => {
            if skipped == 0 {
                Some((TailFrame::Event(wit_event_to_proto(event)), None))
            } else {
                Some((TailFrame::Lagged(skipped), Some(event)))
            }
        },
    }
}

} // verus!
