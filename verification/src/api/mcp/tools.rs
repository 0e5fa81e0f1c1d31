//! Tools: what a call comes to, and how it goes.
//!
//! A call goes through [`step`] from [`begin`] to its answer. A call that reaches a tool is on
//! the audit ledger as pending before the tool runs, and the answer names the row, also where
//! the tool failed.

use vstd::prelude::*;

use crate::api::auth::decision_of;
use crate::api::mcp::catalogue::{route_tool, tool_name, tool_of, tool_scope, ToolKind};
use crate::api::mcp::contents::EncodedBody;
use crate::api::mcp::error::{
    is_error, mcp_error, McpError, INTERNAL_ERROR_CODE, INVALID_PARAMS_CODE, METHOD_NOT_FOUND_CODE,
    RESOURCE_BUSY_CODE, RESOURCE_TOO_LARGE_CODE, SCOPE_DENIED_CODE,
};
use crate::api::mcp::resources::{audit_queue_full, LedgerWrite, MCP_ACTOR_KIND};
use crate::api::scopes::{require_scope, scope_satisfied, Scope};
use crate::auth::Actor;
use crate::json_value::{
    insert_member, json_members, json_object, json_text, member_of, object1, object2,
    with_member, Json, JsonModel,
};
use crate::state::{AuditEntry, AuditModel};
use crate::text::{cat2, cat3, opt_str, opt_text, opt_to_owned};

verus! {

// ---------------------------------------------------------------------
// Outcomes
// ---------------------------------------------------------------------

/// The value that a tool gives.
#[derive(Debug)]
pub enum ToolValue {
    Tree(Json),
    /// A value that is JSON text already.
    Text(String),
}

/// How a call ended.
#[derive(Debug)]
pub enum ToolOutcome {
    /// The tool gave a value. `plugin_reached` says whether a plugin took part.
    Success { value: ToolValue, plugin_reached: bool },
    /// The tool ran and reports a failure. `domain_kind` names the error of a plugin, if one
    /// reported it.
    ExecErr { message: String, structured: Option<Json>, domain_kind: Option<&'static str> },
    InvalidParams(String),
    TooLarge(String),
    Busy(String),
    UnknownTool(String),
    Denied { required: &'static str },
    Internal(String),
}

/// The HTTP status that goes with an outcome on the ledger. A tool that ran and failed was still
/// allowed to run.
pub open spec fn tool_status(outcome: ToolOutcome) -> u16 {
    match outcome {
        ToolOutcome::Success { .. } => 200,
        ToolOutcome::ExecErr { .. } => 200,
        ToolOutcome::UnknownTool(_) => 404,
        ToolOutcome::InvalidParams(_) => 400,
        ToolOutcome::TooLarge(_) => 413,
        ToolOutcome::Busy(_) => 503,
        ToolOutcome::Denied { .. } => 403,
        ToolOutcome::Internal(_) => 500,
    }
}

/// The scope that an outcome names on the ledger.
pub open spec fn tool_missing_scope(outcome: ToolOutcome) -> Option<Seq<char>> {
    match outcome {
        ToolOutcome::Denied { required } => Some(required@),
        _ => None,
    }
}

/// What the ledger says of the plugin's part: success, failure, or that no plugin was reached.
pub open spec fn tool_execution(outcome: ToolOutcome) -> Option<Seq<char>> {
    match outcome {
        ToolOutcome::Success { plugin_reached, .. } => if plugin_reached {
            Some("success"@)
        } else {
            None
        },
        ToolOutcome::ExecErr { domain_kind, .. } => if domain_kind is Some {
            Some("failed"@)
        } else {
            None
        },
        _ => None,
    }
}

/// The kind of plugin error that an outcome names on the ledger.
pub open spec fn tool_domain_error(outcome: ToolOutcome) -> Option<Seq<char>> {
    match outcome {
        ToolOutcome::ExecErr { domain_kind, .. } => opt_str(domain_kind),
        _ => None,
    }
}

/// What the caller of a tool gets.
#[derive(Debug)]
pub enum ToolContent {
    Structured(ToolValue),
    StructuredError(Json),
    ErrorText(String),
}

/// What the caller of a tool gets, with the notes that go with it.
#[derive(Debug)]
pub struct CallResult {
    pub content: ToolContent,
    /// The members of the notes.
    pub meta: Option<Vec<(String, Json)>>,
}

/// Whether a result is what a caller gets for an outcome, without notes. It never names the scope
/// that a caller lacks.
pub open spec fn is_call_result(r: Result<CallResult, McpError>, outcome: ToolOutcome) -> bool {
    match outcome {
        ToolOutcome::Success { value, .. } => r is Ok && r->Ok_0.meta is None && r->Ok_0.content
            == ToolContent::Structured(value),
        ToolOutcome::ExecErr { message, structured, .. } => r is Ok && r->Ok_0.meta is None
            && r->Ok_0.content == (match structured {
            Some(v) => ToolContent::StructuredError(v),
            None => ToolContent::ErrorText(message),
        }),
        ToolOutcome::InvalidParams(reason) => r is Err && is_error(
            r->Err_0,
            INVALID_PARAMS_CODE,
            reason@,
        ),
        ToolOutcome::TooLarge(reason) => r is Err && is_error(
            r->Err_0,
            RESOURCE_TOO_LARGE_CODE,
            reason@,
        ),
        ToolOutcome::Busy(reason) => r is Err && is_error(r->Err_0, RESOURCE_BUSY_CODE, reason@),
        ToolOutcome::UnknownTool(reason) => r is Err && is_error(
            r->Err_0,
            METHOD_NOT_FOUND_CODE,
            reason@,
        ),
        ToolOutcome::Denied { .. } => r is Err && is_error(
            r->Err_0,
            SCOPE_DENIED_CODE,
            "scope denied for MCP tool"@,
        ),
        ToolOutcome::Internal(reason) => r is Err && is_error(
            r->Err_0,
            INTERNAL_ERROR_CODE,
            reason@,
        ),
    }
}

impl ToolOutcome {
    /// What the caller gets.
    pub fn into_result(self) -> (r: Result<CallResult, McpError>)
        ensures
            is_call_result(r, self),
    {
        match self {
            ToolOutcome::Success { value, plugin_reached: _ } => Ok(
                CallResult { content: ToolContent::Structured(value), meta: None },
            ),
            ToolOutcome::ExecErr { message, structured, domain_kind: _ } => Ok(
                CallResult {
                    content: match structured {
                        Some(v) => ToolContent::StructuredError(v),
                        None => ToolContent::ErrorText(message),
                    },
                    meta: None,
                },
            ),
            ToolOutcome::InvalidParams(reason) => Err(mcp_error(INVALID_PARAMS_CODE, reason)),
            ToolOutcome::TooLarge(reason) => Err(mcp_error(RESOURCE_TOO_LARGE_CODE, reason)),
            ToolOutcome::Busy(reason) => Err(mcp_error(RESOURCE_BUSY_CODE, reason)),
            ToolOutcome::UnknownTool(reason) => Err(mcp_error(METHOD_NOT_FOUND_CODE, reason)),
            ToolOutcome::Denied { required: _ } => Err(
                mcp_error(SCOPE_DENIED_CODE, "scope denied for MCP tool".to_owned()),
            ),
            ToolOutcome::Internal(reason) => Err(mcp_error(INTERNAL_ERROR_CODE, reason)),
        }
    }

    /// The HTTP status that goes with the outcome on the ledger.
    pub fn status(&self) -> (r: u16)
        ensures
            r == tool_status(*self),
    {
        match self {
            ToolOutcome::Success { .. } => 200,
            ToolOutcome::ExecErr { .. } => 200,
            ToolOutcome::UnknownTool(_) => 404,
            ToolOutcome::InvalidParams(_) => 400,
            ToolOutcome::TooLarge(_) => 413,
            ToolOutcome::Busy(_) => 503,
            ToolOutcome::Denied { .. } => 403,
            ToolOutcome::Internal(_) => 500,
        }
    }

    /// What the ledger says of the outcome: the same that it says of any answer with this status.
    pub fn decision(&self) -> (r: &'static str)
        ensures
            r@ == decision_of(tool_status(*self)),
    {
        match self {
            ToolOutcome::Success { .. } => "allow",
            ToolOutcome::ExecErr { .. } => "allow",
            ToolOutcome::UnknownTool(_) => "deny",
            ToolOutcome::Denied { .. } => "deny",
            ToolOutcome::InvalidParams(_) => "deny",
            ToolOutcome::TooLarge(_) => "deny",
            ToolOutcome::Internal(_) => "error",
            ToolOutcome::Busy(_) => "error",
        }
    }

    /// The scope that the outcome names on the ledger.
    pub fn required_scope(&self) -> (r: Option<&'static str>)
        ensures
            opt_str(r) == tool_missing_scope(*self),
    {
        match self {
            ToolOutcome::Denied { required } => Some(*required),
            _ => None,
        }
    }
}

/// The outcome of a tool whose body was written, or was not. No plugin took part.
pub open spec fn body_outcome(body: EncodedBody) -> ToolOutcome {
    match body {
        EncodedBody::Json(text) => ToolOutcome::Success {
            value: ToolValue::Text(text),
            plugin_reached: false,
        },
        EncodedBody::TooLarge(reason) => ToolOutcome::TooLarge(reason),
        EncodedBody::SerializeFailed(reason) => ToolOutcome::Internal(reason),
    }
}

/// The outcome of a tool whose body was written, or was not. No plugin took part.
pub fn encoded_outcome(body: EncodedBody) -> (r: ToolOutcome)
    ensures
        r == body_outcome(body),
{
    match body {
        EncodedBody::Json(text) => ToolOutcome::Success {
            value: ToolValue::Text(text),
            plugin_reached: false,
        },
        EncodedBody::TooLarge(reason) => ToolOutcome::TooLarge(reason),
        EncodedBody::SerializeFailed(reason) => ToolOutcome::Internal(reason),
    }
}

// ---------------------------------------------------------------------
// Ledger rows
// ---------------------------------------------------------------------

/// A row of a call.
pub open spec fn tool_row(
    token_id: Seq<char>,
    family: Seq<char>,
    status: u16,
    decision: Seq<char>,
    required_scope: Option<Seq<char>>,
) -> AuditModel {
    AuditModel {
        id: 0,
        intent_ms: 0,
        finalized_ms: None,
        token_id,
        actor_kind: MCP_ACTOR_KIND@,
        method: "MCP"@,
        path: "mcp.tool."@ + family,
        status,
        decision,
        required_scope,
        execution_outcome: None,
        domain_error: None,
        credential_fp: None,
    }
}

/// The row of a call that is about to run.
pub fn new_pending_audit_entry(token_id: &str, family: &str) -> (r: AuditEntry)
    ensures
        r@ == tool_row(token_id@, family@, 0, "pending"@, None),
{
    AuditEntry {
        id: 0,
        intent_ms: 0,
        finalized_ms: None,
        token_id: token_id.to_owned(),
        actor_kind: MCP_ACTOR_KIND.to_owned(),
        method: "MCP".to_owned(),
        path: cat2("mcp.tool.", family),
        status: 0,
        decision: "pending".to_owned(),
        required_scope: None,
        execution_outcome: None,
        domain_error: None,
        credential_fp: None,
    }
}

/// The row of a call that ends before it reaches a tool.
pub fn new_completed_audit_entry(token_id: &str, family: &str, outcome: &ToolOutcome) -> (r:
    AuditEntry)
    ensures
        r@ == completed_row(token_id@, family@, *outcome),
{
    AuditEntry {
        id: 0,
        intent_ms: 0,
        finalized_ms: None,
        token_id: token_id.to_owned(),
        actor_kind: MCP_ACTOR_KIND.to_owned(),
        method: "MCP".to_owned(),
        path: cat2("mcp.tool.", family),
        status: outcome.status(),
        decision: outcome.decision().to_owned(),
        required_scope: opt_to_owned(outcome.required_scope()),
        execution_outcome: None,
        domain_error: None,
        credential_fp: None,
    }
}

/// The row of a call that ends before it reaches a tool.
pub open spec fn completed_row(
    token_id: Seq<char>,
    family: Seq<char>,
    outcome: ToolOutcome,
) -> AuditModel {
    tool_row(
        token_id,
        family,
        tool_status(outcome),
        decision_of(tool_status(outcome)),
        tool_missing_scope(outcome),
    )
}

/// What completes the row of a call.
#[derive(Debug)]
pub struct FinalizeInput {
    pub status: u16,
    pub decision: String,
    pub required_scope: Option<String>,
    pub execution_outcome: Option<String>,
    pub domain_error: Option<String>,
}

/// Whether this completes the row of a call that ended so.
pub open spec fn is_finalize(input: FinalizeInput, outcome: ToolOutcome) -> bool {
    &&& input.status == tool_status(outcome)
    &&& input.decision@ == decision_of(tool_status(outcome))
    &&& opt_text(input.required_scope) == tool_missing_scope(outcome)
    &&& opt_text(input.execution_outcome) == tool_execution(outcome)
    &&& opt_text(input.domain_error) == tool_domain_error(outcome)
}

impl FinalizeInput {
    /// What completes the row of a call that ended so.
    pub fn from_outcome(outcome: &ToolOutcome) -> (r: Self)
        ensures
            is_finalize(r, *outcome),
    {
        let (execution_outcome, domain_error) = match outcome {
            ToolOutcome::Success { value: _, plugin_reached } => {
                if *plugin_reached {
                    (Some("success".to_owned()), None)
                } else {
                    (None, None)
                }
            },
            ToolOutcome::ExecErr { message: _, structured: _, domain_kind } => {
                match domain_kind {
                    Some(kind) => (Some("failed".to_owned()), Some((*kind).to_owned())),
                    None => (None, None),
                }
            },
            _ => (None, None),
        };
        FinalizeInput {
            status: outcome.status(),
            decision: outcome.decision().to_owned(),
            required_scope: opt_to_owned(outcome.required_scope()),
            execution_outcome,
            domain_error,
        }
    }
}

/// The ledger names a plugin's error exactly where it says that a plugin failed.
pub proof fn law_failures_name_their_error(outcome: ToolOutcome)
    ensures
        tool_domain_error(outcome) is Some <==> tool_execution(outcome) == Some("failed"@),
{
    reveal_strlit("failed");
    reveal_strlit("success");
    assert("failed"@.len() == 6 && "success"@.len() == 7);
}

// ---------------------------------------------------------------------
// Notes
// ---------------------------------------------------------------------

/// The name under which an answer says which row of the ledger it belongs to.
pub const AUDIT_NOTE: &'static str = "oxidhome.audit";

/// Which row of the ledger an answer belongs to.
pub open spec fn audit_note(intent_id: u64, family: Seq<char>) -> JsonModel {
    JsonModel::Object(
        seq![
            ("intent_id"@, JsonModel::Int(intent_id as int)),
            ("path"@, JsonModel::Text("mcp.tool."@ + family)),
        ],
    )
}

/// Which row of the ledger an answer belongs to.
pub fn audit_meta_value(intent_id: u64, family: &str) -> (r: Json)
    ensures
        r@ == audit_note(intent_id, family@),
{
    let path = cat2("mcp.tool.", family);
    object2("intent_id", Json::Int(intent_id as i128), "path", json_text(path.as_str()))
}

/// The members of notes.
pub open spec fn meta_members(meta: Option<Vec<(String, Json)>>) -> Seq<(Seq<char>, JsonModel)> {
    match meta {
        Some(m) => json_members(m@),
        None => Seq::empty(),
    }
}

/// Whether a result is another one with the note of a row beside its content.
pub open spec fn is_noted_result(
    r: CallResult,
    result: CallResult,
    intent_id: u64,
    family: Seq<char>,
) -> bool {
    &&& r.content == result.content
    &&& r.meta is Some
    &&& meta_members(r.meta) == with_member(
        meta_members(result.meta),
        AUDIT_NOTE@,
        audit_note(intent_id, family),
    )
}

/// Adds to a result which row of the ledger it belongs to. Other notes stay.
pub fn attach_audit_meta(result: CallResult, intent_id: u64, family: &str) -> (r: CallResult)
    ensures
        is_noted_result(r, result, intent_id, family@),
{
    let members: Vec<(String, Json)> = match result.meta {
        Some(m) => m,
        None => {
            let none: Vec<(String, Json)> = Vec::new();
            assert(json_members(none@) =~= Seq::<(Seq<char>, JsonModel)>::empty());
            none
        },
    };
    let note = audit_meta_value(intent_id, family);
    CallResult { content: result.content, meta: Some(insert_member(members, AUDIT_NOTE, note)) }
}

/// The data of an error with the row of the ledger added to it: beside the members of an object,
/// and with anything else kept under a name of its own.
pub open spec fn noted_data(data: Option<JsonModel>, note: JsonModel) -> JsonModel {
    match data {
        Some(JsonModel::Object(members)) => JsonModel::Object(
            with_member(members, AUDIT_NOTE@, note),
        ),
        Some(other) => JsonModel::Object(seq![(AUDIT_NOTE@, note), ("previous"@, other)]),
        None => JsonModel::Object(seq![(AUDIT_NOTE@, note)]),
    }
}

/// The view of optional data.
pub open spec fn opt_json(data: Option<Json>) -> Option<JsonModel> {
    match data {
        Some(v) => Some(v@),
        None => None,
    }
}

/// Whether an error is another one with the note of a row in its data.
pub open spec fn is_noted_error(
    r: McpError,
    err: McpError,
    intent_id: u64,
    family: Seq<char>,
) -> bool {
    &&& r.code == err.code
    &&& r.message == err.message
    &&& opt_json(r.data) == Some(noted_data(opt_json(err.data), audit_note(intent_id, family)))
}

/// Adds to an error which row of the ledger it belongs to. What it carried before stays.
pub fn attach_audit_meta_to_error(err: McpError, intent_id: u64, family: &str) -> (r: McpError)
    ensures
        is_noted_error(r, err, intent_id, family@),
{
    let note = audit_meta_value(intent_id, family);
    let ghost before = opt_json(err.data);
    let data = match err.data {
        Some(Json::Object(members)) => {
            assert(before->0->Object_0 =~= json_members(members@));
            json_object(insert_member(members, AUDIT_NOTE, note))
        },
        Some(other) => object2(AUDIT_NOTE, note, "previous", other),
        None => object1(AUDIT_NOTE, note),
    };
    McpError { code: err.code, message: err.message, data: Some(data) }
}

/// Whatever an error carried, it then names its row.
pub proof fn law_noted_errors_name_their_row(data: Option<JsonModel>, note: JsonModel)
    ensures
        member_of(noted_data(data, note), AUDIT_NOTE@) == Some(note),
{
    reveal_strlit("oxidhome.audit");
    reveal_strlit("previous");
    if let Some(JsonModel::Object(members)) = data {
        assert("previous"@.len() != AUDIT_NOTE@.len());
        crate::json_value::law_added_member_is_found(members, AUDIT_NOTE@, note, "previous"@);
    }
}

/// What an object carried under another name stays.
pub proof fn law_noted_errors_keep_their_data(
    members: Seq<(Seq<char>, JsonModel)>,
    note: JsonModel,
    name: Seq<char>,
)
    requires
        name != AUDIT_NOTE@,
    ensures
        member_of(noted_data(Some(JsonModel::Object(members)), note), name) == member_of(
            JsonModel::Object(members),
            name,
        ),
{
    crate::json_value::law_added_member_is_found(members, AUDIT_NOTE@, note, name);
}

// ---------------------------------------------------------------------
// The way of a call
// ---------------------------------------------------------------------

/// Where a call stands.
#[derive(Debug)]
pub enum CallStage {
    /// It has ended already, and its row is being written.
    AwaitRow { outcome: ToolOutcome },
    /// Its pending row is being written.
    AwaitIntent { tool: ToolKind },
    /// Its tool is running.
    AwaitTool { tool: ToolKind, intent_id: u64 },
    /// It is answered.
    Done,
}

/// What happened since the last step.
#[derive(Debug)]
pub enum CallEvent {
    /// The row of a call that had ended was written, or was not.
    RowWrite(LedgerWrite),
    /// The pending row was written under this id.
    IntentWritten(u64),
    /// The pending row was not written.
    IntentFailed,
    /// Writing the pending row broke down.
    IntentBroken,
    /// The tool ended.
    Ended(ToolOutcome),
}

/// What is to be done next.
#[derive(Debug)]
pub enum CallAction {
    /// Write this row, which is complete.
    WriteRow(AuditEntry),
    /// Write this pending row.
    WriteIntent(AuditEntry),
    /// Run the tool.
    RunTool(ToolKind),
    /// Complete the pending row, as far as the ledger can, and give this answer in any case.
    Complete { intent_id: u64, input: FinalizeInput, answer: Result<CallResult, McpError> },
    /// Give this answer.
    Answer(Result<CallResult, McpError>),
}

/// Whether an action answers with this error.
pub open spec fn answers_error(action: CallAction, code: i32, message: Seq<char>) -> bool {
    match action {
        CallAction::Answer(r) => r is Err && is_error(r->Err_0, code, message),
        _ => false,
    }
}

/// Whether a call that ends before it reaches a tool is on its way to the ledger.
pub open spec fn ends_early(
    stage: CallStage,
    action: CallAction,
    token_id: Seq<char>,
    family: Seq<char>,
) -> bool {
    match stage {
        CallStage::AwaitRow { outcome } => match action {
            CallAction::WriteRow(row) => row@ == completed_row(token_id, family, outcome),
            _ => false,
        },
        _ => false,
    }
}

/// Whether this is how a call begins. `ledger_free` says whether the ledger can take a row.
pub open spec fn is_begin(
    r: (CallStage, CallAction),
    name: Seq<char>,
    token_id: Seq<char>,
    held: Seq<Seq<char>>,
    ledger_free: bool,
) -> bool {
    if !ledger_free {
        r.0 is Done && answers_error(
            r.1,
            RESOURCE_BUSY_CODE,
            "MCP audit-write queue saturated; retry shortly"@,
        )
    } else {
        match tool_of(name) {
            None => ends_early(r.0, r.1, token_id, "unknown"@) && (r.0->outcome matches
                ToolOutcome::UnknownTool(reason) && reason@ == "no MCP tool named `"@ + name
                + "`"@),
            Some(tool) => if scope_satisfied(tool_scope(tool), held) {
                r.0 == (CallStage::AwaitIntent { tool }) && (r.1 matches CallAction::WriteIntent(
                    row,
                ) && row@ == tool_row(token_id, tool_name(tool), 0, "pending"@, None))
            } else {
                ends_early(r.0, r.1, token_id, tool_name(tool)) && (r.0->outcome matches
                    ToolOutcome::Denied { required } && required@ == tool_scope(tool))
            },
        }
    }
}

/// Begins a call.
pub fn begin(name: &str, actor: &Actor, ledger_free: bool) -> (r: (CallStage, CallAction))
    ensures
        is_begin(r, name@, actor@.id, actor@.scopes, ledger_free),
{
    if !ledger_free {
        return (CallStage::Done, CallAction::Answer(Err(audit_queue_full())));
    }
    let tool = match route_tool(name) {
        Some(tool) => tool,
        None => {
            let outcome = ToolOutcome::UnknownTool(cat3("no MCP tool named `", name, "`"));
            let row = new_completed_audit_entry(actor.id(), "unknown", &outcome);
            return (CallStage::AwaitRow { outcome }, CallAction::WriteRow(row));
        },
    };
    match require_scope(actor, Scope::new(tool.scope())) {
        Ok(()) => {
            let row = new_pending_audit_entry(actor.id(), tool.name());
            (CallStage::AwaitIntent { tool }, CallAction::WriteIntent(row))
        },
        Err(denied) => {
            let outcome = ToolOutcome::Denied { required: denied.required };
            let row = new_completed_audit_entry(actor.id(), tool.name(), &outcome);
            (CallStage::AwaitRow { outcome }, CallAction::WriteRow(row))
        },
    }
}

/// Whether an answer is what a caller gets for an outcome, with the row that it belongs to.
pub open spec fn is_noted_answer(
    answer: Result<CallResult, McpError>,
    outcome: ToolOutcome,
    intent_id: u64,
    family: Seq<char>,
) -> bool {
    exists|bare: Result<CallResult, McpError>| #[trigger]
        is_call_result(bare, outcome) && match (bare, answer) {
            (Ok(b), Ok(a)) => is_noted_result(a, b, intent_id, family),
            (Err(b), Err(a)) => is_noted_error(a, b, intent_id, family),
            _ => false,
        }
}

/// One step of a call: what follows from where it stands and what happened. An event that does
/// not belong to the stage ends the call with a failure.
pub open spec fn is_call_step(
    before: CallStage,
    event: CallEvent,
    after: CallStage,
    action: CallAction,
) -> bool {
    match (before, event) {
        (CallStage::AwaitRow { outcome }, CallEvent::RowWrite(write)) => {
            &&& after is Done
            &&& match write {
                LedgerWrite::Written => action matches CallAction::Answer(r) && is_call_result(
                    r,
                    outcome,
                ),
                LedgerWrite::Failed => answers_error(
                    action,
                    INTERNAL_ERROR_CODE,
                    "audit-log write failed; MCP tool call refused"@,
                ),
                LedgerWrite::Broken => answers_error(
                    action,
                    INTERNAL_ERROR_CODE,
                    "audit-log write task panicked; MCP tool call refused"@,
                ),
            }
        },
        (CallStage::AwaitIntent { tool }, CallEvent::IntentWritten(id)) => {
            &&& after == (CallStage::AwaitTool { tool, intent_id: id })
            &&& action == CallAction::RunTool(tool)
        },
        (CallStage::AwaitIntent { tool }, CallEvent::IntentFailed) => {
            &&& after is Done
            &&& answers_error(
                action,
                INTERNAL_ERROR_CODE,
                "audit-log intent write failed; MCP tool call refused"@,
            )
        },
        (CallStage::AwaitIntent { tool }, CallEvent::IntentBroken) => {
            &&& after is Done
            &&& answers_error(
                action,
                INTERNAL_ERROR_CODE,
                "audit-log intent task panicked; MCP tool call refused"@,
            )
        },
        (CallStage::AwaitTool { tool, intent_id }, CallEvent::Ended(outcome)) => {
            &&& after is Done
            &&& action matches CallAction::Complete { intent_id: id, input, answer } && id
                == intent_id && is_finalize(input, outcome) && is_noted_answer(
                answer,
                outcome,
                intent_id,
                tool_name(tool),
            )
        },
        (_, _) => {
            &&& after is Done
            &&& answers_error(action, INTERNAL_ERROR_CODE, "MCP tool call out of step"@)
        },
    }
}

/// Answers with an error of the host.
fn refuse(message: &str) -> (r: (CallStage, CallAction))
    ensures
        r.0 is Done,
        answers_error(r.1, INTERNAL_ERROR_CODE, message@),
{
    (
        CallStage::Done,
        CallAction::Answer(Err(mcp_error(INTERNAL_ERROR_CODE, message.to_owned()))),
    )
}

/// Takes a call one step further.
pub fn step(stage: CallStage, event: CallEvent) -> (r: (CallStage, CallAction))
    ensures
        is_call_step(stage, event, r.0, r.1),
{
    match (stage, event) {
        (CallStage::AwaitRow { outcome }, CallEvent::RowWrite(write)) => match write {
            LedgerWrite::Written => (CallStage::Done, CallAction::Answer(outcome.into_result())),
            LedgerWrite::Failed => refuse("audit-log write failed; MCP tool call refused"),
            LedgerWrite::Broken => refuse("audit-log write task panicked; MCP tool call refused"),
        },
        (CallStage::AwaitIntent { tool }, CallEvent::IntentWritten(id)) => (
            CallStage::AwaitTool { tool, intent_id: id },
            CallAction::RunTool(tool),
        ),
        (CallStage::AwaitIntent { tool: _ }, CallEvent::IntentFailed) => refuse(
            "audit-log intent write failed; MCP tool call refused",
        ),
        (CallStage::AwaitIntent { tool: _ }, CallEvent::IntentBroken) => refuse(
            "audit-log intent task panicked; MCP tool call refused",
        ),
        (CallStage::AwaitTool { tool, intent_id }, CallEvent::Ended(outcome)) => {
            let input = FinalizeInput::from_outcome(&outcome);
            let bare = outcome.into_result();
            let ghost plain = bare;
            let answer = match bare {
                Ok(result) => Ok(attach_audit_meta(result, intent_id, tool.name())),
                Err(err) => Err(attach_audit_meta_to_error(err, intent_id, tool.name())),
            };
            proof {
                assert(is_call_result(plain, outcome));
                assert(is_noted_answer(answer, outcome, intent_id, tool_name(tool)));
            }
            (CallStage::Done, CallAction::Complete { intent_id, input, answer })
        },
        (_, _) => refuse("MCP tool call out of step"),
    }
}

// ---------------------------------------------------------------------
// Laws
// ---------------------------------------------------------------------

/// The steps of one call in a row, each from where the one before it ended.
pub open spec fn is_call_run(
    start: (CallStage, CallAction),
    run: Seq<(CallStage, CallEvent, CallStage, CallAction)>,
) -> bool {
    &&& forall|i: int|
        0 <= i < run.len() ==> {
            let s = #[trigger] run[i];
            is_call_step(s.0, s.1, s.2, s.3)
        }
    &&& forall|i: int| 0 < i < run.len() ==> (#[trigger] run[i]).0 == run[i - 1].2
    &&& run.len() > 0 ==> run[0].0 == start.0
}

/// A tool runs only for a caller that holds its scope, and only once the pending row of the call
/// was written.
pub proof fn law_tools_run_on_the_record(
    start: (CallStage, CallAction),
    run: Seq<(CallStage, CallEvent, CallStage, CallAction)>,
    name: Seq<char>,
    token_id: Seq<char>,
    held: Seq<Seq<char>>,
    ledger_free: bool,
    i: int,
)
    requires
        is_begin(start, name, token_id, held, ledger_free),
        is_call_run(start, run),
        0 <= i < run.len(),
        run[i].3 is RunTool,
    ensures
        i == 0,
        start.1 is WriteIntent,
        run[i].1 is IntentWritten,
        tool_of(name) == Some(run[i].3->RunTool_0),
        scope_satisfied(tool_scope(run[i].3->RunTool_0), held),
{
    let s = run[i];
    assert(is_call_step(s.0, s.1, s.2, s.3));
    assert(s.0 is AwaitIntent);
    if i > 0 {
        assert(run[i].0 == run[i - 1].2);
        let p = run[i - 1];
        assert(is_call_step(p.0, p.1, p.2, p.3));
    }
}

/// The row that is completed is the pending row of the call, and only a tool that ran leads there.
pub proof fn law_completion_follows_the_tool(
    start: (CallStage, CallAction),
    run: Seq<(CallStage, CallEvent, CallStage, CallAction)>,
    name: Seq<char>,
    token_id: Seq<char>,
    held: Seq<Seq<char>>,
    ledger_free: bool,
    i: int,
)
    requires
        is_begin(start, name, token_id, held, ledger_free),
        is_call_run(start, run),
        0 <= i < run.len(),
        run[i].3 is Complete,
    ensures
        i > 0,
        run[i - 1].3 is RunTool,
        run[i - 1].1 == CallEvent::IntentWritten(run[i].3->Complete_intent_id),
{
    let s = run[i];
    assert(is_call_step(s.0, s.1, s.2, s.3));
    assert(s.0 is AwaitTool);
    if i > 0 {
        assert(run[i].0 == run[i - 1].2);
        let p = run[i - 1];
        assert(is_call_step(p.0, p.1, p.2, p.3));
    }
}

/// Every call that is let in names a row before anything else happens: a complete one where it
/// ends early, and a pending one where its tool is to run.
pub proof fn law_every_call_leaves_a_row(
    start: (CallStage, CallAction),
    name: Seq<char>,
    token_id: Seq<char>,
    held: Seq<Seq<char>>,
)
    requires
        is_begin(start, name, token_id, held, true),
    ensures
        start.1 is WriteRow || start.1 is WriteIntent,
{
}

} // verus!
