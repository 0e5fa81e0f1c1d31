//! What the stores are asked, and how much of it.

use vstd::prelude::*;

use crate::api::paging::{DEFAULT_ALL_DEVICES_STATE_LIMIT, MAX_ALL_DEVICES_STATE_LIMIT};
use crate::api::queries::{
    are_event_rows, cursor_text, is_audit_plan, is_event_plan, is_event_row, is_log_plan,
    law_cursor_reads_back, log_limit_of, query_reply, row_limit_of, AuditParams, EventsParams,
    QueryError,
};
use crate::api::reply::BodyModel;
use crate::api::server::{
    all_state_reply, command_error_reply, is_changes_body, is_changes_plan, is_command_reply,
    is_host_command, is_page_plan, page_limit_of, AllDevicesStateError, CommandBody, CommandError,
    CommandReply, StateChangesBody, StatePagePlan, DEFAULT_STATE_CHANGES_LIMIT,
    MAX_STATE_CHANGES_LIMIT,
};
use crate::api::wire::{WireCommandResult, WireHistoricalEvent};
use crate::laws::wire::{
    is_stored_state, law_fields_go_out_one_for_one, law_reported_state_goes_out,
    law_state_lists_go_out_in_order, same_error, same_fields, same_value,
};
use crate::state::{
    AuditEntry, AuditQuery, Command, CommandResult, DeviceState, EventQuery, HistoricalEvent,
    HistoricalLogEvent, KeyValue, LogLevel, LogQuery, TopicMatch, WitError,
};
use crate::text::{opt_str, opt_text};

verus! {

// ---------------------------------------------------------------------
// Filters
// ---------------------------------------------------------------------

/// Whether a name is the one that is wanted, if one is.
pub open spec fn is_wanted(wanted: Option<Seq<char>>, found: Option<Seq<char>>) -> bool {
    wanted is Some ==> found == wanted
}

/// Whether a text begins with what is wanted, if something is.
pub open spec fn begins_as_wanted(wanted: Option<Seq<char>>, found: Option<Seq<char>>) -> bool {
    wanted matches Some(prefix) ==> (found matches Some(text) && prefix.is_prefix_of(text))
}

/// Whether a time is within bounds, those that there are.
pub open spec fn is_within(at: i64, since: Option<i64>, until: Option<i64>) -> bool {
    &&& since matches Some(first) ==> first <= at
    &&& until matches Some(last) ==> at <= last
}

/// Whether an id is between two others, those that there are.
pub open spec fn is_between(id: u64, after: Option<u64>, before: Option<u64>) -> bool {
    &&& after matches Some(low) ==> low < id
    &&& before matches Some(high) ==> id < high
}

// ---------------------------------------------------------------------
// Events
// ---------------------------------------------------------------------

/// Whether an event is one that a query asks for.
pub open spec fn event_meets_query(event: HistoricalEvent, query: EventQuery) -> bool {
    &&& is_within(event.received_ms, query.since_ms, query.until_ms)
    &&& is_wanted(opt_text(query.device_id), opt_text(event.device_id))
    &&& is_wanted(opt_text(query.instance_id), Some(event.instance_id@))
    &&& is_wanted(opt_text(query.plugin_id), Some(event.plugin_id@))
    &&& match query.topic {
        Some((topic, TopicMatch::Exact)) => event.topic@ == topic@,
        Some((topic, TopicMatch::Prefix)) => topic@.is_prefix_of(event.topic@),
        None => true,
    }
    &&& is_between(event.id, query.after_id, query.before_id)
}

/// Whether an event is one that a caller asks for. A prefix of the topic counts before a whole
/// topic.
pub open spec fn event_meets_request(event: HistoricalEvent, params: EventsParams) -> bool {
    &&& is_within(event.received_ms, params.since_ms, params.until_ms)
    &&& is_wanted(opt_text(params.device_id), opt_text(event.device_id))
    &&& is_wanted(opt_text(params.instance_id), Some(event.instance_id@))
    &&& is_wanted(opt_text(params.plugin_id), Some(event.plugin_id@))
    &&& if params.topic_prefix is Some {
        begins_as_wanted(opt_text(params.topic_prefix), Some(event.topic@))
    } else {
        is_wanted(opt_text(params.topic), Some(event.topic@))
    }
    &&& is_between(event.id, params.after_id, params.before_id)
}

/// Every filter that a caller sets reaches the store, and none besides: an event meets the planned
/// query exactly when it meets each filter of the request.
pub proof fn law_event_filters_reach_the_store(
    plan: (EventQuery, usize),
    params: EventsParams,
    event: HistoricalEvent,
)
    requires
        is_event_plan(plan, params),
    ensures
        event_meets_query(event, plan.0) <==> event_meets_request(event, params),
{
}

/// Where a caller names a device, a plugin or an instance, no event of another one is asked for.
pub proof fn law_named_events_only(
    plan: (EventQuery, usize),
    params: EventsParams,
    event: HistoricalEvent,
)
    requires
        is_event_plan(plan, params),
        event_meets_query(event, plan.0),
    ensures
        params.device_id matches Some(device) ==> opt_text(event.device_id) == Some(device@),
        params.plugin_id matches Some(plugin) ==> event.plugin_id@ == plugin@,
        params.instance_id matches Some(instance) ==> event.instance_id@ == instance@,
{
    law_event_filters_reach_the_store(plan, params, event);
}

// ---------------------------------------------------------------------
// Logs
// ---------------------------------------------------------------------

/// How grave a level is.
pub open spec fn gravity(level: LogLevel) -> int {
    match level {
        LogLevel::Trace => 0,
        LogLevel::Debug => 1,
        LogLevel::Info => 2,
        LogLevel::Warn => 3,
        LogLevel::Error => 4,
    }
}

/// Whether a log entry is one that a query asks for.
pub open spec fn log_meets_query(entry: HistoricalLogEvent, query: LogQuery) -> bool {
    &&& is_within(entry.ts_unix_ms, query.since_ms, query.until_ms)
    &&& query.min_level matches Some(least) ==> gravity(least) <= gravity(entry.level)
    &&& is_wanted(opt_text(query.instance_id), opt_text(entry.instance_id))
    &&& is_wanted(opt_text(query.plugin_id), opt_text(entry.plugin_id))
    &&& is_wanted(opt_text(query.device_id), opt_text(entry.device_id))
    &&& is_wanted(opt_text(query.target), Some(entry.target@))
    &&& begins_as_wanted(opt_text(query.target_prefix), Some(entry.target@))
    &&& begins_as_wanted(opt_text(query.span_path_prefix), opt_text(entry.span_path))
}

/// Every filter that a caller sets reaches the store, and none besides: a log entry meets the
/// planned query exactly when it meets each filter of the request.
pub proof fn law_log_filters_reach_the_store(
    plan: (LogQuery, usize),
    query: LogQuery,
    limit: Option<u32>,
    entry: HistoricalLogEvent,
)
    requires
        is_log_plan(plan, query, limit),
    ensures
        log_meets_query(entry, plan.0) <==> {
            &&& is_within(entry.ts_unix_ms, query.since_ms, query.until_ms)
            &&& query.min_level matches Some(least) ==> gravity(least) <= gravity(entry.level)
            &&& is_wanted(opt_text(query.instance_id), opt_text(entry.instance_id))
            &&& is_wanted(opt_text(query.plugin_id), opt_text(entry.plugin_id))
            &&& is_wanted(opt_text(query.device_id), opt_text(entry.device_id))
            &&& is_wanted(opt_text(query.target), Some(entry.target@))
            &&& begins_as_wanted(opt_text(query.target_prefix), Some(entry.target@))
            &&& begins_as_wanted(opt_text(query.span_path_prefix), opt_text(entry.span_path))
        },
{
}

// ---------------------------------------------------------------------
// The ledger
// ---------------------------------------------------------------------

/// Whether a row of the ledger is one that a query asks for.
pub open spec fn row_meets_query(row: AuditEntry, query: AuditQuery) -> bool {
    &&& is_within(row.intent_ms, query.since_ms, query.until_ms)
    &&& is_wanted(opt_text(query.token_id), Some(row.token_id@))
    &&& is_wanted(opt_text(query.decision), Some(row.decision@))
    &&& is_wanted(opt_text(query.path), Some(row.path@))
    &&& query.before matches Some((ms, id)) ==> row.intent_ms < ms || (row.intent_ms == ms && row.id
        < id)
    &&& query.exclude_id matches Some(own) ==> row.id != own
}

/// Every filter that a caller sets reaches the ledger: a row meets the planned query exactly when
/// it meets each filter of the request, is not the row of the request itself, and, where the
/// request carries the cursor of a row, is older than that row.
pub proof fn law_ledger_filters_reach_the_ledger(
    plan: (AuditQuery, usize),
    params: AuditParams,
    own_row: u64,
    last: Option<(i64, u64)>,
    row: AuditEntry,
)
    requires
        is_audit_plan(plan, params, own_row),
        opt_text(params.before) == (match last {
            Some((ms, id)) => Some(cursor_text(ms, id)),
            None => None,
        }),
    ensures
        row_meets_query(row, plan.0) <==> {
            &&& is_within(row.intent_ms, params.since_ms, params.until_ms)
            &&& is_wanted(opt_text(params.token_id), Some(row.token_id@))
            &&& is_wanted(opt_text(params.decision), Some(row.decision@))
            &&& is_wanted(opt_text(params.path), Some(row.path@))
            &&& row.id != own_row
            &&& last matches Some((ms, id)) ==> row.intent_ms < ms || (row.intent_ms == ms && row.id
                < id)
        },
{
    if let Some((ms, id)) = last {
        law_cursor_reads_back(ms, id);
    }
}

// ---------------------------------------------------------------------
// How much
// ---------------------------------------------------------------------

/// A caller gets as many rows as it asks for, from one up to a thousand, and a hundred where it
/// does not say.
pub proof fn law_callers_get_as_many_as_they_ask_for(n: u32)
    ensures
        1 <= n <= 1_000 ==> row_limit_of(Some(n)) == n && log_limit_of(Some(n)) == n,
        n > 1_000 ==> row_limit_of(Some(n)) == 1_000 && log_limit_of(Some(n)) == 1_000,
        row_limit_of(None) == 100,
        log_limit_of(None) == 100,
        row_limit_of(Some(0)) == 1,
        log_limit_of(Some(0)) == log_limit_of(None),
{
}

/// A plan asks for as many rows as the caller does: from one up to a thousand, and a hundred where
/// the caller does not say.
pub proof fn law_plans_are_as_long_as_asked(
    logs: (LogQuery, usize),
    query: LogQuery,
    events: (EventQuery, usize),
    params: EventsParams,
    ledger: (AuditQuery, usize),
    asked: AuditParams,
    own_row: u64,
    limit: Option<u32>,
)
    requires
        is_log_plan(logs, query, limit),
        is_event_plan(events, params),
        is_audit_plan(ledger, asked, own_row),
        params.limit == limit,
        asked.limit == limit,
    ensures
        limit is None ==> logs.1 == 100 && events.1 == 100 && ledger.1 == 100,
        limit matches Some(n) ==> (1 <= n <= 1_000 ==> logs.1 == n && events.1 == n && ledger.1
            == n),
        1 <= logs.1 <= 1_000 && 1 <= events.1 <= 1_000 && 1 <= ledger.1 <= 1_000,
{
}

/// A page has as many devices as are asked for, up to a bound, and a default where nothing, or
/// none, is asked for.
pub proof fn law_pages_are_as_long_as_asked(n: usize, default: usize, max: usize)
    requires
        1 <= default <= max,
    ensures
        1 <= n <= max ==> page_limit_of(Some(n), default, max) == n,
        n > max ==> page_limit_of(Some(n), default, max) == max,
        page_limit_of(Some(0), default, max) == default,
        page_limit_of(None, default, max) == default,
{
}

/// A page of the state of all devices has 64 devices unless asked otherwise and never more than
/// 256; one more is read than goes on it. A page begins where its cursor says and keeps to the
/// revision of its cursor.
pub proof fn law_state_pages_follow_their_cursor(
    plan: StatePagePlan,
    after: Option<Seq<char>>,
    pinned: Option<u64>,
    limit: Option<usize>,
)
    requires
        is_page_plan(plan, after, pinned, limit),
    ensures
        opt_text(plan.after) == after,
        plan.pinned == pinned,
        1 <= plan.limit <= 256,
        plan.fetch > plan.limit,
        plan.fetch - plan.limit == 1,
        limit is None ==> plan.limit == 64,
        limit matches Some(n) ==> (1 <= n <= 256 ==> plan.limit == n),
{
    law_pages_are_as_long_as_asked(
        match limit {
            Some(n) => n,
            None => 0,
        },
        DEFAULT_ALL_DEVICES_STATE_LIMIT,
        MAX_ALL_DEVICES_STATE_LIMIT,
    );
}

/// Changes are read from the revision that the caller names, or from the first, 256 at a time
/// unless asked otherwise and never more than 1024.
pub proof fn law_changes_begin_where_the_caller_says(
    plan: (u64, usize),
    since_revision: Option<u64>,
    limit: Option<usize>,
)
    requires
        is_changes_plan(plan, since_revision, limit),
    ensures
        since_revision matches Some(since) ==> plan.0 == since,
        since_revision is None ==> plan.0 == 0,
        1 <= plan.1 <= 1_024,
        limit is None ==> plan.1 == 256,
        limit matches Some(n) ==> (1 <= n <= 1_024 ==> plan.1 == n),
{
    law_pages_are_as_long_as_asked(
        match limit {
            Some(n) => n,
            None => 0,
        },
        DEFAULT_STATE_CHANGES_LIMIT,
        MAX_STATE_CHANGES_LIMIT,
    );
}

/// A page of changes carries what the store said: the epoch, the current revision, whether the
/// client has to begin anew, and every change as it is stored, in order.
pub proof fn law_changes_are_what_the_store_said(
    body: StateChangesBody,
    epoch: Seq<char>,
    current_revision: u64,
    reset_required: bool,
    entries: Seq<DeviceState>,
)
    requires
        is_changes_body(body, epoch, current_revision, reset_required, entries),
    ensures
        body.epoch@ == epoch,
        body.current_revision == current_revision,
        body.reset_required == reset_required,
        body.changes.len() == entries.len(),
        forall|i: int|
            0 <= i < entries.len() ==> is_stored_state(#[trigger] body.changes@[i], entries[i]),
{
    law_state_lists_go_out_in_order(body.changes@, entries);
}

// ---------------------------------------------------------------------
// Commands
// ---------------------------------------------------------------------

/// A plugin gets the command that the caller sent: the same capability, the same action, and the
/// same arguments in the same order.
pub proof fn law_commands_reach_the_plugin_as_sent(command: Command, body: CommandBody)
    requires
        is_host_command(command, body),
    ensures
        command.capability@ == body.capability@,
        command.action@ == body.action@,
        same_fields(body.args@, command.args@),
{
    law_fields_go_out_one_for_one(body.args@, command.args@);
}

/// A caller gets the answer that the plugin gave, and the ledger learns of a failure exactly when
/// the plugin reported one.
pub proof fn law_answers_are_those_of_the_plugin(reply: CommandReply, result: CommandResult)
    requires
        is_command_reply(reply, result),
    ensures
        reply.domain_error is Some <==> result is Failed,
        reply.body is Done <==> result is Done,
        reply.body is OkWithState <==> result is OkWithState,
        result matches CommandResult::Failed(err) ==> (reply.body matches WireCommandResult::Failed {
            error,
        } && same_error(error, err)),
        result matches CommandResult::Failed(WitError::NotFound(_)) ==> opt_str(reply.domain_error)
            == Some("not_found"@),
        result matches CommandResult::Failed(WitError::InvalidArgument(_)) ==> opt_str(
            reply.domain_error,
        ) == Some("invalid_argument"@),
        result matches CommandResult::Failed(WitError::PermissionDenied(_)) ==> opt_str(
            reply.domain_error,
        ) == Some("permission_denied"@),
        result matches CommandResult::Failed(WitError::Unavailable(_)) ==> opt_str(
            reply.domain_error,
        ) == Some("unavailable"@),
        result matches CommandResult::Failed(WitError::Internal(_)) ==> opt_str(reply.domain_error)
            == Some("internal"@),
{
}

/// The state that a plugin reported last under a key is answered under that key.
pub proof fn law_answers_carry_the_last_reports(
    reply: CommandReply,
    list: Vec<KeyValue>,
    i: int,
)
    requires
        is_command_reply(reply, CommandResult::OkWithState(list)),
        0 <= i < list.len(),
        forall|j: int| i < j < list.len() ==> (#[trigger] list@[j]).key@ != list@[i].key@,
    ensures
        reply.body matches WireCommandResult::OkWithState { state } && state@.dom().contains(
            list@[i].key@,
        ) && same_value(state@[list@[i].key@], list@[i].value),
{
    law_reported_state_goes_out(list@, i);
}

// ---------------------------------------------------------------------
// Refusals
// ---------------------------------------------------------------------

/// A query that fails is answered by its cause: a missing scope by 403 without a word, a cursor
/// that is none by 400 with the reason, a store that fails by 500 without its words.
pub proof fn law_failed_queries_are_answered(err: QueryError)
    ensures
        match err {
            QueryError::Scope(denied) => query_reply(err).status == 403 && query_reply(err).body
                == BodyModel::Text(""@) && query_reply(err).denied_scope == Some(denied.required@),
            QueryError::Storage => query_reply(err).status == 500 && query_reply(err).body
                == BodyModel::Text("internal error"@) && query_reply(err).denied_scope is None,
            QueryError::BadCursor(reason) => query_reply(err).status == 400 && query_reply(err).body
                == BodyModel::Text(reason@) && query_reply(err).denied_scope is None,
        },
{
}

/// A page of device state that is refused is answered by its cause: 403, 400 for a cursor that is
/// none, and 409 for one of an earlier run.
pub proof fn law_refused_pages_are_answered(err: AllDevicesStateError)
    ensures
        match err {
            AllDevicesStateError::Scope(denied) => all_state_reply(err).status == 403
                && all_state_reply(err).body == BodyModel::Text(""@) && all_state_reply(
                err,
            ).denied_scope == Some(denied.required@),
            AllDevicesStateError::BadCursor => all_state_reply(err).status == 400
                && all_state_reply(err).denied_scope is None,
            AllDevicesStateError::EpochChanged => all_state_reply(err).status == 409
                && all_state_reply(err).denied_scope is None,
        },
{
}

/// A command that is refused is answered by its cause, and a device that does not exist as one
/// whose owner does not run: by 404 without a word.
pub proof fn law_refused_commands_are_answered(err: CommandError)
    ensures
        match err {
            CommandError::Scope(denied) => command_error_reply(err).status == 403
                && command_error_reply(err).body == BodyModel::Text(""@) && command_error_reply(
                err,
            ).denied_scope == Some(denied.required@),
            CommandError::NotFound => command_error_reply(err).status == 404
                && command_error_reply(err).body == BodyModel::Text(""@),
            CommandError::Dispatch => command_error_reply(err).status == 500
                && command_error_reply(err).body == BodyModel::Text("internal error"@),
        },
{
}

/// The rows of a history go out all of them, in their order.
pub proof fn law_histories_go_out_in_order(
    out: Seq<WireHistoricalEvent>,
    rows: Seq<HistoricalEvent>,
    i: int,
)
    requires
        are_event_rows(out, rows),
        0 <= i < rows.len(),
    ensures
        out.len() == rows.len(),
        out[i].id == rows[i].id,
        is_event_row(out[i], rows[i]),
{
}

} // verus!
