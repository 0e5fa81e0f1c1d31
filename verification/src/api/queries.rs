//! Queries of the logs, the event history, the audit ledger and device state.

use vstd::prelude::*;

use crate::api::reply::{denied_reply, plain, scope_denied, text_reply, Reply, ReplyModel};
use crate::api::scopes::{
    require_scope, scope_satisfied, Scope, ScopeDenied, AUDIT_READ, EVENTS_READ, LOGS_READ,
};
use crate::api::wire::{payload_model, WireAuditEntry, WireHistoricalEvent, WireLogEvent};
use crate::auth::Actor;
use crate::state::{
    AuditEntry, AuditQuery, EventQuery, HistoricalEvent, HistoricalLogEvent, LogQuery, TopicMatch,
};
use crate::text::{
    decimal, decimal_signed, i64_to_decimal, is_digit, law_signed_reads_back,
    law_unsigned_reads_back, lemma_decimal_reads_back, lemma_split_head, opt_text, parse_i64,
    parse_u64, signed_value, split_once, split_once_at, u64_to_decimal, unsigned_value,
};

verus! {

/// The rows of an answer when the caller does not say.
pub const QUERY_DEFAULT_LIMIT: u32 = 100;

/// The most rows of an answer.
pub const QUERY_MAX_LIMIT: u32 = 1_000;

/// A number of rows within what is allowed.
pub open spec fn clamped(n: u32) -> nat {
    if n < 1 {
        1
    } else if n > QUERY_MAX_LIMIT {
        QUERY_MAX_LIMIT as nat
    } else {
        n as nat
    }
}

/// How many rows are asked for, where none counts as one.
pub open spec fn row_limit_of(limit: Option<u32>) -> nat {
    match limit {
        Some(n) => clamped(n),
        None => QUERY_DEFAULT_LIMIT as nat,
    }
}

/// How many log entries are asked for, where none counts as not saying.
pub open spec fn log_limit_of(limit: Option<u32>) -> nat {
    match limit {
        Some(n) => if n == 0 {
            QUERY_DEFAULT_LIMIT as nat
        } else {
            clamped(n)
        },
        None => QUERY_DEFAULT_LIMIT as nat,
    }
}

/// How many rows are asked for.
pub fn row_limit(limit: Option<u32>) -> (r: usize)
    ensures
        r == row_limit_of(limit),
        1 <= r <= QUERY_MAX_LIMIT,
{
    let n: u32 = match limit {
        Some(n) => n,
        None => QUERY_DEFAULT_LIMIT,
    };
    if n < 1 {
        1
    } else if n > QUERY_MAX_LIMIT {
        QUERY_MAX_LIMIT as usize
    } else {
        n as usize
    }
}

/// How many log entries are asked for.
pub fn log_limit(limit: Option<u32>) -> (r: usize)
    ensures
        r == log_limit_of(limit),
        1 <= r <= QUERY_MAX_LIMIT,
{
    match limit {
        Some(0) => QUERY_DEFAULT_LIMIT as usize,
        other => row_limit(other),
    }
}

/// Why a query is not answered.
#[derive(Debug)]
pub enum QueryError {
    Scope(ScopeDenied),
    /// The store failed.
    Storage,
    /// The cursor has no shape that a cursor has.
    BadCursor(&'static str),
}

/// The answer to a query that failed.
pub open spec fn query_reply(err: QueryError) -> ReplyModel {
    match err {
        QueryError::Scope(denied) => denied_reply(denied.required@),
        QueryError::Storage => text_reply(500, "internal error"@),
        QueryError::BadCursor(reason) => text_reply(400, reason@),
    }
}

impl QueryError {
    /// The answer to a query that failed.
    pub fn into_response(self) -> (r: Reply)
        ensures
            r@ == query_reply(self),
    {
        match self {
            QueryError::Scope(denied) => scope_denied(denied),
            QueryError::Storage => plain(500, "internal error"),
            QueryError::BadCursor(reason) => plain(400, reason),
        }
    }
}

/// Whether a query is refused because the caller lacks a scope.
pub open spec fn refused_for<T>(r: Result<T, QueryError>, scope: Seq<char>) -> bool {
    match r {
        Err(QueryError::Scope(denied)) => denied.required@ == scope,
        _ => false,
    }
}

// ---------------------------------------------------------------------
// Logs
// ---------------------------------------------------------------------

/// Whether an answer is the one to a caller who queries the logs: a plan, or the scope that is
/// missing.
pub open spec fn is_logs_answer(
    r: Result<(LogQuery, usize), QueryError>,
    held: Seq<Seq<char>>,
    query: LogQuery,
    limit: Option<u32>,
) -> bool {
    if scope_satisfied(LOGS_READ@, held) {
        r matches Ok(plan) && is_log_plan(plan, query, limit)
    } else {
        refused_for(r, LOGS_READ@)
    }
}

/// Prepares a query of the logs: the query and the number of entries.
pub fn plan_logs(actor: &Actor, query: LogQuery, limit: Option<u32>) -> (r: Result<
    (LogQuery, usize),
    QueryError,
>)
    ensures
        is_logs_answer(r, actor@.scopes, query, limit),
{
    match require_scope(actor, Scope::new(LOGS_READ)) {
        Ok(()) => Ok((query, log_limit(limit))),
        Err(denied) => Err(QueryError::Scope(denied)),
    }
}

/// Whether a plan asks for what the caller asks for, and for as many entries.
pub open spec fn is_log_plan(plan: (LogQuery, usize), query: LogQuery, limit: Option<u32>) -> bool {
    plan.0 == query && plan.1 == log_limit_of(limit)
}

/// The rows of the log store on the wire, in their order.
pub fn log_rows(rows: Vec<HistoricalLogEvent>) -> (r: Vec<WireLogEvent>)
    ensures
        r.len() == rows.len(),
        forall|i: int|
            0 <= i < rows.len() ==> is_log_row(#[trigger] r@[i], rows@[i]),
{
    let ghost all = rows@;
    let mut rest = rows;
    let mut out: Vec<WireLogEvent> = Vec::new();
    assert(all.skip(0) =~= all);
    while rest.len() > 0
        invariant
            rest.len() + out.len() == all.len(),
            rest@ == all.skip(out.len() as int),
            forall|i: int| 0 <= i < out.len() ==> is_log_row(#[trigger] out@[i], all[i]),
        decreases rest.len(),
    {
        let ghost done = out.len() as int;
        let row = rest.remove(0);
        assert(row == all[done]);
        assert(rest@ =~= all.skip(done + 1));
        out.push(WireLogEvent::from_row(row));
    }
    out
}

/// Whether a log entry on the wire is a row of the store.
pub open spec fn is_log_row(out: WireLogEvent, row: HistoricalLogEvent) -> bool {
    out == (WireLogEvent {
        id: row.id,
        ts_unix_ms: row.ts_unix_ms,
        level: row.level,
        instance_id: row.instance_id,
        plugin_id: row.plugin_id,
        device_id: row.device_id,
        target: row.target,
        span_path: row.span_path,
        message: row.message,
        fields: row.fields,
    })
}

// ---------------------------------------------------------------------
// Events
// ---------------------------------------------------------------------

/// What a caller asks of the event history.
#[derive(Debug)]
pub struct EventsParams {
    pub since_ms: Option<i64>,
    pub until_ms: Option<i64>,
    pub device_id: Option<String>,
    pub instance_id: Option<String>,
    pub plugin_id: Option<String>,
    pub topic: Option<String>,
    pub topic_prefix: Option<String>,
    pub after_id: Option<u64>,
    pub before_id: Option<u64>,
    pub limit: Option<u32>,
}

/// The topic filter of a caller: a prefix counts before an exact topic.
pub open spec fn topic_of(topic: Option<String>, prefix: Option<String>) -> Option<
    (String, TopicMatch),
> {
    match (topic, prefix) {
        (_, Some(p)) => Some((p, TopicMatch::Prefix)),
        (Some(t), None) => Some((t, TopicMatch::Exact)),
        (None, None) => None,
    }
}

/// The topic filter of a caller.
pub fn topic_filter(topic: Option<String>, prefix: Option<String>) -> (r: Option<
    (String, TopicMatch),
>)
    ensures
        r == topic_of(topic, prefix),
{
    match prefix {
        Some(p) => Some((p, TopicMatch::Prefix)),
        None => match topic {
            Some(t) => Some((t, TopicMatch::Exact)),
            None => None,
        },
    }
}

/// The query that a caller's parameters make.
pub open spec fn event_query_of(params: EventsParams) -> EventQuery {
    EventQuery {
        since_ms: params.since_ms,
        until_ms: params.until_ms,
        device_id: params.device_id,
        instance_id: params.instance_id,
        plugin_id: params.plugin_id,
        topic: topic_of(params.topic, params.topic_prefix),
        after_id: params.after_id,
        before_id: params.before_id,
    }
}

/// Whether an answer is the one to a caller who queries the event history: a plan, or the scope
/// that is missing.
pub open spec fn is_events_answer(
    r: Result<(EventQuery, usize), QueryError>,
    held: Seq<Seq<char>>,
    params: EventsParams,
) -> bool {
    if scope_satisfied(EVENTS_READ@, held) {
        r matches Ok(plan) && is_event_plan(plan, params)
    } else {
        refused_for(r, EVENTS_READ@)
    }
}

/// Prepares a query of the event history: the query and the number of rows.
pub fn plan_events(actor: &Actor, params: EventsParams) -> (r: Result<
    (EventQuery, usize),
    QueryError,
>)
    ensures
        is_events_answer(r, actor@.scopes, params),
{
    match require_scope(actor, Scope::new(EVENTS_READ)) {
        Ok(()) => {
            let limit = row_limit(params.limit);
            let query = EventQuery {
                since_ms: params.since_ms,
                until_ms: params.until_ms,
                device_id: params.device_id,
                instance_id: params.instance_id,
                plugin_id: params.plugin_id,
                topic: topic_filter(params.topic, params.topic_prefix),
                after_id: params.after_id,
                before_id: params.before_id,
            };
            Ok((query, limit))
        },
        Err(denied) => Err(QueryError::Scope(denied)),
    }
}

/// Whether a plan is the one that a caller's parameters make: their query and the number of rows.
pub open spec fn is_event_plan(plan: (EventQuery, usize), params: EventsParams) -> bool {
    plan.0 == event_query_of(params) && plan.1 == row_limit_of(params.limit)
}

/// Whether an event on the wire is a row of the event log.
pub open spec fn is_event_row(out: WireHistoricalEvent, row: HistoricalEvent) -> bool {
    &&& out.id == row.id
    &&& out.received_ms == row.received_ms
    &&& out.payload_ms == row.payload_ms
    &&& opt_text(out.device_id) == opt_text(row.device_id)
    &&& out.instance_id@ == row.instance_id@
    &&& out.plugin_id@ == row.plugin_id@
    &&& out.topic@ == row.topic@
    &&& out.payload@ == payload_model(row.payload)
}

/// Whether these are the rows of the event log on the wire, in their order.
pub open spec fn are_event_rows(out: Seq<WireHistoricalEvent>, rows: Seq<HistoricalEvent>) -> bool {
    &&& out.len() == rows.len()
    &&& forall|i: int| 0 <= i < rows.len() ==> is_event_row(#[trigger] out[i], rows[i])
}

/// The rows of the event log on the wire, in their order.
pub fn event_rows(rows: Vec<HistoricalEvent>) -> (r: Vec<WireHistoricalEvent>)
    ensures
        are_event_rows(r@, rows@),
{
    let ghost all = rows@;
    let mut rest = rows;
    let mut out: Vec<WireHistoricalEvent> = Vec::new();
    assert(all.skip(0) =~= all);
    while rest.len() > 0
        invariant
            rest.len() + out.len() == all.len(),
            rest@ == all.skip(out.len() as int),
            forall|i: int| 0 <= i < out.len() ==> is_event_row(#[trigger] out@[i], all[i]),
        decreases rest.len(),
    {
        let ghost done = out.len() as int;
        let row = rest.remove(0);
        assert(row == all[done]);
        assert(rest@ =~= all.skip(done + 1));
        out.push(WireHistoricalEvent::from_row(row));
    }
    out
}

// ---------------------------------------------------------------------
// The audit ledger
// ---------------------------------------------------------------------

/// What a caller asks of the audit ledger.
#[derive(Debug)]
pub struct AuditParams {
    pub since_ms: Option<i64>,
    pub until_ms: Option<i64>,
    pub token_id: Option<String>,
    pub decision: Option<String>,
    pub path: Option<String>,
    /// The cursor of the page before.
    pub before: Option<String>,
    pub limit: Option<u32>,
}

/// What a cursor of the ledger stands for, or what is wrong with it.
pub open spec fn cursor_of(text: Seq<char>) -> Result<(i64, u64), Seq<char>> {
    match split_once_at(text, ':') {
        Some((ms, id)) => match (signed_value(ms), unsigned_value(id, u64::MAX as nat)) {
            (Some(ms), Some(id)) => Ok((ms as i64, id as u64)),
            (Some(_), None) => Err("cursor id must be a u64"@),
            (None, _) => Err("cursor intent_ms must be an i64"@),
        },
        None => Err("cursor must be `<intent_ms>:<id>`"@),
    }
}

/// The cursor that stands for a row of the ledger.
pub open spec fn cursor_text(intent_ms: i64, id: u64) -> Seq<char> {
    decimal_signed(intent_ms as int) + ":"@ + decimal(id as nat)
}

/// Reads a cursor of the ledger.
pub fn parse_audit_cursor(text: &str) -> (r: Result<(i64, u64), &'static str>)
    ensures
        match r {
            Ok(cursor) => cursor_of(text@) == Ok::<(i64, u64), Seq<char>>(cursor),
            Err(reason) => cursor_of(text@) == Err::<(i64, u64), Seq<char>>(reason@),
        },
{
    let (ms_text, id_text) = match split_once(text, ':') {
        Some(parts) => parts,
        None => return Err("cursor must be `<intent_ms>:<id>`"),
    };
    let ms: i64 = match parse_i64(ms_text) {
        Some(ms) => ms,
        None => return Err("cursor intent_ms must be an i64"),
    };
    let id: u64 = match parse_u64(id_text) {
        Some(id) => id,
        None => return Err("cursor id must be a u64"),
    };
    Ok((ms, id))
}

/// Writes the cursor of a row of the ledger.
pub fn audit_cursor(intent_ms: i64, id: u64) -> (r: String)
    ensures
        r@ == cursor_text(intent_ms, id),
{
    let mut out = i64_to_decimal(intent_ms);
    out.append(":");
    out.append(u64_to_decimal(id).as_str());
    out
}

/// The cursor of a row reads back as that row's time and id.
pub proof fn law_cursor_reads_back(intent_ms: i64, id: u64)
    ensures
        cursor_of(cursor_text(intent_ms, id)) == Ok::<(i64, u64), Seq<char>>((intent_ms, id)),
{
    let ms = decimal_signed(intent_ms as int);
    let tail = decimal(id as nat);
    reveal_strlit(":");
    assert(cursor_text(intent_ms, id) =~= ms.push(':') + tail);
    assert(!ms.contains(':')) by {
        let m = if intent_ms < 0 {
            (-(intent_ms as int)) as nat
        } else {
            intent_ms as nat
        };
        lemma_decimal_reads_back(m);
        assert forall|i: int| 0 <= i < ms.len() implies ms[i] != ':' by {
            if intent_ms < 0 {
                if i > 0 {
                    assert(ms[i] == decimal(m)[i - 1]);
                    assert(is_digit(decimal(m)[i - 1]));
                }
            } else {
                assert(is_digit(decimal(m)[i]));
            }
        }
    }
    lemma_split_head(ms, ':', tail);
    law_signed_reads_back(intent_ms);
    law_unsigned_reads_back(id);
}

/// Whether an answer is the one to a caller who queries the ledger: a plan, the scope that is
/// missing, or what is wrong with the cursor.
pub open spec fn is_audit_answer(
    r: Result<(AuditQuery, usize), QueryError>,
    held: Seq<Seq<char>>,
    own_row: u64,
    params: AuditParams,
) -> bool {
    if !scope_satisfied(AUDIT_READ@, held) {
        refused_for(r, AUDIT_READ@)
    } else {
        match params.before {
            Some(text) => match cursor_of(text@) {
                Ok(_) => r matches Ok(plan) && is_audit_plan(plan, params, own_row),
                Err(reason) => r matches Err(QueryError::BadCursor(given)) && given@ == reason,
            },
            None => r matches Ok(plan) && is_audit_plan(plan, params, own_row),
        }
    }
}

/// Prepares a query of the ledger: the query and the number of rows. The caller's own pending row
/// is left out.
pub fn plan_audit(actor: &Actor, own_row: u64, params: AuditParams) -> (r: Result<
    (AuditQuery, usize),
    QueryError,
>)
    ensures
        is_audit_answer(r, actor@.scopes, own_row, params),
{
    if let Err(denied) = require_scope(actor, Scope::new(AUDIT_READ)) {
        return Err(QueryError::Scope(denied));
    }
    let limit = row_limit(params.limit);
    let before = match &params.before {
        Some(text) => match parse_audit_cursor(text.as_str()) {
            Ok(cursor) => Some(cursor),
            Err(reason) => return Err(QueryError::BadCursor(reason)),
        },
        None => None,
    };
    let query = AuditQuery {
        since_ms: params.since_ms,
        until_ms: params.until_ms,
        token_id: params.token_id,
        decision: params.decision,
        path: params.path,
        before,
        exclude_id: Some(own_row),
    };
    Ok((query, limit))
}

/// The query that a caller's parameters make.
pub open spec fn audit_query_of(
    params: AuditParams,
    before: Option<(i64, u64)>,
    own_row: u64,
) -> AuditQuery {
    AuditQuery {
        since_ms: params.since_ms,
        until_ms: params.until_ms,
        token_id: params.token_id,
        decision: params.decision,
        path: params.path,
        before,
        exclude_id: Some(own_row),
    }
}

/// Whether a plan is the one that a caller's parameters make: their query, with what the cursor
/// stands for if there is one, and the number of rows.
pub open spec fn is_audit_plan(
    plan: (AuditQuery, usize),
    params: AuditParams,
    own_row: u64,
) -> bool {
    &&& match params.before {
        Some(text) => cursor_of(text@) matches Ok(cursor) && plan.0 == audit_query_of(
            params,
            Some(cursor),
            own_row,
        ),
        None => plan.0 == audit_query_of(params, None, own_row),
    }
    &&& plan.1 == row_limit_of(params.limit)
}

/// A page of the ledger.
#[derive(Debug)]
pub struct AuditBody {
    pub audit: Vec<WireAuditEntry>,
    /// The cursor of the next page, if this one is full.
    pub next_cursor: Option<String>,
}

/// Whether a page is the one that rows of the ledger make: it holds them all in their order. A
/// full page carries the cursor of its last row; one that is not full carries none.
pub open spec fn is_audit_page(page: AuditBody, rows: Seq<AuditEntry>, limit: usize) -> bool {
    &&& page.audit.len() == rows.len()
    &&& forall|i: int| 0 <= i < rows.len() ==> (#[trigger] page.audit@[i])@ == rows[i]@
    &&& opt_text(page.next_cursor) == (if rows.len() == limit {
        Some(cursor_text(rows.last().intent_ms, rows.last().id))
    } else {
        None
    })
}

/// The page that rows of the ledger make.
pub fn audit_page(rows: Vec<AuditEntry>, limit: usize) -> (r: AuditBody)
    requires
        limit >= 1,
    ensures
        is_audit_page(r, rows@, limit),
{
    let n = rows.len();
    let next_cursor = if n == limit {
        Some(audit_cursor(rows[n - 1].intent_ms, rows[n - 1].id))
    } else {
        None
    };
    let ghost all = rows@;
    let mut rest = rows;
    let mut audit: Vec<WireAuditEntry> = Vec::new();
    assert(all.skip(0) =~= all);
    while rest.len() > 0
        invariant
            rest.len() + audit.len() == all.len(),
            rest@ == all.skip(audit.len() as int),
            forall|i: int| 0 <= i < audit.len() ==> (#[trigger] audit@[i])@ == all[i]@,
        decreases rest.len(),
    {
        let ghost done = audit.len() as int;
        let row = rest.remove(0);
        assert(row == all[done]);
        assert(rest@ =~= all.skip(done + 1));
        audit.push(WireAuditEntry::from_row(row));
    }
    AuditBody { audit, next_cursor }
}

} // verus!
