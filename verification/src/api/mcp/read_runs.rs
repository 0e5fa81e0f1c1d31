//! The way of a read from its address to its answer.
//!
//! A read asks the host for one thing after another. Each step takes what the host found and says
//! what is to be done next. Before the answer comes the row in the ledger.

use vstd::prelude::*;

use crate::api::mcp::contents::{
    base64_len, blob_address, blob_address_of, blob_installation, blob_outcome, blob_slot,
    devices_detail, encode, events_failure, instances_of_plugin, is_blob_outcome, is_encoded,
    is_installation, is_missing, is_plugin_detail, is_query_failure, is_slot_check, is_status,
    logs_failure, no_device_text, no_plugin_text, plugins_detail, status_ok, BlobOwner, BlobRead,
    BlobSlot, DeviceDetail, EncodeEnd, InstalledDetail, InstanceRow, PingEnd, PluginDetail,
    StoreFailure, BLOB_INLINE_MAX_BYTES,
};
use crate::api::mcp::error::{
    is_error, mcp_error, McpError, INTERNAL_ERROR_CODE, RESOURCE_BUSY_CODE,
};
use crate::api::mcp::filters::{is_events_read, is_logs_read, plan_events_read, plan_logs_read};
use crate::api::mcp::resources::{
    audit_queue_full, finish_read, is_read_finish, new_audit_entry, read_row, route_of, start_read,
    KindModel, LedgerWrite, ReadOutcome, ReadResult, ReadStart, ResourceKind, RouteModel,
};
use crate::api::plugins::{is_plugin_listing, list_plugins, InstalledPlugin, PluginSummary};
use crate::api::queries::{are_event_rows, event_rows};
use crate::api::scopes::scope_satisfied;
use crate::api::wire::WireHistoricalEvent;
use crate::auth::{Actor, ActorModel};
use crate::state::{AuditEntry, EventQuery, HistoricalEvent, HistoricalLogEvent, LogQuery};
use crate::text::texts;

verus! {

/// A device in the listing.
#[derive(Debug)]
pub struct DeviceEntry {
    pub device_id: String,
    pub owner_instance: String,
    pub name: String,
}

/// The counts of the host's status.
#[derive(Debug, Clone, Copy, PartialEq, Eq, Structural)]
pub struct HostCounts {
    pub uptime_ms: u64,
    pub installed_plugins: usize,
    pub running_instances: usize,
    pub devices: usize,
}

/// What a resource contains, before it is written as JSON.
#[derive(Debug)]
pub enum ResourceBody {
    Devices { devices: Vec<DeviceEntry> },
    Device(DeviceDetail),
    Plugins { plugins: Vec<PluginSummary> },
    Plugin(PluginDetail),
    Events { events: Vec<WireHistoricalEvent> },
    Logs { logs: Vec<HistoricalLogEvent> },
    Status { ok: bool, counts: HostCounts },
}

/// What a read waits for.
#[derive(Debug)]
pub enum ReadStage {
    AwaitDevices,
    AwaitDevice { id: String },
    AwaitPlugins,
    AwaitPlugin { id: String },
    AwaitEvents,
    AwaitLogs,
    AwaitPing,
    AwaitCounts { ok: bool },
    AwaitInstance { instance_id: String, name: String },
    AwaitSlot { installation: String, instance_id: String, name: String },
    AwaitBlob,
    /// The body is being written.
    AwaitBody { what: &'static str },
    /// The row is being written.
    AwaitRow { outcome: ReadOutcome },
    Done,
}

/// A read under way.
#[derive(Debug)]
pub struct ReadRun {
    pub uri: String,
    pub token_id: String,
    /// What kind of resource is read, for the ledger.
    pub family: &'static str,
    pub stage: ReadStage,
}

/// What the host found.
#[derive(Debug)]
#[allow(inconsistent_fields)]
pub enum ReadEvent {
    Devices(Vec<DeviceEntry>),
    Device(Option<DeviceDetail>),
    /// The plugins on disk, and the plugin of each instance that runs.
    Listing { installed: Vec<InstalledPlugin>, running: Vec<String> },
    Detail { installed: Option<InstalledDetail>, rows: Vec<InstanceRow> },
    Events(Result<Vec<HistoricalEvent>, StoreFailure>),
    Logs(Result<Vec<HistoricalLogEvent>, StoreFailure>),
    Ping(PingEnd),
    Counts(HostCounts),
    Instance(BlobOwner),
    Slot(BlobSlot),
    Blob(BlobRead),
    Encoded(EncodeEnd),
    RowWrite(LedgerWrite),
}

/// What is to be done next.
#[derive(Debug)]
#[allow(inconsistent_fields)]
pub enum ReadAction {
    ListDevices,
    LookUpDevice { id: String },
    ListPlugins,
    LookUpPlugin { id: String },
    QueryEvents { query: EventQuery, limit: usize },
    QueryLogs { query: LogQuery, limit: usize },
    Ping,
    Count,
    FindInstance { instance_id: String },
    /// Take a place among the blobs that are read at a time, and keep it until the read ends.
    TakeSlot,
    ReadBlob { installation: String, instance_id: String, name: String, max_bytes: u64 },
    Encode(ResourceBody),
    WriteRow(AuditEntry),
    Answer(Result<ReadResult, McpError>),
}

// ---------------------------------------------------------------------
// Ends
// ---------------------------------------------------------------------

/// Whether a read has come to an outcome, and the row that says so is to be written.
pub open spec fn has_outcome(run: ReadRun, action: ReadAction) -> bool {
    match run.stage {
        ReadStage::AwaitRow { outcome } => action matches ReadAction::WriteRow(row) && row@
            == read_row(run.token_id@, run.family@, outcome),
        _ => false,
    }
}

/// Whether a read has come to this outcome.
pub open spec fn comes_to(run: ReadRun, action: ReadAction, end: ReadOutcome) -> bool {
    has_outcome(run, action) && run.stage->outcome == end
}

/// Whether a read has been refused for its address, in these words.
pub open spec fn is_invalid(run: ReadRun, action: ReadAction, words: Seq<char>) -> bool {
    has_outcome(run, action) && (run.stage->outcome matches ReadOutcome::InvalidParams(reason)
        && reason@ == words)
}

/// Whether a body is to be written.
pub open spec fn writes_body(run: ReadRun, action: ReadAction, what: Seq<char>) -> bool {
    (run.stage matches ReadStage::AwaitBody { what: w } && w@ == what) && action is Encode
}

/// Whether two runs are of the same read.
pub open spec fn same_read(a: ReadRun, b: ReadRun) -> bool {
    a.uri@ == b.uri@ && a.token_id@ == b.token_id@ && a.family@ == b.family@
}

/// Has the row of an outcome written.
fn conclude(uri: String, token_id: String, family: &'static str, outcome: ReadOutcome) -> (r: (
    ReadRun,
    ReadAction,
))
    ensures
        r.0.uri == uri,
        r.0.token_id == token_id,
        r.0.family@ == family@,
        comes_to(r.0, r.1, outcome),
{
    let row = new_audit_entry(token_id.as_str(), family, &outcome);
    (
        ReadRun { uri, token_id, family, stage: ReadStage::AwaitRow { outcome } },
        ReadAction::WriteRow(row),
    )
}

// ---------------------------------------------------------------------
// The first step
// ---------------------------------------------------------------------

/// Whether this is how the read of events goes on from its query.
pub open spec fn goes_on_to_events(
    run: ReadRun,
    action: ReadAction,
    raw: Seq<char>,
    now: i64,
) -> bool {
    exists|plan: Result<(EventQuery, usize), String>| #[trigger]
        is_events_read(plan, raw, now) && match plan {
            Err(e) => is_invalid(run, action, e@),
            Ok((query, limit)) => run.stage is AwaitEvents && action == (ReadAction::QueryEvents {
                query,
                limit,
            }),
        }
}

/// Whether this is how the read of logs goes on from its query.
pub open spec fn goes_on_to_logs(
    run: ReadRun,
    action: ReadAction,
    raw: Seq<char>,
    now: i64,
) -> bool {
    exists|plan: Result<(LogQuery, usize), String>| #[trigger]
        is_logs_read(plan, raw, now) && match plan {
            Err(e) => is_invalid(run, action, e@),
            Ok((query, limit)) => run.stage is AwaitLogs && action == (ReadAction::QueryLogs {
                query,
                limit,
            }),
        }
}

/// Whether this is what a read first asks the host for.
pub open spec fn asks_first(
    run: ReadRun,
    action: ReadAction,
    kind: KindModel,
    now: i64,
) -> bool {
    match kind {
        KindModel::DevicesList => run.stage is AwaitDevices && action is ListDevices,
        KindModel::DevicesDetail(id) => (run.stage matches ReadStage::AwaitDevice { id: i } && i@
            == id) && (action matches ReadAction::LookUpDevice { id: i } && i@ == id),
        KindModel::PluginsList => run.stage is AwaitPlugins && action is ListPlugins,
        KindModel::PluginsDetail(id) => (run.stage matches ReadStage::AwaitPlugin { id: i } && i@
            == id) && (action matches ReadAction::LookUpPlugin { id: i } && i@ == id),
        KindModel::Events(raw) => goes_on_to_events(run, action, raw, now),
        KindModel::Logs(raw) => goes_on_to_logs(run, action, raw, now),
        KindModel::Status => run.stage is AwaitPing && action is Ping,
        KindModel::Blob(instance, name) => match blob_address_of(instance, name) {
            Err(e) => is_invalid(run, action, e),
            Ok((i, n)) => (run.stage matches ReadStage::AwaitInstance { instance_id, name: given }
                && instance_id@ == i && given@ == n) && (action matches ReadAction::FindInstance {
                instance_id,
            } && instance_id@ == i),
        },
    }
}

/// Whether this is how a read begins. `ledger_free` says whether the ledger can take a row. A
/// read that cannot be recorded is not begun, and nothing is asked of the host for a caller that
/// lacks the scope.
pub open spec fn is_run_start(
    r: (ReadRun, ReadAction),
    uri: Seq<char>,
    actor: ActorModel,
    ledger_free: bool,
    now: i64,
) -> bool {
    &&& r.0.uri@ == uri
    &&& r.0.token_id@ == actor.id
    &&& if !ledger_free {
        r.0.stage is Done && (r.1 matches ReadAction::Answer(answer) && answer is Err && is_error(
            answer->Err_0,
            RESOURCE_BUSY_CODE,
            "MCP audit-write queue saturated; retry shortly"@,
        ))
    } else {
        match route_of(uri) {
            RouteModel::Nowhere { family, reason } => r.0.family@ == family && has_outcome(
                r.0,
                r.1,
            ) && is_missing(r.0.stage->outcome, reason),
            RouteModel::Found { family, scope, kind } => r.0.family@ == family
                && if scope_satisfied(scope, actor.scopes) {
                asks_first(r.0, r.1, kind, now)
            } else {
                has_outcome(r.0, r.1) && (r.0.stage->outcome matches ReadOutcome::Denied {
                    required,
                } && required@ == scope)
            },
        }
    }
}

/// Begins a read. `now` is the time in milliseconds since the Unix epoch.
pub fn begin_read(uri: &str, actor: &Actor, ledger_free: bool, now: i64) -> (r: (
    ReadRun,
    ReadAction,
))
    ensures
        is_run_start(r, uri@, actor@, ledger_free, now),
{
    let token_id = actor.id().to_owned();
    if !ledger_free {
        return (
            ReadRun {
                uri: uri.to_owned(),
                token_id,
                family: "unknown",
                stage: ReadStage::Done,
            },
            ReadAction::Answer(Err(audit_queue_full())),
        );
    }
    match start_read(uri, actor) {
        ReadStart::Done { family, outcome } => conclude(uri.to_owned(), token_id, family, outcome),
        ReadStart::Build { family, kind } => {
            let (stage, action) = match kind {
                ResourceKind::DevicesList => (ReadStage::AwaitDevices, ReadAction::ListDevices),
                ResourceKind::DevicesDetail(id) => {
                    let wanted = id.clone();
                    (ReadStage::AwaitDevice { id }, ReadAction::LookUpDevice { id: wanted })
                },
                ResourceKind::PluginsList => (ReadStage::AwaitPlugins, ReadAction::ListPlugins),
                ResourceKind::PluginsDetail(id) => {
                    let wanted = id.clone();
                    (ReadStage::AwaitPlugin { id }, ReadAction::LookUpPlugin { id: wanted })
                },
                ResourceKind::Events(raw) => match plan_events_read(raw.as_str(), now) {
                    Ok((query, limit)) => {
                        (ReadStage::AwaitEvents, ReadAction::QueryEvents { query, limit })
                    },
                    Err(e) => {
                        return conclude(
                            uri.to_owned(),
                            token_id,
                            family,
                            ReadOutcome::InvalidParams(e),
                        );
                    },
                },
                ResourceKind::Logs(raw) => match plan_logs_read(raw.as_str(), now) {
                    Ok((query, limit)) => {
                        (ReadStage::AwaitLogs, ReadAction::QueryLogs { query, limit })
                    },
                    Err(e) => {
                        return conclude(
                            uri.to_owned(),
                            token_id,
                            family,
                            ReadOutcome::InvalidParams(e),
                        );
                    },
                },
                ResourceKind::Status => (ReadStage::AwaitPing, ReadAction::Ping),
                ResourceKind::Blob(instance, name) => {
                    match blob_address(instance.as_str(), name.as_str()) {
                        Ok((instance_id, name)) => {
                            let wanted = instance_id.clone();
                            (
                                ReadStage::AwaitInstance { instance_id, name },
                                ReadAction::FindInstance { instance_id: wanted },
                            )
                        },
                        Err(outcome) => {
                            return conclude(uri.to_owned(), token_id, family, outcome);
                        },
                    }
                },
            };
            (ReadRun { uri: uri.to_owned(), token_id, family, stage }, action)
        },
    }
}

// ---------------------------------------------------------------------
// The steps after it
// ---------------------------------------------------------------------

/// What is said of an event that does not belong to the stage.
pub const READ_OUT_OF_STEP_TEXT: &'static str = "MCP resource read out of step";

/// Whether this is how the status goes on from a sign of life.
pub open spec fn goes_on_from_ping(run: ReadRun, action: ReadAction, end: PingEnd) -> bool {
    exists|check: Result<bool, ReadOutcome>| #[trigger]
        is_status(check, end) && match check {
            Err(outcome) => comes_to(run, action, outcome),
            Ok(up) => run.stage == (ReadStage::AwaitCounts { ok: up }) && action is Count,
        }
}

/// Whether this is how the read of a blob goes on from the instance that it belongs to.
pub open spec fn goes_on_from_instance(
    run: ReadRun,
    action: ReadAction,
    instance_id: String,
    name: String,
    owner: BlobOwner,
) -> bool {
    exists|check: Result<String, ReadOutcome>| #[trigger]
        is_installation(check, instance_id@, owner) && match check {
            Err(outcome) => comes_to(run, action, outcome),
            Ok(installation) => run.stage == (ReadStage::AwaitSlot {
                installation,
                instance_id,
                name,
            }) && action is TakeSlot,
        }
}

/// Whether this is how the read of a blob goes on from the place that was asked for.
pub open spec fn goes_on_from_slot(
    run: ReadRun,
    action: ReadAction,
    installation: String,
    instance_id: String,
    name: String,
    slot: BlobSlot,
) -> bool {
    exists|check: Result<(), ReadOutcome>| #[trigger]
        is_slot_check(check, slot) && match check {
            Err(outcome) => comes_to(run, action, outcome),
            Ok(()) => run.stage is AwaitBlob && action == (ReadAction::ReadBlob {
                installation,
                instance_id,
                name,
                max_bytes: BLOB_INLINE_MAX_BYTES,
            }),
        }
}

/// What follows an event that belongs to the stage, or does not.
pub open spec fn follows(
    stage: ReadStage,
    event: ReadEvent,
    run: ReadRun,
    action: ReadAction,
) -> bool {
    match (stage, event) {
        (ReadStage::AwaitDevices, ReadEvent::Devices(devices)) => writes_body(
            run,
            action,
            "devices list"@,
        ) && action == ReadAction::Encode(ResourceBody::Devices { devices }),
        (ReadStage::AwaitDevice { id }, ReadEvent::Device(found)) => match found {
            Some(detail) => writes_body(run, action, "device detail"@) && action
                == ReadAction::Encode(ResourceBody::Device(detail)),
            None => has_outcome(run, action) && is_missing(
                run.stage->outcome,
                no_device_text(id@),
            ),
        },
        (ReadStage::AwaitPlugins, ReadEvent::Listing { installed, running }) => writes_body(
            run,
            action,
            "plugins list"@,
        ) && (action matches ReadAction::Encode(ResourceBody::Plugins { plugins })
            && is_plugin_listing(plugins@, installed@, texts(running@))),
        (ReadStage::AwaitPlugin { id }, ReadEvent::Detail { installed, rows }) => if installed
            is None && instances_of_plugin(rows@, id@).len() == 0 {
            has_outcome(run, action) && is_missing(run.stage->outcome, no_plugin_text(id@))
        } else {
            writes_body(run, action, "plugin detail"@) && (action matches ReadAction::Encode(
                ResourceBody::Plugin(detail),
            ) && is_plugin_detail(detail, id@, installed, rows@))
        },
        (ReadStage::AwaitEvents, ReadEvent::Events(found)) => match found {
            Ok(rows) => writes_body(run, action, "events"@) && (action matches ReadAction::Encode(
                ResourceBody::Events { events },
            ) && are_event_rows(events@, rows@)),
            Err(failure) => has_outcome(run, action) && is_query_failure(
                run.stage->outcome,
                failure,
                "event"@,
            ),
        },
        (ReadStage::AwaitLogs, ReadEvent::Logs(found)) => match found {
            Ok(logs) => writes_body(run, action, "logs"@) && action == ReadAction::Encode(
                ResourceBody::Logs { logs },
            ),
            Err(failure) => has_outcome(run, action) && is_query_failure(
                run.stage->outcome,
                failure,
                "log"@,
            ),
        },
        (ReadStage::AwaitPing, ReadEvent::Ping(end)) => goes_on_from_ping(run, action, end),
        (ReadStage::AwaitCounts { ok }, ReadEvent::Counts(counts)) => writes_body(
            run,
            action,
            "status"@,
        ) && action == ReadAction::Encode(ResourceBody::Status { ok, counts }),
        (
            ReadStage::AwaitInstance { instance_id, name },
            ReadEvent::Instance(owner),
        ) => goes_on_from_instance(run, action, instance_id, name, owner),
        (
            ReadStage::AwaitSlot { installation, instance_id, name },
            ReadEvent::Slot(slot),
        ) => goes_on_from_slot(run, action, installation, instance_id, name, slot),
        (ReadStage::AwaitBlob, ReadEvent::Blob(read)) => has_outcome(run, action)
            && is_blob_outcome(run.stage->outcome, read),
        (ReadStage::AwaitBody { what }, ReadEvent::Encoded(end)) => has_outcome(run, action)
            && is_encoded(run.stage->outcome, end, what@),
        (ReadStage::AwaitRow { outcome }, ReadEvent::RowWrite(write)) => run.stage is Done && (
        action matches ReadAction::Answer(answer) && is_read_finish(
            answer,
            write,
            outcome,
            run.uri@,
        )),
        (_, _) => run.stage is Done && (action matches ReadAction::Answer(answer) && answer is Err
            && is_error(answer->Err_0, INTERNAL_ERROR_CODE, READ_OUT_OF_STEP_TEXT@)),
    }
}

/// One step of a read: what follows from what it waited for and what the host found.
pub open spec fn is_read_step(
    before: ReadRun,
    event: ReadEvent,
    after: ReadRun,
    action: ReadAction,
) -> bool {
    same_read(before, after) && follows(before.stage, event, after, action)
}

/// Takes a read one step further.
pub fn step_read(run: ReadRun, event: ReadEvent) -> (r: (ReadRun, ReadAction))
    requires
        event matches ReadEvent::Listing { running, .. } ==> running.len() <= u32::MAX,
        event matches ReadEvent::Blob(BlobRead::Found { bytes, .. }) ==> base64_len(bytes@.len())
            <= usize::MAX,
    ensures
        is_read_step(run, event, r.0, r.1),
{
    let ReadRun { uri, token_id, family, stage } = run;
    let (next, action) = match (stage, event) {
        (ReadStage::AwaitDevices, ReadEvent::Devices(devices)) => (
            ReadStage::AwaitBody { what: "devices list" },
            ReadAction::Encode(ResourceBody::Devices { devices }),
        ),
        (ReadStage::AwaitDevice { id }, ReadEvent::Device(found)) => {
            match devices_detail(id.as_str(), found) {
                Ok(detail) => (
                    ReadStage::AwaitBody { what: "device detail" },
                    ReadAction::Encode(ResourceBody::Device(detail)),
                ),
                Err(outcome) => return conclude(uri, token_id, family, outcome),
            }
        },
        (ReadStage::AwaitPlugins, ReadEvent::Listing { installed, running }) => (
            ReadStage::AwaitBody { what: "plugins list" },
            ReadAction::Encode(
                ResourceBody::Plugins { plugins: list_plugins(installed, &running) },
            ),
        ),
        (ReadStage::AwaitPlugin { id }, ReadEvent::Detail { installed, rows }) => {
            match plugins_detail(id.as_str(), installed, &rows) {
                Ok(detail) => (
                    ReadStage::AwaitBody { what: "plugin detail" },
                    ReadAction::Encode(ResourceBody::Plugin(detail)),
                ),
                Err(outcome) => return conclude(uri, token_id, family, outcome),
            }
        },
        (ReadStage::AwaitEvents, ReadEvent::Events(found)) => match found {
            Ok(rows) => (
                ReadStage::AwaitBody { what: "events" },
                ReadAction::Encode(ResourceBody::Events { events: event_rows(rows) }),
            ),
            Err(failure) => return conclude(uri, token_id, family, events_failure(failure)),
        },
        (ReadStage::AwaitLogs, ReadEvent::Logs(found)) => match found {
            Ok(logs) => (
                ReadStage::AwaitBody { what: "logs" },
                ReadAction::Encode(ResourceBody::Logs { logs }),
            ),
            Err(failure) => return conclude(uri, token_id, family, logs_failure(failure)),
        },
        (ReadStage::AwaitPing, ReadEvent::Ping(end)) => match status_ok(end) {
            Ok(ok) => (ReadStage::AwaitCounts { ok }, ReadAction::Count),
            Err(outcome) => return conclude(uri, token_id, family, outcome),
        },
        (ReadStage::AwaitCounts { ok }, ReadEvent::Counts(counts)) => (
            ReadStage::AwaitBody { what: "status" },
            ReadAction::Encode(ResourceBody::Status { ok, counts }),
        ),
        (ReadStage::AwaitInstance { instance_id, name }, ReadEvent::Instance(owner)) => {
            match blob_installation(instance_id.as_str(), owner) {
                Ok(installation) => (
                    ReadStage::AwaitSlot { installation, instance_id, name },
                    ReadAction::TakeSlot,
                ),
                Err(outcome) => return conclude(uri, token_id, family, outcome),
            }
        },
        (ReadStage::AwaitSlot { installation, instance_id, name }, ReadEvent::Slot(slot)) => {
            match blob_slot(slot) {
                Ok(()) => (
                    ReadStage::AwaitBlob,
                    ReadAction::ReadBlob {
                        installation,
                        instance_id,
                        name,
                        max_bytes: BLOB_INLINE_MAX_BYTES,
                    },
                ),
                Err(outcome) => return conclude(uri, token_id, family, outcome),
            }
        },
        (ReadStage::AwaitBlob, ReadEvent::Blob(read)) => {
            return conclude(uri, token_id, family, blob_outcome(read));
        },
        (ReadStage::AwaitBody { what }, ReadEvent::Encoded(end)) => {
            return conclude(uri, token_id, family, encode(end, what));
        },
        (ReadStage::AwaitRow { outcome }, ReadEvent::RowWrite(write)) => {
            let answer = finish_read(write, outcome, uri.as_str());
            (ReadStage::Done, ReadAction::Answer(answer))
        },
        (_, _) => {
            let err = mcp_error(INTERNAL_ERROR_CODE, READ_OUT_OF_STEP_TEXT.to_owned());
            (ReadStage::Done, ReadAction::Answer(Err(err)))
        },
    };
    (ReadRun { uri, token_id, family, stage: next }, action)
}

// ---------------------------------------------------------------------
// Laws
// ---------------------------------------------------------------------

/// The steps of one read in a row, each from where the one before it ended.
pub open spec fn is_read_run(
    start: (ReadRun, ReadAction),
    run: Seq<(ReadRun, ReadEvent, ReadRun, ReadAction)>,
) -> bool {
    &&& forall|i: int|
        0 <= i < run.len() ==> {
            let s = #[trigger] run[i];
            is_read_step(s.0, s.1, s.2, s.3)
        }
    &&& forall|i: int| 0 < i < run.len() ==> (#[trigger] run[i]).0 == run[i - 1].2
    &&& run.len() > 0 ==> run[0].0 == start.0
}

/// Nothing is handed out of a resource before the row of the read was written: what is answered
/// holds contents only where the step before had the row written, with the outcome that the
/// contents come from.
pub proof fn law_contents_follow_the_row(
    before: ReadRun,
    event: ReadEvent,
    after: ReadRun,
    action: ReadAction,
)
    requires
        is_read_step(before, event, after, action),
        action matches ReadAction::Answer(answer) && answer is Ok,
    ensures
        before.stage is AwaitRow,
        event == ReadEvent::RowWrite(LedgerWrite::Written),
        before.stage->outcome is OkText || before.stage->outcome is OkBlob,
{
}

/// A caller that lacks the scope of a resource gets nothing of the host: the first thing that is
/// done is to write the row of the refusal.
pub proof fn law_refused_reads_ask_nothing(
    start: (ReadRun, ReadAction),
    uri: Seq<char>,
    actor: ActorModel,
    now: i64,
    family: Seq<char>,
    scope: Seq<char>,
    kind: KindModel,
)
    requires
        is_run_start(start, uri, actor, true, now),
        route_of(uri) == (RouteModel::Found { family, scope, kind }),
        !scope_satisfied(scope, actor.scopes),
    ensures
        start.1 is WriteRow,
        start.0.stage->outcome is Denied,
{
}

/// A blob is read with the bound on what is handed out, after a place was found for it, and from
/// the installation that its instance belongs to.
pub proof fn law_blobs_are_read_within_bounds(
    before: ReadRun,
    event: ReadEvent,
    after: ReadRun,
    action: ReadAction,
)
    requires
        is_read_step(before, event, after, action),
        action is ReadBlob,
    ensures
        event == ReadEvent::Slot(BlobSlot::Free),
        action->max_bytes == BLOB_INLINE_MAX_BYTES,
        before.stage is AwaitSlot,
        action->ReadBlob_installation == before.stage->AwaitSlot_installation,
{
}

/// How many steps are left at most.
pub open spec fn reads_left(stage: ReadStage) -> nat {
    match stage {
        ReadStage::Done => 0,
        ReadStage::AwaitRow { .. } => 1,
        ReadStage::AwaitBody { .. } | ReadStage::AwaitBlob => 2,
        ReadStage::AwaitPing | ReadStage::AwaitInstance { .. } => 4,
        _ => 3,
    }
}

/// Every step brings a read closer to its end, so that it ends after four steps at most, with an
/// answer.
pub proof fn law_reads_come_to_an_end(
    start: (ReadRun, ReadAction),
    run: Seq<(ReadRun, ReadEvent, ReadRun, ReadAction)>,
    uri: Seq<char>,
    actor: ActorModel,
    ledger_free: bool,
    now: i64,
    i: int,
)
    requires
        is_run_start(start, uri, actor, ledger_free, now),
        is_read_run(start, run),
        0 <= i < run.len(),
    ensures
        reads_left(start.0.stage) <= 4,
        reads_left(run[i].2.stage) + i < 4 || run[i].2.stage is Done,
        run[i].2.stage is Done ==> run[i].3 is Answer,
        run[i].2.uri@ == uri,
        run[i].2.token_id@ == actor.id,
    decreases i,
{
    let s = run[i];
    assert(is_read_step(s.0, s.1, s.2, s.3));
    if i > 0 {
        assert(run[i].0 == run[i - 1].2);
        law_reads_come_to_an_end(start, run, uri, actor, ledger_free, now, i - 1);
    }
}

} // verus!
