//! What a read of a resource asks for, answers and records.

use vstd::prelude::*;
use vstd::utf8::*;

use crate::api::encode::{law_percent_reads_back, percent_decoded, percent_text};
use crate::api::mcp::contents::{
    base64_len, base64_of, blob_address_of, is_blob_outcome, is_encoded, is_installation,
    is_plugin_detail, is_query_failure, is_status, BlobOwner, BlobRead, BlobSlot, EncodeEnd,
    InstalledDetail, InstanceRow, PingEnd, StoreFailure,
};
use crate::api::mcp::error::McpError;
use crate::api::mcp::filters::{is_events_read, is_logs_read};
use crate::api::mcp::read_runs::{
    asks_first, is_read_step, is_run_start, ReadAction, ReadEvent, ReadRun, ReadStage, ResourceBody,
};
use crate::api::mcp::resources::{
    is_read_finish, is_read_result, outcome_status, read_row, route_of, Contents, KindModel,
    LedgerWrite, ReadOutcome, ReadResult, RouteModel,
};
use crate::api::plugins::is_plugin_listing;
use crate::api::queries::are_event_rows;
use crate::api::scopes::scope_satisfied;
use crate::auth::ActorModel;
use crate::laws::calls::lemma_plugin_has_instances;
use crate::text::{opt_text, texts};

verus! {

// ---------------------------------------------------------------------
// Answers and rows
// ---------------------------------------------------------------------

/// The code that goes with a status on the ledger.
pub open spec fn read_code_with_status(status: u16) -> int {
    if status == 400 {
        -32602
    } else if status == 403 {
        -32001
    } else if status == 404 {
        -32002
    } else if status == 413 {
        -32003
    } else if status == 503 {
        -32004
    } else {
        -32603
    }
}

/// What a caller is answered is what the ledger records: contents go with 200, and each error with
/// the status of its code.
pub proof fn law_read_answers_match_the_record(
    r: Result<ReadResult, McpError>,
    outcome: ReadOutcome,
    uri: Seq<char>,
)
    requires
        is_read_result(r, outcome, uri),
    ensures
        r is Ok <==> outcome_status(outcome) == 200,
        r matches Err(err) ==> err.code == read_code_with_status(outcome_status(outcome)),
        outcome_status(outcome) == 200 || outcome_status(outcome) == 400 || outcome_status(outcome)
            == 403 || outcome_status(outcome) == 404 || outcome_status(outcome) == 413
            || outcome_status(outcome) == 503 || outcome_status(outcome) == 500,
{
}

/// A caller gets the contents under the address that it asked for, and an error in its own words;
/// only a missing scope is not named.
pub proof fn law_contents_come_under_their_address(
    r: Result<ReadResult, McpError>,
    outcome: ReadOutcome,
    uri: Seq<char>,
)
    requires
        is_read_result(r, outcome, uri),
    ensures
        r matches Ok(result) ==> result.uri@ == uri,
        outcome matches ReadOutcome::OkText { body, mime } ==> (r matches Ok(result)
            && result.contents matches Contents::Text { body: b, mime: m } && b@ == body@ && m@
            == mime@),
        outcome matches ReadOutcome::OkBlob { blob_b64, mime } ==> (r matches Ok(result)
            && result.contents matches Contents::Blob { blob_b64: b, mime: m } && b@ == blob_b64@
            && opt_text(m) == opt_text(mime)),
        outcome matches ReadOutcome::NotFound(words) ==> (r matches Err(err) && err.message@
            == words@),
        outcome matches ReadOutcome::InvalidParams(words) ==> (r matches Err(err) && err.message@
            == words@),
        outcome matches ReadOutcome::TooLarge(words) ==> (r matches Err(err) && err.message@
            == words@),
        outcome matches ReadOutcome::Busy(words) ==> (r matches Err(err) && err.message@ == words@),
        outcome matches ReadOutcome::Internal(words) ==> (r matches Err(err) && err.message@
            == words@),
        outcome is Denied ==> (r matches Err(err) && err.message@
            == "scope denied for MCP resource"@),
{
}

/// Nothing is handed out that is not on the ledger: where the row cannot be written the caller
/// gets an error, whatever was read.
pub proof fn law_unrecorded_reads_are_refused(
    r: Result<ReadResult, McpError>,
    write: LedgerWrite,
    outcome: ReadOutcome,
    uri: Seq<char>,
)
    requires
        is_read_finish(r, write, outcome, uri),
    ensures
        r is Ok <==> write == LedgerWrite::Written && outcome_status(outcome) == 200,
        write != LedgerWrite::Written ==> (r matches Err(err) && err.code == -32603),
        write == LedgerWrite::Written ==> is_read_result(r, outcome, uri),
{
    if write == LedgerWrite::Written {
        law_read_answers_match_the_record(r, outcome, uri);
    }
}

/// The row of a read names the caller, the kind of resource and the surface, and says who was at
/// fault.
pub proof fn law_read_rows_name_caller_and_resource(
    token_id: Seq<char>,
    family: Seq<char>,
    outcome: ReadOutcome,
)
    ensures
        ({
            let row = read_row(token_id, family, outcome);
            &&& row.token_id == token_id
            &&& row.path == "mcp.resource."@ + family
            &&& row.actor_kind == "mcp"@
            &&& row.method == "MCP"@
            &&& row.status == outcome_status(outcome)
            &&& row.decision == (if outcome is OkText || outcome is OkBlob {
                "allow"@
            } else if outcome is Busy || outcome is Internal {
                "error"@
            } else {
                "deny"@
            })
            &&& row.required_scope is Some <==> outcome is Denied
            &&& row.execution_outcome is None && row.domain_error is None && row.credential_fp
                is None && row.finalized_ms is None
            &&& outcome matches ReadOutcome::Denied { required } ==> row.required_scope == Some(
                required@,
            )
        }),
{
}

// ---------------------------------------------------------------------
// What is asked of the host
// ---------------------------------------------------------------------

/// A read asks for what its address names, and for nothing where the caller may not read it.
pub proof fn law_reads_ask_for_what_is_addressed(
    r: (ReadRun, ReadAction),
    uri: Seq<char>,
    actor: ActorModel,
    now: i64,
    family: Seq<char>,
    scope: Seq<char>,
    kind: KindModel,
)
    requires
        is_run_start(r, uri, actor, true, now),
        route_of(uri) == (RouteModel::Found { family, scope, kind }),
    ensures
        r.0.uri@ == uri,
        r.0.token_id@ == actor.id,
        r.0.family@ == family,
        !scope_satisfied(scope, actor.scopes) ==> (r.1 matches ReadAction::WriteRow(row)
            && row@.status == 403 && row@.required_scope == Some(scope) && row@.token_id
            == actor.id),
        scope_satisfied(scope, actor.scopes) ==> match kind {
            KindModel::DevicesList => r.1 is ListDevices,
            KindModel::DevicesDetail(id) => r.1 matches ReadAction::LookUpDevice { id: i } && i@
                == id,
            KindModel::PluginsList => r.1 is ListPlugins,
            KindModel::PluginsDetail(id) => r.1 matches ReadAction::LookUpPlugin { id: i } && i@
                == id,
            KindModel::Events(_) => r.1 is QueryEvents || r.1 is WriteRow,
            KindModel::Logs(_) => r.1 is QueryLogs || r.1 is WriteRow,
            KindModel::Status => r.1 is Ping,
            KindModel::Blob(_, _) => r.1 is FindInstance || r.1 is WriteRow,
        },
{
}

/// An address that leads nowhere is answered as one that is not there, and is on the ledger as
/// such; where the ledger takes nothing, nothing is read.
pub proof fn law_unknown_addresses_are_recorded(
    r: (ReadRun, ReadAction),
    uri: Seq<char>,
    actor: ActorModel,
    ledger_free: bool,
    now: i64,
)
    requires
        is_run_start(r, uri, actor, ledger_free, now),
        route_of(uri) is Nowhere,
    ensures
        ledger_free ==> (r.0.stage matches ReadStage::AwaitRow { outcome } && outcome is NotFound)
            && (r.1 matches ReadAction::WriteRow(row) && row@.status == 404 && row@.token_id
            == actor.id),
        ledger_free ==> (route_of(uri) matches RouteModel::Nowhere { family, reason }
            && r.0.family@ == family),
        !ledger_free ==> r.0.stage is Done && (r.1 matches ReadAction::Answer(answer)
            && answer matches Err(err) && err.code == -32004),
{
}

/// The address of a blob reads back as the instance and the name that were written into it, also
/// where these hold slashes, spaces or other characters.
pub proof fn law_blob_addresses_read_back(instance: Seq<char>, name: Seq<char>)
    ensures
        blob_address_of(percent_text(encode_utf8(instance)), percent_text(encode_utf8(name)))
            == Ok::<(Seq<char>, Seq<char>), Seq<char>>((instance, name)),
{
    law_percent_reads_back(instance);
    law_percent_reads_back(name);
}

/// A blob is read from the installation and the instance that were found, under the name of the
/// address, and only while there is room.
pub proof fn law_blobs_are_read_where_they_are(
    before: ReadRun,
    installation: String,
    instance_id: String,
    name: String,
    slot: BlobSlot,
    after: ReadRun,
    action: ReadAction,
)
    requires
        before.stage == (ReadStage::AwaitSlot { installation, instance_id, name }),
        is_read_step(before, ReadEvent::Slot(slot), after, action),
    ensures
        action is ReadBlob <==> slot == BlobSlot::Free,
        action matches ReadAction::ReadBlob {
            installation: u,
            instance_id: i,
            name: n,
            max_bytes,
        } ==> u@ == installation@ && i@ == instance_id@ && n@ == name@ && max_bytes == 4_194_304,
        slot == BlobSlot::Full ==> after.stage->AwaitRow_outcome is Busy,
{
}

/// The instance of a blob has to run and to be loaded.
pub proof fn law_blobs_belong_to_loaded_instances(
    before: ReadRun,
    instance_id: String,
    name: String,
    owner: BlobOwner,
    after: ReadRun,
    action: ReadAction,
)
    requires
        before.stage == (ReadStage::AwaitInstance { instance_id, name }),
        is_read_step(before, ReadEvent::Instance(owner), after, action),
    ensures
        owner matches BlobOwner::Loaded(uuid) ==> action is TakeSlot && (after.stage matches
            ReadStage::AwaitSlot { installation, instance_id: i, name: n } && installation@
            == uuid@ && i@ == instance_id@ && n@ == name@),
        !(owner is Loaded) ==> after.stage->AwaitRow_outcome is NotFound,
{
}

/// An instance that is not there is told from one that is not loaded yet, and what is missing is
/// named.
pub proof fn law_missing_instances_are_told_apart(
    absent: Result<String, ReadOutcome>,
    loading: Result<String, ReadOutcome>,
    instance_id: Seq<char>,
)
    requires
        is_installation(absent, instance_id, BlobOwner::Absent),
        is_installation(loading, instance_id, BlobOwner::Loading),
    ensures
        absent matches Err(ReadOutcome::NotFound(a)) && (loading matches Err(ReadOutcome::NotFound(
            b,
        )) && a@.len() < b@.len() && a@.take((10 + instance_id.len()) as int) == "instance `"@
            + instance_id && b@.take((10 + instance_id.len()) as int) == "instance `"@ + instance_id),
{
    reveal_strlit("instance `");
    reveal_strlit("` is not running");
    reveal_strlit("` is not yet loaded; retry once its state is `Running`");
    let a = "instance `"@ + instance_id + "` is not running"@;
    let b = "instance `"@ + instance_id
        + "` is not yet loaded; retry once its state is `Running`"@;
    assert(a.take((10 + instance_id.len()) as int) =~= "instance `"@ + instance_id);
    assert(b.take((10 + instance_id.len()) as int) =~= "instance `"@ + instance_id);
}

// ---------------------------------------------------------------------
// Bodies
// ---------------------------------------------------------------------

/// What the host answers is what goes into the body: the devices, the detail, the events, the log
/// entries and the counts that it gave.
pub proof fn law_bodies_hold_what_the_host_gave(
    before: ReadRun,
    event: ReadEvent,
    after: ReadRun,
    action: ReadAction,
)
    requires
        is_read_step(before, event, after, action),
    ensures
        after.uri@ == before.uri@,
        after.token_id@ == before.token_id@,
        after.family@ == before.family@,
        (before.stage is AwaitDevices && event is Devices) ==> action == ReadAction::Encode(
            ResourceBody::Devices { devices: event->Devices_0 },
        ),
        before.stage is AwaitDevice && (event matches ReadEvent::Device(Some(detail))) ==> (
        action matches ReadAction::Encode(ResourceBody::Device(d)) && event == ReadEvent::Device(
            Some(d),
        )),
        before.stage is AwaitDevice && (event matches ReadEvent::Device(None)) ==> (after.stage
            matches ReadStage::AwaitRow { outcome } && outcome is NotFound),
        before.stage is AwaitEvents && (event matches ReadEvent::Events(Ok(rows))) ==> (action
            matches ReadAction::Encode(ResourceBody::Events { events }) && are_event_rows(
            events@,
            event->Events_0->Ok_0@,
        )),
        before.stage is AwaitLogs && (event matches ReadEvent::Logs(Ok(rows))) ==> (action matches
            ReadAction::Encode(ResourceBody::Logs { logs }) && logs == event->Logs_0->Ok_0),
        before.stage is AwaitCounts && event is Counts ==> action == ReadAction::Encode(
            ResourceBody::Status { ok: before.stage->ok, counts: event->Counts_0 },
        ),
{
}

/// What else the host answers: the listing goes into the body as it was made, a sign of life is
/// followed by the counts, and a failing store by what is said of it. A blob and a body end the
/// read.
pub proof fn law_reads_go_on_with_what_was_found(
    before: ReadRun,
    event: ReadEvent,
    after: ReadRun,
    action: ReadAction,
)
    requires
        is_read_step(before, event, after, action),
    ensures
        before.stage is AwaitPlugins && event is Listing ==> (action matches ReadAction::Encode(
            ResourceBody::Plugins { plugins },
        ) && is_plugin_listing(plugins@, event->Listing_installed@, texts(event->Listing_running@))),
        before.stage is AwaitPing && event is Ping ==> if event->Ping_0 == PingEnd::Broken {
            after.stage matches ReadStage::AwaitRow { outcome } && outcome is Internal
        } else {
            action is Count && after.stage == (ReadStage::AwaitCounts {
                ok: event->Ping_0 == PingEnd::Answered,
            })
        },
        before.stage is AwaitEvents && (event matches ReadEvent::Events(Err(_))) ==> (
        after.stage matches ReadStage::AwaitRow { outcome } && is_query_failure(
            outcome,
            event->Events_0->Err_0,
            "event"@,
        )),
        before.stage is AwaitLogs && (event matches ReadEvent::Logs(Err(_))) ==> (after.stage
            matches ReadStage::AwaitRow { outcome } && is_query_failure(
            outcome,
            event->Logs_0->Err_0,
            "log"@,
        )),
        before.stage is AwaitBlob && event is Blob ==> (after.stage matches ReadStage::AwaitRow {
            outcome,
        } && is_blob_outcome(outcome, event->Blob_0)),
        before.stage is AwaitBody && event is Encoded ==> (after.stage matches ReadStage::AwaitRow {
            outcome,
        } && is_encoded(outcome, event->Encoded_0, before.stage->what@)),
        before.stage is AwaitRow && event is RowWrite ==> after.stage is Done && (action matches
            ReadAction::Answer(answer) && is_read_finish(
            answer,
            event->RowWrite_0,
            before.stage->outcome,
            before.uri@,
        )),
{
}

/// What a read came to is what its row says, whatever it came to.
pub proof fn law_rows_say_what_reads_came_to(
    before: ReadRun,
    event: ReadEvent,
    after: ReadRun,
    action: ReadAction,
)
    requires
        is_read_step(before, event, after, action),
        after.stage is AwaitRow,
    ensures
        action matches ReadAction::WriteRow(row) && row@ == read_row(
            before.token_id@,
            before.family@,
            after.stage->outcome,
        ),
{
}

/// The detail of a plugin is read exactly where the plugin is installed or an instance of it runs.
pub proof fn law_known_plugins_are_read(
    before: ReadRun,
    id: String,
    installed: Option<InstalledDetail>,
    rows: Vec<InstanceRow>,
    after: ReadRun,
    action: ReadAction,
)
    requires
        before.stage == (ReadStage::AwaitPlugin { id }),
        is_read_step(before, ReadEvent::Detail { installed, rows }, after, action),
    ensures
        action is Encode <==> installed is Some || exists|k: int|
            0 <= k < rows.len() && (#[trigger] rows@[k]).plugin_id@ == id@,
        action matches ReadAction::Encode(body) ==> (body matches ResourceBody::Plugin(detail)
            && is_plugin_detail(detail, id@, installed, rows@)),
        !(action is Encode) ==> (after.stage matches ReadStage::AwaitRow { outcome }
            && outcome is NotFound),
{
    lemma_plugin_has_instances(rows@, id@);
}

/// A history is queried with the plan that its address makes, and a blob is looked for under the
/// instance that its address names; an address that makes none is refused.
pub proof fn law_addresses_make_the_plan(
    run: ReadRun,
    action: ReadAction,
    kind: KindModel,
    now: i64,
)
    requires
        asks_first(run, action, kind, now),
    ensures
        kind matches KindModel::Events(raw) ==> if action is WriteRow {
            run.stage matches ReadStage::AwaitRow { outcome } && outcome is InvalidParams
        } else {
            action matches ReadAction::QueryEvents { query, limit } && is_events_read(
                Ok((query, limit)),
                raw,
                now,
            )
        },
        kind matches KindModel::Logs(raw) ==> if action is WriteRow {
            run.stage matches ReadStage::AwaitRow { outcome } && outcome is InvalidParams
        } else {
            action matches ReadAction::QueryLogs { query, limit } && is_logs_read(
                Ok((query, limit)),
                raw,
                now,
            )
        },
        kind matches KindModel::DevicesDetail(id) ==> (run.stage matches ReadStage::AwaitDevice {
            id: i,
        } && i@ == id),
        kind matches KindModel::PluginsDetail(id) ==> (run.stage matches ReadStage::AwaitPlugin {
            id: i,
        } && i@ == id),
        kind matches KindModel::Blob(instance, name) ==> (action is FindInstance
            <==> percent_decoded(instance) is Ok && percent_decoded(name) is Ok),
        kind matches KindModel::Blob(instance, name) ==> (action matches ReadAction::FindInstance {
            instance_id,
        } ==> percent_decoded(instance) == Ok::<Seq<char>, Seq<char>>(instance_id@) && (run.stage
            matches ReadStage::AwaitInstance { instance_id: i, name: n } && i@ == instance_id@
            && percent_decoded(name) == Ok::<Seq<char>, Seq<char>>(n@))),
{
}

/// The status of the host is good exactly when the store answered.
pub proof fn law_status_follows_the_store(r: Result<bool, ReadOutcome>, end: PingEnd)
    requires
        is_status(r, end),
    ensures
        r matches Ok(ok) ==> (ok <==> end == PingEnd::Answered),
        r is Ok <==> end != PingEnd::Broken,
        r matches Err(outcome) ==> outcome is Internal,
{
}

/// A resource answers with the very text that was written, where that is not too long.
pub proof fn law_resource_bodies_are_what_was_written(
    r: ReadOutcome,
    end: EncodeEnd,
    what: Seq<char>,
)
    requires
        is_encoded(r, end, what),
    ensures
        r matches ReadOutcome::OkText { body, mime } ==> mime@ == "application/json"@ && (end
            matches EncodeEnd::Written(writer) && encode_utf8(body@) == writer@.bytes
            && writer@.bytes.len() <= 3_670_016),
        r is OkText || r is TooLarge || r is Internal,
        end is CapReached ==> r is TooLarge,
        end is Failed ==> r is Internal,
        r is TooLarge ==> end is CapReached || (end matches EncodeEnd::Written(writer)
            && writer@.bytes.len() > 3_670_016),
        end matches EncodeEnd::Written(writer) ==> (writer@.bytes.len() <= 3_670_016 && valid_utf8(
            writer@.bytes,
        ) ==> r is OkText),
{
    if let EncodeEnd::Written(writer) = end {
        if valid_utf8(writer@.bytes) {
            decode_utf8_encode_utf8(writer@.bytes);
        }
    }
}

/// A blob is handed out with its bytes in Base64 and its own type, where it fits into an answer:
/// four characters for every three bytes that were begun.
pub proof fn law_blobs_are_handed_out_whole(r: ReadOutcome, read: BlobRead)
    requires
        is_blob_outcome(r, read),
    ensures
        r matches ReadOutcome::OkBlob { blob_b64, mime } ==> (read matches BlobRead::Found {
            bytes,
            mime: m,
        } && blob_b64@ == base64_of(bytes@) && opt_text(mime) == opt_text(m)),
        read matches BlobRead::Found { bytes, mime } ==> (mime is None && 3 * base64_len(
            bytes@.len(),
        ) <= 4 * (bytes@.len() + 2) && bytes@.len() <= 4_194_304 ==> r is OkBlob),
        read matches BlobRead::Found { .. } ==> r is OkBlob || r is TooLarge,
        read is NotFound <==> r is NotFound,
        read is TooLarge ==> r is TooLarge,
        read is Failed || read is Broken <==> r is Internal,
{
}

/// A blob is handed out exactly where it fits: its Base64 text, its type and what stands around
/// them.
pub proof fn law_blobs_that_fit_are_handed_out(r: ReadOutcome, bytes: Vec<u8>, mime: Option<String>)
    requires
        is_blob_outcome(r, BlobRead::Found { bytes, mime }),
    ensures
        r is OkBlob <==> 4 * ((bytes@.len() + 2) / 3) + (match mime {
            Some(m) => encode_utf8(m@).len() as int,
            None => 0,
        }) + 1_024 <= 5_767_168,
{
}

/// A store that is busy is told from one that fails.
pub proof fn law_busy_reads_are_told_from_failing_ones(
    r: ReadOutcome,
    failure: StoreFailure,
    what: Seq<char>,
)
    requires
        is_query_failure(r, failure, what),
    ensures
        failure == StoreFailure::Saturated <==> r is Busy,
        failure != StoreFailure::Saturated <==> r is Internal,
{
}

} // verus!
