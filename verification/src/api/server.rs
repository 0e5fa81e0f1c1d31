//! What the HTTP endpoints for devices, commands, events and readiness answer.

use vstd::prelude::*;

use crate::api::auth::{wit_error_kind, wit_error_name};
use crate::api::paging::{
    device_runs, is_page_length, lemma_runs_nonempty, page_devices, page_runs,
    DEFAULT_ALL_DEVICES_STATE_LIMIT, MAX_ALL_DEVICES_STATE_LIMIT,
};
use crate::api::reply::{denied_reply, plain, scope_denied, text_reply, Reply, ReplyModel};
use crate::api::scopes::{
    require_scope, scope_satisfied, Scope, ScopeDenied, DEVICES_COMMAND, DEVICES_READ,
};
use crate::api::wire::{
    command_result_to_wire, device_snapshot, entry_models, host_fields, is_sorted_wire,
    is_wire_event, payload_model, payload_topic, state_map, state_models, wire_error, wire_key_values, wire_states,
    DeviceStateEntry, DeviceStateSnapshot, WireCommandResult, WireEvent, WireKeyValue,
};
use crate::auth::Actor;
use crate::state::{key_values, Command, CommandResult, DeviceState, Event};
use crate::text::{decimal, opt_str, opt_text, u64_to_decimal};

verus! {

// ---------------------------------------------------------------------
// Readiness
// ---------------------------------------------------------------------

/// The answer to a readiness probe: the status code and the word that goes with it.
pub fn readyz(store_answers: bool) -> (r: (u16, &'static str))
    ensures
        store_answers ==> r.0 == 200 && r.1@ == "ok"@,
        !store_answers ==> r.0 == 503 && r.1@ == "not_ready"@,
{
    if store_answers {
        (200, "ok")
    } else {
        (503, "not_ready")
    }
}

// ---------------------------------------------------------------------
// Device state
// ---------------------------------------------------------------------

/// The size of a page: what is asked for, or the default where that is nothing, and never more
/// than the most.
pub open spec fn page_limit_of(limit: Option<usize>, default: usize, max: usize) -> usize {
    let wanted = match limit {
        Some(n) => if n > 0 {
            n
        } else {
            default
        },
        None => default,
    };
    if wanted <= max {
        wanted
    } else {
        max
    }
}

/// The size of a page.
pub fn page_limit(limit: Option<usize>, default: usize, max: usize) -> (r: usize)
    ensures
        r == page_limit_of(limit, default, max),
{
    let wanted: usize = match limit {
        Some(n) => {
            if n > 0 {
                n
            } else {
                default
            }
        },
        None => default,
    };
    if wanted <= max {
        wanted
    } else {
        max
    }
}

/// Whether an answer is the one to a caller who reads the state of a device: the state, or the
/// scope that is missing.
pub open spec fn is_state_answer(
    r: Result<DeviceStateSnapshot, ScopeDenied>,
    held: Seq<Seq<char>>,
    device_id: Seq<char>,
    epoch: Seq<char>,
    revision: u64,
    states: Seq<DeviceState>,
) -> bool {
    match r {
        Ok(snapshot) => scope_satisfied(DEVICES_READ@, held) && snapshot.device_id@ == device_id
            && snapshot.epoch@ == epoch && snapshot.revision == revision && is_sorted_wire(
            states,
            snapshot.capabilities@,
        ),
        Err(denied) => !scope_satisfied(DEVICES_READ@, held) && denied.required@ == DEVICES_READ@,
    }
}

/// The state of one device. `states` is what the store holds of it at `revision`.
pub fn get_device_state(
    actor: &Actor,
    device_id: &str,
    epoch: &str,
    revision: u64,
    states: Vec<DeviceState>,
) -> (r: Result<DeviceStateSnapshot, ScopeDenied>)
    ensures
        is_state_answer(r, actor@.scopes, device_id@, epoch@, revision, states@),
{
    match require_scope(actor, Scope::new(DEVICES_READ)) {
        Ok(()) => Ok(device_snapshot(device_id, epoch, revision, states)),
        Err(denied) => Err(denied),
    }
}

/// What the store says of a continuation cursor.
#[derive(Debug)]
pub enum CursorCheck {
    /// The cursor is not one of ours.
    Bad,
    /// The cursor is of an earlier run of the store.
    EpochChanged,
    /// The cursor is good: the pinned revision, and the last device of the page before.
    Valid { revision: u64, after_device_id: String },
}

/// Why no page of the state of all devices is answered.
#[derive(Debug)]
pub enum AllDevicesStateError {
    Scope(ScopeDenied),
    BadCursor,
    EpochChanged,
}

/// What is said of a cursor that is none.
pub const BAD_CURSOR_TEXT: &'static str =
    "invalid `cursor` — expected the opaque value returned as `next_cursor` on the previous page";

/// What is said of a cursor of an earlier run.
pub const EPOCH_CHANGED_TEXT: &'static str =
    "store `epoch` has changed since the cursor was issued (daemon restart); restart the resync from an unpinned request";

/// The answer to a request that failed.
pub open spec fn all_state_reply(err: AllDevicesStateError) -> ReplyModel {
    match err {
        AllDevicesStateError::Scope(denied) => denied_reply(denied.required@),
        AllDevicesStateError::BadCursor => text_reply(400, BAD_CURSOR_TEXT@),
        AllDevicesStateError::EpochChanged => text_reply(409, EPOCH_CHANGED_TEXT@),
    }
}

impl AllDevicesStateError {
    /// The answer to a request that failed.
    pub fn into_response(self) -> (r: Reply)
        ensures
            r@ == all_state_reply(self),
    {
        match self {
            AllDevicesStateError::Scope(denied) => scope_denied(denied),
            AllDevicesStateError::BadCursor => plain(400, BAD_CURSOR_TEXT),
            AllDevicesStateError::EpochChanged => plain(409, EPOCH_CHANGED_TEXT),
        }
    }
}

/// What is to be read for a page of the state of all devices.
#[derive(Debug)]
pub struct StatePagePlan {
    /// The device after which the page begins.
    pub after: Option<String>,
    /// How many devices go on the page.
    pub limit: usize,
    /// How many devices are to be read: one more, to see whether another page follows.
    pub fetch: usize,
    /// The revision that all pages of one run through the devices carry.
    pub pinned: Option<u64>,
}

/// Whether an answer is the one to a caller who reads the state of all devices: a plan, the scope
/// that is missing, or what is wrong with the cursor.
pub open spec fn is_page_answer(
    r: Result<StatePagePlan, AllDevicesStateError>,
    held: Seq<Seq<char>>,
    cursor: Option<CursorCheck>,
    limit: Option<usize>,
) -> bool {
    if !scope_satisfied(DEVICES_READ@, held) {
        r matches Err(AllDevicesStateError::Scope(denied)) && denied.required@ == DEVICES_READ@
    } else {
        match cursor {
            Some(CursorCheck::Bad) => r matches Err(AllDevicesStateError::BadCursor),
            Some(CursorCheck::EpochChanged) => r matches Err(AllDevicesStateError::EpochChanged),
            Some(CursorCheck::Valid { revision, after_device_id }) => r matches Ok(plan)
                && is_page_plan(plan, Some(after_device_id@), Some(revision), limit),
            None => r matches Ok(plan) && is_page_plan(plan, None, None, limit),
        }
    }
}

/// Prepares a page of the state of all devices. `cursor` is what the store says of the cursor of
/// the request, if it has one.
pub fn plan_all_device_state(
    actor: &Actor,
    cursor: Option<CursorCheck>,
    limit: Option<usize>,
) -> (r: Result<StatePagePlan, AllDevicesStateError>)
    ensures
        is_page_answer(r, actor@.scopes, cursor, limit),
{
    if let Err(denied) = require_scope(actor, Scope::new(DEVICES_READ)) {
        return Err(AllDevicesStateError::Scope(denied));
    }
    let size = page_limit(limit, DEFAULT_ALL_DEVICES_STATE_LIMIT, MAX_ALL_DEVICES_STATE_LIMIT);
    let (after, pinned) = match cursor {
        Some(CursorCheck::Bad) => return Err(AllDevicesStateError::BadCursor),
        Some(CursorCheck::EpochChanged) => return Err(AllDevicesStateError::EpochChanged),
        Some(CursorCheck::Valid { revision, after_device_id }) => (
            Some(after_device_id),
            Some(revision),
        ),
        None => (None, None),
    };
    Ok(StatePagePlan { after, limit: size, fetch: size + 1, pinned })
}

/// Whether a plan is that of a page with a limit after a device.
pub open spec fn is_page_plan(
    plan: StatePagePlan,
    after: Option<Seq<char>>,
    pinned: Option<u64>,
    limit: Option<usize>,
) -> bool {
    &&& opt_text(plan.after) == after
    &&& plan.pinned == pinned
    &&& plan.limit == page_limit_of(
        limit,
        DEFAULT_ALL_DEVICES_STATE_LIMIT,
        MAX_ALL_DEVICES_STATE_LIMIT,
    )
    &&& plan.fetch == plan.limit + 1
}

/// A page of the state of all devices.
#[derive(Debug)]
pub struct AllDevicesStateSnapshot {
    pub epoch: String,
    /// The revision from which a client goes on with the changes once it has all pages.
    pub revision: u64,
    /// The devices of the page, in order.
    pub devices: Vec<DeviceStateSnapshot>,
    /// The last device of the page, if another page follows: what the next cursor is made from.
    pub cursor_after: Option<String>,
}

/// Whether a snapshot is that of a device with these states.
pub open spec fn is_snapshot_of(
    snapshot: DeviceStateSnapshot,
    states: Seq<DeviceState>,
    epoch: Seq<char>,
    revision: u64,
) -> bool {
    &&& snapshot.device_id@ == states[0].device_id@
    &&& snapshot.epoch@ == epoch
    &&& snapshot.revision == revision
    &&& is_sorted_wire(states, snapshot.capabilities@)
}

/// Whether a page is the one that the states read from the store make: it holds as many of their
/// devices as go on a page, each with all its states, and names its last device if there are
/// more. It has the pinned revision, or the one of the store where none is pinned.
pub open spec fn is_state_page(
    page: AllDevicesStateSnapshot,
    limit: usize,
    pinned: Option<u64>,
    epoch: Seq<char>,
    current_revision: u64,
    entries: Seq<DeviceState>,
) -> bool {
    &&& page.epoch@ == epoch
    &&& page.revision == (match pinned {
        Some(revision) => revision,
        None => current_revision,
    })
    &&& is_page_length(device_runs(entries), page.devices.len() as int, limit as nat)
    &&& forall|i: int|
        0 <= i < page.devices.len() ==> is_snapshot_of(
            #[trigger] page.devices@[i],
            device_runs(entries)[i],
            epoch,
            page.revision,
        )
    &&& opt_text(page.cursor_after) == (if page.devices.len() < device_runs(entries).len() {
        Some(page.devices@.last().device_id@)
    } else {
        None
    })
}

/// The page that the states read from the store make.
pub fn all_device_state_page(
    limit: usize,
    pinned: Option<u64>,
    epoch: String,
    current_revision: u64,
    entries: Vec<DeviceState>,
) -> (r: AllDevicesStateSnapshot)
    requires
        limit > 0,
    ensures
        is_state_page(r, limit, pinned, epoch@, current_revision, entries@),
{
    let revision: u64 = match pinned {
        Some(revision) => revision,
        None => current_revision,
    };
    let ghost runs = device_runs(entries@);
    let page = page_devices(entries, limit);
    let ghost kept = page.devices@;
    proof {
        lemma_runs_nonempty(entries@);
    }
    let more = page.more;
    let mut rest = page.devices;
    let mut devices: Vec<DeviceStateSnapshot> = Vec::new();
    assert(kept.skip(0) =~= kept);
    while rest.len() > 0
        invariant
            rest.len() + devices.len() == kept.len(),
            rest@ == kept.skip(devices.len() as int),
            kept.len() <= runs.len(),
            page_runs(kept) == runs.take(kept.len() as int),
            forall|k: int| 0 <= k < runs.len() ==> (#[trigger] runs[k]).len() > 0,
            forall|i: int|
                0 <= i < devices.len() ==> is_snapshot_of(
                    #[trigger] devices@[i],
                    runs[i],
                    epoch@,
                    revision,
                ),
        decreases rest.len(),
    {
        let ghost done = devices.len() as int;
        let states = rest.remove(0);
        proof {
            assert(states == kept[done]);
            assert(rest@ =~= kept.skip(done + 1));
            assert(page_runs(kept)[done] == states@);
            assert(runs[done] == states@);
        }
        let device_id = states[0].device_id.clone();
        devices.push(device_snapshot(device_id.as_str(), epoch.as_str(), revision, states));
    }
    let n = devices.len();
    let cursor_after = if more && n > 0 {
        Some(devices[n - 1].device_id.clone())
    } else {
        None
    };
    AllDevicesStateSnapshot { epoch, revision, devices, cursor_after }
}

/// The entries of a page of changes when the caller does not say.
pub const DEFAULT_STATE_CHANGES_LIMIT: usize = 256;

/// The most entries of a page of changes.
pub const MAX_STATE_CHANGES_LIMIT: usize = 1024;

/// Whether a plan of a page of changes is the one for a revision and a limit.
pub open spec fn is_changes_plan(
    plan: (u64, usize),
    since_revision: Option<u64>,
    limit: Option<usize>,
) -> bool {
    &&& plan.0 == (match since_revision {
        Some(since) => since,
        None => 0,
    })
    &&& plan.1 == page_limit_of(limit, DEFAULT_STATE_CHANGES_LIMIT, MAX_STATE_CHANGES_LIMIT)
}

/// Whether an answer is the one to a caller who reads changes: a plan, or the scope that is
/// missing.
pub open spec fn is_changes_answer(
    r: Result<(u64, usize), ScopeDenied>,
    held: Seq<Seq<char>>,
    since_revision: Option<u64>,
    limit: Option<usize>,
) -> bool {
    match r {
        Ok(plan) => scope_satisfied(DEVICES_READ@, held) && is_changes_plan(
            plan,
            since_revision,
            limit,
        ),
        Err(denied) => !scope_satisfied(DEVICES_READ@, held) && denied.required@ == DEVICES_READ@,
    }
}

/// Prepares a page of changes: the revision after which it begins and the number of entries.
pub fn plan_state_changes(
    actor: &Actor,
    since_revision: Option<u64>,
    limit: Option<usize>,
) -> (r: Result<(u64, usize), ScopeDenied>)
    ensures
        is_changes_answer(r, actor@.scopes, since_revision, limit),
{
    match require_scope(actor, Scope::new(DEVICES_READ)) {
        Ok(()) => {
            let since: u64 = match since_revision {
                Some(since) => since,
                None => 0,
            };
            Ok((since, page_limit(limit, DEFAULT_STATE_CHANGES_LIMIT, MAX_STATE_CHANGES_LIMIT)))
        },
        Err(denied) => Err(denied),
    }
}

/// A page of changes.
#[derive(Debug)]
pub struct StateChangesBody {
    pub epoch: String,
    pub current_revision: u64,
    pub changes: Vec<DeviceStateEntry>,
    /// Whether the caller's revision is void and it has to read everything again.
    pub reset_required: bool,
}

/// Whether a page of changes is the one that the store answered.
pub open spec fn is_changes_body(
    body: StateChangesBody,
    epoch: Seq<char>,
    current_revision: u64,
    reset_required: bool,
    entries: Seq<DeviceState>,
) -> bool {
    &&& body.epoch@ == epoch
    &&& body.current_revision == current_revision
    &&& body.reset_required == reset_required
    &&& entry_models(body.changes@) == state_models(entries)
}

/// The page that the changes read from the store make.
pub fn state_changes_body(
    epoch: String,
    current_revision: u64,
    reset_required: bool,
    entries: Vec<DeviceState>,
) -> (r: StateChangesBody)
    ensures
        is_changes_body(r, epoch@, current_revision, reset_required, entries@),
        r.epoch == epoch,
        r.current_revision == current_revision,
        r.reset_required == reset_required,
        entry_models(r.changes@) == state_models(entries@),
{
    StateChangesBody { epoch, current_revision, changes: wire_states(&entries), reset_required }
}

// ---------------------------------------------------------------------
// Commands
// ---------------------------------------------------------------------

/// A command as a caller sends it.
#[derive(Debug)]
pub struct CommandBody {
    pub capability: String,
    pub action: String,
    pub args: Vec<WireKeyValue>,
}

/// Whether a command for a plugin is the one of a request.
pub open spec fn is_host_command(command: Command, body: CommandBody) -> bool {
    &&& command.capability@ == body.capability@
    &&& command.action@ == body.action@
    &&& key_values(command.args@) == wire_key_values(body.args@)
}

/// The command for the plugin.
pub fn host_command(body: CommandBody) -> (r: Command)
    ensures
        is_host_command(r, body),
        r.capability == body.capability,
        r.action == body.action,
        key_values(r.args@) == wire_key_values(body.args@),
{
    Command { capability: body.capability, action: body.action, args: host_fields(body.args) }
}

/// Why a command did not reach a plugin.
#[derive(Debug)]
pub enum CommandError {
    Scope(ScopeDenied),
    NotFound,
    /// The instance crashed or could not be reached.
    Dispatch,
}

/// The answer to a command that did not reach a plugin.
pub open spec fn command_error_reply(err: CommandError) -> ReplyModel {
    match err {
        CommandError::Scope(denied) => denied_reply(denied.required@),
        CommandError::NotFound => text_reply(404, ""@),
        CommandError::Dispatch => text_reply(500, "internal error"@),
    }
}

impl CommandError {
    /// The answer to a command that did not reach a plugin.
    pub fn into_response(self) -> (r: Reply)
        ensures
            r@ == command_error_reply(self),
    {
        match self {
            CommandError::Scope(denied) => scope_denied(denied),
            CommandError::NotFound => plain(404, ""),
            CommandError::Dispatch => plain(500, "internal error"),
        }
    }
}

/// Whether a check is the one of a caller who sends a command to a device.
pub open spec fn is_command_check(
    r: Result<(), CommandError>,
    held: Seq<Seq<char>>,
    owner_runs: Option<bool>,
) -> bool {
    if !scope_satisfied(DEVICES_COMMAND@, held) {
        r matches Err(CommandError::Scope(denied)) && denied.required@ == DEVICES_COMMAND@
    } else if owner_runs == Some(true) {
        r is Ok
    } else {
        r matches Err(CommandError::NotFound)
    }
}

/// Whether a command may be dispatched. `owner_runs` tells for the owner of the device, if the
/// device has one, whether it runs. A device that does not exist and one whose owner does not run
/// are not told apart.
pub fn check_command(actor: &Actor, owner_runs: Option<bool>) -> (r: Result<(), CommandError>)
    ensures
        is_command_check(r, actor@.scopes, owner_runs),
{
    if let Err(denied) = require_scope(actor, Scope::new(DEVICES_COMMAND)) {
        return Err(CommandError::Scope(denied));
    }
    match owner_runs {
        Some(true) => Ok(()),
        _ => Err(CommandError::NotFound),
    }
}

/// The answer to a command that reached a plugin. The answer itself is a success; what the plugin
/// reported goes to the ledger apart from it.
#[derive(Debug)]
pub struct CommandReply {
    pub body: WireCommandResult,
    /// The kind of error that the plugin reported.
    pub domain_error: Option<&'static str>,
}

/// Whether an answer is the one of a plugin, with the kind of its error for the ledger.
pub open spec fn is_command_reply(reply: CommandReply, result: CommandResult) -> bool {
    match result {
        CommandResult::Done => reply.body is Done && reply.domain_error is None,
        CommandResult::OkWithState(list) => (reply.body matches WireCommandResult::OkWithState {
            state,
        } && state@ == state_map(list@)) && reply.domain_error is None,
        CommandResult::Failed(e) => reply.body == (WireCommandResult::Failed {
            error: wire_error(e),
        }) && opt_str(reply.domain_error) == Some(wit_error_name(e)),
    }
}

/// The answer to a command that reached a plugin.
pub fn command_reply(result: CommandResult) -> (r: CommandReply)
    ensures
        is_command_reply(r, result),
{
    let domain_error = match &result {
        CommandResult::Failed(err) => Some(wit_error_kind(err)),
        _ => None,
    };
    CommandReply { body: command_result_to_wire(result), domain_error }
}

// ---------------------------------------------------------------------
// The event stream
// ---------------------------------------------------------------------

/// What says that events were skipped.
pub open spec fn lagged_text(skipped: u64) -> Seq<char> {
    "{\"lagged\":"@ + decimal(skipped as nat) + "}"@
}

/// Whether frames are those for an event of the bus.
pub open spec fn are_tail_frames(
    r: (Option<String>, WireEvent),
    event: Event,
    skipped_before: u64,
) -> bool {
    &&& opt_text(r.0) == (if skipped_before > 0 {
        Some(lagged_text(skipped_before))
    } else {
        None
    })
    &&& is_wire_event(r.1, event)
}

/// The frames for an event of the bus: first the notice that events before it were skipped, if
/// any were, and then the event.
pub fn tail_frames(event: &Event, skipped_before: u64) -> (r: (Option<String>, WireEvent))
    ensures
        are_tail_frames(r, *event, skipped_before),
        r.1.id == event.row_id,
        opt_text(r.1.device_id) == opt_text(event.device),
        r.1.timestamp_ms == event.timestamp,
        r.1.topic@ == payload_topic(event.payload),
        r.1.origin_plugin_id@ == event.origin_plugin_id@,
        r.1.origin_instance_id@ == event.origin_instance_id@,
        r.1.payload@ == payload_model(event.payload),
{
    let notice = if skipped_before > 0 {
        let mut out = "{\"lagged\":".to_owned();
        out.append(u64_to_decimal(skipped_before).as_str());
        out.append("}");
        Some(out)
    } else {
        None
    };
    (notice, WireEvent::from_host(event))
}

} // verus!
