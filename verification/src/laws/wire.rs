//! What goes out over the wire is what is stored or was reported, field by field.

use vstd::prelude::*;

use crate::api::queries::{is_event_row, is_log_row};
use crate::api::server::is_snapshot_of;
use crate::api::wire::{
    entry_models, host_value, is_sorted_wire, is_wire_event, payload_model, payload_topic,
    state_map, state_model, state_models, wire_error, wire_key_values, wire_value, DeviceStateEntry,
    DeviceStateSnapshot, WireAuditEntry, WireEvent, WireEventPayload, WireHistoricalEvent,
    WireKeyValue, WireLogEvent, WireValue, WireWitError,
};
use crate::order::{is_stable_sort, law_sorting_only_moves, text_before, Keyed};
use crate::state::{
    key_values, AuditEntry, ButtonEvent, DeviceState, Event, EventPayload, HistoricalEvent,
    HistoricalLogEvent, KeyValue, StateChange, WitError, WitValue,
};
use crate::text::opt_text;

verus! {

// ---------------------------------------------------------------------
// Values
// ---------------------------------------------------------------------

/// Whether a value on the wire is one of a plugin: of the same type and with the same content.
pub open spec fn same_value(out: WireValue, value: WitValue) -> bool {
    match (out, value) {
        (WireValue::Bool(a), WitValue::BoolVal(b)) => a == b,
        (WireValue::Int(a), WitValue::IntVal(b)) => a == b,
        (WireValue::Float(a), WitValue::FloatVal(b)) => a == b,
        (WireValue::Text(a), WitValue::StringVal(b)) => a@ == b@,
        (WireValue::Bytes(a), WitValue::BytesVal(b)) => a@ == b@,
        (WireValue::Json(a), WitValue::JsonVal(b)) => a@ == b@,
        _ => false,
    }
}

/// Whether fields on the wire are those of a plugin, one for one and in their order.
pub open spec fn same_fields(out: Seq<WireKeyValue>, fields: Seq<KeyValue>) -> bool {
    &&& out.len() == fields.len()
    &&& forall|i: int|
        0 <= i < fields.len() ==> (#[trigger] out[i]).key@ == fields[i].key@ && same_value(
            out[i].value,
            fields[i].value,
        )
}

/// A value keeps its type and its content on the way out and on the way in.
pub proof fn law_values_keep_type_and_content(value: WitValue, out: WireValue)
    ensures
        same_value(wire_value(value), value),
        same_value(out, host_value(out)),
        out@ == value@ <==> same_value(out, value),
{
}

/// Fields that agree as keys and values are the same, one for one.
pub proof fn law_fields_go_out_one_for_one(out: Seq<WireKeyValue>, fields: Seq<KeyValue>)
    ensures
        wire_key_values(out) == key_values(fields) <==> same_fields(out, fields),
{
    let a = wire_key_values(out);
    let b = key_values(fields);
    if a == b {
        assert(a.len() == b.len());
        assert forall|i: int| 0 <= i < fields.len() implies (#[trigger] out[i]).key@
            == fields[i].key@ && same_value(out[i].value, fields[i].value) by {
            assert(a[i] == b[i]);
            assert(a[i] == out[i]@);
            assert(b[i] == fields[i]@);
        }
    }
    if same_fields(out, fields) {
        assert forall|i: int| 0 <= i < a.len() implies a[i] == b[i] by {
            assert(out[i].key@ == fields[i].key@);
        }
        assert(a =~= b);
    }
}

// ---------------------------------------------------------------------
// Device state
// ---------------------------------------------------------------------

/// Whether an entry on the wire is a stored state, field by field.
pub open spec fn is_stored_state(out: DeviceStateEntry, state: DeviceState) -> bool {
    &&& out.device_id@ == state.device_id@
    &&& out.capability@ == state.capability@
    &&& same_fields(out.fields@, state.fields@)
    &&& out.global_revision == state.global_revision
    &&& out.received_ms == state.received_ms
    &&& out.observed_ms == state.observed_ms
    &&& out.source_generation == state.source_generation
    &&& out.quality == state.quality
}

/// An entry goes out as it is stored: with its own revision, its own times, the generation that
/// wrote it, its quality, and its fields one for one.
pub proof fn law_states_go_out_as_stored(out: DeviceStateEntry, state: DeviceState)
    ensures
        out@ == state_model(state) <==> is_stored_state(out, state),
{
    law_fields_go_out_one_for_one(out.fields@, state.fields@);
}

/// A list of entries goes out entry by entry, in its order.
pub proof fn law_state_lists_go_out_in_order(
    out: Seq<DeviceStateEntry>,
    states: Seq<DeviceState>,
)
    requires
        entry_models(out) == state_models(states),
    ensures
        out.len() == states.len(),
        forall|i: int| 0 <= i < states.len() ==> is_stored_state(#[trigger] out[i], states[i]),
{
    assert(entry_models(out).len() == state_models(states).len());
    assert(entry_models(out).len() == out.len());
    assert(state_models(states).len() == states.len());
    assert forall|i: int| 0 <= i < states.len() implies is_stored_state(
        #[trigger] out[i],
        states[i],
    ) by {
        assert(entry_models(out)[i] == state_models(states)[i]);
        assert(entry_models(out)[i] == out[i]@);
        assert(state_models(states)[i] == state_model(states[i]));
        law_states_go_out_as_stored(out[i], states[i]);
    }
}

/// Whether a revision is the highest among entries on the wire.
pub open spec fn is_highest_sent(out: Seq<DeviceStateEntry>, revision: u64) -> bool {
    &&& exists|i: int| 0 <= i < out.len() && (#[trigger] out[i]).global_revision == revision
    &&& forall|i: int| 0 <= i < out.len() ==> (#[trigger] out[i]).global_revision <= revision
}

/// Whether a revision is the highest among stored states.
pub open spec fn is_highest_stored(states: Seq<DeviceState>, revision: u64) -> bool {
    &&& exists|i: int| 0 <= i < states.len() && (#[trigger] states[i]).global_revision == revision
    &&& forall|i: int| 0 <= i < states.len() ==> (#[trigger] states[i]).global_revision <= revision
}

/// The changes since a revision go out with revisions after it and up to the current one, and the
/// highest that a client sees is the highest that is stored. So a client that goes on from there
/// misses nothing and is sent nothing twice.
pub proof fn law_changes_advance_the_client(
    out: Seq<DeviceStateEntry>,
    states: Seq<DeviceState>,
    since: u64,
    current: u64,
)
    requires
        entry_models(out) == state_models(states),
        forall|i: int|
            0 <= i < states.len() ==> since < (#[trigger] states[i]).global_revision <= current,
    ensures
        forall|i: int| 0 <= i < out.len() ==> since < (#[trigger] out[i]).global_revision
            <= current,
        forall|revision: u64|
            is_highest_sent(out, revision) <==> #[trigger] is_highest_stored(states, revision),
{
    law_state_lists_go_out_in_order(out, states);
    assert forall|i: int| 0 <= i < out.len() implies since < (#[trigger] out[i]).global_revision
        <= current by {
        assert(is_stored_state(out[i], states[i]));
    }
    assert forall|revision: u64|
        is_highest_sent(out, revision) <==> #[trigger] is_highest_stored(states, revision) by {
        if is_highest_sent(out, revision) {
            let i = choose|i: int|
                0 <= i < out.len() && (#[trigger] out[i]).global_revision == revision;
            assert(is_stored_state(out[i], states[i]));
            assert(states[i].global_revision == revision);
            assert forall|j: int| 0 <= j < states.len() implies (
            #[trigger] states[j]).global_revision <= revision by {
                assert(is_stored_state(out[j], states[j]));
            }
        }
        if is_highest_stored(states, revision) {
            let i = choose|i: int|
                0 <= i < states.len() && (#[trigger] states[i]).global_revision == revision;
            assert(is_stored_state(out[i], states[i]));
            assert(out[i].global_revision == revision);
        }
    }
}

/// Whether a stored state is among the entries that go out.
pub open spec fn is_sent(out: Seq<DeviceStateEntry>, state: DeviceState) -> bool {
    exists|j: int| 0 <= j < out.len() && is_stored_state(#[trigger] out[j], state)
}

/// Whether an entry that goes out is among the stored states.
pub open spec fn is_kept(states: Seq<DeviceState>, out: DeviceStateEntry) -> bool {
    exists|i: int| 0 <= i < states.len() && is_stored_state(out, #[trigger] states[i])
}

/// The capabilities of a device go out sorted by their names; each is a stored one, and each
/// stored one is among them.
pub proof fn law_capabilities_go_out_sorted(
    states: Seq<DeviceState>,
    out: Seq<DeviceStateEntry>,
)
    requires
        is_sorted_wire(states, out),
    ensures
        out.len() == states.len(),
        forall|i: int, j: int|
            0 <= i < j < out.len() ==> !text_before(
                (#[trigger] out[j]).capability@,
                (#[trigger] out[i]).capability@,
            ),
        forall|i: int| 0 <= i < states.len() ==> is_sent(out, #[trigger] states[i]),
        forall|j: int| 0 <= j < out.len() ==> is_kept(states, #[trigger] out[j]),
{
    let sorted = choose|sorted: Seq<DeviceState>| #[trigger]
        is_stable_sort(states, sorted) && entry_models(out) == state_models(sorted);
    law_state_lists_go_out_in_order(out, sorted);
    assert forall|i: int, j: int| 0 <= i < j < out.len() implies !text_before(
        (#[trigger] out[j]).capability@,
        (#[trigger] out[i]).capability@,
    ) by {
        law_sorting_only_moves(states, sorted, sorted[i]);
        assert(is_stored_state(out[i], sorted[i]) && is_stored_state(out[j], sorted[j]));
        assert(!text_before(sorted[j].key_of(), sorted[i].key_of()));
    }
    assert forall|i: int| 0 <= i < states.len() implies is_sent(out, #[trigger] states[i]) by {
        law_sorting_only_moves(states, sorted, states[i]);
        let j = choose|j: int| 0 <= j < sorted.len() && sorted[j] == states[i];
        assert(is_stored_state(out[j], sorted[j]));
    }
    assert forall|j: int| 0 <= j < out.len() implies is_kept(states, #[trigger] out[j]) by {
        law_sorting_only_moves(states, sorted, sorted[j]);
        assert(sorted.contains(sorted[j]));
        let i = choose|i: int| 0 <= i < states.len() && states[i] == sorted[j];
        assert(is_stored_state(out[j], sorted[j]));
        assert(is_stored_state(out[j], states[i]));
    }
}

/// A device that is read goes out under its own name with the revision and the epoch of the
/// store, and with every capability that is stored for it.
pub proof fn law_snapshots_are_whole(
    snapshot: DeviceStateSnapshot,
    states: Seq<DeviceState>,
    epoch: Seq<char>,
    revision: u64,
)
    requires
        is_snapshot_of(snapshot, states, epoch, revision),
        states.len() > 0,
    ensures
        snapshot.device_id@ == states[0].device_id@,
        snapshot.epoch@ == epoch,
        snapshot.revision == revision,
        snapshot.capabilities.len() == states.len(),
        forall|i: int|
            0 <= i < states.len() ==> is_sent(snapshot.capabilities@, #[trigger] states[i]),
{
    law_capabilities_go_out_sorted(states, snapshot.capabilities@);
}

// ---------------------------------------------------------------------
// Events
// ---------------------------------------------------------------------

/// Whether a payload on the wire is that of an event.
pub open spec fn same_payload(out: WireEventPayload, payload: EventPayload) -> bool {
    match (out, payload) {
        (
            WireEventPayload::StateChanged { capability, fields },
            EventPayload::StateChanged(change),
        ) => capability@ == change.capability@ && same_fields(fields@, change.fields@),
        (WireEventPayload::Button { variant, delta }, EventPayload::Button(button)) => match button {
            ButtonEvent::Pressed => variant@ == "pressed"@ && delta is None,
            ButtonEvent::Released => variant@ == "released"@ && delta is None,
            ButtonEvent::SinglePress => variant@ == "single_press"@ && delta is None,
            ButtonEvent::DoublePress => variant@ == "double_press"@ && delta is None,
            ButtonEvent::LongPress => variant@ == "long_press"@ && delta is None,
            ButtonEvent::Rotated(turned) => variant@ == "rotated"@ && delta == Some(turned),
        },
        (
            WireEventPayload::Inference { model, payload: found, frame_timestamp_ms },
            EventPayload::Inference(result),
        ) => model@ == result.model@ && found@ == result.payload@ && frame_timestamp_ms
            == result.frame_timestamp,
        (WireEventPayload::Custom { topic, payload: content }, EventPayload::Custom(custom)) =>
        topic@ == custom.topic@ && content@ == custom.payload@,
        _ => false,
    }
}

/// A payload goes out as it came: of the same kind, and with everything that the event carries.
/// The fields of a state change are, one for one and in order, those of the event.
pub proof fn law_payloads_go_out_whole(out: WireEventPayload, payload: EventPayload)
    ensures
        out@ == payload_model(payload) <==> same_payload(out, payload),
{
    if let (
        WireEventPayload::StateChanged { capability, fields },
        EventPayload::StateChanged(change),
    ) = (out, payload) {
        law_fields_go_out_one_for_one(fields@, change.fields@);
    }
}

/// Two state changes of one capability whose fields differ in a key or a value go out with
/// different payloads: what goes out determines what came.
pub proof fn law_payloads_are_told_apart(
    out: WireEventPayload,
    capability: String,
    a: Vec<KeyValue>,
    b: Vec<KeyValue>,
)
    requires
        out@ == payload_model(EventPayload::StateChanged(StateChange {
            capability,
            fields: a,
        })),
        out@ == payload_model(EventPayload::StateChanged(StateChange {
            capability,
            fields: b,
        })),
    ensures
        a.len() == b.len(),
        forall|i: int|
            0 <= i < a.len() ==> (#[trigger] a@[i]).key@ == b@[i].key@ && a@[i].value@
                == b@[i].value@,
{
    law_payloads_go_out_whole(
        out,
        EventPayload::StateChanged(StateChange { capability, fields: a }),
    );
    law_payloads_go_out_whole(
        out,
        EventPayload::StateChanged(StateChange { capability, fields: b }),
    );
    if let WireEventPayload::StateChanged { capability: _, fields } = out {
        assert forall|i: int| 0 <= i < a.len() implies (#[trigger] a@[i]).key@ == b@[i].key@
            && a@[i].value@ == b@[i].value@ by {
            assert(fields@[i].key@ == a@[i].key@);
            law_values_keep_type_and_content(a@[i].value, fields@[i].value);
            law_values_keep_type_and_content(b@[i].value, fields@[i].value);
        }
    }
}

/// The topic of an event is the capability that changed or the topic that a plugin gave it; every
/// press of a button has one topic, and every inference another.
pub proof fn law_topics_follow_the_payload(payload: EventPayload)
    ensures
        match payload {
            EventPayload::StateChanged(change) => payload_topic(payload) == change.capability@,
            EventPayload::Button(_) => payload_topic(payload) == "button"@,
            EventPayload::Inference(_) => payload_topic(payload) == "inference"@,
            EventPayload::Custom(custom) => payload_topic(payload) == custom.topic@,
        },
{
}

/// Whether an event that goes out is a live one.
pub open spec fn is_live_event(out: WireEvent, event: Event) -> bool {
    &&& out.id == event.row_id
    &&& opt_text(out.device_id) == opt_text(event.device)
    &&& out.timestamp_ms == event.timestamp
    &&& out.topic@ == payload_topic(event.payload)
    &&& out.origin_plugin_id@ == event.origin_plugin_id@
    &&& out.origin_instance_id@ == event.origin_instance_id@
    &&& same_payload(out.payload, event.payload)
}

/// A live event goes out with its own id, device, time and origin, and with its whole payload.
pub proof fn law_live_events_go_out_whole(out: WireEvent, event: Event)
    requires
        is_wire_event(out, event),
    ensures
        is_live_event(out, event),
{
    law_payloads_go_out_whole(out.payload, event.payload);
}

/// An event of the history goes out with its own id, times, device and origin, and with its whole
/// payload. It carries the payload that the live event carried.
pub proof fn law_history_rows_go_out_whole(
    out: WireHistoricalEvent,
    row: HistoricalEvent,
    live: WireEvent,
    event: Event,
)
    requires
        is_event_row(out, row),
    ensures
        out.id == row.id,
        out.received_ms == row.received_ms,
        out.payload_ms == row.payload_ms,
        opt_text(out.device_id) == opt_text(row.device_id),
        out.instance_id@ == row.instance_id@,
        out.plugin_id@ == row.plugin_id@,
        out.topic@ == row.topic@,
        same_payload(out.payload, row.payload),
        is_wire_event(live, event) && event.payload == row.payload ==> live.payload@
            == out.payload@,
{
    law_payloads_go_out_whole(out.payload, row.payload);
}

// ---------------------------------------------------------------------
// Log and ledger rows
// ---------------------------------------------------------------------

/// A log entry goes out with all that is stored of it.
pub proof fn law_log_rows_go_out_whole(out: WireLogEvent, row: HistoricalLogEvent)
    requires
        is_log_row(out, row),
    ensures
        out.id == row.id,
        out.ts_unix_ms == row.ts_unix_ms,
        out.level == row.level,
        opt_text(out.instance_id) == opt_text(row.instance_id),
        opt_text(out.plugin_id) == opt_text(row.plugin_id),
        opt_text(out.device_id) == opt_text(row.device_id),
        out.target@ == row.target@,
        opt_text(out.span_path) == opt_text(row.span_path),
        out.message@ == row.message@,
        out.fields@ == row.fields@,
{
}

/// A row of the ledger goes out with all that is stored of it.
pub proof fn law_ledger_rows_go_out_whole(out: WireAuditEntry, row: AuditEntry)
    requires
        out@ == row@,
    ensures
        out.id == row.id,
        out.intent_ms == row.intent_ms,
        out.finalized_ms == row.finalized_ms,
        out.token_id@ == row.token_id@,
        out.actor_kind@ == row.actor_kind@,
        out.method@ == row.method@,
        out.path@ == row.path@,
        out.status == row.status,
        out.decision@ == row.decision@,
        opt_text(out.required_scope) == opt_text(row.required_scope),
        opt_text(out.execution_outcome) == opt_text(row.execution_outcome),
        opt_text(out.domain_error) == opt_text(row.domain_error),
        opt_text(out.credential_fp) == opt_text(row.credential_fp),
{
}

// ---------------------------------------------------------------------
// Answers to commands
// ---------------------------------------------------------------------

/// Whether an error on the wire is one of a plugin: of the same kind and with the same message.
pub open spec fn same_error(out: WireWitError, err: WitError) -> bool {
    match (out, err) {
        (WireWitError::NotFound { message }, WitError::NotFound(m)) => message@ == m@,
        (WireWitError::InvalidArgument { message }, WitError::InvalidArgument(m)) => message@ == m@,
        (WireWitError::PermissionDenied { message }, WitError::PermissionDenied(m)) => message@
            == m@,
        (WireWitError::Unavailable { message }, WitError::Unavailable(m)) => message@ == m@,
        (WireWitError::Internal { message }, WitError::Internal(m)) => message@ == m@,
        _ => false,
    }
}

/// An error of a plugin keeps its kind and its message.
pub proof fn law_errors_keep_kind_and_message(err: WitError)
    ensures
        same_error(wire_error(err), err),
{
}

/// The state that a command answers with holds each key that the plugin reported, and no other,
/// with the value that was reported last for it.
pub proof fn law_reported_state_goes_out(list: Seq<KeyValue>, i: int)
    requires
        0 <= i < list.len(),
        forall|j: int| i < j < list.len() ==> (#[trigger] list[j]).key@ != list[i].key@,
    ensures
        state_map(list).dom().contains(list[i].key@),
        same_value(state_map(list)[list[i].key@], list[i].value),
        forall|key: Seq<char>|
            state_map(list).dom().contains(key) ==> exists|k: int|
                0 <= k < list.len() && (#[trigger] list[k]).key@ == key,
    decreases list.len(),
{
    lemma_reported_keys(list);
    if i < list.len() - 1 {
        let init = list.drop_last();
        assert forall|j: int| i < j < init.len() implies (#[trigger] init[j]).key@
            != init[i].key@ by {
            assert(init[j] == list[j]);
        }
        assert(init[i] == list[i]);
        law_reported_state_goes_out(init, i);
        assert(list[list.len() - 1].key@ != list[i].key@);
    }
}

/// Every key of a reported state was reported.
proof fn lemma_reported_keys(list: Seq<KeyValue>)
    ensures
        forall|key: Seq<char>|
            state_map(list).dom().contains(key) ==> exists|k: int|
                0 <= k < list.len() && (#[trigger] list[k]).key@ == key,
    decreases list.len(),
{
    if list.len() > 0 {
        let init = list.drop_last();
        lemma_reported_keys(init);
        assert forall|key: Seq<char>| state_map(list).dom().contains(key) implies exists|k: int|
            0 <= k < list.len() && (#[trigger] list[k]).key@ == key by {
            if key == list.last().key@ {
                assert(list[list.len() - 1].key@ == key);
            } else {
                assert(state_map(init).dom().contains(key));
                let k = choose|k: int| 0 <= k < init.len() && (#[trigger] init[k]).key@ == key;
                assert(list[k].key@ == key);
            }
        }
    }
}

} // verus!
