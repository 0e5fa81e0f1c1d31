//! The shapes in which values, events and rows go out.
//!
//! They are apart from the shapes that plugins and stores use, so that either side can change
//! without the other. A value goes out tagged with its type and comes back as what it was.

use vstd::prelude::*;
use vstd::std_specs::convert::FromSpecImpl;

use crate::order::{is_stable_sort, stable_sort, Keyed};
use crate::state::{
    key_values, AuditEntry, AuditModel, ButtonEvent, CommandResult, DeviceState, Event,
    EventPayload, HistoricalEvent, HistoricalLogEvent, KeyValue, LogLevel, LogValue, StateQuality,
    WitValue, ValueModel, WitError,
};
use crate::text::opt_text;
use crate::text_map::TextMap;

verus! {

// ---------------------------------------------------------------------
// Values
// ---------------------------------------------------------------------

/// A typed value on the wire. A float is held by its bit pattern.
#[derive(Debug)]
pub enum WireValue {
    Bool(bool),
    Int(i64),
    Float(u64),
    Text(String),
    Bytes(Vec<u8>),
    Json(String),
}

impl View for WireValue {
    type V = ValueModel;

    open spec fn view(&self) -> ValueModel {
        match *self {
            WireValue::Bool(b) => ValueModel::Bool(b),
            WireValue::Int(i) => ValueModel::Int(i),
            WireValue::Float(bits) => ValueModel::Float(bits),
            WireValue::Text(t) => ValueModel::Text(t@),
            WireValue::Bytes(b) => ValueModel::Bytes(b@),
            WireValue::Json(t) => ValueModel::Json(t@),
        }
    }
}

/// The host value of a wire value.
pub open spec fn host_value(v: WireValue) -> WitValue {
    match v {
        WireValue::Bool(b) => WitValue::BoolVal(b),
        WireValue::Int(i) => WitValue::IntVal(i),
        WireValue::Float(bits) => WitValue::FloatVal(bits),
        WireValue::Text(t) => WitValue::StringVal(t),
        WireValue::Bytes(b) => WitValue::BytesVal(b),
        WireValue::Json(t) => WitValue::JsonVal(t),
    }
}

/// The wire value of a host value.
pub open spec fn wire_value(v: WitValue) -> WireValue {
    match v {
        WitValue::BoolVal(b) => WireValue::Bool(b),
        WitValue::IntVal(i) => WireValue::Int(i),
        WitValue::FloatVal(bits) => WireValue::Float(bits),
        WitValue::StringVal(t) => WireValue::Text(t),
        WitValue::BytesVal(b) => WireValue::Bytes(b),
        WitValue::JsonVal(t) => WireValue::Json(t),
    }
}

impl From<WireValue> for WitValue {
    fn from(v: WireValue) -> (r: Self) {
        match v {
            WireValue::Bool(b) => WitValue::BoolVal(b),
            WireValue::Int(i) => WitValue::IntVal(i),
            WireValue::Float(bits) => WitValue::FloatVal(bits),
            WireValue::Text(t) => WitValue::StringVal(t),
            WireValue::Bytes(b) => WitValue::BytesVal(b),
            WireValue::Json(t) => WitValue::JsonVal(t),
        }
    }
}

impl FromSpecImpl<WireValue> for WitValue {
    open spec fn obeys_from_spec() -> bool {
        true
    }

    open spec fn from_spec(v: WireValue) -> Self {
        host_value(v)
    }
}

impl From<WitValue> for WireValue {
    fn from(v: WitValue) -> (r: Self) {
        match v {
            WitValue::BoolVal(b) => WireValue::Bool(b),
            WitValue::IntVal(i) => WireValue::Int(i),
            WitValue::FloatVal(bits) => WireValue::Float(bits),
            WitValue::StringVal(t) => WireValue::Text(t),
            WitValue::BytesVal(b) => WireValue::Bytes(b),
            WitValue::JsonVal(t) => WireValue::Json(t),
        }
    }
}

impl FromSpecImpl<WitValue> for WireValue {
    open spec fn obeys_from_spec() -> bool {
        true
    }

    open spec fn from_spec(v: WitValue) -> Self {
        wire_value(v)
    }
}

/// A value that goes out and comes back is what it was, and so is one that comes in and goes out.
pub proof fn law_values_round_trip(host: WitValue, wire: WireValue)
    ensures
        host_value(wire_value(host)) == host,
        wire_value(host_value(wire)) == wire,
        wire_value(host)@ == host@,
        host_value(wire)@ == wire@,
{
}

/// A named value on the wire.
#[derive(Debug)]
pub struct WireKeyValue {
    pub key: String,
    pub value: WireValue,
}

impl View for WireKeyValue {
    type V = (Seq<char>, ValueModel);

    open spec fn view(&self) -> (Seq<char>, ValueModel) {
        (self.key@, self.value@)
    }
}

/// The views of a list of named values on the wire.
pub open spec fn wire_key_values(list: Seq<WireKeyValue>) -> Seq<(Seq<char>, ValueModel)> {
    list.map_values(|kv: WireKeyValue| kv@)
}

impl WireKeyValue {
    /// A named value of the host on the wire.
    pub fn from_wit(kv: KeyValue) -> (r: Self)
        ensures
            r@ == kv@,
            r.key == kv.key,
            r.value == wire_value(kv.value),
    {
        WireKeyValue { key: kv.key, value: WireValue::from(kv.value) }
    }
}

/// Named values of the host on the wire.
pub fn wire_fields(fields: &Vec<KeyValue>) -> (r: Vec<WireKeyValue>)
    ensures
        wire_key_values(r@) == key_values(fields@),
{
    let mut out: Vec<WireKeyValue> = Vec::new();
    let mut i: usize = 0;
    while i < fields.len()
        invariant
            0 <= i <= fields.len(),
            out.len() == i,
            forall|j: int| 0 <= j < i ==> (#[trigger] out@[j])@ == fields@[j]@,
        decreases fields.len() - i,
    {
        out.push(WireKeyValue::from_wit(fields[i].clone()));
        i += 1;
    }
    assert(wire_key_values(out@) =~= key_values(fields@));
    out
}

/// Named values from the wire, for the host.
pub fn host_fields(fields: Vec<WireKeyValue>) -> (r: Vec<KeyValue>)
    ensures
        key_values(r@) == wire_key_values(fields@),
{
    let ghost all = fields@;
    let mut rest = fields;
    let mut out: Vec<KeyValue> = Vec::new();
    while rest.len() > 0
        invariant
            rest.len() + out.len() == all.len(),
            rest@ == all.skip(out.len() as int),
            forall|j: int| 0 <= j < out.len() ==> (#[trigger] out@[j])@ == all[j]@,
        decreases rest.len(),
    {
        let ghost done = out.len() as int;
        let kv = rest.remove(0);
        assert(kv == all[done]);
        assert(rest@ =~= all.skip(done + 1));
        out.push(KeyValue { key: kv.key, value: WitValue::from(kv.value) });
    }
    assert(key_values(out@) =~= wire_key_values(all));
    out
}

// ---------------------------------------------------------------------
// Device state
// ---------------------------------------------------------------------

/// The state of one capability on the wire.
#[derive(Debug)]
pub struct DeviceStateEntry {
    pub device_id: String,
    pub capability: String,
    pub fields: Vec<WireKeyValue>,
    pub global_revision: u64,
    pub received_ms: i64,
    pub observed_ms: u64,
    pub source_generation: u64,
    pub quality: StateQuality,
}

/// What the state of a capability says.
pub struct StateModel {
    pub device_id: Seq<char>,
    pub capability: Seq<char>,
    pub fields: Seq<(Seq<char>, ValueModel)>,
    pub global_revision: u64,
    pub received_ms: i64,
    pub observed_ms: u64,
    pub source_generation: u64,
    pub quality: StateQuality,
}

impl View for DeviceStateEntry {
    type V = StateModel;

    open spec fn view(&self) -> StateModel {
        StateModel {
            device_id: self.device_id@,
            capability: self.capability@,
            fields: wire_key_values(self.fields@),
            global_revision: self.global_revision,
            received_ms: self.received_ms,
            observed_ms: self.observed_ms,
            source_generation: self.source_generation,
            quality: self.quality,
        }
    }
}

/// What a stored state says.
pub open spec fn state_model(state: DeviceState) -> StateModel {
    StateModel {
        device_id: state.device_id@,
        capability: state.capability@,
        fields: key_values(state.fields@),
        global_revision: state.global_revision,
        received_ms: state.received_ms,
        observed_ms: state.observed_ms,
        source_generation: state.source_generation,
        quality: state.quality,
    }
}

impl DeviceStateEntry {
    /// A stored state on the wire.
    pub fn from_state(state: &DeviceState) -> (r: Self)
        ensures
            r@ == state_model(*state),
            r.device_id@ == state.device_id@,
            r.capability@ == state.capability@,
            r.global_revision == state.global_revision,
            r.received_ms == state.received_ms,
            r.observed_ms == state.observed_ms,
            r.source_generation == state.source_generation,
            r.quality == state.quality,
    {
        DeviceStateEntry {
            device_id: state.device_id.clone(),
            capability: state.capability.clone(),
            fields: wire_fields(&state.fields),
            global_revision: state.global_revision,
            received_ms: state.received_ms,
            observed_ms: state.observed_ms,
            source_generation: state.source_generation,
            quality: state.quality,
        }
    }
}

impl Keyed for DeviceState {
    open spec fn key_of(&self) -> Seq<char> {
        self.capability@
    }

    fn key(&self) -> (r: &str) {
        self.capability.as_str()
    }
}

/// The views of a list of states on the wire.
pub open spec fn entry_models(entries: Seq<DeviceStateEntry>) -> Seq<StateModel> {
    entries.map_values(|e: DeviceStateEntry| e@)
}

/// What a list of stored states says.
pub open spec fn state_models(states: Seq<DeviceState>) -> Seq<StateModel> {
    states.map_values(|s: DeviceState| state_model(s))
}

/// Stored states on the wire, in their order.
pub fn wire_states(states: &Vec<DeviceState>) -> (r: Vec<DeviceStateEntry>)
    ensures
        entry_models(r@) == state_models(states@),
{
    let mut out: Vec<DeviceStateEntry> = Vec::new();
    let mut i: usize = 0;
    while i < states.len()
        invariant
            0 <= i <= states.len(),
            out.len() == i,
            forall|j: int| 0 <= j < i ==> (#[trigger] out@[j])@ == state_model(states@[j]),
        decreases states.len() - i,
    {
        out.push(DeviceStateEntry::from_state(&states[i]));
        i += 1;
    }
    assert(entry_models(out@) =~= state_models(states@));
    out
}

/// Whether `out` is the stored states on the wire, sorted by capability.
pub open spec fn is_sorted_wire(states: Seq<DeviceState>, out: Seq<DeviceStateEntry>) -> bool {
    exists|sorted: Seq<DeviceState>| #[trigger]
        is_stable_sort(states, sorted) && entry_models(out) == state_models(sorted)
}

/// Stored states on the wire, sorted by capability.
pub fn sorted_wire_states(states: Vec<DeviceState>) -> (r: Vec<DeviceStateEntry>)
    ensures
        is_sorted_wire(states@, r@),
        r.len() == states.len(),
{
    let ghost all = states@;
    let sorted = stable_sort(states);
    let out = wire_states(&sorted);
    proof {
        assert(is_stable_sort(all, sorted@));
        assert(entry_models(out@).len() == out@.len());
        assert(state_models(sorted@).len() == sorted@.len());
    }
    out
}

/// The state of one device on the wire.
#[derive(Debug)]
pub struct DeviceStateSnapshot {
    pub device_id: String,
    /// Which run of the store this is; a cursor of another run is void.
    pub epoch: String,
    /// The revision of the store at the read.
    pub revision: u64,
    pub capabilities: Vec<DeviceStateEntry>,
}

/// The snapshot of one device, its capabilities in order.
pub fn device_snapshot(device_id: &str, epoch: &str, revision: u64, states: Vec<DeviceState>) -> (r:
    DeviceStateSnapshot)
    ensures
        r.device_id@ == device_id@,
        r.epoch@ == epoch@,
        r.revision == revision,
        is_sorted_wire(states@, r.capabilities@),
{
    DeviceStateSnapshot {
        device_id: device_id.to_owned(),
        epoch: epoch.to_owned(),
        revision,
        capabilities: sorted_wire_states(states),
    }
}

// ---------------------------------------------------------------------
// Command results
// ---------------------------------------------------------------------

/// A plugin error on the wire.
#[derive(Debug)]
pub enum WireWitError {
    NotFound { message: String },
    InvalidArgument { message: String },
    PermissionDenied { message: String },
    Unavailable { message: String },
    Internal { message: String },
}

/// The wire form of a plugin error.
pub open spec fn wire_error(e: WitError) -> WireWitError {
    match e {
        WitError::NotFound(message) => WireWitError::NotFound { message },
        WitError::InvalidArgument(message) => WireWitError::InvalidArgument { message },
        WitError::PermissionDenied(message) => WireWitError::PermissionDenied { message },
        WitError::Unavailable(message) => WireWitError::Unavailable { message },
        WitError::Internal(message) => WireWitError::Internal { message },
    }
}

impl From<WitError> for WireWitError {
    fn from(e: WitError) -> (r: Self) {
        match e {
            WitError::NotFound(message) => WireWitError::NotFound { message },
            WitError::InvalidArgument(message) => WireWitError::InvalidArgument { message },
            WitError::PermissionDenied(message) => WireWitError::PermissionDenied { message },
            WitError::Unavailable(message) => WireWitError::Unavailable { message },
            WitError::Internal(message) => WireWitError::Internal { message },
        }
    }
}

impl FromSpecImpl<WitError> for WireWitError {
    open spec fn obeys_from_spec() -> bool {
        true
    }

    open spec fn from_spec(e: WitError) -> Self {
        wire_error(e)
    }
}

/// The answer to a command on the wire.
#[derive(Debug)]
pub enum WireCommandResult {
    Done,
    /// The new state by name. Of two values with one name the later one counts.
    OkWithState { state: TextMap<WireValue> },
    Failed { error: WireWitError },
}

/// Named values by name: of two with one name the later one counts.
pub open spec fn state_map(list: Seq<KeyValue>) -> Map<Seq<char>, WireValue>
    decreases list.len(),
{
    if list.len() == 0 {
        Map::empty()
    } else {
        state_map(list.drop_last()).insert(list.last().key@, wire_value(list.last().value))
    }
}

/// Whether an answer on the wire is that of a plugin.
pub open spec fn is_wire_result(r: WireCommandResult, result: CommandResult) -> bool {
    match result {
        CommandResult::Done => r is Done,
        CommandResult::OkWithState(list) => r matches WireCommandResult::OkWithState { state }
            && state@ == state_map(list@),
        CommandResult::Failed(e) => r == (WireCommandResult::Failed { error: wire_error(e) }),
    }
}

/// The answer of a plugin on the wire.
pub fn command_result_to_wire(result: CommandResult) -> (r: WireCommandResult)
    ensures
        is_wire_result(r, result),
{
    match result {
        CommandResult::Done => WireCommandResult::Done,
        CommandResult::OkWithState(list) => {
            let ghost all = list@;
            let mut rest = list;
            let mut state: TextMap<WireValue> = TextMap::new();
            let ghost mut done: int = 0;
            assert(all.take(0) =~= Seq::<KeyValue>::empty());
            assert(all.skip(0) =~= all);
            while rest.len() > 0
                invariant
                    0 <= done <= all.len(),
                    rest@ == all.skip(done),
                    state@ == state_map(all.take(done)),
                decreases rest.len(),
            {
                let kv = rest.remove(0);
                proof {
                    assert(kv == all[done]);
                    assert(rest@ =~= all.skip(done + 1));
                    assert(all.take(done + 1).drop_last() =~= all.take(done));
                    assert(all.take(done + 1).last() == all[done]);
                    done = done + 1;
                }
                state.insert(kv.key, WireValue::from(kv.value));
            }
            assert(all.take(done) =~= all);
            WireCommandResult::OkWithState { state }
        },
        CommandResult::Failed(e) => WireCommandResult::Failed { error: WireWitError::from(e) },
    }
}

// ---------------------------------------------------------------------
// Events
// ---------------------------------------------------------------------

/// What the payload of an event says.
pub enum PayloadModel {
    StateChanged { capability: Seq<char>, fields: Seq<(Seq<char>, ValueModel)> },
    Button { variant: Seq<char>, delta: Option<u64> },
    Inference { model: Seq<char>, payload: Seq<char>, frame_timestamp_ms: Option<u64> },
    Custom { topic: Seq<char>, payload: Seq<char> },
}

/// The payload of an event on the wire.
#[derive(Debug)]
pub enum WireEventPayload {
    StateChanged { capability: String, fields: Vec<WireKeyValue> },
    /// The delta is held by its bit pattern and set for a rotation only.
    Button { variant: &'static str, delta: Option<u64> },
    Inference { model: String, payload: String, frame_timestamp_ms: Option<u64> },
    Custom { topic: String, payload: String },
}

impl View for WireEventPayload {
    type V = PayloadModel;

    open spec fn view(&self) -> PayloadModel {
        match *self {
            WireEventPayload::StateChanged { capability, fields } => PayloadModel::StateChanged {
                capability: capability@,
                fields: wire_key_values(fields@),
            },
            WireEventPayload::Button { variant, delta } => PayloadModel::Button {
                variant: variant@,
                delta,
            },
            WireEventPayload::Inference { model, payload, frame_timestamp_ms } =>
            PayloadModel::Inference { model: model@, payload: payload@, frame_timestamp_ms },
            WireEventPayload::Custom { topic, payload } => PayloadModel::Custom {
                topic: topic@,
                payload: payload@,
            },
        }
    }
}

/// The name of what happened at a button.
pub open spec fn button_name(button: ButtonEvent) -> Seq<char> {
    match button {
        ButtonEvent::Pressed => "pressed"@,
        ButtonEvent::Released => "released"@,
        ButtonEvent::SinglePress => "single_press"@,
        ButtonEvent::DoublePress => "double_press"@,
        ButtonEvent::LongPress => "long_press"@,
        ButtonEvent::Rotated(_) => "rotated"@,
    }
}

/// The angle of a rotation.
pub open spec fn button_delta(button: ButtonEvent) -> Option<u64> {
    match button {
        ButtonEvent::Rotated(delta) => Some(delta),
        _ => None,
    }
}

/// What the payload of a host event says.
pub open spec fn payload_model(payload: EventPayload) -> PayloadModel {
    match payload {
        EventPayload::StateChanged(change) => PayloadModel::StateChanged {
            capability: change.capability@,
            fields: key_values(change.fields@),
        },
        EventPayload::Button(button) => PayloadModel::Button {
            variant: button_name(button),
            delta: button_delta(button),
        },
        EventPayload::Inference(found) => PayloadModel::Inference {
            model: found.model@,
            payload: found.payload@,
            frame_timestamp_ms: found.frame_timestamp,
        },
        EventPayload::Custom(custom) => PayloadModel::Custom {
            topic: custom.topic@,
            payload: custom.payload@,
        },
    }
}

/// The topic under which an event is found.
pub open spec fn payload_topic(payload: EventPayload) -> Seq<char> {
    match payload {
        EventPayload::StateChanged(change) => change.capability@,
        EventPayload::Button(_) => "button"@,
        EventPayload::Inference(_) => "inference"@,
        EventPayload::Custom(custom) => custom.topic@,
    }
}

/// An event on the wire.
#[derive(Debug)]
pub struct WireEvent {
    /// The row of the event log, if the event has one. A client that follows the bus uses it to
    /// find its place in the history again.
    pub id: Option<u64>,
    pub device_id: Option<String>,
    pub timestamp_ms: u64,
    pub topic: String,
    pub origin_plugin_id: String,
    pub origin_instance_id: String,
    pub payload: WireEventPayload,
}

/// Whether an event on the wire is one of the host.
pub open spec fn is_wire_event(out: WireEvent, event: Event) -> bool {
    &&& out.id == event.row_id
    &&& opt_text(out.device_id) == opt_text(event.device)
    &&& out.timestamp_ms == event.timestamp
    &&& out.topic@ == payload_topic(event.payload)
    &&& out.origin_plugin_id@ == event.origin_plugin_id@
    &&& out.origin_instance_id@ == event.origin_instance_id@
    &&& out.payload@ == payload_model(event.payload)
}

impl WireEvent {
    /// An event of the bus on the wire.
    pub fn from_host(event: &Event) -> (r: Self)
        ensures
            is_wire_event(r, *event),
            r.id == event.row_id,
            opt_text(r.device_id) == opt_text(event.device),
            r.timestamp_ms == event.timestamp,
            r.topic@ == payload_topic(event.payload),
            r.origin_plugin_id@ == event.origin_plugin_id@,
            r.origin_instance_id@ == event.origin_instance_id@,
            r.payload@ == payload_model(event.payload),
    {
        let (topic, payload) = match &event.payload {
            EventPayload::StateChanged(change) => (
                change.capability.clone(),
                WireEventPayload::StateChanged {
                    capability: change.capability.clone(),
                    fields: wire_fields(&change.fields),
                },
            ),
            EventPayload::Button(button) => {
                let (variant, delta) = match button {
                    ButtonEvent::Pressed => ("pressed", None),
                    ButtonEvent::Released => ("released", None),
                    ButtonEvent::SinglePress => ("single_press", None),
                    ButtonEvent::DoublePress => ("double_press", None),
                    ButtonEvent::LongPress => ("long_press", None),
                    ButtonEvent::Rotated(d) => ("rotated", Some(*d)),
                };
                ("button".to_owned(), WireEventPayload::Button { variant, delta })
            },
            EventPayload::Inference(found) => (
                "inference".to_owned(),
                WireEventPayload::Inference {
                    model: found.model.clone(),
                    payload: found.payload.clone(),
                    frame_timestamp_ms: found.frame_timestamp,
                },
            ),
            EventPayload::Custom(custom) => (
                custom.topic.clone(),
                WireEventPayload::Custom {
                    topic: custom.topic.clone(),
                    payload: custom.payload.clone(),
                },
            ),
        };
        WireEvent {
            id: event.row_id,
            device_id: event.device.clone(),
            timestamp_ms: event.timestamp,
            topic,
            origin_plugin_id: event.origin_plugin_id.clone(),
            origin_instance_id: event.origin_instance_id.clone(),
            payload,
        }
    }
}

/// A row of the event log on the wire. Its payload has the shape that a live event has.
#[derive(Debug)]
pub struct WireHistoricalEvent {
    pub id: u64,
    pub received_ms: i64,
    pub payload_ms: u64,
    pub device_id: Option<String>,
    pub instance_id: String,
    pub plugin_id: String,
    pub topic: String,
    pub payload: WireEventPayload,
}

impl WireHistoricalEvent {
    /// A row of the event log on the wire.
    pub fn from_row(row: HistoricalEvent) -> (r: Self)
        ensures
            r.id == row.id,
            r.received_ms == row.received_ms,
            r.payload_ms == row.payload_ms,
            opt_text(r.device_id) == opt_text(row.device_id),
            r.instance_id@ == row.instance_id@,
            r.plugin_id@ == row.plugin_id@,
            r.topic@ == row.topic@,
            r.payload@ == payload_model(row.payload),
    {
        let event = Event {
            device: row.device_id,
            timestamp: row.payload_ms,
            origin_plugin_id: row.plugin_id.clone(),
            origin_instance_id: row.instance_id.clone(),
            row_id: Some(row.id),
            payload: row.payload,
        };
        let wire = WireEvent::from_host(&event);
        WireHistoricalEvent {
            id: row.id,
            received_ms: row.received_ms,
            payload_ms: row.payload_ms,
            device_id: wire.device_id,
            instance_id: row.instance_id,
            plugin_id: row.plugin_id,
            topic: row.topic,
            payload: wire.payload,
        }
    }
}

// ---------------------------------------------------------------------
// Log and ledger rows
// ---------------------------------------------------------------------

/// A log entry on the wire.
#[derive(Debug)]
pub struct WireLogEvent {
    pub id: u64,
    pub ts_unix_ms: i64,
    pub level: LogLevel,
    pub instance_id: Option<String>,
    pub plugin_id: Option<String>,
    pub device_id: Option<String>,
    pub target: String,
    pub span_path: Option<String>,
    pub message: String,
    pub fields: Vec<(String, LogValue)>,
}

impl WireLogEvent {
    /// A log entry on the wire.
    pub fn from_row(row: HistoricalLogEvent) -> (r: Self)
        ensures
            r == (WireLogEvent {
                id: row.id,
                ts_unix_ms: row.ts_unix_ms,
                level: row.level,
                instance_id: row.instance_id,
                plugin_id: row.plugin_id,
                device_id: row.device_id,
                target: row.target,
                span_path: row.span_path,
                message: row.message,
                fields: row.fields,
            }),
    {
        WireLogEvent {
            id: row.id,
            ts_unix_ms: row.ts_unix_ms,
            level: row.level,
            instance_id: row.instance_id,
            plugin_id: row.plugin_id,
            device_id: row.device_id,
            target: row.target,
            span_path: row.span_path,
            message: row.message,
            fields: row.fields,
        }
    }
}

/// A row of the audit ledger on the wire.
#[derive(Debug)]
pub struct WireAuditEntry {
    pub id: u64,
    pub intent_ms: i64,
    pub finalized_ms: Option<i64>,
    pub token_id: String,
    pub actor_kind: String,
    pub method: String,
    pub path: String,
    pub status: u16,
    pub decision: String,
    pub required_scope: Option<String>,
    pub execution_outcome: Option<String>,
    pub domain_error: Option<String>,
    pub credential_fp: Option<String>,
}

impl View for WireAuditEntry {
    type V = AuditModel;

    open spec fn view(&self) -> AuditModel {
        AuditModel {
            id: self.id,
            intent_ms: self.intent_ms,
            finalized_ms: self.finalized_ms,
            token_id: self.token_id@,
            actor_kind: self.actor_kind@,
            method: self.method@,
            path: self.path@,
            status: self.status,
            decision: self.decision@,
            required_scope: opt_text(self.required_scope),
            execution_outcome: opt_text(self.execution_outcome),
            domain_error: opt_text(self.domain_error),
            credential_fp: opt_text(self.credential_fp),
        }
    }
}

impl WireAuditEntry {
    /// A row of the audit ledger on the wire.
    pub fn from_row(row: AuditEntry) -> (r: Self)
        ensures
            r@ == row@,
    {
        WireAuditEntry {
            id: row.id,
            intent_ms: row.intent_ms,
            finalized_ms: row.finalized_ms,
            token_id: row.token_id,
            actor_kind: row.actor_kind,
            method: row.method,
            path: row.path,
            status: row.status,
            decision: row.decision,
            required_scope: row.required_scope,
            execution_outcome: row.execution_outcome,
            domain_error: row.domain_error,
            credential_fp: row.credential_fp,
        }
    }
}

} // verus!
