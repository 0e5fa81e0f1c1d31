//! The values that the stores of the host hand out and take in.

use vstd::prelude::*;

use crate::text::opt_text;

verus! {

/// A stored API token. The secret itself is never stored.
#[derive(Debug)]
pub struct TokenRecord {
    pub id: String,
    pub label: String,
    /// The policy of the token, as JSON.
    pub scope_json: Vec<u8>,
    pub created_ms: i64,
    pub last_used_ms: Option<i64>,
    pub revoked_ms: Option<i64>,
}

/// Why a bearer secret names no usable token.
#[derive(Debug, Clone, Copy, PartialEq, Eq, Structural)]
pub enum TokenError {
    /// The secret does not have the shape of a token.
    Malformed,
    /// No token has this secret.
    Unknown,
    /// The token was revoked.
    Revoked,
    /// The store could not be read.
    Storage,
}

/// What a row of the audit ledger says.
pub struct AuditModel {
    pub id: u64,
    pub intent_ms: i64,
    pub finalized_ms: Option<i64>,
    pub token_id: Seq<char>,
    pub actor_kind: Seq<char>,
    pub method: Seq<char>,
    pub path: Seq<char>,
    pub status: u16,
    pub decision: Seq<char>,
    pub required_scope: Option<Seq<char>>,
    pub execution_outcome: Option<Seq<char>>,
    pub domain_error: Option<Seq<char>>,
    pub credential_fp: Option<Seq<char>>,
}

/// One row of the audit ledger.
#[derive(Debug)]
pub struct AuditEntry {
    /// Assigned by the ledger; 0 before that.
    pub id: u64,
    /// When the row was written; 0 lets the ledger fill it in.
    pub intent_ms: i64,
    pub finalized_ms: Option<i64>,
    pub token_id: String,
    pub actor_kind: String,
    pub method: String,
    pub path: String,
    pub status: u16,
    /// `pending`, `allow`, `deny` or `error`.
    pub decision: String,
    pub required_scope: Option<String>,
    pub execution_outcome: Option<String>,
    pub domain_error: Option<String>,
    /// A short fingerprint of a bearer secret that was refused, never the secret.
    pub credential_fp: Option<String>,
}

impl View for AuditEntry {
    type V = AuditModel;

    open spec fn view(&self) -> AuditModel {
        AuditModel {
            id: self.id,
            intent_ms: self.intent_ms,
            finalized_ms: self.finalized_ms,
            token_id: self.token_id@,
            actor_kind: self.actor_kind@,
            method: self.method@,
            path: self.path@,
            status: self.status,
            decision: self.decision@,
            required_scope: opt_text(self.required_scope),
            execution_outcome: opt_text(self.execution_outcome),
            domain_error: opt_text(self.domain_error),
            credential_fp: opt_text(self.credential_fp),
        }
    }
}

/// An error that a plugin reports.
#[derive(Debug)]
pub enum WitError {
    NotFound(String),
    InvalidArgument(String),
    PermissionDenied(String),
    Unavailable(String),
    Internal(String),
}

// ---------------------------------------------------------------------
// Values, devices and their state
// ---------------------------------------------------------------------

/// What a typed value is.
pub enum ValueModel {
    Bool(bool),
    Int(i64),
    Float(u64),
    Text(Seq<char>),
    Bytes(Seq<u8>),
    Json(Seq<char>),
}

/// A typed value of a plugin. A float is held by its bit pattern.
#[derive(Debug)]
pub enum WitValue {
    BoolVal(bool),
    IntVal(i64),
    FloatVal(u64),
    StringVal(String),
    BytesVal(Vec<u8>),
    JsonVal(String),
}

impl View for WitValue {
    type V = ValueModel;

    open spec fn view(&self) -> ValueModel {
        match *self {
            WitValue::BoolVal(b) => ValueModel::Bool(b),
            WitValue::IntVal(i) => ValueModel::Int(i),
            WitValue::FloatVal(bits) => ValueModel::Float(bits),
            WitValue::StringVal(t) => ValueModel::Text(t@),
            WitValue::BytesVal(b) => ValueModel::Bytes(b@),
            WitValue::JsonVal(t) => ValueModel::Json(t@),
        }
    }
}

impl Clone for WitValue {
    fn clone(&self) -> (r: Self)
        ensures
            r@ == self@,
    {
        match self {
            WitValue::BoolVal(b) => WitValue::BoolVal(*b),
            WitValue::IntVal(i) => WitValue::IntVal(*i),
            WitValue::FloatVal(bits) => WitValue::FloatVal(*bits),
            WitValue::StringVal(t) => WitValue::StringVal(t.clone()),
            WitValue::BytesVal(b) => WitValue::BytesVal(b.clone()),
            WitValue::JsonVal(t) => WitValue::JsonVal(t.clone()),
        }
    }
}

/// A named value.
#[derive(Debug)]
pub struct KeyValue {
    pub key: String,
    pub value: WitValue,
}

impl View for KeyValue {
    type V = (Seq<char>, ValueModel);

    open spec fn view(&self) -> (Seq<char>, ValueModel) {
        (self.key@, self.value@)
    }
}

impl Clone for KeyValue {
    fn clone(&self) -> (r: Self)
        ensures
            r@ == self@,
    {
        KeyValue { key: self.key.clone(), value: self.value.clone() }
    }
}

/// The views of a list of named values.
pub open spec fn key_values(list: Seq<KeyValue>) -> Seq<(Seq<char>, ValueModel)> {
    list.map_values(|kv: KeyValue| kv@)
}

/// Whether a stored state is that of a running instance.
#[derive(Debug, Clone, Copy, PartialEq, Eq, Structural)]
pub enum StateQuality {
    Fresh,
    Stale,
}

/// The state of one capability of one device.
#[derive(Debug)]
pub struct DeviceState {
    pub device_id: String,
    pub capability: String,
    pub fields: Vec<KeyValue>,
    /// How many bytes the fields come to.
    pub field_bytes: usize,
    /// The revision of the store at the write.
    pub global_revision: u64,
    /// When the host received the update.
    pub received_ms: i64,
    /// When the plugin says that it observed the value.
    pub observed_ms: u64,
    /// Which start of the owning instance wrote the value.
    pub source_generation: u64,
    pub quality: StateQuality,
}

// ---------------------------------------------------------------------
// Commands and events
// ---------------------------------------------------------------------

/// A command to a device.
#[derive(Debug)]
pub struct Command {
    pub capability: String,
    pub action: String,
    pub args: Vec<KeyValue>,
}

/// How a plugin answered a command.
#[derive(Debug)]
pub enum CommandResult {
    Done,
    OkWithState(Vec<KeyValue>),
    Failed(WitError),
}

/// What happened at a button. A rotation is held by the bit pattern of its angle.
#[derive(Debug, Clone, Copy, PartialEq, Eq, Structural)]
pub enum ButtonEvent {
    Pressed,
    Released,
    SinglePress,
    DoublePress,
    LongPress,
    Rotated(u64),
}

/// A change of the state of one capability.
#[derive(Debug)]
pub struct StateChange {
    pub capability: String,
    pub fields: Vec<KeyValue>,
}

/// What a model found.
#[derive(Debug)]
pub struct InferenceResult {
    pub model: String,
    pub payload: String,
    pub frame_timestamp: Option<u64>,
}

/// An event with a topic of its own.
#[derive(Debug)]
pub struct CustomEvent {
    pub topic: String,
    pub payload: String,
}

/// What an event says.
#[derive(Debug)]
pub enum EventPayload {
    StateChanged(StateChange),
    Button(ButtonEvent),
    Inference(InferenceResult),
    Custom(CustomEvent),
}

/// An event on the bus. The host, not the plugin, says where it comes from.
#[derive(Debug)]
pub struct Event {
    pub device: Option<String>,
    pub timestamp: u64,
    pub origin_plugin_id: String,
    pub origin_instance_id: String,
    /// The row of the event log that holds the event, if one does.
    pub row_id: Option<u64>,
    pub payload: EventPayload,
}

/// A row of the event log.
#[derive(Debug)]
pub struct HistoricalEvent {
    pub id: u64,
    pub received_ms: i64,
    pub payload_ms: u64,
    pub device_id: Option<String>,
    pub instance_id: String,
    pub plugin_id: String,
    pub topic: String,
    pub payload: EventPayload,
}

// ---------------------------------------------------------------------
// Logs
// ---------------------------------------------------------------------

/// The level of a log entry.
#[derive(Debug, Clone, Copy, PartialEq, Eq, Structural)]
pub enum LogLevel {
    Trace,
    Debug,
    Info,
    Warn,
    Error,
}

/// A structured value of a log entry. A float is held by its bit pattern.
#[derive(Debug)]
pub enum LogValue {
    Bool(bool),
    Int(i64),
    UInt(u64),
    Float(u64),
    Text(String),
    Debug(String),
}

/// A row of the log store.
#[derive(Debug)]
pub struct HistoricalLogEvent {
    pub id: u64,
    pub ts_unix_ms: i64,
    pub level: LogLevel,
    pub instance_id: Option<String>,
    pub plugin_id: Option<String>,
    pub device_id: Option<String>,
    pub target: String,
    pub span_path: Option<String>,
    pub message: String,
    pub fields: Vec<(String, LogValue)>,
}

// ---------------------------------------------------------------------
// Queries
// ---------------------------------------------------------------------

/// Which log entries are asked for. Every filter that is set has to hold.
#[derive(Debug)]
pub struct LogQuery {
    pub since_ms: Option<i64>,
    pub until_ms: Option<i64>,
    pub min_level: Option<LogLevel>,
    pub instance_id: Option<String>,
    pub plugin_id: Option<String>,
    pub device_id: Option<String>,
    pub target: Option<String>,
    pub target_prefix: Option<String>,
    pub span_path_prefix: Option<String>,
}

/// How a topic filter compares.
#[derive(Debug, Clone, Copy, PartialEq, Eq, Structural)]
pub enum TopicMatch {
    Exact,
    Prefix,
}

/// Which events are asked for. Every filter that is set has to hold.
#[derive(Debug)]
pub struct EventQuery {
    pub since_ms: Option<i64>,
    pub until_ms: Option<i64>,
    pub device_id: Option<String>,
    pub instance_id: Option<String>,
    pub plugin_id: Option<String>,
    pub topic: Option<(String, TopicMatch)>,
    /// Only rows with a greater id.
    pub after_id: Option<u64>,
    /// Only rows with a smaller id.
    pub before_id: Option<u64>,
}

/// Which rows of the audit ledger are asked for. Every filter that is set has to hold.
#[derive(Debug)]
pub struct AuditQuery {
    pub since_ms: Option<i64>,
    pub until_ms: Option<i64>,
    pub token_id: Option<String>,
    pub decision: Option<String>,
    pub path: Option<String>,
    /// Only rows older than this time and id.
    pub before: Option<(i64, u64)>,
    /// A row to leave out.
    pub exclude_id: Option<u64>,
}

// ---------------------------------------------------------------------
// Plugins
// ---------------------------------------------------------------------

/// Why a plugin could not be installed.
#[derive(Debug)]
pub enum InstallError {
    NoPluginsRoot,
    /// The source directory is missing or has no manifest.
    SourceMissing { path: String },
    AlreadyInstalled { plugin_id: String },
    BadManifest { path: String, reason: String },
    Io(String),
    Persistence(String),
}

/// Why a plugin could not be uninstalled.
#[derive(Debug)]
pub enum UninstallError {
    NoPluginsRoot,
    NotInstalled { plugin_id: String },
    Io(String),
    Persistence(String),
}

} // verus!
