//! What the resources contain, and how large an answer may become.

use base64::engine::general_purpose::STANDARD;
use base64::Engine;
use vstd::prelude::*;
use vstd::utf8::*;

use crate::api::encode::{percent_decode_segment, percent_decoded};
use crate::api::mcp::resources::ReadOutcome;
use crate::api::mcp::server::MAX_RESPONSE_BODY_BYTES;
use crate::json::{is_readable, json_readable};
use crate::text::{
    cat2, cat3, cat5, decimal, opt_text, text_from_utf8, u64_to_decimal, utf8_error_text,
};

verus! {

/// The longest text of a resource. Its answer escapes it once more, which may double it.
pub const MAX_TEXT_BODY_BYTES: usize = 3_670_016;

/// The longest encoded blob of a resource.
pub const MAX_BLOB_BODY_BYTES: usize = 5_767_168;

/// The longest body of a tool. Its answer carries it twice.
pub const MAX_TOOL_BODY_BYTES: usize = 2_621_440;

/// The longest blob that is handed out.
pub const BLOB_INLINE_MAX_BYTES: u64 = 4_194_304;

/// The longest media type that a blob has.
pub const MAX_BLOB_MIME_BYTES: usize = 255;

/// What an answer with a blob needs besides the blob.
pub const BLOB_ENVELOPE_OVERHEAD_BYTES: usize = 1024;

/// The most blobs that are read at a time.
pub const BLOB_CONCURRENT_READS: usize = 4;

// ---------------------------------------------------------------------
// Bounded bodies
// ---------------------------------------------------------------------

/// A buffer that takes no more than so many bytes.
#[derive(Debug)]
pub struct CappedWriter {
    buf: Vec<u8>,
    cap: usize,
}

/// What a buffer holds, and how much it takes.
pub struct BufferModel {
    pub bytes: Seq<u8>,
    pub cap: nat,
}

impl View for CappedWriter {
    type V = BufferModel;

    closed spec fn view(&self) -> BufferModel {
        BufferModel { bytes: self.buf@, cap: self.cap as nat }
    }
}

/// A write would go over what a buffer takes.
#[derive(Debug, Clone, Copy, PartialEq, Eq, Structural)]
pub struct CapReached;

impl CappedWriter {
    #[verifier::type_invariant]
    spec fn within(self) -> bool {
        self.buf@.len() <= self.cap
    }

    /// An empty buffer.
    pub fn with_cap(cap: usize) -> (r: Self)
        ensures
            r@.bytes == Seq::<u8>::empty(),
            r@.cap == cap,
    {
        CappedWriter { buf: Vec::new(), cap }
    }

    /// Takes a chunk whole, or nothing of it where it would go over.
    pub fn write(&mut self, chunk: &[u8]) -> (r: Result<usize, CapReached>)
        ensures
            final(self)@.cap == old(self)@.cap,
            old(self)@.bytes.len() + chunk@.len() <= old(self)@.cap ==> r == Ok::<
                usize,
                CapReached,
            >(chunk.len()) && final(self)@.bytes == old(self)@.bytes + chunk@,
            old(self)@.bytes.len() + chunk@.len() > old(self)@.cap ==> r is Err && final(
                self)@.bytes == old(self)@.bytes,
            final(self)@.bytes.len() <= final(self)@.cap,
    {
        proof {
            use_type_invariant(&*self);
        }
        let room: usize = self.cap - self.buf.len();
        if chunk.len() > room {
            return Err(CapReached);
        }
        let mut buf: Vec<u8> = Vec::new();
        std::mem::swap(&mut buf, &mut self.buf);
        let ghost before = buf@;
        buf.extend_from_slice(chunk);
        assert(buf@ =~= before + chunk@);
        let cap = self.cap;
        *self = CappedWriter { buf, cap };
        Ok(chunk.len())
    }

    /// How many bytes were taken.
    pub fn len(&self) -> (r: usize)
        ensures
            r == self@.bytes.len(),
    {
        self.buf.len()
    }

    /// The bytes as text, or what is wrong with them.
    pub fn into_string(self) -> (r: Result<String, String>)
        ensures
            match r {
                Ok(text) => valid_utf8(self@.bytes) && text@ == decode_utf8(self@.bytes),
                Err(words) => !valid_utf8(self@.bytes) && words@ == utf8_error_text(self@.bytes),
            },
    {
        text_from_utf8(self.buf)
    }

    /// The bytes.
    pub fn into_bytes(self) -> (r: Vec<u8>)
        ensures
            r@ == self@.bytes,
            r.len() <= self@.cap,
    {
        proof {
            use_type_invariant(&self);
        }
        self.buf
    }
}

/// How writing a body into a buffer ended.
#[derive(Debug)]
pub enum EncodeEnd {
    Written(CappedWriter),
    CapReached,
    Failed,
}

/// What is said of a body that is too long.
pub open spec fn too_long_text(what: Seq<char>, cap: nat) -> Seq<char> {
    "MCP `"@ + what + "` body exceeds the per-response cap ("@ + decimal(cap)
        + " bytes). Narrow the query (smaller `limit`, tighter filter) and retry."@
}

/// Says that a body is too long.
fn too_long(what: &str, cap: usize) -> (r: String)
    ensures
        r@ == too_long_text(what@, cap as nat),
{
    let digits = u64_to_decimal(cap as u64);
    cat5(
        "MCP `",
        what,
        "` body exceeds the per-response cap (",
        digits.as_str(),
        " bytes). Narrow the query (smaller `limit`, tighter filter) and retry.",
    )
}

/// Whether an outcome is what writing the body of a resource comes to.
pub open spec fn is_encoded(r: ReadOutcome, end: EncodeEnd, what: Seq<char>) -> bool {
    match end {
        EncodeEnd::Written(writer) => if writer@.bytes.len() > MAX_TEXT_BODY_BYTES {
            r matches ReadOutcome::TooLarge(reason) && reason@ == too_long_text(
                what,
                MAX_TEXT_BODY_BYTES as nat,
            )
        } else if valid_utf8(writer@.bytes) {
            r matches ReadOutcome::OkText { body, mime } && body@ == decode_utf8(writer@.bytes)
                && mime@ == "application/json"@
        } else {
            r matches ReadOutcome::Internal(reason) && reason@ == "failed to serialize "@ + what
        },
        EncodeEnd::CapReached => r matches ReadOutcome::TooLarge(reason) && reason@
            == too_long_text(what, MAX_TEXT_BODY_BYTES as nat),
        EncodeEnd::Failed => r matches ReadOutcome::Internal(reason) && reason@
            == "failed to serialize "@ + what,
    }
}

/// What writing the body of a resource comes to.
pub fn encode(end: EncodeEnd, what: &str) -> (r: ReadOutcome)
    ensures
        is_encoded(r, end, what@),
{
    match end {
        EncodeEnd::Written(writer) => {
            if writer.len() > MAX_TEXT_BODY_BYTES {
                return ReadOutcome::TooLarge(too_long(what, MAX_TEXT_BODY_BYTES));
            }
            match writer.into_string() {
                Ok(body) => ReadOutcome::OkText { body, mime: "application/json" },
                Err(_) => ReadOutcome::Internal(cat2("failed to serialize ", what)),
            }
        },
        EncodeEnd::CapReached => ReadOutcome::TooLarge(too_long(what, MAX_TEXT_BODY_BYTES)),
        EncodeEnd::Failed => ReadOutcome::Internal(cat2("failed to serialize ", what)),
    }
}

/// The body of a tool, or why there is none.
#[derive(Debug)]
pub enum EncodedBody {
    /// The body as JSON text.
    Json(String),
    TooLarge(String),
    SerializeFailed(String),
}

/// Whether a body is what writing the body of a tool comes to. What was written has to read back
/// as JSON.
pub open spec fn is_encoded_body(r: EncodedBody, end: EncodeEnd, what: Seq<char>) -> bool {
    match end {
        EncodeEnd::Written(writer) => if writer@.bytes.len() > MAX_TOOL_BODY_BYTES {
            r matches EncodedBody::TooLarge(reason) && reason@ == too_long_text(
                what,
                MAX_TOOL_BODY_BYTES as nat,
            )
        } else if valid_utf8(writer@.bytes) && json_readable(decode_utf8(writer@.bytes)) {
            r matches EncodedBody::Json(body) && body@ == decode_utf8(writer@.bytes)
        } else {
            r matches EncodedBody::SerializeFailed(reason) && reason@ == "failed to re-parse "@
                + what
        },
        EncodeEnd::CapReached => r matches EncodedBody::TooLarge(reason) && reason@
            == too_long_text(what, MAX_TOOL_BODY_BYTES as nat),
        EncodeEnd::Failed => r matches EncodedBody::SerializeFailed(reason) && reason@
            == "failed to serialize "@ + what,
    }
}

/// What writing the body of a tool comes to.
pub fn encode_body_capped(end: EncodeEnd, what: &str) -> (r: EncodedBody)
    ensures
        is_encoded_body(r, end, what@),
{
    match end {
        EncodeEnd::Written(writer) => {
            if writer.len() > MAX_TOOL_BODY_BYTES {
                return EncodedBody::TooLarge(too_long(what, MAX_TOOL_BODY_BYTES));
            }
            match writer.into_string() {
                Ok(body) => {
                    if is_readable(body.as_str()) {
                        EncodedBody::Json(body)
                    } else {
                        EncodedBody::SerializeFailed(cat2("failed to re-parse ", what))
                    }
                },
                Err(_) => EncodedBody::SerializeFailed(cat2("failed to re-parse ", what)),
            }
        },
        EncodeEnd::CapReached => EncodedBody::TooLarge(too_long(what, MAX_TOOL_BODY_BYTES)),
        EncodeEnd::Failed => EncodedBody::SerializeFailed(cat2("failed to serialize ", what)),
    }
}

// ---------------------------------------------------------------------
// Stores
// ---------------------------------------------------------------------

/// Why a store gave no rows.
#[derive(Debug, Clone, Copy, PartialEq, Eq, Structural)]
pub enum StoreFailure {
    /// Too many queries run already.
    Saturated,
    Failed,
    /// The query broke down.
    Broken,
}

/// Whether an outcome is that of a read that a store gave no rows for. `what` names the rows.
pub open spec fn is_query_failure(r: ReadOutcome, failure: StoreFailure, what: Seq<char>) -> bool {
    match failure {
        StoreFailure::Saturated => r matches ReadOutcome::Busy(reason) && reason@
            == "MCP store-query queue saturated; retry shortly"@,
        StoreFailure::Failed => r matches ReadOutcome::Internal(reason) && reason@ == what
            + " query failed"@,
        StoreFailure::Broken => r matches ReadOutcome::Internal(reason) && reason@ == what
            + " query task panicked"@,
    }
}

/// The outcome of a read that a store gave no rows for.
fn query_failure(failure: StoreFailure, what: &str) -> (r: ReadOutcome)
    ensures
        is_query_failure(r, failure, what@),
{
    match failure {
        StoreFailure::Saturated => ReadOutcome::Busy(
            "MCP store-query queue saturated; retry shortly".to_owned(),
        ),
        StoreFailure::Failed => ReadOutcome::Internal(cat2(what, " query failed")),
        StoreFailure::Broken => ReadOutcome::Internal(cat2(what, " query task panicked")),
    }
}

/// The outcome of a read of the event history that a store gave no rows for.
pub fn events_failure(failure: StoreFailure) -> (r: ReadOutcome)
    ensures
        is_query_failure(r, failure, "event"@),
{
    query_failure(failure, "event")
}

/// The outcome of a read of the logs that a store gave no rows for.
pub fn logs_failure(failure: StoreFailure) -> (r: ReadOutcome)
    ensures
        is_query_failure(r, failure, "log"@),
{
    query_failure(failure, "log")
}

// ---------------------------------------------------------------------
// Devices and plugins
// ---------------------------------------------------------------------

/// A device with all that it was registered with.
#[derive(Debug)]
pub struct DeviceDetail {
    pub device_id: String,
    pub owner_instance: String,
    pub name: String,
    pub manufacturer: Option<String>,
    pub model: Option<String>,
    pub capabilities: Vec<String>,
}

/// Whether an outcome says that something is not there.
pub open spec fn is_missing(r: ReadOutcome, words: Seq<char>) -> bool {
    r matches ReadOutcome::NotFound(reason) && reason@ == words
}

/// What is said of a device that is not there.
pub open spec fn no_device_text(id: Seq<char>) -> Seq<char> {
    "device "@ + id + " is not registered with the host"@
}

/// The device with an id, or that there is none.
pub fn devices_detail(id: &str, found: Option<DeviceDetail>) -> (r: Result<
    DeviceDetail,
    ReadOutcome,
>)
    ensures
        match found {
            Some(detail) => r == Ok::<DeviceDetail, ReadOutcome>(detail),
            None => r is Err && is_missing(r->Err_0, no_device_text(id@)),
        },
{
    match found {
        Some(detail) => Ok(detail),
        None => Err(
            ReadOutcome::NotFound(cat3("device ", id, " is not registered with the host")),
        ),
    }
}

/// What is known of a plugin on disk.
#[derive(Debug)]
pub struct InstalledDetail {
    pub version: String,
    pub singleton: bool,
    pub content_digest: String,
    pub installation_uuid: String,
}

/// An instance that runs, with its state.
#[derive(Debug)]
pub struct InstanceRow {
    pub instance_id: String,
    pub plugin_id: String,
    pub state: String,
}

/// An instance of a plugin.
#[derive(Debug)]
pub struct PluginInstanceDetail {
    pub instance_id: String,
    pub state: String,
}

/// A plugin with its instances. What is only known of a plugin on disk is missing for one that
/// merely runs.
#[derive(Debug)]
pub struct PluginDetail {
    pub plugin_id: String,
    pub installed: bool,
    pub version: Option<String>,
    pub singleton: Option<bool>,
    pub content_digest: Option<String>,
    pub installation_uuid: Option<String>,
    pub instances: Vec<PluginInstanceDetail>,
}

/// The ids and states of the instances of a plugin.
pub open spec fn instances_of_plugin(rows: Seq<InstanceRow>, id: Seq<char>) -> Seq<
    (Seq<char>, Seq<char>),
>
    decreases rows.len(),
{
    if rows.len() == 0 {
        Seq::empty()
    } else {
        let before = instances_of_plugin(rows.drop_last(), id);
        if rows.last().plugin_id@ == id {
            before.push((rows.last().instance_id@, rows.last().state@))
        } else {
            before
        }
    }
}

/// The views of a list of instances.
pub open spec fn instance_views(list: Seq<PluginInstanceDetail>) -> Seq<(Seq<char>, Seq<char>)> {
    list.map_values(|i: PluginInstanceDetail| (i.instance_id@, i.state@))
}

/// Whether a detail is that of a plugin.
pub open spec fn is_plugin_detail(
    detail: PluginDetail,
    id: Seq<char>,
    installed: Option<InstalledDetail>,
    rows: Seq<InstanceRow>,
) -> bool {
    &&& detail.plugin_id@ == id
    &&& detail.installed == (installed is Some)
    &&& instance_views(detail.instances@) == instances_of_plugin(rows, id)
    &&& match installed {
        Some(i) => detail.version == Some(i.version) && detail.singleton == Some(i.singleton)
            && detail.content_digest == Some(i.content_digest) && detail.installation_uuid == Some(
            i.installation_uuid,
        ),
        None => detail.version is None && detail.singleton is None && detail.content_digest is None
            && detail.installation_uuid is None,
    }
}

/// The plugin with an id, if it is on disk or runs.
pub fn plugins_detail_body(
    id: &str,
    installed: Option<InstalledDetail>,
    rows: &Vec<InstanceRow>,
) -> (r: Option<PluginDetail>)
    ensures
        match r {
            Some(detail) => is_plugin_detail(detail, id@, installed, rows@) && (installed is Some
                || instances_of_plugin(rows@, id@).len() > 0),
            None => installed is None && instances_of_plugin(rows@, id@).len() == 0,
        },
{
    let ghost all = rows@;
    let mut instances: Vec<PluginInstanceDetail> = Vec::new();
    let mut i: usize = 0;
    assert(all.take(0) =~= Seq::<InstanceRow>::empty());
    assert(instance_views(instances@) =~= Seq::<(Seq<char>, Seq<char>)>::empty());
    while i < rows.len()
        invariant
            0 <= i <= rows.len(),
            all == rows@,
            instance_views(instances@) == instances_of_plugin(all.take(i as int), id@),
        decreases rows.len() - i,
    {
        let row = &rows[i];
        let ghost before = instance_views(instances@);
        proof {
            assert(all.take(i + 1).drop_last() =~= all.take(i as int));
            assert(all.take(i + 1).last() == row);
        }
        if row.plugin_id.as_str().eq(id) {
            instances.push(
                PluginInstanceDetail {
                    instance_id: row.instance_id.clone(),
                    state: row.state.clone(),
                },
            );
            assert(instance_views(instances@) =~= before.push((row.instance_id@, row.state@)));
        }
        i += 1;
    }
    proof {
        assert(all.take(i as int) =~= all);
        assert(instance_views(instances@).len() == instances@.len());
    }
    match installed {
        Some(detail) => Some(
            PluginDetail {
                plugin_id: id.to_owned(),
                installed: true,
                version: Some(detail.version),
                singleton: Some(detail.singleton),
                content_digest: Some(detail.content_digest),
                installation_uuid: Some(detail.installation_uuid),
                instances,
            },
        ),
        None => {
            if instances.len() == 0 {
                None
            } else {
                Some(
                    PluginDetail {
                        plugin_id: id.to_owned(),
                        installed: false,
                        version: None,
                        singleton: None,
                        content_digest: None,
                        installation_uuid: None,
                        instances,
                    },
                )
            }
        },
    }
}

/// What is said of a plugin that is not there.
pub open spec fn no_plugin_text(id: Seq<char>) -> Seq<char> {
    "plugin "@ + id + " is not installed and has no running instances"@
}

/// The plugin with an id, or that there is none.
pub fn plugins_detail(
    id: &str,
    installed: Option<InstalledDetail>,
    rows: &Vec<InstanceRow>,
) -> (r: Result<PluginDetail, ReadOutcome>)
    ensures
        match r {
            Ok(detail) => is_plugin_detail(detail, id@, installed, rows@) && (installed is Some
                || instances_of_plugin(rows@, id@).len() > 0),
            Err(outcome) => installed is None && instances_of_plugin(rows@, id@).len() == 0
                && is_missing(outcome, no_plugin_text(id@)),
        },
{
    match plugins_detail_body(id, installed, rows) {
        Some(detail) => Ok(detail),
        None => Err(
            ReadOutcome::NotFound(
                cat3("plugin ", id, " is not installed and has no running instances"),
            ),
        ),
    }
}

/// How asking the store for a sign of life ended.
#[derive(Debug, Clone, Copy, PartialEq, Eq, Structural)]
pub enum PingEnd {
    Answered,
    Failed,
    Broken,
}

/// Whether a result says whether the host is up.
pub open spec fn is_status(r: Result<bool, ReadOutcome>, end: PingEnd) -> bool {
    match end {
        PingEnd::Answered => r == Ok::<bool, ReadOutcome>(true),
        PingEnd::Failed => r == Ok::<bool, ReadOutcome>(false),
        PingEnd::Broken => r is Err && (r->Err_0 matches ReadOutcome::Internal(reason) && reason@
            == "status db-ping task panicked"@),
    }
}

/// Whether the host is up, for its status: a store that does not answer makes it not so, and a
/// broken check is a failure of the read.
pub fn status_ok(end: PingEnd) -> (r: Result<bool, ReadOutcome>)
    ensures
        is_status(r, end),
{
    match end {
        PingEnd::Answered => Ok(true),
        PingEnd::Failed => Ok(false),
        PingEnd::Broken => Err(
            ReadOutcome::Internal("status db-ping task panicked".to_owned()),
        ),
    }
}

// ---------------------------------------------------------------------
// Blobs
// ---------------------------------------------------------------------

/// What is said of a part of an address that cannot be read.
pub open spec fn bad_segment_text(name: Seq<char>, raw: Seq<char>, e: Seq<char>) -> Seq<char> {
    "malformed `"@ + name + "` segment `"@ + raw + "`: "@ + e
}

/// Says that a part of an address cannot be read.
fn bad_segment(name: &str, raw: &str, e: &str) -> (r: String)
    ensures
        r@ == bad_segment_text(name@, raw@, e@),
{
    let mut out = cat5("malformed `", name, "` segment `", raw, "`: ");
    out.append(e);
    out
}

/// The instance and the name that an address of a blob writes, or what is wrong with the first of
/// them that cannot be read.
pub open spec fn blob_address_of(instance: Seq<char>, name: Seq<char>) -> Result<
    (Seq<char>, Seq<char>),
    Seq<char>,
> {
    match percent_decoded(instance) {
        Err(e) => Err(bad_segment_text("instance_id"@, instance, e)),
        Ok(i) => match percent_decoded(name) {
            Err(e) => Err(bad_segment_text("name"@, name, e)),
            Ok(n) => Ok((i, n)),
        },
    }
}

/// The instance and the name that an address of a blob writes.
pub fn blob_address(instance_raw: &str, name_raw: &str) -> (r: Result<
    (String, String),
    ReadOutcome,
>)
    ensures
        match blob_address_of(instance_raw@, name_raw@) {
            Ok((i, n)) => r is Ok && r->Ok_0.0@ == i && r->Ok_0.1@ == n,
            Err(e) => r is Err && (r->Err_0 matches ReadOutcome::InvalidParams(reason) && reason@
                == e),
        },
{
    let instance = match percent_decode_segment(instance_raw) {
        Ok(v) => v,
        Err(e) => {
            return Err(
                ReadOutcome::InvalidParams(bad_segment("instance_id", instance_raw, e.as_str())),
            );
        },
    };
    let name = match percent_decode_segment(name_raw) {
        Ok(v) => v,
        Err(e) => {
            return Err(ReadOutcome::InvalidParams(bad_segment("name", name_raw, e.as_str())));
        },
    };
    Ok((instance, name))
}

/// What is known of the instance that a blob belongs to.
#[derive(Debug)]
pub enum BlobOwner {
    /// It does not run.
    Absent,
    /// It runs but is not loaded yet.
    Loading,
    /// It belongs to this installation.
    Loaded(String),
}

/// Whether a result gives the installation that a blob belongs to.
pub open spec fn is_installation(
    r: Result<String, ReadOutcome>,
    instance_id: Seq<char>,
    owner: BlobOwner,
) -> bool {
    match owner {
        BlobOwner::Loaded(uuid) => r == Ok::<String, ReadOutcome>(uuid),
        BlobOwner::Absent => r is Err && is_missing(
            r->Err_0,
            "instance `"@ + instance_id + "` is not running"@,
        ),
        BlobOwner::Loading => r is Err && is_missing(
            r->Err_0,
            "instance `"@ + instance_id
                + "` is not yet loaded; retry once its state is `Running`"@,
        ),
    }
}

/// The installation that a blob belongs to, or why the blob cannot be read yet.
pub fn blob_installation(instance_id: &str, owner: BlobOwner) -> (r: Result<String, ReadOutcome>)
    ensures
        is_installation(r, instance_id@, owner),
{
    match owner {
        BlobOwner::Loaded(uuid) => Ok(uuid),
        BlobOwner::Absent => Err(
            ReadOutcome::NotFound(cat3("instance `", instance_id, "` is not running")),
        ),
        BlobOwner::Loading => Err(
            ReadOutcome::NotFound(
                cat3(
                    "instance `",
                    instance_id,
                    "` is not yet loaded; retry once its state is `Running`",
                ),
            ),
        ),
    }
}

/// A place among the blobs that are read at a time.
#[derive(Debug, Clone, Copy, PartialEq, Eq, Structural)]
pub enum BlobSlot {
    Free,
    Full,
    Closed,
}

/// Whether a result says whether a blob may be read now.
pub open spec fn is_slot_check(r: Result<(), ReadOutcome>, slot: BlobSlot) -> bool {
    match slot {
        BlobSlot::Free => r is Ok,
        BlobSlot::Full => r is Err && (r->Err_0 matches ReadOutcome::Busy(reason) && reason@
            == "MCP blob concurrency cap reached ("@ + decimal(BLOB_CONCURRENT_READS as nat)
            + " in-flight reads); retry shortly"@),
        BlobSlot::Closed => r is Err && (r->Err_0 matches ReadOutcome::Internal(reason) && reason@
            == "blob concurrency gate closed"@),
    }
}

/// Whether a blob may be read now.
pub fn blob_slot(slot: BlobSlot) -> (r: Result<(), ReadOutcome>)
    ensures
        is_slot_check(r, slot),
{
    match slot {
        BlobSlot::Free => Ok(()),
        BlobSlot::Full => {
            let digits = u64_to_decimal(BLOB_CONCURRENT_READS as u64);
            Err(
                ReadOutcome::Busy(
                    cat3(
                        "MCP blob concurrency cap reached (",
                        digits.as_str(),
                        " in-flight reads); retry shortly",
                    ),
                ),
            )
        },
        BlobSlot::Closed => Err(
            ReadOutcome::Internal("blob concurrency gate closed".to_owned()),
        ),
    }
}

/// Bytes in Base64 with the standard alphabet and padding.
pub uninterp spec fn base64_of(bytes: Seq<u8>) -> Seq<char>;

/// How many characters bytes take in Base64 with padding.
pub open spec fn base64_len(n: nat) -> nat {
    4 * ((n + 2) / 3)
}

/// Whether so many bytes can be written in Base64 at all.
pub fn base64_fits(n: usize) -> (r: bool)
    ensures
        r == (base64_len(n as nat) <= usize::MAX),
{
    n <= usize::MAX / 4 * 3
}

/// `base64::engine::general_purpose::STANDARD.encode`: the bytes in Base64 with padding. The text
/// is ASCII, four characters for every three bytes or part of them.
#[verifier::external_body]
fn to_base64(bytes: &[u8]) -> (r: String)
    requires
        base64_len(bytes@.len()) <= usize::MAX,
    ensures
        r@ == base64_of(bytes@),
        r@.len() == base64_len(bytes@.len()),
        is_ascii_chars(r@),
{
    STANDARD.encode(bytes)
}

/// How reading a blob ended.
#[derive(Debug)]
pub enum BlobRead {
    Found { bytes: Vec<u8>, mime: Option<String> },
    NotFound { what: String },
    TooLarge { what: String, size_bytes: u64, cap: u64 },
    Failed,
    Broken,
}

/// How many bytes a text takes.
pub open spec fn text_bytes(text: Option<Seq<char>>) -> nat {
    match text {
        Some(t) => encode_utf8(t).len(),
        None => 0,
    }
}

/// How large an answer with an encoded blob becomes, or the largest number there is.
pub open spec fn projected_size(encoded: nat, mime: nat) -> nat {
    let size = encoded + mime + BLOB_ENVELOPE_OVERHEAD_BYTES as nat;
    if size <= usize::MAX {
        size
    } else {
        usize::MAX as nat
    }
}

/// What is said of an answer that would become too large.
pub open spec fn blob_too_large_text(encoded: nat, mime: nat) -> Seq<char> {
    "blob response ("@ + decimal(projected_size(encoded, mime)) + " B projected: "@ + decimal(
        encoded,
    ) + " b64 + "@ + decimal(mime) + " mime + framing) exceeds the per-response cap ("@ + decimal(
        MAX_BLOB_BODY_BYTES as nat,
    ) + " B)"@
}

/// Whether an outcome is what reading a blob comes to.
pub open spec fn is_blob_outcome(r: ReadOutcome, read: BlobRead) -> bool {
    match read {
        BlobRead::Found { bytes, mime } => {
            let encoded = base64_len(bytes@.len());
            let mime_len = text_bytes(opt_text(mime));
            if projected_size(encoded, mime_len) > MAX_BLOB_BODY_BYTES {
                r matches ReadOutcome::TooLarge(reason) && reason@ == blob_too_large_text(
                    encoded,
                    mime_len,
                )
            } else {
                r matches ReadOutcome::OkBlob { blob_b64, mime: m } && blob_b64@ == base64_of(
                    bytes@,
                ) && m == mime
            }
        },
        BlobRead::NotFound { what } => r matches ReadOutcome::NotFound(reason) && reason@
            == "blob not found: "@ + what@,
        BlobRead::TooLarge { what, size_bytes, cap } => r matches ReadOutcome::TooLarge(reason)
            && reason@ == "blob "@ + what@ + " is "@ + decimal(size_bytes as nat)
            + " bytes; the MCP inline cap is "@ + decimal(cap as nat)
            + ". Reduce the blob size or fetch it via a plugin-owned tool that streams it."@,
        BlobRead::Failed => r matches ReadOutcome::Internal(reason) && reason@
            == "blob read failed"@,
        BlobRead::Broken => r matches ReadOutcome::Internal(reason) && reason@
            == "blob read task panicked"@,
    }
}

/// Says that an answer would become too large.
fn blob_too_large(projected: u64, encoded: u64, mime: u64) -> (r: String)
    requires
        projected == projected_size(encoded as nat, mime as nat),
    ensures
        r@ == blob_too_large_text(encoded as nat, mime as nat),
{
    let mut out = "blob response (".to_owned();
    out.append(u64_to_decimal(projected).as_str());
    out.append(" B projected: ");
    out.append(u64_to_decimal(encoded).as_str());
    out.append(" b64 + ");
    out.append(u64_to_decimal(mime).as_str());
    out.append(" mime + framing) exceeds the per-response cap (");
    out.append(u64_to_decimal(MAX_BLOB_BODY_BYTES as u64).as_str());
    out.append(" B)");
    out
}

/// What reading a blob comes to.
pub fn blob_outcome(read: BlobRead) -> (r: ReadOutcome)
    requires
        read matches BlobRead::Found { bytes, mime } ==> base64_len(bytes@.len()) <= usize::MAX,
    ensures
        is_blob_outcome(r, read),
{
    match read {
        BlobRead::Found { bytes, mime } => {
            let blob_b64 = to_base64(bytes.as_slice());
            let encoded: usize = blob_b64.as_str().as_bytes().len();
            proof {
                is_ascii_chars_encode_utf8(blob_b64@);
            }
            let mime_len: usize = match &mime {
                Some(m) => m.as_str().as_bytes().len(),
                None => 0,
            };
            let body: usize = encoded.saturating_add(mime_len);
            let projected: usize = body.saturating_add(BLOB_ENVELOPE_OVERHEAD_BYTES);
            if projected > MAX_BLOB_BODY_BYTES {
                return ReadOutcome::TooLarge(
                    blob_too_large(projected as u64, encoded as u64, mime_len as u64),
                );
            }
            ReadOutcome::OkBlob { blob_b64, mime }
        },
        BlobRead::NotFound { what } => ReadOutcome::NotFound(
            cat2("blob not found: ", what.as_str()),
        ),
        BlobRead::TooLarge { what, size_bytes, cap } => {
            let mut out = cat3("blob ", what.as_str(), " is ");
            out.append(u64_to_decimal(size_bytes).as_str());
            out.append(" bytes; the MCP inline cap is ");
            out.append(u64_to_decimal(cap).as_str());
            out.append(
                ". Reduce the blob size or fetch it via a plugin-owned tool that streams it.",
            );
            ReadOutcome::TooLarge(out)
        },
        BlobRead::Failed => ReadOutcome::Internal("blob read failed".to_owned()),
        BlobRead::Broken => ReadOutcome::Internal("blob read task panicked".to_owned()),
    }
}

/// Every blob that the store hands out fits into an answer, and every answer with one fits into
/// what may be sent.
pub proof fn law_handed_out_blobs_fit(raw: nat, mime: nat)
    requires
        raw <= BLOB_INLINE_MAX_BYTES,
        mime <= MAX_BLOB_MIME_BYTES,
    ensures
        projected_size(base64_len(raw), mime) <= MAX_BLOB_BODY_BYTES,
        MAX_BLOB_BODY_BYTES < MAX_RESPONSE_BODY_BYTES,
{
}

/// A text that is doubled by escaping still fits into what may be sent.
pub proof fn law_escaped_texts_fit(body: nat)
    requires
        body <= MAX_TEXT_BODY_BYTES,
    ensures
        2 * body < MAX_RESPONSE_BODY_BYTES,
{
}

} // verus!
