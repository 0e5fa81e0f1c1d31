//! How much fits, how often and how long.

use vstd::prelude::*;

use crate::api::bootstrap::{ADMIN_LABEL, ADMIN_SCOPE_JSON};
use crate::api::connect_rpc::ANONYMOUS_CONNECT_PATH;
use crate::api::mcp::contents::{
    base64_len, BLOB_CONCURRENT_READS, BLOB_ENVELOPE_OVERHEAD_BYTES, BLOB_INLINE_MAX_BYTES,
    MAX_BLOB_BODY_BYTES, MAX_BLOB_MIME_BYTES, MAX_TEXT_BODY_BYTES, MAX_TOOL_BODY_BYTES,
};
use crate::api::mcp::filters::ROWS_MAX;
use crate::api::mcp::handler::{SERVER_NAME, STDIO_TOKEN_ID, UNAUTHENTICATED_TOKEN_ID};
use crate::api::mcp::rate_limit::{
    IDLE_EVICTION_WINDOW_NS, MAX_TRACKED_KEYS, REJECT_LOG_WINDOW_MS, UNAUTHENTICATED_KEY,
};
use crate::api::mcp::resources::{AUDIT_QUEUE_MAX, STORE_QUERY_MAX};
use crate::api::mcp::server::{
    MAX_REQUEST_BODY_BYTES, MAX_RESPONSE_BODY_BYTES, MAX_SESSIONS, MCP_ENDPOINT, PENDING_BODY_GATE,
    REQUEST_BODY_DEADLINE_MS, SESSION_ID_HEADER,
};
use crate::api::mcp::tool_bodies::CURSOR_MAX;
use crate::api::paging::{
    DEFAULT_ALL_DEVICES_STATE_LIMIT, MAX_ALL_DEVICES_STATE_LIMIT, MAX_ALL_DEVICES_STATE_PAGE_BYTES,
};
use crate::api::plugins::{REGISTRY_CLEAR_DEADLINE_MS, REGISTRY_CLEAR_POLL_MS};
use crate::api::queries::{QUERY_DEFAULT_LIMIT, QUERY_MAX_LIMIT};
use crate::api::server::{DEFAULT_STATE_CHANGES_LIMIT, MAX_STATE_CHANGES_LIMIT};
use crate::api::ui_ticket::{MAX_TICKET_LEN, TICKET_TTL_MS};
use crate::exclusive_lock::LOCK_FILE_NAME;

verus! {

/// A blob that is small enough to be read, with the longest type it can have, also fits into an
/// answer.
pub proof fn law_readable_blobs_fit(n: nat, mime: nat)
    requires
        n <= BLOB_INLINE_MAX_BYTES,
        mime <= MAX_BLOB_MIME_BYTES,
    ensures
        base64_len(n) + mime + BLOB_ENVELOPE_OVERHEAD_BYTES <= MAX_BLOB_BODY_BYTES,
{
}

/// Every body fits into the largest answer, with room for a text body to be told twice, and a
/// default is within its limit.
pub proof fn law_bodies_fit_into_answers()
    ensures
        2 * MAX_TEXT_BODY_BYTES <= MAX_RESPONSE_BODY_BYTES,
        MAX_BLOB_BODY_BYTES <= MAX_RESPONSE_BODY_BYTES,
        3 * MAX_TOOL_BODY_BYTES <= MAX_RESPONSE_BODY_BYTES,
        QUERY_DEFAULT_LIMIT <= QUERY_MAX_LIMIT,
        DEFAULT_ALL_DEVICES_STATE_LIMIT <= MAX_ALL_DEVICES_STATE_LIMIT,
        DEFAULT_STATE_CHANGES_LIMIT <= MAX_STATE_CHANGES_LIMIT,
        REGISTRY_CLEAR_POLL_MS <= REGISTRY_CLEAR_DEADLINE_MS,
        STORE_QUERY_MAX <= AUDIT_QUEUE_MAX,
        CURSOR_MAX == i64::MAX,
{
}

/// How much is kept, read and handed out at most, and for how long.
pub proof fn law_limits_are_these()
    ensures
        QUERY_DEFAULT_LIMIT == 100 && QUERY_MAX_LIMIT == 1_000 && ROWS_MAX == 100,
        DEFAULT_ALL_DEVICES_STATE_LIMIT == 64 && MAX_ALL_DEVICES_STATE_LIMIT == 256,
        MAX_ALL_DEVICES_STATE_PAGE_BYTES == 1_024 * 1_024,
        DEFAULT_STATE_CHANGES_LIMIT == 256 && MAX_STATE_CHANGES_LIMIT == 1_024,
        MAX_SESSIONS == 128 && PENDING_BODY_GATE == 16,
        REQUEST_BODY_DEADLINE_MS == 5 * 1_000,
        MAX_REQUEST_BODY_BYTES == 1_024 * 1_024 && MAX_RESPONSE_BODY_BYTES == 8 * 1_024 * 1_024,
        BLOB_INLINE_MAX_BYTES == 4 * 1_024 * 1_024 && BLOB_CONCURRENT_READS == 4,
        MAX_BLOB_MIME_BYTES == 255 && BLOB_ENVELOPE_OVERHEAD_BYTES == 1_024,
        MAX_TRACKED_KEYS == 1_024 && REJECT_LOG_WINDOW_MS == 1_000,
        IDLE_EVICTION_WINDOW_NS == 300 * 1_000_000_000,
        AUDIT_QUEUE_MAX == 32 && STORE_QUERY_MAX == 8,
        TICKET_TTL_MS == 5 * 60 * 1_000 && MAX_TICKET_LEN == 512,
        REGISTRY_CLEAR_DEADLINE_MS == 5 * 1_000 && REGISTRY_CLEAR_POLL_MS == 10,
{
}

/// The names under which the host is met.
pub proof fn law_names_are_these()
    ensures
        MCP_ENDPOINT@ == "/api/v1/mcp"@,
        SESSION_ID_HEADER@ == "mcp-session-id"@,
        ANONYMOUS_CONNECT_PATH@ == "/oxidhome.v1.HealthService/Check"@,
        SERVER_NAME@ == "oxidhome"@,
        STDIO_TOKEN_ID@ == "mcp-stdio-parent-process"@,
        UNAUTHENTICATED_TOKEN_ID@ == "anonymous"@,
        UNAUTHENTICATED_KEY@ == "unauthenticated"@,
        ADMIN_LABEL@ == "admin"@,
        ADMIN_SCOPE_JSON@ == "[\"*\"]"@,
        LOCK_FILE_NAME@ == ".oxidhome.lock"@,
{
}

} // verus!
