//! What a request to the surface has to pass before it reaches a session.

use vstd::prelude::*;

use crate::api::auth::is_success;
use crate::text::opt_str;

verus! {

/// The path of the surface. Nothing below it is served.
pub const MCP_ENDPOINT: &'static str = "/api/v1/mcp";

/// The most sessions at a time.
pub const MAX_SESSIONS: usize = 128;

/// The most requests at a time that carry a body, from the arrival of the request to the end of
/// the answer.
pub const PENDING_BODY_GATE: usize = 16;

/// How long a client may take to send a body, in milliseconds.
pub const REQUEST_BODY_DEADLINE_MS: u64 = 5_000;

/// The longest body of a request.
pub const MAX_REQUEST_BODY_BYTES: usize = 1_048_576;

/// The longest body of an answer.
pub const MAX_RESPONSE_BODY_BYTES: usize = 8_388_608;

/// The header that names a session.
pub const SESSION_ID_HEADER: &'static str = "mcp-session-id";

/// An answer to a request that is not let through.
#[derive(Debug)]
pub struct GateRefusal {
    pub status: u16,
    /// After how many seconds to try again.
    pub retry_after: Option<&'static str>,
    pub body: &'static str,
}

/// Whether a refusal is this answer.
pub open spec fn is_refusal(
    r: GateRefusal,
    status: u16,
    retry_after: Option<Seq<char>>,
    body: Seq<char>,
) -> bool {
    r.status == status && opt_str(r.retry_after) == retry_after && r.body@ == body
}

/// What becomes of a request on arrival.
#[derive(Debug)]
pub enum Arrival {
    /// It carries no body and goes straight on.
    Forward,
    /// Its body is to be read.
    ReadBody,
    Refuse(GateRefusal),
}

/// Whether an answer is the one to a request that has arrived.
pub open spec fn is_arrival_answer(r: Arrival, method: Seq<char>, slot_free: bool) -> bool {
    if method != "POST"@ {
        r is Forward
    } else if slot_free {
        r is ReadBody
    } else {
        r matches Arrival::Refuse(refusal) && is_refusal(
            refusal,
            503,
            Some("5"@),
            "{\"error\":\"MCP is at concurrent-request capacity; retry shortly\"}"@,
        )
    }
}

/// Looks at a request on arrival. `slot_free` says whether a slot for a body was free and is now
/// taken for it.
pub fn on_arrival(method: &str, slot_free: bool) -> (r: Arrival)
    ensures
        is_arrival_answer(r, method@, slot_free),
{
    if !method.eq("POST") {
        return Arrival::Forward;
    }
    if slot_free {
        Arrival::ReadBody
    } else {
        Arrival::Refuse(
            GateRefusal {
                status: 503,
                retry_after: Some("5"),
                body: "{\"error\":\"MCP is at concurrent-request capacity; retry shortly\"}",
            },
        )
    }
}

/// How reading the body of a request ended.
#[derive(Debug, Clone, Copy, PartialEq, Eq, Structural)]
pub enum BodyRead {
    Complete,
    TooLarge,
    Failed,
    TooSlow,
}

/// What becomes of a request whose body was read.
#[derive(Debug)]
pub enum Admittance {
    /// It belongs to a session and goes on.
    Forward,
    /// It may open a session: a slot is to be reserved for that.
    Reserve,
    Refuse(GateRefusal),
}

/// Whether an answer is the one to a body that was read.
pub open spec fn is_body_answer(r: Admittance, body: BodyRead, names_session: bool) -> bool {
    match body {
        BodyRead::Complete => if names_session {
            r is Forward
        } else {
            r is Reserve
        },
        BodyRead::TooLarge => r matches Admittance::Refuse(refusal) && is_refusal(
            refusal,
            413,
            None,
            "MCP request body exceeded size cap"@,
        ),
        BodyRead::Failed => r matches Admittance::Refuse(refusal) && is_refusal(
            refusal,
            400,
            None,
            "Failed to read MCP request body"@,
        ),
        BodyRead::TooSlow => r matches Admittance::Refuse(refusal) && is_refusal(
            refusal,
            408,
            None,
            "MCP request body deadline exceeded"@,
        ),
    }
}

/// Looks at a request whose body was read. `names_session` says whether it names a session.
pub fn on_body(body: BodyRead, names_session: bool) -> (r: Admittance)
    ensures
        is_body_answer(r, body, names_session),
{
    match body {
        BodyRead::Complete => {
            if names_session {
                Admittance::Forward
            } else {
                Admittance::Reserve
            }
        },
        BodyRead::TooLarge => Admittance::Refuse(
            GateRefusal {
                status: 413,
                retry_after: None,
                body: "MCP request body exceeded size cap",
            },
        ),
        BodyRead::Failed => Admittance::Refuse(
            GateRefusal { status: 400, retry_after: None, body: "Failed to read MCP request body" },
        ),
        BodyRead::TooSlow => Admittance::Refuse(
            GateRefusal {
                status: 408,
                retry_after: None,
                body: "MCP request body deadline exceeded",
            },
        ),
    }
}

/// The answer to a request that may open a session when no slot is free.
pub fn session_cap_reached() -> (r: GateRefusal)
    ensures
        is_refusal(
            r,
            503,
            Some("30"@),
            "{\"error\":\"MCP session cap reached; retry later\"}"@,
        ),
{
    GateRefusal {
        status: 503,
        retry_after: Some("30"),
        body: "{\"error\":\"MCP session cap reached; retry later\"}",
    }
}

/// Whether a reserved slot stays with the session that the answer opened. It does when the answer
/// is a success that names a session; otherwise the slot is freed.
pub fn opened_session(status: u16, session_id: Option<&str>) -> (r: bool)
    ensures
        r == (is_success(status) && session_id is Some),
{
    200 <= status && status <= 299 && session_id.is_some()
}

// ---------------------------------------------------------------------
// The way of a request
// ---------------------------------------------------------------------

/// What a request waits for.
#[derive(Debug, Clone, Copy, PartialEq, Eq, Structural)]
pub enum AdmitStage {
    /// Its body is being read.
    AwaitBody,
    /// A slot for a session is being reserved.
    AwaitSlot,
    /// It is being answered. `reserved` says whether a slot is reserved for it.
    AwaitAnswer { reserved: bool },
    Done,
}

/// What happened since the last step.
#[derive(Debug)]
pub enum AdmitEvent<'a> {
    /// The body was read, or was not. `names_session` says whether the request names a session.
    Body { read: BodyRead, names_session: bool },
    /// Whether a slot was free.
    Slot { free: bool },
    /// The answer is there, with the session that it names.
    Answered { status: u16, session_id: Option<&'a str> },
}

/// What is to be done next.
#[derive(Debug)]
pub enum AdmitAction {
    /// Read the body.
    ReadBody,
    /// Reserve a slot for a session.
    Reserve,
    /// Let the request through.
    Forward,
    /// Attach the reserved slot to the session and hand the answer out.
    Commit,
    /// Free the reserved slot and hand the answer out.
    Cancel,
    /// Hand the answer out.
    HandOut,
    /// Answer in place of a session.
    Refuse(GateRefusal),
}

/// Whether a request ends with this refusal.
pub open spec fn ends_refused(
    r: (AdmitStage, AdmitAction),
    status: u16,
    retry_after: Option<Seq<char>>,
    body: Seq<char>,
) -> bool {
    r.0 is Done && (r.1 matches AdmitAction::Refuse(refusal) && is_refusal(
        refusal,
        status,
        retry_after,
        body,
    ))
}

/// Whether a request was received so: without a body to read, or with one for which there is room,
/// or with one for which there is none.
pub open spec fn is_admission_begin(
    r: (AdmitStage, AdmitAction),
    method: Seq<char>,
    slot_free: bool,
) -> bool {
    if method != "POST"@ {
        r.0 == (AdmitStage::AwaitAnswer { reserved: false }) && r.1 is Forward
    } else if slot_free {
        r.0 is AwaitBody && r.1 is ReadBody
    } else {
        ends_refused(
            r,
            503,
            Some("5"@),
            "{\"error\":\"MCP is at concurrent-request capacity; retry shortly\"}"@,
        )
    }
}

/// Takes a request in. One that carries no body is let through as it is.
pub fn begin_admission(method: &str, slot_free: bool) -> (r: (AdmitStage, AdmitAction))
    ensures
        is_admission_begin(r, method@, slot_free),
{
    match on_arrival(method, slot_free) {
        Arrival::Forward => (AdmitStage::AwaitAnswer { reserved: false }, AdmitAction::Forward),
        Arrival::ReadBody => (AdmitStage::AwaitBody, AdmitAction::ReadBody),
        Arrival::Refuse(refusal) => (AdmitStage::Done, AdmitAction::Refuse(refusal)),
    }
}

/// What is said of an event that does not belong to the stage.
pub const ADMISSION_OUT_OF_STEP_TEXT: &'static str = "MCP request out of step";

/// One step of a request: what follows from what it waited for and what happened.
pub open spec fn is_admit_step(
    before: AdmitStage,
    event: AdmitEvent,
    r: (AdmitStage, AdmitAction),
) -> bool {
    match (before, event) {
        (AdmitStage::AwaitBody, AdmitEvent::Body { read, names_session }) => match read {
            BodyRead::Complete => if names_session {
                r.0 == (AdmitStage::AwaitAnswer { reserved: false }) && r.1 is Forward
            } else {
                r.0 is AwaitSlot && r.1 is Reserve
            },
            BodyRead::TooLarge => ends_refused(
                r,
                413,
                None,
                "MCP request body exceeded size cap"@,
            ),
            BodyRead::Failed => ends_refused(r, 400, None, "Failed to read MCP request body"@),
            BodyRead::TooSlow => ends_refused(
                r,
                408,
                None,
                "MCP request body deadline exceeded"@,
            ),
        },
        (AdmitStage::AwaitSlot, AdmitEvent::Slot { free }) => if free {
            r.0 == (AdmitStage::AwaitAnswer { reserved: true }) && r.1 is Forward
        } else {
            ends_refused(
                r,
                503,
                Some("30"@),
                "{\"error\":\"MCP session cap reached; retry later\"}"@,
            )
        },
        (
            AdmitStage::AwaitAnswer { reserved },
            AdmitEvent::Answered { status, session_id },
        ) => r.0 is Done && if !reserved {
            r.1 is HandOut
        } else if is_success(status) && session_id is Some {
            r.1 is Commit
        } else {
            r.1 is Cancel
        },
        (_, _) => ends_refused(r, 500, None, ADMISSION_OUT_OF_STEP_TEXT@),
    }
}

/// Takes a request one step further.
pub fn step_admission(stage: AdmitStage, event: AdmitEvent) -> (r: (AdmitStage, AdmitAction))
    ensures
        is_admit_step(stage, event, r),
{
    match (stage, event) {
        (AdmitStage::AwaitBody, AdmitEvent::Body { read, names_session }) => {
            match on_body(read, names_session) {
                Admittance::Forward => (
                    AdmitStage::AwaitAnswer { reserved: false },
                    AdmitAction::Forward,
                ),
                Admittance::Reserve => (AdmitStage::AwaitSlot, AdmitAction::Reserve),
                Admittance::Refuse(refusal) => (AdmitStage::Done, AdmitAction::Refuse(refusal)),
            }
        },
        (AdmitStage::AwaitSlot, AdmitEvent::Slot { free }) => {
            if free {
                (AdmitStage::AwaitAnswer { reserved: true }, AdmitAction::Forward)
            } else {
                (AdmitStage::Done, AdmitAction::Refuse(session_cap_reached()))
            }
        },
        (AdmitStage::AwaitAnswer { reserved }, AdmitEvent::Answered { status, session_id }) => {
            if !reserved {
                (AdmitStage::Done, AdmitAction::HandOut)
            } else if opened_session(status, session_id) {
                (AdmitStage::Done, AdmitAction::Commit)
            } else {
                (AdmitStage::Done, AdmitAction::Cancel)
            }
        },
        (_, _) => (
            AdmitStage::Done,
            AdmitAction::Refuse(
                GateRefusal {
                    status: 500,
                    retry_after: None,
                    body: ADMISSION_OUT_OF_STEP_TEXT,
                },
            ),
        ),
    }
}

/// A reserved slot goes either to the session or back to the pool as soon as the request is
/// answered, and to a session only where the answer opened one.
pub proof fn law_reserved_slots_are_settled(
    event: AdmitEvent,
    after: AdmitStage,
    action: AdmitAction,
)
    requires
        is_admit_step(AdmitStage::AwaitAnswer { reserved: true }, event, (after, action)),
        event is Answered,
    ensures
        action is Commit || action is Cancel,
        action is Commit <==> is_success(event->status) && event->session_id is Some,
{
}

/// A request that names a session takes no slot.
pub proof fn law_known_sessions_take_no_slot(
    read: BodyRead,
    after: AdmitStage,
    action: AdmitAction,
)
    requires
        is_admit_step(
            AdmitStage::AwaitBody,
            AdmitEvent::Body { read, names_session: true },
            (after, action),
        ),
    ensures
        !(action is Reserve),
        after != (AdmitStage::AwaitAnswer { reserved: true }),
{
}

} // verus!
