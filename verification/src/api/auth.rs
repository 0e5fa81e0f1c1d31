//! Bearer-token authentication and the audit trail of a request.
//!
//! A request passes through [`step`] from [`begin`] to its answer. A request without a usable
//! token is answered with a bare 401, one whose token carries a constraint that the transport
//! does not honour with 403. Every other request is written to the audit ledger as `pending`
//! before its handler runs, and a request whose row cannot be written is refused. When the
//! handler is done the row is completed with the outcome.

use vstd::prelude::*;

use crate::auth::policy::{
    parse_policy, policy_of_bytes, unenforced_field, ConstraintModel, EnforcedConstraint,
    PolicyModel, TokenPolicy,
};
use crate::auth::{kind_name, Actor, ActorKind, ActorModel};
use crate::state::{AuditEntry, AuditModel, TokenError, TokenRecord, WitError};
use crate::text::{
    ascii_lower_of, eq_ignore_ascii_case, lemma_split_head, opt_str, opt_text, split_once,
    split_once_at, texts,
};

verus! {

// ---------------------------------------------------------------------
// Records to actors
// ---------------------------------------------------------------------

/// The policy that a stored blob grants: a malformed one grants nothing.
pub open spec fn granted_policy(blob: Seq<u8>) -> PolicyModel {
    match policy_of_bytes(blob) {
        Some(policy) => policy,
        None => PolicyModel { scopes: Seq::empty(), constraints: Map::empty() },
    }
}

/// The actor of a verified token. A malformed policy gives an actor without scopes, so that
/// every scoped operation refuses it.
pub fn actor_from_record(rec: &TokenRecord) -> (r: Actor)
    ensures
        r@ == record_actor(*rec),
{
    let policy = match parse_policy(rec.scope_json.as_slice()) {
        Some(policy) => policy,
        None => TokenPolicy::default(),
    };
    actor_with_policy(rec.id.as_str(), policy)
}

/// The actor of a token with a decoded policy.
pub fn actor_with_policy(token_id: &str, policy: TokenPolicy) -> (r: Actor)
    ensures
        r@ == (ActorModel {
            kind: ActorKind::Api,
            id: token_id@,
            scopes: policy@.scopes,
            constraints: policy@.constraints,
        }),
{
    Actor::api_with_policy(token_id, policy.scopes, policy.constraints)
}

/// The actor that a token record stands for.
pub open spec fn record_actor(rec: TokenRecord) -> ActorModel {
    ActorModel {
        kind: ActorKind::Api,
        id: rec.id@,
        scopes: granted_policy(rec.scope_json@).scopes,
        constraints: granted_policy(rec.scope_json@).constraints,
    }
}

/// The scopes of a policy blob, without its constraints.
pub fn parse_scopes(blob: &[u8]) -> (r: Option<Vec<String>>)
    ensures
        match r {
            Some(scopes) => policy_of_bytes(blob@) is Some && texts(scopes@)
                == policy_of_bytes(blob@)->0.scopes,
            None => policy_of_bytes(blob@) is None,
        },
{
    match parse_policy(blob) {
        Some(policy) => Some(policy.scopes),
        None => None,
    }
}

// ---------------------------------------------------------------------
// The bearer
// ---------------------------------------------------------------------

/// `text` without its leading spaces.
pub open spec fn trim_spaces(text: Seq<char>) -> Seq<char>
    decreases text.len(),
{
    if text.len() > 0 && text[0] == ' ' {
        trim_spaces(text.skip(1))
    } else {
        text
    }
}

/// Whether a scheme name is `Bearer` in any case.
pub open spec fn is_bearer_scheme(scheme: Seq<char>) -> bool {
    scheme.map_values(|c: char| ascii_lower_of(c)) == "Bearer"@.map_values(
        |c: char| ascii_lower_of(c),
    )
}

/// The credential of an `Authorization` header: what follows the scheme `Bearer` and the spaces
/// after it, if that is not empty.
pub open spec fn bearer_of(header: Seq<char>) -> Option<Seq<char>> {
    match split_once_at(header, ' ') {
        Some((scheme, rest)) => if is_bearer_scheme(scheme) && trim_spaces(rest).len() > 0 {
            Some(trim_spaces(rest))
        } else {
            None
        },
        None => None,
    }
}

/// Cuts the leading spaces off.
fn trim_start_spaces<'a>(text: &'a str) -> (r: &'a str)
    ensures
        r@ == trim_spaces(text@),
{
    let n = text.unicode_len();
    let mut i: usize = 0;
    assert(text@.skip(0) =~= text@);
    while i < n && text.get_char(i) == ' '
        invariant
            0 <= i <= n == text@.len(),
            trim_spaces(text@) == trim_spaces(text@.skip(i as int)),
        decreases n - i,
    {
        assert(text@.skip(i as int).skip(1) =~= text@.skip(i + 1));
        i += 1;
    }
    let rest = text.substring_char(i, n);
    assert(rest@ == text@.skip(i as int));
    rest
}

/// The credential of an `Authorization` header.
pub fn extract_bearer<'a>(header: &'a str) -> (r: Option<&'a str>)
    ensures
        match r {
            Some(bearer) => bearer_of(header@) == Some(bearer@),
            None => bearer_of(header@) is None,
        },
{
    match split_once(header, ' ') {
        Some((scheme, rest)) => {
            if !eq_ignore_ascii_case(scheme, "Bearer") {
                return None;
            }
            let trimmed = trim_start_spaces(rest);
            if trimmed.unicode_len() == 0 {
                None
            } else {
                Some(trimmed)
            }
        },
        None => None,
    }
}

// ---------------------------------------------------------------------
// Constraints that the transport does not honour
// ---------------------------------------------------------------------

/// Why a constraint is refused.
#[derive(Debug)]
pub enum ConstraintRefusal<'a> {
    /// The transport does not honour constraints on this tool.
    KeyNotEnforced { key: &'a str },
    /// The transport honours the tool's constraints but not this field of them.
    FieldNotEnforced { key: &'a str, field: &'static str },
}

/// The ledger's mark for a tool that is not enforced.
pub open spec fn key_sentinel(key: Seq<char>) -> Seq<char> {
    "<constraint-key-unenforced:"@ + key + ">"@
}

/// The ledger's mark for a field that is not enforced.
pub open spec fn field_sentinel(key: Seq<char>, field: Seq<char>) -> Seq<char> {
    "<constraint-field-unenforced:"@ + key + ":"@ + field + ">"@
}

/// The ledger's mark for a refusal.
pub open spec fn refusal_sentinel(refusal: ConstraintRefusal) -> Seq<char> {
    match refusal {
        ConstraintRefusal::KeyNotEnforced { key } => key_sentinel(key@),
        ConstraintRefusal::FieldNotEnforced { key, field } => field_sentinel(key@, field@),
    }
}

impl<'a> ConstraintRefusal<'a> {
    /// The mark that the ledger keeps of this refusal.
    pub fn audit_sentinel(&self) -> (r: String)
        ensures
            r@ == refusal_sentinel(*self),
    {
        match self {
            ConstraintRefusal::KeyNotEnforced { key } => {
                let mut out = "<constraint-key-unenforced:".to_owned();
                out.append(key);
                out.append(">");
                out
            },
            ConstraintRefusal::FieldNotEnforced { key, field } => {
                let mut out = "<constraint-field-unenforced:".to_owned();
                out.append(key);
                out.append(":");
                out.append(field);
                out.append(">");
                out
            },
        }
    }

    /// The text of this refusal for logs.
    pub fn as_display(&self) -> (r: String)
        ensures
            r@ == refusal_sentinel(*self),
    {
        self.audit_sentinel()
    }
}

/// The first entry for a tool.
pub open spec fn entry_for(enforced: Seq<EnforcedConstraint>, key: Seq<char>) -> Option<
    EnforcedConstraint,
>
    decreases enforced.len(),
{
    if enforced.len() == 0 {
        None
    } else if enforced[0].key@ == key {
        Some(enforced[0])
    } else {
        entry_for(enforced.skip(1), key)
    }
}

/// Whether the transport honours everything that a constraint on a tool sets.
pub open spec fn constraint_honoured(
    enforced: Seq<EnforcedConstraint>,
    key: Seq<char>,
    constraint: ConstraintModel,
) -> bool {
    match entry_for(enforced, key) {
        Some(entry) => unenforced_field(entry, constraint) is None,
        None => false,
    }
}

/// Whether the transport honours every constraint of a token.
pub open spec fn all_honoured(
    enforced: Seq<EnforcedConstraint>,
    constraints: Map<Seq<char>, ConstraintModel>,
) -> bool {
    forall|key: Seq<char>|
        constraints.dom().contains(key) ==> #[trigger] constraint_honoured(
            enforced,
            key,
            constraints[key],
        )
}

/// Whether a refusal names a constraint of the token that the transport does not honour, and why.
pub open spec fn refusal_is_true(
    enforced: Seq<EnforcedConstraint>,
    constraints: Map<Seq<char>, ConstraintModel>,
    refusal: ConstraintRefusal,
) -> bool {
    match refusal {
        ConstraintRefusal::KeyNotEnforced { key } => constraints.dom().contains(key@) && entry_for(
            enforced,
            key@,
        ) is None,
        ConstraintRefusal::FieldNotEnforced { key, field } => constraints.dom().contains(key@)
            && entry_for(enforced, key@) is Some && unenforced_field(
            entry_for(enforced, key@)->0,
            constraints[key@],
        ) == Some(field@),
    }
}

/// The first entry for a tool.
fn find_entry(enforced: &[EnforcedConstraint], key: &str) -> (r: Option<EnforcedConstraint>)
    ensures
        r == entry_for(enforced@, key@),
{
    let mut i: usize = 0;
    assert(enforced@.skip(0) =~= enforced@);
    while i < enforced.len()
        invariant
            0 <= i <= enforced.len(),
            entry_for(enforced@, key@) == entry_for(enforced@.skip(i as int), key@),
        decreases enforced.len() - i,
    {
        assert(enforced@.skip(i as int)[0] == enforced@[i as int]);
        if enforced[i].key.eq(key) {
            return Some(enforced[i]);
        }
        assert(enforced@.skip(i as int).skip(1) =~= enforced@.skip(i + 1));
        i += 1;
    }
    None
}

/// A constraint of the caller's token that the transport does not honour, if there is one. Where
/// there are several, which one is named is left open.
pub fn first_constraint_refusal<'a>(actor: &'a Actor, enforced: &[EnforcedConstraint]) -> (r:
    Option<ConstraintRefusal<'a>>)
    ensures
        match r {
            Some(refusal) => refusal_is_true(enforced@, actor@.constraints, refusal),
            None => all_honoured(enforced@, actor@.constraints),
        },
{
    let keys = actor.constraint_keys();
    let mut i: usize = 0;
    while i < keys.len()
        invariant
            0 <= i <= keys.len(),
            forall|k: Seq<char>|
                actor@.constraints.dom().contains(k) <==> exists|j: int|
                    0 <= j < keys.len() && (#[trigger] keys@[j])@ == k,
            forall|j: int|
                0 <= j < i ==> constraint_honoured(
                    enforced@,
                    (#[trigger] keys@[j])@,
                    actor@.constraints[keys@[j]@],
                ),
        decreases keys.len() - i,
    {
        let key = keys[i];
        assert(keys@[i as int]@ == key@);
        assert(actor@.constraints.dom().contains(key@));
        match (find_entry(enforced, key), actor.constraint(key)) {
            (Some(entry), Some(constraint)) => {
                if let Some(field) = entry.first_unenforced_field(constraint) {
                    return Some(ConstraintRefusal::FieldNotEnforced { key, field });
                }
            },
            (_, _) => {
                return Some(ConstraintRefusal::KeyNotEnforced { key });
            },
        }
        i += 1;
    }
    None
}

// ---------------------------------------------------------------------
// Ledger rows
// ---------------------------------------------------------------------

/// The token id and actor kind of a caller that did not authenticate.
pub const ANONYMOUS_TOKEN_ID: &'static str = "anonymous";

/// A row that the ledger has not numbered, dated or completed yet.
pub open spec fn fresh_row(
    token_id: Seq<char>,
    actor_kind: Seq<char>,
    method: Seq<char>,
    path: Seq<char>,
    status: u16,
    decision: Seq<char>,
) -> AuditModel {
    AuditModel {
        id: 0,
        intent_ms: 0,
        finalized_ms: None,
        token_id,
        actor_kind,
        method,
        path,
        status,
        decision,
        required_scope: None,
        execution_outcome: None,
        domain_error: None,
        credential_fp: None,
    }
}

/// The row of a request that did not authenticate.
pub open spec fn probe_row(
    method: Seq<char>,
    path: Seq<char>,
    status: u16,
    fingerprint: Option<Seq<char>>,
) -> AuditModel {
    AuditModel {
        credential_fp: fingerprint,
        ..fresh_row(ANONYMOUS_TOKEN_ID@, ANONYMOUS_TOKEN_ID@, method, path, status, "deny"@)
    }
}

/// The row of an authenticated request whose token the transport cannot honour.
pub open spec fn denial_row(
    actor: ActorModel,
    method: Seq<char>,
    path: Seq<char>,
    sentinel: Seq<char>,
) -> AuditModel {
    AuditModel {
        required_scope: Some(sentinel),
        ..fresh_row(actor.id, kind_name(actor.kind), method, path, 403, "deny"@)
    }
}

/// The row of a request that is about to run.
pub open spec fn pending_row(actor: ActorModel, method: Seq<char>, path: Seq<char>) -> AuditModel {
    fresh_row(actor.id, kind_name(actor.kind), method, path, 0, "pending"@)
}

/// The row of a request that did not authenticate.
pub fn anonymous_probe(method: &str, path: &str, status: u16, credential_fp: Option<String>) -> (r:
    AuditEntry)
    ensures
        r@ == probe_row(method@, path@, status, opt_text(credential_fp)),
{
    AuditEntry {
        id: 0,
        intent_ms: 0,
        finalized_ms: None,
        token_id: ANONYMOUS_TOKEN_ID.to_owned(),
        actor_kind: ANONYMOUS_TOKEN_ID.to_owned(),
        method: method.to_owned(),
        path: path.to_owned(),
        status,
        decision: "deny".to_owned(),
        required_scope: None,
        execution_outcome: None,
        domain_error: None,
        credential_fp,
    }
}

/// The row of an authenticated request whose token the transport cannot honour.
fn authenticated_denial(actor: &Actor, method: &str, path: &str, sentinel: String) -> (r:
    AuditEntry)
    ensures
        r@ == denial_row(actor@, method@, path@, sentinel@),
{
    AuditEntry {
        id: 0,
        intent_ms: 0,
        finalized_ms: None,
        token_id: actor.id().to_owned(),
        actor_kind: actor.kind().as_str().to_owned(),
        method: method.to_owned(),
        path: path.to_owned(),
        status: 403,
        decision: "deny".to_owned(),
        required_scope: Some(sentinel),
        execution_outcome: None,
        domain_error: None,
        credential_fp: None,
    }
}

/// The row of a request that is about to run.
fn pending_intent(actor: &Actor, method: &str, path: &str) -> (r: AuditEntry)
    ensures
        r@ == pending_row(actor@, method@, path@),
{
    AuditEntry {
        id: 0,
        intent_ms: 0,
        finalized_ms: None,
        token_id: actor.id().to_owned(),
        actor_kind: actor.kind().as_str().to_owned(),
        method: method.to_owned(),
        path: path.to_owned(),
        status: 0,
        decision: "pending".to_owned(),
        required_scope: None,
        execution_outcome: None,
        domain_error: None,
        credential_fp: None,
    }
}

/// The stable name of a plugin error.
pub open spec fn wit_error_name(err: WitError) -> Seq<char> {
    match err {
        WitError::NotFound(_) => "not_found"@,
        WitError::InvalidArgument(_) => "invalid_argument"@,
        WitError::PermissionDenied(_) => "permission_denied"@,
        WitError::Unavailable(_) => "unavailable"@,
        WitError::Internal(_) => "internal"@,
    }
}

/// The stable name of a plugin error, for the ledger's `domain_error` column.
#[must_use]
pub fn wit_error_kind(err: &WitError) -> (r: &'static str)
    ensures
        r@ == wit_error_name(*err),
{
    match err {
        WitError::NotFound(_) => "not_found",
        WitError::InvalidArgument(_) => "invalid_argument",
        WitError::PermissionDenied(_) => "permission_denied",
        WitError::Unavailable(_) => "unavailable",
        WitError::Internal(_) => "internal",
    }
}

/// Whether an HTTP status says success.
pub open spec fn is_success(status: u16) -> bool {
    200 <= status <= 299
}

/// Whether an HTTP status says that the server failed.
pub open spec fn is_server_error(status: u16) -> bool {
    500 <= status <= 599
}

/// What the ledger says of an answer with this status.
pub open spec fn decision_of(status: u16) -> Seq<char> {
    if is_success(status) {
        "allow"@
    } else if is_server_error(status) {
        "error"@
    } else {
        "deny"@
    }
}

/// How a handler ended.
#[derive(Debug)]
pub struct HandlerReport {
    /// The HTTP status of the answer.
    pub status: u16,
    /// The scope that the handler found missing.
    pub denied_scope: Option<String>,
    /// The kind of error that a plugin reported inside an answer that is itself a success.
    pub domain_error: Option<String>,
}

/// What completes a pending row.
pub struct CompletionModel {
    pub audit_id: u64,
    pub status: u16,
    pub decision: Seq<char>,
    pub required_scope: Option<Seq<char>>,
    pub execution_outcome: Option<Seq<char>>,
    pub domain_error: Option<Seq<char>>,
}

/// What completes a pending row of the ledger.
#[derive(Debug)]
pub struct Completion {
    pub audit_id: u64,
    pub status: u16,
    pub decision: String,
    pub required_scope: Option<String>,
    pub execution_outcome: Option<String>,
    pub domain_error: Option<String>,
}

impl View for Completion {
    type V = CompletionModel;

    open spec fn view(&self) -> CompletionModel {
        CompletionModel {
            audit_id: self.audit_id,
            status: self.status,
            decision: self.decision@,
            required_scope: opt_text(self.required_scope),
            execution_outcome: opt_text(self.execution_outcome),
            domain_error: opt_text(self.domain_error),
        }
    }
}

/// How a handler's end is recorded. The decision follows from the status alone: a plugin that
/// fails inside an authorised request is a failed execution, not a denial.
pub open spec fn completion_of(
    audit_id: u64,
    status: u16,
    denied_scope: Option<Seq<char>>,
    domain_error: Option<Seq<char>>,
) -> CompletionModel {
    let failed = is_success(status) && domain_error is Some;
    CompletionModel {
        audit_id,
        status,
        decision: decision_of(status),
        required_scope: denied_scope,
        execution_outcome: if failed {
            Some("failed"@)
        } else {
            None
        },
        domain_error: if failed {
            domain_error
        } else {
            None
        },
    }
}

/// How a handler's end is recorded.
pub fn finalize_audit(audit_id: u64, report: HandlerReport) -> (r: Completion)
    ensures
        r@ == completion_of(
            audit_id,
            report.status,
            opt_text(report.denied_scope),
            opt_text(report.domain_error),
        ),
{
    let status = report.status;
    let success = 200 <= status && status <= 299;
    let decision = if success {
        "allow"
    } else if 500 <= status && status <= 599 {
        "error"
    } else {
        "deny"
    };
    let (execution_outcome, domain_error) = match report.domain_error {
        Some(kind) => {
            if success {
                (Some("failed".to_owned()), Some(kind))
            } else {
                (None, None)
            }
        },
        None => (None, None),
    };
    Completion {
        audit_id,
        status,
        decision: decision.to_owned(),
        required_scope: report.denied_scope,
        execution_outcome,
        domain_error,
    }
}

// ---------------------------------------------------------------------
// The way of a request
// ---------------------------------------------------------------------

/// An answer that authentication gives in place of the handler.
#[derive(Debug, Clone, Copy, PartialEq, Eq, Structural)]
pub enum AuthReply {
    /// No usable token. The reasons are not told apart.
    Unauthorized,
    /// The token carries a constraint that the transport does not honour.
    Forbidden,
    /// The token store or the ledger failed.
    Internal,
}

/// The status of an answer that is given in place of the handler's.
pub open spec fn reply_status(reply: AuthReply) -> u16 {
    match reply {
        AuthReply::Unauthorized => 401,
        AuthReply::Forbidden => 403,
        AuthReply::Internal => 500,
    }
}

impl AuthReply {
    /// The HTTP status.
    pub fn status(self) -> (r: u16)
        ensures
            r == reply_status(self),
    {
        match self {
            AuthReply::Unauthorized => 401,
            AuthReply::Forbidden => 403,
            AuthReply::Internal => 500,
        }
    }

    /// The body.
    pub fn body(self) -> (r: &'static str)
        ensures
            r@ == (if self == AuthReply::Internal {
                "internal error"@
            } else {
                ""@
            }),
    {
        match self {
            AuthReply::Internal => "internal error",
            _ => "",
        }
    }

    /// The value of the `WWW-Authenticate` header.
    pub fn challenge(self) -> (r: Option<&'static str>)
        ensures
            match r {
                Some(c) => self == AuthReply::Unauthorized && c@ == "Bearer"@,
                None => self != AuthReply::Unauthorized,
            },
    {
        match self {
            AuthReply::Unauthorized => Some("Bearer"),
            _ => None,
        }
    }
}

/// Where a request stands.
#[derive(Debug)]
pub enum Stage {
    /// Its bearer is being verified.
    AwaitVerify,
    /// Its pending row is being written.
    AwaitIntent { actor: Actor },
    /// Its handler is running.
    AwaitHandler { audit_id: u64 },
    /// It is answered.
    Done,
}

/// A request on its way through authentication and audit.
#[derive(Debug)]
pub struct Gate {
    pub method: String,
    pub path: String,
    pub stage: Stage,
}

/// What happened since the last step.
#[derive(Debug)]
pub enum GateEvent {
    /// The bearer belongs to this token.
    Verified(TokenRecord),
    /// The bearer belongs to no usable token; a fingerprint of it for the ledger.
    Refused { fingerprint: String },
    /// The token store failed.
    StoreFailed,
    /// The pending row was written under this id.
    IntentWritten(u64),
    /// The pending row was not written: the ledger failed or has too much in flight.
    IntentFailed,
    /// The handler ended.
    Handled(HandlerReport),
}

/// What is to be done next.
#[derive(Debug)]
pub enum GateAction {
    /// Verify this bearer.
    Verify { bearer: String },
    /// Write this pending row.
    WriteIntent(AuditEntry),
    /// Run the handler on behalf of the actor.
    RunHandler { actor: Actor, audit_id: u64 },
    /// Complete the pending row and hand out the handler's answer.
    Complete(Completion),
    /// Answer in place of the handler, after writing the row if the ledger can take it.
    Reply { reply: AuthReply, row: Option<AuditEntry> },
}

/// Whether an action is this reply, with this row for the ledger.
pub open spec fn replies(action: GateAction, reply: AuthReply, row: Option<AuditModel>) -> bool {
    match action {
        GateAction::Reply { reply: given, row: entry } => given == reply && match entry {
            Some(e) => row == Some(e@),
            None => row is None,
        },
        _ => false,
    }
}

/// Whether a request was received so: its bearer is verified if it has one, and otherwise it is
/// answered and recorded as one without a caller.
pub open spec fn is_arrival(
    r: (Gate, GateAction),
    method: Seq<char>,
    path: Seq<char>,
    header: Option<Seq<char>>,
) -> bool {
    &&& r.0.method@ == method
    &&& r.0.path@ == path
    &&& match header {
        Some(h) => match bearer_of(h) {
            Some(credential) => r.0.stage is AwaitVerify && (r.1 matches GateAction::Verify {
                bearer,
            } && bearer@ == credential),
            None => r.0.stage is Done && replies(
                r.1,
                AuthReply::Unauthorized,
                Some(probe_row(method, path, 401, None)),
            ),
        },
        None => r.0.stage is Done && replies(
            r.1,
            AuthReply::Unauthorized,
            Some(probe_row(method, path, 401, None)),
        ),
    }
}

/// Takes a request in. `header` is its `Authorization` header, if it has one that is text.
pub fn begin(method: &str, path: &str, header: Option<&str>) -> (r: (Gate, GateAction))
    ensures
        is_arrival(r, method@, path@, opt_str(header)),
{
    let bearer = match header {
        Some(h) => extract_bearer(h),
        None => None,
    };
    match bearer {
        Some(b) => (
            Gate { method: method.to_owned(), path: path.to_owned(), stage: Stage::AwaitVerify },
            GateAction::Verify { bearer: b.to_owned() },
        ),
        None => {
            let row = anonymous_probe(method, path, 401, None);
            (
                Gate { method: method.to_owned(), path: path.to_owned(), stage: Stage::Done },
                GateAction::Reply { reply: AuthReply::Unauthorized, row: Some(row) },
            )
        },
    }
}

/// What the answer of the store is to a request.
pub open spec fn store_event_of(
    result: Result<TokenRecord, TokenError>,
    fingerprint: String,
) -> GateEvent {
    match result {
        Ok(rec) => GateEvent::Verified(rec),
        Err(TokenError::Storage) => GateEvent::StoreFailed,
        Err(_) => GateEvent::Refused { fingerprint },
    }
}

/// What the token store said of a bearer, as an event of authentication.
pub fn store_event(result: Result<TokenRecord, TokenError>, fingerprint: String) -> (r: GateEvent)
    ensures
        r == store_event_of(result, fingerprint),
{
    match result {
        Ok(rec) => GateEvent::Verified(rec),
        Err(TokenError::Storage) => GateEvent::StoreFailed,
        Err(_) => GateEvent::Refused { fingerprint },
    }
}

/// What a verification that ran ahead of authentication found.
#[derive(Debug)]
pub enum PreVerified {
    Verified(TokenRecord),
    Denied,
    Internal,
}

/// What an earlier verification is to a request.
pub open spec fn preverified_event_of(pre: PreVerified, fingerprint: String) -> GateEvent {
    match pre {
        PreVerified::Verified(rec) => GateEvent::Verified(rec),
        PreVerified::Denied => GateEvent::Refused { fingerprint },
        PreVerified::Internal => GateEvent::StoreFailed,
    }
}

/// The token whose use is to be noted after an earlier verification.
pub open spec fn used_token_of(pre: PreVerified) -> Option<Seq<char>> {
    match pre {
        PreVerified::Verified(rec) => Some(rec.id@),
        _ => None,
    }
}

/// What an earlier verification found, as an event of authentication, and the id of the token whose
/// time of last use is then still to be recorded.
pub fn preverified_event(pre: PreVerified, fingerprint: String) -> (r: (GateEvent, Option<String>))
    ensures
        r.0 == preverified_event_of(pre, fingerprint),
        opt_text(r.1) == used_token_of(pre),
{
    match pre {
        PreVerified::Verified(rec) => {
            let id = rec.id.clone();
            (GateEvent::Verified(rec), Some(id))
        },
        PreVerified::Denied => (GateEvent::Refused { fingerprint }, None),
        PreVerified::Internal => (GateEvent::StoreFailed, None),
    }
}

/// Whether a mark names a constraint of the token that the transport does not honour.
pub open spec fn is_refusal_mark(
    enforced: Seq<EnforcedConstraint>,
    constraints: Map<Seq<char>, ConstraintModel>,
    sentinel: Seq<char>,
) -> bool {
    exists|refusal: ConstraintRefusal|
        #[trigger] refusal_is_true(enforced, constraints, refusal) && sentinel == refusal_sentinel(
            refusal,
        )
}

/// Whether an action denies the request of an authenticated caller whose token carries a
/// constraint that the transport does not honour.
pub open spec fn denies_constraint(
    action: GateAction,
    actor: ActorModel,
    method: Seq<char>,
    path: Seq<char>,
    enforced: Seq<EnforcedConstraint>,
) -> bool {
    match action {
        GateAction::Reply { reply, row: Some(entry) } => reply == AuthReply::Forbidden
            && entry@.required_scope is Some && is_refusal_mark(
            enforced,
            actor.constraints,
            entry@.required_scope->0,
        ) && entry@ == denial_row(actor, method, path, entry@.required_scope->0),
        _ => false,
    }
}

/// One step of a request: what follows from where it stands and what happened. An event that
/// does not belong to the stage ends the request with a failure.
pub open spec fn is_step(
    before: Gate,
    event: GateEvent,
    enforced: Seq<EnforcedConstraint>,
    after: Gate,
    action: GateAction,
) -> bool {
    &&& after.method@ == before.method@
    &&& after.path@ == before.path@
    &&& match (before.stage, event) {
        (Stage::AwaitVerify, GateEvent::Verified(rec)) => {
            let actor = record_actor(rec);
            if all_honoured(enforced, actor.constraints) {
                &&& after.stage matches Stage::AwaitIntent { actor: a } && a@ == actor
                &&& action matches GateAction::WriteIntent(row) && row@ == pending_row(
                    actor,
                    before.method@,
                    before.path@,
                )
            } else {
                &&& after.stage is Done
                &&& denies_constraint(action, actor, before.method@, before.path@, enforced)
            }
        },
        (Stage::AwaitVerify, GateEvent::Refused { fingerprint }) => {
            &&& after.stage is Done
            &&& replies(
                action,
                AuthReply::Unauthorized,
                Some(probe_row(before.method@, before.path@, 401, Some(fingerprint@))),
            )
        },
        (Stage::AwaitIntent { actor }, GateEvent::IntentWritten(id)) => {
            &&& after.stage == (Stage::AwaitHandler { audit_id: id })
            &&& action == (GateAction::RunHandler { actor, audit_id: id })
        },
        (Stage::AwaitHandler { audit_id }, GateEvent::Handled(report)) => {
            &&& after.stage is Done
            &&& action matches GateAction::Complete(completion) && completion@ == completion_of(
                audit_id,
                report.status,
                opt_text(report.denied_scope),
                opt_text(report.domain_error),
            )
        },
        (_, _) => {
            &&& after.stage is Done
            &&& replies(action, AuthReply::Internal, None)
        },
    }
}

/// Takes a request one step further.
pub fn step(gate: Gate, event: GateEvent, enforced: &[EnforcedConstraint]) -> (r: (
    Gate,
    GateAction,
))
    ensures
        is_step(gate, event, enforced@, r.0, r.1),
{
    let Gate { method, path, stage } = gate;
    match (stage, event) {
        (Stage::AwaitVerify, GateEvent::Verified(rec)) => {
            let actor = actor_from_record(&rec);
            if let Some(refusal) = first_constraint_refusal(&actor, enforced) {
                proof {
                    assert(is_refusal_mark(
                        enforced@,
                        actor@.constraints,
                        refusal_sentinel(refusal),
                    ));
                    lemma_refusal_means_unhonoured(enforced@, actor@.constraints, refusal);
                }
                let row = authenticated_denial(
                    &actor,
                    method.as_str(),
                    path.as_str(),
                    refusal.audit_sentinel(),
                );
                return (
                    Gate { method, path, stage: Stage::Done },
                    GateAction::Reply { reply: AuthReply::Forbidden, row: Some(row) },
                );
            }
            let row = pending_intent(&actor, method.as_str(), path.as_str());
            (
                Gate { method, path, stage: Stage::AwaitIntent { actor } },
                GateAction::WriteIntent(row),
            )
        },
        (Stage::AwaitVerify, GateEvent::Refused { fingerprint }) => {
            let row = anonymous_probe(method.as_str(), path.as_str(), 401, Some(fingerprint));
            (
                Gate { method, path, stage: Stage::Done },
                GateAction::Reply { reply: AuthReply::Unauthorized, row: Some(row) },
            )
        },
        (Stage::AwaitIntent { actor }, GateEvent::IntentWritten(id)) => (
            Gate { method, path, stage: Stage::AwaitHandler { audit_id: id } },
            GateAction::RunHandler { actor, audit_id: id },
        ),
        (Stage::AwaitHandler { audit_id }, GateEvent::Handled(report)) => {
            let completion = finalize_audit(audit_id, report);
            (Gate { method, path, stage: Stage::Done }, GateAction::Complete(completion))
        },
        (_, _) => (
            Gate { method, path, stage: Stage::Done },
            GateAction::Reply { reply: AuthReply::Internal, row: None },
        ),
    }
}

/// A true refusal means that not everything is honoured.
proof fn lemma_refusal_means_unhonoured(
    enforced: Seq<EnforcedConstraint>,
    constraints: Map<Seq<char>, ConstraintModel>,
    refusal: ConstraintRefusal,
)
    requires
        refusal_is_true(enforced, constraints, refusal),
    ensures
        !all_honoured(enforced, constraints),
{
    match refusal {
        ConstraintRefusal::KeyNotEnforced { key } => {
            assert(!constraint_honoured(enforced, key@, constraints[key@]));
        },
        ConstraintRefusal::FieldNotEnforced { key, field } => {
            assert(!constraint_honoured(enforced, key@, constraints[key@]));
        },
    }
}

// ---------------------------------------------------------------------
// Laws
// ---------------------------------------------------------------------

/// The steps of one request in a row, each from where the one before it ended, under one set of
/// enforced constraints.
pub open spec fn is_run(
    run: Seq<(Gate, GateEvent, Gate, GateAction)>,
    enforced: Seq<EnforcedConstraint>,
) -> bool {
    &&& forall|i: int|
        0 <= i < run.len() ==> {
            let s = #[trigger] run[i];
            is_step(s.0, s.1, enforced, s.2, s.3)
        }
    &&& forall|i: int| 0 < i < run.len() ==> (#[trigger] run[i]).0 == run[i - 1].2
    &&& run.len() > 0 ==> run[0].0.stage is AwaitVerify
}

/// No handler runs before its request is on the ledger: the step before asked for the pending
/// row, and the row was written under the id that the handler gets.
pub proof fn law_handler_runs_after_intent(
    run: Seq<(Gate, GateEvent, Gate, GateAction)>,
    enforced: Seq<EnforcedConstraint>,
    i: int,
)
    requires
        is_run(run, enforced),
        0 <= i < run.len(),
        run[i].3 is RunHandler,
    ensures
        i > 0,
        run[i - 1].3 is WriteIntent,
        run[i].1 == GateEvent::IntentWritten(run[i].3->audit_id),
{
    let s = run[i];
    assert(is_step(s.0, s.1, enforced, s.2, s.3));
    assert(s.0.stage is AwaitIntent);
    if i > 0 {
        assert(run[i].0 == run[i - 1].2);
        let p = run[i - 1];
        assert(is_step(p.0, p.1, enforced, p.2, p.3));
    }
}

/// A row is completed only after its handler ran, and under the id that the handler was given.
pub proof fn law_completion_follows_handler(
    run: Seq<(Gate, GateEvent, Gate, GateAction)>,
    enforced: Seq<EnforcedConstraint>,
    i: int,
)
    requires
        is_run(run, enforced),
        0 <= i < run.len(),
        run[i].3 is Complete,
    ensures
        i > 0,
        run[i - 1].3 is RunHandler,
        run[i].3->Complete_0@.audit_id == run[i - 1].3->audit_id,
{
    let s = run[i];
    assert(is_step(s.0, s.1, enforced, s.2, s.3));
    assert(s.0.stage is AwaitHandler);
    if i > 0 {
        assert(run[i].0 == run[i - 1].2);
        let p = run[i - 1];
        assert(is_step(p.0, p.1, enforced, p.2, p.3));
    }
}

/// After authentication has answered in place of the handler, no handler runs.
pub proof fn law_no_handler_after_reply(
    run: Seq<(Gate, GateEvent, Gate, GateAction)>,
    enforced: Seq<EnforcedConstraint>,
    i: int,
    j: int,
)
    requires
        is_run(run, enforced),
        0 <= i < j < run.len(),
        run[i].3 is Reply,
    ensures
        !(run[j].3 is RunHandler),
        run[j].2.stage is Done,
    decreases j,
{
    if j == i + 1 {
        let s = run[i];
        assert(is_step(s.0, s.1, enforced, s.2, s.3));
        assert(s.2.stage is Done);
    } else {
        law_no_handler_after_reply(run, enforced, i, j - 1);
    }
    assert(run[j].0 == run[j - 1].2);
    let t = run[j];
    assert(is_step(t.0, t.1, enforced, t.2, t.3));
}

/// A malformed policy lets its token authenticate with no scope at all.
pub proof fn law_malformed_policy_grants_nothing(rec: TokenRecord)
    requires
        policy_of_bytes(rec.scope_json@) is None,
    ensures
        record_actor(rec).scopes == Seq::<Seq<char>>::empty(),
        record_actor(rec).constraints == Map::<Seq<char>, ConstraintModel>::empty(),
{
}

/// On a transport that enforces nothing, a token with any constraint is refused.
pub proof fn law_no_enforcement_refuses_constraints(
    constraints: Map<Seq<char>, ConstraintModel>,
    key: Seq<char>,
)
    requires
        constraints.dom().contains(key),
    ensures
        !all_honoured(Seq::<EnforcedConstraint>::empty(), constraints),
{
    assert(!constraint_honoured(Seq::<EnforcedConstraint>::empty(), key, constraints[key]));
}

/// The marks of the two kinds of refusal never coincide, whatever the tool names hold.
pub proof fn law_sentinels_tell_kinds_apart(a: Seq<char>, b: Seq<char>, field: Seq<char>)
    ensures
        key_sentinel(a) != field_sentinel(b, field),
{
    reveal_strlit("<constraint-key-unenforced:");
    reveal_strlit("<constraint-field-unenforced:");
    assert(key_sentinel(a)[12] == 'k');
    assert(field_sentinel(b, field)[12] == 'f');
}

/// The mark of an unenforced tool tells which tool it is.
pub proof fn law_key_sentinel_names_the_tool(a: Seq<char>, b: Seq<char>)
    requires
        key_sentinel(a) == key_sentinel(b),
    ensures
        a == b,
{
    reveal_strlit("<constraint-key-unenforced:");
    reveal_strlit(">");
    let head = "<constraint-key-unenforced:"@.len() as int;
    assert(key_sentinel(a).len() == head + a.len() + 1);
    assert(key_sentinel(b).len() == head + b.len() + 1);
    assert(a =~= key_sentinel(a).subrange(head, head + a.len()));
    assert(b =~= key_sentinel(b).subrange(head, head + b.len()));
}

/// The mark of an unenforced field tells which tool and which field it is.
pub proof fn law_field_sentinel_names_tool_and_field(
    a: Seq<char>,
    f: Seq<char>,
    b: Seq<char>,
    g: Seq<char>,
)
    requires
        field_sentinel(a, f) == field_sentinel(b, g),
        f == "devices"@ || f == "plugins"@,
        g == "devices"@ || g == "plugins"@,
    ensures
        a == b,
        f == g,
{
    reveal_strlit("<constraint-field-unenforced:");
    reveal_strlit(">");
    reveal_strlit(":");
    reveal_strlit("devices");
    reveal_strlit("plugins");
    let head = "<constraint-field-unenforced:"@.len() as int;
    assert(field_sentinel(a, f).len() == head + a.len() + 9);
    assert(field_sentinel(b, g).len() == head + b.len() + 9);
    assert(a =~= field_sentinel(a, f).subrange(head, head + a.len()));
    assert(b =~= field_sentinel(b, g).subrange(head, head + b.len()));
    assert(f =~= field_sentinel(a, f).subrange(head + a.len() + 1, head + a.len() + 8));
    assert(g =~= field_sentinel(b, g).subrange(head + b.len() + 1, head + b.len() + 8));
}

/// A failure inside a plugin never turns an authorised request into a denied one, and a denied
/// request never carries a plugin's failure.
pub proof fn law_authorisation_and_execution_are_apart(
    audit_id: u64,
    status: u16,
    denied_scope: Option<Seq<char>>,
    domain_error: Option<Seq<char>>,
)
    ensures
        completion_of(audit_id, status, denied_scope, domain_error).decision == completion_of(
            audit_id,
            status,
            denied_scope,
            None,
        ).decision,
        !is_success(status) ==> completion_of(
            audit_id,
            status,
            denied_scope,
            domain_error,
        ).domain_error is None,
{
}

/// A number of spaces.
pub open spec fn spaces(n: nat) -> Seq<char> {
    Seq::new(n, |i: int| ' ')
}

/// Cutting the spaces off a text leaves what follows them.
proof fn lemma_trim_spaces(n: nat, text: Seq<char>)
    requires
        text.len() > 0,
        text[0] != ' ',
    ensures
        trim_spaces(spaces(n) + text) == text,
    decreases n,
{
    if n == 0 {
        assert(spaces(n) + text =~= text);
    } else {
        assert((spaces(n) + text).skip(1) =~= spaces((n - 1) as nat) + text);
        lemma_trim_spaces((n - 1) as nat, text);
    }
}

/// The case of the scheme and the number of spaces after it make no difference: every spelling of
/// the header carries the same credential.
pub proof fn law_bearer_spelling_is_free(scheme: Seq<char>, n: nat, credential: Seq<char>)
    requires
        is_bearer_scheme(scheme),
        n > 0,
        credential.len() > 0,
        credential[0] != ' ',
    ensures
        bearer_of(scheme + spaces(n) + credential) == Some(credential),
{
    let header = scheme + spaces(n) + credential;
    let rest = spaces((n - 1) as nat) + credential;
    reveal_strlit("Bearer");
    let lower = |c: char| ascii_lower_of(c);
    assert(!scheme.contains(' ')) by {
        assert(scheme.map_values(lower).len() == scheme.len());
        assert("Bearer"@.map_values(lower).len() == 6);
        assert(scheme.map_values(lower) == "Bearer"@.map_values(lower));
        assert forall|i: int| 0 <= i < scheme.len() implies scheme[i] != ' ' by {
            assert(scheme.map_values(lower)[i] == lower(scheme[i]));
            assert("Bearer"@.map_values(lower)[i] == lower("Bearer"@[i]));
        }
    }
    assert(header =~= scheme.push(' ') + rest);
    lemma_split_head(scheme, ' ', rest);
    lemma_trim_spaces((n - 1) as nat, credential);
}

} // verus!
