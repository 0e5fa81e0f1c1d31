//! Who is let through, as whom, and what the ledger learns of it.

use vstd::prelude::*;
use vstd::utf8::*;

use crate::api::auth::{
    all_honoured, bearer_of, completion_of, constraint_honoured, denial_row, entry_for, is_arrival,
    is_bearer_scheme, is_step, pending_row, preverified_event_of, probe_row, record_actor,
    refusal_is_true, refusal_sentinel, reply_status, spaces, store_event_of, trim_spaces,
    used_token_of, AuthReply, ConstraintRefusal, Gate, GateAction, GateEvent, Stage,
};
use crate::api::mcp::handler::resolved;
use crate::api::mcp::rate_limit::{key_of, verified_of};
use crate::auth::{kind_name, ActorKind, ActorModel};
use crate::auth::policy::{policy_of, ConstraintModel, EnforcedConstraint};
use crate::laws::policy::law_policies_are_stored_as_text;
use crate::state::{TokenError, TokenRecord};
use crate::text::{ascii_lower_of, lemma_split_head, opt_text, split_once_at};

verus! {

// ---------------------------------------------------------------------
// The bearer
// ---------------------------------------------------------------------

/// The scheme is the word `Bearer`, in letters of either case.
pub proof fn law_the_scheme_is_bearer(scheme: Seq<char>)
    ensures
        is_bearer_scheme(scheme) ==> scheme.len() == 6,
        is_bearer_scheme("Bearer"@),
        is_bearer_scheme("bearer"@),
        is_bearer_scheme("BEARER"@),
        scheme == "Basic"@ ==> !is_bearer_scheme(scheme),
        scheme == "Digest"@ ==> !is_bearer_scheme(scheme),
        scheme.len() == 0 ==> !is_bearer_scheme(scheme),
{
    reveal_strlit("Bearer");
    reveal_strlit("bearer");
    reveal_strlit("BEARER");
    reveal_strlit("Basic");
    reveal_strlit("Digest");
    let lower = "Bearer"@.map_values(|c: char| ascii_lower_of(c));
    assert(lower.len() == 6);
    if is_bearer_scheme(scheme) {
        assert(scheme.map_values(|c: char| ascii_lower_of(c)).len() == scheme.len());
    }
    assert("bearer"@.map_values(|c: char| ascii_lower_of(c)) =~= lower);
    assert("BEARER"@.map_values(|c: char| ascii_lower_of(c)) =~= lower);
    if scheme == "Digest"@ {
        let other = scheme.map_values(|c: char| ascii_lower_of(c));
        assert(other[0] == ascii_lower_of('D'));
        assert(lower[0] == ascii_lower_of('B'));
    }
}

/// What is taken as the credential stands at the end of the header, behind the scheme and one or
/// more spaces, is not empty and does not begin with a space.
pub proof fn law_credentials_stand_behind_the_scheme(header: Seq<char>, credential: Seq<char>)
    requires
        bearer_of(header) == Some(credential),
    ensures
        credential.len() > 0,
        credential[0] != ' ',
        exists|scheme: Seq<char>, n: nat|
            is_bearer_scheme(scheme) && n > 0 && header == #[trigger] (scheme + spaces(n))
                + credential,
{
    let (scheme, rest) = split_once_at(header, ' ')->0;
    header.index_of_first_ensures(' ');
    let at = header.index_of_first(' ')->0;
    lemma_trimmed(rest);
    let n = (rest.len() - credential.len() + 1) as nat;
    assert(header =~= (scheme + spaces(n)) + credential) by {
        assert forall|i: int| 0 <= i < header.len() implies header[i] == ((scheme + spaces(n))
            + credential)[i] by {
            if i < at {
                assert(header[i] == scheme[i]);
            } else if i > at {
                assert(header[i] == rest[i - at - 1]);
            }
        }
    }
}

/// What stands behind the scheme and one or more spaces is taken as the credential.
pub proof fn law_credentials_are_taken(
    header: Seq<char>,
    scheme: Seq<char>,
    n: nat,
    credential: Seq<char>,
)
    requires
        is_bearer_scheme(scheme),
        !scheme.contains(' '),
        n > 0,
        credential.len() > 0,
        credential[0] != ' ',
        header == scheme + spaces(n) + credential,
    ensures
        bearer_of(header) == Some(credential),
{
    let rest = spaces((n - 1) as nat) + credential;
    assert(header =~= scheme.push(' ') + rest);
    lemma_split_head(scheme, ' ', rest);
    lemma_trims_spaces((n - 1) as nat, credential);
}

/// Spaces in front of a text that begins with none are trimmed.
proof fn lemma_trims_spaces(n: nat, text: Seq<char>)
    requires
        text.len() > 0,
        text[0] != ' ',
    ensures
        trim_spaces(spaces(n) + text) == text,
    decreases n,
{
    let all = spaces(n) + text;
    if n > 0 {
        assert(all[0] == ' ');
        assert(all.skip(1) =~= spaces((n - 1) as nat) + text);
        lemma_trims_spaces((n - 1) as nat, text);
    } else {
        assert(all =~= text);
    }
}

/// Only spaces are trimmed, and all of those in front.
proof fn lemma_trimmed(text: Seq<char>)
    ensures
        trim_spaces(text).len() <= text.len(),
        trim_spaces(text) == text.skip(text.len() - trim_spaces(text).len()),
        forall|i: int| 0 <= i < text.len() - trim_spaces(text).len() ==> #[trigger] text[i] == ' ',
        trim_spaces(text).len() > 0 ==> trim_spaces(text)[0] != ' ',
    decreases text.len(),
{
    if text.len() > 0 && text[0] == ' ' {
        let rest = text.skip(1);
        lemma_trimmed(rest);
        let k = rest.len() - trim_spaces(rest).len();
        assert(rest.skip(k) =~= text.skip(k + 1));
        assert forall|i: int| 0 <= i < text.len() - trim_spaces(text).len() implies
            #[trigger] text[i] == ' ' by {
            if i > 0 {
                assert(text[i] == rest[i - 1]);
            }
        }
    } else {
        assert(text.skip(0) =~= text);
    }
}

// ---------------------------------------------------------------------
// Callers
// ---------------------------------------------------------------------

/// A token acts under its own id, as a caller of the API, with what its policy grants.
pub proof fn law_tokens_act_under_their_policy(rec: TokenRecord, text: Seq<char>)
    requires
        rec.scope_json@ == encode_utf8(text),
        policy_of(text) is Some,
    ensures
        record_actor(rec).id == rec.id@,
        record_actor(rec).kind == ActorKind::Api,
        record_actor(rec).scopes == policy_of(text)->0.scopes,
        record_actor(rec).constraints == policy_of(text)->0.constraints,
{
    law_policies_are_stored_as_text(text, rec.scope_json@);
}

/// The name of each kind of caller.
pub proof fn law_callers_have_these_kinds(kind: ActorKind)
    ensures
        kind_name(kind) == (match kind {
            ActorKind::Plugin => "plugin"@,
            ActorKind::Api => "api"@,
            ActorKind::Cli => "cli"@,
            ActorKind::Mcp => "mcp"@,
            ActorKind::Automation => "automation"@,
        }),
{
}

/// A process that was started by the operator acts for itself; otherwise the caller of the
/// request counts, and without one nobody does anything.
pub proof fn law_the_caller_is_resolved(stdio: ActorModel, request: ActorModel)
    ensures
        resolved(Some(stdio), Some(request)) == stdio,
        resolved(Some(stdio), None) == stdio,
        resolved(None, Some(request)) == request,
        resolved(None, None).scopes.len() == 0,
        resolved(None, None).id == "anonymous"@,
{
}

// ---------------------------------------------------------------------
// Constraints
// ---------------------------------------------------------------------

/// Whether the entries honour a constraint on a tool: one is for the tool and honours every field
/// that the constraint sets.
pub open spec fn is_honoured(
    enforced: Seq<EnforcedConstraint>,
    tool: Seq<char>,
    constraint: ConstraintModel,
) -> bool {
    exists|i: int|
        0 <= i < enforced.len() && (#[trigger] enforced[i]).key@ == tool && (
        constraint.devices is Some ==> enforced[i].enforce_devices) && (constraint.plugins is Some
            ==> enforced[i].enforce_plugins)
}

/// A token is let through only where each of its constraints is honoured: none is passed over.
pub proof fn law_unhonoured_constraints_stop_a_token(
    enforced: Seq<EnforcedConstraint>,
    constraints: Map<Seq<char>, ConstraintModel>,
)
    requires
        all_honoured(enforced, constraints),
    ensures
        forall|tool: Seq<char>|
            constraints.dom().contains(tool) ==> #[trigger] is_honoured(
                enforced,
                tool,
                constraints[tool],
            ),
{
    assert forall|tool: Seq<char>| constraints.dom().contains(tool) implies #[trigger] is_honoured(
        enforced,
        tool,
        constraints[tool],
    ) by {
        assert(constraint_honoured(enforced, tool, constraints[tool]));
        lemma_entry_for(enforced, tool);
        let i = choose|i: int|
            0 <= i < enforced.len() && (#[trigger] enforced[i]).key@ == tool && entry_for(
                enforced,
                tool,
            ) == Some(enforced[i]);
        assert(enforced[i].key@ == tool);
    }
}

/// Where no tool has two entries, a token whose constraints are all honoured is let through.
pub proof fn law_honoured_constraints_pass(
    enforced: Seq<EnforcedConstraint>,
    constraints: Map<Seq<char>, ConstraintModel>,
)
    requires
        forall|i: int, j: int|
            0 <= i < enforced.len() && 0 <= j < enforced.len() && (#[trigger] enforced[i]).key@ == (
            #[trigger] enforced[j]).key@ ==> i == j,
        forall|tool: Seq<char>|
            constraints.dom().contains(tool) ==> #[trigger] is_honoured(
                enforced,
                tool,
                constraints[tool],
            ),
    ensures
        all_honoured(enforced, constraints),
{
    assert forall|tool: Seq<char>| constraints.dom().contains(tool) implies
        #[trigger] constraint_honoured(enforced, tool, constraints[tool]) by {
        assert(is_honoured(enforced, tool, constraints[tool]));
        let i = choose|i: int|
            0 <= i < enforced.len() && (#[trigger] enforced[i]).key@ == tool && (
            constraints[tool].devices is Some ==> enforced[i].enforce_devices) && (
            constraints[tool].plugins is Some ==> enforced[i].enforce_plugins);
        lemma_entry_for(enforced, tool);
        let j = choose|j: int|
            0 <= j < enforced.len() && (#[trigger] enforced[j]).key@ == tool && entry_for(
                enforced,
                tool,
            ) == Some(enforced[j]);
        assert(i == j);
    }
}

/// The entry for a tool is one of the entries that name it, if one does.
proof fn lemma_entry_for(enforced: Seq<EnforcedConstraint>, tool: Seq<char>)
    ensures
        entry_for(enforced, tool) is Some <==> exists|i: int|
            0 <= i < enforced.len() && (#[trigger] enforced[i]).key@ == tool,
        entry_for(enforced, tool) is Some ==> exists|i: int|
            0 <= i < enforced.len() && (#[trigger] enforced[i]).key@ == tool && entry_for(
                enforced,
                tool,
            ) == Some(enforced[i]),
    decreases enforced.len(),
{
    if enforced.len() > 0 {
        let rest = enforced.skip(1);
        lemma_entry_for(rest, tool);
        if enforced[0].key@ == tool {
            assert(entry_for(enforced, tool) == Some(enforced[0]));
        } else {
            if entry_for(rest, tool) is Some {
                let i = choose|i: int|
                    0 <= i < rest.len() && (#[trigger] rest[i]).key@ == tool && entry_for(
                        rest,
                        tool,
                    ) == Some(rest[i]);
                assert(enforced[i + 1].key@ == tool);
            }
            if exists|i: int| 0 <= i < enforced.len() && (#[trigger] enforced[i]).key@ == tool {
                let i = choose|i: int|
                    0 <= i < enforced.len() && (#[trigger] enforced[i]).key@ == tool;
                assert(rest[i - 1].key@ == tool);
            }
        }
    }
}

/// A refusal names a constraint that the token carries and that is not honoured, and the field
/// that is not.
pub proof fn law_refusals_name_what_is_not_honoured(
    enforced: Seq<EnforcedConstraint>,
    constraints: Map<Seq<char>, ConstraintModel>,
    refusal: ConstraintRefusal,
)
    requires
        refusal_is_true(enforced, constraints, refusal),
    ensures
        match refusal {
            ConstraintRefusal::KeyNotEnforced { key } => constraints.dom().contains(key@)
                && forall|i: int|
                0 <= i < enforced.len() ==> (#[trigger] enforced[i]).key@ != key@,
            ConstraintRefusal::FieldNotEnforced { key, field } => constraints.dom().contains(key@)
                && exists|i: int|
                0 <= i < enforced.len() && (#[trigger] enforced[i]).key@ == key@ && ((field@
                    == "devices"@ && constraints[key@].devices is Some
                    && !enforced[i].enforce_devices) || (field@ == "plugins"@
                    && constraints[key@].plugins is Some && !enforced[i].enforce_plugins)),
        },
{
    let key = match refusal {
        ConstraintRefusal::KeyNotEnforced { key } => key@,
        ConstraintRefusal::FieldNotEnforced { key, .. } => key@,
    };
    lemma_entry_for(enforced, key);
}

// ---------------------------------------------------------------------
// The way of a request
// ---------------------------------------------------------------------

/// A request goes on to be verified exactly when it carries a bearer, with that bearer; otherwise
/// it is answered by 401 and recorded without a caller.
pub proof fn law_requests_need_a_bearer(
    r: (Gate, GateAction),
    method: Seq<char>,
    path: Seq<char>,
    header: Option<Seq<char>>,
)
    requires
        is_arrival(r, method, path, header),
    ensures
        r.0.method@ == method && r.0.path@ == path,
        r.1 is Verify <==> (header matches Some(h) && bearer_of(h) is Some),
        r.1 matches GateAction::Verify { bearer } ==> bearer_of(header->0) == Some(bearer@),
        !(r.1 is Verify) ==> (r.1 matches GateAction::Reply { reply, row: Some(row) }
            && reply_status(reply) == 401 && row@.status == 401 && row@.token_id == "anonymous"@
            && row@.actor_kind == "anonymous"@ && row@.method == method && row@.path == path
            && row@.decision == "deny"@ && row@.credential_fp is None),
{
}

/// Whether the store is asked now or was asked before, the request fares alike.
pub proof fn law_both_ways_of_verifying_agree(
    found: Result<TokenRecord, TokenError>,
    fingerprint: String,
)
    ensures
        preverified_event_of(verified_of(found), fingerprint) == store_event_of(found, fingerprint),
        store_event_of(found, fingerprint) is Verified <==> found is Ok,
        found matches Ok(rec) ==> store_event_of(found, fingerprint) == GateEvent::Verified(rec)
            && used_token_of(verified_of(found)) == Some(rec.id@) && key_of(verified_of(found))
            == rec.id@,
        store_event_of(found, fingerprint) is StoreFailed <==> found == Err::<
            TokenRecord,
            TokenError,
        >(TokenError::Storage),
        found is Err ==> used_token_of(verified_of(found)) is None,
        store_event_of(found, fingerprint) matches GateEvent::Refused { fingerprint: f } ==> f
            == fingerprint,
{
}

/// Whatever becomes of a request, its rows name its method and its path. Before the handler runs
/// a pending row names the caller; a refusal is recorded with the status of its answer; a token
/// that is not known is recorded by its fingerprint.
pub proof fn law_rows_name_the_request(
    gate: Gate,
    event: GateEvent,
    enforced: Seq<EnforcedConstraint>,
    after: Gate,
    action: GateAction,
)
    requires
        is_step(gate, event, enforced, after, action),
    ensures
        action matches GateAction::WriteIntent(row) ==> row@.method == gate.method@ && row@.path
            == gate.path@ && row@.status == 0 && row@.decision == "pending"@ && (event matches
            GateEvent::Verified(rec) && row@.token_id == rec.id@) && row@.actor_kind == "api"@,
        action matches GateAction::Reply { reply, row: Some(row) } ==> row@.method == gate.method@
            && row@.path == gate.path@ && row@.status == reply_status(reply) && row@.decision
            == "deny"@,
        event matches GateEvent::Refused { fingerprint } ==> (gate.stage is AwaitVerify ==> (action
            matches GateAction::Reply { reply, row: Some(row) } && reply == AuthReply::Unauthorized
            && row@.credential_fp == Some(fingerprint@) && row@.token_id == "anonymous"@)),
        event is StoreFailed || event is IntentFailed ==> (action matches GateAction::Reply {
            reply,
            row,
        } && reply_status(reply) == 500 && row is None),
{
    reveal_strlit("api");
}

/// A row says what happened to whom, and leaves open what did not happen: a token that is not
/// honoured is denied under its own id with what it asks for, a request that runs is pending, and a
/// probe is denied under nobody's name with what is left of its credential.
pub proof fn law_rows_say_what_happened(
    actor: ActorModel,
    method: Seq<char>,
    path: Seq<char>,
    sentinel: Seq<char>,
    status: u16,
    credential_fp: Option<Seq<char>>,
)
    ensures
        ({
            let denied = denial_row(actor, method, path, sentinel);
            let pending = pending_row(actor, method, path);
            let probe = probe_row(method, path, status, credential_fp);
            &&& denied.token_id == actor.id && pending.token_id == actor.id && probe.token_id
                == "anonymous"@
            &&& denied.method == method && pending.method == method && probe.method == method
            &&& denied.path == path && pending.path == path && probe.path == path
            &&& denied.status == 403 && pending.status == 0 && probe.status == status
            &&& denied.decision == "deny"@ && pending.decision == "pending"@ && probe.decision
                == "deny"@
            &&& denied.required_scope == Some(sentinel) && pending.required_scope is None
                && probe.required_scope is None
            &&& denied.credential_fp is None && pending.credential_fp is None && probe.credential_fp
                == credential_fp
            &&& denied.execution_outcome is None && pending.execution_outcome is None
                && probe.execution_outcome is None
            &&& denied.domain_error is None && pending.domain_error is None && probe.domain_error
                is None
            &&& denied.finalized_ms is None && pending.finalized_ms is None && probe.finalized_ms
                is None
            &&& actor.kind == ActorKind::Api ==> denied.actor_kind == "api"@ && pending.actor_kind
                == "api"@
        }),
{
}

/// A token is let through exactly when its constraints are honoured; otherwise it is refused under
/// its own id.
pub proof fn law_verified_tokens_go_on(
    gate: Gate,
    rec: TokenRecord,
    enforced: Seq<EnforcedConstraint>,
    after: Gate,
    action: GateAction,
)
    requires
        gate.stage is AwaitVerify,
        is_step(gate, GateEvent::Verified(rec), enforced, after, action),
    ensures
        action is WriteIntent <==> all_honoured(enforced, record_actor(rec).constraints),
        action is WriteIntent ==> (after.stage matches Stage::AwaitIntent { actor } && actor@
            == record_actor(rec)),
        !(action is WriteIntent) ==> (action matches GateAction::Reply { reply, row: Some(row) }
            && reply == AuthReply::Forbidden && row@.token_id == rec.id@ && row@.required_scope
            is Some),
{
}

/// The handler runs for the caller that was verified, with the number of the row that was written
/// for it.
pub proof fn law_handlers_run_for_the_verified_caller(
    gate: Gate,
    event: GateEvent,
    enforced: Seq<EnforcedConstraint>,
    after: Gate,
    action: GateAction,
)
    requires
        is_step(gate, event, enforced, after, action),
    ensures
        action matches GateAction::RunHandler { actor, audit_id } ==> event
            == GateEvent::IntentWritten(audit_id) && (gate.stage matches Stage::AwaitIntent {
            actor: a,
        } && a == actor),
{
}

/// A request whose intent is written runs, and one whose handler ends is completed under the number
/// of its own row, with what the handler reported; where the intent cannot be written it is not
/// run.
pub proof fn law_recorded_requests_run_and_are_completed(
    gate: Gate,
    event: GateEvent,
    enforced: Seq<EnforcedConstraint>,
    after: Gate,
    action: GateAction,
)
    requires
        is_step(gate, event, enforced, after, action),
    ensures
        gate.stage is AwaitIntent && event is IntentWritten ==> action == (GateAction::RunHandler {
            actor: gate.stage->actor,
            audit_id: event->IntentWritten_0,
        }) && after.stage == (Stage::AwaitHandler { audit_id: event->IntentWritten_0 }),
        gate.stage is AwaitIntent && !(event is IntentWritten) ==> after.stage is Done && (action
            matches GateAction::Reply { reply, row } && reply_status(reply) == 500),
        gate.stage is AwaitHandler && event is Handled ==> after.stage is Done && (action matches
            GateAction::Complete(end) && end.audit_id == gate.stage->audit_id && end.status
            == event->Handled_0.status && opt_text(end.required_scope) == opt_text(
            event->Handled_0.denied_scope,
        )),
        gate.stage is Done ==> !(action is RunHandler) && !(action is Complete),
        after.method@ == gate.method@ && after.path@ == gate.path@,
        action is Reply || action is Complete <==> after.stage is Done,
{
    if let GateAction::Complete(end) = action {
        assert(end@.audit_id == end.audit_id);
        assert(end@.status == end.status);
        assert(end@.required_scope == opt_text(end.required_scope));
    }
}

/// The row of a request that is denied for a constraint names that constraint: one that the token
/// carries and that is not honoured.
pub proof fn law_denials_name_the_constraint(
    gate: Gate,
    rec: TokenRecord,
    enforced: Seq<EnforcedConstraint>,
    after: Gate,
    action: GateAction,
)
    requires
        gate.stage is AwaitVerify,
        is_step(gate, GateEvent::Verified(rec), enforced, after, action),
        !all_honoured(enforced, record_actor(rec).constraints),
    ensures
        action matches GateAction::Reply { reply, row: Some(row) } && exists|
            refusal: ConstraintRefusal,
        |
            #[trigger] refusal_is_true(enforced, record_actor(rec).constraints, refusal)
                && row@.required_scope == Some(refusal_sentinel(refusal)),
{
    if let GateAction::Reply { reply, row: Some(row) } = action {
        let refusal = choose|refusal: ConstraintRefusal|
            #[trigger] refusal_is_true(enforced, record_actor(rec).constraints, refusal)
                && row@.required_scope->0 == refusal_sentinel(refusal);
        assert(refusal_is_true(enforced, record_actor(rec).constraints, refusal));
    }
}

/// What the ledger learns of a handler: its status and whether that is leave, refusal or fault;
/// the scope that it missed; and what the plugin reported, where the answer itself is a success.
pub proof fn law_completions_tell_how_it_ended(
    audit_id: u64,
    status: u16,
    denied_scope: Option<Seq<char>>,
    domain_error: Option<Seq<char>>,
)
    ensures
        ({
            let done = completion_of(audit_id, status, denied_scope, domain_error);
            &&& done.audit_id == audit_id
            &&& done.status == status
            &&& done.required_scope == denied_scope
            &&& done.decision == (if 200 <= status <= 299 {
                "allow"@
            } else if 500 <= status <= 599 {
                "error"@
            } else {
                "deny"@
            })
            &&& 200 <= status <= 299 ==> done.domain_error == domain_error
            &&& !(200 <= status <= 299) ==> done.domain_error is None
            &&& done.execution_outcome == (if done.domain_error is Some {
                Some("failed"@)
            } else {
                None
            })
        }),
{
}

} // verus!
