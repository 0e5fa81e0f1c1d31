//! The way of a request through authentication, and what the ledger learns of it.

use oxidhome_core::api::auth::{
    anonymous_probe, begin, extract_bearer, finalize_audit, first_constraint_refusal,
    preverified_event, step, store_event, wit_error_kind, AuthReply, ConstraintRefusal, Gate,
    GateAction, GateEvent, HandlerReport, PreVerified, Stage,
};
use oxidhome_core::auth::policy::{ConstraintMap, EnforcedConstraint, ToolConstraint};
use oxidhome_core::auth::Actor;
use oxidhome_core::state::{TokenError, TokenRecord, WitError};

fn record(scope_json: &[u8]) -> TokenRecord {
    TokenRecord {
        id: "tok-1".to_string(),
        label: "test".to_string(),
        scope_json: scope_json.to_vec(),
        created_ms: 0,
        last_used_ms: None,
        revoked_ms: None,
    }
}

fn verified(scope_json: &[u8], enforced: &[EnforcedConstraint]) -> (Gate, GateAction) {
    let (gate, action) = begin("GET", "/api/v1/devices", Some("Bearer abc"));
    match action {
        GateAction::Verify { bearer } => assert_eq!(bearer, "abc"),
        other => panic!("{other:?}"),
    }
    step(gate, GateEvent::Verified(record(scope_json)), enforced)
}

#[test]
fn extract_bearer_handles_case_variants() {
    assert_eq!(extract_bearer("Bearer abc"), Some("abc"));
    assert_eq!(extract_bearer("bearer xyz"), Some("xyz"));
    assert_eq!(extract_bearer("BEARER tok"), Some("tok"));
    assert_eq!(extract_bearer("BeArEr tok"), Some("tok"));
    assert_eq!(extract_bearer("Bearer   tok"), Some("tok"));
    assert!(extract_bearer("Bearer ").is_none());
    assert!(extract_bearer("Bearer").is_none());
    assert!(extract_bearer("Basic foo").is_none());
}

#[test]
fn first_constraint_refusal_catches_unknown_and_field_mismatch() {
    let mut constraints = ConstraintMap::new();
    constraints.insert(
        "device.send_command".to_string(),
        ToolConstraint {
            devices: Some(vec!["dev-a1b2c3d4*".into()]),
            plugins: None,
        },
    );
    constraints.insert(
        "plugins.stop".to_string(),
        ToolConstraint {
            devices: None,
            plugins: Some(vec!["acme.*".into()]),
        },
    );
    let mixed_actor = Actor::api_with_policy("tok-mixed", vec!["*".into()], constraints);

    assert!(matches!(
        first_constraint_refusal(&mixed_actor, &[]),
        Some(ConstraintRefusal::KeyNotEnforced { .. }),
    ));

    let enforced_device = &[EnforcedConstraint {
        key: "device.send_command",
        enforce_devices: true,
        enforce_plugins: false,
    }][..];
    let refusal = first_constraint_refusal(&mixed_actor, enforced_device)
        .expect("plugins.stop must fail as an unenforced key");
    assert!(matches!(
        refusal,
        ConstraintRefusal::KeyNotEnforced {
            key: "plugins.stop"
        },
    ));

    let enforced_full = &[
        EnforcedConstraint {
            key: "device.send_command",
            enforce_devices: true,
            enforce_plugins: false,
        },
        EnforcedConstraint {
            key: "plugins.stop",
            enforce_devices: false,
            enforce_plugins: true,
        },
    ][..];
    assert!(first_constraint_refusal(&mixed_actor, enforced_full).is_none());

    let mut wrong_field = ConstraintMap::new();
    wrong_field.insert(
        "device.send_command".to_string(),
        ToolConstraint {
            devices: None,
            plugins: Some(vec!["acme.*".into()]),
        },
    );
    let wrong_actor = Actor::api_with_policy("tok-wrong-field", vec!["*".into()], wrong_field);
    let refusal = first_constraint_refusal(&wrong_actor, enforced_device)
        .expect("device.send_command with plugins field must refuse");
    assert!(matches!(
        refusal,
        ConstraintRefusal::FieldNotEnforced {
            key: "device.send_command",
            field: "plugins",
        },
    ));

    assert_eq!(
        ConstraintRefusal::KeyNotEnforced {
            key: "plugins.stop"
        }
        .audit_sentinel(),
        "<constraint-key-unenforced:plugins.stop>",
    );
    assert_eq!(
        ConstraintRefusal::FieldNotEnforced {
            key: "device.send_command",
            field: "plugins",
        }
        .audit_sentinel(),
        "<constraint-field-unenforced:device.send_command:plugins>",
    );
}

#[test]
fn refusals_are_shown_to_operators() {
    let key = ConstraintRefusal::KeyNotEnforced { key: "t" };
    let field = ConstraintRefusal::FieldNotEnforced { key: "t", field: "devices" };
    assert_ne!(key.as_display(), field.as_display());
    assert!(key.as_display().contains('t'));
    assert!(field.as_display().contains("devices"));
}

#[test]
fn request_without_bearer_is_unauthorized() {
    for header in [None, Some("Basic foo"), Some("Bearer ")] {
        let (gate, action) = begin("POST", "/x", header);
        assert!(matches!(gate.stage, Stage::Done));
        match action {
            GateAction::Reply { reply, row: Some(row) } => {
                assert_eq!(reply, AuthReply::Unauthorized);
                assert_eq!(reply.status(), 401);
                assert!(reply.challenge().is_some());
                assert_eq!(row.status, 401);
                assert_eq!(row.decision, "deny");
                assert_eq!(row.token_id, "anonymous");
                assert_eq!(row.method, "POST");
                assert_eq!(row.path, "/x");
                assert!(row.credential_fp.is_none());
            }
            other => panic!("{other:?}"),
        }
    }
}

#[test]
fn handled_request_is_recorded_before_and_after() {
    let (gate, action) = verified(br#"["devices:list"]"#, &[]);
    match action {
        GateAction::WriteIntent(row) => {
            assert_eq!(row.token_id, "tok-1");
            assert_eq!(row.actor_kind, "api");
            assert_eq!(row.method, "GET");
            assert_eq!(row.path, "/api/v1/devices");
        }
        other => panic!("{other:?}"),
    }
    let (gate, action) = step(gate, GateEvent::IntentWritten(9), &[]);
    match action {
        GateAction::RunHandler { actor, audit_id } => {
            assert_eq!(audit_id, 9);
            assert_eq!(actor.id(), "tok-1");
            assert_eq!(actor.scopes(), &["devices:list".to_string()]);
        }
        other => panic!("{other:?}"),
    }
    let report = HandlerReport { status: 200, denied_scope: None, domain_error: None };
    let (gate, action) = step(gate, GateEvent::Handled(report), &[]);
    match action {
        GateAction::Complete(done) => {
            assert_eq!(done.audit_id, 9);
            assert_eq!(done.status, 200);
            assert_eq!(done.decision, "allow");
        }
        other => panic!("{other:?}"),
    }
    assert!(matches!(gate.stage, Stage::Done));
}

#[test]
fn unknown_bearer_leaves_its_fingerprint() {
    let (gate, _) = begin("GET", "/y", Some("Bearer abc"));
    let event = store_event(Err(TokenError::Unknown), "fp-1".to_string());
    let (gate, action) = step(gate, event, &[]);
    match action {
        GateAction::Reply { reply: AuthReply::Unauthorized, row: Some(row) } => {
            assert_eq!(row.credential_fp.as_deref(), Some("fp-1"));
            assert_eq!(row.status, 401);
        }
        other => panic!("{other:?}"),
    }
    assert!(matches!(gate.stage, Stage::Done));
}

#[test]
fn broken_store_answers_500() {
    let (gate, _) = begin("GET", "/y", Some("Bearer abc"));
    let event = store_event(Err(TokenError::Storage), "fp-1".to_string());
    let (_, action) = step(gate, event, &[]);
    match action {
        GateAction::Reply { reply, .. } => assert_eq!(reply.status(), 500),
        other => panic!("{other:?}"),
    }
    let (gate, _) = verified(br#"["*"]"#, &[]);
    let (_, action) = step(gate, GateEvent::IntentFailed, &[]);
    match action {
        GateAction::Reply { reply, .. } => assert_eq!(reply.status(), 500),
        other => panic!("{other:?}"),
    }
}

#[test]
fn unenforced_constraint_is_refused_and_recorded() {
    let blob = br#"{"scopes":["*"],"constraints":{"plugins.stop":{}}}"#;
    let (gate, action) = verified(blob, &[]);
    match action {
        GateAction::Reply { reply, row: Some(row) } => {
            assert_eq!(reply, AuthReply::Forbidden);
            assert_eq!(reply.status(), 403);
            assert_eq!(row.status, 403);
            assert_eq!(row.token_id, "tok-1");
            assert_eq!(
                row.required_scope.as_deref(),
                Some("<constraint-key-unenforced:plugins.stop>")
            );
        }
        other => panic!("{other:?}"),
    }
    assert!(matches!(gate.stage, Stage::Done));
}

#[test]
fn malformed_policy_still_runs_without_scopes() {
    let (gate, _) = verified(b"garbage", &[]);
    let (_, action) = step(gate, GateEvent::IntentWritten(1), &[]);
    match action {
        GateAction::RunHandler { actor, .. } => assert!(actor.scopes().is_empty()),
        other => panic!("{other:?}"),
    }
}

#[test]
fn ended_requests_never_reach_a_handler() {
    let (gate, _) = begin("GET", "/y", None);
    let (gate, action) = step(gate, GateEvent::IntentWritten(5), &[]);
    assert!(!matches!(action, GateAction::RunHandler { .. }));
    assert!(matches!(gate.stage, Stage::Done));
}

#[test]
fn preverified_bearers_are_not_verified_again() {
    let (event, _) = preverified_event(
        PreVerified::Verified(record(br#"["*"]"#)),
        "fp".to_string(),
    );
    assert!(matches!(event, GateEvent::Verified(_)));
    let (event, _) = preverified_event(PreVerified::Denied, "fp".to_string());
    assert!(matches!(event, GateEvent::Refused { .. }));
    let (event, _) = preverified_event(PreVerified::Internal, "fp".to_string());
    assert!(matches!(event, GateEvent::StoreFailed));
}

#[test]
fn completions_follow_the_status() {
    let report = |status: u16, domain: Option<&str>| HandlerReport {
        status,
        denied_scope: None,
        domain_error: domain.map(str::to_string),
    };
    assert_eq!(finalize_audit(3, report(204, None)).decision, "allow");
    assert_eq!(finalize_audit(3, report(404, None)).decision, "deny");
    assert_eq!(finalize_audit(3, report(500, None)).decision, "error");
    let failed = finalize_audit(3, report(200, Some("unavailable")));
    assert_eq!(failed.decision, "allow");
    assert_eq!(failed.execution_outcome.as_deref(), Some("failed"));
    assert_eq!(failed.domain_error.as_deref(), Some("unavailable"));
    let denied = finalize_audit(
        4,
        HandlerReport {
            status: 403,
            denied_scope: Some("devices:list".to_string()),
            domain_error: None,
        },
    );
    assert_eq!(denied.decision, "deny");
    assert_eq!(denied.required_scope.as_deref(), Some("devices:list"));
    assert_eq!(denied.audit_id, 4);
}

#[test]
fn probes_name_no_token() {
    let row = anonymous_probe("GET", "/z", 401, Some("fp".to_string()));
    assert_eq!(row.token_id, "anonymous");
    assert_eq!(row.actor_kind, "anonymous");
    assert_eq!(row.status, 401);
    assert_eq!(row.decision, "deny");
    assert_eq!(row.credential_fp.as_deref(), Some("fp"));
}

#[test]
fn plugin_errors_have_names() {
    let m = || "m".to_string();
    assert_eq!(wit_error_kind(&WitError::NotFound(m())), "not_found");
    assert_eq!(wit_error_kind(&WitError::InvalidArgument(m())), "invalid_argument");
    assert_eq!(wit_error_kind(&WitError::PermissionDenied(m())), "permission_denied");
    assert_eq!(wit_error_kind(&WitError::Unavailable(m())), "unavailable");
    assert_eq!(wit_error_kind(&WitError::Internal(m())), "internal");
}
