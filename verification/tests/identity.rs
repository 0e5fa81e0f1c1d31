//! Actors, scopes and token policies.

use std::sync::Arc;

use oxidhome_core::api::auth::{actor_from_record, parse_scopes};
use oxidhome_core::api::bootstrap::{
    ensure_admin_token, IssuedToken, ADMIN_SCOPE_JSON, ADMIN_TOKEN_FILE, ADMIN_TOKEN_MODE,
};
use oxidhome_core::api::operations::{require_operation, Operation};
use oxidhome_core::api::scopes::{require_scope, Scope, DEVICES_LIST, INSTANCES_LIST};
use oxidhome_core::auth::policy::{
    match_pattern, parse_policy, ConstraintMap, EnforcedConstraint, ToolConstraint,
};
use oxidhome_core::auth::{Actor, ActorKind};
use oxidhome_core::state::TokenRecord;

fn record(id: &str, label: &str, scope_json: &[u8]) -> TokenRecord {
    TokenRecord {
        id: id.to_string(),
        label: label.to_string(),
        scope_json: scope_json.to_vec(),
        created_ms: 0,
        last_used_ms: None,
        revoked_ms: None,
    }
}

#[test]
fn plugin_actor_carries_instance_id() {
    let a = Actor::plugin("example.simulated-switch#0");
    assert_eq!(a.kind(), ActorKind::Plugin);
    assert_eq!(a.id(), "example.simulated-switch#0");
    assert!(a.scopes().is_empty());
}

#[test]
fn actor_clone_shares_inner() {
    let a = Actor::plugin("x");
    let b = a.clone();
    assert!(Arc::ptr_eq(&a.inner, &b.inner));
}

#[test]
fn actor_constraint_returns_none_when_no_policy() {
    let a = Actor::api("tok-abc", vec!["devices:command".into()]);
    assert!(a.constraint("device.send_command").is_none());
    assert!(a.constraint("plugins.install").is_none());
}

#[test]
fn actor_constraint_surfaces_policy_map() {
    let mut constraints = ConstraintMap::new();
    constraints.insert(
        "device.send_command".to_string(),
        ToolConstraint {
            devices: Some(vec!["dev-a1b2c3d4*".into()]),
            plugins: None,
        },
    );
    let a = Actor::api_with_policy("tok-xyz", vec!["devices:command".into()], constraints);

    let cx = a
        .constraint("device.send_command")
        .expect("device.send_command constraint present");
    assert!(cx.allows_device("dev-a1b2c3d4e5f60718"));
    assert!(!cx.allows_device("dev-a1b2c3d3ffffffff"));
    assert!(a.constraint("plugins.install").is_none());
}

#[test]
fn actor_kind_strings() {
    assert_eq!(ActorKind::Plugin.as_str(), "plugin");
    assert_eq!(ActorKind::Api.as_str(), "api");
    assert_eq!(ActorKind::Cli.as_str(), "cli");
    assert_eq!(ActorKind::Mcp.as_str(), "mcp");
    assert_eq!(ActorKind::Automation.as_str(), "automation");
}

#[test]
fn constrained_actors_list_their_tools() {
    let mut constraints = ConstraintMap::new();
    assert!(constraints.insert_new("a".to_string(), ToolConstraint::default()));
    assert!(constraints.insert_new("b".to_string(), ToolConstraint::default()));
    assert!(!constraints.insert_new("a".to_string(), ToolConstraint::default()));
    let actor = Actor::api_with_policy("tok", vec![], constraints);
    assert!(actor.is_constrained());
    let mut keys = actor.constraint_keys();
    keys.sort();
    assert_eq!(keys, vec!["a", "b"]);
    let free = Actor::api("tok", vec![]);
    assert!(!free.is_constrained());
    assert!(free.constraint_keys().is_empty());
    assert_eq!(free.kind(), ActorKind::Api);
}

#[test]
fn literal_scope_must_match_exactly() {
    let scope = Scope::new("devices:list");
    assert!(scope.satisfied_by(&["devices:list".into()]));
    assert!(!scope.satisfied_by(&["devices:read".into()]));
    assert!(!scope.satisfied_by(&[]));
}

#[test]
fn wildcard_satisfies_anything() {
    let listing = Scope::new("devices:list");
    let admin = Scope::new("instances:start");
    let scopes = vec!["*".to_string()];
    assert!(listing.satisfied_by(&scopes));
    assert!(admin.satisfied_by(&scopes));
}

#[test]
fn wildcard_alongside_literals_still_matches_everything() {
    let scope = Scope::new("plugins:install");
    let scopes: Vec<String> = vec!["devices:list".into(), "*".into()];
    assert!(scope.satisfied_by(&scopes));
}

#[test]
fn require_scope_passes_actor_with_scope() {
    let actor = Actor::api("tok-1", vec!["devices:list".into()]);
    require_scope(&actor, Scope::new(DEVICES_LIST)).expect("authorized");
}

#[test]
fn require_scope_denies_actor_without_scope() {
    let actor = Actor::api("tok-1", vec!["instances:list".into()]);
    let err = require_scope(&actor, Scope::new(DEVICES_LIST)).expect_err("denied");
    assert_eq!(err.required, "devices:list");
}

#[test]
fn require_scope_accepts_wildcard_admin() {
    let actor = Actor::api("admin-tok", vec!["*".into()]);
    require_scope(&actor, Scope::new(INSTANCES_LIST)).expect("authorized");
    require_scope(&actor, Scope::new(DEVICES_LIST)).expect("authorized");
}

#[test]
fn operations_ask_for_their_scope() {
    let cases = [
        (Operation::ListInstances, "instances:list"),
        (Operation::ListDevices, "devices:list"),
        (Operation::ReadDeviceState, "devices:read"),
        (Operation::SendCommand, "devices:command"),
        (Operation::TailEvents, "events:tail"),
        (Operation::QueryEvents, "events:read"),
        (Operation::QueryLogs, "logs:read"),
        (Operation::QueryAudit, "audit:read"),
        (Operation::ListPlugins, "plugins:list"),
        (Operation::ReadPluginSchema, "plugins:list"),
        (Operation::InstallPlugin, "plugins:install"),
        (Operation::StartPlugin, "plugins:start"),
        (Operation::StopPlugin, "plugins:stop"),
        (Operation::UninstallPlugin, "plugins:uninstall"),
        (Operation::OpenPluginUi, "plugins:ui"),
    ];
    let nobody = Actor::api("tok", vec![]);
    for (operation, scope) in cases {
        assert_eq!(operation.scope().name(), scope);
        let denied = require_operation(&nobody, operation).expect_err("no scopes");
        assert_eq!(denied.required, scope);
        let holder = Actor::api("tok", vec![scope.to_string()]);
        require_operation(&holder, operation).expect("authorized");
    }
}

#[test]
fn more_scopes_keep_what_fewer_allow() {
    let scope = Scope::new("logs:read");
    assert!(scope.satisfied_by(&["logs:read".to_string()]));
    assert!(scope.satisfied_by(&["logs:read".to_string(), "x".to_string()]));
    assert!(!scope.satisfied_by(&["logs:rea".to_string(), "logs:read2".to_string()]));
}

#[test]
fn legacy_scope_array_round_trips() {
    let policy = parse_policy(br#"["logs:read","devices:command"]"#).expect("parse");
    assert_eq!(policy.scopes, vec!["logs:read", "devices:command"]);
    assert!(policy.constraints.is_empty());
}

#[test]
fn extended_shape_parses_with_constraints() {
    let blob = br#"{
            "scopes": ["devices:command"],
            "constraints": {
                "device.send_command": {
                    "devices": ["dev-a1b2c3d4*", "dev-1122334455667788"]
                }
            }
        }"#;
    let policy = parse_policy(blob).expect("parse");
    assert_eq!(policy.scopes, vec!["devices:command"]);
    let cx = policy
        .constraints
        .get("device.send_command")
        .expect("constraint");
    assert_eq!(
        cx.devices.as_deref(),
        Some(
            &[
                "dev-a1b2c3d4*".to_string(),
                "dev-1122334455667788".to_string()
            ][..]
        ),
    );
    assert!(cx.plugins.is_none());
}

#[test]
fn extended_shape_without_constraints_parses() {
    let policy = parse_policy(br#"{"scopes":["*"]}"#).expect("parse");
    assert_eq!(policy.scopes, vec!["*"]);
    assert!(policy.constraints.is_empty());
}

#[test]
fn malformed_shapes_reject() {
    assert!(parse_policy(b"not json").is_none());
    assert!(parse_policy(br#"["ok", 7]"#).is_none());
    assert!(parse_policy(br#"{"constraints":{}}"#).is_none());
    assert!(parse_policy(br#"{"scope":["logs:read"]}"#).is_none());
    assert!(parse_policy(br#"{"scopes":[],"constraints":{"t":{"unknown":true}}}"#).is_none());
    assert!(parse_policy(br#"{"scopes":[],"constraints":{"t":{"devices":"x"}}}"#).is_none());
}

#[test]
fn duplicate_constraint_keys_reject() {
    let blob = br#"{
            "scopes": ["*"],
            "constraints": {
                "device.send_command": {"devices": []},
                "device.send_command": {}
            }
        }"#;
    assert!(
        parse_policy(blob).is_none(),
        "duplicate constraint key must fail parse",
    );
}

#[test]
fn constraint_allows_none_means_unrestricted() {
    let cx = ToolConstraint::default();
    assert!(cx.allows_device("dev-a1b2c3d4e5f60718"));
    assert!(cx.allows_plugin("acme.thermostat"));
}

#[test]
fn constraint_allows_empty_list_means_deny_all() {
    let cx = ToolConstraint {
        devices: Some(vec![]),
        plugins: None,
    };
    assert!(!cx.allows_device("dev-anything"));
    assert!(cx.allows_plugin("anything"));
}

#[test]
fn constraint_allows_literal_and_prefix_glob() {
    let cx = ToolConstraint {
        devices: Some(vec![
            "dev-a1b2c3d4*".to_string(),
            "dev-1122334455667788".to_string(),
        ]),
        plugins: None,
    };
    assert!(cx.allows_device("dev-a1b2c3d4e5f60718"));
    assert!(cx.allows_device("dev-a1b2c3d4000000ff"));
    assert!(cx.allows_device("dev-a1b2c3d4"));
    assert!(cx.allows_device("dev-1122334455667788"));
    assert!(!cx.allows_device("dev-a1b2c3d3ffffffff"));
    assert!(!cx.allows_device("dev-11223344556677882"));
}

#[test]
fn mid_pattern_star_is_treated_as_literal() {
    let cx = ToolConstraint {
        devices: Some(vec!["dev-a*b".to_string()]),
        plugins: None,
    };
    assert!(cx.allows_device("dev-a*b"));
    assert!(!cx.allows_device("dev-a12345b"));
}

#[test]
fn lone_star_matches_every_id() {
    assert!(match_pattern("*", ""));
    assert!(match_pattern("*", "anything"));
    assert!(match_pattern("é*", "éa"));
    assert!(!match_pattern("é*", "e"));
    assert!(match_pattern("a**", "a*x"));
    assert!(!match_pattern("", "x"));
    assert!(match_pattern("", ""));
}

#[test]
fn longer_lists_allow_no_less() {
    let short = ToolConstraint {
        devices: None,
        plugins: Some(vec!["acme.*".to_string()]),
    };
    let long = ToolConstraint {
        devices: None,
        plugins: Some(vec!["acme.*".to_string(), "b".to_string()]),
    };
    assert!(short.allows_plugin("acme.lamp"));
    assert!(long.allows_plugin("acme.lamp"));
    assert!(!short.allows_plugin("b"));
    assert!(long.allows_plugin("b"));
}

#[test]
fn policy_text_may_escape_its_names() {
    let blob = br#" { "scopes" : [ "a\n" ] , "constraints" : { "t\u00e9" : { "plugins" : null } } } "#;
    let policy = parse_policy(blob).expect("parse");
    assert_eq!(policy.scopes, vec!["a\n"]);
    let cx = policy.constraints.get("té").expect("constraint");
    assert!(cx.plugins.is_none());
    assert!(cx.devices.is_none());
    let twice = br#"{"scopes":[],"constraints":{"t":{},"t":{}}}"#;
    assert!(parse_policy(twice).is_none());
}

#[test]
fn policy_is_not_given_by_position() {
    assert!(parse_policy(br#"[["*"]]"#).is_none());
    assert!(parse_policy(br#"[["a"],{"t":[["d"],["p"]]}]"#).is_none());
    assert!(parse_policy(br#"{"scopes":["a"],"constraints":{"t":[["d"],["p"]]}}"#).is_none());
    for other in ["null", "7", "\"*\"", "true", "[7]", "[null]"] {
        assert!(parse_policy(other.as_bytes()).is_none(), "{other}");
    }
    assert_eq!(parse_policy(br#"["*"]"#).expect("list").scopes, vec!["*"]);
    assert!(parse_policy(b"[]").expect("list").scopes.is_empty());
}

#[test]
fn policy_refuses_repeated_and_unknown_names() {
    assert!(parse_policy(br#"{"scopes":[],"scopes":[]}"#).is_none());
    assert!(parse_policy(br#"{"scopes":[],"constraints":{},"constraints":{}}"#).is_none());
    assert!(parse_policy(br#"{"scopes":[],"more":1}"#).is_none());
    assert!(parse_policy(br#"{"scopes":[]} x"#).is_none());
    assert!(parse_policy(b"\xff").is_none());
    assert!(parse_policy(b"").is_none());
    assert!(parse_policy(br#"{"scopes":[]}"#).is_some());
}

#[test]
fn unenforced_fields_are_named() {
    let both = ToolConstraint {
        devices: Some(vec![]),
        plugins: Some(vec![]),
    };
    let entry = |enforce_devices: bool, enforce_plugins: bool| EnforcedConstraint {
        key: "t",
        enforce_devices,
        enforce_plugins,
    };
    assert_eq!(entry(false, false).first_unenforced_field(&both), Some("devices"));
    assert_eq!(entry(true, false).first_unenforced_field(&both), Some("plugins"));
    assert_eq!(entry(true, true).first_unenforced_field(&both), None);
    let none = ToolConstraint::default();
    assert_eq!(entry(false, false).first_unenforced_field(&none), None);
}

#[test]
fn parse_scopes_accepts_string_array() {
    let blob = br#"["devices:read","plugins:list"]"#;
    let scopes = parse_scopes(blob).expect("parse");
    assert_eq!(scopes, vec!["devices:read", "plugins:list"]);
}

#[test]
fn parse_scopes_rejects_non_array_and_non_string_elements() {
    assert!(parse_scopes(b"{}").is_none());
    assert!(parse_scopes(br#"["ok", 7]"#).is_none());
    assert!(parse_scopes(b"not json").is_none());
}

#[test]
fn actor_from_record_carries_constraints_on_extended_policy() {
    let rec = record(
        "tok-14-4a",
        "tester",
        br#"{
                "scopes": ["devices:command"],
                "constraints": {
                    "device.send_command": {
                        "devices": ["dev-a1b2c3d4*"]
                    }
                }
            }"#,
    );
    let actor = actor_from_record(&rec);
    assert_eq!(actor.scopes(), &["devices:command".to_string()]);
    let cx = actor
        .constraint("device.send_command")
        .expect("device.send_command constraint present");
    assert!(cx.allows_device("dev-a1b2c3d4e5f60718"));
    assert!(!cx.allows_device("dev-a1b2c3d3ffffffff"));
    assert!(actor.constraint("plugins.install").is_none());
}

#[test]
fn actor_from_record_legacy_shape_has_no_constraints() {
    let rec = record(
        "tok-legacy",
        "legacy",
        br#"["devices:command","plugins:list"]"#,
    );
    let actor = actor_from_record(&rec);
    assert_eq!(
        actor.scopes(),
        &["devices:command".to_string(), "plugins:list".to_string()]
    );
    assert!(actor.constraint("device.send_command").is_none());
}

#[test]
fn actor_from_record_malformed_scope_json_denies_all() {
    let rec = record("tok-broken", "broken", b"not json at all");
    let actor = actor_from_record(&rec);
    assert!(actor.scopes().is_empty());
    assert!(actor.constraint("device.send_command").is_none());
    assert_eq!(actor.id(), "tok-broken");
}

#[test]
fn bootstrap_blob_parses_as_wildcard_scope() {
    let scopes = parse_scopes(ADMIN_SCOPE_JSON.as_bytes())
        .expect("ADMIN_SCOPE_JSON must parse through the scope parser");
    assert_eq!(
        scopes,
        vec!["*".to_string()],
        "bootstrap blob must surface the wildcard sentinel verbatim",
    );
}

#[test]
fn admin_token_is_written_once() {
    assert!(ensure_admin_token(None).is_none());
    let minted = IssuedToken {
        id: "tok-1".to_string(),
        plaintext: "oxh_secret".to_string(),
    };
    let (file, issued) = ensure_admin_token(Some(minted)).expect("minted");
    assert_eq!(file.name, ADMIN_TOKEN_FILE);
    assert_eq!(file.name, "admin-token");
    assert_eq!(file.mode, ADMIN_TOKEN_MODE);
    assert_eq!(file.mode, 0o600);
    assert!(file.contents.starts_with("oxh_secret"));
    assert_eq!(issued.id, "tok-1");
    assert_eq!(issued.plaintext, "oxh_secret");
}
