//! What a request to the MCP surface passes before it reaches a session.

use oxidhome_core::api::auth::PreVerified;
use oxidhome_core::api::mcp::handler::{resolve_actor, stdio_actor};
use oxidhome_core::api::mcp::origin::{is_loopback_origin, require_local_origin, OriginHeader};
use oxidhome_core::api::mcp::rate_limit::{
    after_ingress, after_verify, bucket_key, too_many_requests, verify_failed, BucketTable,
    RateStep, RejectLogger, TokenBucket, VerifyEnd, IDLE_EVICTION_WINDOW_NS, UNAUTHENTICATED_KEY,
};
use oxidhome_core::api::mcp::server::{
    begin_admission, on_arrival, on_body, opened_session, session_cap_reached, step_admission,
    AdmitAction, AdmitEvent, AdmitStage, Admittance, Arrival, BodyRead,
};
use oxidhome_core::api::mcp::session_store::BoundedSessionManager;
use oxidhome_core::api::scopes::{require_scope, Scope};
use oxidhome_core::auth::Actor;
use oxidhome_core::exclusive_lock::{
    after_lock_attempt, creating_dir_failed, opening_file_failed, unsupported_platform, LockCodes,
    LockFailure, LockStep, LOCK_FILE_NAME,
};
use oxidhome_core::host_impl::{HostModel, HostPipeWriter, HostPipelineHandle};
use oxidhome_core::state::{TokenError, TokenRecord};

#[test]
fn loopback_hosts_pass_with_and_without_port() {
    for allowed in [
        "http://localhost",
        "http://localhost:8080",
        "http://127.0.0.1",
        "http://127.0.0.1:3000",
        "http://[::1]",
        "http://[::1]:8443",
        "https://localhost:443",
    ] {
        assert!(
            is_loopback_origin(allowed),
            "expected loopback allow: {allowed}",
        );
    }
}

#[test]
fn non_loopback_hosts_are_rejected() {
    for denied in [
        "http://attacker.example",
        "http://attacker.example:8080",
        "https://evil.com",
        "http://attacker.localhost",
        "localhost:8080",
        "ftp://localhost",
        "http://[2001:db8::1]",
    ] {
        assert!(
            !is_loopback_origin(denied),
            "expected loopback deny: {denied}",
        );
    }
}

#[test]
fn names_below_localhost_are_foreign() {
    assert!(!is_loopback_origin("http://a.localhost"));
    assert!(!is_loopback_origin("https://a.b.localhost"));
    assert!(is_loopback_origin("https://[::1]:8443/"));
    assert!(!is_loopback_origin("http://localhost.evil"));
    assert!(!is_loopback_origin("http://[::1"));
}

#[test]
fn only_a_port_follows_the_host() {
    for denied in [
        "http://localhost:x@evil.example",
        "http://localhost:80@evil.example",
        "http://127.0.0.1:1.evil.example",
        "http://localhost:+80",
        "http://localhost:",
        "http://[::1]:x",
        "http://[::1]x",
        "http://localhost/path",
    ] {
        assert!(!is_loopback_origin(denied), "{denied}");
    }
    assert!(is_loopback_origin("http://localhost:80"));
}

#[test]
fn origin_is_asked_for_only_where_one_is_sent() {
    assert_eq!(require_local_origin(OriginHeader::Absent), Ok(()));
    let local = OriginHeader::Page("http://localhost:1");
    assert_eq!(require_local_origin(local), Ok(()));
    let foreign = OriginHeader::Page("http://evil.example");
    assert_eq!(require_local_origin(foreign), Err("Origin not allowed"));
    assert_eq!(
        require_local_origin(OriginHeader::Unreadable),
        Err("Invalid Origin header")
    );
}

#[test]
fn admissions_are_capped_and_released() {
    let mut mgr = BoundedSessionManager::new(2);
    let a = mgr.try_admit().expect("first admission");
    let b = mgr.try_admit().expect("second admission");
    assert!(mgr.try_admit().is_none(), "third admission must fail");

    mgr.commit(a, "s-1");
    mgr.commit(b, "s-2");
    assert_eq!(mgr.live(), 2);
    assert!(mgr.try_admit().is_none());

    mgr.release("s-1");
    assert!(
        mgr.try_admit().is_some(),
        "release must re-open a slot in the semaphore",
    );
}

#[test]
fn uncommitted_admission_releases_on_drop() {
    let mut mgr = BoundedSessionManager::new(1);
    let a = mgr.try_admit().expect("first admission");
    assert!(mgr.try_admit().is_none());
    mgr.cancel(a);
    assert!(
        mgr.try_admit().is_some(),
        "dropped (uncommitted) admission must return the slot to the pool",
    );
}

#[test]
fn release_is_idempotent_per_session() {
    let mut mgr = BoundedSessionManager::new(1);
    let admission = mgr.try_admit().expect("admission");
    mgr.commit(admission, "s");
    assert_eq!(mgr.live(), 1);

    mgr.release("s");
    assert_eq!(mgr.live(), 0);
    mgr.release("s");
    assert_eq!(mgr.live(), 0);
    assert_eq!(
        mgr.available_permits(),
        1,
        "cap must remain at 1 after a double-release",
    );
    assert_eq!(mgr.cap(), 1);
}

#[test]
fn closing_an_unknown_session_frees_nothing() {
    let mut mgr = BoundedSessionManager::new(2);
    let a = mgr.try_admit().expect("admission");
    mgr.commit(a, "s");
    mgr.close_session("s", false);
    assert_eq!(mgr.live(), 1);
    mgr.close_session("t", true);
    assert_eq!(mgr.live(), 1);
    mgr.close_session("s", true);
    assert_eq!(mgr.live(), 0);
    assert_eq!(mgr.available_permits(), 2);
}

#[test]
fn closing_one_session_twice_spares_the_other() {
    let mut mgr = BoundedSessionManager::new(2);
    for session in ["s-1", "s-2"] {
        let admission = mgr.try_admit().expect("admission");
        mgr.commit(admission, session);
    }
    mgr.close_session("s-1", true);
    mgr.close_session("s-1", true);
    assert_eq!(mgr.live(), 1);
    assert!(!mgr.is_live("s-1"));
    assert!(mgr.is_live("s-2"));
    assert_eq!(mgr.available_permits(), 1);
    assert!(mgr.try_admit().is_some());
    assert!(mgr.try_admit().is_none());
}

#[test]
fn sessions_take_one_slot_each() {
    let mut mgr = BoundedSessionManager::new(2);
    for _ in 0..2 {
        let admission = mgr.try_admit().expect("admission");
        mgr.commit(admission, "s");
    }
    assert_eq!(mgr.live(), 1);
    assert_eq!(mgr.available_permits(), 1);
    mgr.release("s");
    assert_eq!(mgr.available_permits(), mgr.cap());
}

fn touch(table: &mut BucketTable, key: &str, now_ns: u64) -> TokenBucket {
    let bucket = table.bucket_for(key, now_ns, 1.0f64.to_bits());
    table.put(key, TokenBucket { tokens: bucket.tokens, last_observed_ns: now_ns });
    bucket
}

#[test]
fn map_size_stays_bounded_under_key_pressure() {
    let mut table = BucketTable::new(3);
    for i in 0..5u64 {
        touch(&mut table, &format!("k-{i}"), 0);
    }
    assert!(
        table.buckets.len() <= 3,
        "map must not exceed hard cap; got {} entries",
        table.buckets.len(),
    );
}

#[test]
fn lru_eviction_preserves_recent_entries() {
    let mut table = BucketTable::new(3);
    for i in 0..3u64 {
        touch(&mut table, &format!("k-{i}"), 2 * i);
    }
    touch(&mut table, "k-3", 6);
    assert!(!table.buckets.contains_key("k-0"), "oldest key must be evicted at cap");
    assert!(table.buckets.contains_key("k-3"));
    assert!(table.buckets.contains_key("k-2"));
}

#[test]
fn rotating_garbage_bearers_share_one_bucket() {
    let mut table = BucketTable::new(3);
    for _ in 0..100 {
        touch(&mut table, UNAUTHENTICATED_KEY, 0);
    }
    assert_eq!(table.buckets.len(), 1, "unauthenticated requests must share ONE bucket");
}

#[test]
fn unauthenticated_bucket_survives_lru_eviction() {
    let mut table = BucketTable::new(2);
    touch(&mut table, UNAUTHENTICATED_KEY, 0);
    touch(&mut table, "real-token", 2);
    touch(&mut table, "another-real", 4);
    assert!(
        table.buckets.contains_key(UNAUTHENTICATED_KEY),
        "unauthenticated bucket must survive LRU",
    );
    assert!(!table.buckets.contains_key("real-token"));
}

#[test]
fn buckets_keep_their_level() {
    let mut table = BucketTable::new(2);
    let fresh = table.bucket_for("k", 5, 3.0f64.to_bits());
    assert_eq!(f64::from_bits(fresh.tokens), 3.0);
    assert_eq!(fresh.last_observed_ns, 5);
    table.put("k", TokenBucket { tokens: 2.0f64.to_bits(), last_observed_ns: 5 });
    let again = table.bucket_for("k", 9, 3.0f64.to_bits());
    assert_eq!(f64::from_bits(again.tokens), 2.0);
    assert_eq!(again.last_observed_ns, 5);
}

#[test]
fn idle_buckets_go_first() {
    let mut table = BucketTable::new(3);
    touch(&mut table, "a", 10);
    touch(&mut table, "b", 0);
    touch(&mut table, "c", IDLE_EVICTION_WINDOW_NS);
    let late = IDLE_EVICTION_WINDOW_NS + 20;
    touch(&mut table, "d", late);
    assert!(!table.buckets.contains_key("b"), "the least recently used of two idle ones goes");
    assert!(table.buckets.contains_key("a"));
    touch(&mut table, "e", late);
    assert!(!table.buckets.contains_key("a"));
    assert!(table.buckets.contains_key("c"));
    assert!(table.buckets.contains_key("d"));
    assert_eq!(table.buckets.len(), 3);
}

#[test]
fn shared_bucket_alone_stays() {
    let mut table = BucketTable::new(1);
    touch(&mut table, UNAUTHENTICATED_KEY, 0);
    touch(&mut table, "a", 1);
    assert!(table.buckets.contains_key(UNAUTHENTICATED_KEY));
    assert!(table.buckets.contains_key("a"));
    touch(&mut table, "b", 2);
    assert!(table.buckets.contains_key(UNAUTHENTICATED_KEY));
    assert!(!table.buckets.contains_key("a"));
}

fn record() -> TokenRecord {
    TokenRecord {
        id: "tok-7".to_string(),
        label: "x".to_string(),
        scope_json: b"[]".to_vec(),
        created_ms: 0,
        last_used_ms: None,
        revoked_ms: None,
    }
}

#[test]
fn unusable_bearers_share_a_bucket() {
    for err in [TokenError::Malformed, TokenError::Unknown, TokenError::Revoked] {
        match after_verify(VerifyEnd::Found(Err(err))) {
            RateStep::Take { key, verified } => {
                assert_eq!(key, "unauthenticated");
                assert!(matches!(verified, PreVerified::Denied));
            }
            other => panic!("{other:?}"),
        }
    }
    match after_verify(VerifyEnd::Found(Ok(record()))) {
        RateStep::Take { key, verified } => {
            assert_eq!(bucket_key(&verified), key);
            assert!(key.contains("tok-7"));
        }
        other => panic!("{other:?}"),
    }
    assert!(matches!(after_verify(VerifyEnd::Broken), RateStep::Fail));
    assert!(matches!(
        after_verify(VerifyEnd::Saturated),
        RateStep::Refuse { .. }
    ));
}

#[test]
fn ingress_comes_before_the_bearer() {
    assert!(matches!(
        after_ingress(Err(4), Some("Bearer x")),
        RateStep::Refuse { retry_after: 4 }
    ));
    assert!(matches!(
        after_ingress(Ok(()), Some("Bearer x")),
        RateStep::Verify { bearer } if bearer == "x"
    ));
    assert!(matches!(
        after_ingress(Ok(()), None),
        RateStep::Take { key, .. } if key == UNAUTHENTICATED_KEY
    ));
}

#[test]
fn refused_requests_say_when_to_come_back() {
    let (status, retry, body) = too_many_requests(7);
    assert_eq!(status, 429);
    assert_eq!(retry, "7");
    assert!(!body.is_empty());
    let (status, _) = verify_failed();
    assert_eq!(status, 500);
}

#[test]
fn rejections_are_logged_once_per_window() {
    let mut log = RejectLogger::new("ingress");
    let first = log.record(10_000);
    assert!(first.is_some());
    assert!(log.record(10_001).is_none());
    assert!(log.record(10_002).is_none());
    let next = log.record(11_500);
    assert!(next.is_some());
}

#[test]
fn posts_need_a_body_slot() {
    assert!(matches!(on_arrival("GET", false), Arrival::Forward));
    assert!(matches!(on_arrival("POST", true), Arrival::ReadBody));
    match on_arrival("POST", false) {
        Arrival::Refuse(r) => {
            assert_eq!(r.status, 503);
            assert_eq!(r.retry_after, Some("5"));
        }
        other => panic!("{other:?}"),
    }
}

#[test]
fn bodies_lead_to_sessions() {
    assert!(matches!(on_body(BodyRead::Complete, true), Admittance::Forward));
    assert!(matches!(on_body(BodyRead::Complete, false), Admittance::Reserve));
    for (read, status) in [
        (BodyRead::TooLarge, 413),
        (BodyRead::Failed, 400),
        (BodyRead::TooSlow, 408),
    ] {
        match on_body(read, false) {
            Admittance::Refuse(r) => assert_eq!(r.status, status),
            other => panic!("{other:?}"),
        }
    }
    assert_eq!(session_cap_reached().status, 503);
    assert!(opened_session(200, Some("s")));
    assert!(!opened_session(200, None));
    assert!(!opened_session(400, Some("s")));
}

#[test]
fn requests_without_an_actor_may_do_nothing() {
    let nobody = resolve_actor(None, None);
    assert_eq!(nobody.id(), "anonymous");
    assert!(require_scope(&nobody, Scope::new("devices:list")).is_err());
    let caller = Actor::api("tok", vec!["logs:read".to_string()]);
    assert_eq!(resolve_actor(None, Some(&caller)).id(), "tok");
    let parent = stdio_actor();
    assert_eq!(parent.id(), "mcp-stdio-parent-process");
    assert_eq!(resolve_actor(Some(&parent), Some(&caller)).id(), parent.id());
    assert!(require_scope(&parent, Scope::new("plugins:install")).is_ok());
}

fn codes() -> LockCodes {
    LockCodes { interrupted: 4, would_block: 11, again: 35 }
}

fn failure(code: Option<i32>) -> Option<LockFailure> {
    Some(LockFailure { code, words: "bad descriptor".to_string() })
}

#[test]
fn lock_attempts_are_sorted_out() {
    assert!(matches!(after_lock_attempt("/s", None, codes()), LockStep::Held));
    assert!(matches!(
        after_lock_attempt("/s", failure(Some(4)), codes()),
        LockStep::Retry
    ));
    for contended in [11, 35] {
        match after_lock_attempt("/s", failure(Some(contended)), codes()) {
            LockStep::Refused(words) => {
                assert!(words.contains("/s"));
                assert!(words.contains("already using"));
            }
            other => panic!("{other:?}"),
        }
    }
    for broken in [Some(9), None] {
        match after_lock_attempt("/s", failure(broken), codes()) {
            LockStep::Refused(words) => assert_eq!(
                words,
                "acquiring exclusive lock on state dir /s failed: bad descriptor \
                 (this filesystem may not support flock — check the state-dir setup)"
            ),
            other => panic!("{other:?}"),
        }
    }
}

#[test]
fn directories_have_one_owner() {
    let mut held: Vec<&str> = Vec::new();
    let attempt = |held: &Vec<&str>, dir: &str| {
        let answer = if held.iter().any(|h| *h == dir) { failure(Some(11)) } else { None };
        after_lock_attempt(dir, answer, codes())
    };
    assert!(matches!(attempt(&held, "/a"), LockStep::Held));
    held.push("/a");
    assert!(matches!(
        attempt(&held, "/a"),
        LockStep::Refused(words) if words.contains("/a") && words.contains("already using")
    ));
    assert!(matches!(attempt(&held, "/b"), LockStep::Held));
    held.clear();
    assert!(matches!(attempt(&held, "/a"), LockStep::Held));
}

#[test]
fn lock_messages_name_their_path() {
    assert_eq!(LOCK_FILE_NAME, ".oxidhome.lock");
    assert_eq!(
        creating_dir_failed("/s"),
        "creating state dir /s before acquiring exclusive lock"
    );
    assert_eq!(opening_file_failed("/s/f"), "opening state-dir lock file /s/f");
    assert!(unsupported_platform("/s").ends_with("(state dir: /s)"));
}

#[test]
fn host_resources_are_plain_markers() {
    assert_eq!(HostPipelineHandle, HostPipelineHandle);
    assert_eq!(HostPipeWriter, HostPipeWriter);
    assert_eq!(HostModel, HostModel);
}

#[test]
fn new_sessions_settle_their_slot() {
    let (stage, action) = begin_admission("POST", true);
    assert!(matches!(action, AdmitAction::ReadBody));
    let body = AdmitEvent::Body { read: BodyRead::Complete, names_session: false };
    let (stage, action) = step_admission(stage, body);
    assert!(matches!(action, AdmitAction::Reserve));
    let (stage, action) = step_admission(stage, AdmitEvent::Slot { free: true });
    assert!(matches!(action, AdmitAction::Forward));
    let opened = AdmitEvent::Answered { status: 200, session_id: Some("s") };
    assert!(matches!(step_admission(stage, opened).1, AdmitAction::Commit));
    for failed in [
        AdmitEvent::Answered { status: 400, session_id: Some("s") },
        AdmitEvent::Answered { status: 200, session_id: None },
    ] {
        assert!(matches!(step_admission(stage, failed).1, AdmitAction::Cancel));
    }
    let (_, action) = step_admission(AdmitStage::AwaitSlot, AdmitEvent::Slot { free: false });
    assert!(matches!(action, AdmitAction::Refuse(r) if r.retry_after == Some("30")));
}

#[test]
fn known_sessions_take_no_slot() {
    let (stage, _) = begin_admission("POST", true);
    let body = AdmitEvent::Body { read: BodyRead::Complete, names_session: true };
    let (stage, action) = step_admission(stage, body);
    assert!(matches!(action, AdmitAction::Forward));
    let answered = AdmitEvent::Answered { status: 200, session_id: Some("s") };
    assert!(matches!(step_admission(stage, answered).1, AdmitAction::HandOut));
    let (stage, action) = begin_admission("DELETE", false);
    assert!(matches!(action, AdmitAction::Forward));
    assert_eq!(stage, AdmitStage::AwaitAnswer { reserved: false });
    let (_, action) = step_admission(stage, AdmitEvent::Slot { free: true });
    assert!(matches!(action, AdmitAction::Refuse(r) if r.status == 500));
}
