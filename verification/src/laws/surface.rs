//! Who reaches the surface, and how often.

use vstd::prelude::*;

use crate::api::auth::{bearer_of, is_success, PreVerified};
use crate::api::bootstrap::{is_admin_file, IssuedToken, SecretFile};
use crate::api::mcp::origin::{
    authority_of, is_loopback, is_loopback_authority, is_origin_check, names_host, OriginHeader,
};
use crate::api::mcp::rate_limit::{
    is_evicted, is_handed_out, is_ingress_step, is_rate_refusal, is_recorded, is_verify_step,
    is_victim, may_drop, RateStep, RejectLogger, TokenBucket, VerifyEnd,
};
use crate::api::mcp::server::{
    is_admission_begin, is_admit_step, is_arrival_answer, is_body_answer, AdmitAction, AdmitEvent,
    AdmitStage, Admittance, Arrival, BodyRead,
};
use crate::api::mcp::session_store::{
    admitted, cancelled, committed, pool_balanced, released, PoolModel,
};
use crate::exclusive_lock::{lock_verdict, LockCodes, LockVerdict};
use crate::text::{all_digits, decimal, is_digit, strip_prefix_of};

verus! {

// ---------------------------------------------------------------------
// Pages
// ---------------------------------------------------------------------

/// Whether an address is made of these parts: a scheme, a host of this machine, a port where one
/// is given, and a slash at the end or none.
pub open spec fn is_page_of(
    origin: Seq<char>,
    scheme: Seq<char>,
    host: Seq<char>,
    port: Option<Seq<char>>,
    slash: bool,
) -> bool {
    &&& scheme == "http://"@ || scheme == "https://"@
    &&& host == "localhost"@ || host == "127.0.0.1"@ || host == "[::1]"@
    &&& port matches Some(p) ==> all_digits(p)
    &&& origin == scheme + (host + port_part(port)) + slash_part(slash)
}

/// A port as it stands behind a host.
pub open spec fn port_part(port: Option<Seq<char>>) -> Seq<char> {
    match port {
        Some(p) => seq![':'] + p,
        None => Seq::empty(),
    }
}

/// The slash at the end of an address.
pub open spec fn slash_part(slash: bool) -> Seq<char> {
    if slash {
        seq!['/']
    } else {
        Seq::empty()
    }
}

/// What the literals of the addresses hold.
proof fn lemma_address_parts()
    ensures
        "http://"@ =~= seq!['h', 't', 't', 'p', ':', '/', '/'],
        "https://"@ =~= seq!['h', 't', 't', 'p', 's', ':', '/', '/'],
        "localhost"@.len() == 9 && "localhost"@.last() == 't' && "localhost"@[0] == 'l',
        "127.0.0.1"@.len() == 9 && "127.0.0.1"@.last() == '1' && "127.0.0.1"@[0] == '1',
        "[::1]"@.len() == 5 && "[::1]"@.last() == ']' && "[::1]"@[0] == '[',
        "localhost:"@ =~= "localhost"@.push(':'),
        "127.0.0.1:"@ =~= "127.0.0.1"@.push(':'),
        "[::1]:"@ =~= "[::1]"@.push(':'),
{
    reveal_strlit("http://");
    reveal_strlit("https://");
    reveal_strlit("localhost");
    reveal_strlit("localhost:");
    reveal_strlit("127.0.0.1");
    reveal_strlit("127.0.0.1:");
    reveal_strlit("[::1]");
    reveal_strlit("[::1]:");
}

/// A page of this machine passes, over either scheme, at every port and with a slash at the end or
/// none.
pub proof fn law_local_pages_pass(
    origin: Seq<char>,
    scheme: Seq<char>,
    host: Seq<char>,
    port: Option<Seq<char>>,
    slash: bool,
)
    requires
        is_page_of(origin, scheme, host, port, slash),
    ensures
        is_loopback(origin),
{
    lemma_address_parts();
    let authority = host + port_part(port);
    let rest = authority + slash_part(slash);
    assert(origin =~= scheme + rest);
    assert(scheme.is_prefix_of(origin));
    assert(origin.skip(scheme.len() as int) =~= rest);
    if scheme == "https://"@ {
        assert(origin[4] == 's');
        assert("http://"@[4] == ':');
        assert(!"http://"@.is_prefix_of(origin)) by {
            if "http://"@.is_prefix_of(origin) {
                assert(origin.subrange(0, 7)[4] == origin[4]);
            }
        }
    }
    if slash {
        assert(rest.last() == '/');
        assert(rest.drop_last() =~= authority);
    } else {
        assert(rest =~= authority);
        if let Some(p) = port {
            assert(is_digit(p[p.len() - 1]));
            assert(rest.last() == p.last());
        } else {
            assert(rest =~= host);
        }
        assert(rest.last() != '/');
    }
    assert(authority_of(rest) == authority);
    let colon = host.push(':');
    if let Some(p) = port {
        assert(authority =~= colon + p);
        assert(colon.is_prefix_of(authority));
        assert(authority.skip(colon.len() as int) =~= p);
        assert(strip_prefix_of(authority, colon) == Some(p));
    } else {
        assert(authority =~= host);
    }
    assert(names_host(authority, host, colon));
    assert(is_loopback_authority(authority));
}

/// Only a page of this machine passes.
pub proof fn law_only_local_pages_pass(origin: Seq<char>)
    requires
        is_loopback(origin),
    ensures
        exists|scheme: Seq<char>, host: Seq<char>, port: Option<Seq<char>>, slash: bool| #[trigger]
            is_page_of(origin, scheme, host, port, slash),
{
    lemma_address_parts();
    let scheme = if "http://"@.is_prefix_of(origin) {
        "http://"@
    } else {
        "https://"@
    };
    let rest = origin.skip(scheme.len() as int);
    assert(scheme.is_prefix_of(origin));
    assert(origin =~= scheme + rest);
    let authority = authority_of(rest);
    let slash = rest.len() > 0 && rest.last() == '/';
    assert(rest =~= authority + slash_part(slash));
    let host = if names_host(authority, "localhost"@, "localhost:"@) {
        "localhost"@
    } else if names_host(authority, "127.0.0.1"@, "127.0.0.1:"@) {
        "127.0.0.1"@
    } else {
        "[::1]"@
    };
    let colon = host.push(':');
    assert(names_host(authority, host, colon));
    if authority == host {
        assert(authority =~= host + port_part(None));
        assert(origin =~= scheme + (host + port_part(None)) + slash_part(slash));
        assert(is_page_of(origin, scheme, host, None, slash));
    } else {
        let p = authority.skip(colon.len() as int);
        assert(strip_prefix_of(authority, colon) == Some(p));
        assert(colon.is_prefix_of(authority));
        assert(authority =~= colon + p);
        assert(authority =~= host + port_part(Some(p)));
        assert(origin =~= scheme + (host + port_part(Some(p))) + slash_part(slash));
        assert(is_page_of(origin, scheme, host, Some(p), slash));
    }
}

/// A request without the header passes, one whose header cannot be read does not, and another
/// passes exactly from a page of this machine.
pub proof fn law_requests_pass_by_their_page(r: Result<(), &'static str>, origin: OriginHeader)
    requires
        is_origin_check(r, origin),
    ensures
        origin is Absent ==> r is Ok,
        origin is Unreadable ==> r is Err,
        origin matches OriginHeader::Page(page) ==> (r is Ok <==> is_loopback(page@)),
{
}

// ---------------------------------------------------------------------
// Admission
// ---------------------------------------------------------------------

/// Only a request with a body waits for one, and only while there is room; without room it is told
/// to come back.
pub proof fn law_only_bodies_take_room(
    after: AdmitStage,
    action: AdmitAction,
    arrival: Arrival,
    method: Seq<char>,
    slot_free: bool,
)
    requires
        is_admission_begin((after, action), method, slot_free),
        is_arrival_answer(arrival, method, slot_free),
    ensures
        action is ReadBody <==> method == "POST"@ && slot_free,
        action is Forward <==> method != "POST"@,
        action matches AdmitAction::Refuse(refusal) ==> method == "POST"@ && !slot_free
            && refusal.status == 503 && refusal.retry_after is Some,
        action is ReadBody || action is Forward || action is Refuse,
        action is ReadBody <==> arrival is ReadBody,
        action is Forward <==> arrival is Forward,
        action is Refuse <==> arrival is Refuse,
        action is Refuse <==> after is Done,
        action is ReadBody ==> after is AwaitBody,
        action is Forward ==> after == (AdmitStage::AwaitAnswer { reserved: false }),
        arrival matches Arrival::Refuse(refusal) ==> refusal.status == 503 && refusal.retry_after
            is Some,
{
}

/// A request goes on exactly with a whole body: to its session where it names one, and otherwise
/// once there is a place for a new one. What goes wrong has a status of its own.
pub proof fn law_whole_bodies_go_on(
    read: BodyRead,
    names_session: bool,
    after: AdmitStage,
    action: AdmitAction,
    answer: Admittance,
)
    requires
        is_admit_step(
            AdmitStage::AwaitBody,
            AdmitEvent::Body { read, names_session },
            (after, action),
        ),
        is_body_answer(answer, read, names_session),
    ensures
        action is Forward <==> read == BodyRead::Complete && names_session,
        action is Forward ==> after == (AdmitStage::AwaitAnswer { reserved: false }),
        action is Reserve ==> after is AwaitSlot,
        action is Refuse ==> after is Done,
        action is Reserve <==> read == BodyRead::Complete && !names_session,
        action matches AdmitAction::Refuse(refusal) ==> refusal.status == (match read {
            BodyRead::TooLarge => 413u16,
            BodyRead::TooSlow => 408u16,
            _ => 400u16,
        }),
        action is Forward || action is Reserve || action is Refuse,
        action is Forward <==> answer is Forward,
        action is Reserve <==> answer is Reserve,
        answer matches Admittance::Refuse(refusal) ==> refusal.status == (match read {
            BodyRead::TooLarge => 413u16,
            BodyRead::TooSlow => 408u16,
            _ => 400u16,
        }),
        answer is Forward || answer is Reserve || answer is Refuse,
{
}

/// A request that asks for a session goes on exactly with a place for it, and the place is then
/// held until the answer.
pub proof fn law_new_sessions_need_a_place(free: bool, after: AdmitStage, action: AdmitAction)
    requires
        is_admit_step(AdmitStage::AwaitSlot, AdmitEvent::Slot { free }, (after, action)),
    ensures
        action is Forward <==> free,
        free ==> after == (AdmitStage::AwaitAnswer { reserved: true }),
        !free ==> after is Done && (action matches AdmitAction::Refuse(refusal)
            && refusal.status == 503 && refusal.retry_after is Some),
{
}

/// An answer is handed out, and with it the place that was held is kept for a session that was
/// opened and given back otherwise.
pub proof fn law_answers_settle_the_place(
    reserved: bool,
    status: u16,
    session_id: Option<&str>,
    after: AdmitStage,
    action: AdmitAction,
)
    requires
        is_admit_step(
            AdmitStage::AwaitAnswer { reserved },
            AdmitEvent::Answered { status, session_id },
            (after, action),
        ),
    ensures
        after is Done,
        action is HandOut <==> !reserved,
        action is Commit <==> reserved && 200 <= status && status < 300 && session_id is Some,
        action is Cancel <==> reserved && !(200 <= status && status < 300 && session_id is Some),
{
}

/// An answer in the two hundreds is a success, and no other.
pub proof fn law_successes_are_these(status: u16)
    ensures
        is_success(status) <==> 200 <= status && status < 300,
{
}

// ---------------------------------------------------------------------
// Sessions
// ---------------------------------------------------------------------

/// Every operation on the pool keeps its places together: none is lost and none is made.
pub proof fn law_places_are_neither_lost_nor_made(pool: PoolModel, session: Seq<char>)
    requires
        pool_balanced(pool),
    ensures
        ({
            let used = pool.reserved + pool.live.len();
            &&& pool.available + used == pool.cap
            &&& admitted(pool).cap == pool.cap && pool_balanced(admitted(pool))
            &&& committed(pool, session).cap == pool.cap && pool_balanced(committed(pool, session))
            &&& cancelled(pool).cap == pool.cap && pool_balanced(cancelled(pool))
            &&& released(pool, session).cap == pool.cap && pool_balanced(released(pool, session))
        }),
{
    if pool.live.contains(session) {
        assert(pool.live.remove(session).len() + 1 == pool.live.len());
    }
}

/// A place that was taken and not used is there again.
pub proof fn law_cancelling_undoes_admitting(pool: PoolModel)
    requires
        pool.available > 0,
    ensures
        admitted(pool).available + 1 == pool.available,
        admitted(pool).live == pool.live,
        cancelled(admitted(pool)) == pool,
{
}

/// A session that is opened is live and takes the place that was held for it; the others stay as
/// they were. One that is live already gives the place back.
pub proof fn law_opened_sessions_are_live(pool: PoolModel, session: Seq<char>, other: Seq<char>)
    requires
        pool.reserved > 0,
        other != session,
    ensures
        committed(pool, session).live.contains(session),
        committed(pool, session).live.contains(other) <==> pool.live.contains(other),
        committed(pool, session).reserved + 1 == pool.reserved,
        pool.live.contains(session) ==> committed(pool, session).available == pool.available + 1,
        !pool.live.contains(session) ==> committed(pool, session).available == pool.available,
{
}

// ---------------------------------------------------------------------
// Rates
// ---------------------------------------------------------------------

/// A request that comes too soon learns how long to wait; another goes on, to be verified exactly
/// where it carries a bearer. The others share a bucket and are not let in.
pub proof fn law_early_requests_wait(
    r: RateStep,
    taken: Result<(), u64>,
    header: Option<Seq<char>>,
)
    requires
        is_ingress_step(r, taken, header),
    ensures
        r is Refuse <==> taken is Err,
        taken matches Err(wait) ==> r == (RateStep::Refuse { retry_after: wait }),
        r matches RateStep::Verify { bearer } ==> header is Some && bearer_of(header->0) == Some(
            bearer@,
        ),
        r is Verify <==> taken is Ok && header is Some && bearer_of(header->0) is Some,
        r matches RateStep::Take { key, verified } ==> key@ == "unauthenticated"@ && verified
            is Denied,
        !(r is Fail),
{
}

/// A verified token draws from the bucket of its own id, and goes on as what was found; every
/// other draws from the shared one. A failing store is told from a refused token.
pub proof fn law_tokens_have_buckets_of_their_own(r: RateStep, end: VerifyEnd)
    requires
        is_verify_step(r, end),
    ensures
        end is Saturated ==> r == (RateStep::Refuse { retry_after: 1 }),
        end is Broken ==> r is Fail,
        end is Found <==> r is Take,
        end matches VerifyEnd::Found(Ok(rec)) ==> (r matches RateStep::Take { key, verified }
            && key@ == rec.id@ && verified == PreVerified::Verified(rec)),
        end matches VerifyEnd::Found(Err(err)) ==> (r matches RateStep::Take { key, verified }
            && key@ == "unauthenticated"@ && !(verified is Verified) && (verified is Internal
            <==> err is Storage)),
{
}

/// A known key gets its bucket as it was left, and nothing else changes. A new one gets a fresh
/// bucket; of the others at most one goes, only where the table is full, never the shared one, and
/// never one that was used later than one that stays. The rest are as they were.
pub proof fn law_buckets_are_kept(
    r: TokenBucket,
    before: Map<Seq<char>, TokenBucket>,
    after: Map<Seq<char>, TokenBucket>,
    key: Seq<char>,
    fresh: TokenBucket,
    max_keys: usize,
    other: Seq<char>,
    gone: Seq<char>,
)
    requires
        is_handed_out(r, before, after, key, fresh, max_keys),
        other != key,
        gone != key,
        other != gone,
        before.dom().contains(other),
        before.dom().contains(gone),
        !after.dom().contains(gone),
    ensures
        after.dom().contains(other) && after[other] == before[other],
        !before.dom().contains(key) && r == fresh,
        before.dom().len() >= max_keys,
        gone != "unauthenticated"@,
        other != "unauthenticated"@ ==> before[gone].last_observed_ns
            <= before[other].last_observed_ns,
{
    let left = choose|left: Map<Seq<char>, TokenBucket>| #[trigger]
        is_evicted(before, left) && after == left.insert(key, fresh);
    if left == before {
        assert(after.dom().contains(gone));
    }
    let victim = choose|victim: Seq<char>| #[trigger]
        is_victim(before, victim) && left == before.remove(victim);
    assert(victim == gone) by {
        if victim != gone {
            assert(left.dom().contains(gone));
        }
    }
    if other != "unauthenticated"@ {
        assert(may_drop(before, other));
    }
}

/// What a key is given: its bucket as it was left, or a fresh one. A key that was not there before
/// and is not the one that was asked for is not there afterwards.
pub proof fn law_keys_get_what_is_theirs(
    r: TokenBucket,
    before: Map<Seq<char>, TokenBucket>,
    after: Map<Seq<char>, TokenBucket>,
    key: Seq<char>,
    fresh: TokenBucket,
    max_keys: usize,
    other: Seq<char>,
)
    requires
        is_handed_out(r, before, after, key, fresh, max_keys),
    ensures
        before.dom().contains(key) ==> r == before[key] && after == before,
        !before.dom().contains(key) ==> r == fresh,
        after.dom().contains(key) && after[key] == r,
        other != key && after.dom().contains(other) ==> before.dom().contains(other)
            && after[other] == before[other],
        other != key && before.dom().contains(other) && before.dom().len() < max_keys
            ==> after.dom().contains(other),
{
    if !before.dom().contains(key) && before.dom().len() >= max_keys {
        let left = choose|left: Map<Seq<char>, TokenBucket>| #[trigger]
            is_evicted(before, left) && after == left.insert(key, fresh);
        if left != before {
            let victim = choose|victim: Seq<char>| #[trigger]
                is_victim(before, victim) && left == before.remove(victim);
        }
    }
}

/// A request that is refused for its rate is told so, with the seconds to wait.
pub proof fn law_rate_refusals_tell_the_wait(r: (u16, String, &'static str), retry_after: u64)
    requires
        is_rate_refusal(r, retry_after),
    ensures
        r.0 == 429,
        r.1@ == decimal(retry_after as nat),
{
}

/// Every refusal is counted once: it is in the report that it brings about, or in the count that
/// goes on. A report comes a second after the last one at the earliest, and the first at once.
pub proof fn law_refusals_are_counted_once(
    before: RejectLogger,
    after: RejectLogger,
    now_ms: u64,
    r: Option<u64>,
)
    requires
        is_recorded(before, after, now_ms, r),
        before.count < u64::MAX,
    ensures
        after.count + (match r {
            Some(reported) => reported as int,
            None => 0,
        }) == before.count + 1,
        r is Some <==> before.window_start_ms == 0 || now_ms - before.window_start_ms >= 1_000,
        r is Some ==> after.count == 0 && after.window_start_ms == now_ms,
        r is None ==> after.window_start_ms == before.window_start_ms,
        after.reason == before.reason,
{
}

// ---------------------------------------------------------------------
// The first token, and the lock
// ---------------------------------------------------------------------

/// A token that was minted is written whole, on a line of its own, into a file that only its owner
/// may read; without one nothing is written.
pub proof fn law_the_first_token_is_kept(
    r: Option<(SecretFile, IssuedToken)>,
    minted: Option<IssuedToken>,
)
    requires
        is_admin_file(r, minted),
    ensures
        r is Some <==> minted is Some,
        r matches Some((file, reported)) ==> minted == Some(reported) && file.name@
            == "admin-token"@ && file.mode == 0o600 && file.contents@ == reported.plaintext@.push(
            '\n',
        ),
{
    reveal_strlit("\n");
    if let Some((file, reported)) = r {
        assert(file.contents@ =~= reported.plaintext@.push('\n'));
    }
}

/// The code that an attempt failed with, if it failed with one.
pub open spec fn failure_code(failure: Option<(Option<i32>, Seq<char>)>) -> Option<i32> {
    match failure {
        Some((code, _)) => code,
        None => None,
    }
}

/// The lock is held exactly when nothing went wrong, and it is tried again exactly when the
/// attempt was interrupted. A process that finds it taken, and one whose lock does not work, are
/// told so of their directory, and are not told the same.
pub proof fn law_the_lock_is_held_or_refused(
    state_dir: Seq<char>,
    failure: Option<(Option<i32>, Seq<char>)>,
    codes: LockCodes,
)
    ensures
        lock_verdict(state_dir, failure, codes) is Held <==> failure is None,
        lock_verdict(state_dir, failure, codes) is Retry <==> failure is Some && failure_code(failure)
            == Some(codes.interrupted),
        lock_verdict(state_dir, failure, codes) matches LockVerdict::Refused(text) ==> (text[1]
            == 'n' <==> failure_code(failure) == Some(codes.would_block) || failure_code(failure) == Some(
            codes.again,
        )),
{
    reveal_strlit("another `oxidhome` process is already using state dir ");
    reveal_strlit("acquiring exclusive lock on state dir ");
}

} // verus!
