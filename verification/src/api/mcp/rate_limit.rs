//! Limits on how often the surface is called.
//!
//! Every request takes from one bucket for the whole surface before anything is looked up, and
//! then from the bucket of its token. Requests without a usable token share one bucket, whatever
//! they present, so that presenting something else each time gains nothing.

use vstd::prelude::*;

use crate::api::auth::{bearer_of, extract_bearer, PreVerified};
use crate::state::{TokenError, TokenRecord};
use crate::text::{decimal, opt_str, u64_to_decimal};
use crate::text_map::TextMap;

verus! {

/// The most buckets at a time.
pub const MAX_TRACKED_KEYS: usize = 1024;

/// The bucket that requests without a usable token share.
pub const UNAUTHENTICATED_KEY: &'static str = "unauthenticated";

/// A bucket that was not used for this long is idle, in nanoseconds.
pub const IDLE_EVICTION_WINDOW_NS: u64 = 300_000_000_000;

/// How often refusals are reported at most, in milliseconds.
pub const REJECT_LOG_WINDOW_MS: u64 = 1_000;

// ---------------------------------------------------------------------
// The way of a request
// ---------------------------------------------------------------------

/// What becomes of a request.
#[derive(Debug)]
pub enum RateStep {
    /// Refused: try again after so many seconds.
    Refuse { retry_after: u64 },
    /// Verify this bearer.
    Verify { bearer: String },
    /// Take from the bucket with this key.
    Take { key: String, verified: PreVerified },
    /// The verification itself broke down.
    Fail,
}

/// Whether a step is the one for a request that took from the bucket of the whole surface.
pub open spec fn is_ingress_step(
    r: RateStep,
    taken: Result<(), u64>,
    header: Option<Seq<char>>,
) -> bool {
    match taken {
        Err(wait) => r == (RateStep::Refuse { retry_after: wait }),
        Ok(()) => match header {
            Some(h) => match bearer_of(h) {
                Some(credential) => r matches RateStep::Verify { bearer } && bearer@ == credential,
                None => r matches RateStep::Take { key, verified } && key@ == UNAUTHENTICATED_KEY@
                    && verified is Denied,
            },
            None => r matches RateStep::Take { key, verified } && key@ == UNAUTHENTICATED_KEY@
                && verified is Denied,
        },
    }
}

/// Looks at a request after it took from the bucket of the whole surface. `taken` is the time to
/// wait where that bucket was empty; then nothing is looked up at all. `header` is the
/// `Authorization` header.
pub fn after_ingress(taken: Result<(), u64>, header: Option<&str>) -> (r: RateStep)
    ensures
        is_ingress_step(r, taken, opt_str(header)),
{
    if let Err(wait) = taken {
        return RateStep::Refuse { retry_after: wait };
    }
    let bearer = match header {
        Some(h) => extract_bearer(h),
        None => None,
    };
    match bearer {
        Some(b) => RateStep::Verify { bearer: b.to_owned() },
        None => RateStep::Take { key: UNAUTHENTICATED_KEY.to_owned(), verified: PreVerified::Denied
        },
    }
}

/// How the verification of a bearer ended.
#[derive(Debug)]
pub enum VerifyEnd {
    /// Too many verifications run already.
    Saturated,
    /// The verification broke down.
    Broken,
    Found(Result<TokenRecord, TokenError>),
}

/// The bucket of a request.
pub open spec fn key_of(verified: PreVerified) -> Seq<char> {
    match verified {
        PreVerified::Verified(rec) => rec.id@,
        PreVerified::Denied => UNAUTHENTICATED_KEY@,
        PreVerified::Internal => UNAUTHENTICATED_KEY@,
    }
}

/// What a verification found, for those who come after.
pub open spec fn verified_of(found: Result<TokenRecord, TokenError>) -> PreVerified {
    match found {
        Ok(rec) => PreVerified::Verified(rec),
        Err(TokenError::Storage) => PreVerified::Internal,
        Err(_) => PreVerified::Denied,
    }
}

/// The bucket of a request: that of its token, or the one that all others share.
pub fn bucket_key(verified: &PreVerified) -> (r: String)
    ensures
        r@ == key_of(*verified),
{
    match verified {
        PreVerified::Verified(rec) => rec.id.clone(),
        _ => UNAUTHENTICATED_KEY.to_owned(),
    }
}

/// Whether a step is the one for a request whose bearer was verified.
pub open spec fn is_verify_step(r: RateStep, end: VerifyEnd) -> bool {
    match end {
        VerifyEnd::Saturated => r == (RateStep::Refuse { retry_after: 1 }),
        VerifyEnd::Broken => r is Fail,
        VerifyEnd::Found(found) => r matches RateStep::Take { key, verified } && verified
            == verified_of(found) && key@ == key_of(verified),
    }
}

/// Looks at a request after its bearer was verified.
pub fn after_verify(end: VerifyEnd) -> (r: RateStep)
    ensures
        is_verify_step(r, end),
{
    match end {
        VerifyEnd::Saturated => RateStep::Refuse { retry_after: 1 },
        VerifyEnd::Broken => RateStep::Fail,
        VerifyEnd::Found(found) => {
            let verified = match found {
                Ok(rec) => PreVerified::Verified(rec),
                Err(TokenError::Storage) => PreVerified::Internal,
                Err(_) => PreVerified::Denied,
            };
            let key = bucket_key(&verified);
            RateStep::Take { key, verified }
        },
    }
}

/// Whether an answer is the one to a request that comes too soon.
pub open spec fn is_rate_refusal(r: (u16, String, &'static str), retry_after: u64) -> bool {
    &&& r.0 == 429
    &&& r.1@ == decimal(retry_after as nat)
    &&& r.2@ == "{\"error\":\"MCP rate limit exceeded; retry shortly\"}"@
}

/// The answer to a request that is refused: its status, when to try again, and its body.
pub fn too_many_requests(retry_after: u64) -> (r: (u16, String, &'static str))
    ensures
        is_rate_refusal(r, retry_after),
{
    (
        429,
        u64_to_decimal(retry_after),
        "{\"error\":\"MCP rate limit exceeded; retry shortly\"}",
    )
}

/// The answer to a request whose verification broke down: its status and its body.
pub fn verify_failed() -> (r: (u16, &'static str))
    ensures
        r.0 == 500,
        r.1@ == "{\"error\":\"rate-limit verify task failed\"}"@,
{
    (500, "{\"error\":\"rate-limit verify task failed\"}")
}

/// Whatever is wrong with a bearer, its request takes from the one shared bucket.
pub proof fn law_unusable_bearers_share_a_bucket(a: TokenError, b: TokenError)
    ensures
        key_of(verified_of(Err(a))) == key_of(verified_of(Err(b))),
        key_of(verified_of(Err(a))) == UNAUTHENTICATED_KEY@,
{
}

// ---------------------------------------------------------------------
// Reports of refusals
// ---------------------------------------------------------------------

/// Counts refusals and reports them at most once in a while.
#[derive(Debug)]
pub struct RejectLogger {
    /// When the count began; 0 before the first refusal.
    pub window_start_ms: u64,
    /// The refusals since then.
    pub count: u64,
    pub reason: &'static str,
}

impl RejectLogger {
    /// A counter without refusals.
    pub fn new(reason: &'static str) -> (r: Self)
        ensures
            r == (RejectLogger { window_start_ms: 0, count: 0, reason }),
    {
        RejectLogger { window_start_ms: 0, count: 0, reason }
    }

    /// Counts one refusal. Hands the count out, and begins anew, when it is the first or the last
    /// report is long enough ago.
    pub fn record(&mut self, now_ms: u64) -> (r: Option<u64>)
        ensures
            is_recorded(*old(self), *final(self), now_ms, r),
    {
        let count: u64 = self.count.wrapping_add(1);
        let start: u64 = self.window_start_ms;
        if start == 0 || now_ms.saturating_sub(start) >= REJECT_LOG_WINDOW_MS {
            self.window_start_ms = now_ms;
            self.count = 0;
            if count > 0 {
                Some(count)
            } else {
                None
            }
        } else {
            self.count = count;
            None
        }
    }
}

/// One more, starting over after the largest number.
pub open spec fn next_count(count: u64) -> u64 {
    if count == u64::MAX {
        0
    } else {
        (count + 1) as u64
    }
}

/// Whether a refusal is to be reported.
pub open spec fn window_over(logger: RejectLogger, now_ms: u64) -> bool {
    logger.window_start_ms == 0 || now_ms >= logger.window_start_ms + REJECT_LOG_WINDOW_MS
}

/// Whether a refusal was counted, and the count given out where the window is over.
pub open spec fn is_recorded(
    before: RejectLogger,
    after: RejectLogger,
    now_ms: u64,
    r: Option<u64>,
) -> bool {
    &&& after.reason == before.reason
    &&& window_over(before, now_ms) ==> {
        &&& after.window_start_ms == now_ms
        &&& after.count == 0
        &&& r == (if next_count(before.count) > 0 {
            Some(next_count(before.count))
        } else {
            None
        })
    }
    &&& !window_over(before, now_ms) ==> {
        &&& r is None
        &&& after.window_start_ms == before.window_start_ms
        &&& after.count == next_count(before.count)
    }
}

/// Whether a count is reported, given where it stands.
pub open spec fn is_reported(logger: RejectLogger, now_ms: u64) -> bool {
    window_over(logger, now_ms) && next_count(logger.count) > 0
}

/// After a report, the next one comes no sooner than a window later, however many refusals come
/// between the two.
pub proof fn law_reports_are_a_window_apart(logger: RejectLogger, reported_ms: u64, now_ms: u64)
    requires
        logger.window_start_ms == reported_ms,
        reported_ms > 0,
        is_reported(logger, now_ms),
    ensures
        now_ms - reported_ms >= REJECT_LOG_WINDOW_MS,
{
}

// ---------------------------------------------------------------------
// The buckets
// ---------------------------------------------------------------------

/// The bucket of a key.
#[derive(Debug, Clone, Copy, PartialEq, Eq, Structural)]
pub struct TokenBucket {
    /// How full the bucket is, held by the bit pattern of that number.
    pub tokens: u64,
    /// When the bucket was last taken from, in nanoseconds of a clock that never goes back.
    pub last_observed_ns: u64,
}

/// Whether a bucket was not used for a long time.
pub open spec fn is_idle(bucket: TokenBucket, now_ns: u64) -> bool {
    now_ns >= bucket.last_observed_ns + IDLE_EVICTION_WINDOW_NS
}

/// Whether a bucket may be dropped: every one but the shared one.
pub open spec fn may_drop(buckets: Map<Seq<char>, TokenBucket>, key: Seq<char>) -> bool {
    buckets.dom().contains(key) && key != UNAUTHENTICATED_KEY@
}

/// Whether a bucket is one to drop: of those that may be dropped, none was used earlier.
pub open spec fn is_victim(buckets: Map<Seq<char>, TokenBucket>, key: Seq<char>) -> bool {
    &&& may_drop(buckets, key)
    &&& forall|other: Seq<char>| #[trigger]
        may_drop(buckets, other) ==> buckets[key].last_observed_ns
            <= buckets[other].last_observed_ns
}

/// Whether `after` is what is left when room was made among `before`.
pub open spec fn is_evicted(
    before: Map<Seq<char>, TokenBucket>,
    after: Map<Seq<char>, TokenBucket>,
) -> bool {
    ||| exists|key: Seq<char>| #[trigger] is_victim(before, key) && after == before.remove(key)
    ||| after == before && forall|key: Seq<char>| !(#[trigger] may_drop(before, key))
}

/// Whether the bucket that all requests without a usable token share is still there, as it was.
pub open spec fn keeps_shared(
    before: Map<Seq<char>, TokenBucket>,
    after: Map<Seq<char>, TokenBucket>,
) -> bool {
    before.dom().contains(UNAUTHENTICATED_KEY@) ==> {
        &&& after.dom().contains(UNAUTHENTICATED_KEY@)
        &&& after[UNAUTHENTICATED_KEY@] == before[UNAUTHENTICATED_KEY@]
    }
}

/// Whether there are no more buckets than there may be. Where only one may be, the shared bucket
/// and one other come to two.
pub open spec fn keeps_bound(
    before: Map<Seq<char>, TokenBucket>,
    after: Map<Seq<char>, TokenBucket>,
    max_keys: usize,
) -> bool {
    max_keys >= 2 && before.dom().len() <= max_keys ==> after.dom().len() <= max_keys
}

/// The bucket to drop, if one may be dropped.
fn find_victim(buckets: &TextMap<TokenBucket>) -> (r: Option<String>)
    ensures
        match r {
            Some(key) => is_victim(buckets@, key@),
            None => forall|key: Seq<char>| !(#[trigger] may_drop(buckets@, key)),
        },
{
    let keys = buckets.keys();
    let mut best: Option<(String, u64)> = None;
    let mut i: usize = 0;
    while i < keys.len()
        invariant
            0 <= i <= keys.len(),
            forall|k: Seq<char>|
                buckets@.dom().contains(k) <==> exists|j: int|
                    0 <= j < keys.len() && (#[trigger] keys@[j])@ == k,
            match best {
                Some(b) => may_drop(buckets@, b.0@) && buckets@[b.0@].last_observed_ns == b.1
                    && forall|j: int|
                    0 <= j < i && may_drop(buckets@, (#[trigger] keys@[j])@) ==> b.1
                        <= buckets@[keys@[j]@].last_observed_ns,
                None => forall|j: int|
                    0 <= j < i ==> !may_drop(buckets@, (#[trigger] keys@[j])@),
            },
        decreases keys.len() - i,
    {
        let key = keys[i];
        assert(keys@[i as int]@ == key@);
        if let Some(bucket) = buckets.get(key) {
            if !key.eq(UNAUTHENTICATED_KEY) {
                assert(may_drop(buckets@, key@));
                let older = match &best {
                    Some(b) => bucket.last_observed_ns < b.1,
                    None => true,
                };
                if older {
                    best = Some((key.to_owned(), bucket.last_observed_ns));
                }
            }
        }
        i += 1;
    }
    proof {
        assert forall|k: Seq<char>| #[trigger] may_drop(buckets@, k) implies exists|j: int|
            0 <= j < keys.len() && (#[trigger] keys@[j])@ == k by {
            assert(buckets@.dom().contains(k));
        }
    }
    match best {
        Some(b) => {
            proof {
                assert forall|other: Seq<char>| #[trigger] may_drop(buckets@, other) implies
                    buckets@[b.0@].last_observed_ns <= buckets@[other].last_observed_ns by {
                    let j = choose|j: int| 0 <= j < keys.len() && (#[trigger] keys@[j])@ == other;
                    assert(keys@[j]@ == other);
                }
            }
            Some(b.0)
        },
        None => {
            proof {
                assert forall|key: Seq<char>| !(#[trigger] may_drop(buckets@, key)) by {
                    if may_drop(buckets@, key) {
                        let j = choose|j: int| 0 <= j < keys.len() && (#[trigger] keys@[j])@ == key;
                        assert(keys@[j]@ == key);
                    }
                }
            }
            None
        },
    }
}

/// Whether a bucket was handed out so: the one that the key has, or else a fresh one, for which
/// another goes where there is no room.
pub open spec fn is_handed_out(
    r: TokenBucket,
    before: Map<Seq<char>, TokenBucket>,
    after: Map<Seq<char>, TokenBucket>,
    key: Seq<char>,
    fresh: TokenBucket,
    max_keys: usize,
) -> bool {
    &&& after.dom().contains(key) && r == after[key]
    &&& before.dom().contains(key) ==> after == before
    &&& !before.dom().contains(key) ==> if before.dom().len() >= max_keys {
        exists|left: Map<Seq<char>, TokenBucket>| #[trigger]
            is_evicted(before, left) && after == left.insert(key, fresh)
    } else {
        after == before.insert(key, fresh)
    }
}

/// The buckets by key, of which there are only so many.
#[derive(Debug)]
pub struct BucketTable {
    pub buckets: TextMap<TokenBucket>,
    pub max_keys: usize,
}

impl BucketTable {
    /// A table without buckets.
    pub fn new(max_keys: usize) -> (r: Self)
        requires
            max_keys > 0,
        ensures
            r.buckets@ == Map::<Seq<char>, TokenBucket>::empty(),
            r.max_keys == max_keys,
    {
        BucketTable { buckets: TextMap::new(), max_keys }
    }

    /// Hands out the bucket of a key as it was left. A key without one gets a full one; where
    /// there is no room for it, the least recently used of the others goes first, but never the
    /// shared one.
    pub fn bucket_for(&mut self, key: &str, now_ns: u64, full: u64) -> (r: TokenBucket)
        ensures
            is_handed_out(
                r,
                old(self).buckets@,
                final(self).buckets@,
                key@,
                TokenBucket { tokens: full, last_observed_ns: now_ns },
                old(self).max_keys,
            ),
            final(self).max_keys == old(self).max_keys,
            final(self).buckets@.dom().contains(key@),
            r == final(self).buckets@[key@],
            old(self).buckets@.dom().contains(key@) ==> final(self).buckets@ == old(self).buckets@,
            !old(self).buckets@.dom().contains(key@) ==> {
                let before = old(self).buckets@;
                let fresh = TokenBucket { tokens: full, last_observed_ns: now_ns };
                if before.dom().len() >= old(self).max_keys {
                    exists|left: Map<Seq<char>, TokenBucket>| #[trigger]
                        is_evicted(before, left) && final(self).buckets@ == left.insert(
                            key@,
                            fresh,
                        )
                } else {
                    final(self).buckets@ == before.insert(key@, fresh)
                }
            },
            keeps_shared(old(self).buckets@, final(self).buckets@),
            keeps_bound(old(self).buckets@, final(self).buckets@, old(self).max_keys),
    {
        if let Some(bucket) = self.buckets.get(key) {
            return *bucket;
        }
        let ghost before = self.buckets@;
        let count = self.buckets.len();
        let fresh = TokenBucket { tokens: full, last_observed_ns: now_ns };
        if count >= self.max_keys {
            match find_victim(&self.buckets) {
                Some(victim) => {
                    let _ = self.buckets.remove(victim.as_str());
                    assert(is_victim(before, victim@));
                },
                None => {
                    proof {
                        lemma_only_shared_left(before);
                    }
                },
            }
            assert(is_evicted(before, self.buckets@));
        }
        self.buckets.insert(key.to_owned(), fresh);
        fresh
    }

    /// Puts the bucket of a key back after it was filled up and taken from.
    pub fn put(&mut self, key: &str, bucket: TokenBucket)
        ensures
            final(self).max_keys == old(self).max_keys,
            final(self).buckets@ == old(self).buckets@.insert(key@, bucket),
    {
        self.buckets.insert(key.to_owned(), bucket);
    }
}

/// Where no bucket may be dropped there is at most one.
proof fn lemma_only_shared_left(buckets: Map<Seq<char>, TokenBucket>)
    requires
        buckets.dom().finite(),
        forall|key: Seq<char>| !(#[trigger] may_drop(buckets, key)),
    ensures
        buckets.dom().len() <= 1,
{
    let shared = set![UNAUTHENTICATED_KEY@];
    assert forall|k: Seq<char>| buckets.dom().contains(k) implies shared.contains(k) by {
        assert(!may_drop(buckets, k));
    }
    assert(buckets.dom().subset_of(shared));
    vstd::set_lib::lemma_len_subset(buckets.dom(), shared);
    assert(shared.len() == 1);
}

/// A bucket that is in use is not dropped while an idle one may be.
pub proof fn law_idle_buckets_go_first(
    buckets: Map<Seq<char>, TokenBucket>,
    victim: Seq<char>,
    idle: Seq<char>,
    now_ns: u64,
)
    requires
        is_victim(buckets, victim),
        may_drop(buckets, idle),
        is_idle(buckets[idle], now_ns),
    ensures
        is_idle(buckets[victim], now_ns),
{
}

/// Taking from the bucket of a key and putting it back leaves no more buckets than there may be,
/// whatever the key is: new keys do not make the table grow without bound.
pub proof fn law_keys_stay_bounded(
    before: Map<Seq<char>, TokenBucket>,
    taken: Map<Seq<char>, TokenBucket>,
    key: Seq<char>,
    left: TokenBucket,
    max_keys: usize,
)
    requires
        max_keys >= 2,
        before.dom().len() <= max_keys,
        keeps_bound(before, taken, max_keys),
        taken.dom().contains(key),
    ensures
        taken.insert(key, left).dom().len() <= max_keys,
{
    assert(taken.insert(key, left).dom() =~= taken.dom());
}

} // verus!
