//! The resilience manager: security store, traffic controller and fault
//! tolerance, reloaded together from the registry document.

use vstd::prelude::*;
use crate::smap::StrMap;
use crate::bucket::{TokenBucket, TrafficGuard, MAX_FILL_RATE};
use crate::breaker::FaultTolerance;
use crate::security::SecurityManager;

verus! {

/// Default requests per second allowed upstream, per tenant.
pub const DEFAULT_UPSTREAM_RPS: u64 = 100;

/// Default requests per second allowed downstream, per alias.
pub const DEFAULT_DOWNSTREAM_RPS: u64 = 10;

/// A configured rate, held below the arithmetic ceiling.
pub open spec fn clamped_rate(r: u64) -> u64 {
    if r <= MAX_FILL_RATE {
        r
    } else {
        MAX_FILL_RATE
    }
}

/// Upstream (per tenant) and downstream (per alias) token buckets.
pub struct TrafficController {
    pub upstream_buckets: TrafficGuard,
    pub downstream_buckets: TrafficGuard,
}

impl TrafficController {
    /// Both directions hold only well-formed buckets.
    pub open spec fn wf(self) -> bool {
        self.upstream_buckets.wf() && self.downstream_buckets.wf()
    }

    /// Empty controllers.
    pub fn new() -> (r: Self)
        ensures
            r.upstream_buckets.buckets@ == Map::<Seq<char>, TokenBucket>::empty(),
            r.downstream_buckets.buckets@ == Map::<Seq<char>, TokenBucket>::empty(),
            r.wf(),
    {
        TrafficController { upstream_buckets: TrafficGuard::new(), downstream_buckets: TrafficGuard::new() }
    }

    /// One upstream consumption for the tenant; the bucket is created full
    /// at the given rate if the tenant has none yet.
    pub fn check_upstream(&mut self, tomain_id: &str, limit_per_sec: u64, now_ms: u64) -> (r: bool)
        requires
            old(self).wf(),
            limit_per_sec <= MAX_FILL_RATE,
        ensures
            r == old(self).upstream_buckets.bucket_before(tomain_id@, limit_per_sec, now_ms).step_ok(now_ms),
            final(self).upstream_buckets.buckets@ == old(self).upstream_buckets.buckets@.insert(
                tomain_id@,
                old(self).upstream_buckets.bucket_before(tomain_id@, limit_per_sec, now_ms).stepped(now_ms),
            ),
            final(self).downstream_buckets == old(self).downstream_buckets,
            final(self).wf(),
    {
        self.upstream_buckets.check(tomain_id, limit_per_sec, now_ms)
    }

    /// One downstream consumption for the alias; the bucket is created
    /// full at the given rate if the alias has none yet.
    pub fn check_downstream(&mut self, alias: &str, limit_per_sec: u64, now_ms: u64) -> (r: bool)
        requires
            old(self).wf(),
            limit_per_sec <= MAX_FILL_RATE,
        ensures
            r == old(self).downstream_buckets.bucket_before(alias@, limit_per_sec, now_ms).step_ok(now_ms),
            final(self).downstream_buckets.buckets@ == old(self).downstream_buckets.buckets@.insert(
                alias@,
                old(self).downstream_buckets.bucket_before(alias@, limit_per_sec, now_ms).stepped(now_ms),
            ),
            final(self).upstream_buckets == old(self).upstream_buckets,
            final(self).wf(),
    {
        self.downstream_buckets.check(alias, limit_per_sec, now_ms)
    }
}

/// Security, traffic and fault tolerance side by side.
pub struct ResilienceManager {
    pub security: SecurityManager,
    pub traffic: TrafficController,
    pub fault: FaultTolerance,
}

impl ResilienceManager {
    /// The traffic controller holds only well-formed buckets.
    pub open spec fn wf(self) -> bool {
        self.traffic.wf()
    }

    /// Empty stores.
    pub fn new() -> (r: Self)
        ensures
            r.security.public_keys@ == Map::<Seq<char>, String>::empty(),
            r.security.vault@ == Map::<Seq<char>, String>::empty(),
            r.traffic.upstream_buckets.buckets@ == Map::<Seq<char>, TokenBucket>::empty(),
            r.traffic.downstream_buckets.buckets@ == Map::<Seq<char>, TokenBucket>::empty(),
            r.fault.breakers@ == Map::<Seq<char>, crate::breaker::CircuitBreaker>::empty(),
            r.wf(),
    {
        ResilienceManager {
            security: SecurityManager::new(),
            traffic: TrafficController::new(),
            fault: FaultTolerance::new(),
        }
    }

    /// Reload the security store and the rate limits from the registry
    /// document: keys and vault are replaced, both bucket directions are
    /// cleared, and one full upstream bucket is made per configured limit.
    /// Breakers are left alone.
    pub fn reload_from_doc(
        &mut self,
        public_keys: StrMap<String>,
        vault: StrMap<String>,
        upstream_limits: &StrMap<u64>,
        now_ms: u64,
    )
        ensures
            final(self).security.public_keys == public_keys,
            final(self).security.vault == vault,
            final(self).traffic.downstream_buckets.buckets@ == Map::<Seq<char>, TokenBucket>::empty(),
            forall|k: Seq<char>|
                final(self).traffic.upstream_buckets.buckets@.contains_key(k)
                    <==> upstream_limits@.contains_key(k),
            forall|k: Seq<char>|
                upstream_limits@.contains_key(k)
                    ==> final(self).traffic.upstream_buckets.buckets@[k] == TokenBucket::spec_new(
                    clamped_rate(upstream_limits@[k]),
                    now_ms,
                ),
            final(self).fault == old(self).fault,
            final(self).wf(),
    {
        self.security = SecurityManager { public_keys, vault };
        let mut upstream: StrMap<TokenBucket> = StrMap::new();
        let limits = upstream_limits.pairs();
        let n = limits.len();
        let mut i: usize = 0;
        while i < n
            invariant
                n == limits@.len(),
                i <= n,
                forall|j: int|
                    0 <= j < n ==> upstream_limits@.contains_key(#[trigger] limits@[j].0@)
                        && upstream_limits@[limits@[j].0@] == limits@[j].1,
                forall|j: int, l: int| 0 <= j < l < n ==> limits@[j].0@ != limits@[l].0@,
                forall|k: Seq<char>|
                    upstream_limits@.contains_key(k) ==> exists|j: int|
                        0 <= j < n && #[trigger] limits@[j].0@ == k,
                forall|k: Seq<char>|
                    upstream@.contains_key(k) ==> exists|j: int|
                        0 <= j < i && #[trigger] limits@[j].0@ == k,
                forall|j: int|
                    0 <= j < i ==> upstream@.contains_key(#[trigger] limits@[j].0@)
                        && upstream@[limits@[j].0@] == TokenBucket::spec_new(
                        clamped_rate(limits@[j].1),
                        now_ms,
                    ),
            decreases n - i,
        {
            let (key, rate) = &limits[i];
            let capped: u64 = if *rate <= MAX_FILL_RATE {
                *rate
            } else {
                MAX_FILL_RATE
            };
            let b = TokenBucket::new(capped, now_ms);
            upstream.insert(key.clone(), b);
            i += 1;
        }
        proof {
            assert forall|k: Seq<char>|
                upstream@.contains_key(k) implies upstream_limits@.contains_key(k) by {}
        }
        self.traffic = TrafficController {
            upstream_buckets: TrafficGuard { buckets: upstream },
            downstream_buckets: TrafficGuard::new(),
        };
    }
}

} // verus!
