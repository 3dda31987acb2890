//! Per-key rate limiting with lazily refilled token buckets.
//!
//! Tokens are held in thousandths ("milli-tokens") so that the refill
//! `elapsed_ms x rate_per_second` is exact integer arithmetic: one
//! millisecond at rate `r` adds `r` milli-tokens.  One consumption costs
//! 1000 milli-tokens, and the level is clamped to the capacity, which
//! equals the fill rate (a bucket holds at most one second of tokens).

use vstd::prelude::*;
use crate::smap::StrMap;

verus! {

/// Highest accepted fill rate; keeps every refill product inside `u64`.
pub const MAX_FILL_RATE: u64 = 1_000_000_000;

/// Milli-token price of one consumption.
pub const TOKEN_COST: u64 = 1000;

/// A lazily refilled token bucket.
#[derive(Clone, Copy)]
pub struct TokenBucket {
    /// Tokens added per second; also the capacity in whole tokens.
    pub fill_rate: u64,
    /// Current level in milli-tokens.
    pub tokens_milli: u64,
    /// Timestamp (ms) of the last refill.
    pub last_filled_ms: u64,
}

impl TokenBucket {
    /// Capacity in milli-tokens.
    pub open spec fn cap_milli(self) -> int {
        self.fill_rate * 1000
    }

    /// Well-formed: the rate leaves arithmetic headroom and the level is
    /// within capacity.
    pub open spec fn wf(self) -> bool {
        self.fill_rate <= MAX_FILL_RATE && self.tokens_milli <= self.cap_milli()
    }

    /// Level after refilling at time `now`, before any consumption.
    pub open spec fn refilled(self, now: u64) -> int {
        let elapsed: int = if now > self.last_filled_ms {
            now - self.last_filled_ms
        } else {
            0
        };
        vstd::math::min(self.cap_milli(), self.tokens_milli + elapsed * self.fill_rate)
    }

    /// Whether a consumption at `now` succeeds.
    pub open spec fn step_ok(self, now: u64) -> bool {
        self.refilled(now) >= TOKEN_COST
    }

    /// The bucket after a consumption attempt at `now`.
    pub open spec fn stepped(self, now: u64) -> TokenBucket {
        TokenBucket {
            fill_rate: self.fill_rate,
            tokens_milli: (if self.refilled(now) >= TOKEN_COST {
                self.refilled(now) - TOKEN_COST
            } else {
                self.refilled(now)
            }) as u64,
            last_filled_ms: now,
        }
    }

    /// A full bucket of the given rate, last touched at `now`.
    pub open spec fn spec_new(rate: u64, now: u64) -> TokenBucket {
        TokenBucket { fill_rate: rate, tokens_milli: (rate * 1000) as u64, last_filled_ms: now }
    }

    /// A fresh, full bucket.
    pub fn new(rate: u64, now_ms: u64) -> (r: TokenBucket)
        requires
            rate <= MAX_FILL_RATE,
        ensures
            r == TokenBucket::spec_new(rate, now_ms),
            r.wf(),
    {
        TokenBucket { fill_rate: rate, tokens_milli: rate * 1000, last_filled_ms: now_ms }
    }

    /// Refill for the elapsed time, then take one token if a whole one is
    /// there.  The level always stays within `[0, capacity]`.
    pub fn try_consume_at(&mut self, now_ms: u64) -> (r: bool)
        requires
            old(self).wf(),
        ensures
            r == old(self).step_ok(now_ms),
            *final(self) == old(self).stepped(now_ms),
            final(self).wf(),
    {
        let elapsed: u64 = if now_ms > self.last_filled_ms {
            now_ms - self.last_filled_ms
        } else {
            0
        };
        let cap: u64 = self.fill_rate * 1000;
        let filled: u64 = if elapsed >= 1000 {
            proof {
                assert(elapsed * self.fill_rate >= 1000 * self.fill_rate) by (nonlinear_arith)
                    requires
                        elapsed >= 1000,
                        self.fill_rate >= 0,
                ;
            }
            cap
        } else {
            proof {
                assert(elapsed * self.fill_rate <= 1000 * MAX_FILL_RATE) by (nonlinear_arith)
                    requires
                        elapsed < 1000,
                        self.fill_rate <= MAX_FILL_RATE,
                ;
            }
            let refill: u64 = elapsed * self.fill_rate;
            if self.tokens_milli + refill >= cap {
                cap
            } else {
                self.tokens_milli + refill
            }
        };
        self.last_filled_ms = now_ms;
        if filled >= TOKEN_COST {
            self.tokens_milli = filled - TOKEN_COST;
            true
        } else {
            self.tokens_milli = filled;
            false
        }
    }
}

impl TokenBucket {
    /// A consumption attempt against the wall clock.  Whatever instant
    /// the clock hands back, the bucket takes exactly one step at it.
    pub fn try_consume(&mut self) -> (r: bool)
        requires
            old(self).wf(),
        ensures
            final(self).wf(),
            exists|now: u64|
                *final(self) == #[trigger] old(self).stepped(now) && r == old(self).step_ok(now),
    {
        let now = crate::clock::now_millis();
        let r = self.try_consume_at(now);
        proof {
            assert(*self == old(self).stepped(now));
        }
        r
    }
}

/// The level of a well-formed bucket stays within `[0, capacity]`
/// through any consumption attempt, so it does under any interleaving
/// of them.
pub proof fn lemma_level_stays_in_range(b: TokenBucket, now: u64)
    requires
        b.wf(),
    ensures
        0 <= b.stepped(now).tokens_milli <= b.stepped(now).cap_milli(),
        b.stepped(now).wf(),
{
}

/// The bucket after the consumption attempts at the given times.
pub open spec fn run_bucket(b: TokenBucket, times: Seq<u64>) -> TokenBucket
    decreases times.len(),
{
    if times.len() == 0 {
        b
    } else {
        run_bucket(b, times.drop_last()).stepped(times.last())
    }
}

/// How many of the consumption attempts at the given times succeed.
pub open spec fn run_successes(b: TokenBucket, times: Seq<u64>) -> int
    decreases times.len(),
{
    if times.len() == 0 {
        0int
    } else {
        run_successes(b, times.drop_last()) + (if run_bucket(b, times.drop_last()).step_ok(
            times.last(),
        ) {
            1int
        } else {
            0int
        })
    }
}

/// Times presented to one bucket never move backwards.
pub open spec fn monotone(times: Seq<u64>) -> bool {
    forall|i: int, j: int| 0 <= i <= j < times.len() ==> times[i] <= times[j]
}

proof fn lemma_run_last(b: TokenBucket, times: Seq<u64>)
    requires
        monotone(times),
        times.len() > 0 ==> b.last_filled_ms <= times[0],
    ensures
        run_bucket(b, times).last_filled_ms == if times.len() == 0 {
            b.last_filled_ms
        } else {
            times.last()
        },
        run_bucket(b, times).fill_rate == b.fill_rate,
        TOKEN_COST * run_successes(b, times) + run_bucket(b, times).tokens_milli <= b.tokens_milli
            + (run_bucket(b, times).last_filled_ms - b.last_filled_ms) * b.fill_rate,
    decreases times.len(),
{
    if times.len() > 0 {
        let prefix = times.drop_last();
        assert(monotone(prefix)) by {
            assert(forall|i: int, j: int|
                0 <= i <= j < prefix.len() ==> times[i] <= times[j]);
        }
        assert(prefix.len() > 0 ==> prefix[0] == times[0]);
        lemma_run_last(b, prefix);
        let b1 = run_bucket(b, prefix);
        let t = times.last();
        assert(b1.last_filled_ms <= t) by {
            if prefix.len() > 0 {
                assert(prefix.last() == times[times.len() - 2]);
            }
        }
        let elapsed: int = if t > b1.last_filled_ms {
            t - b1.last_filled_ms
        } else {
            0
        };
        assert(b1.refilled(t) <= b1.tokens_milli + elapsed * b1.fill_rate);
        assert(TOKEN_COST * run_successes(b, times) + run_bucket(b, times).tokens_milli <= TOKEN_COST
            * run_successes(b, prefix) + b1.tokens_milli + elapsed * b1.fill_rate);
        assert((b1.last_filled_ms - b.last_filled_ms) * b.fill_rate + elapsed * b.fill_rate == (
        b1.last_filled_ms - b.last_filled_ms + elapsed) * b.fill_rate) by (nonlinear_arith);
    }
}

/// Over any window, the number of successful consumptions is bounded by the
/// capacity plus the window's worth of refill: with rate `R` (tokens per
/// second, capacity `R`) and attempts inside `[t0, t0 + dur_ms]`, at most
/// `R + R * dur_ms / 1000` attempts succeed.
pub proof fn lemma_rate_window_bound(b: TokenBucket, times: Seq<u64>, t0: u64, dur_ms: u64)
    requires
        b.wf(),
        monotone(times),
        t0 <= b.last_filled_ms,
        times.len() > 0 ==> b.last_filled_ms <= times[0],
        forall|i: int| 0 <= i < times.len() ==> times[i] <= t0 + dur_ms,
    ensures
        TOKEN_COST * run_successes(b, times) <= b.cap_milli() + dur_ms * b.fill_rate,
{
    lemma_run_last(b, times);
    if times.len() > 0 {
        let w = run_bucket(b, times).last_filled_ms - b.last_filled_ms;
        assert(w <= dur_ms);
        assert(w * b.fill_rate <= dur_ms * b.fill_rate) by (nonlinear_arith)
            requires
                0 <= w <= dur_ms,
                0 <= b.fill_rate,
        ;
    }
}

/// A set of token buckets keyed by string (tenant id upstream, alias
/// downstream), created on first use with a default rate.
pub struct TrafficGuard {
    pub buckets: StrMap<TokenBucket>,
}

impl TrafficGuard {
    /// Every stored bucket is well-formed.
    pub open spec fn wf(self) -> bool {
        forall|k: Seq<char>|
            self.buckets@.contains_key(k) ==> (#[trigger] self.buckets@[k]).wf()
    }

    /// The bucket a check at this key starts from: the stored one, else a
    /// fresh full bucket of the given rate.
    pub open spec fn bucket_before(self, key: Seq<char>, rate: u64, now: u64) -> TokenBucket {
        if self.buckets@.contains_key(key) {
            self.buckets@[key]
        } else {
            TokenBucket::spec_new(rate, now)
        }
    }

    /// An empty guard.
    pub fn new() -> (r: Self)
        ensures
            r.buckets@ == Map::<Seq<char>, TokenBucket>::empty(),
            r.wf(),
    {
        TrafficGuard { buckets: StrMap::new() }
    }

    /// One consumption attempt against the bucket for `key`, which is
    /// created full at rate `rate` if absent.
    pub fn check(&mut self, key: &str, rate: u64, now_ms: u64) -> (r: bool)
        requires
            old(self).wf(),
            rate <= MAX_FILL_RATE,
        ensures
            r == old(self).bucket_before(key@, rate, now_ms).step_ok(now_ms),
            final(self).buckets@ == old(self).buckets@.insert(
                key@,
                old(self).bucket_before(key@, rate, now_ms).stepped(now_ms),
            ),
            final(self).wf(),
    {
        let mut b: TokenBucket = match self.buckets.get(key) {
            Some(existing) => *existing,
            None => TokenBucket::new(rate, now_ms),
        };
        proof {
            assert(b == old(self).bucket_before(key@, rate, now_ms));
        }
        let ok = b.try_consume_at(now_ms);
        self.buckets.insert(key.to_owned(), b);
        ok
    }
}

} // verus!
