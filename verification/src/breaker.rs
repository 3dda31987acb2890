//! Circuit breaking for outbound calls.
//!
//! A breaker starts Closed.  Five consecutive failures open it; once the
//! cooldown has passed, the next permission check admits a single probe and
//! moves it to Half-Open; a success from any state returns it to Closed
//! with a cleared failure count.

use vstd::prelude::*;
use crate::smap::StrMap;

verus! {

/// Consecutive failures that open a breaker.
pub const FAILURE_THRESHOLD: u32 = 5;

/// Cooldown in whole seconds; a probe is admitted only after strictly
/// more than this many whole seconds have elapsed since the last
/// failure.
pub const COOLDOWN_SECS: u64 = 30;

/// The three breaker states.
#[derive(Clone, Copy, Debug, PartialEq, Eq, Structural)]
pub enum CircuitState {
    Closed,
    Open,
    HalfOpen,
}

/// A circuit breaker for one alias.
#[derive(Clone, Copy)]
pub struct CircuitBreaker {
    pub state: CircuitState,
    pub failure_count: u32,
    pub last_failure_ms: Option<u64>,
}

impl CircuitBreaker {
    /// A fresh breaker: Closed with no failures.
    pub open spec fn spec_new() -> CircuitBreaker {
        CircuitBreaker { state: CircuitState::Closed, failure_count: 0, last_failure_ms: None }
    }

    /// The breaker after a reported failure at `now`: the count rises and
    /// the breaker opens at the threshold.
    pub open spec fn spec_failed(self, now: u64) -> CircuitBreaker {
        let count: u32 = if self.failure_count < 0xffff_ffffu32 {
            (self.failure_count + 1) as u32
        } else {
            self.failure_count
        };
        CircuitBreaker {
            state: if count >= FAILURE_THRESHOLD {
                CircuitState::Open
            } else {
                self.state
            },
            failure_count: count,
            last_failure_ms: Some(now),
        }
    }

    /// The breaker after a reported success: Closed, count cleared.
    pub open spec fn spec_succeeded(self) -> CircuitBreaker {
        CircuitBreaker {
            state: CircuitState::Closed,
            failure_count: 0,
            last_failure_ms: self.last_failure_ms,
        }
    }

    /// Whether the cooldown has elapsed at `now`: strictly more than thirty
    /// whole seconds since the last failure.
    pub open spec fn cooled_down(self, now: u64) -> bool {
        match self.last_failure_ms {
            Some(last) => {
                let elapsed: int = if now >= last {
                    now - last
                } else {
                    0
                };
                elapsed / 1000 > COOLDOWN_SECS
            },
            None => false,
        }
    }

    /// Whether a permission check at `now` admits the call.
    pub open spec fn spec_allow(self, now: u64) -> bool {
        match self.state {
            CircuitState::Closed => true,
            CircuitState::Open => self.cooled_down(now),
            CircuitState::HalfOpen => true,
        }
    }

    /// The breaker after a permission check at `now`: an Open breaker whose
    /// cooldown has elapsed moves to Half-Open; nothing else changes.
    pub open spec fn spec_allow_step(self, now: u64) -> CircuitBreaker {
        if self.state is Open && self.cooled_down(now) {
            CircuitBreaker { state: CircuitState::HalfOpen, ..self }
        } else {
            self
        }
    }

    /// A fresh breaker.
    pub fn new() -> (r: CircuitBreaker)
        ensures
            r == CircuitBreaker::spec_new(),
    {
        CircuitBreaker { state: CircuitState::Closed, failure_count: 0, last_failure_ms: None }
    }

    /// Record a success: back to Closed with a cleared count.
    pub fn report_success(&mut self)
        ensures
            *final(self) == old(self).spec_succeeded(),
            final(self).state is Closed,
            final(self).failure_count == 0,
    {
        self.state = CircuitState::Closed;
        self.failure_count = 0;
    }

    /// Record a failure at `now`; the breaker opens at the fifth
    /// consecutive one.
    pub fn report_failure_at(&mut self, now_ms: u64)
        ensures
            *final(self) == old(self).spec_failed(now_ms),
    {
        if self.failure_count < 0xffff_ffffu32 {
            self.failure_count = self.failure_count + 1;
        }
        self.last_failure_ms = Some(now_ms);
        if self.failure_count >= FAILURE_THRESHOLD {
            self.state = CircuitState::Open;
        }
    }

    /// Whether a call may go out at `now`; admits one probe per cooldown by
    /// moving an Open breaker to Half-Open.
    pub fn should_allow_at(&mut self, now_ms: u64) -> (r: bool)
        ensures
            r == old(self).spec_allow(now_ms),
            *final(self) == old(self).spec_allow_step(now_ms),
    {
        match self.state {
            CircuitState::Closed => true,
            CircuitState::Open => {
                match self.last_failure_ms {
                    Some(last) => {
                        let elapsed: u64 = if now_ms >= last {
                            now_ms - last
                        } else {
                            0
                        };
                        if elapsed / 1000 > COOLDOWN_SECS {
                            self.state = CircuitState::HalfOpen;
                            true
                        } else {
                            false
                        }
                    },
                    None => false,
                }
            },
            CircuitState::HalfOpen => true,
        }
    }
}

impl CircuitBreaker {
    /// Record a failure against the wall clock.  Whatever instant the
    /// clock hands back, the breaker takes exactly one failure step at
    /// it.
    pub fn report_failure(&mut self)
        ensures
            exists|now: u64| *final(self) == #[trigger] old(self).spec_failed(now),
    {
        let now = crate::clock::now_millis();
        self.report_failure_at(now);
        proof {
            assert(*self == old(self).spec_failed(now));
        }
    }

    /// A permission check against the wall clock.  Whatever instant the
    /// clock hands back, the breaker takes exactly one check step at it.
    pub fn should_allow(&mut self) -> (r: bool)
        ensures
            exists|now: u64|
                *final(self) == #[trigger] old(self).spec_allow_step(now) && r == old(
                    self,
                ).spec_allow(now),
    {
        let now = crate::clock::now_millis();
        let r = self.should_allow_at(now);
        proof {
            assert(*self == old(self).spec_allow_step(now));
        }
        r
    }
}

/// Five consecutive failures open a fresh breaker; once the cooldown has
/// elapsed the next permission check admits a probe and leaves the breaker
/// Half-Open; a success then returns it to Closed with count zero.
pub proof fn lemma_breaker_trip_and_recover(
    t1: u64,
    t2: u64,
    t3: u64,
    t4: u64,
    t5: u64,
    probe: u64,
)
    requires
        probe >= t5 + 31_000,
    ensures
        ({
            let tripped = CircuitBreaker::spec_new().spec_failed(t1).spec_failed(t2).spec_failed(
                t3,
            ).spec_failed(t4).spec_failed(t5);
            &&& tripped.state is Open
            &&& tripped.spec_allow(probe)
            &&& tripped.spec_allow_step(probe).state is HalfOpen
            &&& tripped.spec_allow_step(probe).spec_succeeded().state is Closed
            &&& tripped.spec_allow_step(probe).spec_succeeded().failure_count == 0
        }),
{
    let tripped = CircuitBreaker::spec_new().spec_failed(t1).spec_failed(t2).spec_failed(
        t3,
    ).spec_failed(t4).spec_failed(t5);
    assert(tripped.failure_count == 5);
    assert(tripped.cooled_down(probe)) by {
        assert(probe - t5 >= 31_000);
        assert((probe - t5) / 1000 >= 31);
    }
}

/// Before the cooldown has elapsed, an Open breaker admits nothing.
pub proof fn lemma_breaker_blocks_while_cooling(b: CircuitBreaker, now: u64)
    requires
        b.state is Open,
        b.last_failure_ms matches Some(last) && now >= last && now - last <= 30_000,
    ensures
        !b.spec_allow(now),
        b.spec_allow_step(now) == b,
{
    let last = b.last_failure_ms.unwrap();
    assert((now - last) / 1000 <= 30);
}

/// The circuit breakers of all aliases, created Closed on first use.
pub struct FaultTolerance {
    pub breakers: StrMap<CircuitBreaker>,
}

impl FaultTolerance {
    /// The breaker a step at this key starts from: the stored one, else a
    /// fresh Closed one.
    pub open spec fn breaker_before(self, key: Seq<char>) -> CircuitBreaker {
        if self.breakers@.contains_key(key) {
            self.breakers@[key]
        } else {
            CircuitBreaker::spec_new()
        }
    }

    /// An empty guard.
    pub fn new() -> (r: Self)
        ensures
            r.breakers@ == Map::<Seq<char>, CircuitBreaker>::empty(),
    {
        FaultTolerance { breakers: StrMap::new() }
    }

    /// The state of the breaker for `key`; Closed if none exists.
    pub fn get_status(&self, key: &str) -> (r: CircuitState)
        ensures
            r == self.breaker_before(key@).state,
    {
        match self.breakers.get(key) {
            Some(b) => b.state,
            None => CircuitState::Closed,
        }
    }

    /// Permission check for the breaker of `key`, created Closed if absent.
    pub fn allow(&mut self, key: &str, now_ms: u64) -> (r: bool)
        ensures
            r == old(self).breaker_before(key@).spec_allow(now_ms),
            final(self).breakers@ == old(self).breakers@.insert(
                key@,
                old(self).breaker_before(key@).spec_allow_step(now_ms),
            ),
    {
        let mut b: CircuitBreaker = match self.breakers.get(key) {
            Some(existing) => *existing,
            None => CircuitBreaker::new(),
        };
        let r = b.should_allow_at(now_ms);
        self.breakers.insert(key.to_owned(), b);
        r
    }

    /// Record a success on the breaker of `key`.
    pub fn report_success(&mut self, key: &str)
        ensures
            final(self).breakers@ == old(self).breakers@.insert(
                key@,
                old(self).breaker_before(key@).spec_succeeded(),
            ),
    {
        let mut b: CircuitBreaker = match self.breakers.get(key) {
            Some(existing) => *existing,
            None => CircuitBreaker::new(),
        };
        b.report_success();
        self.breakers.insert(key.to_owned(), b);
    }

    /// Record a failure at `now` on the breaker of `key`.
    pub fn report_failure(&mut self, key: &str, now_ms: u64)
        ensures
            final(self).breakers@ == old(self).breakers@.insert(
                key@,
                old(self).breaker_before(key@).spec_failed(now_ms),
            ),
    {
        let mut b: CircuitBreaker = match self.breakers.get(key) {
            Some(existing) => *existing,
            None => CircuitBreaker::new(),
        };
        b.report_failure_at(now_ms);
        self.breakers.insert(key.to_owned(), b);
    }
}

} // verus!
