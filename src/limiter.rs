use vstd::prelude::*;

use crate::config::RateLimitConfig;
use crate::config::MULTIPLIER_ONE;

verus! {

/// The backoff state shared by every worker of a batch.
#[derive(Debug, Clone, Copy, PartialEq, Eq, Structural)]
pub struct RateLimiterState {
    /// The last delay applied, zero when none is in force.
    pub current_delay_ms: u64,
    /// The instant before which no new download may start.
    pub next_ready_ms: Option<u64>,
}

/// Adaptive failure backoff: a configuration and the state it governs.
///
/// Each method is one atomic read-modify-write of the state; callers that
/// share a limiter hold a lock across one call, never across a sleep.
#[derive(Debug, Clone, Copy, PartialEq, Eq, Structural)]
pub struct RateLimiter {
    pub config: RateLimitConfig,
    pub state: RateLimiterState,
}

/// `a + b`, or the largest `u64` where the sum does not fit.
pub open spec fn saturating_sum(a: u64, b: u64) -> u64 {
    if a + b > u64::MAX {
        u64::MAX
    } else {
        (a + b) as u64
    }
}

/// `value` brought into `[low, high]`; `low` wins where `high < low`.
pub open spec fn clamp(value: int, low: int, high: int) -> int {
    if value > high {
        if high < low {
            low
        } else {
            high
        }
    } else if value < low {
        low
    } else {
        value
    }
}

/// The delay that follows `current` under `config`: the base delay after
/// none, else `current` times the multiplier, clamped to the base and cap.
pub open spec fn next_delay(config: RateLimitConfig, current: u64) -> u64 {
    if current == 0 {
        config.base_delay_ms
    } else {
        clamp(
            current * config.effective_multiplier() / (MULTIPLIER_ONE as int),
            config.base_delay_ms as int,
            config.effective_max_delay() as int,
        ) as u64
    }
}

proof fn lemma_product_fits(a: u64, b: u64)
    ensures
        a * b <= u128::MAX,
{
    assert(a * b <= u64::MAX * u64::MAX) by (nonlinear_arith);
}

impl RateLimiter {
    /// How long a worker polling at `now` must still sleep, or `None` when it
    /// may start.
    pub open spec fn poll_result(&self, now: u64) -> Option<u64> {
        if !self.config.enabled() {
            None
        } else {
            match self.state.next_ready_ms {
                Some(t) if t > now => Some((t - now) as u64),
                _ => None,
            }
        }
    }

    /// The limiter after a poll at `now`: an elapsed deadline is cleared.
    pub open spec fn after_poll(&self, now: u64) -> RateLimiter {
        if !self.config.enabled() {
            *self
        } else {
            match self.state.next_ready_ms {
                Some(t) if t <= now => RateLimiter {
                    state: RateLimiterState { next_ready_ms: None, ..self.state },
                    ..*self
                },
                _ => *self,
            }
        }
    }

    /// The delay a failure reported now returns.
    pub open spec fn failure_delay(&self) -> u64 {
        if !self.config.enabled() {
            0
        } else {
            next_delay(self.config, self.state.current_delay_ms)
        }
    }

    /// The limiter after a failure at `now`: the new delay is recorded and the
    /// deadline moves to `now + delay` unless a later one is pending.
    pub open spec fn after_failure(&self, now: u64) -> RateLimiter {
        if !self.config.enabled() {
            *self
        } else {
            let delay = self.failure_delay();
            let proposed = saturating_sum(now, delay);
            let ready: u64 = match self.state.next_ready_ms {
                Some(t) if t > proposed => t,
                _ => proposed,
            };
            RateLimiter {
                state: RateLimiterState { current_delay_ms: delay, next_ready_ms: Some(ready) },
                ..*self
            }
        }
    }

    /// The limiter after a success at `now`: the backoff is reset unless it is
    /// disabled, resetting is off, or a deadline is still in the future.
    pub open spec fn after_success(&self, now: u64) -> RateLimiter {
        if !self.config.enabled() || !self.config.reset_after_success {
            *self
        } else {
            match self.state.next_ready_ms {
                Some(t) if t > now => *self,
                _ => RateLimiter {
                    state: RateLimiterState { current_delay_ms: 0, next_ready_ms: None },
                    ..*self
                },
            }
        }
    }

    pub fn new(config: RateLimitConfig) -> (r: Self)
        ensures
            r.config == config,
            r.state.current_delay_ms == 0,
            r.state.next_ready_ms.is_none(),
    {
        RateLimiter { config, state: RateLimiterState { current_delay_ms: 0, next_ready_ms: None } }
    }

    /// One check of the deadline at `now`. Returns the time left to sleep
    /// before checking again, never zero, or `None` when the caller may go on;
    /// a deadline that has elapsed is cleared.
    pub fn poll_ready(&mut self, now: u64) -> (r: Option<u64>)
        ensures
            r == old(self).poll_result(now),
            *final(self) == old(self).after_poll(now),
            r matches Some(d) ==> d > 0 && old(self).state.next_ready_ms == Some(
                (now + d) as u64,
            ),
    {
        if !self.config.is_enabled() {
            return None;
        }
        match self.state.next_ready_ms {
            Some(t) => {
                if t > now {
                    Some(t - now)
                } else {
                    self.state.next_ready_ms = None;
                    None
                }
            },
            None => None,
        }
    }

    /// Records a failure at `now` and returns the delay the failing worker
    /// must wait; zero when backoff is disabled.
    pub fn on_failure(&mut self, now: u64) -> (r: u64)
        ensures
            r == old(self).failure_delay(),
            *final(self) == old(self).after_failure(now),
            old(self).config.enabled() ==> r >= old(self).config.base_delay_ms && r > 0,
            !old(self).config.enabled() ==> r == 0,
    {
        if !self.config.is_enabled() {
            return 0;
        }
        let base: u64 = self.config.base_delay_ms;
        let current: u64 = self.state.current_delay_ms;
        proof {
            lemma_product_fits(current, if self.config.multiplier_permille < MULTIPLIER_ONE {
                MULTIPLIER_ONE
            } else {
                self.config.multiplier_permille
            });
        }
        let delay: u64 = if current == 0 {
            base
        } else {
            let multiplier: u64 = if self.config.multiplier_permille < MULTIPLIER_ONE {
                MULTIPLIER_ONE
            } else {
                self.config.multiplier_permille
            };
            let cap: u64 = if self.config.max_delay_ms < base {
                base
            } else {
                self.config.max_delay_ms
            };
            let product: u128 = (current as u128) * (multiplier as u128);
            let scaled: u128 = product / (MULTIPLIER_ONE as u128);
            if scaled > cap as u128 {
                cap
            } else if scaled < base as u128 {
                base
            } else {
                scaled as u64
            }
        };
        let proposed: u64 = now.saturating_add(delay);
        let ready: u64 = match self.state.next_ready_ms {
            Some(t) => if t > proposed {
                t
            } else {
                proposed
            },
            None => proposed,
        };
        self.state = RateLimiterState { current_delay_ms: delay, next_ready_ms: Some(ready) };
        delay
    }

    /// Records a success at `now`, resetting the backoff when no deadline set
    /// by another failure is still pending.
    pub fn on_success(&mut self, now: u64)
        ensures
            *final(self) == old(self).after_success(now),
    {
        if !self.config.is_enabled() || !self.config.reset_after_success {
            return ;
        }
        if let Some(t) = self.state.next_ready_ms {
            if t > now {
                return ;
            }
        }
        self.state = RateLimiterState { current_delay_ms: 0, next_ready_ms: None };
    }
}

/// With backoff disabled, polling, failing and succeeding change nothing,
/// polling never asks to wait, and a failure asks for no delay.
pub proof fn lemma_disabled_is_noop(limiter: RateLimiter, now: u64)
    requires
        !limiter.config.enabled(),
    ensures
        limiter.poll_result(now).is_none(),
        limiter.after_poll(now) == limiter,
        limiter.failure_delay() == 0,
        limiter.after_failure(now) == limiter,
        limiter.after_success(now) == limiter,
{
}

/// Consecutive failures from a reset state return the base delay first, then
/// each time the previous delay times the multiplier, clamped to the base
/// delay and the cap. `limiters[i + 1]` is `limiters[i]` after the failure
/// reported at `times[i]`, and `delays[i]` is what that failure returned.
pub proof fn lemma_backoff_sequence(
    limiters: Seq<RateLimiter>,
    times: Seq<u64>,
    delays: Seq<u64>,
)
    requires
        limiters.len() == delays.len() + 1,
        times.len() == delays.len(),
        limiters[0].config.enabled(),
        limiters[0].state.current_delay_ms == 0,
        forall|i: int|
            0 <= i < delays.len() ==> #[trigger] delays[i] == limiters[i].failure_delay()
                && limiters[i + 1] == limiters[i].after_failure(times[i]),
    ensures
        delays.len() > 0 ==> delays[0] == limiters[0].config.base_delay_ms,
        forall|k: int|
            0 < k < delays.len() ==> #[trigger] delays[k] == clamp(
                delays[k - 1] * limiters[0].config.effective_multiplier() / (MULTIPLIER_ONE as int),
                limiters[0].config.base_delay_ms as int,
                limiters[0].config.effective_max_delay() as int,
            ),
{
    let config = limiters[0].config;
    assert forall|k: int| 0 <= k < limiters.len() implies #[trigger] limiters[k].config == config by {
        lemma_config_kept(limiters, times, delays, k);
    }
    assert forall|k: int| 0 < k < delays.len() implies #[trigger] delays[k] == clamp(
        delays[k - 1] * config.effective_multiplier() / (MULTIPLIER_ONE as int),
        config.base_delay_ms as int,
        config.effective_max_delay() as int,
    ) by {
        assert(delays[k - 1] == limiters[k - 1].failure_delay());
        assert(limiters[k] == limiters[k - 1].after_failure(times[k - 1]));
        assert(limiters[k].state.current_delay_ms == delays[k - 1]);
        assert(delays[k] == limiters[k].failure_delay());
        assert(limiters[k - 1].config == config);
        assert(limiters[k].config == config);
        lemma_next_delay_bounds(config, limiters[k - 1].state.current_delay_ms);
    }
}

proof fn lemma_config_kept(limiters: Seq<RateLimiter>, times: Seq<u64>, delays: Seq<u64>, k: int)
    requires
        limiters.len() == delays.len() + 1,
        times.len() == delays.len(),
        0 <= k < limiters.len(),
        forall|i: int|
            0 <= i < delays.len() ==> #[trigger] delays[i] == limiters[i].failure_delay()
                && limiters[i + 1] == limiters[i].after_failure(times[i]),
    ensures
        limiters[k].config == limiters[0].config,
    decreases k,
{
    if k > 0 {
        lemma_config_kept(limiters, times, delays, k - 1);
        assert(delays[k - 1] == limiters[k - 1].failure_delay());
    }
}

proof fn lemma_next_delay_bounds(config: RateLimitConfig, current: u64)
    requires
        config.enabled(),
    ensures
        next_delay(config, current) >= config.base_delay_ms,
        next_delay(config, current) > 0,
{
}

/// Under an enabled configuration every failure leaves a deadline no earlier
/// than the moment it was reported, and no earlier than the one before it.
pub proof fn lemma_failure_deadline(limiter: RateLimiter, now: u64)
    requires
        limiter.config.enabled(),
    ensures
        limiter.after_failure(now).state.next_ready_ms matches Some(t) && t >= now
            && t >= saturating_sum(now, limiter.failure_delay()),
        limiter.state.next_ready_ms matches Some(old_t) ==> limiter.after_failure(
            now,
        ).state.next_ready_ms matches Some(t) && t >= old_t,
{
}

/// A success after the deadline has passed resets the delay and clears the
/// deadline; a success while a deadline is still ahead changes nothing.
pub proof fn lemma_success_resets(limiter: RateLimiter, now: u64)
    requires
        limiter.config.enabled(),
        limiter.config.reset_after_success,
    ensures
        (limiter.state.next_ready_ms matches Some(t) && t > now) ==> limiter.after_success(now)
            == limiter,
        !(limiter.state.next_ready_ms matches Some(t) && t > now) ==> limiter.after_success(
            now,
        ).state == (RateLimiterState { current_delay_ms: 0, next_ready_ms: None }),
{
}

/// A poll lets the caller go on only when no deadline lies after `now`; and a
/// caller that sleeps for the time a poll returned, then polls again with the
/// deadline unchanged, is let go.
pub proof fn lemma_wait_ready(limiter: RateLimiter, now: u64, later: u64)
    ensures
        limiter.config.enabled() && limiter.poll_result(now).is_none() ==> !(
        limiter.state.next_ready_ms matches Some(t) && t > now),
        limiter.poll_result(now) matches Some(d) && later >= now + d ==> limiter.poll_result(
            later,
        ).is_none(),
        limiter.state.next_ready_ms matches Some(t) && later >= t ==> limiter.poll_result(
            later,
        ).is_none(),
{
}

} // verus!
