//! The retry policy engine: decides whether a failed activity attempt
//! is retried and after which backoff delay.
//!
//! Durations are milliseconds; the backoff coefficient is kept in
//! hundredths, so a coefficient of 2.0 is stored as 200.

use vstd::prelude::*;
use crate::error::ActivityError;

verus! {

/// Governs retry behaviour of one activity invocation.
#[derive(Debug, Clone)]
pub struct RetryPolicy {
    /// Upper bound on attempts; at least 1.
    pub max_attempts: u32,
    /// Backoff delay before the second attempt, in milliseconds.
    pub initial_interval_ms: u64,
    /// Cap on every backoff delay, in milliseconds.
    pub max_interval_ms: u64,
    /// Multiplier applied to the delay after each failure, in
    /// hundredths (200 means 2.0); at least 100.
    pub backoff_coefficient_centi: u32,
    /// Error kinds (as `ActivityError::kind` texts) that are never
    /// retried.
    pub non_retryable_error_types: Vec<String>,
}

/// The backoff delay after `steps` multiplications: starts at
/// `initial`, multiplied by `centi/100` each step, capped at `max`
/// after every step.
pub open spec fn spec_backoff(initial: int, centi: int, max: int, steps: nat) -> int
    decreases steps,
{
    if steps == 0 {
        if initial <= max {
            initial
        } else {
            max
        }
    } else {
        let p = spec_backoff(initial, centi, max, (steps - 1) as nat);
        let q = p * centi / 100;
        if q <= max {
            q
        } else {
            max
        }
    }
}

impl RetryPolicy {
    /// The policy's invariant: the coefficient is at least 1.0 and the
    /// initial delay does not exceed the cap.
    pub open spec fn valid(&self) -> bool {
        &&& self.backoff_coefficient_centi >= 100
        &&& self.initial_interval_ms <= self.max_interval_ms
        &&& self.max_attempts >= 1
    }

    /// True when the policy allows retrying after `error`:
    /// `ValidationFailed` and `Cancelled` never retry, nor does any
    /// kind listed as non-retryable.
    pub open spec fn spec_is_retryable(&self, error: ActivityError) -> bool {
        &&& !(error is ValidationFailed)
        &&& !(error is Cancelled)
        &&& !self.non_retryable_error_types@.map_values(|s: String| s@).contains(error.spec_kind())
    }

    /// True when the policy allows retrying after `error`.
    pub fn is_retryable(&self, error: &ActivityError) -> (r: bool)
        ensures
            r == self.spec_is_retryable(*error),
    {
        match error {
            ActivityError::ValidationFailed(_) => {
                return false;
            },
            ActivityError::Cancelled => {
                return false;
            },
            _ => {},
        }
        let kind = error.kind();
        let n = self.non_retryable_error_types.len();
        let mut i: usize = 0;
        while i < n
            invariant
                n == self.non_retryable_error_types@.len(),
                i <= n,
                kind@ == error.spec_kind(),
                forall|j: int| 0 <= j < i ==> (#[trigger] self.non_retryable_error_types@[j])@ != error.spec_kind(),
            decreases n - i,
        {
            if kind == self.non_retryable_error_types[i] {
                proof {
                    assert(self.non_retryable_error_types@.map_values(|s: String| s@)[i as int]
                        == error.spec_kind());
                }
                return false;
            }
            i = i + 1;
        }
        proof {
            let mapped = self.non_retryable_error_types@.map_values(|s: String| s@);
            assert forall|j: int| 0 <= j < mapped.len()
                implies #[trigger] mapped[j] != error.spec_kind() by {
                assert(mapped[j] == self.non_retryable_error_types@[j]@);
            }
        }
        true
    }

    /// The backoff delay before attempt `next_attempt` (the second
    /// attempt waits `initial * coefficient`, each later one
    /// `coefficient` times more, capped at `max_interval_ms`).
    pub fn retry_delay_ms(&self, next_attempt: u32) -> (r: u64)
        requires
            self.valid(),
            next_attempt >= 2,
        ensures
            r == spec_backoff(
                self.initial_interval_ms as int,
                self.backoff_coefficient_centi as int,
                self.max_interval_ms as int,
                (next_attempt - 1) as nat,
            ),
    {
        let steps = next_attempt - 1;
        let mut d: u64 = self.initial_interval_ms;
        let mut k: u32 = 0;
        while k < steps
            invariant
                self.valid(),
                k <= steps,
                d <= self.max_interval_ms,
                d == spec_backoff(
                    self.initial_interval_ms as int,
                    self.backoff_coefficient_centi as int,
                    self.max_interval_ms as int,
                    k as nat,
                ),
            decreases steps - k,
        {
            proof {
                let di = d as int;
                let ci = self.backoff_coefficient_centi as int;
                assert(di * ci <= (u64::MAX as int) * (u32::MAX as int)) by (nonlinear_arith)
                    requires
                        0 <= di <= u64::MAX as int,
                        0 <= ci <= u32::MAX as int,
                ;
            }
            let q: u128 = (d as u128) * (self.backoff_coefficient_centi as u128) / 100;
            if q <= self.max_interval_ms as u128 {
                d = q as u64;
            } else {
                d = self.max_interval_ms;
            }
            k = k + 1;
        }
        d
    }

    /// Decide a failed attempt's fate: `Some(delay_ms)` exactly when
    /// `error` is retryable under this policy and `attempt` (the
    /// attempt that just failed, 1-based) was not the last allowed one;
    /// the delay is the backoff before attempt `attempt + 1`.
    pub fn should_retry(&self, attempt: u32, error: &ActivityError) -> (r: Option<u64>)
        requires
            self.valid(),
            attempt >= 1,
        ensures
            r is Some <==> (self.spec_is_retryable(*error) && attempt < self.max_attempts),
            r matches Some(d) ==> d == spec_backoff(
                self.initial_interval_ms as int,
                self.backoff_coefficient_centi as int,
                self.max_interval_ms as int,
                attempt as nat,
            ),
    {
        if attempt < self.max_attempts && self.is_retryable(error) {
            Some(self.retry_delay_ms(attempt + 1))
        } else {
            None
        }
    }
}

impl Default for RetryPolicy {
    /// Three attempts, 1 s initial delay doubling up to 100 s, nothing
    /// marked non-retryable.
    fn default() -> (r: Self)
        ensures
            r.max_attempts == 3,
            r.initial_interval_ms == 1000,
            r.max_interval_ms == 100_000,
            r.backoff_coefficient_centi == 200,
            r.non_retryable_error_types@.len() == 0,
            r.valid(),
    {
        RetryPolicy {
            max_attempts: 3,
            initial_interval_ms: 1000,
            max_interval_ms: 100_000,
            backoff_coefficient_centi: 200,
            non_retryable_error_types: Vec::new(),
        }
    }
}

} // verus!
