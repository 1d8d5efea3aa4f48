//! Throttling and elapsed-time measurement for the polling loop.
//!
//! Polling the external host too often destabilises it, so every poll first
//! passes through a [`RateLimiter`] enforcing a minimum interval between
//! permits. The blocking loop also measures how long it has gone without
//! progress through a [`Stopwatch`], so that it can give up after a
//! configured ceiling instead of hanging forever.
//!
//! Both rest on the environment (a token bucket fed by the machine's clock,
//! and the clock itself), so nothing is promised of how long any call takes:
//! callers treat every reading as arbitrary.

use vstd::prelude::*;

verus! {

/// A gate enforcing a minimum time interval between permitted operations.
///
/// One permit is handed out immediately; after that, permits come at most
/// one per `interval_millis`. `wait` spins until the next permit is
/// available, so a caller that loops around `wait` is held to the
/// configured pace.
///
/// The held `ratelimit::Ratelimiter` is generic over its clock, whose trait
/// bound cannot be declared to the verifier, so the whole struct is opaque
/// and its two operations are trusted wrappers.
#[verifier::external_body]
pub struct RateLimiter {
    inner: ratelimit::Ratelimiter,
}

/// Relies on ratelimit::Ratelimiter::builder and Builder::build: a token
/// bucket holding at most one token, refilled with one token per
/// `interval_millis`, starting with its token available. With a positive
/// period, one token per period and a capacity of one, the builder's checks
/// all pass and `build` returns the limiter.
#[verifier::external_body]
fn limiter_new(interval_millis: u64) -> RateLimiter
    requires
        interval_millis > 0,
{
    let inner = ratelimit::Ratelimiter::builder(1)
        .period(core::time::Duration::from_millis(interval_millis))
        .max_tokens(1)
        .initial_available(1)
        .build()
        .unwrap();
    RateLimiter { inner }
}

/// Relies on ratelimit::Ratelimiter::try_wait: returns whether one token
/// could be taken from the bucket right now; never blocks.
#[verifier::external_body]
fn limiter_try_wait(limiter: &RateLimiter) -> bool {
    limiter.inner.try_wait().is_ok()
}

impl RateLimiter {
    /// Builds a limiter permitting one operation per `interval_millis`.
    pub fn new(interval_millis: u64) -> Self
        requires
            interval_millis > 0,
    {
        limiter_new(interval_millis)
    }

    /// Spins until the underlying bucket hands out a token, then returns.
    /// Never fails; only delays. (The spin count is capped so that the loop
    /// provably terminates; the cap is far beyond any realistic wait.)
    pub fn wait(&self) {
        let mut spins: u64 = 0;
        while spins < u64::MAX
            decreases u64::MAX - spins,
        {
            if limiter_try_wait(self) {
                return;
            }
            spins = spins + 1;
        }
    }
}

/// Measures wall-clock time since its construction. The readings come from
/// the machine's clock, so nothing is assumed of them.
///
/// The held `ratelimit::StdClock` has a private field, so the struct is
/// opaque and its two operations are trusted wrappers.
#[verifier::external_body]
pub struct Stopwatch {
    inner: ratelimit::StdClock,
}

/// Relies on ratelimit::StdClock::new: a monotonic clock started now.
#[verifier::external_body]
fn clock_start() -> Stopwatch {
    Stopwatch { inner: ratelimit::StdClock::new() }
}

/// Relies on ratelimit::Clock::elapsed for ratelimit::StdClock: the time
/// since the clock was created, converted to whole milliseconds (saturated
/// into `u64`).
#[verifier::external_body]
fn clock_elapsed_millis(clock: &Stopwatch) -> u64 {
    let d = ratelimit::Clock::elapsed(&clock.inner);
    let ms = d.as_millis();
    if ms > u64::MAX as u128 {
        u64::MAX
    } else {
        ms as u64
    }
}

impl Stopwatch {
    /// Starts measuring now.
    pub fn start() -> Self {
        clock_start()
    }

    /// Whole milliseconds elapsed since `start`.
    pub fn elapsed_millis(&self) -> u64 {
        clock_elapsed_millis(self)
    }
}

} // verus!
