//! The quota that requests of a client without a key are held to.
//!
//! A limiter only ever delays a request, it never rejects one: a caller asks
//! for a permit, and where none is free it waits and asks again.

use governor::{DefaultDirectRateLimiter, Quota, RateLimiter};
use std::num::NonZeroU32;
use vstd::prelude::*;

verus! {

/// Permits per minute of a client without a key.
pub const PERMITS_PER_MINUTE: u32 = 45;

/// Seconds a blocking caller sleeps before it asks for a permit again.
pub const BACKOFF_SECONDS: u64 = 1;

/// A quota shared by all requests of one client. It holds a `governor` rate
/// limiter, whose type Verus cannot take in, so the whole struct is opaque to
/// the verifier.
#[verifier::external_body]
pub struct QuotaLimiter {
    /// The limiter itself. An asynchronous caller waits on it directly.
    pub limiter: DefaultDirectRateLimiter,
}

/// The number of permits per minute that a limiter was made for.
pub uninterp spec fn permits_per_minute(limiter: QuotaLimiter) -> nat;

/// What a caller does after it has asked for a permit.
#[derive(Debug, PartialEq, Eq, Structural, Clone, Copy)]
pub enum LimiterAction {
    /// Send the request now.
    Proceed,
    /// Sleep for so many seconds, then ask again.
    Backoff { seconds: u64 },
}

/// What a caller does when its limiter answered `permit`, or when it has no
/// limiter (`None`): without a limiter and with a permit it proceeds, without
/// a permit it backs off for the fixed interval.
pub open spec fn action_for(permit: Option<bool>) -> LimiterAction {
    match permit {
        None => LimiterAction::Proceed,
        Some(true) => LimiterAction::Proceed,
        Some(false) => LimiterAction::Backoff { seconds: BACKOFF_SECONDS },
    }
}

impl QuotaLimiter {
    /// Makes a limiter that lets `permits` requests through at once and
    /// replenishes them evenly over a minute.
    ///
    /// Calls `governor::RateLimiter::direct` on the quota that
    /// `governor::Quota::per_minute` makes for `permits`. The contract claims
    /// only that the limiter is the one made for that number.
    #[verifier::external_body]
    pub(crate) fn per_minute(permits: u32) -> (limiter: QuotaLimiter)
        requires
            permits > 0,
        ensures
            permits_per_minute(limiter) == permits,
    {
        let cells = NonZeroU32::new(permits).unwrap();
        QuotaLimiter { limiter: RateLimiter::direct(Quota::per_minute(cells)) }
    }

    /// Asks for one permit, and takes it if one is free.
    ///
    /// Calls `governor::RateLimiter::check`. Whether a permit is free depends
    /// on the clock and on earlier requests, so nothing is claimed of the
    /// answer.
    #[verifier::external_body]
    pub(crate) fn try_acquire(&self) -> (granted: bool) {
        self.limiter.check().is_ok()
    }
}

/// Decides what a caller does when its limiter answered `permit`, or when it
/// has no limiter (`None`).
pub fn next_action(permit: Option<bool>) -> (action: LimiterAction)
    ensures
        action == action_for(permit),
{
    match permit {
        None => LimiterAction::Proceed,
        Some(true) => LimiterAction::Proceed,
        Some(false) => LimiterAction::Backoff { seconds: BACKOFF_SECONDS },
    }
}

/// Asks the limiter once, if there is one, and says what the caller does
/// next. Without a limiter the caller always proceeds.
pub fn poll_rate_limiter(limiter: &Option<QuotaLimiter>) -> (action: LimiterAction)
    ensures
        limiter is None ==> action == LimiterAction::Proceed,
        limiter is Some ==> exists|granted: bool| action == action_for(Some(granted)),
{
    match limiter {
        Some(limiter) => {
            let granted = limiter.try_acquire();
            next_action(Some(granted))
        },
        None => next_action(None),
    }
}

} // verus!
