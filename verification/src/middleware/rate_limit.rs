//! The settings of the limiter that admits or turns away a request before it
//! is looked at.

use vstd::prelude::*;

verus! {

/// How many requests the limiter lets through for one address.
#[derive(Clone, Copy, Debug)]
pub struct RateLimitConfig {
    /// Requests per minute.
    pub requests_per_minute: u32,
    /// How many requests may come at once.
    pub burst_size: u32,
}

impl Default for RateLimitConfig {
    fn default() -> (limits: Self)
        ensures
            limits.requests_per_minute == 60,
            limits.burst_size == 10,
    {
        RateLimitConfig { requests_per_minute: 60, burst_size: 10 }
    }
}

} // verus!
