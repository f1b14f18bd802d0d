//! The health check.

use vstd::prelude::*;
use crate::models::response::HealthResponse;

verus! {

/// Answers a health check: healthy, at the time `now`, in milliseconds since
/// the Unix epoch as the caller read it from the clock, in the version given.
/// The answer depends on nothing else.
pub fn health_handler(now: i64, version: &str) -> (response: HealthResponse)
    ensures
        response.status@ == "healthy"@,
        response.timestamp == now,
        response.version@ == version@,
{
    HealthResponse::new(now, version)
}

} // verus!
