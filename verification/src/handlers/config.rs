//! The report of the settings in use.

use vstd::prelude::*;
use crate::config::AppConfig;
use crate::models::response::{ConfigResponse, RateLimitConfig, Thresholds};

verus! {

/// What the service reports of its settings: the threshold, the weights and
/// the rate limits, as configured.
pub open spec fn config_report(config: AppConfig) -> ConfigResponse {
    ConfigResponse {
        default_thresholds: Thresholds { suspicious_below: config.scoring.suspicious_threshold },
        feature_weights: config.scoring.feature_weights,
        rate_limits: RateLimitConfig {
            requests_per_minute: config.rate_limit.requests_per_minute,
            burst_size: config.rate_limit.burst_size,
        },
    }
}

/// Reports the settings in use.
pub fn config_handler(config: &AppConfig) -> (response: ConfigResponse)
    ensures
        response == config_report(*config),
{
    ConfigResponse {
        default_thresholds: Thresholds { suspicious_below: config.scoring.suspicious_threshold },
        feature_weights: config.scoring.feature_weights,
        rate_limits: RateLimitConfig {
            requests_per_minute: config.rate_limit.requests_per_minute,
            burst_size: config.rate_limit.burst_size,
        },
    }
}

} // verus!
