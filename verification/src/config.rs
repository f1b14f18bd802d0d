//! The settings of the service and the check that they can be run with.

use vstd::prelude::*;
use vstd::string::StringExecFns;
use vstd::arithmetic::power2::{lemma2_to64, lemma2_to64_rest};
use crate::models::double::{Double, ZERO, ONE, double, lemma_rounds_ratio};
use crate::models::features::{FeatureWeights, default_weights, weights_problem};

verus! {

/// 0.4, the threshold below which a score is suspicious unless another is
/// configured.
pub const DEFAULT_THRESHOLD: u64 = 0x3FD9_9999_9999_999A;

/// Where the service listens and whom it answers.
#[derive(Clone, Debug)]
pub struct ServerConfig {
    /// Host to bind to.
    pub host: String,
    /// Port to bind to.
    pub port: u16,
    /// Origins that may call across sites.
    pub cors_origins: Vec<String>,
}

/// How requests are authenticated.
#[derive(Clone, Debug)]
pub struct SecurityConfig {
    /// The secret that requests are signed with.
    pub hmac_key: String,
    /// Whether a request must carry a signature.
    pub require_hmac: bool,
}

/// How scores are computed and judged.
#[derive(Clone, Copy, Debug)]
pub struct ScoringConfig {
    /// A score below this is suspicious.
    pub suspicious_threshold: Double,
    /// The weights of the sub-scores.
    pub feature_weights: FeatureWeights,
}

/// How many requests a client may make.
#[derive(Clone, Copy, Debug)]
pub struct RateLimitConfig {
    /// Requests per minute for each address.
    pub requests_per_minute: u32,
    /// How many requests may come at once.
    pub burst_size: u32,
}

/// The settings of the service.
#[derive(Clone, Debug)]
pub struct AppConfig {
    pub server: ServerConfig,
    pub security: SecurityConfig,
    pub scoring: ScoringConfig,
    pub rate_limit: RateLimitConfig,
}

/// The server settings in use where none are configured.
pub open spec fn is_default_server(server: ServerConfig) -> bool {
    &&& server.host@ == "0.0.0.0"@
    &&& server.port == 8080
    &&& server.cors_origins.deep_view() == seq!["*"@]
}

/// The security settings in use where none are configured.
pub open spec fn is_default_security(security: SecurityConfig) -> bool {
    &&& security.hmac_key@ == "default-key-change-in-production"@
    &&& !security.require_hmac
}

/// The scoring settings in use where none are configured.
pub open spec fn default_scoring() -> ScoringConfig {
    ScoringConfig {
        suspicious_threshold: double(DEFAULT_THRESHOLD),
        feature_weights: default_weights(),
    }
}

/// The rate limits in use where none are configured.
pub open spec fn default_rate_limit() -> RateLimitConfig {
    RateLimitConfig { requests_per_minute: 60, burst_size: 10 }
}

/// The default threshold lies within half its spacing of 2/5.
pub proof fn lemma_default_threshold()
    ensures
        double(DEFAULT_THRESHOLD).rounds_ratio(2, 5),
{
    lemma2_to64();
    lemma2_to64_rest();
    lemma_rounds_ratio(double(DEFAULT_THRESHOLD), 2, 5);
}

impl Default for ServerConfig {
    fn default() -> (server: Self)
        ensures
            is_default_server(server),
    {
        let mut cors_origins: Vec<String> = Vec::new();
        cors_origins.push(String::from_str("*"));
        assert(cors_origins.deep_view() =~= seq!["*"@]);
        ServerConfig { host: String::from_str("0.0.0.0"), port: 8080, cors_origins }
    }
}

impl Default for SecurityConfig {
    fn default() -> (security: Self)
        ensures
            is_default_security(security),
    {
        SecurityConfig {
            hmac_key: String::from_str("default-key-change-in-production"),
            require_hmac: false,
        }
    }
}

impl Default for ScoringConfig {
    fn default() -> (scoring: Self)
        ensures
            scoring == default_scoring(),
    {
        ScoringConfig {
            suspicious_threshold: Double { bits: DEFAULT_THRESHOLD },
            feature_weights: FeatureWeights::default(),
        }
    }
}

impl Default for RateLimitConfig {
    fn default() -> (limits: Self)
        ensures
            limits == default_rate_limit(),
    {
        RateLimitConfig { requests_per_minute: 60, burst_size: 10 }
    }
}

impl Default for AppConfig {
    fn default() -> (config: Self)
        ensures
            is_default_server(config.server),
            is_default_security(config.security),
            config.scoring == default_scoring(),
            config.rate_limit == default_rate_limit(),
    {
        AppConfig {
            server: ServerConfig::default(),
            security: SecurityConfig::default(),
            scoring: ScoringConfig::default(),
            rate_limit: RateLimitConfig::default(),
        }
    }
}

/// What keeps the service from starting with these settings, if anything: the
/// first of the checks that fails, in the order port, secret, threshold,
/// weights (none negative, then their sum), rate. `weight_sum` is the sum of the weights and `weight_sum_text`
/// that sum in print, both as the caller has them from floating point.
pub open spec fn config_problem(
    config: AppConfig,
    weight_sum: Double,
    weight_sum_text: Seq<char>,
) -> Option<Seq<char>> {
    let threshold = config.scoring.suspicious_threshold;
    if config.server.port == 0 {
        Some("Port must be greater than 0"@)
    } else if config.security.hmac_key@.len() == 0 {
        Some("HMAC key cannot be empty"@)
    } else if threshold.below(double(ZERO)) || threshold.above(double(ONE)) {
        Some("Suspicious threshold must be between 0.0 and 1.0"@)
    } else if weights_problem(config.scoring.feature_weights, weight_sum, weight_sum_text)
        is Some {
        weights_problem(config.scoring.feature_weights, weight_sum, weight_sum_text)
    } else if config.rate_limit.requests_per_minute == 0 {
        Some("Rate limit requests per minute must be greater than 0"@)
    } else {
        None
    }
}

impl AppConfig {
    /// Checks that the service can start with these settings; the error says
    /// what the first failed check found. `weight_sum` is the sum of the
    /// weights as the caller added it up in floating point, speed first and
    /// jitter last, and `weight_sum_text` is that sum in print.
    pub fn validate(&self, weight_sum: Double, weight_sum_text: &str) -> (r: Result<(), String>)
        ensures
            config_problem(*self, weight_sum, weight_sum_text@) is None <==> r is Ok,
            r matches Err(complaint) ==> config_problem(*self, weight_sum, weight_sum_text@)
                == Some(complaint@),
    {
        if self.server.port == 0 {
            return Err(String::from_str("Port must be greater than 0"));
        }
        if self.security.hmac_key.as_str().is_empty() {
            return Err(String::from_str("HMAC key cannot be empty"));
        }
        let threshold = self.scoring.suspicious_threshold;
        if threshold.lt(Double { bits: ZERO }) || threshold.gt(Double { bits: ONE }) {
            return Err(String::from_str("Suspicious threshold must be between 0.0 and 1.0"));
        }
        match self.scoring.feature_weights.validate(weight_sum, weight_sum_text) {
            Err(complaint) => {
                return Err(complaint);
            },
            Ok(()) => {},
        }
        if self.rate_limit.requests_per_minute == 0 {
            return Err(String::from_str("Rate limit requests per minute must be greater than 0"));
        }
        Ok(())
    }
}

} // verus!
