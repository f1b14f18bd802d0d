//! What the service answers: the verdict on a score, its health, and the
//! settings it runs with.

use vstd::prelude::*;
use vstd::string::StringExecFns;
use vstd::arithmetic::power2::{lemma2_to64, lemma2_to64_rest};
use crate::models::double::{Double, double, lemma_rounds_ratio};
use crate::models::features::FeatureWeights;

verus! {

/// 0.8: from here on a score shows excellent human patterns.
pub const EXCELLENT_FROM: u64 = 0x3FE9_9999_9999_999A;

/// 0.6: from here on a score shows good human patterns.
pub const GOOD_FROM: u64 = 0x3FE3_3333_3333_3333;

/// 0.4: from here on a score shows mixed patterns.
pub const MIXED_FROM: u64 = 0x3FD9_9999_9999_999A;

/// The thresholds that a verdict was reached with.
#[derive(Clone, Copy, Debug)]
pub struct Thresholds {
    /// A score below this is suspicious.
    pub suspicious_below: Double,
}

/// The verdict on one score.
#[derive(Clone, Debug)]
pub struct ScoreResponse {
    /// How human the typing looks, from 0 to 1.
    pub score: Double,
    /// `likely_human` or `suspicious`.
    pub label: String,
    /// What the analysis found.
    pub hints: Vec<String>,
    /// The thresholds that the label was reached with.
    pub thresholds: Thresholds,
}

/// A verdict as plain values.
pub struct ScoreResult {
    pub score: Double,
    pub label: Seq<char>,
    pub hints: Seq<Seq<char>>,
    pub threshold: Double,
}

impl View for ScoreResponse {
    type V = ScoreResult;

    open spec fn view(&self) -> ScoreResult {
        ScoreResult {
            score: self.score,
            label: self.label@,
            hints: self.hints.deep_view(),
            threshold: self.thresholds.suspicious_below,
        }
    }
}

/// The label of a score: human where the score reaches the threshold. A score
/// or a threshold that is a NaN reaches nothing.
pub open spec fn label_of(score: Double, threshold: Double) -> Seq<char> {
    if score.at_least(threshold) {
        "likely_human"@
    } else {
        "suspicious"@
    }
}

/// The hint for a score, by the band in which it lies. The bands are fixed:
/// they do not move with the threshold of the label.
pub open spec fn hint_of(score: Double) -> Seq<char> {
    if score.at_least(double(EXCELLENT_FROM)) {
        "excellent_human_patterns"@
    } else if score.at_least(double(GOOD_FROM)) {
        "good_human_patterns"@
    } else if score.at_least(double(MIXED_FROM)) {
        "mixed_patterns"@
    } else {
        "suspicious_patterns"@
    }
}

/// The verdict on a score under a threshold.
pub open spec fn verdict(score: Double, threshold: Double) -> ScoreResult {
    ScoreResult {
        score,
        label: label_of(score, threshold),
        hints: seq![hint_of(score)],
        threshold,
    }
}

/// The bounds of the bands lie within half their spacing of 4/5, 3/5 and 2/5.
pub proof fn lemma_band_bounds()
    ensures
        double(EXCELLENT_FROM).rounds_ratio(4, 5),
        double(GOOD_FROM).rounds_ratio(3, 5),
        double(MIXED_FROM).rounds_ratio(2, 5),
{
    lemma2_to64();
    lemma2_to64_rest();
    lemma_rounds_ratio(double(EXCELLENT_FROM), 4, 5);
    lemma_rounds_ratio(double(GOOD_FROM), 3, 5);
    lemma_rounds_ratio(double(MIXED_FROM), 2, 5);
}

impl ScoreResponse {
    /// The verdict on `score`: its label under `suspicious_threshold`, and the
    /// hint of its band.
    pub fn new(score: Double, suspicious_threshold: Double) -> (response: Self)
        ensures
            response@ == verdict(score, suspicious_threshold),
    {
        let label = if score.ge(suspicious_threshold) {
            String::from_str("likely_human")
        } else {
            String::from_str("suspicious")
        };
        let hints = Self::generate_hints(score);
        let response = ScoreResponse {
            score,
            label,
            hints,
            thresholds: Thresholds { suspicious_below: suspicious_threshold },
        };
        assert(response@.hints =~= seq![hint_of(score)]);
        response
    }

    /// The hints for a score: the one hint of its band.
    pub fn generate_hints(score: Double) -> (hints: Vec<String>)
        ensures
            hints.deep_view() == seq![hint_of(score)],
    {
        let mut hints: Vec<String> = Vec::new();
        if score.ge(Double { bits: EXCELLENT_FROM }) {
            hints.push(String::from_str("excellent_human_patterns"));
        } else if score.ge(Double { bits: GOOD_FROM }) {
            hints.push(String::from_str("good_human_patterns"));
        } else if score.ge(Double { bits: MIXED_FROM }) {
            hints.push(String::from_str("mixed_patterns"));
        } else {
            hints.push(String::from_str("suspicious_patterns"));
        }
        assert(hints.deep_view() =~= seq![hint_of(score)]);
        hints
    }
}

/// The answer to a health check.
#[derive(Clone, Debug)]
pub struct HealthResponse {
    pub status: String,
    pub timestamp: i64,
    pub version: String,
}

impl HealthResponse {
    /// A report that the service is healthy at the time `now`, in
    /// milliseconds since the Unix epoch as the caller read it from the clock,
    /// in the version given.
    pub fn new(now: i64, version: &str) -> (response: Self)
        ensures
            response.status@ == "healthy"@,
            response.timestamp == now,
            response.version@ == version@,
    {
        HealthResponse {
            status: String::from_str("healthy"),
            timestamp: now,
            version: String::from_str(version),
        }
    }
}

/// The limits on the rate of requests, as the service reports them.
#[derive(Clone, Copy, Debug)]
pub struct RateLimitConfig {
    pub requests_per_minute: u32,
    pub burst_size: u32,
}

impl Default for RateLimitConfig {
    fn default() -> (limits: Self)
        ensures
            limits.requests_per_minute == 60,
            limits.burst_size == 10,
    {
        RateLimitConfig { requests_per_minute: 60, burst_size: 10 }
    }
}

/// The settings that the service reports.
#[derive(Clone, Copy, Debug)]
pub struct ConfigResponse {
    pub default_thresholds: Thresholds,
    pub feature_weights: FeatureWeights,
    pub rate_limits: RateLimitConfig,
}

} // verus!
