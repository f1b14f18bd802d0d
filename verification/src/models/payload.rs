//! What a client sends to have a session scored, and the check that it is
//! well formed.

use vstd::prelude::*;
use vstd::arithmetic::power2::{lemma2_to64, lemma2_to64_rest};
use vstd::string::StringExecFns;
use crate::models::double::{Double, ZERO, ONE, double, whole, lemma_equals_ratio};
use crate::models::features::{TypingFeatures, lemma_curve_constants};

verus! {

/// The bits of -1.
pub const MINUS_ONE: u64 = 0xBFF0_0000_0000_0000;

/// 2^76, the weight of the lowest bit of a UUID's version field.
pub const VERSION_FIELD: u128 = 0x1000_0000_0000_0000_0000;

/// 2^62, the weight of the lowest bit of a UUID's two-bit variant field.
pub const VARIANT_FIELD: u128 = 0x4000_0000_0000_0000;

/// Where and how the statistics were gathered.
#[derive(Clone, Debug)]
pub struct TypingMeta {
    /// Length of the analysis window in milliseconds.
    pub window_ms: u32,
    /// Locale of the user.
    pub locale: String,
    /// Platform: android, ios, web and the like.
    pub platform: String,
    /// Version of the application.
    pub app_ver: String,
}

/// A request to score one analysis window of a session.
#[derive(Clone, Debug)]
pub struct TypingFeaturePayload {
    /// The session's identifier, a UUID as a 128-bit number.
    pub session_id: u128,
    /// When the payload was made, in milliseconds since the Unix epoch.
    pub ts: i64,
    /// The statistics of the window.
    pub features: TypingFeatures,
    /// Where and how they were gathered, if the client says.
    pub meta: Option<TypingMeta>,
}

/// The identifier is a UUID of version 4 in the variant of RFC 9562: the
/// version field holds 4 and the variant field the bits 10.
pub open spec fn is_random_uuid(id: u128) -> bool {
    (id / VERSION_FIELD) % 16 == 4 && (id / VARIANT_FIELD) % 4 == 2
}

/// What is wrong with the statistics, if anything: the first of the checks
/// that fails, in the order count of events, mean interval, its standard
/// deviation, burstiness, entropy, backspace rate, jitter, outlier ratio.
pub open spec fn features_problem(f: TypingFeatures) -> Option<Seq<char>> {
    if f.events == 0 {
        Some("No events in features"@)
    } else if f.iki_mean.at_most(double(ZERO)) {
        Some("Invalid IKI mean"@)
    } else if f.iki_std.below(double(ZERO)) {
        Some("Invalid IKI standard deviation"@)
    } else if f.burstiness.below(double(MINUS_ONE)) || f.burstiness.above(double(ONE)) {
        Some("Invalid burstiness value"@)
    } else if f.entropy.below(double(ZERO)) {
        Some("Invalid entropy value"@)
    } else if f.backspace_per_100.below(double(ZERO)) {
        Some("Invalid backspace rate"@)
    } else if f.jitter_mad.below(double(ZERO)) {
        Some("Invalid jitter MAD"@)
    } else if f.outlier_ratio.below(double(ZERO)) || f.outlier_ratio.above(double(ONE)) {
        Some("Invalid outlier ratio"@)
    } else {
        None
    }
}

/// The number is a NaN or at least `low`, in the units of `Double::value`.
pub open spec fn nan_or_from(x: Double, low: int) -> bool {
    x.nan() || low <= x.value()
}

/// The statistics pass where at least one event was counted, the mean interval
/// is positive, the standard deviation, the entropy, the backspace rate and
/// the jitter are not negative, the burstiness lies between -1 and 1 and the
/// outlier ratio between 0 and 1. A statistic that is a NaN passes its check:
/// it compares false to every bound. The interquartile range and the count of
/// paste events are not looked at.
pub proof fn lemma_features_pass(f: TypingFeatures)
    ensures
        features_problem(f) is None <==> {
            &&& f.events > 0
            &&& nan_or_from(f.iki_mean, 1)
            &&& nan_or_from(f.iki_std, 0)
            &&& f.burstiness.nan() || whole(-1) <= f.burstiness.value() <= whole(1)
            &&& nan_or_from(f.entropy, 0)
            &&& nan_or_from(f.backspace_per_100, 0)
            &&& nan_or_from(f.jitter_mad, 0)
            &&& f.outlier_ratio.nan() || 0 <= f.outlier_ratio.value() <= whole(1)
        },
{
    lemma_curve_constants();
    lemma2_to64();
    lemma2_to64_rest();
    lemma_equals_ratio(double(MINUS_ONE), -1, 1);
}

/// Draws a random version-4 UUID with `uuid::Uuid::new_v4` and hands it out as
/// a number. The claim is what that function's masks fix: the version field is
/// 4 and the variant field is 10; the other 122 bits are random. The call does
/// not return where the operating system gives no random bytes.
#[verifier::external_body]
fn random_session_id() -> (id: u128)
    ensures
        is_random_uuid(id),
{
    uuid::Uuid::new_v4().as_u128()
}

impl TypingFeaturePayload {
    /// The payload with the given identifier, time, statistics and metadata.
    pub fn assemble(
        session_id: u128,
        ts: i64,
        features: TypingFeatures,
        meta: Option<TypingMeta>,
    ) -> (payload: Self)
        ensures
            payload.session_id == session_id,
            payload.ts == ts,
            payload.features == features,
            payload.meta == meta,
    {
        TypingFeaturePayload { session_id, ts, features, meta }
    }

    /// A payload for the given statistics, made at the time `now`, in
    /// milliseconds since the Unix epoch as the caller read it from the clock,
    /// with a fresh random session identifier.
    pub fn new(features: TypingFeatures, meta: Option<TypingMeta>, now: i64) -> (payload: Self)
        ensures
            payload.ts == now,
            payload.features == features,
            payload.meta == meta,
            is_random_uuid(payload.session_id),
    {
        Self::assemble(random_session_id(), now, features, meta)
    }

    /// Checks the statistics; the error says what the first failed check found.
    pub fn validate(&self) -> (r: Result<(), String>)
        ensures
            features_problem(self.features) is None <==> r is Ok,
            r matches Err(complaint) ==> features_problem(self.features) == Some(complaint@),
    {
        let f = &self.features;
        let zero = Double { bits: ZERO };
        let one = Double { bits: ONE };
        if f.events == 0 {
            return Err(String::from_str("No events in features"));
        }
        if f.iki_mean.le(zero) {
            return Err(String::from_str("Invalid IKI mean"));
        }
        if f.iki_std.lt(zero) {
            return Err(String::from_str("Invalid IKI standard deviation"));
        }
        if f.burstiness.lt(Double { bits: MINUS_ONE }) || f.burstiness.gt(one) {
            return Err(String::from_str("Invalid burstiness value"));
        }
        if f.entropy.lt(zero) {
            return Err(String::from_str("Invalid entropy value"));
        }
        if f.backspace_per_100.lt(zero) {
            return Err(String::from_str("Invalid backspace rate"));
        }
        if f.jitter_mad.lt(zero) {
            return Err(String::from_str("Invalid jitter MAD"));
        }
        if f.outlier_ratio.lt(zero) || f.outlier_ratio.gt(one) {
            return Err(String::from_str("Invalid outlier ratio"));
        }
        Ok(())
    }
}

} // verus!
