//! The path of a scoring request: it is checked, authenticated where the
//! service asks for signatures, scored and answered. A request that fails a
//! step goes no further.

use vstd::prelude::*;
use axum::http::HeaderMap;
use crate::config::{AppConfig, SecurityConfig};
use crate::middleware::hmac::{HmacError, verify_hmac_signature, verification, header_value, body_view};
use crate::models::double::{Double, ZERO, ONE, double, whole};
use crate::models::features::final_score;
use crate::models::payload::{TypingFeaturePayload, features_problem};
use crate::models::response::{ScoreResponse, verdict};

verus! {

/// Why a request was turned away.
#[derive(Clone, Copy, Debug, PartialEq, Eq, Structural)]
pub enum Rejection {
    /// The payload is not well formed.
    BadRequest,
    /// The request is not signed as the service asks.
    Unauthorized,
}

impl Rejection {
    /// The HTTP status that tells the client: 400 or 401.
    pub fn status_code(&self) -> (code: u16)
        ensures
            code == (match *self {
                Rejection::BadRequest => 400u16,
                Rejection::Unauthorized => 401u16,
            }),
    {
        match self {
            Rejection::BadRequest => 400,
            Rejection::Unauthorized => 401,
        }
    }
}

/// What the guard before scoring finds: every request passes where the
/// service asks for no signature, else the verdict on the request's signature
/// under the service's secret.
pub open spec fn guard(
    security: SecurityConfig,
    header: Option<Seq<u8>>,
    body: Result<Seq<char>, serde_json::Error>,
) -> Result<(), HmacError> {
    if security.require_hmac {
        verification(header, body, security.hmac_key@)
    } else {
        Ok(())
    }
}

/// Why the request is turned away, if it is: a payload that is not well formed
/// is a bad request, whatever its signature; a well-formed one that does not
/// pass the guard is unauthorized.
pub open spec fn rejection(
    config: AppConfig,
    payload: TypingFeaturePayload,
    header: Option<Seq<u8>>,
    body: Result<Seq<char>, serde_json::Error>,
) -> Option<Rejection> {
    if features_problem(payload.features) is Some {
        Some(Rejection::BadRequest)
    } else if guard(config.security, header, body) is Err {
        Some(Rejection::Unauthorized)
    } else {
        None
    }
}

/// The guard before scoring: checks the request's signature where the
/// service asks for one.
pub fn authenticate(
    security: &SecurityConfig,
    headers: &HeaderMap,
    body: Result<String, serde_json::Error>,
) -> (r: Result<(), HmacError>)
    ensures
        r == guard(*security, header_value(*headers, "X-Signature"@), body_view(body)),
{
    if security.require_hmac {
        verify_hmac_signature(headers, body, security.hmac_key.as_str())
    } else {
        Ok(())
    }
}

/// Handles a scoring request. `body` is the payload as the service writes it
/// out, or the reason why it could not. `weighted_sum` is the sum of the five
/// sub-scores, each times its weight, as the caller computed it in floating
/// point. The answer to a request that is not turned away holds the score,
/// which is that sum restricted to the range from 0 to 1, and the verdict on it
/// under the configured threshold.
pub fn score_handler(
    config: &AppConfig,
    headers: &HeaderMap,
    payload: &TypingFeaturePayload,
    body: Result<String, serde_json::Error>,
    weighted_sum: Double,
) -> (r: Result<ScoreResponse, Rejection>)
    ensures
        match rejection(*config, *payload, header_value(*headers, "X-Signature"@), body_view(body)) {
            Some(why) => r matches Err(e) && e == why,
            None => r matches Ok(response) && response@ == verdict(
                weighted_sum.clamped(double(ZERO), double(ONE)),
                config.scoring.suspicious_threshold,
            ),
        },
        !weighted_sum.nan() ==> (r matches Ok(response) ==> 0 <= response.score.value() <= whole(1)),
{
    if payload.validate().is_err() {
        return Err(Rejection::BadRequest);
    }
    if authenticate(&config.security, headers, body).is_err() {
        return Err(Rejection::Unauthorized);
    }
    let score = final_score(weighted_sum);
    Ok(ScoreResponse::new(score, config.scoring.suspicious_threshold))
}

} // verus!
