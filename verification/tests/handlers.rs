use axum::http::HeaderMap;
use typing_guard_svc::config::AppConfig;
use typing_guard_svc::handlers::config::config_handler;
use typing_guard_svc::handlers::health::health_handler;
use typing_guard_svc::handlers::score::{authenticate, score_handler, Rejection};
use typing_guard_svc::middleware::hmac::{calculate_hmac, HmacError};
use typing_guard_svc::models::double::Double;
use typing_guard_svc::models::features::{FeatureWeights, TypingFeatures};
use typing_guard_svc::models::payload::TypingFeaturePayload;
use typing_guard_svc::models::response::HealthResponse;

fn d(x: f64) -> Double {
    Double::from_bits(x.to_bits())
}

fn f(x: Double) -> f64 {
    f64::from_bits(x.to_bits())
}

fn typical() -> TypingFeaturePayload {
    TypingFeaturePayload {
        session_id: 0x0123_4567_89ab_4def_8123_4567_89ab_cdef,
        ts: 1234567890,
        features: TypingFeatures {
            events: 20,
            iki_mean: d(150.0),
            iki_std: d(50.0),
            iki_iqr: d(40.0),
            burstiness: d(0.2),
            entropy: d(2.8),
            backspace_per_100: d(5.0),
            paste_events: 0,
            jitter_mad: d(25.0),
            outlier_ratio: d(0.1),
        },
        meta: None,
    }
}

fn without_events() -> TypingFeaturePayload {
    let mut payload = typical();
    payload.features.events = 0;
    payload
}

fn signing() -> AppConfig {
    let mut config = AppConfig::default();
    config.security.require_hmac = true;
    config.security.hmac_key = "test-secret".to_string();
    config
}

fn signed(body: &str, secret: &str) -> HeaderMap {
    let mut headers = HeaderMap::new();
    headers.insert(
        "X-Signature",
        format!("sha256={}", calculate_hmac(body, secret)).parse().unwrap(),
    );
    headers
}

const BODY: &str = r#"{"session_id":"01234567-89ab-4def-8123-456789abcdef","ts":1234567890}"#;

#[test]
fn typical_request_is_scored() {
    let config = AppConfig::default();
    let response = score_handler(
        &config,
        &HeaderMap::new(),
        &typical(),
        Ok(BODY.to_string()),
        d(0.8875),
    )
    .unwrap();
    assert_eq!(f(response.score), 0.8875);
    assert_eq!(response.label, "likely_human");
    assert_eq!(response.hints, vec!["excellent_human_patterns".to_string()]);
    assert_eq!(f(response.thresholds.suspicious_below), 0.4);
}

#[test]
fn request_without_events_is_a_bad_request() {
    let config = AppConfig::default();
    let result = score_handler(
        &config,
        &HeaderMap::new(),
        &without_events(),
        Ok(BODY.to_string()),
        d(0.8875),
    );
    assert_eq!(result.unwrap_err(), Rejection::BadRequest);
}

#[test]
fn bad_request_comes_before_the_signature() {
    let config = signing();
    let result = score_handler(
        &config,
        &HeaderMap::new(),
        &without_events(),
        Ok(BODY.to_string()),
        d(0.5),
    );
    assert_eq!(result.unwrap_err(), Rejection::BadRequest);

    let result = score_handler(
        &config,
        &signed(BODY, "test-secret"),
        &without_events(),
        Ok(BODY.to_string()),
        d(0.5),
    );
    assert_eq!(result.unwrap_err(), Rejection::BadRequest);
}

#[test]
fn signed_request_is_scored() {
    let config = signing();
    let response = score_handler(
        &config,
        &signed(BODY, "test-secret"),
        &typical(),
        Ok(BODY.to_string()),
        d(0.3),
    )
    .unwrap();
    assert_eq!(f(response.score), 0.3);
    assert_eq!(response.label, "suspicious");
    assert_eq!(response.hints, vec!["suspicious_patterns".to_string()]);
}

#[test]
fn unsigned_or_wrongly_signed_request_is_unauthorized() {
    let config = signing();
    let mut malformed = HeaderMap::new();
    malformed.insert("X-Signature", "deadbeef".parse().unwrap());
    for headers in [
        HeaderMap::new(),
        malformed,
        signed(BODY, "wrong-secret"),
        signed("{}", "test-secret"),
    ] {
        let result = score_handler(&config, &headers, &typical(), Ok(BODY.to_string()), d(0.9));
        assert_eq!(result.unwrap_err(), Rejection::Unauthorized);
    }
    let reason = serde_json::from_str::<serde_json::Value>("{").unwrap_err();
    let result = score_handler(
        &config,
        &signed(BODY, "test-secret"),
        &typical(),
        Err(reason),
        d(0.9),
    );
    assert_eq!(result.unwrap_err(), Rejection::Unauthorized);
}

#[test]
fn signature_is_not_looked_at_unless_required() {
    let config = AppConfig::default();
    let mut malformed = HeaderMap::new();
    malformed.insert("X-Signature", "deadbeef".parse().unwrap());
    for headers in [HeaderMap::new(), malformed, signed(BODY, "wrong-secret")] {
        let result = score_handler(&config, &headers, &typical(), Ok(BODY.to_string()), d(0.9));
        assert!(result.is_ok());
    }
    let reason = serde_json::from_str::<serde_json::Value>("{").unwrap_err();
    let result = score_handler(&config, &HeaderMap::new(), &typical(), Err(reason), d(0.9));
    assert!(result.is_ok());
}

#[test]
fn guard_tells_why_it_did_not_let_pass() {
    let config = signing();
    let result = authenticate(&config.security, &HeaderMap::new(), Ok(BODY.to_string()));
    assert!(matches!(result, Err(HmacError::MissingSignature)));
    let result = authenticate(
        &config.security,
        &signed(BODY, "wrong-secret"),
        Ok(BODY.to_string()),
    );
    assert!(matches!(result, Err(HmacError::VerificationFailed)));
    let result = authenticate(
        &config.security,
        &signed(BODY, "test-secret"),
        Ok(BODY.to_string()),
    );
    assert!(matches!(result, Ok(())));
    let open = AppConfig::default();
    let result = authenticate(&open.security, &HeaderMap::new(), Ok(BODY.to_string()));
    assert!(matches!(result, Ok(())));
}

#[test]
fn score_in_the_answer_lies_between_zero_and_one() {
    let config = AppConfig::default();
    for (sum, score) in [
        (-3.0, 0.0),
        (-0.0, -0.0),
        (0.0, 0.0),
        (0.25, 0.25),
        (1.0, 1.0),
        (1.9, 1.0),
        (f64::INFINITY, 1.0),
        (f64::NEG_INFINITY, 0.0),
    ] {
        let response =
            score_handler(&config, &HeaderMap::new(), &typical(), Ok(BODY.to_string()), d(sum))
                .unwrap();
        assert_eq!(f(response.score).to_bits(), f64::to_bits(score), "{:?}", sum);
        assert!((0.0..=1.0).contains(&f(response.score)));
    }
}

#[test]
fn answer_uses_the_configured_threshold() {
    let mut config = AppConfig::default();
    config.scoring.suspicious_threshold = d(0.75);
    let response =
        score_handler(&config, &HeaderMap::new(), &typical(), Ok(BODY.to_string()), d(0.7))
            .unwrap();
    assert_eq!(response.label, "suspicious");
    assert_eq!(response.hints, vec!["good_human_patterns".to_string()]);
    assert_eq!(f(response.thresholds.suspicious_below), 0.75);
}

#[test]
fn same_request_gets_the_same_answer() {
    let config = signing();
    let headers = signed(BODY, "test-secret");
    let first =
        score_handler(&config, &headers, &typical(), Ok(BODY.to_string()), d(0.61)).unwrap();
    let second =
        score_handler(&config, &headers, &typical(), Ok(BODY.to_string()), d(0.61)).unwrap();
    assert_eq!(first.score.to_bits(), second.score.to_bits());
    assert_eq!(first.label, second.label);
    assert_eq!(first.hints, second.hints);
    assert_eq!(
        first.thresholds.suspicious_below.to_bits(),
        second.thresholds.suspicious_below.to_bits()
    );
}

#[test]
fn rejections_have_their_status() {
    assert_eq!(Rejection::BadRequest.status_code(), 400);
    assert_eq!(Rejection::Unauthorized.status_code(), 401);
}

#[test]
fn config_is_reported_as_it_is() {
    let mut config = AppConfig::default();
    config.scoring.suspicious_threshold = d(0.55);
    config.scoring.feature_weights = FeatureWeights {
        speed: d(0.5),
        variability: d(0.125),
        entropy: d(0.125),
        backspace: d(0.125),
        jitter: d(0.125),
    };
    config.rate_limit.requests_per_minute = 120;
    config.rate_limit.burst_size = 20;
    let report = config_handler(&config);
    assert_eq!(f(report.default_thresholds.suspicious_below), 0.55);
    assert_eq!(f(report.feature_weights.speed), 0.5);
    assert_eq!(f(report.feature_weights.variability), 0.125);
    assert_eq!(f(report.feature_weights.entropy), 0.125);
    assert_eq!(f(report.feature_weights.backspace), 0.125);
    assert_eq!(f(report.feature_weights.jitter), 0.125);
    assert_eq!(report.rate_limits.requests_per_minute, 120);
    assert_eq!(report.rate_limits.burst_size, 20);

    let report = config_handler(&AppConfig::default());
    assert_eq!(f(report.default_thresholds.suspicious_below), 0.4);
    assert_eq!(f(report.feature_weights.speed), 0.3);
    assert_eq!(report.rate_limits.requests_per_minute, 60);
    assert_eq!(report.rate_limits.burst_size, 10);
}

#[test]
fn health_is_reported() {
    let now = chrono::Utc::now().timestamp_millis();
    let report = health_handler(now, "0.1.0");
    assert_eq!(report.status, "healthy");
    assert_eq!(report.timestamp, now);
    assert_eq!(report.version, "0.1.0");

    let report = HealthResponse::new(1_700_000_000_123, "9.9.9");
    assert_eq!(report.status, "healthy");
    assert_eq!(report.timestamp, 1_700_000_000_123);
    assert_eq!(report.version, "9.9.9");
}

#[test]
fn health_report_carries_any_time_given() {
    for now in [0, -1, i64::MAX, i64::MIN] {
        assert_eq!(health_handler(now, "v").timestamp, now);
        assert_eq!(HealthResponse::new(now, "v").timestamp, now);
    }
}
