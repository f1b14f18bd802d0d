use axum::http::{HeaderMap, HeaderValue};
use typing_guard_svc::middleware::hmac::{
    calculate_hmac, compare_signatures, is_visible_ascii, signature_in, verify_hmac_signature,
    HmacError,
};

fn test_payload() -> serde_json::Value {
    let mut fields = serde_json::Map::new();
    fields.insert(
        "message".to_string(),
        serde_json::Value::String("hello".to_string()),
    );
    fields.insert(
        "timestamp".to_string(),
        serde_json::Value::Number(1234567890i64.into()),
    );
    serde_json::Value::Object(fields)
}

fn signed(signature: &str) -> HeaderMap {
    let mut headers = HeaderMap::new();
    headers.insert(
        "X-Signature",
        format!("sha256={}", signature).parse().unwrap(),
    );
    headers
}

#[test]
fn test_hmac_calculation() {
    let body = r#"{"message":"hello","timestamp":1234567890}"#;
    let secret = "test-secret";
    let signature = calculate_hmac(body, secret);

    assert_eq!(signature.len(), 64);
    assert!(!signature.is_empty());
}

#[test]
fn test_hmac_verification_success() {
    let payload = test_payload();
    let secret = "test-secret";
    let body = serde_json::to_string(&payload).unwrap();
    let signature = calculate_hmac(&body, secret);

    let mut headers = HeaderMap::new();
    headers.insert(
        "X-Signature",
        format!("sha256={}", signature).parse().unwrap(),
    );

    let result = verify_hmac_signature(&headers, serde_json::to_string(&payload), secret);
    assert!(result.is_ok());
}

#[test]
fn test_hmac_verification_failure() {
    let payload = test_payload();
    let secret = "test-secret";

    let mut headers = HeaderMap::new();
    headers.insert("X-Signature", "sha256=invalid".parse().unwrap());

    let result = verify_hmac_signature(&headers, serde_json::to_string(&payload), secret);
    assert!(result.is_err());
}

#[test]
fn test_missing_signature_header() {
    let payload = test_payload();
    let secret = "test-secret";

    let headers = HeaderMap::new();

    let result = verify_hmac_signature(&headers, serde_json::to_string(&payload), secret);
    assert!(matches!(result, Err(HmacError::MissingSignature)));
}

#[test]
fn payload_is_written_out_in_canonical_form() {
    assert_eq!(
        serde_json::to_string(&test_payload()).unwrap(),
        r#"{"message":"hello","timestamp":1234567890}"#
    );
}

#[test]
fn signature_matches_published_vector() {
    // RFC 4231, test case 2.
    assert_eq!(
        calculate_hmac("what do ya want for nothing?", "Jefe"),
        "5bdcc146bf60754e6a042426089575c75a003f089d2739839dec58b964ec3843"
    );
}

#[test]
fn signature_is_lower_case_hex() {
    let signature = calculate_hmac("body", "secret");
    assert!(signature
        .chars()
        .all(|c| c.is_ascii_digit() || ('a'..='f').contains(&c)));
}

#[test]
fn signature_depends_on_body_and_secret() {
    let base = calculate_hmac("body", "secret");
    assert_eq!(base, calculate_hmac("body", "secret"));
    assert_ne!(base, calculate_hmac("body!", "secret"));
    assert_ne!(base, calculate_hmac("body", "secreT"));
}

#[test]
fn round_trip_is_accepted() {
    for (body, secret) in [
        ("", ""),
        ("{}", "k"),
        (r#"{"session_id":"x","ts":1}"#, "default-key-change-in-production"),
        ("caf\u{e9} \u{1f600}", "cl\u{e9}"),
    ] {
        let headers = signed(&calculate_hmac(body, secret));
        let result = verify_hmac_signature(&headers, Ok(body.to_string()), secret);
        assert!(matches!(result, Ok(())), "{:?}", result);
    }
}

#[test]
fn one_changed_byte_of_the_secret_fails_verification() {
    let body = r#"{"message":"hello","timestamp":1234567890}"#;
    let headers = signed(&calculate_hmac(body, "test-secret"));
    let result = verify_hmac_signature(&headers, Ok(body.to_string()), "test-secreT");
    assert!(matches!(result, Err(HmacError::VerificationFailed)));
}

#[test]
fn changed_body_fails_verification() {
    let headers = signed(&calculate_hmac("{\"a\":1}", "s"));
    let result = verify_hmac_signature(&headers, Ok("{\"a\":2}".to_string()), "s");
    assert!(matches!(result, Err(HmacError::VerificationFailed)));
}

#[test]
fn header_without_scheme_is_invalid_format() {
    let body = "{}";
    let signature = calculate_hmac(body, "s");
    for value in [
        signature.clone(),
        format!("sha1={}", signature),
        format!("SHA256={}", signature),
        format!(" sha256={}", signature),
        "sha256".to_string(),
        String::new(),
    ] {
        let mut headers = HeaderMap::new();
        headers.insert("X-Signature", value.parse().unwrap());
        let result = verify_hmac_signature(&headers, Ok(body.to_string()), "s");
        assert!(matches!(result, Err(HmacError::InvalidFormat)), "{:?}", value);
    }
}

#[test]
fn header_that_is_not_text_is_invalid_format() {
    let body = "{}";
    let mut value = format!("sha256={}", calculate_hmac(body, "s")).into_bytes();
    value.push(0xE9);
    let mut headers = HeaderMap::new();
    headers.insert("X-Signature", HeaderValue::from_bytes(&value).unwrap());
    let result = verify_hmac_signature(&headers, Ok(body.to_string()), "s");
    assert!(matches!(result, Err(HmacError::InvalidFormat)));
}

#[test]
fn bare_scheme_fails_verification() {
    let mut headers = HeaderMap::new();
    headers.insert("X-Signature", "sha256=".parse().unwrap());
    let result = verify_hmac_signature(&headers, Ok("{}".to_string()), "s");
    assert!(matches!(result, Err(HmacError::VerificationFailed)));
}

#[test]
fn upper_case_digits_fail_verification() {
    let body = "{}";
    let signature = calculate_hmac(body, "s").to_uppercase();
    let result = verify_hmac_signature(&signed(&signature), Ok(body.to_string()), "s");
    assert!(matches!(result, Err(HmacError::VerificationFailed)));
}

#[test]
fn trailing_text_fails_verification() {
    let body = "{}";
    let signature = format!("{}0", calculate_hmac(body, "s"));
    let result = verify_hmac_signature(&signed(&signature), Ok(body.to_string()), "s");
    assert!(matches!(result, Err(HmacError::VerificationFailed)));
}

#[test]
fn header_name_is_matched_in_any_case() {
    let body = "{}";
    let value: HeaderValue = format!("sha256={}", calculate_hmac(body, "s"))
        .parse()
        .unwrap();
    for name in ["x-signature", "X-SIGNATURE", "X-Signature"] {
        let mut headers = HeaderMap::new();
        headers.insert(
            axum::http::HeaderName::from_bytes(name.as_bytes()).unwrap(),
            value.clone(),
        );
        let result = verify_hmac_signature(&headers, Ok(body.to_string()), "s");
        assert!(matches!(result, Ok(())), "{}", name);
    }
}

#[test]
fn first_of_several_signature_headers_counts() {
    let body = "{}";
    let good: HeaderValue = format!("sha256={}", calculate_hmac(body, "s"))
        .parse()
        .unwrap();
    let bad: HeaderValue = "sha256=00".parse().unwrap();

    let mut headers = HeaderMap::new();
    headers.append("X-Signature", good.clone());
    headers.append("X-Signature", bad.clone());
    let result = verify_hmac_signature(&headers, Ok(body.to_string()), "s");
    assert!(matches!(result, Ok(())));

    let mut headers = HeaderMap::new();
    headers.append("X-Signature", bad);
    headers.append("X-Signature", good);
    let result = verify_hmac_signature(&headers, Ok(body.to_string()), "s");
    assert!(matches!(result, Err(HmacError::VerificationFailed)));
}

#[test]
fn other_headers_do_not_count() {
    let body = "{}";
    let mut headers = HeaderMap::new();
    headers.insert(
        "X-Signature-2",
        format!("sha256={}", calculate_hmac(body, "s")).parse().unwrap(),
    );
    let result = verify_hmac_signature(&headers, Ok(body.to_string()), "s");
    assert!(matches!(result, Err(HmacError::MissingSignature)));
}

#[test]
fn unwritable_payload_is_a_serialization_error() {
    let reason = serde_json::from_str::<serde_json::Value>("{").unwrap_err();
    let shown = reason.to_string();
    let headers = signed("00");
    let result = verify_hmac_signature(&headers, Err(reason), "s");
    match result {
        Err(HmacError::Serialization(kept)) => assert_eq!(kept.to_string(), shown),
        other => panic!("{:?}", other),
    }
}

#[test]
fn header_is_looked_at_before_the_payload() {
    let reason = serde_json::from_str::<serde_json::Value>("{").unwrap_err();
    let result = verify_hmac_signature(&HeaderMap::new(), Err(reason), "s");
    assert!(matches!(result, Err(HmacError::MissingSignature)));

    let reason = serde_json::from_str::<serde_json::Value>("{").unwrap_err();
    let mut headers = HeaderMap::new();
    headers.insert("X-Signature", "nonsense".parse().unwrap());
    let result = verify_hmac_signature(&headers, Err(reason), "s");
    assert!(matches!(result, Err(HmacError::InvalidFormat)));
}

#[test]
fn errors_say_what_went_wrong() {
    assert_eq!(
        HmacError::MissingSignature.message(),
        "Missing signature header"
    );
    assert_eq!(HmacError::InvalidFormat.message(), "Invalid signature format");
    assert_eq!(
        HmacError::VerificationFailed.message(),
        "Signature verification failed"
    );
    let reason = serde_json::from_str::<serde_json::Value>("{").unwrap_err();
    let shown = reason.to_string();
    assert!(!shown.is_empty());
    assert_eq!(
        HmacError::Serialization(reason).message(),
        format!("Serialization error: {}", shown)
    );
}

#[test]
fn visible_ascii_is_what_header_values_give_as_text() {
    assert!(is_visible_ascii(b""));
    assert!(is_visible_ascii(b"sha256=0123 \t~"));
    assert!(!is_visible_ascii(b"abc\x7f"));
    assert!(!is_visible_ascii(b"abc\x1f"));
    assert!(!is_visible_ascii(&[0x80]));
    for byte in 0..=255u8 {
        if let Ok(value) = HeaderValue::from_bytes(&[byte]) {
            assert_eq!(is_visible_ascii(&[byte]), value.to_str().is_ok(), "{}", byte);
        }
    }
}

#[test]
fn signature_is_what_stands_behind_the_scheme() {
    assert!(matches!(signature_in(None), Err(HmacError::MissingSignature)));
    assert_eq!(
        signature_in(Some(b"sha256=0123abcd".to_vec())).unwrap(),
        b"0123abcd".to_vec()
    );
    assert_eq!(signature_in(Some(b"sha256=".to_vec())).unwrap(), Vec::<u8>::new());
    assert_eq!(
        signature_in(Some(b"sha256=sha256=".to_vec())).unwrap(),
        b"sha256=".to_vec()
    );
    for value in [
        &b""[..],
        b"sha256",
        b"sha256:00",
        b"Sha256=00",
        b"00sha256=",
        b"sha256=00\xff",
        b"sha256=\x7f",
    ] {
        assert!(
            matches!(signature_in(Some(value.to_vec())), Err(HmacError::InvalidFormat)),
            "{:?}",
            value
        );
    }
}

#[test]
fn signatures_are_compared_byte_by_byte() {
    assert!(matches!(compare_signatures(b"", ""), Ok(())));
    assert!(matches!(compare_signatures(b"00ff", "00ff"), Ok(())));
    for (given, expected) in [
        (&b"00ff"[..], "00fe"),
        (b"00ff", "00FF"),
        (b"00ff", "00ff0"),
        (b"00ff0", "00ff"),
        (b"", "0"),
        (b"0", ""),
        (b"e", "\u{e9}"),
    ] {
        assert!(
            matches!(
                compare_signatures(given, expected),
                Err(HmacError::VerificationFailed)
            ),
            "{:?} {:?}",
            given,
            expected
        );
    }
    assert!(matches!(compare_signatures("\u{e9}".as_bytes(), "\u{e9}"), Ok(())));
}
