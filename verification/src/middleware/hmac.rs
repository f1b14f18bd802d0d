//! Request signatures: an HMAC-SHA256 over the payload as the service itself
//! writes it out, carried in lower-case hex behind `sha256=` in the
//! `X-Signature` header.

use vstd::prelude::*;
use vstd::string::StringExecFns;
use vstd::utf8::{encode_utf8, is_ascii_chars};
use axum::http::HeaderMap;
use hmac::{Hmac, Mac};
use sha2::Sha256;

verus! {

/// `http::HeaderMap`, the headers of a request. Nothing of its inside is
/// known here but what `header_values` names.
#[verifier::external_type_specification]
#[verifier::external_body]
#[verifier::reject_recursive_types(T)]
pub struct ExHeaderMap<T>(axum::http::HeaderMap<T>);

/// `http::HeaderValue`, what a `HeaderMap` holds unless told otherwise. It
/// must be known for the headers to be named.
#[verifier::external_type_specification]
#[verifier::external_body]
pub struct ExHeaderValue(axum::http::HeaderValue);

/// `serde_json::Error`, the reason why a value could not be written out. It is
/// carried along; nothing of its inside is known here.
#[verifier::external_type_specification]
#[verifier::external_body]
pub struct ExJsonError(serde_json::Error);

/// What a header map holds: under each header name, in lower case as the map
/// stores it, the bytes of the first value that the name has.
pub uninterp spec fn header_values(headers: HeaderMap) -> Map<Seq<char>, Seq<u8>>;

/// The HMAC of `message` under `key` with SHA-256 as the hash (RFC 2104).
pub uninterp spec fn hmac_sha256(key: Seq<u8>, message: Seq<u8>) -> Seq<u8>;

/// Why a request's signature was not accepted.
#[derive(Debug)]
pub enum HmacError {
    /// The request has no signature header.
    MissingSignature,
    /// The header is not text, or does not start with `sha256=`.
    InvalidFormat,
    /// The signature is not the payload's.
    VerificationFailed,
    /// The payload could not be written out.
    Serialization(serde_json::Error),
}

/// The letter in lower case, any other character as it is.
pub open spec fn lower(c: char) -> char {
    if 'A' <= c <= 'Z' {
        ((c as u8) + 32) as char
    } else {
        c
    }
}

/// The text with its ASCII letters in lower case.
pub open spec fn lower_case(text: Seq<char>) -> Seq<char> {
    Seq::new(text.len(), |i: int| lower(text[i]))
}

/// The first value that `headers` has under `name`, whatever the case of the
/// letters of `name`.
pub open spec fn header_value(headers: HeaderMap, name: Seq<char>) -> Option<Seq<u8>> {
    if header_values(headers).contains_key(lower_case(name)) {
        Some(header_values(headers)[lower_case(name)])
    } else {
        None
    }
}

/// The signature header is read under its name in lower case.
pub proof fn lemma_signature_header_name()
    ensures
        lower_case("X-Signature"@) == "x-signature"@,
{
    reveal_strlit("X-Signature");
    reveal_strlit("x-signature");
    assert(lower_case("X-Signature"@) =~= "x-signature"@);
}

/// Looks `name` up with `HeaderMap::get` and copies the bytes of the value
/// found. The claim is that function's documentation: the first value under
/// the name, or nothing where the name has none; names are matched without
/// regard to the case of their letters, and a `name` that no header can have
/// has no value.
#[verifier::external_body]
fn first_value(headers: &HeaderMap, name: &str) -> (value: Option<Vec<u8>>)
    ensures
        value is Some == header_values(*headers).contains_key(lower_case(name@)),
        value matches Some(bytes) ==> bytes@ == header_values(*headers)[lower_case(name@)],
{
    match headers.get(name) {
        Some(found) => Some(found.as_bytes().to_vec()),
        None => None,
    }
}

/// Computes the HMAC-SHA256 of `message` under `key` with the `hmac` and
/// `sha2` crates. The claim is that the result is that code, which depends on
/// the key and the message alone, and that it has the 32 bytes of a SHA-256
/// digest. A key of any length is taken.
#[verifier::external_body]
fn hmac_sha256_code(key: &[u8], message: &[u8]) -> (code: Vec<u8>)
    ensures
        code@ == hmac_sha256(key@, message@),
        code@.len() == 32,
{
    let mut mac = Hmac::<Sha256>::new_from_slice(key).expect("HMAC can take key of any size");
    mac.update(message);
    mac.finalize().into_bytes().to_vec()
}

/// The hex digit for a number from 0 to 15, letters in lower case.
pub open spec fn hex_digit(nibble: int) -> char {
    "0123456789abcdef"@[nibble]
}

/// The bytes in hex: two digits for each byte, the high half first.
pub open spec fn hex_text(bytes: Seq<u8>) -> Seq<char> {
    Seq::new(
        2 * bytes.len(),
        |i: int|
            if i % 2 == 0 {
                hex_digit(bytes[i / 2] as int / 16)
            } else {
                hex_digit(bytes[i / 2] as int % 16)
            },
    )
}

/// Writes the bytes in hex with `hex::encode`. The claim is that function's
/// documentation: lower-case digits, two for each byte.
#[verifier::external_body]
fn hex_encode(bytes: &[u8]) -> (text: String)
    ensures
        text@ == hex_text(bytes@),
{
    hex::encode(bytes)
}

/// The signature of a body under a secret: the HMAC-SHA256 of the body's
/// UTF-8 bytes, keyed with the secret's, in hex.
pub open spec fn signature_of(body: Seq<char>, secret: Seq<char>) -> Seq<char> {
    hex_text(hmac_sha256(encode_utf8(secret), encode_utf8(body)))
}

/// ASCII text as bytes.
pub open spec fn ascii(text: Seq<char>) -> Seq<u8> {
    Seq::new(text.len(), |i: int| text[i] as u8)
}

/// The byte is a visible ASCII character, a space or a tab.
pub open spec fn is_visible_byte(byte: u8) -> bool {
    (32 <= byte < 127) || byte == 9
}

/// The bytes can be read as text: each is a visible ASCII character, a space
/// or a tab.
pub open spec fn is_text(bytes: Seq<u8>) -> bool {
    forall|i: int| 0 <= i < bytes.len() ==> is_visible_byte(#[trigger] bytes[i])
}

/// What a signature header starts with.
pub open spec fn scheme() -> Seq<u8> {
    ascii("sha256="@)
}

/// The header's value starts with the scheme.
pub open spec fn has_scheme(value: Seq<u8>) -> bool {
    value.len() >= scheme().len() && value.subrange(0, scheme().len() as int) == scheme()
}

/// The value that the signature header must have for `body` under `secret`.
pub open spec fn signed_header(body: Seq<char>, secret: Seq<char>) -> Seq<u8> {
    scheme() + ascii(signature_of(body, secret))
}

/// What a signature header gives to compare: the bytes behind the scheme. A
/// request without the header has no signature; a value that is not text or
/// does not start with the scheme has not the format.
pub open spec fn signature_part(header: Option<Seq<u8>>) -> Result<Seq<u8>, HmacError> {
    match header {
        None => Err(HmacError::MissingSignature),
        Some(value) => if !is_text(value) || !has_scheme(value) {
            Err(HmacError::InvalidFormat)
        } else {
            Ok(value.skip(scheme().len() as int))
        },
    }
}

/// The verdict on the signature `given` where `expected` is the payload's: they
/// must be the same bytes.
pub open spec fn comparison(given: Seq<u8>, expected: Seq<char>) -> Result<(), HmacError> {
    if given == encode_utf8(expected) {
        Ok(())
    } else {
        Err(HmacError::VerificationFailed)
    }
}

/// The verdict on a request: `header` is the value of its signature header, if
/// it has one, and `body` the payload as the service writes it out, or the
/// reason why it could not. The header is judged first, then the body, then
/// the signature.
pub open spec fn verification(
    header: Option<Seq<u8>>,
    body: Result<Seq<char>, serde_json::Error>,
    secret: Seq<char>,
) -> Result<(), HmacError> {
    match signature_part(header) {
        Err(error) => Err(error),
        Ok(given) => match body {
            Err(reason) => Err(HmacError::Serialization(reason)),
            Ok(text) => comparison(given, signature_of(text, secret)),
        },
    }
}

/// The header's value as plain values.
pub open spec fn header_view(header: Option<Vec<u8>>) -> Option<Seq<u8>> {
    match header {
        Some(value) => Some(value@),
        None => None,
    }
}

/// The body as plain values.
pub open spec fn body_view(body: Result<String, serde_json::Error>) -> Result<
    Seq<char>,
    serde_json::Error,
> {
    match body {
        Ok(text) => Ok(text@),
        Err(reason) => Err(reason),
    }
}

/// Hex text is ASCII.
pub proof fn lemma_hex_text_is_ascii(bytes: Seq<u8>)
    ensures
        is_ascii_chars(hex_text(bytes)),
        hex_text(bytes).len() == 2 * bytes.len(),
        encode_utf8(hex_text(bytes)) == ascii(hex_text(bytes)),
{
    reveal_strlit("0123456789abcdef");
    let text = hex_text(bytes);
    assert forall|i: int| 0 <= i < text.len() implies '\0' <= #[trigger] text[i] <= '\u{7f}' by {
        let byte = bytes[i / 2] as int;
        assert(0 <= byte / 16 < 16 && 0 <= byte % 16 < 16);
    }
    vstd::utf8::is_ascii_chars_encode_utf8(text);
    assert(encode_utf8(text) =~= ascii(text));
}

/// The bytes of the scheme.
pub proof fn lemma_scheme()
    ensures
        scheme() == seq![115u8, 104u8, 97u8, 50u8, 53u8, 54u8, 61u8],
        encode_utf8("sha256="@) == scheme(),
{
    reveal_strlit("sha256=");
    let text = "sha256="@;
    assert(scheme() =~= seq![115u8, 104u8, 97u8, 50u8, 53u8, 54u8, 61u8]);
    assert(is_ascii_chars(text));
    vstd::utf8::is_ascii_chars_encode_utf8(text);
    assert(encode_utf8(text) =~= scheme());
}

/// Whether each byte is a visible ASCII character, a space or a tab: the bytes
/// that `HeaderValue::to_str` accepts as text.
pub fn is_visible_ascii(bytes: &[u8]) -> (r: bool)
    ensures
        r == is_text(bytes@),
{
    let mut i: usize = 0;
    while i < bytes.len()
        invariant
            i <= bytes@.len(),
            forall|j: int| 0 <= j < i ==> is_visible_byte(#[trigger] bytes@[j]),
        decreases bytes@.len() - i,
    {
        let byte = bytes[i];
        if !((32 <= byte && byte < 127) || byte == 9) {
            return false;
        }
        i += 1;
    }
    true
}

/// Whether the two hold the same bytes.
fn same_bytes(left: &[u8], right: &[u8]) -> (r: bool)
    ensures
        r == (left@ == right@),
{
    if left.len() != right.len() {
        return false;
    }
    let mut i: usize = 0;
    while i < left.len()
        invariant
            left@.len() == right@.len(),
            i <= left@.len(),
            forall|j: int| 0 <= j < i ==> left@[j] == right@[j],
        decreases left@.len() - i,
    {
        if left[i] != right[i] {
            return false;
        }
        i += 1;
    }
    assert(left@ =~= right@);
    true
}

/// The bytes from `start` on.
fn bytes_from(bytes: &[u8], start: usize) -> (rest: Vec<u8>)
    requires
        start <= bytes@.len(),
    ensures
        rest@ == bytes@.skip(start as int),
{
    let mut rest: Vec<u8> = Vec::new();
    let mut i: usize = start;
    while i < bytes.len()
        invariant
            start <= i <= bytes@.len(),
            rest@ == bytes@.subrange(start as int, i as int),
        decreases bytes@.len() - i,
    {
        rest.push(bytes[i]);
        assert(rest@ =~= bytes@.subrange(start as int, i + 1));
        i += 1;
    }
    assert(rest@ =~= bytes@.skip(start as int));
    rest
}

/// Whether `bytes` starts with `part`.
fn starts_with(bytes: &[u8], part: &[u8]) -> (r: bool)
    ensures
        r == (bytes@.len() >= part@.len() && bytes@.subrange(0, part@.len() as int) == part@),
{
    if bytes.len() < part.len() {
        return false;
    }
    let mut i: usize = 0;
    while i < part.len()
        invariant
            part@.len() <= bytes@.len(),
            i <= part@.len(),
            forall|j: int| 0 <= j < i ==> bytes@[j] == part@[j],
        decreases part@.len() - i,
    {
        if bytes[i] != part[i] {
            assert(bytes@.subrange(0, part@.len() as int)[i as int] != part@[i as int]);
            return false;
        }
        i += 1;
    }
    assert(bytes@.subrange(0, part@.len() as int) =~= part@);
    true
}

/// The signature of `body` under `secret`: 64 hex digits.
pub fn calculate_hmac(body: &str, secret: &str) -> (signature: String)
    ensures
        signature@ == signature_of(body@, secret@),
        signature@.len() == 64,
{
    let code = hmac_sha256_code(secret.as_bytes(), body.as_bytes());
    proof {
        lemma_hex_text_is_ascii(code@);
    }
    hex_encode(code.as_slice())
}

/// Takes the signature out of the value of a signature header, if the request
/// has one: the bytes behind `sha256=`.
pub fn signature_in(header: Option<Vec<u8>>) -> (r: Result<Vec<u8>, HmacError>)
    ensures
        match signature_part(header_view(header)) {
            Ok(given) => r matches Ok(bytes) && bytes@ == given,
            Err(error) => r matches Err(e) && e == error,
        },
{
    let value = match header {
        None => {
            return Err(HmacError::MissingSignature);
        },
        Some(value) => value,
    };
    if !is_visible_ascii(value.as_slice()) {
        return Err(HmacError::InvalidFormat);
    }
    proof {
        lemma_scheme();
    }
    let scheme = "sha256=".as_bytes();
    if !starts_with(value.as_slice(), scheme) {
        return Err(HmacError::InvalidFormat);
    }
    Ok(bytes_from(value.as_slice(), scheme.len()))
}

/// Compares the signature that a request gave with the one expected of it.
pub fn compare_signatures(given: &[u8], expected: &str) -> (r: Result<(), HmacError>)
    ensures
        r == comparison(given@, expected@),
{
    if same_bytes(given, expected.as_bytes()) {
        Ok(())
    } else {
        Err(HmacError::VerificationFailed)
    }
}

/// Checks the signature that `headers` carries in `X-Signature` against
/// `body`, the payload as the service writes it out or the reason why it could
/// not, under `secret`.
pub fn verify_hmac_signature(
    headers: &HeaderMap,
    body: Result<String, serde_json::Error>,
    secret: &str,
) -> (r: Result<(), HmacError>)
    ensures
        r == verification(header_value(*headers, "X-Signature"@), body_view(body), secret@),
        header_value(*headers, "X-Signature"@) is None ==> r == Err::<(), HmacError>(
            HmacError::MissingSignature,
        ),
        header_value(*headers, "X-Signature"@) matches Some(value) && !has_scheme(value) ==> r
            == Err::<(), HmacError>(HmacError::InvalidFormat),
{
    let given = match signature_in(first_value(headers, "X-Signature")) {
        Err(error) => {
            return Err(error);
        },
        Ok(given) => given,
    };
    let text = match body {
        Err(reason) => {
            return Err(HmacError::Serialization(reason));
        },
        Ok(text) => text,
    };
    let expected = calculate_hmac(text.as_str(), secret);
    compare_signatures(given.as_slice(), expected.as_str())
}

/// Distinct numbers from 0 to 15 have distinct hex digits, and each digit is a
/// visible ASCII character.
pub proof fn lemma_hex_digits(m: int, n: int)
    requires
        0 <= m < 16,
        0 <= n < 16,
    ensures
        hex_digit(m) == hex_digit(n) ==> m == n,
        hex_digit(m) as u8 == hex_digit(n) as u8 ==> m == n,
        is_visible_byte(hex_digit(m) as u8),
{
    reveal_strlit("0123456789abcdef");
}

/// Bytes with the same hex text, as characters or as the bytes of those
/// characters, are the same bytes.
pub proof fn lemma_hex_text_is_injective(a: Seq<u8>, b: Seq<u8>)
    requires
        ascii(hex_text(a)) == ascii(hex_text(b)),
    ensures
        a == b,
{
    let (ta, tb) = (ascii(hex_text(a)), ascii(hex_text(b)));
    assert(ta.len() == 2 * a.len() && tb.len() == 2 * b.len());
    assert forall|i: int| 0 <= i < a.len() implies a[i] == b[i] by {
        let (x, y) = (a[i] as int, b[i] as int);
        assert(ta[2 * i] == tb[2 * i] && ta[2 * i + 1] == tb[2 * i + 1]);
        assert(ta[2 * i] == hex_digit(x / 16) as u8 && tb[2 * i] == hex_digit(y / 16) as u8);
        assert(ta[2 * i + 1] == hex_digit(x % 16) as u8 && tb[2 * i + 1] == hex_digit(y % 16) as u8);
        lemma_hex_digits(x / 16, y / 16);
        lemma_hex_digits(x % 16, y % 16);
    }
    assert(a =~= b);
}

/// The header made for a body under a secret is text and starts with the
/// scheme.
pub proof fn lemma_signed_header_is_well_formed(body: Seq<char>, secret: Seq<char>)
    ensures
        is_text(signed_header(body, secret)),
        has_scheme(signed_header(body, secret)),
        signed_header(body, secret).len() == 7 + 2 * hmac_sha256(
            encode_utf8(secret),
            encode_utf8(body),
        ).len(),
{
    lemma_scheme();
    let code = hmac_sha256(encode_utf8(secret), encode_utf8(body));
    let signed = signed_header(body, secret);
    assert(signed.subrange(0, 7) =~= scheme());
    assert forall|i: int| 0 <= i < signed.len() implies is_visible_byte(#[trigger] signed[i]) by {
        if i >= 7 {
            let k = i - 7;
            let byte = code[k / 2] as int;
            lemma_hex_digits(byte / 16, byte % 16);
            lemma_hex_digits(byte % 16, byte / 16);
            assert(signed[i] == ascii(hex_text(code))[k]);
        }
    }
}

/// A request that carries the header made for its body under the service's
/// secret is accepted.
pub proof fn lemma_signed_request_is_accepted(body: Seq<char>, secret: Seq<char>)
    ensures
        verification(Some(signed_header(body, secret)), Ok(body), secret) == Ok::<(), HmacError>(()),
{
    lemma_signed_header_is_well_formed(body, secret);
    lemma_hex_text_is_ascii(hmac_sha256(encode_utf8(secret), encode_utf8(body)));
    assert(signed_header(body, secret).skip(7) =~= ascii(signature_of(body, secret)));
}

/// A request signed under one secret and checked under another is accepted
/// where the two secrets give the body the same code, and fails verification
/// where they do not.
pub proof fn lemma_request_signed_under_other_secret(
    body: Seq<char>,
    signing_secret: Seq<char>,
    secret: Seq<char>,
)
    ensures
        verification(Some(signed_header(body, signing_secret)), Ok(body), secret) == (if hmac_sha256(
            encode_utf8(signing_secret),
            encode_utf8(body),
        ) == hmac_sha256(encode_utf8(secret), encode_utf8(body)) {
            Ok::<(), HmacError>(())
        } else {
            Err::<(), HmacError>(HmacError::VerificationFailed)
        }),
{
    let made = hmac_sha256(encode_utf8(signing_secret), encode_utf8(body));
    let wanted = hmac_sha256(encode_utf8(secret), encode_utf8(body));
    lemma_signed_header_is_well_formed(body, signing_secret);
    lemma_hex_text_is_ascii(wanted);
    assert(signed_header(body, signing_secret).skip(7) =~= ascii(hex_text(made)));
    if ascii(hex_text(made)) == ascii(hex_text(wanted)) {
        lemma_hex_text_is_injective(made, wanted);
    }
}

/// A request signed for one body and sent with another is accepted where the
/// secret gives the two bodies the same code, and fails verification where it
/// does not.
pub proof fn lemma_request_signed_for_other_body(
    signed_body: Seq<char>,
    body: Seq<char>,
    secret: Seq<char>,
)
    ensures
        verification(Some(signed_header(signed_body, secret)), Ok(body), secret) == (if hmac_sha256(
            encode_utf8(secret),
            encode_utf8(signed_body),
        ) == hmac_sha256(encode_utf8(secret), encode_utf8(body)) {
            Ok::<(), HmacError>(())
        } else {
            Err::<(), HmacError>(HmacError::VerificationFailed)
        }),
{
    let made = hmac_sha256(encode_utf8(secret), encode_utf8(signed_body));
    let wanted = hmac_sha256(encode_utf8(secret), encode_utf8(body));
    lemma_signed_header_is_well_formed(signed_body, secret);
    lemma_hex_text_is_ascii(wanted);
    assert(signed_header(signed_body, secret).skip(7) =~= ascii(hex_text(made)));
    if ascii(hex_text(made)) == ascii(hex_text(wanted)) {
        lemma_hex_text_is_injective(made, wanted);
    }
}

/// A request without a signature header has no signature, and one whose
/// header does not start with the scheme has not the format, whatever the
/// body and the secret.
pub proof fn lemma_unsigned_requests(
    header: Option<Seq<u8>>,
    body: Result<Seq<char>, serde_json::Error>,
    secret: Seq<char>,
)
    ensures
        header is None ==> verification(header, body, secret) == Err::<(), HmacError>(
            HmacError::MissingSignature,
        ),
        header matches Some(value) && !has_scheme(value) ==> verification(header, body, secret)
            == Err::<(), HmacError>(HmacError::InvalidFormat),
{
}

/// Renders the reason with its `Display` impl, through `to_string`. Nothing
/// is claimed of the text.
#[verifier::external_body]
fn reason_text(reason: &serde_json::Error) -> String {
    reason.to_string()
}

/// What an error says.
pub open spec fn error_text(error: HmacError) -> Seq<char> {
    match error {
        HmacError::MissingSignature => "Missing signature header"@,
        HmacError::InvalidFormat => "Invalid signature format"@,
        HmacError::VerificationFailed => "Signature verification failed"@,
        HmacError::Serialization(_) => "Serialization error: "@,
    }
}

impl HmacError {
    /// What the error says. For a payload that could not be written out, the
    /// reason follows the text.
    pub fn message(&self) -> (text: String)
        ensures
            !(self is Serialization) ==> text@ == error_text(*self),
            self is Serialization ==> text@.len() >= error_text(*self).len() && text@.subrange(
                0,
                error_text(*self).len() as int,
            ) == error_text(*self),
    {
        match self {
            HmacError::MissingSignature => String::from_str("Missing signature header"),
            HmacError::InvalidFormat => String::from_str("Invalid signature format"),
            HmacError::VerificationFailed => String::from_str("Signature verification failed"),
            HmacError::Serialization(reason) => {
                let start = String::from_str("Serialization error: ");
                let reason = reason_text(reason);
                let text = start.concat(reason.as_str());
                assert(text@.subrange(0, error_text(*self).len() as int) =~= error_text(*self));
                text
            },
        }
    }
}

} // verus!
