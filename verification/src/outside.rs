//! Trusted boundary: every call that leaves the verified library goes
//! through one of the wrappers below. Each wrapper's contract states only
//! what the callee's own documentation promises; results that depend on the
//! clock or on randomness get no stronger contract than "true of every
//! outcome".

use vstd::prelude::*;

verus! {

/// Relies on str::chars: iterating a string slice yields exactly the
/// character sequence that is the slice's view.
#[verifier::external_body]
pub(crate) fn to_chars(s: &str) -> (r: Vec<char>)
    ensures
        r@ == s@,
{
    s.chars().collect()
}

/// Relies on String: collecting a character sequence yields the string
/// whose view is exactly that sequence.
#[verifier::external_body]
pub(crate) fn chars_to_string(v: &Vec<char>) -> (r: String)
    ensures
        r@ == v@,
{
    v.iter().collect()
}

/// Relies on str::eq: two string slices compare equal exactly when their
/// character sequences are equal.
#[verifier::external_body]
pub(crate) fn str_eq(a: &str, b: &str) -> (r: bool)
    ensures
        r == (a@ == b@),
{
    a == b
}

/// Relies on std::time::SystemTime: seconds elapsed since the Unix epoch,
/// or 0 if the clock reports a time before the epoch. Wall-clock time is
/// outside the verified model, so nothing more is promised.
#[verifier::external_body]
pub(crate) fn now_unix_secs() -> u64 {
    match std::time::SystemTime::now().duration_since(std::time::UNIX_EPOCH) {
        Ok(d) => d.as_secs(),
        Err(_) => 0,
    }
}

/// Relies on std::time::SystemTime: milliseconds elapsed since the Unix
/// epoch, saturated to u64, or 0 before the epoch.
#[verifier::external_body]
pub(crate) fn now_unix_millis() -> u64 {
    match std::time::SystemTime::now().duration_since(std::time::UNIX_EPOCH) {
        Ok(d) => u64::try_from(d.as_millis()).unwrap_or(u64::MAX),
        Err(_) => 0,
    }
}

/// Relies on chrono::Utc::now and DateTime::to_rfc3339: the current wall
/// clock rendered as an RFC 3339 timestamp. Time-dependent, so no contract.
#[verifier::external_body]
pub(crate) fn now_rfc3339() -> String {
    chrono::Utc::now().to_rfc3339()
}

/// Relies on rand: RngExt::random_range samples uniformly from a non-empty
/// range, so the result is below the bound. Random, so nothing else holds.
#[verifier::external_body]
pub(crate) fn random_below(n: usize) -> (r: usize)
    requires
        n >= 1,
    ensures
        r < n,
{
    let mut rng = rand::rng();
    rand::RngExt::random_range(&mut rng, 0..n)
}

/// Relies on uuid::Uuid::new_v4 and its Display impl: a random version-4
/// UUID rendered in the documented hyphenated form, which is 36 characters.
#[verifier::external_body]
pub(crate) fn new_request_id() -> (r: String)
    ensures
        r@.len() == 36,
{
    uuid::Uuid::new_v4().to_string()
}

/// The SHA-256 digest of a string's bytes, as a function of the string
/// alone. The algorithm is not restated here; the digest is named so that
/// contracts downstream of the hash can be exact about everything else.
pub uninterp spec fn sha256_of(s: Seq<char>) -> Seq<u8>;

/// Relies on sha2::Sha256 (the Digest trait): a SHA-256 digest is 32 bytes
/// and depends on the input bytes alone.
#[verifier::external_body]
pub(crate) fn sha256_bytes(s: &str) -> (r: Vec<u8>)
    ensures
        r@ == sha256_of(s@),
        r@.len() == 32,
{
    <sha2::Sha256 as sha2::Digest>::digest(s.as_bytes()).to_vec()
}

/// The token jsonwebtoken's encoder produces for these claims and secret:
/// a function of the arguments alone (fixed default header, deterministic
/// claim serialization, HMAC-SHA256 signature).
pub uninterp spec fn jwt_token_of(
    sub: Seq<char>,
    roles: Seq<Seq<char>>,
    exp: u64,
    iat: u64,
    secret: Seq<char>,
) -> Seq<char>;

/// Relies on jsonwebtoken::encode with the default (HS256) header: signs
/// the claims object `{sub, roles, email: null, exp, iat}` with the given
/// shared secret. The token depends on the arguments alone, so a
/// successful result is exactly `jwt_token_of` of them.
#[verifier::external_body]
pub(crate) fn jwt_encode_hs256(
    sub: &str,
    roles: &Vec<String>,
    exp: u64,
    iat: u64,
    secret: &str,
) -> (r: Result<String, String>)
    ensures
        r matches Ok(t) ==> t@ == jwt_token_of(sub@, roles.deep_view(), exp, iat, secret@),
{
    let mut claims = serde_json::Map::new();
    claims.insert("sub".to_string(), serde_json::Value::from(sub));
    claims.insert("roles".to_string(), serde_json::Value::from(roles.clone()));
    claims.insert("email".to_string(), serde_json::Value::Null);
    claims.insert("exp".to_string(), serde_json::Value::from(exp));
    claims.insert("iat".to_string(), serde_json::Value::from(iat));
    jsonwebtoken::encode(
        &jsonwebtoken::Header::default(),
        &serde_json::Value::Object(claims),
        &jsonwebtoken::EncodingKey::from_secret(secret.as_bytes()),
    ).map_err(|e| e.to_string())
}

/// The JSON value type the token codec hands claims back in; opaque to
/// the verifier and only carried between the two wrappers below.
#[verifier::external_type_specification]
#[verifier::external_body]
pub struct ExJsonValue(serde_json::Value);

/// Relies on jsonwebtoken::decode with the default validation (HS256,
/// expiry checked against the system clock): verifies the token's
/// signature with the shared secret and hands back the claims object.
/// Verification depends on the clock, so nothing is promised.
#[verifier::external_body]
pub(crate) fn jwt_decode_hs256(token: &str, secret: &str) -> Result<serde_json::Value, String> {
    jsonwebtoken::decode::<serde_json::Value>(
        token,
        &jsonwebtoken::DecodingKey::from_secret(secret.as_bytes()),
        &jsonwebtoken::Validation::default(),
    ).map(|data| data.claims).map_err(|e| e.to_string())
}

/// Relies on serde_json::Value's accessors: copies the claims fields out
/// as plain values (subject, roles, email, expiry), with empty or zero
/// defaults for absent or differently-typed fields.
#[verifier::external_body]
pub(crate) fn jwt_claims_parts(v: &serde_json::Value) -> (String, Vec<String>, Option<String>, u64) {
    let sub = v.get("sub").and_then(|s| s.as_str()).unwrap_or("").to_string();
    let email = v.get("email").and_then(|s| s.as_str()).map(|s| s.to_string());
    let exp = v.get("exp").and_then(|e| e.as_u64()).unwrap_or(0);
    let mut roles: Vec<String> = Vec::new();
    if let Some(list) = v.get("roles").and_then(|r| r.as_array()) {
        for r in list {
            roles.push(r.as_str().unwrap_or("").to_string());
        }
    }
    (sub, roles, email, exp)
}

} // verus!
