//! Session credentials: compact signed access tokens carrying subject and
//! absolute expiry, and the one-way hash under which opaque refresh tokens
//! are stored.

use vstd::prelude::*;

use crate::errors::{AuthError, ConfigError};
use crate::vault::{b64_decode_of, b64_of};

verus! {

/// The 32-byte SHA-256 digest of a byte string.
pub uninterp spec fn sha256_of(bytes: Seq<u8>) -> Seq<u8>;

/// What decoding a compact signed token under a secret yields: the subject
/// and absolute expiry it carries when the signature verifies and the claims
/// parse, nothing otherwise. Expiry is not compared to any clock here.
pub uninterp spec fn jwt_claims_of(token: Seq<char>, secret: Seq<char>) -> Option<(u64, u64)>;

/// The stored form of an opaque refresh token: base64 of the SHA-256 digest
/// of its UTF-8 bytes. The raw value itself never persists.
pub open spec fn token_hash_of(token: Seq<char>) -> Seq<char> {
    b64_of(sha256_of(vstd::utf8::encode_utf8(token)))
}

/// Relies on sha2::Sha256: the 32-byte digest depends on the input bytes
/// alone.
#[verifier::external_body]
fn sha256(bytes: &[u8]) -> (r: Vec<u8>)
    ensures
        r@ == sha256_of(bytes@),
        r@.len() == 32,
{
    let mut hasher = <sha2::Sha256 as sha2::digest::Digest>::new();
    sha2::digest::Digest::update(&mut hasher, bytes);
    <sha2::Sha256 as sha2::digest::Digest>::finalize(hasher).to_vec()
}

/// Relies on jsonwebtoken::encode (HS256): the token it signs decodes, under
/// the same secret, to exactly the claims given here. For an HMAC key and
/// these two plain claims the encoder cannot fail — HMAC signing returns
/// success unconditionally and serializing a two-field map of integers
/// cannot fail — so the token is returned outright.
#[verifier::external_body]
fn jwt_encode(sub: u64, exp: u64, secret: &str) -> (r: String)
    ensures
        jwt_claims_of(r@, secret@) == Some((sub, exp)),
{
    let mut claims = serde_json::Map::new();
    claims.insert("sub".to_string(), serde_json::Value::from(sub));
    claims.insert("exp".to_string(), serde_json::Value::from(exp));
    let key = jsonwebtoken::EncodingKey::from_secret(secret.as_bytes());
    jsonwebtoken::encode(&jsonwebtoken::Header::default(), &serde_json::Value::Object(claims), &key)
        .expect("HMAC signing of plain claims cannot fail")
}

/// Relies on jsonwebtoken::decode (HS256): checks the signature and yields
/// the claims. Expiry is deliberately not checked here; the caller compares
/// it to its own clock. A bad signature and any other malformation are told
/// apart for logging only.
#[verifier::external_body]
fn jwt_decode_raw(token: &str, secret: &str) -> (r: Result<(u64, u64), AuthError>)
    ensures
        r matches Ok(c) ==> jwt_claims_of(token@, secret@) == Some(c),
        r is Err ==> jwt_claims_of(token@, secret@) is None,
        r matches Err(e) ==> (e == AuthError::Malformed || e == AuthError::BadSignature),
{
    let key = jsonwebtoken::DecodingKey::from_secret(secret.as_bytes());
    let mut validation = jsonwebtoken::Validation::default();
    validation.validate_exp = false;
    validation.required_spec_claims.clear();
    let data = jsonwebtoken::decode::<serde_json::Value>(token, &key, &validation).map_err(
        |e| match e.kind() {
            jsonwebtoken::errors::ErrorKind::InvalidSignature => AuthError::BadSignature,
            _ => AuthError::Malformed,
        },
    )?;
    let sub = data.claims.get("sub").and_then(|v| v.as_u64()).ok_or(AuthError::Malformed)?;
    let exp = data.claims.get("exp").and_then(|v| v.as_u64()).ok_or(AuthError::Malformed)?;
    Ok((sub, exp))
}

/// Mint a signed access token for a subject: claims are the user id and the
/// absolute expiry `now + expiry_seconds`. Succeeds exactly when that
/// instant is representable, and fails with `ExpiryOverflow` otherwise.
pub fn create_jwt(user_id: u64, secret: &str, now: u64, expiry_seconds: u64) -> (r: Result<
    String,
    ConfigError,
>)
    ensures
        now + expiry_seconds <= u64::MAX <==> r is Ok,
        r matches Ok(t) ==> jwt_claims_of(t@, secret@) == Some(
            (user_id, (now + expiry_seconds) as u64),
        ),
        r is Err ==> r == Err::<String, ConfigError>(ConfigError::ExpiryOverflow),
{
    match now.checked_add(expiry_seconds) {
        Some(exp) => Ok(jwt_encode(user_id, exp, secret)),
        None => Err(ConfigError::ExpiryOverflow),
    }
}

/// The verdict `verify_jwt` owes for given claims and a given clock: the
/// subject when the token is unexpired, `Expired` otherwise; no verdict is
/// fixed here for a token whose claims do not decode.
pub open spec fn verify_decision(claims: Option<(u64, u64)>, now: u64) -> Option<
    Result<u64, AuthError>,
> {
    match claims {
        Some((sub, exp)) => if exp > now {
            Some(Ok(sub))
        } else {
            Some(Err(AuthError::Expired))
        },
        None => None,
    }
}

/// Check a presented access token under the signing secret against the
/// caller's clock and return its subject. The three failure causes are
/// distinguished here for logging; callers surface them uniformly.
pub fn verify_jwt(token: &str, secret: &str, now: u64) -> (r: Result<u64, AuthError>)
    ensures
        verify_decision(jwt_claims_of(token@, secret@), now) matches Some(out) ==> r == out,
        jwt_claims_of(token@, secret@) is None ==> (r == Err::<u64, AuthError>(AuthError::Malformed)
            || r == Err::<u64, AuthError>(AuthError::BadSignature)),
{
    let (sub, exp) = jwt_decode_raw(token, secret)?;
    if exp > now {
        Ok(sub)
    } else {
        Err(AuthError::Expired)
    }
}

/// Relies on rand::random: a value drawn from the thread-local
/// cryptographically secure generator. Nothing can be promised of it.
pub assume_specification<T>[ rand::random::<T> ]() -> (r: T)
    where
        rand::distributions::Standard: rand::distributions::Distribution<T>,
;

/// A fresh opaque refresh token: the 44-character base64 text of 256 random
/// bits. The raw value is returned exactly once, here; only its hash is
/// ever stored.
pub fn generate_refresh_token() -> (r: String)
    ensures
        exists|b: Seq<u8>| b.len() == 32 && r@ == #[trigger] b64_of(b) && b64_decode_of(r@)
            == Some(b),
        r@.len() == 44,
{
    let bytes: [u8; 32] = rand::random();
    let raw = crate::vault::b64_encode(bytes.as_slice());
    proof {
        assert(bytes@.len() == 32 && raw@ == b64_of(bytes@) && b64_decode_of(raw@) == Some(
            bytes@,
        ));
    }
    raw
}

/// The stored hash of an opaque refresh token: SHA-256 of its bytes, then
/// base64 — always 44 characters.
pub fn hash_token(token: &str) -> (r: String)
    ensures
        r@ == token_hash_of(token@),
        r@.len() == 44,
{
    let digest = sha256(token.as_bytes());
    crate::vault::b64_encode(digest.as_slice())
}

/// Law: an access token whose claims carry expiry `now + 3600` verifies to
/// its subject when checked one second before that instant, and is reported
/// expired when checked one second after it.
pub proof fn lemma_expiry_boundary(token: Seq<char>, secret: Seq<char>, sub: u64, now: u64)
    requires
        now + 3601 <= u64::MAX,
        jwt_claims_of(token, secret) == Some((sub, (now + 3600) as u64)),
    ensures
        verify_decision(jwt_claims_of(token, secret), (now + 3599) as u64) == Some(Ok::<
            u64,
            AuthError,
        >(sub)),
        verify_decision(jwt_claims_of(token, secret), (now + 3601) as u64) == Some(Err::<
            u64,
            AuthError,
        >(AuthError::Expired)),
{
}

} // verus!
