use vstd::prelude::*;

use crate::clock::current_timestamp;
use crate::values::TOKEN_EXPIRY_SECS;
use jsonwebtoken::errors::ErrorKind;
use jsonwebtoken::{decode, encode, DecodingKey, EncodingKey, Header, Validation};
use serde_json::Value;

verus! {

/// JWT claims: subject and expiration (seconds since the Unix epoch).
#[derive(Debug)]
pub struct Claims {
    pub sub: String,
    pub exp: usize,
}

/// Why a presented credential was rejected.
#[derive(Clone, Copy, Debug, PartialEq, Eq, Structural)]
pub enum CredError {
    Expired,
    Malformed,
    BadSignature,
}

/// The signed compact encoding of the claims object {"exp": exp, "sub": sub}
/// under an HMAC-SHA256 key. The token is a function of the three values
/// alone, so it carries a name here rather than a definition.
pub uninterp spec fn jwt_encoding_of(sub: Seq<char>, exp: usize, key: Seq<u8>) -> Seq<char>;

/// Relies on rand::thread_rng's RngCore::fill_bytes: fills the buffer with
/// random bytes. Nothing is promised of the bytes beyond their count.
#[verifier::external_body]
pub fn generate_secret() -> (r: Vec<u8>)
    ensures
        r@.len() == 32,
{
    let mut secret_bytes: Vec<u8> = vec![0u8; 32];
    rand::RngCore::fill_bytes(&mut rand::thread_rng(), &mut secret_bytes);
    secret_bytes
}

/// Relies on jsonwebtoken::encode with the default header (HS256) and an
/// HMAC secret: the claims object is serialized with serde_json and signed.
/// HMAC signing cannot fail and serde_json serialization of an object with
/// string keys cannot fail, so encoding succeeds, and the token is
/// determined by the subject, the expiry and the key alone.
#[verifier::external_body]
fn jwt_encode(sub: &str, exp: usize, key: &[u8]) -> (r: Result<String, String>)
    ensures
        r is Ok,
        r matches Ok(t) ==> t@ == jwt_encoding_of(sub@, exp, key@),
{
    let mut claims = serde_json::Map::new();
    claims.insert("sub".to_string(), Value::String(sub.to_string()));
    claims.insert("exp".to_string(), Value::from(exp as u64));
    match encode(&Header::default(), &Value::Object(claims), &EncodingKey::from_secret(key)) {
        Ok(t) => Ok(t),
        Err(e) => Err(format!("JWT encoding failed: {}", e)),
    }
}

/// The decode outcome `r` agrees with every encoding that `token` is: if
/// `token` is the encoding of (sub, exp) under `key`, the decode succeeded
/// and returned exactly that subject and expiry.
pub open spec fn decodes_every_encoding(
    r: Result<Claims, CredError>,
    token: Seq<char>,
    key: Seq<u8>,
) -> bool {
    forall|sub: Seq<char>, exp: usize|
        token == #[trigger] jwt_encoding_of(sub, exp, key) ==> (r matches Ok(c) && c.sub@ == sub
            && c.exp == exp)
}

/// Relies on jsonwebtoken::decode over serde_json::Value with signature
/// checking on (HS256 only) and the time-based checks disabled, so the
/// outcome depends on the token and key alone: a token produced by
/// jwt_encode under the same key decodes to exactly the encoded subject and
/// expiry. jsonwebtoken's InvalidSignature error is reported as
/// BadSignature; every other defect as Malformed.
#[verifier::external_body]
fn jwt_decode_signed(token: &str, key: &[u8]) -> (r: Result<Claims, CredError>)
    ensures
        decodes_every_encoding(r, token@, key@),
{
    let mut validation = Validation::default();
    validation.validate_exp = false;
    validation.required_spec_claims = std::collections::HashSet::new();
    match decode::<Value>(token, &DecodingKey::from_secret(key), &validation) {
        Ok(d) => match (d.claims.get("sub").and_then(|s| s.as_str()), d.claims.get("exp").and_then(|e| e.as_u64())) {
            (Some(s), Some(e)) if e <= usize::MAX as u64 => Ok(Claims { sub: s.to_string(), exp: e as usize }),
            _ => Err(CredError::Malformed),
        },
        Err(e) => match e.kind() {
            ErrorKind::InvalidSignature => Err(CredError::BadSignature),
            _ => Err(CredError::Malformed),
        },
    }
}

/// Issues the credential for `subject` that expires TOKEN_EXPIRY_SECS after
/// `now`: issuance succeeds exactly when that expiry is representable.
pub fn issue_jwt_at(subject: &str, secret_key: &[u8], now: u64) -> (r: Result<String, String>)
    ensures
        now + TOKEN_EXPIRY_SECS <= usize::MAX ==> r is Ok,
        r matches Ok(t) ==> now + TOKEN_EXPIRY_SECS <= usize::MAX && t@ == jwt_encoding_of(
            subject@,
            ((now + TOKEN_EXPIRY_SECS) as usize),
            secret_key@,
        ),
{
    let exp64 = match now.checked_add(TOKEN_EXPIRY_SECS) {
        Some(v) => v,
        None => {
            return Err(String::from_str("JWT time calculation failed"));
        },
    };
    if exp64 > usize::MAX as u64 {
        return Err(String::from_str("JWT time calculation failed"));
    }
    jwt_encode(subject, exp64 as usize, secret_key)
}

/// Issues a credential for `subject` expiring TOKEN_EXPIRY_SECS from the
/// present clock reading.
pub fn issue_jwt(subject: &str, secret_key: &[u8]) -> (r: Result<String, String>)
    ensures
        r matches Ok(t) ==> exists|exp: usize| t@ == jwt_encoding_of(subject@, exp, secret_key@),
{
    let now = current_timestamp();
    issue_jwt_at(subject, secret_key, now)
}

/// Builds a credential that is already expired (expiry at the epoch).
pub fn create_expired_token(subject: &str, secret_key: &[u8]) -> (r: Result<String, String>)
    ensures
        r is Ok,
        r matches Ok(t) ==> t@ == jwt_encoding_of(subject@, 0, secret_key@),
{
    jwt_encode(subject, 0, secret_key)
}

/// Checks the signature first, then that `now` lies strictly before the
/// expiry; fails closed on any parsing or signature defect. A credential
/// issued under `secret_key` validates to its subject strictly before its
/// expiry and is rejected as Expired from the expiry on.
pub fn validate_jwt_at(token: &str, secret_key: &[u8], now: u64) -> (r: Result<Claims, CredError>)
    ensures
        r matches Ok(c) ==> now < c.exp,
        forall|sub: Seq<char>, exp: usize|
            token@ == #[trigger] jwt_encoding_of(sub, exp, secret_key@) ==> (if now < exp {
                r matches Ok(c) && c.sub@ == sub && c.exp == exp
            } else {
                r == Err::<Claims, CredError>(CredError::Expired)
            }),
{
    match jwt_decode_signed(token, secret_key) {
        Ok(c) => {
            if now < c.exp as u64 {
                Ok(c)
            } else {
                Err(CredError::Expired)
            }
        },
        Err(e) => Err(e),
    }
}

/// Validates a credential against the present clock reading; whatever the
/// clock read, an accepted credential issued under `secret_key` carries
/// exactly the subject and expiry it was issued with.
pub fn validate_jwt(token: &str, secret_key: &[u8]) -> (r: Result<Claims, CredError>)
    ensures
        forall|sub: Seq<char>, exp: usize|
            (token@ == #[trigger] jwt_encoding_of(sub, exp, secret_key@) && r is Ok)
                ==> r->Ok_0.sub@ == sub && r->Ok_0.exp == exp,
{
    let now = current_timestamp();
    validate_jwt_at(token, secret_key, now)
}

} // verus!
