use vstd::prelude::*;

use crate::text::{seq_starts_with, str_starts_with};

verus! {

/// The SHA-256 digest of the UTF-8 bytes of `secret` followed by the UTF-8
/// bytes of `nonce` (no separator), rendered as 64 lowercase hex digits.
/// The digest is a function of the two inputs alone, so it carries a name
/// here rather than a definition.
pub uninterp spec fn pow_hash_of(secret: Seq<char>, nonce: Seq<char>) -> Seq<char>;

/// A nonce solves a challenge when the hash of `secret ‖ nonce` begins with
/// the required hex prefix.
pub open spec fn pow_solution_ok(secret: Seq<char>, nonce: Seq<char>, prefix: Seq<char>) -> bool {
    seq_starts_with(pow_hash_of(secret, nonce), prefix)
}

/// Relies on sha2::Sha256: hashes the UTF-8 concatenation `secret ‖ nonce`
/// and renders the 32-byte digest as lowercase hex (two digits per byte,
/// zero-padded), which is 64 characters. The result depends on the two
/// arguments alone.
#[verifier::external_body]
fn pow_hash(secret: &str, nonce: &str) -> (r: String)
    ensures
        r@ == pow_hash_of(secret@, nonce@),
        r@.len() == 64,
{
    let digest = <sha2::Sha256 as sha2::Digest>::digest(format!("{}{}", secret, nonce).as_bytes());
    format!("{:x}", digest)
}

/// One server-side verification of a submitted solution: hash once, then
/// check the required prefix. Deterministic and free of side effects: the
/// result is a function of the three arguments alone.
pub fn verify_pow(secret: &str, nonce: &str, required_prefix: &str) -> (r: bool)
    ensures
        r == pow_solution_ok(secret@, nonce@, required_prefix@),
{
    let hash_hex = pow_hash(secret, nonce);
    str_starts_with(hash_hex.as_str(), required_prefix)
}

/// Law: verification is pure — its outcome is fixed by the secret, the nonce
/// and the prefix, so two verifications of identical inputs agree.
pub proof fn lemma_verify_deterministic(
    secret: Seq<char>,
    nonce: Seq<char>,
    prefix: Seq<char>,
    r1: bool,
    r2: bool,
)
    requires
        r1 == pow_solution_ok(secret, nonce, prefix),
        r2 == pow_solution_ok(secret, nonce, prefix),
    ensures
        r1 == r2,
{
}

} // verus!
