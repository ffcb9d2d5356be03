use vstd::prelude::*;

verus! {

/// Name of the cookie that carries the access credential.
pub const COOKIE_NAME: &'static str = "mpow_token";

/// Number of bytes of entropy behind an opaque token.
pub const TOKEN_BYTE_LENGTH: usize = 24;

/// Lifetime of an issued access credential, in seconds.
pub const TOKEN_EXPIRY_SECS: u64 = 36 * 3600;

/// Lifetime of a challenge, in seconds.
pub const CHALLENGE_EXPIRY_SECS: u64 = 300;

/// Number of leading zero hex digits a solution hash must carry.
pub const POW_DIFFICULTY: usize = 4;

/// Upper bound on verification attempts per challenge.
pub const MAX_ATTEMPTS: u32 = 15;

/// The required leading hex prefix of a solution hash.
pub const POW_DIFFICULTY_PREFIX: &'static str = "0000";

/// Longest nonce accepted for hashing.
pub const MAX_NONCE_LENGTH: usize = 128;

/// Upper bound on verification attempts per challenge, as a count.
pub const MAX_CHALLENGE_ATTEMPTS: usize = 15;

/// Whether log shipping is enabled.
pub const USE_LOKI: bool = false;

} // verus!
