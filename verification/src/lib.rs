//! A proof-of-work admission gate: a client must find a nonce whose
//! SHA-256 hash of `challenge ‖ nonce` carries a required leading-zero hex
//! prefix before it is granted a time-limited, signed access credential.
//!
//! The lifecycle engine lives here, with its behaviour stated in contracts:
//! challenge generation and storage with expiry and attempt accounting
//! (`store`), single-hash verification of submitted solutions (`pow`),
//! issuance and validation of the signed credential (`jwt`), and the
//! three-step protocol that ties them together (`gate`). The HTML rendering
//! of a challenge (`html`) and cookie handling (`cookie`) sit beside them.

pub mod clock;
pub mod cookie;
pub mod gate;
pub mod html;
pub mod jwt;
pub mod pow;
pub mod store;
pub mod text;
pub mod values;
