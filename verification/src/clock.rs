use vstd::prelude::*;

verus! {

/// Relies on std::time::SystemTime::now and duration_since: seconds since
/// the Unix epoch, or 0 if the system clock reads before the epoch. Nothing
/// can be promised of a clock reading.
#[verifier::external_body]
pub fn current_timestamp() -> u64 {
    match std::time::SystemTime::now().duration_since(std::time::UNIX_EPOCH) {
        Ok(d) => d.as_secs(),
        Err(_) => 0,
    }
}

} // verus!
