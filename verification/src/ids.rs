//! Fresh identifiers and timestamps. The two sources -- the random number
//! generator behind UUIDs and the system clock -- live outside the library;
//! everything built on top of them is verified against what little can be
//! promised of them.

use vstd::prelude::*;

verus! {

/// Relies on `uuid::Uuid::new_v4` and its `Display` rendering via
/// `to_string`: a random version-4 UUID in hyphenated form, which is always
/// 36 characters long. Being random, nothing else holds of it.
#[verifier::external_body]
pub(crate) fn fresh_uuid_string() -> (r: String)
    ensures
        r@.len() == 36,
{
    uuid::Uuid::new_v4().to_string()
}

/// Relies on `std::time::SystemTime::now` and `duration_since`: the number
/// of whole seconds between the Unix epoch and now, 0 if the clock reads
/// earlier than the epoch. The clock can move arbitrarily, so nothing is
/// promised of the value.
#[verifier::external_body]
fn now_unix_seconds() -> u64 {
    match std::time::SystemTime::now().duration_since(std::time::UNIX_EPOCH) {
        Ok(d) => d.as_secs(),
        Err(_) => 0,
    }
}

/// The current Unix time in whole seconds, as a signed number, saturated at
/// the largest representable value. Never negative.
pub(crate) fn current_timestamp() -> (t: i64)
    ensures
        t >= 0,
{
    let secs = now_unix_seconds();
    if secs > i64::MAX as u64 {
        i64::MAX
    } else {
        secs as i64
    }
}

} // verus!
