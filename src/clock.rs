//! The wall clock.
use vstd::prelude::*;

verus! {

/// Relies on `chrono::Utc::now` and `DateTime::timestamp`: the current time
/// in seconds since the Unix epoch; nothing is known of its value.
#[verifier::external_body]
pub(crate) fn generate_current_timestamp() -> (r: i64) {
    chrono::Utc::now().timestamp()
}

} // verus!
