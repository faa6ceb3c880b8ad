//! The wall clock, at second resolution.

use vstd::prelude::*;

verus! {

/// Relies on `chrono::Utc::now` and `chrono::DateTime::timestamp`: the
/// result is the current Unix time in whole seconds. Sub-second precision
/// is discarded by `timestamp` itself, so every save stamp the library
/// produces has second resolution. The clock's reading cannot be pinned
/// down, so nothing is claimed of the value.
#[verifier::external_body]
pub(crate) fn now_secs() -> i64 {
    chrono::Utc::now().timestamp()
}

} // verus!
