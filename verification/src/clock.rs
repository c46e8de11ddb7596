//! The one place the library reads the wall clock.

use vstd::prelude::*;

verus! {

/// Relies on chrono::Utc::now, read as milliseconds since the Unix epoch.
/// The value depends on the machine's clock, so nothing is promised of it.
#[verifier::external_body]
pub(crate) fn now_millis() -> i64 {
    chrono::Utc::now().timestamp_millis()
}

} // verus!
