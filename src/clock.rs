use vstd::prelude::*;

verus! {

/// Relies on chrono's `Utc::now().timestamp()`: the current time, in seconds since the Unix
/// epoch.
#[verifier::external_body]
pub(crate) fn now_unix_seconds() -> (r: i64) {
    chrono::Utc::now().timestamp()
}

} // verus!
