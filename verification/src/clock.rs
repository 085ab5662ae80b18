//! The wall clock, read once wherever a record needs a creation or update
//! timestamp. Timestamps are whole seconds since the Unix epoch.

use vstd::prelude::*;

verus! {

/// Relies on `time::OffsetDateTime::now_utc` (converted with
/// `OffsetDateTime::unix_timestamp`): the current time in whole seconds since
/// the Unix epoch. The clock is not assumed monotonic, so nothing is promised
/// of the value.
#[verifier::external_body]
pub(crate) fn now_unix() -> i64 {
    time::OffsetDateTime::now_utc().unix_timestamp()
}

} // verus!
