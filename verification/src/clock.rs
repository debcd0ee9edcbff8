//! The wall clock.

use vstd::prelude::*;

verus! {

/// `chrono::Utc::now`, read through `DateTime::timestamp_millis`: the
/// current time in milliseconds since the Unix epoch. Nothing is claimed of
/// the value. The clock of the machine must not stand before 1970: `now`
/// does not return on such a machine.
#[verifier::external_body]
pub(crate) fn now_millis() -> i64 {
    chrono::Utc::now().timestamp_millis()
}

} // verus!
