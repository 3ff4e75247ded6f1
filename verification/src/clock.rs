//! The time of day, as the machine tells it.

use chrono::{NaiveDateTime, Utc};
use vstd::prelude::*;

verus! {

/// The current date and time in UTC, without the zone.
///
/// Calls `chrono::Utc::now` and takes the reading's `naive_local`. Nothing
/// is claimed of the result: two readings may differ in either direction.
/// `Utc::now` gives up on a machine whose clock stands before 1970.
#[verifier::external_body]
pub(crate) fn now() -> NaiveDateTime {
    Utc::now().naive_local()
}

} // verus!
