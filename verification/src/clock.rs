//! Where the current time comes from.

use vstd::prelude::*;

verus! {

/// A source of the current time, in whole seconds since the Unix epoch.
/// Nothing is promised of the value: a clock may stand still, jump or run
/// backwards, and the token manager is proved for every reading.
pub trait Clock {
    /// The current time.
    fn now(&self) -> i64;
}

/// The clock of the machine, read in UTC.
#[derive(Debug, Clone, Copy)]
pub struct SystemClock;

/// Calls `chrono::Utc::now()` and `DateTime::timestamp()`: the machine's
/// current time in whole seconds since the Unix epoch. Nothing is claimed of
/// it. chrono does not return where the machine's clock stands before 1970.
#[verifier::external_body]
fn utc_now_seconds() -> i64 {
    chrono::Utc::now().timestamp()
}

impl Clock for SystemClock {
    fn now(&self) -> i64 {
        utc_now_seconds()
    }
}

} // verus!
