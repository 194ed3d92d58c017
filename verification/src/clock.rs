//! The clock collaborator: the current instant, UTC.

use vstd::prelude::*;
use crate::instant::Instant;

verus! {

/// The component ranges that the clock's calendar accessors document:
/// month 1 to 12, day 1 to 31, hour below 24, minute and second below 60.
pub open spec fn clock_ranges(i: Instant) -> bool {
    &&& 1 <= i.month <= 12
    &&& 1 <= i.day <= 31
    &&& i.hour < 24
    &&& i.minute < 60
    &&& i.second < 60
}

/// Relies on chrono::Utc::now and the Datelike/Timelike accessors: the
/// current instant at evaluation time. Nothing ties the result to the
/// arguments — there are none — so only the documented component ranges
/// are stated.
#[verifier::external_body]
pub(crate) fn now_instant() -> (r: Instant)
    ensures
        clock_ranges(r),
{
    let now = chrono::Utc::now();
    Instant {
        year: chrono::Datelike::year(&now) as i64,
        month: chrono::Datelike::month(&now),
        day: chrono::Datelike::day(&now),
        hour: chrono::Timelike::hour(&now),
        minute: chrono::Timelike::minute(&now),
        second: chrono::Timelike::second(&now),
    }
}

} // verus!
