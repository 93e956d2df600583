//! Wall-clock instants as the dataloggers report them.
//!
//! A datalogger counts seconds from the start of 1990 and knows no time zone. An instant
//! is held here as whole seconds counted from 1970-01-01 00:00:00 on the same naive
//! clock, which is the count that calendar libraries take and give.

use vstd::prelude::*;

verus! {

/// 1990-01-01 00:00:00 in seconds after 1970-01-01 00:00:00: twenty years, five of them
/// leap years, of 86400 seconds a day.
pub const EPOCH_1990: i64 = 631_152_000;

/// A naive wall-clock instant with a resolution of one second.
#[derive(Clone, Copy, Debug, PartialEq, Eq, Structural)]
pub struct Timestamp {
    /// Seconds after 1970-01-01 00:00:00; negative before it.
    pub seconds: i64,
}

/// The instant that lies `seconds` after the dataloggers' epoch.
pub open spec fn spec_timestamp(seconds: u32) -> Timestamp {
    Timestamp { seconds: (EPOCH_1990 + seconds) as i64 }
}

/// The days between 1970-01-01 and the first day of `year`, for years from 1970 on.
pub open spec fn days_before_year(year: int) -> int
    decreases year - 1970,
{
    if year <= 1970 {
        0
    } else {
        days_before_year(year - 1) + if is_leap_year(year - 1) {
            366int
        } else {
            365int
        }
    }
}

/// The Gregorian leap year rule.
pub open spec fn is_leap_year(year: int) -> bool {
    year % 4 == 0 && (year % 100 != 0 || year % 400 == 0)
}

/// The dataloggers' epoch is the first second of the year 1990.
pub proof fn lemma_epoch_is_start_of_1990()
    ensures
        EPOCH_1990 == days_before_year(1990) * 86400,
{
    reveal_with_fuel(days_before_year, 21);
}

/// Counts that lie apart by some seconds decode to instants that lie apart by as
/// many: no count wraps around, and a later count is a later instant.
pub proof fn lemma_timestamp_keeps_distance(earlier: u32, later: u32)
    ensures
        spec_timestamp(later).seconds - spec_timestamp(earlier).seconds == later - earlier,
        earlier <= later <==> spec_timestamp(earlier).seconds <= spec_timestamp(later).seconds,
        spec_timestamp(0).seconds == EPOCH_1990,
{
}

impl Timestamp {
    /// The instant `seconds` after 1970-01-01 00:00:00.
    pub fn from_unix_seconds(seconds: i64) -> (t: Timestamp)
        ensures
            t.seconds == seconds,
    {
        Timestamp { seconds }
    }

    /// Seconds after 1970-01-01 00:00:00.
    pub fn unix_seconds(&self) -> (s: i64)
        ensures
            s == self.seconds,
    {
        self.seconds
    }
}

/// Decodes a datalogger's second count into an instant. The count is widened to 64 bits
/// before the epoch is added, so every count decodes.
pub fn u32_to_timestamp(seconds: u32) -> (t: Timestamp)
    ensures
        t == spec_timestamp(seconds),
        t.seconds == EPOCH_1990 + seconds,
{
    Timestamp { seconds: EPOCH_1990 + seconds as i64 }
}

} // verus!
