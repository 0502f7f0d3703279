//! Recurrence rules: the interval by which a repeating task's schedule moves
//! forward when it is marked done.

use vstd::prelude::*;

verus! {

/// Seconds in a day.
pub const SECONDS_PER_DAY: i64 = 86_400;

/// A repeat interval, counted in days, weeks, months of thirty days or years
/// of 365 days.
#[derive(Debug, Clone, Copy, PartialEq, Eq, Structural)]
pub enum Recur {
    Day(u32),
    Week(u32),
    Month(u32),
    Year(u32),
}

impl Recur {
    /// The interval in seconds.
    pub open spec fn spec_offset(&self) -> int {
        match *self {
            Recur::Day(n) => n * SECONDS_PER_DAY,
            Recur::Week(n) => n * 7 * SECONDS_PER_DAY,
            Recur::Month(n) => n * 30 * SECONDS_PER_DAY,
            Recur::Year(n) => n * 365 * SECONDS_PER_DAY,
        }
    }

    /// The interval in seconds; never negative.
    pub fn offset_seconds(&self) -> (r: i64)
        ensures
            r == self.spec_offset(),
            r >= 0,
    {
        match *self {
            Recur::Day(n) => n as i64 * SECONDS_PER_DAY,
            Recur::Week(n) => n as i64 * 7 * SECONDS_PER_DAY,
            Recur::Month(n) => n as i64 * 30 * SECONDS_PER_DAY,
            Recur::Year(n) => n as i64 * 365 * SECONDS_PER_DAY,
        }
    }
}

} // verus!
