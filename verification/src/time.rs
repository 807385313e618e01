//! Points in time as the records carry them, and the clock that stamps them.

use vstd::prelude::*;

verus! {

/// Eight hours, in seconds: how far the stamping clock stands east of UTC.
pub const EAST_EIGHT_SECS: i64 = 28800;

/// A date and time without a zone: whole seconds since 1970-01-01 00:00:00
/// and the nanoseconds into that second. During a leap second the
/// nanoseconds run on past 999,999,999.
#[derive(Clone, Copy, Debug, PartialEq, Eq, Structural)]
pub struct Timestamp {
    pub secs: i64,
    pub nanos: u32,
}

impl Timestamp {
    /// `self` is `other` or later: by the seconds, then by the nanoseconds.
    pub open spec fn at_or_after(self, other: Timestamp) -> bool {
        self.secs > other.secs || (self.secs == other.secs && self.nanos >= other.nanos)
    }

    /// `self` is `other` or earlier.
    pub open spec fn at_or_before(self, other: Timestamp) -> bool {
        other.at_or_after(self)
    }

    /// `self` moved eight hours east; at the far end of the range it stays at
    /// the last second.
    pub open spec fn east_eight(self) -> Timestamp {
        Timestamp {
            secs: if self.secs > i64::MAX - EAST_EIGHT_SECS {
                i64::MAX
            } else {
                (self.secs + EAST_EIGHT_SECS) as i64
            },
            nanos: self.nanos,
        }
    }

    pub fn new(secs: i64, nanos: u32) -> (r: Self)
        ensures
            r.secs == secs,
            r.nanos == nanos,
    {
        Timestamp { secs, nanos }
    }

    /// Whether `self` is `other` or later.
    pub fn is_at_or_after(&self, other: &Timestamp) -> (r: bool)
        ensures
            r == self.at_or_after(*other),
    {
        self.secs > other.secs || (self.secs == other.secs && self.nanos >= other.nanos)
    }

    /// Whether `self` is `other` or earlier.
    pub fn is_at_or_before(&self, other: &Timestamp) -> (r: bool)
        ensures
            r == self.at_or_before(*other),
    {
        other.is_at_or_after(self)
    }

    /// The wall-clock time eight hours east of the UTC time `self`.
    pub fn to_east_eight(&self) -> (r: Timestamp)
        ensures
            r == self.east_eight(),
    {
        let secs = if self.secs > i64::MAX - EAST_EIGHT_SECS {
            i64::MAX
        } else {
            self.secs + EAST_EIGHT_SECS
        };
        Timestamp { secs, nanos: self.nanos }
    }
}

/// Reads the system clock through `chrono::Utc::now` and hands back the UTC
/// time as seconds and nanoseconds. Nothing is claimed of the reading.
/// `chrono` stops the program where the system clock stands before 1970.
#[verifier::external_body]
fn utc_now() -> Timestamp {
    let now = chrono::Utc::now();
    Timestamp { secs: now.timestamp(), nanos: now.timestamp_subsec_nanos() }
}

/// The time now, on a clock eight hours east of UTC: the stamp that goes on a
/// row when it is written.
pub fn get_e8_time() -> (r: Timestamp)
    ensures
        exists|utc: Timestamp| r == #[trigger] utc.east_eight(),
{
    let utc = utc_now();
    utc.to_east_eight()
}

} // verus!
