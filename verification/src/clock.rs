//! Instants on the UTC time line, at nanosecond precision, and the signed
//! distance between two of them in whole milliseconds.
//!
//! The calendar work is chrono's: it decides which timestamps are
//! representable and computes the distance. An instant is held here as plain
//! numbers, and stands for its count of nanoseconds since the Unix epoch.

use chrono::{DateTime, Utc};
use vstd::prelude::*;

verus! {

/// Earliest second that chrono can represent: midnight of January 1 of the
/// year -262143.
pub const MIN_TIMESTAMP_SECS: i64 = -8_334_601_228_800;

/// Latest second that chrono can represent: the last second of December 31
/// of the year 262142.
pub const MAX_TIMESTAMP_SECS: i64 = 8_210_266_876_799;

/// Nanoseconds in one second.
pub const NANOS_PER_SEC: u32 = 1_000_000_000;

/// Nanoseconds in one millisecond.
pub const NANOS_PER_MILLI: u32 = 1_000_000;

/// An instant: whole seconds since the Unix epoch and the nanoseconds into
/// that second.
#[derive(Clone, Copy, Debug, PartialEq, Eq, Structural)]
pub struct UtcInstant {
    secs: i64,
    nanos: u32,
}

impl View for UtcInstant {
    type V = int;

    /// Nanoseconds since the Unix epoch.
    closed spec fn view(&self) -> int {
        self.secs * (NANOS_PER_SEC as int) + self.nanos
    }
}

/// Nanoseconds since the epoch of the instant `nanos` into second `secs`.
pub open spec fn epoch_nanos(secs: int, nanos: int) -> int {
    secs * (NANOS_PER_SEC as int) + nanos
}

/// Whether chrono has an instant for `nanos` nanoseconds into second `secs`;
/// leap seconds, which it writes with a nanosecond count of a billion or
/// more, are left out.
pub open spec fn representable(secs: int, nanos: int) -> bool {
    MIN_TIMESTAMP_SECS <= secs <= MAX_TIMESTAMP_SECS && 0 <= nanos < NANOS_PER_SEC
}

/// The whole milliseconds in a span of `nanos` nanoseconds: the quotient by
/// a million, rounded towards zero.
pub open spec fn whole_millis(nanos: int) -> int {
    if nanos >= 0 {
        nanos / (NANOS_PER_MILLI as int)
    } else {
        -((-nanos) / (NANOS_PER_MILLI as int))
    }
}

/// Signed whole milliseconds from `earlier` to `later`, both in nanoseconds
/// since the epoch; negative when `later` comes first.
pub open spec fn millis_between(earlier: int, later: int) -> int {
    whole_millis(later - earlier)
}

/// The production time that a block stamped `block_timestamp` claims, in
/// nanoseconds since the epoch; `None` where the stamp lies beyond the
/// representable range.
pub open spec fn block_time(block_timestamp: u64) -> Option<int> {
    if block_timestamp <= MAX_TIMESTAMP_SECS {
        Some(epoch_nanos(block_timestamp as int, 0))
    } else {
        None
    }
}

impl UtcInstant {
    /// The instant is one that chrono represents, outside a leap second.
    pub closed spec fn wf(&self) -> bool {
        representable(self.secs as int, self.nanos as int)
    }

    /// The instant `nanos` nanoseconds into second `secs` since the Unix
    /// epoch, if chrono can represent it and `nanos` is less than a second.
    pub fn from_timestamp(secs: i64, nanos: u32) -> (instant: Option<UtcInstant>)
        ensures
            instant is Some <==> representable(secs as int, nanos as int),
            instant matches Some(t) ==> t.wf() && t@ == epoch_nanos(secs as int, nanos as int),
    {
        if nanos >= NANOS_PER_SEC {
            None
        } else {
            chrono_from_timestamp(secs, nanos)
        }
    }

    /// Whole seconds since the Unix epoch.
    pub fn secs(&self) -> (secs: i64)
        requires
            self.wf(),
        ensures
            secs == self@ / (NANOS_PER_SEC as int),
    {
        self.secs
    }

    /// Nanoseconds into the current second.
    pub fn nanos(&self) -> (nanos: u32)
        requires
            self.wf(),
        ensures
            nanos == self@ % (NANOS_PER_SEC as int),
    {
        self.nanos
    }

    /// Signed whole milliseconds from `earlier` to `self`.
    pub fn millis_since(&self, earlier: &UtcInstant) -> (ms: i64)
        requires
            self.wf(),
            earlier.wf(),
        ensures
            ms == millis_between(earlier@, self@),
            i64::MIN < ms,
    {
        chrono_millis_between(earlier, self)
    }

    /// The instant at which a block stamped `block_timestamp` claims to have
    /// been produced: that many whole seconds after the Unix epoch, if chrono
    /// can represent it.
    pub fn from_block_timestamp(block_timestamp: u64) -> (instant: Option<UtcInstant>)
        ensures
            instant is Some <==> block_time(block_timestamp) is Some,
            instant matches Some(t) ==> t.wf() && Some(t@) == block_time(block_timestamp),
    {
        if block_timestamp > i64::MAX as u64 {
            None
        } else {
            chrono_from_timestamp(block_timestamp as i64, 0)
        }
    }
}

/// `chrono::DateTime::<Utc>::from_timestamp`, for a nanosecond count below
/// one second. chrono has a date-time for the second exactly when its day
/// falls in the years -262143 to 262142, which are the seconds from
/// `MIN_TIMESTAMP_SECS` to `MAX_TIMESTAMP_SECS`; the instant handed back is
/// then the one asked for.
#[verifier::external_body]
fn chrono_from_timestamp(secs: i64, nanos: u32) -> (instant: Option<UtcInstant>)
    requires
        nanos < NANOS_PER_SEC,
    ensures
        instant == if MIN_TIMESTAMP_SECS <= secs <= MAX_TIMESTAMP_SECS {
            Some(UtcInstant { secs, nanos })
        } else {
            None::<UtcInstant>
        },
{
    match DateTime::from_timestamp(secs, nanos) {
        Some(_) => Some(UtcInstant { secs, nanos }),
        None => None,
    }
}

/// `chrono::Utc::now`, read back through `DateTime::timestamp` and
/// `DateTime::timestamp_subsec_nanos`. Whatever the clock reads, the result
/// is a date-time that chrono represents, and the system clock gives it less
/// than a second of nanoseconds. chrono does not return where the clock
/// reads a time before the Unix epoch or after the year 262142.
#[verifier::external_body]
pub(crate) fn chrono_now() -> (now: UtcInstant)
    ensures
        now.wf(),
{
    let dt = Utc::now();
    UtcInstant { secs: dt.timestamp(), nanos: dt.timestamp_subsec_nanos() }
}

/// `chrono::DateTime::signed_duration_since` followed by
/// `chrono::TimeDelta::num_milliseconds`, on the date-times that
/// `DateTime::from_timestamp` has for the two instants: the exact span from
/// `earlier` to `later`, cut to whole milliseconds towards zero.
#[verifier::external_body]
fn chrono_millis_between(earlier: &UtcInstant, later: &UtcInstant) -> (ms: i64)
    requires
        earlier.wf(),
        later.wf(),
    ensures
        ms == millis_between(earlier@, later@),
{
    let from = DateTime::from_timestamp(earlier.secs, earlier.nanos).unwrap_or_default();
    let to = DateTime::from_timestamp(later.secs, later.nanos).unwrap_or_default();
    to.signed_duration_since(from).num_milliseconds()
}

} // verus!
