//! Instants on the UTC timeline, at nanosecond resolution.

use chrono::DateTime;
use vstd::prelude::*;

verus! {

/// Nanoseconds in one second.
pub const NANOS_PER_SEC: u32 = 1_000_000_000;

/// Nanoseconds in one millisecond.
pub const NANOS_PER_MILLI: u32 = 1_000_000;

/// Seconds since the Unix epoch of the earliest instant a [`Timestamp`] can hold:
/// midnight of January 1 in the year -262143.
pub const MIN_SECS: i64 = -8_334_601_228_800;

/// Seconds since the Unix epoch of the last second a [`Timestamp`] can hold:
/// 23:59:59 of December 31 in the year 262142.
pub const MAX_SECS: i64 = 8_210_266_876_799;

/// An instant in UTC: whole non-leap seconds since the Unix epoch and the
/// nanoseconds elapsed within that second.
///
/// Its view is the number of nanoseconds since the epoch.
#[derive(Clone, Copy, Debug, PartialEq, Eq)]
pub struct Timestamp {
    secs: i64,
    nanos: u32,
}

impl View for Timestamp {
    type V = int;

    closed spec fn view(&self) -> int {
        self.secs * (NANOS_PER_SEC as int) + self.nanos
    }
}

/// Whole milliseconds in a span of `nanos` nanoseconds, rounded towards zero.
pub open spec fn whole_millis(nanos: int) -> int {
    if nanos >= 0 {
        nanos / (NANOS_PER_MILLI as int)
    } else {
        -((-nanos) / (NANOS_PER_MILLI as int))
    }
}

/// The views of the instants that a [`Timestamp`] can hold.
pub open spec fn in_range(nanos_since_epoch: int) -> bool {
    MIN_SECS * (NANOS_PER_SEC as int) <= nanos_since_epoch < (MAX_SECS + 1) * (NANOS_PER_SEC as int)
}

impl Timestamp {
    #[verifier::type_invariant]
    spec fn well_formed(self) -> bool {
        MIN_SECS <= self.secs <= MAX_SECS && self.nanos < NANOS_PER_SEC
    }

    /// The instant `secs` seconds and `nanos` nanoseconds after the epoch, when
    /// it lies in the supported range and `nanos` is less than a second.
    pub fn new(secs: i64, nanos: u32) -> (made: Option<Timestamp>)
        ensures
            made is Some <==> MIN_SECS <= secs <= MAX_SECS && nanos < NANOS_PER_SEC,
            made matches Some(t) ==> t@ == secs * (NANOS_PER_SEC as int) + nanos,
    {
        if MIN_SECS <= secs && secs <= MAX_SECS && nanos < NANOS_PER_SEC {
            Some(Timestamp { secs, nanos })
        } else {
            None
        }
    }

    /// Whole seconds since the epoch, rounded towards the past.
    pub fn secs(&self) -> (secs: i64)
        ensures
            secs == self@ / (NANOS_PER_SEC as int),
            in_range(self@),
    {
        proof {
            use_type_invariant(self);
        }
        self.secs
    }

    /// Nanoseconds elapsed within the current second.
    pub fn subsec_nanos(&self) -> (nanos: u32)
        ensures
            nanos == self@ % (NANOS_PER_SEC as int),
    {
        proof {
            use_type_invariant(self);
        }
        self.nanos
    }

    /// Whole milliseconds from this instant to `later`, rounded towards zero;
    /// negative when `later` is the earlier of the two.
    pub fn millis_until(&self, later: &Timestamp) -> (millis: i64)
        ensures
            millis == whole_millis(later@ - self@),
    {
        proof {
            use_type_invariant(self);
            use_type_invariant(later);
        }
        elapsed_millis(self.secs, self.nanos, later.secs, later.nanos)
    }

    /// Whole milliseconds from the epoch to this instant, rounded towards the
    /// past.
    pub fn unix_millis(&self) -> (millis: i64)
        ensures
            millis == self@ / (NANOS_PER_MILLI as int),
    {
        proof {
            use_type_invariant(self);
        }
        millis_since_epoch(self.secs, self.nanos)
    }

    /// The instant `millis` milliseconds after the epoch, when it lies in the
    /// supported range.
    pub fn from_unix_millis(millis: i64) -> (made: Option<Timestamp>)
        ensures
            made is Some <==> in_range(millis * (NANOS_PER_MILLI as int)),
            made matches Some(t) ==> t@ == millis * (NANOS_PER_MILLI as int),
    {
        match parts_of_unix_millis(millis) {
            Some((secs, nanos)) => Some(Timestamp { secs, nanos }),
            None => None,
        }
    }
}

/// Milliseconds from one instant to another, each given by its seconds since
/// the epoch and the nanoseconds within the second; negative when the second
/// instant is the earlier.
///
/// Calls chrono's `DateTime::signed_duration_since` and
/// `TimeDelta::num_milliseconds` on the two instants built with
/// `DateTime::from_timestamp`. That chrono has a date for the seconds, and
/// takes the nanoseconds for a fraction of a plain second and not for a leap
/// second, is asked of the caller. The span is then the plain difference of
/// the two instants, of which `num_milliseconds` drops the fraction of a
/// millisecond towards zero.
#[verifier::external_body]
fn elapsed_millis(start_secs: i64, start_nanos: u32, finish_secs: i64, finish_nanos: u32) -> (millis:
    i64)
    requires
        MIN_SECS <= start_secs <= MAX_SECS,
        start_nanos < NANOS_PER_SEC,
        MIN_SECS <= finish_secs <= MAX_SECS,
        finish_nanos < NANOS_PER_SEC,
    ensures
        millis == whole_millis(
            (finish_secs - start_secs) * (NANOS_PER_SEC as int) + (finish_nanos - start_nanos),
        ),
{
    let start = DateTime::from_timestamp(start_secs, start_nanos).unwrap();
    let finish = DateTime::from_timestamp(finish_secs, finish_nanos).unwrap();
    finish.signed_duration_since(start).num_milliseconds()
}

/// Whole milliseconds from the epoch to the instant `secs` seconds and
/// `nanos` nanoseconds after it.
///
/// Calls chrono's `DateTime::timestamp_millis` on the instant built with
/// `DateTime::from_timestamp`: a thousand times the seconds plus the whole
/// milliseconds within the second.
#[verifier::external_body]
fn millis_since_epoch(secs: i64, nanos: u32) -> (millis: i64)
    requires
        MIN_SECS <= secs <= MAX_SECS,
        nanos < NANOS_PER_SEC,
    ensures
        millis == secs * 1000 + nanos / NANOS_PER_MILLI,
{
    DateTime::from_timestamp(secs, nanos).unwrap().timestamp_millis()
}

/// The seconds since the epoch, and the nanoseconds within the second, of
/// the instant `millis` milliseconds after the epoch.
///
/// Calls chrono's `DateTime::from_timestamp_millis`, which has no answer
/// exactly when the seconds lie outside the range of its dates, and reads the
/// answer with `DateTime::timestamp` and `DateTime::timestamp_subsec_nanos`.
/// The seconds are the milliseconds divided by a thousand and rounded towards
/// the past; the rest of the division, in nanoseconds, goes with them.
#[verifier::external_body]
fn parts_of_unix_millis(millis: i64) -> (parts: Option<(i64, u32)>)
    ensures
        parts is Some <==> MIN_SECS * 1000 <= millis < (MAX_SECS + 1) * 1000,
        parts matches Some((secs, nanos)) ==> secs == millis / 1000 && nanos == (millis % 1000)
            * NANOS_PER_MILLI,
{
    match DateTime::from_timestamp_millis(millis) {
        Some(at) => Some((at.timestamp(), at.timestamp_subsec_nanos())),
        None => None,
    }
}

} // verus!
