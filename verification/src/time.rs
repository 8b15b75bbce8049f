//! Instants on the wall clock, as whole nanoseconds relative to the Unix epoch.

use std::time::{SystemTime, UNIX_EPOCH};
use vstd::prelude::*;

verus! {

/// Nanoseconds in one second.
pub const NANOS_PER_SEC: i128 = 1_000_000_000;

/// The largest distance from the epoch, in nanoseconds, that a reading of the
/// system clock can have: `u64::MAX` seconds and `u32::MAX` nanoseconds.
pub open spec fn clock_limit() -> int {
    u64::MAX * NANOS_PER_SEC + u32::MAX
}

/// An instant on the wall clock.
///
/// Its view is the number of nanoseconds since the Unix epoch, negative for an
/// instant before it.
#[derive(Clone, Copy, Debug, PartialEq, Eq, PartialOrd, Ord, Hash)]
pub struct Timestamp {
    nanos: i128,
}

impl View for Timestamp {
    type V = int;

    closed spec fn view(&self) -> int {
        self.nanos as int
    }
}

impl Timestamp {
    /// Whether the instant lies where a reading of the system clock can lie.
    pub open spec fn in_clock_range(&self) -> bool {
        -clock_limit() <= self@ <= clock_limit()
    }

    /// The instant `nanos` nanoseconds after the epoch (before it, if negative).
    pub fn from_nanos(nanos: i128) -> (t: Timestamp)
        ensures
            t@ == nanos,
    {
        Timestamp { nanos }
    }

    /// Nanoseconds since the epoch.
    pub fn as_nanos(&self) -> (n: i128)
        ensures
            n == self@,
    {
        self.nanos
    }

    /// The instant `secs` seconds and `subsec_nanos` nanoseconds after the epoch.
    pub fn after_epoch(secs: u64, subsec_nanos: u32) -> (t: Timestamp)
        ensures
            t@ == secs * NANOS_PER_SEC + subsec_nanos,
            t.in_clock_range(),
    {
        let whole: i128 = (secs as i128) * NANOS_PER_SEC;
        Timestamp { nanos: whole + (subsec_nanos as i128) }
    }

    /// The instant `secs` seconds and `subsec_nanos` nanoseconds before the epoch.
    pub fn before_epoch(secs: u64, subsec_nanos: u32) -> (t: Timestamp)
        ensures
            t@ == -(secs * NANOS_PER_SEC + subsec_nanos),
            t.in_clock_range(),
    {
        let whole: i128 = (secs as i128) * NANOS_PER_SEC;
        Timestamp { nanos: -(whole + (subsec_nanos as i128)) }
    }

    /// The instant a reading of the clock stands for.
    pub fn from_reading(reading: ClockReading) -> (t: Timestamp)
        ensures
            t@ == reading@,
            t.in_clock_range(),
    {
        if reading.before_epoch {
            Timestamp::before_epoch(reading.secs, reading.subsec_nanos)
        } else {
            Timestamp::after_epoch(reading.secs, reading.subsec_nanos)
        }
    }

    /// The present instant, as the system clock has it.
    ///
    /// The clock decides which instant that is; whatever it reads lies in the
    /// clock's range.
    pub fn now() -> (t: Timestamp)
        ensures
            t.in_clock_range(),
    {
        Timestamp::from_reading(read_clock())
    }

    /// The instant `secs` seconds after this one.
    pub fn plus_secs(&self, secs: u64) -> (t: Timestamp)
        requires
            self@ + secs * NANOS_PER_SEC <= i128::MAX,
        ensures
            t@ == self@ + secs * NANOS_PER_SEC,
    {
        let span: i128 = (secs as i128) * NANOS_PER_SEC;
        Timestamp { nanos: self.nanos + span }
    }

    /// Whether this instant is at most `secs` seconds after `other`:
    /// `self - other <= secs`, computed without overflow for any two instants.
    pub fn at_most_secs_after(&self, other: &Timestamp, secs: u32) -> (b: bool)
        ensures
            b == (self@ - other@ <= secs * NANOS_PER_SEC),
    {
        let span: i128 = (secs as i128) * NANOS_PER_SEC;
        if other.nanos > i128::MAX - span {
            true
        } else {
            self.nanos <= other.nanos + span
        }
    }

    /// Whether this instant is less than `secs` seconds after `other`:
    /// `self - other < secs`, computed without overflow for any two instants.
    pub fn within_secs_after(&self, other: &Timestamp, secs: u32) -> (b: bool)
        ensures
            b == (self@ - other@ < secs * NANOS_PER_SEC),
    {
        let span: i128 = (secs as i128) * NANOS_PER_SEC;
        if other.nanos > i128::MAX - span {
            true
        } else {
            self.nanos < other.nanos + span
        }
    }
}

/// One reading of the system clock: how far from the Unix epoch it stands, and
/// on which side.
#[derive(Clone, Copy, Debug, PartialEq, Eq)]
pub struct ClockReading {
    /// Whether the clock stands before the epoch.
    pub before_epoch: bool,
    /// Whole seconds between the clock and the epoch.
    pub secs: u64,
    /// The rest of that distance, in nanoseconds.
    pub subsec_nanos: u32,
}

impl View for ClockReading {
    type V = int;

    /// Nanoseconds since the epoch, negative before it.
    open spec fn view(&self) -> int {
        if self.before_epoch {
            -(self.secs * NANOS_PER_SEC + self.subsec_nanos)
        } else {
            self.secs * NANOS_PER_SEC + self.subsec_nanos
        }
    }
}

/// Reads the system clock with `SystemTime::now` and hands on its distance
/// from `UNIX_EPOCH` as plain integers. Nothing is claimed of the reading: it
/// is whatever the clock says.
#[verifier::external_body]
fn read_clock() -> (reading: ClockReading) {
    match SystemTime::now().duration_since(UNIX_EPOCH) {
        Ok(since) => ClockReading {
            before_epoch: false,
            secs: since.as_secs(),
            subsec_nanos: since.subsec_nanos(),
        },
        Err(until) => ClockReading {
            before_epoch: true,
            secs: until.duration().as_secs(),
            subsec_nanos: until.duration().subsec_nanos(),
        },
    }
}

} // verus!
