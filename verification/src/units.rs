//! Monetary and temporal primitives with exact integral semantics.

use vstd::prelude::*;

verus! {

/// A currency amount, held as a signed 64-bit count of the ledger's smallest
/// sub-unit. The count is exact: no implicit scaling ever happens.
#[derive(Debug, Clone, Copy, PartialEq, Eq, Structural)]
pub struct Hbar {
    pub tinybars: i64,
}

impl Hbar {
    /// Wraps a raw count of currency sub-units.
    pub fn from_tinybars(tinybars: i64) -> (r: Self)
        ensures
            r.tinybars == tinybars,
    {
        Hbar { tinybars }
    }

    /// Returns the exact sub-unit count.
    pub fn to_tinybars(&self) -> (r: i64)
        ensures
            r == self.tinybars,
    {
        self.tinybars
    }
}

/// A time interval, held as signed whole seconds.
#[derive(Debug, Clone, Copy, PartialEq, Eq, Structural)]
pub struct Duration {
    pub seconds: i64,
}

/// Seconds in one day.
pub const SECONDS_PER_DAY: i64 = 86400;

impl Duration {
    /// An interval of the given number of seconds.
    pub fn new(seconds: i64) -> (r: Self)
        ensures
            r.seconds == seconds,
    {
        Duration { seconds }
    }

    /// An interval of the given number of whole days.
    pub fn days(days: i64) -> (r: Self)
        requires
            -106751991167300 <= days <= 106751991167300,
        ensures
            r.seconds == days * 86400,
    {
        Duration { seconds: days * SECONDS_PER_DAY }
    }
}

/// A point in time, held as signed nanoseconds since the Unix epoch.
/// It round-trips losslessly through both the wire and the document formats
/// within the 64-bit range.
#[derive(Debug, Clone, Copy, PartialEq, Eq, Structural)]
pub struct Timestamp {
    pub unix_nanos: i64,
}

impl Timestamp {
    /// The instant the given number of nanoseconds after the Unix epoch.
    pub fn from_unix_timestamp_nanos(unix_nanos: i64) -> (r: Self)
        ensures
            r.unix_nanos == unix_nanos,
    {
        Timestamp { unix_nanos }
    }
}

} // verus!
