//! Time intervals, as whole seconds plus a sub-second part in nanoseconds.
use vstd::prelude::*;

verus! {

/// Nanoseconds in one second.
pub const NANOS_PER_SEC: u32 = 1_000_000_000;

/// Nanoseconds in one millisecond.
pub const NANOS_PER_MILLI: u32 = 1_000_000;

/// Milliseconds in one second.
pub const MILLIS_PER_SEC: u64 = 1_000;

/// A non-negative time interval.
///
/// Intervals are ordered lexicographically: by seconds first, then by the
/// sub-second part.
#[derive(Clone, Copy, Debug, PartialEq, Eq, PartialOrd, Ord, Hash, Structural)]
pub struct Duration {
    /// Whole seconds.
    pub secs: u64,
    /// The part below one second, in nanoseconds.
    pub nanos: u32,
}

impl Duration {
    /// The sub-second part is below one second.
    pub open spec fn is_normal(self) -> bool {
        self.nanos < NANOS_PER_SEC
    }

    /// The interval in nanoseconds.
    pub open spec fn total_nanos(self) -> nat {
        (self.secs as nat) * (NANOS_PER_SEC as nat) + (self.nanos as nat)
    }

    /// `self` is no longer than `other`, lexicographically.
    pub open spec fn le_spec(self, other: Duration) -> bool {
        self.secs < other.secs || (self.secs == other.secs && self.nanos <= other.nanos)
    }

    /// An interval of `secs` seconds and `nanos` nanoseconds, with the
    /// nanoseconds above one second carried into the seconds. `None` if the
    /// seconds do not fit.
    pub fn new(secs: u64, nanos: u32) -> (r: Option<Duration>)
        ensures
            r is Some <==> secs + nanos / NANOS_PER_SEC <= u64::MAX,
            r matches Some(d) ==> {
                &&& d.is_normal()
                &&& d.secs == secs + nanos / NANOS_PER_SEC
                &&& d.nanos == nanos % NANOS_PER_SEC
                &&& d.total_nanos() == secs * NANOS_PER_SEC + nanos
            },
    {
        let carry: u64 = (nanos / NANOS_PER_SEC) as u64;
        if secs > u64::MAX - carry {
            None
        } else {
            Some(Duration { secs: secs + carry, nanos: nanos % NANOS_PER_SEC })
        }
    }

    /// An interval of whole seconds.
    pub fn from_secs(secs: u64) -> (d: Duration)
        ensures
            d == (Duration { secs, nanos: 0 }),
            d.is_normal(),
    {
        Duration { secs, nanos: 0 }
    }

    /// An interval of whole milliseconds.
    pub fn from_millis(millis: u64) -> (d: Duration)
        ensures
            d.is_normal(),
            d.secs == millis / MILLIS_PER_SEC,
            d.nanos == (millis % MILLIS_PER_SEC) * NANOS_PER_MILLI,
            d.total_nanos() == millis * NANOS_PER_MILLI,
    {
        let sub: u32 = (millis % MILLIS_PER_SEC) as u32;
        assert(millis == (millis / MILLIS_PER_SEC) * MILLIS_PER_SEC + millis % MILLIS_PER_SEC)
            by (nonlinear_arith);
        Duration { secs: millis / MILLIS_PER_SEC, nanos: sub * NANOS_PER_MILLI }
    }

    /// An interval of whole nanoseconds.
    pub fn from_nanos(nanos: u64) -> (d: Duration)
        ensures
            d.is_normal(),
            d.secs == nanos / (NANOS_PER_SEC as u64),
            d.nanos == nanos % (NANOS_PER_SEC as u64),
            d.total_nanos() == nanos,
    {
        let per: u64 = NANOS_PER_SEC as u64;
        assert(nanos == (nanos / per) * per + nanos % per) by (nonlinear_arith)
            requires
                per > 0,
        ;
        Duration { secs: nanos / per, nanos: (nanos % per) as u32 }
    }

    /// Whole seconds of the interval.
    pub fn as_secs(&self) -> (r: u64)
        ensures
            r == self.secs,
    {
        self.secs
    }

    /// The part of the interval below one second, in nanoseconds.
    pub fn subsec_nanos(&self) -> (r: u32)
        ensures
            r == self.nanos,
    {
        self.nanos
    }

    /// The interval in nanoseconds.
    pub fn as_nanos(&self) -> (r: u128)
        ensures
            r == self.total_nanos(),
    {
        assert(self.secs * NANOS_PER_SEC <= u64::MAX * NANOS_PER_SEC) by (nonlinear_arith);
        (self.secs as u128) * (NANOS_PER_SEC as u128) + (self.nanos as u128)
    }

    /// Compares two intervals.
    pub fn le(&self, other: &Duration) -> (r: bool)
        ensures
            r == self.le_spec(*other),
    {
        self.secs < other.secs || (self.secs == other.secs && self.nanos <= other.nanos)
    }
}

/// The lexicographic order on intervals is a total order.
pub proof fn lemma_duration_total_order(a: Duration, b: Duration, c: Duration)
    ensures
        a.le_spec(a),
        a.le_spec(b) && b.le_spec(a) ==> a == b,
        a.le_spec(b) && b.le_spec(c) ==> a.le_spec(c),
        a.le_spec(b) || b.le_spec(a),
{
}

/// On intervals whose sub-second part is below one second, the lexicographic
/// order is the order of their lengths.
pub proof fn lemma_duration_order_is_length_order(a: Duration, b: Duration)
    requires
        a.is_normal(),
        b.is_normal(),
    ensures
        a.le_spec(b) <==> a.total_nanos() <= b.total_nanos(),
{
    let per = NANOS_PER_SEC as int;
    if a.secs < b.secs {
        assert((a.secs + 1) * per <= b.secs * per) by (nonlinear_arith)
            requires
                a.secs + 1 <= b.secs,
                per > 0,
        ;
    } else if b.secs < a.secs {
        assert((b.secs + 1) * per <= a.secs * per) by (nonlinear_arith)
            requires
                b.secs + 1 <= a.secs,
                per > 0,
        ;
    }
}

} // verus!
