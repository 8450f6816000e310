//! Logical clock values.

use vstd::prelude::*;

verus! {

/// Number of low bits of a timestamp that hold the logical counter.
pub const PHYSICAL_SHIFT_BITS: u64 = 18;

/// Number of logical ticks in one unit of physical time.
pub const LOGICAL_RANGE: u64 = 0x4_0000;

/// A timestamp: a physical millisecond count in the high bits and a logical
/// counter in the low bits. Timestamps are ordered by their numeric value.
#[derive(Clone, Copy, Debug, PartialEq, Eq, Structural, PartialOrd, Ord, Hash)]
pub struct TimeStamp(pub u64);

impl TimeStamp {
    /// The physical component of the timestamp.
    pub open spec fn spec_physical(self) -> u64 {
        self.0 / LOGICAL_RANGE
    }

    /// The logical counter of the timestamp.
    pub open spec fn spec_logical(self) -> u64 {
        self.0 % LOGICAL_RANGE
    }

    /// Whether this is timestamp zero.
    pub open spec fn spec_is_zero(self) -> bool {
        self.0 == 0
    }

    /// Whether this is the sentinel that stands for "later than everything".
    pub open spec fn spec_is_max(self) -> bool {
        self.0 == u64::MAX
    }

    pub fn new(ts: u64) -> (res: TimeStamp)
        ensures
            res == TimeStamp(ts),
    {
        TimeStamp(ts)
    }

    pub fn zero() -> (res: TimeStamp)
        ensures
            res == TimeStamp(0),
    {
        TimeStamp(0)
    }

    /// The sentinel timestamp, larger than or equal to every other one.
    pub fn max() -> (res: TimeStamp)
        ensures
            res == TimeStamp(u64::MAX),
            res.spec_is_max(),
    {
        TimeStamp(u64::MAX)
    }

    /// Builds a timestamp from its two components.
    pub fn compose(physical: u64, logical: u64) -> (res: TimeStamp)
        requires
            physical * LOGICAL_RANGE + logical <= u64::MAX,
        ensures
            res.0 == physical * LOGICAL_RANGE + logical,
            logical < LOGICAL_RANGE ==> res.spec_physical() == physical && res.spec_logical()
                == logical,
    {
        assert(physical <= u64::MAX / LOGICAL_RANGE) by (nonlinear_arith)
            requires
                physical * LOGICAL_RANGE + logical <= u64::MAX,
        ;
        assert(physical << 18 == physical * 0x4_0000) by (bit_vector)
            requires
                physical <= 0x3fff_ffff_ffffu64,
        ;
        let high: u64 = physical << PHYSICAL_SHIFT_BITS;
        TimeStamp(high + logical)
    }

    /// The physical component of the timestamp.
    #[verifier::when_used_as_spec(spec_physical)]
    pub fn physical(self) -> (res: u64)
        ensures
            res == self.spec_physical(),
    {
        let ts: u64 = self.0;
        assert(ts >> 18 == ts / 0x4_0000) by (bit_vector);
        ts >> PHYSICAL_SHIFT_BITS
    }

    /// The timestamp one tick later.
    pub fn next(self) -> (res: TimeStamp)
        requires
            !self.is_max(),
        ensures
            res.0 == self.0 + 1,
    {
        TimeStamp(self.0 + 1)
    }

    /// The timestamp one tick earlier.
    pub fn prev(self) -> (res: TimeStamp)
        requires
            self.0 > 0,
        ensures
            res.0 == self.0 - 1,
    {
        TimeStamp(self.0 - 1)
    }

    /// Whether this is timestamp zero.
    #[verifier::when_used_as_spec(spec_is_zero)]
    pub fn is_zero(self) -> (res: bool)
        ensures
            res == self.spec_is_zero(),
    {
        self.0 == 0
    }

    /// Whether this is the sentinel timestamp.
    #[verifier::when_used_as_spec(spec_is_max)]
    pub fn is_max(self) -> (res: bool)
        ensures
            res == self.spec_is_max(),
    {
        self.0 == u64::MAX
    }

    pub fn into_inner(self) -> (res: u64)
        ensures
            res == self.0,
    {
        self.0
    }
}

impl From<u64> for TimeStamp {
    fn from(ts: u64) -> (res: TimeStamp) {
        TimeStamp(ts)
    }
}

impl vstd::std_specs::convert::FromSpecImpl<u64> for TimeStamp {
    open spec fn obeys_from_spec() -> bool {
        true
    }

    open spec fn from_spec(ts: u64) -> TimeStamp {
        TimeStamp(ts)
    }
}

impl Default for TimeStamp {
    fn default() -> (res: TimeStamp)
        ensures
            res == TimeStamp(0),
    {
        TimeStamp(0)
    }
}

} // verus!
