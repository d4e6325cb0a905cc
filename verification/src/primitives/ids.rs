//! Newtype identifiers of the protocol.
//!
//! Each wraps one integer, so that an epoch cannot be passed where a commit
//! sequence is expected.

use vstd::prelude::*;

use crate::primitives::text::{decimal, decimal_text};

verus! {

/// Zero-based position of a validator in the current committee.
#[derive(Debug, Clone, Copy, PartialEq, Eq, Structural, Hash, PartialOrd, Ord)]
pub struct ValidatorIndex(pub u32);

/// Epoch counter, starting from zero at genesis.
#[derive(Debug, Clone, Copy, PartialEq, Eq, Structural, Hash, PartialOrd, Ord)]
pub struct EpochNumber(pub u64);

/// Round counter of the DAG, monotone within an epoch.
#[derive(Debug, Clone, Copy, PartialEq, Eq, Structural, Hash, PartialOrd, Ord)]
pub struct RoundNumber(pub u64);

/// Execution shard identifier, zero-based.
#[derive(Debug, Clone, Copy, PartialEq, Eq, Structural, Hash)]
pub struct ShardId(pub u16);

/// Globally unique, strictly increasing commit counter.
#[derive(Debug, Clone, Copy, PartialEq, Eq, Structural, Hash, PartialOrd, Ord)]
pub struct CommitSequence(pub u64);

/// Milliseconds since the Unix epoch.
#[derive(Debug, Clone, Copy, PartialEq, Eq, Structural, Hash, PartialOrd, Ord)]
pub struct TimestampMs(pub u64);

impl ValidatorIndex {
    /// The index in decimal notation.
    pub fn to_string(&self) -> (r: String)
        ensures
            r@ == decimal(self.0 as nat),
    {
        decimal_text(self.0 as u64)
    }
}

impl EpochNumber {
    /// The epoch in decimal notation.
    pub fn to_string(&self) -> (r: String)
        ensures
            r@ == decimal(self.0 as nat),
    {
        decimal_text(self.0)
    }
}

impl RoundNumber {
    /// The round in decimal notation.
    pub fn to_string(&self) -> (r: String)
        ensures
            r@ == decimal(self.0 as nat),
    {
        decimal_text(self.0)
    }
}

impl ShardId {
    /// The shard in decimal notation.
    pub fn to_string(&self) -> (r: String)
        ensures
            r@ == decimal(self.0 as nat),
    {
        decimal_text(self.0 as u64)
    }
}

impl CommitSequence {
    /// The sequence number in decimal notation.
    pub fn to_string(&self) -> (r: String)
        ensures
            r@ == decimal(self.0 as nat),
    {
        decimal_text(self.0)
    }
}

/// `SystemTime::elapsed` of the Unix epoch, in milliseconds: how long ago it
/// was, or `None` where the clock stands before it. The reading depends on the
/// machine's clock, so nothing is stated of it.
#[verifier::external_body]
fn unix_millis() -> Option<u128> {
    match std::time::UNIX_EPOCH.elapsed() {
        Ok(elapsed) => Some(elapsed.as_millis()),
        Err(_) => None,
    }
}

/// Whether a reading of the clock gave `reading`: the milliseconds since the
/// Unix epoch, or nothing where the clock stands before it.
pub closed spec fn clock_gave(reading: Option<u128>) -> bool {
    call_ensures(unix_millis, (), reading)
}

/// A millisecond count, or the largest timestamp where it is beyond that.
pub open spec fn capped_millis(millis: u128) -> int {
    if millis <= u64::MAX {
        millis as int
    } else {
        u64::MAX as int
    }
}

/// A millisecond count as a timestamp; counts beyond the range of the
/// timestamp become its largest value.
pub fn timestamp_from_millis(millis: u128) -> (r: TimestampMs)
    ensures
        r.0 == capped_millis(millis),
{
    if millis <= u64::MAX as u128 {
        TimestampMs(millis as u64)
    } else {
        TimestampMs(u64::MAX)
    }
}

impl TimestampMs {
    /// Whether this is the time that a reading of the clock gave, or zero
    /// where the clock stood before the Unix epoch.
    pub open spec fn is_clock_reading(self) -> bool {
        exists|reading: Option<u128>| #[trigger]
            clock_gave(reading) && self.0 == match reading {
                Some(millis) => capped_millis(millis),
                None => 0,
            }
    }

    /// The current wall-clock time, or zero if the clock stands before the
    /// Unix epoch. Any value may come out: it is the clock's.
    pub fn now() -> (r: Self)
        ensures
            r.is_clock_reading(),
    {
        let reading = unix_millis();
        assert(clock_gave(reading));
        match reading {
            Some(millis) => timestamp_from_millis(millis),
            None => TimestampMs(0),
        }
    }

    /// The timestamp in decimal notation.
    pub fn to_string(&self) -> (r: String)
        ensures
            r@ == decimal(self.0 as nat),
    {
        decimal_text(self.0)
    }
}

} // verus!
