//! Elapsed wall-clock time as whole seconds and nanoseconds.
use vstd::prelude::*;

verus! {

/// A span of time: `secs` seconds and `nanos` nanoseconds.
#[derive(Clone, Copy, Debug, PartialEq, Eq, Structural)]
pub struct Elapsed {
    pub secs: u64,
    pub nanos: u32,
}

impl Elapsed {
    /// The span in nanoseconds.
    pub open spec fn total_nanos(self) -> int {
        self.secs * 1_000_000_000 + self.nanos
    }

    /// A span of `secs` seconds and `nanos` nanoseconds; nanoseconds past a second
    /// carry into the seconds.
    pub fn new(secs: u64, nanos: u32) -> (r: Elapsed)
        requires
            secs + nanos / 1_000_000_000 <= u64::MAX,
        ensures
            r.total_nanos() == secs * 1_000_000_000 + nanos,
            r.nanos < 1_000_000_000,
    {
        let carry: u64 = (nanos / 1_000_000_000) as u64;
        Elapsed { secs: secs + carry, nanos: nanos % 1_000_000_000 }
    }

    /// Whether `self` is strictly longer than `other`.
    pub fn exceeds(&self, other: &Elapsed) -> (r: bool)
        ensures
            r == (self.total_nanos() > other.total_nanos()),
    {
        let a: u128 = (self.secs as u128) * 1_000_000_000 + (self.nanos as u128);
        let b: u128 = (other.secs as u128) * 1_000_000_000 + (other.nanos as u128);
        a > b
    }
}

} // verus!
