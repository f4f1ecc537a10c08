//! The cycle clock: the time every task of a cycle reads.

use vstd::prelude::*;

verus! {

/// The authoritative time of the current cycle, in nanoseconds. The driver
/// sets it once per tick, before any task runs; the tasks only read it.
#[derive(Clone, Copy, Debug, PartialEq, Eq, Structural)]
pub struct CycleClock {
    now_ns: u64,
}

impl CycleClock {
    /// The time the clock shows.
    pub closed spec fn now(&self) -> u64 {
        self.now_ns
    }

    /// A clock that shows zero.
    pub fn new() -> (r: CycleClock)
        ensures
            r.now() == 0,
    {
        CycleClock { now_ns: 0 }
    }

    /// Overwrites the time with that of the tick source.
    pub fn set_time(&mut self, ns: u64)
        ensures
            final(self).now() == ns,
    {
        self.now_ns = ns;
    }

    /// Reads the time.
    pub fn get_time(&self) -> (r: u64)
        ensures
            r == self.now(),
    {
        self.now_ns
    }
}

} // verus!
