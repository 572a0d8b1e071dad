use vstd::prelude::*;

verus! {

/// A duration as it crosses the capability boundary: whole seconds plus
/// a sub-second component in nanoseconds.
#[derive(Clone, Copy, PartialEq, Eq, Structural, Debug)]
pub struct Duration {
    pub secs: u64,
    pub nanos: u32,
}

impl Duration {
    /// A duration is normalized when the sub-second part is below one
    /// second.
    pub open spec fn wf(self) -> bool {
        self.nanos < 1_000_000_000
    }

    pub fn from_secs(secs: u64) -> (r: Duration)
        ensures
            r == (Duration { secs, nanos: 0u32 }),
            r.wf(),
    {
        Duration { secs, nanos: 0 }
    }

    pub fn new(secs: u64, nanos: u32) -> (r: Duration)
        requires
            nanos < 1_000_000_000,
        ensures
            r == (Duration { secs, nanos }),
            r.wf(),
    {
        Duration { secs, nanos }
    }
}

} // verus!
