//! The fixed-timestep clock that decouples physics steps from host frames.
use vstd::prelude::*;

verus! {

/// Frame time, in nanoseconds, that has not yet been spent on a physics step.
/// Each host frame adds its duration; every whole fixed step in the total is
/// run, and what is left over carries into the next frame.
#[derive(Debug, Clone, Copy, PartialEq, Eq, Structural)]
pub struct PhysicsTimeAccumulator {
    leftover: u64,
}

impl PhysicsTimeAccumulator {
    pub closed spec fn spec_leftover(&self) -> nat {
        self.leftover as nat
    }

    /// A clock with no time banked.
    pub fn new() -> (r: Self)
        ensures
            r.spec_leftover() == 0,
    {
        PhysicsTimeAccumulator { leftover: 0 }
    }

    /// The time banked but not yet stepped, for extrapolating what is drawn.
    pub fn leftover(&self) -> (r: u64)
        ensures
            r == self.spec_leftover(),
    {
        self.leftover
    }

    /// Banks `elapsed` nanoseconds and returns how many steps of `time_step`
    /// nanoseconds are due. The remainder, always shorter than one step, stays
    /// banked.
    pub fn advance(&mut self, elapsed: u64, time_step: u64) -> (steps: u64)
        requires
            time_step > 0,
            old(self).spec_leftover() + elapsed <= u64::MAX,
        ensures
            steps == (old(self).spec_leftover() + elapsed) / (time_step as int),
            final(self).spec_leftover() == (old(self).spec_leftover() + elapsed) % (
            time_step as int),
            final(self).spec_leftover() < time_step,
    {
        let total: u64 = self.leftover + elapsed;
        self.leftover = total % time_step;
        total / time_step
    }
}

} // verus!
