use vstd::prelude::*;

verus! {

/// The largest number of ticks a progress value can hold: it stands for 100%.
pub const MAX_PROGRESS_TICKS: u32 = 100_000;

/// How many ticks make up one percent.
pub const TICKS_PER_PERCENT: u32 = MAX_PROGRESS_TICKS / 100;

/// The tick value that a request for `new_progress` ticks leaves behind:
/// requests above the maximum are clamped to it.
pub open spec fn clamp_ticks(new_progress: u32) -> u32 {
    if new_progress > MAX_PROGRESS_TICKS {
        MAX_PROGRESS_TICKS
    } else {
        new_progress
    }
}

/// A progress percentage, kept as ticks from 0 to 100,000,
/// where every 1000 ticks is 1%.
pub struct ProgressCompute {
    ticks: u32,
}

impl View for ProgressCompute {
    type V = u32;

    closed spec fn view(&self) -> u32 {
        self.ticks
    }
}

impl ProgressCompute {
    #[verifier::type_invariant]
    closed spec fn within_bounds(self) -> bool {
        self.ticks <= MAX_PROGRESS_TICKS
    }

    /// A progress value at 0%.
    pub fn new() -> (p: Self)
        ensures
            p@ == 0,
    {
        ProgressCompute { ticks: 0 }
    }

    /// Sets the progress level, in ticks (1000 ticks make 1%).
    /// A value above the maximum is clamped to the maximum.
    pub fn set_progress(&mut self, new_progress: u32)
        ensures
            final(self)@ == clamp_ticks(new_progress),
            new_progress <= 100_000 ==> final(self)@ == new_progress,
            new_progress > 100_000 ==> final(self)@ == 100_000,
    {
        if new_progress > MAX_PROGRESS_TICKS {
            self.ticks = MAX_PROGRESS_TICKS;
        } else {
            self.ticks = new_progress;
        }
    }

    /// Like `set_progress`, but only ever raises the progress.
    pub fn inc_progress(&mut self, new_progress: u32)
        ensures
            final(self)@ == if new_progress > old(self)@ {
                clamp_ticks(new_progress)
            } else {
                old(self)@
            },
            old(self)@ <= final(self)@,
            final(self)@ == if new_progress <= old(self)@ {
                old(self)@
            } else if new_progress <= 100_000 {
                new_progress
            } else {
                100_000
            },
    {
        proof {
            use_type_invariant(&*self);
        }
        if new_progress > self.ticks {
            self.set_progress(new_progress);
        }
    }

    /// The progress in ticks; never more than `MAX_PROGRESS_TICKS`.
    pub fn get_progress(&self) -> (ticks: u32)
        ensures
            ticks == self@,
            ticks <= MAX_PROGRESS_TICKS,
    {
        proof {
            use_type_invariant(self);
        }
        self.ticks
    }
}

impl Default for ProgressCompute {
    fn default() -> (p: Self)
        ensures
            p@ == 0,
    {
        ProgressCompute::new()
    }
}

} // verus!
