use vstd::prelude::*;

use crate::constants::{EASY_MODE_FIXED_TIMESTEP_MS, HARD_MODE_FIXED_TIMESTEP_MS, NORMAL_MODE_FIXED_TIMESTEP_MS};
use crate::data::Difficulty;

verus! {

pub open spec fn timestep_of(d: Difficulty) -> u64 {
    match d {
        Difficulty::Easy => EASY_MODE_FIXED_TIMESTEP_MS,
        Difficulty::Normal => NORMAL_MODE_FIXED_TIMESTEP_MS,
        Difficulty::Hard => HARD_MODE_FIXED_TIMESTEP_MS,
    }
}

/// The tick interval of a difficulty preset, in milliseconds; a larger
/// interval is a slower game.
pub fn difficulty_timestep_ms(d: Difficulty) -> (r: u64)
    ensures
        r == timestep_of(d),
        r > 0,
{
    match d {
        Difficulty::Easy => EASY_MODE_FIXED_TIMESTEP_MS,
        Difficulty::Normal => NORMAL_MODE_FIXED_TIMESTEP_MS,
        Difficulty::Hard => HARD_MODE_FIXED_TIMESTEP_MS,
    }
}

/// A fixed-timestep clock: real time flows in, whole ticks come out, and the
/// remainder below one interval is carried to the next call.
pub struct FixedTimestep {
    pub timestep_ms: u64,
    pub overstep_ms: u64,
}

impl FixedTimestep {
    pub open spec fn wf(&self) -> bool {
        0 < self.timestep_ms && self.overstep_ms < self.timestep_ms
    }

    /// A clock with interval `timestep_ms` and nothing carried over.
    pub fn new(timestep_ms: u64) -> (r: FixedTimestep)
        requires
            timestep_ms > 0,
        ensures
            r.timestep_ms == timestep_ms,
            r.overstep_ms == 0,
            r.wf(),
    {
        FixedTimestep { timestep_ms, overstep_ms: 0 }
    }

    /// Lets `elapsed_ms` of real time pass and returns how many ticks are now
    /// due: every whole interval in the carried time plus `elapsed_ms`, so at
    /// most one tick per elapsed interval, whatever the frame rate.
    pub fn advance(&mut self, elapsed_ms: u64) -> (ticks: u64)
        requires
            old(self).wf(),
        ensures
            final(self).wf(),
            final(self).timestep_ms == old(self).timestep_ms,
            ticks * old(self).timestep_ms + final(self).overstep_ms == old(self).overstep_ms + elapsed_ms,
    {
        let ts = self.timestep_ms;
        let ov = self.overstep_ms;
        let n = elapsed_ms / ts;
        let r = elapsed_ms % ts;
        proof {
            vstd::arithmetic::div_mod::lemma_fundamental_div_mod(elapsed_ms as int, ts as int);
        }
        if r >= ts - ov {
            proof {
                if ts == 1 {
                    assert(r == 0);
                } else {
                    assert(n * 2 <= elapsed_ms) by (nonlinear_arith)
                        requires
                            ts >= 2,
                            elapsed_ms == ts * n + r,
                            r >= 0,
                            n >= 0,
                    ;
                }
            }
            self.overstep_ms = r - (ts - ov);
            proof {
                assert((n + 1) * ts == n * ts + ts) by (nonlinear_arith);
            }
            n + 1
        } else {
            self.overstep_ms = ov + r;
            n
        }
    }
}

} // verus!
