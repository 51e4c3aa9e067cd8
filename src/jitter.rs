//! A value resampled from a fixed set of candidates at a fixed interval, to
//! emulate instrument noise.
use vstd::prelude::*;

use crate::units::add_ms_spec;
use crate::units::add_ms;

verus! {

/// Resamples its value from `candidates` each time `interval_ms` has
/// accumulated.
pub struct JitterSampler {
    pub interval_ms: u64,
    pub candidates: Vec<u64>,
    /// Time accumulated since the last resample.
    pub elapsed_ms: u64,
    /// Index of the current value in `candidates`.
    pub selected: usize,
}

impl JitterSampler {
    pub open spec fn wf(&self) -> bool {
        self.candidates@.len() > 0 && self.selected < self.candidates@.len()
    }

    /// The currently selected value.
    pub open spec fn value(&self) -> u64 {
        self.candidates@[self.selected as int]
    }

    /// Index of the value after an update of `elapsed_ms` with `draw`.
    pub open spec fn stepped_selected(&self, elapsed_ms: u64, draw: u64) -> usize {
        if add_ms_spec(self.elapsed_ms, elapsed_ms) >= self.interval_ms {
            (draw % (self.candidates@.len() as u64)) as usize
        } else {
            self.selected
        }
    }

    /// Accumulated time after an update of `elapsed_ms`: restarted by a
    /// resample, grown otherwise.
    pub open spec fn stepped_elapsed(&self, elapsed_ms: u64) -> u64 {
        if add_ms_spec(self.elapsed_ms, elapsed_ms) >= self.interval_ms {
            0
        } else {
            add_ms_spec(self.elapsed_ms, elapsed_ms)
        }
    }

    /// A sampler over the given candidates; until the first resample its value
    /// is the first candidate.
    pub fn new(interval_ms: u64, candidates: Vec<u64>) -> (r: JitterSampler)
        requires
            candidates@.len() > 0,
        ensures
            r.wf(),
            r.interval_ms == interval_ms,
            r.candidates@ == candidates@,
            r.elapsed_ms == 0,
            r.selected == 0,
            r.value() == candidates@[0],
    {
        JitterSampler { interval_ms, candidates, elapsed_ms: 0, selected: 0 }
    }

    /// Accumulates `elapsed_ms`; once the accumulated time reaches the
    /// interval, selects the candidate at `draw` modulo the number of
    /// candidates (a uniformly drawn number gives a uniform choice) and
    /// restarts the accumulation. At most one resample happens per call.
    pub fn update(&mut self, elapsed_ms: u64, draw: u64)
        requires
            old(self).wf(),
        ensures
            final(self).wf(),
            final(self).interval_ms == old(self).interval_ms,
            final(self).candidates@ == old(self).candidates@,
            final(self).selected == old(self).stepped_selected(elapsed_ms, draw),
            final(self).elapsed_ms == old(self).stepped_elapsed(elapsed_ms),
            add_ms_spec(old(self).elapsed_ms, elapsed_ms) >= old(self).interval_ms ==> {
                &&& final(self).selected == draw % (old(self).candidates@.len() as u64)
                &&& final(self).elapsed_ms == 0
            },
            add_ms_spec(old(self).elapsed_ms, elapsed_ms) < old(self).interval_ms ==> {
                &&& final(self).selected == old(self).selected
                &&& final(self).elapsed_ms == add_ms_spec(old(self).elapsed_ms, elapsed_ms)
            },
    {
        let accumulated = add_ms(self.elapsed_ms, elapsed_ms);
        if accumulated >= self.interval_ms {
            let len = self.candidates.len();
            self.selected = (draw % (len as u64)) as usize;
            self.elapsed_ms = 0;
        } else {
            self.elapsed_ms = accumulated;
        }
    }

    /// The currently selected value; no side effect.
    pub fn current_value(&self) -> (r: u64)
        requires
            self.wf(),
        ensures
            r == self.value(),
    {
        self.candidates[self.selected]
    }
}

} // verus!
