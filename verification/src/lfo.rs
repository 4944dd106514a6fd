//! Low-frequency oscillator phase tracking in the sample-count domain.
//!
//! The LFO's triangle wave is evaluated from its phase by the signal
//! path outside the library; here the phase is advanced one block at a
//! time, with the delay and the wrap-around proved exact.

use vstd::prelude::*;
use crate::envelope::spec_sat_add;

verus! {

/// The phase of an LFO after one block step.
#[derive(Clone, Copy, Debug, PartialEq, Eq, Structural)]
pub struct LfoPhase {
    /// Whether the oscillator runs at all.
    pub active: bool,
    /// Whether the delay has not yet elapsed, so the output is zero.
    pub in_delay: bool,
    /// Samples into the current period, always below `period`.
    pub phase_offset: u64,
    /// The period in samples.
    pub period: u64,
}

/// A low-frequency oscillator's timing state. An LFO whose frequency
/// is too low to matter is inactive from construction and never
/// advances.
#[derive(Clone, Copy, Debug)]
pub struct Lfo {
    /// Whether the oscillator runs at all.
    pub active: bool,
    /// Samples to wait before the wave starts.
    pub delay: u64,
    /// The period in samples.
    pub period: u64,
    /// Samples advanced per `process` call.
    pub block_size: usize,
    /// Samples processed so far.
    pub processed_sample_count: u64,
}

impl Lfo {
    /// An active LFO has a positive period.
    pub open spec fn wf(&self) -> bool {
        self.active ==> self.period >= 1
    }

    /// Build an LFO from its delay and period in samples. An
    /// inactive LFO ignores both.
    pub fn new(block_size: usize, delay: u64, period: u64, active: bool) -> (r: Self)
        requires
            active ==> period >= 1,
        ensures
            r.wf(),
            r.active == active,
            r.block_size == block_size,
            r.processed_sample_count == 0,
            active ==> r.delay == delay && r.period == period,
    {
        if active {
            Lfo { active: true, delay, period, block_size, processed_sample_count: 0 }
        } else {
            Lfo { active: false, delay: 0, period: 1, block_size, processed_sample_count: 0 }
        }
    }

    /// Advance one block and report the phase. An inactive LFO does
    /// not advance.
    pub fn process(&mut self) -> (p: LfoPhase)
        requires
            old(self).wf(),
        ensures
            final(self).wf(),
            final(self).active == old(self).active,
            final(self).delay == old(self).delay,
            final(self).period == old(self).period,
            final(self).block_size == old(self).block_size,
            p.active == old(self).active,
            !old(self).active ==> *final(self) == *old(self),
            old(self).active ==> {
                &&& final(self).processed_sample_count == spec_sat_add(
                    old(self).processed_sample_count as int,
                    old(self).block_size as int,
                )
                &&& p.period == old(self).period
                &&& p.in_delay == (final(self).processed_sample_count < old(self).delay)
                &&& (!p.in_delay ==> p.phase_offset == (final(self).processed_sample_count - old(
                    self,
                ).delay) % (old(self).period as int))
                &&& p.phase_offset < p.period
            },
    {
        if !self.active {
            return LfoPhase { active: false, in_delay: true, phase_offset: 0, period: 1 };
        }
        self.processed_sample_count = self.processed_sample_count.saturating_add(
            self.block_size as u64,
        );
        if self.processed_sample_count < self.delay {
            LfoPhase { active: true, in_delay: true, phase_offset: 0, period: self.period }
        } else {
            let phase_offset = (self.processed_sample_count - self.delay) % self.period;
            LfoPhase { active: true, in_delay: false, phase_offset, period: self.period }
        }
    }
}

} // verus!
