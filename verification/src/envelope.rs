//! Envelope stage scheduling in the sample-count domain.
//!
//! An envelope walks through Delay, Attack, Hold and Decay as its
//! sample counter passes the stage boundaries, and enters Release only
//! when asked. The stage also yields the voice-stealing priority rank.
//! Stage boundaries are given in samples; the amplitude curve evaluated
//! over these stages is floating-point work and lives outside the
//! library.

use vstd::prelude::*;

verus! {

/// The saturating sum of two sample counters.
pub open spec fn spec_sat_add(a: int, b: int) -> int {
    if a + b > u64::MAX {
        u64::MAX as int
    } else {
        a + b
    }
}

/// The stage an envelope is in. `Release` records the sample count at
/// which the release began.
#[derive(Clone, Copy, Debug, PartialEq, Eq, Structural)]
pub enum EnvelopeStage {
    Delay,
    Attack,
    Hold,
    Decay,
    Release { start: u64 },
}

impl EnvelopeStage {
    /// The release stage beginning at the given sample count.
    pub fn release(processed_sample_count: u64) -> (r: Self)
        ensures
            r == (EnvelopeStage::Release { start: processed_sample_count }),
    {
        EnvelopeStage::Release { start: processed_sample_count }
    }

    /// The stealing priority rank of the stage: later stages matter
    /// less.
    pub open spec fn spec_rank(self) -> u8 {
        match self {
            EnvelopeStage::Delay => 5,
            EnvelopeStage::Attack => 4,
            EnvelopeStage::Hold => 3,
            EnvelopeStage::Decay => 2,
            EnvelopeStage::Release { .. } => 1,
        }
    }
}

/// The stage a timed envelope is in at a given sample count, before
/// any release.
pub open spec fn spec_stage_at(
    attack_start: int,
    hold_start: int,
    decay_start: int,
    count: int,
) -> EnvelopeStage {
    if count < attack_start {
        EnvelopeStage::Delay
    } else if count < hold_start {
        EnvelopeStage::Attack
    } else if count < decay_start {
        EnvelopeStage::Hold
    } else {
        EnvelopeStage::Decay
    }
}

/// The volume envelope's stage scheduler. Stage boundaries are sample
/// counts measured from the note's start.
#[derive(Clone, Copy, Debug)]
pub struct VolumeEnvelope {
    /// When Delay ends and Attack begins.
    pub attack_start: u64,
    /// When Attack ends and Hold begins.
    pub hold_start: u64,
    /// When Hold ends and Decay begins.
    pub decay_start: u64,
    /// Samples processed so far.
    pub processed_sample_count: u64,
    /// The current stage.
    pub stage: EnvelopeStage,
}

impl VolumeEnvelope {
    /// The stage boundaries are ordered, and the stage matches the
    /// counter unless the envelope was released.
    pub open spec fn wf(&self) -> bool {
        &&& self.attack_start <= self.hold_start <= self.decay_start
        &&& !(self.stage is Release) ==> self.stage == spec_stage_at(
            self.attack_start as int,
            self.hold_start as int,
            self.decay_start as int,
            self.processed_sample_count as int,
        )
    }

    /// Build an envelope from its stage boundaries, settling the stage
    /// for sample count zero.
    pub fn new(attack_start: u64, hold_start: u64, decay_start: u64) -> (r: Self)
        requires
            attack_start <= hold_start <= decay_start,
        ensures
            r.wf(),
            r.attack_start == attack_start,
            r.hold_start == hold_start,
            r.decay_start == decay_start,
            r.processed_sample_count == 0,
            !(r.stage is Release),
    {
        let mut env = VolumeEnvelope {
            attack_start,
            hold_start,
            decay_start,
            processed_sample_count: 0,
            stage: EnvelopeStage::Delay,
        };
        env.process(0);
        env
    }

    /// Advance the counter by `sample_count` and move through the timed
    /// stages. A released envelope stays released.
    pub fn process(&mut self, sample_count: usize)
        requires
            old(self).attack_start <= old(self).hold_start <= old(self).decay_start,
        ensures
            final(self).attack_start == old(self).attack_start,
            final(self).hold_start == old(self).hold_start,
            final(self).decay_start == old(self).decay_start,
            final(self).processed_sample_count == spec_sat_add(
                old(self).processed_sample_count as int,
                sample_count as int,
            ),
            old(self).stage is Release ==> final(self).stage == old(self).stage,
            !(old(self).stage is Release) ==> final(self).stage == spec_stage_at(
                old(self).attack_start as int,
                old(self).hold_start as int,
                old(self).decay_start as int,
                final(self).processed_sample_count as int,
            ),
            final(self).wf(),
    {
        self.processed_sample_count = self.processed_sample_count.saturating_add(
            sample_count as u64,
        );
        match self.stage {
            EnvelopeStage::Release { .. } => (),
            _ => {
                if self.processed_sample_count < self.attack_start {
                    self.stage = EnvelopeStage::Delay;
                } else if self.processed_sample_count < self.hold_start {
                    self.stage = EnvelopeStage::Attack;
                } else if self.processed_sample_count < self.decay_start {
                    self.stage = EnvelopeStage::Hold;
                } else {
                    self.stage = EnvelopeStage::Decay;
                }
            },
        }
    }

    /// Enter Release at the current sample count.
    pub fn release(&mut self)
        requires
            old(self).wf(),
        ensures
            final(self).stage == (EnvelopeStage::Release {
                start: old(self).processed_sample_count,
            }),
            final(self).attack_start == old(self).attack_start,
            final(self).hold_start == old(self).hold_start,
            final(self).decay_start == old(self).decay_start,
            final(self).processed_sample_count == old(self).processed_sample_count,
            final(self).wf(),
    {
        self.stage = EnvelopeStage::release(self.processed_sample_count);
    }

    /// The stealing priority rank of the envelope's stage.
    pub fn get_priority(&self) -> (r: u8)
        ensures
            r == self.stage.spec_rank(),
    {
        match self.stage {
            EnvelopeStage::Delay => 5,
            EnvelopeStage::Attack => 4,
            EnvelopeStage::Hold => 3,
            EnvelopeStage::Decay => 2,
            EnvelopeStage::Release { .. } => 1,
        }
    }
}

/// The modulation envelope's stage scheduler. It mirrors the volume
/// envelope's timing, but releasing twice is a caller error.
#[derive(Clone, Copy, Debug)]
pub struct ModulationEnvelope {
    /// When Delay ends and Attack begins.
    pub attack_start: u64,
    /// When Attack ends and Hold begins.
    pub hold_start: u64,
    /// When Hold ends and Decay begins.
    pub decay_start: u64,
    /// Samples processed so far.
    pub processed_sample_count: u64,
    /// The current stage.
    pub stage: EnvelopeStage,
}

impl ModulationEnvelope {
    /// The stage boundaries are ordered, and the stage matches the
    /// counter unless the envelope was released.
    pub open spec fn wf(&self) -> bool {
        &&& self.attack_start <= self.hold_start <= self.decay_start
        &&& !(self.stage is Release) ==> self.stage == spec_stage_at(
            self.attack_start as int,
            self.hold_start as int,
            self.decay_start as int,
            self.processed_sample_count as int,
        )
    }

    /// Build an envelope from its stage boundaries, settling the stage
    /// for sample count zero.
    pub fn new(attack_start: u64, hold_start: u64, decay_start: u64) -> (r: Self)
        requires
            attack_start <= hold_start <= decay_start,
        ensures
            r.wf(),
            r.attack_start == attack_start,
            r.hold_start == hold_start,
            r.decay_start == decay_start,
            r.processed_sample_count == 0,
            !(r.stage is Release),
    {
        let mut env = ModulationEnvelope {
            attack_start,
            hold_start,
            decay_start,
            processed_sample_count: 0,
            stage: EnvelopeStage::Delay,
        };
        env.process(0);
        env
    }

    /// Advance the counter by `sample_count` and move through the timed
    /// stages. A released envelope stays released.
    pub fn process(&mut self, sample_count: usize)
        requires
            old(self).attack_start <= old(self).hold_start <= old(self).decay_start,
        ensures
            final(self).attack_start == old(self).attack_start,
            final(self).hold_start == old(self).hold_start,
            final(self).decay_start == old(self).decay_start,
            final(self).processed_sample_count == spec_sat_add(
                old(self).processed_sample_count as int,
                sample_count as int,
            ),
            old(self).stage is Release ==> final(self).stage == old(self).stage,
            !(old(self).stage is Release) ==> final(self).stage == spec_stage_at(
                old(self).attack_start as int,
                old(self).hold_start as int,
                old(self).decay_start as int,
                final(self).processed_sample_count as int,
            ),
            final(self).wf(),
    {
        self.processed_sample_count = self.processed_sample_count.saturating_add(
            sample_count as u64,
        );
        match self.stage {
            EnvelopeStage::Release { .. } => (),
            _ => {
                if self.processed_sample_count < self.attack_start {
                    self.stage = EnvelopeStage::Delay;
                } else if self.processed_sample_count < self.hold_start {
                    self.stage = EnvelopeStage::Attack;
                } else if self.processed_sample_count < self.decay_start {
                    self.stage = EnvelopeStage::Hold;
                } else {
                    self.stage = EnvelopeStage::Decay;
                }
            },
        }
    }

    /// Enter Release at the current sample count. The envelope must not
    /// already be released.
    pub fn release(&mut self)
        requires
            old(self).wf(),
            !(old(self).stage is Release),
        ensures
            final(self).stage == (EnvelopeStage::Release {
                start: old(self).processed_sample_count,
            }),
            final(self).attack_start == old(self).attack_start,
            final(self).hold_start == old(self).hold_start,
            final(self).decay_start == old(self).decay_start,
            final(self).processed_sample_count == old(self).processed_sample_count,
            final(self).wf(),
    {
        self.stage = EnvelopeStage::release(self.processed_sample_count);
    }
}


/// Stages only move forward: as the sample counter grows, a timed
/// envelope never returns to an earlier stage, so its stealing
/// priority rank never rises.
pub proof fn lemma_stage_progression(
    attack_start: int,
    hold_start: int,
    decay_start: int,
    c1: int,
    c2: int,
)
    requires
        attack_start <= hold_start <= decay_start,
        c1 <= c2,
    ensures
        spec_stage_at(attack_start, hold_start, decay_start, c1).spec_rank() >= spec_stage_at(
            attack_start,
            hold_start,
            decay_start,
            c2,
        ).spec_rank(),
{
}

} // verus!
