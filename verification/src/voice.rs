//! One sounding note's control state: envelope timing, release gating
//! and stealing priority.

use vstd::prelude::*;
use crate::envelope::{spec_sat_add, ModulationEnvelope, VolumeEnvelope};

verus! {

/// Where a voice stands in its life.
#[derive(Clone, Copy, Debug, PartialEq, Eq, Structural)]
pub enum VoiceState {
    /// The note is held.
    Playing,
    /// A note-off arrived; the release waits on the hold pedal and on
    /// the minimum voice length.
    ReleaseRequested,
    /// The envelopes are releasing.
    Released,
}

/// The envelope stage boundaries of a new voice, in samples. The
/// boundary times come from the region's timecent generators.
#[derive(Clone, Copy, Debug, PartialEq, Eq, Structural)]
pub struct VoiceParams {
    /// Volume envelope: when Delay ends.
    pub vol_attack_start: u64,
    /// Volume envelope: when Attack ends.
    pub vol_hold_start: u64,
    /// Volume envelope: when Hold ends.
    pub vol_decay_start: u64,
    /// Modulation envelope: when Delay ends.
    pub mod_attack_start: u64,
    /// Modulation envelope: when Attack ends.
    pub mod_hold_start: u64,
    /// Modulation envelope: when Hold ends.
    pub mod_decay_start: u64,
}

impl VoiceParams {
    /// The stage boundaries are ordered.
    pub open spec fn wf(&self) -> bool {
        &&& self.vol_attack_start <= self.vol_hold_start <= self.vol_decay_start
        &&& self.mod_attack_start <= self.mod_hold_start <= self.mod_decay_start
    }
}

/// The control state of one voice.
#[derive(Clone, Copy, Debug)]
pub struct Voice {
    /// The volume envelope's stage scheduler.
    pub vol_env: VolumeEnvelope,
    /// The modulation envelope's stage scheduler.
    pub mod_env: ModulationEnvelope,
    /// The MIDI channel the voice sounds on.
    pub channel: u8,
    /// The key the voice sounds.
    pub key: u8,
    /// The velocity the voice was struck with.
    pub velocity: u8,
    /// The region's exclusive class; zero means none.
    pub exclusive_class: i16,
    /// Whether the voice was silenced by an exclusive-class takeover;
    /// it is dropped on its next block.
    pub killed: bool,
    /// Where the voice stands in its life.
    pub voice_state: VoiceState,
    /// Samples rendered so far.
    pub voice_length: u64,
    /// Samples to render before a release may begin.
    pub min_voice_length: u64,
}

impl Voice {
    /// The envelopes are consistent with the voice's state: both are
    /// released exactly when the voice is.
    pub open spec fn wf(&self) -> bool {
        &&& self.vol_env.wf()
        &&& self.mod_env.wf()
        &&& (self.voice_state is Released <==> self.vol_env.stage is Release)
        &&& (self.voice_state is Released <==> self.mod_env.stage is Release)
    }

    /// Start a voice for a note.
    pub fn new(
        params: VoiceParams,
        channel: u8,
        key: u8,
        velocity: u8,
        exclusive_class: i16,
        min_voice_length: u64,
    ) -> (r: Self)
        requires
            params.wf(),
        ensures
            r.wf(),
            r.channel == channel,
            r.key == key,
            r.velocity == velocity,
            r.exclusive_class == exclusive_class,
            !r.killed,
            r.voice_state is Playing,
            r.voice_length == 0,
            r.min_voice_length == min_voice_length,
            r.vol_env.attack_start == params.vol_attack_start,
            r.vol_env.hold_start == params.vol_hold_start,
            r.vol_env.decay_start == params.vol_decay_start,
            r.vol_env.processed_sample_count == 0,
            !(r.vol_env.stage is Release),
            r.mod_env.attack_start == params.mod_attack_start,
            r.mod_env.hold_start == params.mod_hold_start,
            r.mod_env.decay_start == params.mod_decay_start,
            r.mod_env.processed_sample_count == 0,
            !(r.mod_env.stage is Release),
    {
        Voice {
            vol_env: VolumeEnvelope::new(
                params.vol_attack_start,
                params.vol_hold_start,
                params.vol_decay_start,
            ),
            mod_env: ModulationEnvelope::new(
                params.mod_attack_start,
                params.mod_hold_start,
                params.mod_decay_start,
            ),
            channel,
            key,
            velocity,
            exclusive_class,
            killed: false,
            voice_state: VoiceState::Playing,
            voice_length: 0,
            min_voice_length,
        }
    }

    /// Request the voice's release: a playing voice moves to
    /// `ReleaseRequested`; any other state is left alone, so a second
    /// note-off changes nothing.
    pub fn end(&mut self)
        ensures
            *final(self) == (Voice { voice_state: spec_end_state(old(self).voice_state), ..*old(self) }),
    {
        if self.voice_state == VoiceState::Playing {
            self.voice_state = VoiceState::ReleaseRequested;
        }
    }

    /// Silence the voice at once: an exclusive-class takeover or an
    /// all-sound-off. The voice reports itself dead on its next block.
    pub fn kill(&mut self)
        ensures
            *final(self) == (Voice { killed: true, ..*old(self) }),
    {
        self.killed = true;
    }

    /// Whether a release that was requested may begin now: the voice
    /// has sounded its minimum length and the hold pedal is up.
    pub open spec fn spec_release_due(self, hold_pedal: bool) -> bool {
        &&& self.voice_length >= self.min_voice_length
        &&& self.voice_state is ReleaseRequested
        &&& !hold_pedal
    }

    /// Begin the release when one is due.
    pub fn release_if_necessary(&mut self, hold_pedal: bool)
        requires
            old(self).wf(),
        ensures
            final(self).wf(),
            old(self).spec_release_due(hold_pedal) ==> {
                &&& final(self).voice_state is Released
                &&& final(self).vol_env.stage == (crate::envelope::EnvelopeStage::Release {
                    start: old(self).vol_env.processed_sample_count,
                })
                &&& final(self).mod_env.stage == (crate::envelope::EnvelopeStage::Release {
                    start: old(self).mod_env.processed_sample_count,
                })
            },
            !old(self).spec_release_due(hold_pedal) ==> *final(self) == *old(self),
            final(self).vol_env.processed_sample_count == old(self).vol_env.processed_sample_count,
            final(self).mod_env.processed_sample_count == old(self).mod_env.processed_sample_count,
            final(self).vol_env.attack_start == old(self).vol_env.attack_start,
            final(self).vol_env.hold_start == old(self).vol_env.hold_start,
            final(self).vol_env.decay_start == old(self).vol_env.decay_start,
            final(self).channel == old(self).channel,
            final(self).key == old(self).key,
            final(self).killed == old(self).killed,
            final(self).voice_length == old(self).voice_length,
            final(self).min_voice_length == old(self).min_voice_length,
            final(self).exclusive_class == old(self).exclusive_class,
            final(self).velocity == old(self).velocity,
    {
        if self.voice_length < self.min_voice_length {
            return ;
        }
        if self.voice_state == VoiceState::ReleaseRequested && !hold_pedal {
            self.vol_env.release();
            self.mod_env.release();
            self.voice_state = VoiceState::Released;
        }
    }

    /// Run one block of control work: gate the release on the hold
    /// pedal, advance both envelopes, and count the rendered samples.
    /// A killed voice reports itself dead and changes nothing.
    pub fn process(&mut self, block_size: usize, hold_pedal: bool) -> (alive: bool)
        requires
            old(self).wf(),
        ensures
            final(self).wf(),
            alive == !old(self).killed,
            old(self).killed ==> *final(self) == *old(self),
            !old(self).killed ==> {
                &&& final(self).voice_length == spec_sat_add(
                    old(self).voice_length as int,
                    block_size as int,
                )
                &&& (old(self).spec_release_due(hold_pedal) ==> final(self).voice_state
                    is Released)
                &&& (!old(self).spec_release_due(hold_pedal) ==> final(self).voice_state == old(
                    self,
                ).voice_state)
                &&& final(self).vol_env.processed_sample_count == spec_sat_add(
                    old(self).vol_env.processed_sample_count as int,
                    block_size as int,
                )
            },
            final(self).channel == old(self).channel,
            final(self).key == old(self).key,
            final(self).killed == old(self).killed,
            final(self).exclusive_class == old(self).exclusive_class,
            final(self).velocity == old(self).velocity,
            final(self).min_voice_length == old(self).min_voice_length,
    {
        if self.killed {
            return false;
        }
        self.release_if_necessary(hold_pedal);
        self.vol_env.process(block_size);
        self.mod_env.process(block_size);
        self.voice_length = self.voice_length.saturating_add(block_size as u64);
        true
    }

    /// The voice's stealing priority: a killed voice ranks lowest,
    /// then voices by their volume envelope's stage, later stages
    /// first.
    pub fn get_priority(&self) -> (r: u8)
        ensures
            r == self.spec_priority(),
    {
        if self.killed {
            0
        } else {
            self.vol_env.get_priority()
        }
    }

    /// The priority `get_priority` returns.
    pub open spec fn spec_priority(&self) -> u8 {
        if self.killed {
            0
        } else {
            self.vol_env.stage.spec_rank()
        }
    }

    /// Samples rendered so far.
    pub fn get_voice_length(&self) -> (r: u64)
        ensures
            r == self.voice_length,
    {
        self.voice_length
    }
}

/// The state after a release request: only a playing voice moves.
pub open spec fn spec_end_state(s: VoiceState) -> VoiceState {
    if s is Playing {
        VoiceState::ReleaseRequested
    } else {
        s
    }
}

} // verus!
