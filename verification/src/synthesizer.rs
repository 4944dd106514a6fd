//! The synthesizer's control plane: per-channel MIDI state, voice
//! allocation and stealing, and the block-by-block voice lifecycle.
//!
//! The floating-point signal path drives this state machine from
//! outside: it asks for the region pairs a note-on resolves to, starts
//! each voice with envelope boundaries computed from the region's
//! timecents, steps every voice once per block, and retires voices
//! whose signal has died out.

use vstd::prelude::*;
use crate::channel::{spec_apply_controller, spec_channel_defaults, SynthChannel};
use crate::region::RegionPair;
use crate::settings::{SynthesizerError, SynthesizerSettings};
use crate::soundfont::SoundFont;
use crate::voice::{spec_end_state, Voice, VoiceParams, VoiceState};

verus! {

/// One voice a note-on asks for: the resolved region pair and the
/// note's identity.
#[derive(Debug)]
pub struct NoteOnAction {
    /// The channel the note sounds on.
    pub channel: u8,
    /// The struck key.
    pub key: u8,
    /// The strike velocity.
    pub velocity: u8,
    /// The resolved pair of preset and instrument regions.
    pub region: RegionPair,
}

/// Where a started voice was placed.
#[derive(Clone, Copy, Debug, PartialEq, Eq, Structural)]
pub struct VoiceSlot {
    /// The voice pool index the voice now occupies.
    pub index: usize,
    /// Whether an existing voice was stolen for it.
    pub stolen: bool,
}

/// The voice list after a note-off: every voice sounding the key on
/// the channel gets its release requested.
pub open spec fn spec_note_off(vs: Seq<Voice>, channel: u8, key: u8) -> Seq<Voice> {
    vs.map(
        |i: int, v: Voice|
            if v.channel == channel && v.key == key {
                Voice { voice_state: spec_end_state(v.voice_state), ..v }
            } else {
                v
            },
    )
}

/// The voice list after a release request for a whole channel.
pub open spec fn spec_end_channel(vs: Seq<Voice>, channel: u8) -> Seq<Voice> {
    vs.map(
        |i: int, v: Voice|
            if v.channel == channel {
                Voice { voice_state: spec_end_state(v.voice_state), ..v }
            } else {
                v
            },
    )
}

/// The voice list after an immediate silencing of a whole channel.
pub open spec fn spec_kill_channel(vs: Seq<Voice>, channel: u8) -> Seq<Voice> {
    vs.map(
        |i: int, v: Voice|
            if v.channel == channel {
                Voice { killed: true, ..v }
            } else {
                v
            },
    )
}

/// The voice list after an exclusive-class takeover on a channel: a
/// class of zero silences nothing.
pub open spec fn spec_kill_class(vs: Seq<Voice>, channel: u8, exclusive_class: i16) -> Seq<Voice> {
    vs.map(
        |i: int, v: Voice|
            if exclusive_class != 0 && v.channel == channel && v.exclusive_class
                == exclusive_class {
                Voice { killed: true, ..v }
            } else {
                v
            },
    )
}

/// Whether voice `a` is taken before voice `b` when a slot must be
/// stolen: strictly lower priority wins, and among equal priorities
/// the voice that has sounded longest.
pub open spec fn spec_steal_order(a: Voice, b: Voice) -> bool {
    ||| a.spec_priority() < b.spec_priority()
    ||| (a.spec_priority() == b.spec_priority() && a.voice_length >= b.voice_length)
}

/// The voice a fresh allocation holds.
pub open spec fn spec_new_voice(
    params: VoiceParams,
    channel: u8,
    key: u8,
    velocity: u8,
    exclusive_class: i16,
    min_voice_length: u64,
) -> Voice {
    Voice {
        vol_env: crate::envelope::VolumeEnvelope {
            attack_start: params.vol_attack_start,
            hold_start: params.vol_hold_start,
            decay_start: params.vol_decay_start,
            processed_sample_count: 0,
            stage: crate::envelope::spec_stage_at(
                params.vol_attack_start as int,
                params.vol_hold_start as int,
                params.vol_decay_start as int,
                0,
            ),
        },
        mod_env: crate::envelope::ModulationEnvelope {
            attack_start: params.mod_attack_start,
            hold_start: params.mod_hold_start,
            decay_start: params.mod_decay_start,
            processed_sample_count: 0,
            stage: crate::envelope::spec_stage_at(
                params.mod_attack_start as int,
                params.mod_hold_start as int,
                params.mod_decay_start as int,
                0,
            ),
        },
        channel,
        key,
        velocity,
        exclusive_class,
        killed: false,
        voice_state: VoiceState::Playing,
        voice_length: 0,
        min_voice_length,
    }
}


/// The first preset whose `(bank, patch)` matches, scanning from `i`.
pub open spec fn spec_find_preset(
    presets: Seq<crate::preset::Preset>,
    bank: u16,
    patch: u8,
    i: int,
) -> Option<int>
    decreases presets.len() - i,
{
    if i < 0 || i >= presets.len() {
        None
    } else if presets[i].bank_number == bank && presets[i].patch_number == patch as u16 {
        Some(i)
    } else {
        spec_find_preset(presets, bank, patch, i + 1)
    }
}

/// Whether the action list holds a pair with the given generator
/// tables.
pub open spec fn spec_has_pair(actions: Seq<NoteOnAction>, pgs: Seq<i16>, igs: Seq<i16>) -> bool {
    exists|k: int|
        0 <= k < actions.len() && (#[trigger] actions[k]).region.preset.gs@ == pgs
            && actions[k].region.instrument.gs@ == igs
}

/// Soundness of a note-on's action list: every action carries the
/// note and a valid, covering region pair.
pub open spec fn spec_actions_sound(
    sf: SoundFont,
    channel: u8,
    key: u8,
    velocity: u8,
    actions: Seq<NoteOnAction>,
) -> bool {
    forall|k: int|
        0 <= k < actions.len() ==> {
            let a = #[trigger] actions[k];
            &&& a.channel == channel
            &&& a.key == key
            &&& a.velocity == velocity
            &&& a.region.wf()
            &&& crate::region::spec_region_covers(a.region.preset.gs@, key, velocity)
            &&& crate::region::spec_region_covers(a.region.instrument.gs@, key, velocity)
            &&& a.region.instrument.sample_id < sf.sample_headers@.len()
            &&& a.region.instrument.sample_end > a.region.instrument.sample_start >= 0
            &&& a.region.instrument.sample_end < sf.wave_data@.len()
        }
}

/// A pair found in an action list is still found after the list grows
/// at the end.
proof fn lemma_has_pair_extend(
    before: Seq<NoteOnAction>,
    after: Seq<NoteOnAction>,
    pgs: Seq<i16>,
    igs: Seq<i16>,
)
    requires
        spec_has_pair(before, pgs, igs),
        before.len() <= after.len(),
        forall|k: int| 0 <= k < before.len() ==> after[k] == before[k],
    ensures
        spec_has_pair(after, pgs, igs),
{
    let k = choose|k: int|
        0 <= k < before.len() && (#[trigger] before[k]).region.preset.gs@ == pgs
            && before[k].region.instrument.gs@ == igs;
    assert(after[k].region.preset.gs@ == pgs);
}

/// Whether an action's region pair is one of the covering pairs of
/// preset `p`: its preset layer is one of that preset's regions and
/// its instrument layer one of that region's instrument's regions.
pub open spec fn spec_action_from_preset(a: NoteOnAction, sf: SoundFont, p: int) -> bool {
    exists|ri: int, ii: int|
        #![trigger sf.presets@[p].regions@[ri], sf.instruments@[sf.presets@[p].regions@[ri].instrument as int].regions@[ii]]
        {
            &&& 0 <= ri < sf.presets@[p].regions@.len()
            &&& 0 <= ii < sf.instruments@[sf.presets@[p].regions@[ri].instrument
                as int].regions@.len()
            &&& a.region.preset.gs@ == sf.presets@[p].regions@[ri].gs@
            &&& a.region.instrument.gs@ == sf.instruments@[sf.presets@[p].regions@[ri].instrument
                as int].regions@[ii].gs@
        }
}

/// What a note-on resolves to. Soundness: every action carries the
/// note and a well-formed region pair whose two layers both cover the
/// note, with its sample segment inside the wave data. Completeness:
/// with a matching preset, every covering pair of preset and
/// instrument regions appears in the list; without one, the list is
/// empty.
pub open spec fn spec_note_on_result(
    sf: SoundFont,
    ch: SynthChannel,
    channel: u8,
    key: u8,
    velocity: u8,
    actions: Seq<NoteOnAction>,
) -> bool {
    &&& spec_actions_sound(sf, channel, key, velocity, actions)
    &&& (match spec_find_preset(sf.presets@, ch.bank_number, ch.patch_number, 0) {
        None => actions.len() == 0,
        Some(p) => (forall|k: int|
            0 <= k < actions.len() ==> spec_action_from_preset(
                #[trigger] actions[k],
                sf,
                p,
            )) && (forall|ri: int, ii: int|
            #![trigger sf.presets@[p].regions@[ri], sf.instruments@[sf.presets@[p].regions@[ri].instrument as int].regions@[ii]]
            {
                (0 <= ri < sf.presets@[p].regions@.len() && crate::region::spec_region_covers(
                    sf.presets@[p].regions@[ri].gs@,
                    key,
                    velocity,
                ) && 0 <= ii
                    < sf.instruments@[sf.presets@[p].regions@[ri].instrument as int].regions@.len()
                    && crate::region::spec_region_covers(
                    sf.instruments@[sf.presets@[p].regions@[ri].instrument as int].regions@[ii].gs@,
                    key,
                    velocity,
                )) ==> spec_has_pair(
                    actions,
                    sf.presets@[p].regions@[ri].gs@,
                    sf.instruments@[sf.presets@[p].regions@[ri].instrument as int].regions@[ii].gs@,
                )
            }),
    })
}

/// The synthesizer: a shared immutable bank, sixteen channels of MIDI
/// state, and a bounded voice pool.
#[derive(Debug)]
pub struct Synthesizer {
    /// The bank the synthesizer plays.
    pub sound_font: SoundFont,
    /// Output sample rate in Hz.
    pub sample_rate: i32,
    /// Samples rendered per internal block.
    pub block_size: usize,
    /// The voice pool's capacity.
    pub maximum_polyphony: usize,
    /// Whether reverb and chorus sends are mixed.
    pub enable_reverb_and_chorus: bool,
    /// The sixteen MIDI channels; channel 9 is percussion.
    pub channels: Vec<SynthChannel>,
    /// The live voices, at most `maximum_polyphony`.
    pub voices: Vec<Voice>,
    /// Samples a voice must sound before it may release.
    pub min_voice_length: u64,
}

impl Synthesizer {
    /// The pool respects its capacity, every voice is consistent and
    /// addresses a real channel, and the bank keeps its load-time
    /// invariants.
    pub open spec fn wf(&self) -> bool {
        &&& self.sound_font.wf()
        &&& self.channels@.len() == 16
        &&& 1 <= self.maximum_polyphony
        &&& self.voices@.len() <= self.maximum_polyphony
        &&& 1 <= self.block_size
        &&& forall|i: int|
            0 <= i < self.voices@.len() ==> (#[trigger] self.voices@[i]).wf()
                && self.voices@[i].channel < 16
    }

    /// Build a synthesizer over a bank. A fresh synthesizer has no
    /// live voices and every channel at its GM defaults.
    pub fn new(sound_font: SoundFont, settings: &SynthesizerSettings) -> (r: Result<
        Self,
        SynthesizerError,
    >)
        requires
            sound_font.wf(),
        ensures
            r is Ok <==> settings.valid(),
            match r {
                Ok(s) => {
                    &&& s.wf()
                    &&& s.voices@.len() == 0
                    &&& s.sample_rate == settings.sample_rate
                    &&& s.block_size == settings.block_size
                    &&& s.maximum_polyphony == settings.maximum_polyphony
                    &&& s.enable_reverb_and_chorus == settings.enable_reverb_and_chorus
                    &&& s.min_voice_length == settings.sample_rate / 500
                    &&& forall|i: int|
                        0 <= i < 16 ==> #[trigger] s.channels@[i] == spec_channel_defaults(i == 9)
                },
                Err(_) => true,
            },
    {
        settings.check()?;
        let mut channels: Vec<SynthChannel> = Vec::new();
        let mut i: usize = 0;
        while i < 16
            invariant
                0 <= i <= 16,
                channels@.len() == i,
                forall|j: int|
                    0 <= j < i ==> #[trigger] channels@[j] == spec_channel_defaults(j == 9),
            decreases 16 - i,
        {
            channels.push(SynthChannel::new(i == 9));
            i = i + 1;
        }
        let min_voice_length = (settings.sample_rate / 500) as u64;
        Ok(
            Synthesizer {
                sound_font,
                sample_rate: settings.sample_rate,
                block_size: settings.block_size,
                maximum_polyphony: settings.maximum_polyphony,
                enable_reverb_and_chorus: settings.enable_reverb_and_chorus,
                channels,
                voices: Vec::new(),
                min_voice_length,
            },
        )
    }

    /// How many voices are live.
    pub fn get_active_voice_count(&self) -> (r: usize)
        ensures
            r == self.voices@.len(),
    {
        self.voices.len()
    }

    /// One live voice, for the signal path to read.
    pub fn get_voice(&self, index: usize) -> (r: &Voice)
        requires
            index < self.voices@.len(),
        ensures
            r == &self.voices@[index as int],
    {
        &self.voices[index]
    }

    /// One channel's state, for the signal path to read.
    pub fn get_channel(&self, channel: u8) -> (r: &SynthChannel)
        requires
            self.wf(),
            channel < 16,
        ensures
            r == &self.channels@[channel as int],
    {
        &self.channels[channel as usize]
    }

    /// Request the release of every voice sounding `key` on `channel`.
    /// A voice already requested or released is left as it stands, so
    /// a repeated note-off changes nothing.
    pub fn note_off(&mut self, channel: u8, key: u8)
        requires
            old(self).wf(),
        ensures
            final(self).wf(),
            final(self).voices@ == spec_note_off(old(self).voices@, channel, key),
            final(self).channels@ == old(self).channels@,
            final(self).sound_font == old(self).sound_font,
            final(self).maximum_polyphony == old(self).maximum_polyphony,
            final(self).block_size == old(self).block_size,
            final(self).min_voice_length == old(self).min_voice_length,
            final(self).sample_rate == old(self).sample_rate,
    {
        let ghost vs0 = self.voices@;
        let ghost target = spec_note_off(vs0, channel, key);
        let mut i: usize = 0;
        while i < self.voices.len()
            invariant
                self.wf(),
                0 <= i <= self.voices@.len(),
                self.voices@.len() == vs0.len(),
                target == spec_note_off(vs0, channel, key),
                forall|j: int| 0 <= j < i ==> self.voices@[j] == target[j],
                forall|j: int| i <= j < vs0.len() ==> self.voices@[j] == vs0[j],
                self.channels@ == old(self).channels@,
                self.sound_font == old(self).sound_font,
                self.maximum_polyphony == old(self).maximum_polyphony,
                self.block_size == old(self).block_size,
                self.min_voice_length == old(self).min_voice_length,
                self.sample_rate == old(self).sample_rate,
                vs0 == old(self).voices@,
            decreases self.voices@.len() - i,
        {
            let mut v = self.voices[i];
            if v.channel == channel && v.key == key {
                v.end();
            }
            self.voices.set(i, v);
            i = i + 1;
        }
        proof {
            assert(self.voices@ =~= spec_note_off(vs0, channel, key));
        }
    }

    /// Request the release of every voice on a channel.
    pub fn note_off_all_channel(&mut self, channel: u8)
        requires
            old(self).wf(),
        ensures
            final(self).wf(),
            final(self).voices@ == spec_end_channel(old(self).voices@, channel),
            final(self).channels@ == old(self).channels@,
            final(self).sound_font == old(self).sound_font,
            final(self).maximum_polyphony == old(self).maximum_polyphony,
            final(self).block_size == old(self).block_size,
            final(self).min_voice_length == old(self).min_voice_length,
            final(self).sample_rate == old(self).sample_rate,
    {
        let ghost vs0 = self.voices@;
        let ghost target = spec_end_channel(vs0, channel);
        let mut i: usize = 0;
        while i < self.voices.len()
            invariant
                self.wf(),
                0 <= i <= self.voices@.len(),
                self.voices@.len() == vs0.len(),
                target == spec_end_channel(vs0, channel),
                forall|j: int| 0 <= j < i ==> self.voices@[j] == target[j],
                forall|j: int| i <= j < vs0.len() ==> self.voices@[j] == vs0[j],
                self.channels@ == old(self).channels@,
                self.sound_font == old(self).sound_font,
                self.maximum_polyphony == old(self).maximum_polyphony,
                self.block_size == old(self).block_size,
                self.min_voice_length == old(self).min_voice_length,
                self.sample_rate == old(self).sample_rate,
                vs0 == old(self).voices@,
            decreases self.voices@.len() - i,
        {
            let mut v = self.voices[i];
            if v.channel == channel {
                v.end();
            }
            self.voices.set(i, v);
            i = i + 1;
        }
        proof {
            assert(self.voices@ =~= spec_end_channel(vs0, channel));
        }
    }

    /// Silence every voice on a channel at once.
    pub fn kill_all_channel(&mut self, channel: u8)
        requires
            old(self).wf(),
        ensures
            final(self).wf(),
            final(self).voices@ == spec_kill_channel(old(self).voices@, channel),
            final(self).channels@ == old(self).channels@,
            final(self).sound_font == old(self).sound_font,
            final(self).maximum_polyphony == old(self).maximum_polyphony,
            final(self).block_size == old(self).block_size,
            final(self).min_voice_length == old(self).min_voice_length,
            final(self).sample_rate == old(self).sample_rate,
    {
        let ghost vs0 = self.voices@;
        let ghost target = spec_kill_channel(vs0, channel);
        let mut i: usize = 0;
        while i < self.voices.len()
            invariant
                self.wf(),
                0 <= i <= self.voices@.len(),
                self.voices@.len() == vs0.len(),
                target == spec_kill_channel(vs0, channel),
                forall|j: int| 0 <= j < i ==> self.voices@[j] == target[j],
                forall|j: int| i <= j < vs0.len() ==> self.voices@[j] == vs0[j],
                self.channels@ == old(self).channels@,
                self.sound_font == old(self).sound_font,
                self.maximum_polyphony == old(self).maximum_polyphony,
                self.block_size == old(self).block_size,
                self.min_voice_length == old(self).min_voice_length,
                self.sample_rate == old(self).sample_rate,
                vs0 == old(self).voices@,
            decreases self.voices@.len() - i,
        {
            let mut v = self.voices[i];
            if v.channel == channel {
                v.kill();
            }
            self.voices.set(i, v);
            i = i + 1;
        }
        proof {
            assert(self.voices@ =~= spec_kill_channel(vs0, channel));
        }
    }

    /// Resolve a note-on to the region pairs that should sound: every
    /// preset region of the channel's `(bank, patch)` preset covering
    /// the note, paired with every covering region of its instrument.
    /// With no matching preset the note is silently ignored.
    pub fn note_on_actions(&self, channel: u8, key: u8, velocity: u8) -> (actions: Vec<
        NoteOnAction,
    >)
        requires
            self.wf(),
            channel < 16,
        ensures
            spec_note_on_result(
                self.sound_font,
                self.channels@[channel as int],
                channel,
                key,
                velocity,
                actions@,
            ),
    {
        let ghost sf = self.sound_font;
        let mut actions: Vec<NoteOnAction> = Vec::new();
        let bank = self.channels[channel as usize].bank_number;
        let patch = self.channels[channel as usize].patch_number;
        let mut pi: usize = 0;
        let mut preset: Option<usize> = None;
        while pi < self.sound_font.presets.len()
            invariant_except_break
                self.wf(),
                sf == self.sound_font,
                bank == self.channels@[channel as int].bank_number,
                patch == self.channels@[channel as int].patch_number,
                0 <= pi <= sf.presets@.len(),
                preset is None,
                spec_find_preset(sf.presets@, bank, patch, 0) == spec_find_preset(
                    sf.presets@,
                    bank,
                    patch,
                    pi as int,
                ),
            ensures
                self.wf(),
                sf == self.sound_font,
                bank == self.channels@[channel as int].bank_number,
                patch == self.channels@[channel as int].patch_number,
                match preset {
                    Some(p) => p < sf.presets@.len() && spec_find_preset(
                        sf.presets@,
                        bank,
                        patch,
                        0,
                    ) == Some(p as int),
                    None => spec_find_preset(sf.presets@, bank, patch, 0) is None,
                },
            decreases sf.presets@.len() - pi,
        {
            let p = &self.sound_font.presets[pi];
            if p.bank_number == bank && p.patch_number == patch as u16 {
                preset = Some(pi);
                proof {
                    assert(pi < sf.presets@.len());
                    assert(sf.presets@[pi as int].bank_number == bank);
                    assert(sf.presets@[pi as int].patch_number == patch as u16);
                    assert(spec_find_preset(sf.presets@, bank, patch, pi as int) == Some(
                        pi as int,
                    ));
                    assert(spec_find_preset(sf.presets@, bank, patch, 0) == Some(pi as int));
                }
                break ;
            }
            pi = pi + 1;
        }
        let preset_index = match preset {
            Some(p) => p,
            None => {
                return actions;
            },
        };
        let ghost pidx = preset_index as int;
        let preset = &self.sound_font.presets[preset_index];
        let mut ri: usize = 0;
        while ri < preset.regions.len()
            invariant
                self.wf(),
                sf == self.sound_font,
                pidx == preset_index as int,
                preset_index < sf.presets@.len(),
                preset == &sf.presets@[pidx],
                spec_find_preset(sf.presets@, bank, patch, 0) == Some(pidx),
                forall|k: int|
                    0 <= k < actions@.len() ==> spec_action_from_preset(
                        #[trigger] actions@[k],
                        sf,
                        pidx,
                    ),
                bank == self.channels@[channel as int].bank_number,
                patch == self.channels@[channel as int].patch_number,
                0 <= ri <= preset.regions@.len(),
                spec_actions_sound(sf, channel, key, velocity, actions@),
                forall|rj: int, ij: int|
                    #![trigger sf.presets@[pidx].regions@[rj], sf.instruments@[sf.presets@[pidx].regions@[rj].instrument as int].regions@[ij]]
                    {
                        (0 <= rj < ri && crate::region::spec_region_covers(
                            sf.presets@[pidx].regions@[rj].gs@,
                            key,
                            velocity,
                        ) && 0 <= ij < sf.instruments@[sf.presets@[pidx].regions@[rj].instrument
                            as int].regions@.len() && crate::region::spec_region_covers(
                            sf.instruments@[sf.presets@[pidx].regions@[rj].instrument
                                as int].regions@[ij].gs@,
                            key,
                            velocity,
                        )) ==> spec_has_pair(
                            actions@,
                            sf.presets@[pidx].regions@[rj].gs@,
                            sf.instruments@[sf.presets@[pidx].regions@[rj].instrument
                                as int].regions@[ij].gs@,
                        )
                    },
            decreases preset.regions@.len() - ri,
        {
            let pr = &preset.regions[ri];
            if pr.contains(key, velocity) {
                let instrument = &self.sound_font.instruments[pr.instrument];
                let mut ii: usize = 0;
                while ii < instrument.regions.len()
                    invariant
                        self.wf(),
                        sf == self.sound_font,
                        pidx == preset_index as int,
                        preset_index < sf.presets@.len(),
                        preset == &sf.presets@[pidx],
                        ri < preset.regions@.len(),
                        pr == &preset.regions@[ri as int],
                        pr.wf(),
                        crate::region::spec_region_covers(pr.gs@, key, velocity),
                        pr.instrument < sf.instruments@.len(),
                        instrument == &sf.instruments@[pr.instrument as int],
                        0 <= ii <= instrument.regions@.len(),
                        spec_find_preset(sf.presets@, bank, patch, 0) == Some(pidx),
                        bank == self.channels@[channel as int].bank_number,
                        patch == self.channels@[channel as int].patch_number,
                        forall|k: int|
                            0 <= k < actions@.len() ==> spec_action_from_preset(
                                #[trigger] actions@[k],
                                sf,
                                pidx,
                            ),
                        spec_actions_sound(sf, channel, key, velocity, actions@),
                        forall|rj: int, ij: int|
                            #![trigger sf.presets@[pidx].regions@[rj], sf.instruments@[sf.presets@[pidx].regions@[rj].instrument as int].regions@[ij]]
                            {
                                (0 <= rj < ri && crate::region::spec_region_covers(
                                    sf.presets@[pidx].regions@[rj].gs@,
                                    key,
                                    velocity,
                                ) && 0 <= ij < sf.instruments@[sf.presets@[pidx].regions@[rj].instrument
                                    as int].regions@.len() && crate::region::spec_region_covers(
                                    sf.instruments@[sf.presets@[pidx].regions@[rj].instrument
                                        as int].regions@[ij].gs@,
                                    key,
                                    velocity,
                                )) ==> spec_has_pair(
                                    actions@,
                                    sf.presets@[pidx].regions@[rj].gs@,
                                    sf.instruments@[sf.presets@[pidx].regions@[rj].instrument
                                        as int].regions@[ij].gs@,
                                )
                            },
                        forall|ij: int|
                            #![trigger instrument.regions@[ij]]
                            {
                                (0 <= ij < ii && crate::region::spec_region_covers(
                                    instrument.regions@[ij].gs@,
                                    key,
                                    velocity,
                                )) ==> spec_has_pair(
                                    actions@,
                                    pr.gs@,
                                    instrument.regions@[ij].gs@,
                                )
                            },
                    decreases instrument.regions@.len() - ii,
                {
                    let ir = &instrument.regions[ii];
                    if ir.contains(key, velocity) {
                        let ghost before = actions@;
                        actions.push(
                            NoteOnAction {
                                channel,
                                key,
                                velocity,
                                region: RegionPair {
                                    preset: pr.duplicate(),
                                    instrument: ir.duplicate(),
                                },
                            },
                        );
                        proof {
                            assert(actions@[before.len() as int].region.preset.gs@ == pr.gs@);
                            assert(actions@[before.len() as int].region.instrument.gs@
                                == instrument.regions@[ii as int].gs@);
                            assert(spec_has_pair(actions@, pr.gs@, instrument.regions@[ii as int].gs@));
                            assert(sf.presets@[pidx].regions@[ri as int].gs@ == pr.gs@);
                            assert(sf.instruments@[sf.presets@[pidx].regions@[ri
                                as int].instrument as int].regions@[ii as int].gs@
                                == instrument.regions@[ii as int].gs@);
                            assert(spec_action_from_preset(
                                actions@[before.len() as int],
                                sf,
                                pidx,
                            ));
                            assert forall|pgs: Seq<i16>, igs: Seq<i16>|
                                spec_has_pair(before, pgs, igs) implies spec_has_pair(
                                actions@,
                                pgs,
                                igs,
                            ) by {
                                lemma_has_pair_extend(before, actions@, pgs, igs);
                            }
                        }
                    }
                    ii = ii + 1;
                }
            }
            proof {
                assert forall|rj: int, ij: int|
                    #![trigger sf.presets@[pidx].regions@[rj], sf.instruments@[sf.presets@[pidx].regions@[rj].instrument as int].regions@[ij]]
                    (0 <= rj < ri + 1 && crate::region::spec_region_covers(
                        sf.presets@[pidx].regions@[rj].gs@,
                        key,
                        velocity,
                    ) && 0 <= ij < sf.instruments@[sf.presets@[pidx].regions@[rj].instrument
                        as int].regions@.len() && crate::region::spec_region_covers(
                        sf.instruments@[sf.presets@[pidx].regions@[rj].instrument
                            as int].regions@[ij].gs@,
                        key,
                        velocity,
                    )) implies spec_has_pair(
                    actions@,
                    sf.presets@[pidx].regions@[rj].gs@,
                    sf.instruments@[sf.presets@[pidx].regions@[rj].instrument
                        as int].regions@[ij].gs@,
                ) by {
                    if rj == ri {
                        assert(sf.presets@[pidx].regions@[rj] == preset.regions@[ri as int]);
                    }
                }
            }
            ri = ri + 1;
        }
        actions
    }

    /// Place a voice for one resolved region: voices sharing a
    /// non-zero exclusive class on the channel are silenced first; the
    /// voice then takes a free slot, or steals the pool's least
    /// important voice when the pool is full.
    pub fn start_voice(
        &mut self,
        channel: u8,
        key: u8,
        velocity: u8,
        exclusive_class: i16,
        params: VoiceParams,
    ) -> (slot: VoiceSlot)
        requires
            old(self).wf(),
            channel < 16,
            params.wf(),
        ensures
            final(self).wf(),
            final(self).channels@ == old(self).channels@,
            final(self).sound_font == old(self).sound_font,
            final(self).maximum_polyphony == old(self).maximum_polyphony,
            final(self).block_size == old(self).block_size,
            final(self).min_voice_length == old(self).min_voice_length,
            final(self).sample_rate == old(self).sample_rate,
            ({
                let killed = spec_kill_class(old(self).voices@, channel, exclusive_class);
                let fresh = spec_new_voice(
                    params,
                    channel,
                    key,
                    velocity,
                    exclusive_class,
                    old(self).min_voice_length,
                );
                if old(self).voices@.len() < old(self).maximum_polyphony {
                    &&& !slot.stolen
                    &&& slot.index == old(self).voices@.len()
                    &&& final(self).voices@ == killed.push(fresh)
                } else {
                    &&& slot.stolen
                    &&& slot.index < killed.len()
                    &&& final(self).voices@ == killed.update(slot.index as int, fresh)
                    &&& forall|i: int|
                        0 <= i < killed.len() ==> spec_steal_order(
                            killed[slot.index as int],
                            #[trigger] killed[i],
                        )
                }
            }),
    {
        let ghost vs0 = self.voices@;
        let ghost target = spec_kill_class(vs0, channel, exclusive_class);
        if exclusive_class != 0 {
            let mut i: usize = 0;
            while i < self.voices.len()
                invariant
                    self.wf(),
                    0 <= i <= self.voices@.len(),
                    self.voices@.len() == vs0.len(),
                    target == spec_kill_class(vs0, channel, exclusive_class),
                    forall|j: int| 0 <= j < i ==> self.voices@[j] == target[j],
                    forall|j: int| i <= j < vs0.len() ==> self.voices@[j] == vs0[j],
                    exclusive_class != 0,
                    self.channels@ == old(self).channels@,
                    self.sound_font == old(self).sound_font,
                    self.maximum_polyphony == old(self).maximum_polyphony,
                    self.block_size == old(self).block_size,
                    self.min_voice_length == old(self).min_voice_length,
                    self.sample_rate == old(self).sample_rate,
                    vs0 == old(self).voices@,
                decreases self.voices@.len() - i,
            {
                let mut v = self.voices[i];
                if v.channel == channel && v.exclusive_class == exclusive_class {
                    v.kill();
                }
                self.voices.set(i, v);
                i = i + 1;
            }
        }
        proof {
            assert(self.voices@ =~= spec_kill_class(vs0, channel, exclusive_class));
        }
        let ghost killed = self.voices@;
        let fresh = Voice::new(params, channel, key, velocity, exclusive_class,
            self.min_voice_length);
        proof {
            assert(fresh == spec_new_voice(
                params,
                channel,
                key,
                velocity,
                exclusive_class,
                old(self).min_voice_length,
            ));
        }
        if self.voices.len() < self.maximum_polyphony {
            let index = self.voices.len();
            self.voices.push(fresh);
            VoiceSlot { index, stolen: false }
        } else {
            let mut best: usize = 0;
            let mut i: usize = 1;
            while i < self.voices.len()
                invariant
                    self.wf(),
                    self.voices@ == killed,
                    self.voices@.len() >= 1,
                    best < i <= self.voices@.len(),
                    forall|j: int|
                        0 <= j < i ==> spec_steal_order(
                            killed[best as int],
                            #[trigger] killed[j],
                        ),
                decreases self.voices@.len() - i,
            {
                let pi = self.voices[i].get_priority();
                let pb = self.voices[best].get_priority();
                if pi < pb || (pi == pb && self.voices[i].get_voice_length()
                    > self.voices[best].get_voice_length()) {
                    best = i;
                }
                proof {
                    assert forall|j: int| 0 <= j < i + 1 implies spec_steal_order(
                        killed[best as int],
                        #[trigger] killed[j],
                    ) by {
                        assert(spec_steal_order(killed[best as int], killed[best as int]));
                    }
                }
                i = i + 1;
            }
            self.voices.set(best, fresh);
            VoiceSlot { index: best, stolen: true }
        }
    }

    /// Run one block of control work for one voice: gate its release
    /// on the channel's hold pedal, advance its envelopes and count
    /// its samples. A killed voice reports itself dead.
    pub fn process_voice(&mut self, index: usize) -> (alive: bool)
        requires
            old(self).wf(),
            index < old(self).voices@.len(),
        ensures
            final(self).wf(),
            final(self).channels@ == old(self).channels@,
            final(self).sound_font == old(self).sound_font,
            final(self).maximum_polyphony == old(self).maximum_polyphony,
            final(self).block_size == old(self).block_size,
            final(self).min_voice_length == old(self).min_voice_length,
            final(self).sample_rate == old(self).sample_rate,
            final(self).voices@.len() == old(self).voices@.len(),
            forall|j: int|
                0 <= j < old(self).voices@.len() && j != index ==> final(self).voices@[j] == old(
                    self,
                ).voices@[j],
            alive == !old(self).voices@[index as int].killed,
            ({
                let v0 = old(self).voices@[index as int];
                let v1 = final(self).voices@[index as int];
                let hold = old(self).channels@[v0.channel as int].hold_pedal;
                &&& (v0.killed ==> v1 == v0)
                &&& (!v0.killed ==> {
                    &&& v1.voice_length == crate::envelope::spec_sat_add(
                        v0.voice_length as int,
                        old(self).block_size as int,
                    )
                    &&& (v0.spec_release_due(hold) ==> v1.voice_state is Released)
                    &&& (!v0.spec_release_due(hold) ==> v1.voice_state == v0.voice_state)
                })
            }),
    {
        let mut v = self.voices[index];
        let hold = self.channels[v.channel as usize].hold_pedal;
        let alive = v.process(self.block_size, hold);
        self.voices.set(index, v);
        alive
    }

    /// Drop a voice whose signal has ended, keeping the others in
    /// order.
    pub fn retire_voice(&mut self, index: usize)
        requires
            old(self).wf(),
            index < old(self).voices@.len(),
        ensures
            final(self).wf(),
            final(self).voices@ == old(self).voices@.remove(index as int),
            final(self).channels@ == old(self).channels@,
            final(self).sound_font == old(self).sound_font,
            final(self).maximum_polyphony == old(self).maximum_polyphony,
            final(self).block_size == old(self).block_size,
            final(self).min_voice_length == old(self).min_voice_length,
            final(self).sample_rate == old(self).sample_rate,
    {
        self.voices.remove(index);
    }

    /// Dispatch one MIDI channel-voice message. Channel state changes
    /// and voice releases are applied here; a note-on returns the
    /// voices it asks for, each to be started with `start_voice` once
    /// its envelope boundaries are known. Messages for channels past
    /// the sixteenth, and unrecognized messages, change nothing.
    pub fn process_midi_message(&mut self, channel: u8, command: u8, data1: u8, data2: u8) -> (actions: Vec<
        NoteOnAction,
    >)
        requires
            old(self).wf(),
        ensures
            final(self).wf(),
            final(self).sound_font == old(self).sound_font,
            final(self).maximum_polyphony == old(self).maximum_polyphony,
            final(self).block_size == old(self).block_size,
            final(self).min_voice_length == old(self).min_voice_length,
            final(self).sample_rate == old(self).sample_rate,
            channel >= 16 ==> final(self).voices@ == old(self).voices@ && final(self).channels@
                == old(self).channels@ && actions@.len() == 0,
            channel < 16 ==> {
                let ch0 = old(self).channels@[channel as int];
                if command == 0x80 || (command == 0x90 && data2 == 0) {
                    &&& final(self).voices@ == spec_note_off(old(self).voices@, channel, data1)
                    &&& final(self).channels@ == old(self).channels@
                    &&& actions@.len() == 0
                } else if command == 0x90 {
                    &&& final(self).voices@ == old(self).voices@
                    &&& final(self).channels@ == old(self).channels@
                    &&& spec_note_on_result(
                        old(self).sound_font,
                        old(self).channels@[channel as int],
                        channel,
                        data1,
                        data2,
                        actions@,
                    )
                } else if command == 0xb0 && data1 == 120 {
                    &&& final(self).voices@ == spec_kill_channel(old(self).voices@, channel)
                    &&& final(self).channels@ == old(self).channels@
                    &&& actions@.len() == 0
                } else if command == 0xb0 && data1 == 123 {
                    &&& final(self).voices@ == spec_end_channel(old(self).voices@, channel)
                    &&& final(self).channels@ == old(self).channels@
                    &&& actions@.len() == 0
                } else if command == 0xb0 {
                    &&& final(self).voices@ == old(self).voices@
                    &&& final(self).channels@ == old(self).channels@.update(
                        channel as int,
                        spec_apply_controller(ch0, data1, data2),
                    )
                    &&& actions@.len() == 0
                } else if command == 0xc0 {
                    &&& final(self).voices@ == old(self).voices@
                    &&& final(self).channels@ == old(self).channels@.update(
                        channel as int,
                        SynthChannel { patch_number: data1, ..ch0 },
                    )
                    &&& actions@.len() == 0
                } else if command == 0xe0 {
                    &&& final(self).voices@ == old(self).voices@
                    &&& final(self).channels@ == old(self).channels@.update(
                        channel as int,
                        SynthChannel {
                            pitch_bend: (data1 % 128 + (data2 % 128) * 128) as u16,
                            ..ch0
                        },
                    )
                    &&& actions@.len() == 0
                } else {
                    &&& final(self).voices@ == old(self).voices@
                    &&& final(self).channels@ == old(self).channels@
                    &&& actions@.len() == 0
                }
            },
    {
        if channel >= 16 {
            return Vec::new();
        }
        if command == 0x80 || (command == 0x90 && data2 == 0) {
            self.note_off(channel, data1);
            Vec::new()
        } else if command == 0x90 {
            self.note_on_actions(channel, data1, data2)
        } else if command == 0xb0 {
            if data1 == 120 {
                self.kill_all_channel(channel);
            } else if data1 == 123 {
                self.note_off_all_channel(channel);
            } else {
                let mut ch = self.channels[channel as usize];
                ch.apply_controller(data1, data2);
                self.channels.set(channel as usize, ch);
            }
            Vec::new()
        } else if command == 0xc0 {
            let mut ch = self.channels[channel as usize];
            ch.set_patch(data1);
            self.channels.set(channel as usize, ch);
            Vec::new()
        } else if command == 0xe0 {
            let mut ch = self.channels[channel as usize];
            ch.set_pitch_bend(data1, data2);
            self.channels.set(channel as usize, ch);
            Vec::new()
        } else {
            Vec::new()
        }
    }
}


/// Requesting the release of a key that has already been released, or
/// asked to release, changes nothing: applying a note-off twice gives
/// the same voice list as applying it once.
pub proof fn lemma_note_off_idempotent(vs: Seq<Voice>, channel: u8, key: u8)
    ensures
        spec_note_off(spec_note_off(vs, channel, key), channel, key) == spec_note_off(
            vs,
            channel,
            key,
        ),
{
    let once = spec_note_off(vs, channel, key);
    let twice = spec_note_off(once, channel, key);
    assert forall|i: int| 0 <= i < once.len() implies twice[i] == once[i] by {
        assert(spec_end_state(spec_end_state(vs[i].voice_state)) == spec_end_state(
            vs[i].voice_state,
        ));
    }
    assert(twice =~= once);
}

/// When a full pool steals a slot for a new voice, the voice that
/// leaves is one of minimal priority, and everything else is kept:
/// the surviving collection is the old one with a least-priority
/// voice exchanged for the new one.
pub proof fn lemma_steal_retains_top(vs: Seq<Voice>, index: int, fresh: Voice)
    requires
        0 <= index < vs.len(),
        forall|i: int| 0 <= i < vs.len() ==> spec_steal_order(vs[index], #[trigger] vs[i]),
    ensures
        vs.update(index, fresh).to_multiset() == vs.to_multiset().insert(fresh).remove(vs[index]),
        forall|i: int|
            0 <= i < vs.len() ==> vs[index].spec_priority() <= (#[trigger] vs[i]).spec_priority(),
{
    broadcast use vstd::seq_lib::group_to_multiset_ensures;

    assert(vs.update(index, fresh).to_multiset() == vs.to_multiset().insert(fresh).remove(
        vs[index],
    ));
}

} // verus!
