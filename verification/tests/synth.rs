use soundfont_synth::binary::ByteCursor;
use soundfont_synth::channel::RPN_NONE;
use soundfont_synth::envelope::{EnvelopeStage, ModulationEnvelope, VolumeEnvelope};
use soundfont_synth::lfo::Lfo;
use soundfont_synth::settings::{SynthesizerError, SynthesizerSettings};
use soundfont_synth::soundfont::SoundFont;
use soundfont_synth::synthesizer::Synthesizer;
use soundfont_synth::voice::{VoiceParams, VoiceState};

fn push_u16(out: &mut Vec<u8>, v: u16) {
    out.extend_from_slice(&v.to_le_bytes());
}

fn push_u32(out: &mut Vec<u8>, v: u32) {
    out.extend_from_slice(&v.to_le_bytes());
}

fn push_name20(out: &mut Vec<u8>, name: &str) {
    let bytes = name.as_bytes();
    for i in 0..20 {
        out.push(if i < bytes.len() { bytes[i] } else { 0 });
    }
}

fn sub_chunk(out: &mut Vec<u8>, tag: &[u8; 4], body: &[u8]) {
    out.extend_from_slice(tag);
    push_u32(out, body.len() as u32);
    out.extend_from_slice(body);
}

fn list_chunk(out: &mut Vec<u8>, list_type: &[u8; 4], body: &[u8]) {
    out.extend_from_slice(b"LIST");
    push_u32(out, (body.len() + 4) as u32);
    out.extend_from_slice(list_type);
    out.extend_from_slice(body);
}

fn build_sf2(presets: &[(u16, u16)], exclusive_class: i16) -> Vec<u8> {
    let mut info = Vec::new();
    sub_chunk(&mut info, b"ifil", &[2, 0, 1, 0]);
    let mut smpl = Vec::new();
    for i in 0..1200u32 {
        let v: i16 = if i < 100 { 8000 } else { 0 };
        smpl.extend_from_slice(&v.to_le_bytes());
    }
    let mut sdta = Vec::new();
    sub_chunk(&mut sdta, b"smpl", &smpl);

    let mut phdr = Vec::new();
    for (i, (bank, patch)) in presets.iter().enumerate() {
        push_name20(&mut phdr, &format!("Preset{i}"));
        push_u16(&mut phdr, *patch);
        push_u16(&mut phdr, *bank);
        push_u16(&mut phdr, i as u16);
        push_u32(&mut phdr, 0);
        push_u32(&mut phdr, 0);
        push_u32(&mut phdr, 0);
    }
    push_name20(&mut phdr, "EOP");
    push_u16(&mut phdr, 0);
    push_u16(&mut phdr, 0);
    push_u16(&mut phdr, presets.len() as u16);
    push_u32(&mut phdr, 0);
    push_u32(&mut phdr, 0);
    push_u32(&mut phdr, 0);

    let mut pbag = Vec::new();
    for i in 0..presets.len() {
        push_u16(&mut pbag, i as u16);
        push_u16(&mut pbag, 0);
    }
    push_u16(&mut pbag, presets.len() as u16);
    push_u16(&mut pbag, 0);

    let mut pgen = Vec::new();
    for _ in 0..presets.len() {
        push_u16(&mut pgen, 41);
        push_u16(&mut pgen, 0);
    }
    push_u16(&mut pgen, 0);
    push_u16(&mut pgen, 0);

    let mut inst = Vec::new();
    push_name20(&mut inst, "Inst0");
    push_u16(&mut inst, 0);
    push_name20(&mut inst, "EOI");
    push_u16(&mut inst, 1);

    let mut igen = Vec::new();
    let mut igen_count = 1u16;
    if exclusive_class != 0 {
        push_u16(&mut igen, 57);
        igen.extend_from_slice(&exclusive_class.to_le_bytes());
        igen_count += 1;
    }
    push_u16(&mut igen, 53);
    push_u16(&mut igen, 0);
    push_u16(&mut igen, 0);
    push_u16(&mut igen, 0);

    let mut ibag = Vec::new();
    push_u16(&mut ibag, 0);
    push_u16(&mut ibag, 0);
    push_u16(&mut ibag, igen_count);
    push_u16(&mut ibag, 0);

    let mut shdr = Vec::new();
    push_name20(&mut shdr, "Blip");
    push_u32(&mut shdr, 0);
    push_u32(&mut shdr, 1000);
    push_u32(&mut shdr, 0);
    push_u32(&mut shdr, 999);
    push_u32(&mut shdr, 44100);
    shdr.push(60);
    shdr.push(0);
    push_u16(&mut shdr, 0);
    push_u16(&mut shdr, 1);
    push_name20(&mut shdr, "EOS");
    push_u32(&mut shdr, 0);
    push_u32(&mut shdr, 0);
    push_u32(&mut shdr, 0);
    push_u32(&mut shdr, 0);
    push_u32(&mut shdr, 0);
    shdr.push(0);
    shdr.push(0);
    push_u16(&mut shdr, 0);
    push_u16(&mut shdr, 0);

    let mut pdta = Vec::new();
    sub_chunk(&mut pdta, b"phdr", &phdr);
    sub_chunk(&mut pdta, b"pbag", &pbag);
    sub_chunk(&mut pdta, b"pmod", &[]);
    sub_chunk(&mut pdta, b"pgen", &pgen);
    sub_chunk(&mut pdta, b"inst", &inst);
    sub_chunk(&mut pdta, b"ibag", &ibag);
    sub_chunk(&mut pdta, b"imod", &[]);
    sub_chunk(&mut pdta, b"igen", &igen);
    sub_chunk(&mut pdta, b"shdr", &shdr);

    let mut body = Vec::new();
    body.extend_from_slice(b"sfbk");
    list_chunk(&mut body, b"INFO", &info);
    list_chunk(&mut body, b"sdta", &sdta);
    list_chunk(&mut body, b"pdta", &pdta);

    let mut out = Vec::new();
    out.extend_from_slice(b"RIFF");
    push_u32(&mut out, body.len() as u32);
    out.extend_from_slice(&body);
    out
}

fn load(presets: &[(u16, u16)], exclusive_class: i16) -> SoundFont {
    let mut cursor = ByteCursor::new(build_sf2(presets, exclusive_class));
    SoundFont::new(&mut cursor).unwrap()
}

fn params() -> VoiceParams {
    VoiceParams {
        vol_attack_start: 100,
        vol_hold_start: 200,
        vol_decay_start: 300,
        mod_attack_start: 100,
        mod_hold_start: 200,
        mod_decay_start: 300,
    }
}

fn make_synth(maximum_polyphony: usize) -> Synthesizer {
    let sf = load(&[(0, 0)], 0);
    let mut settings = SynthesizerSettings::new(44100);
    settings.maximum_polyphony = maximum_polyphony;
    Synthesizer::new(sf, &settings).unwrap()
}

/// Resolve a note-on and start every voice it asks for.
fn note_on(synth: &mut Synthesizer, channel: u8, key: u8, velocity: u8) {
    let actions = synth.process_midi_message(channel, 0x90, key, velocity);
    for action in &actions {
        let exclusive = action.region.get_exclusive_class();
        synth.start_voice(action.channel, action.key, action.velocity, exclusive, params());
    }
}

#[test]
fn settings_validation_names_each_field() {
    let mut s = SynthesizerSettings::new(4000);
    assert!(matches!(s.check(), Err(SynthesizerError::SampleRateOutOfRange(4000))));
    s.sample_rate = 44100;
    s.block_size = 0;
    assert!(matches!(s.check(), Err(SynthesizerError::BlockSizeOutOfRange(0))));
    s.block_size = 64;
    s.maximum_polyphony = 4096;
    assert!(matches!(
        s.check(),
        Err(SynthesizerError::MaximumPolyphonyOutOfRange(4096))
    ));
    s.maximum_polyphony = 64;
    assert!(s.check().is_ok());
}

#[test]
fn synthesizer_rejects_bad_settings() {
    let sf = load(&[(0, 0)], 0);
    let settings = SynthesizerSettings::new(500);
    assert!(Synthesizer::new(sf, &settings).is_err());
}

#[test]
fn fresh_synthesizer_is_silent() {
    let synth = make_synth(64);
    assert_eq!(synth.get_active_voice_count(), 0);
}

#[test]
fn note_on_resolves_one_region() {
    let mut synth = make_synth(64);
    let actions = synth.process_midi_message(0, 0x90, 60, 100);
    assert_eq!(actions.len(), 1);
    assert_eq!(actions[0].channel, 0);
    assert_eq!(actions[0].key, 60);
    assert_eq!(actions[0].velocity, 100);
    assert_eq!(actions[0].region.instrument.sample_start, 0);
    assert_eq!(actions[0].region.instrument.sample_end, 1000);
    // Unset generators fall back to the format's defaults: a wide-open
    // filter and no exclusive class.
    assert_eq!(actions[0].region.gs_sum(8), 13500);
    assert_eq!(actions[0].region.get_exclusive_class(), 0);
    assert_eq!(actions[0].region.get_sample_modes(), 0);
    assert_eq!(actions[0].region.gs_instrument(56), 100);
}

#[test]
fn start_voice_reports_its_slot() {
    let mut synth = make_synth(2);
    let a = synth.start_voice(0, 60, 100, 0, params());
    assert_eq!((a.index, a.stolen), (0, false));
    let b = synth.start_voice(0, 61, 100, 0, params());
    assert_eq!((b.index, b.stolen), (1, false));
    let c = synth.start_voice(0, 62, 100, 0, params());
    assert!(c.stolen);
    assert!(c.index < 2);
    assert_eq!(synth.get_active_voice_count(), 2);
}

#[test]
fn note_on_for_unknown_patch_is_ignored() {
    let mut synth = make_synth(64);
    // Switch to a patch the bank does not hold.
    synth.process_midi_message(0, 0xc0, 25, 0);
    let actions = synth.process_midi_message(0, 0x90, 60, 100);
    assert_eq!(actions.len(), 0);
}

#[test]
fn polyphony_cap_holds_under_stealing() {
    let mut synth = make_synth(4);
    for key in 60..69 {
        note_on(&mut synth, 0, key, 100);
    }
    assert_eq!(synth.get_active_voice_count(), 4);
    let keys: Vec<u8> = (0..4).map(|i| synth.get_voice(i).key).collect();
    // Voices of equal priority steal the longest-sounding slot, which
    // with fresh voices everywhere is always slot 0.
    assert_eq!(keys, vec![68, 61, 62, 63]);
}

#[test]
fn note_off_is_idempotent() {
    let mut synth = make_synth(64);
    note_on(&mut synth, 0, 60, 100);
    assert_eq!(synth.get_voice(0).voice_state, VoiceState::Playing);
    synth.process_midi_message(0, 0x80, 60, 0);
    assert_eq!(synth.get_voice(0).voice_state, VoiceState::ReleaseRequested);
    synth.process_midi_message(0, 0x80, 60, 0);
    assert_eq!(synth.get_voice(0).voice_state, VoiceState::ReleaseRequested);
    assert_eq!(synth.get_active_voice_count(), 1);
}

#[test]
fn note_on_with_zero_velocity_is_a_note_off() {
    let mut synth = make_synth(64);
    note_on(&mut synth, 0, 60, 100);
    let actions = synth.process_midi_message(0, 0x90, 60, 0);
    assert_eq!(actions.len(), 0);
    assert_eq!(synth.get_voice(0).voice_state, VoiceState::ReleaseRequested);
}

#[test]
fn hold_pedal_defers_release() {
    let mut synth = make_synth(64);
    note_on(&mut synth, 0, 60, 100);
    // Press the hold pedal, then release the key.
    synth.process_midi_message(0, 0xb0, 64, 127);
    synth.process_midi_message(0, 0x80, 60, 0);
    // Render well past the minimum voice length: the voice keeps
    // waiting while the pedal is down.
    for _ in 0..10 {
        assert!(synth.process_voice(0));
    }
    assert_eq!(synth.get_voice(0).voice_state, VoiceState::ReleaseRequested);
    // Lift the pedal: the next block begins the release.
    synth.process_midi_message(0, 0xb0, 64, 0);
    assert!(synth.process_voice(0));
    assert_eq!(synth.get_voice(0).voice_state, VoiceState::Released);
}

#[test]
fn exclusive_class_silences_the_earlier_voice() {
    let sf = load(&[(0, 0)], 1);
    let settings = SynthesizerSettings::new(44100);
    let mut synth = Synthesizer::new(sf, &settings).unwrap();
    note_on(&mut synth, 0, 42, 100);
    assert!(!synth.get_voice(0).killed);
    note_on(&mut synth, 0, 46, 100);
    assert!(synth.get_voice(0).killed);
    assert!(!synth.get_voice(1).killed);
    // The killed voice reports itself dead on its next block and is
    // retired.
    assert!(!synth.process_voice(0));
    synth.retire_voice(0);
    assert_eq!(synth.get_active_voice_count(), 1);
    assert_eq!(synth.get_voice(0).key, 46);
}

#[test]
fn all_notes_off_releases_the_channel() {
    let mut synth = make_synth(64);
    note_on(&mut synth, 0, 60, 100);
    note_on(&mut synth, 0, 64, 100);
    synth.process_midi_message(0, 0xb0, 123, 0);
    assert_eq!(synth.get_voice(0).voice_state, VoiceState::ReleaseRequested);
    assert_eq!(synth.get_voice(1).voice_state, VoiceState::ReleaseRequested);
}

#[test]
fn all_sound_off_kills_the_channel() {
    let mut synth = make_synth(64);
    note_on(&mut synth, 0, 60, 100);
    note_on(&mut synth, 1, 64, 100);
    synth.process_midi_message(0, 0xb0, 120, 0);
    assert!(synth.get_voice(0).killed);
    assert!(!synth.get_voice(1).killed);
}

#[test]
fn controllers_update_channel_state() {
    let mut synth = make_synth(64);
    synth.process_midi_message(0, 0xb0, 7, 90);
    synth.process_midi_message(0, 0xb0, 10, 30);
    synth.process_midi_message(0, 0xb0, 11, 80);
    synth.process_midi_message(0, 0xb0, 91, 50);
    synth.process_midi_message(0, 0xb0, 93, 60);
    let ch = synth.get_channel(0);
    assert_eq!(ch.volume, 90);
    assert_eq!(ch.pan, 30);
    assert_eq!(ch.expression, 80);
    assert_eq!(ch.reverb_send, 50);
    assert_eq!(ch.chorus_send, 60);
    assert!(!ch.hold_pedal);
}

#[test]
fn pitch_bend_combines_both_data_bytes() {
    let mut synth = make_synth(64);
    synth.process_midi_message(0, 0xe0, 0x12, 0x34);
    assert_eq!(synth.get_channel(0).pitch_bend, 0x12 + 0x34 * 128);
}

#[test]
fn rpn_selects_pitch_bend_range() {
    let mut synth = make_synth(64);
    // Select RPN 0 (pitch-bend range), set coarse 12 semitones.
    synth.process_midi_message(0, 0xb0, 101, 0);
    synth.process_midi_message(0, 0xb0, 100, 0);
    synth.process_midi_message(0, 0xb0, 6, 12);
    assert_eq!(synth.get_channel(0).pitch_bend_range, 12 * 128);
    // Reset-all-controllers forgets the RPN and the pedal.
    synth.process_midi_message(0, 0xb0, 121, 0);
    assert_eq!(synth.get_channel(0).rpn, RPN_NONE);
    assert_eq!(synth.get_channel(0).pitch_bend, 8192);
    // The pitch-bend range itself survives the reset.
    assert_eq!(synth.get_channel(0).pitch_bend_range, 12 * 128);
}

#[test]
fn unknown_controller_changes_nothing() {
    let mut synth = make_synth(64);
    let before = *synth.get_channel(0);
    synth.process_midi_message(0, 0xb0, 3, 55);
    assert_eq!(*synth.get_channel(0), before);
}

#[test]
fn modulation_controller_sets_the_coarse_half() {
    let mut synth = make_synth(64);
    synth.process_midi_message(0, 0xb0, 1, 5);
    assert_eq!(synth.get_channel(0).modulation, 5 * 128);
}

#[test]
fn messages_for_channels_past_sixteen_are_ignored() {
    let mut synth = make_synth(64);
    let actions = synth.process_midi_message(20, 0x90, 60, 100);
    assert_eq!(actions.len(), 0);
    assert_eq!(synth.get_active_voice_count(), 0);
}

#[test]
fn percussion_channel_uses_bank_128() {
    let synth = make_synth(64);
    assert_eq!(synth.get_channel(9).bank_number, 128);
    assert_eq!(synth.get_channel(0).bank_number, 0);
}

#[test]
fn volume_envelope_walks_its_stages() {
    let mut env = VolumeEnvelope::new(100, 200, 300);
    assert!(matches!(env.stage, EnvelopeStage::Delay));
    assert_eq!(env.get_priority(), 5);
    env.process(150);
    assert!(matches!(env.stage, EnvelopeStage::Attack));
    assert_eq!(env.get_priority(), 4);
    env.process(100);
    assert!(matches!(env.stage, EnvelopeStage::Hold));
    assert_eq!(env.get_priority(), 3);
    env.process(100);
    assert!(matches!(env.stage, EnvelopeStage::Decay));
    assert_eq!(env.get_priority(), 2);
    env.release();
    assert!(matches!(env.stage, EnvelopeStage::Release { start: 350 }));
    assert_eq!(env.get_priority(), 1);
    // A released envelope keeps releasing as time passes.
    env.process(1000);
    assert!(matches!(env.stage, EnvelopeStage::Release { start: 350 }));
}

#[test]
fn zero_length_stages_are_skipped() {
    let env = VolumeEnvelope::new(0, 0, 0);
    assert!(matches!(env.stage, EnvelopeStage::Decay));
}

#[test]
fn modulation_envelope_release_records_its_start() {
    let mut env = ModulationEnvelope::new(10, 20, 30);
    env.process(5);
    env.release();
    assert!(matches!(env.stage, EnvelopeStage::Release { start: 5 }));
}

#[test]
fn lfo_phase_wraps_at_the_period() {
    let mut lfo = Lfo::new(64, 0, 100, true);
    let p = lfo.process();
    assert!(p.active);
    assert!(!p.in_delay);
    assert_eq!(p.phase_offset, 64);
    let p = lfo.process();
    assert_eq!(p.phase_offset, 28);
    assert!(p.phase_offset < p.period);
}

#[test]
fn lfo_waits_out_its_delay() {
    let mut lfo = Lfo::new(64, 1000, 100, true);
    let p = lfo.process();
    assert!(p.in_delay);
    let mut lfo_off = Lfo::new(64, 0, 100, false);
    let p = lfo_off.process();
    assert!(!p.active);
}
