use soundfont_synth::binary::ByteCursor;
use soundfont_synth::error::{FourCC, SoundFontError};
use soundfont_synth::soundfont::SoundFont;
use soundfont_synth::text::format_usize;

fn push_u16(out: &mut Vec<u8>, v: u16) {
    out.extend_from_slice(&v.to_le_bytes());
}

fn push_u32(out: &mut Vec<u8>, v: u32) {
    out.extend_from_slice(&v.to_le_bytes());
}

fn push_name20(out: &mut Vec<u8>, name: &str) {
    let bytes = name.as_bytes();
    for i in 0..20 {
        out.push(if i < bytes.len() { bytes[i] } else { 0 });
    }
}

fn sub_chunk(out: &mut Vec<u8>, tag: &[u8; 4], body: &[u8]) {
    out.extend_from_slice(tag);
    push_u32(out, body.len() as u32);
    out.extend_from_slice(body);
}

fn list_chunk(out: &mut Vec<u8>, list_type: &[u8; 4], body: &[u8]) {
    out.extend_from_slice(b"LIST");
    push_u32(out, (body.len() + 4) as u32);
    out.extend_from_slice(list_type);
    out.extend_from_slice(body);
}

/// A minimal soundfont: one 1200-sample wave, one instrument with one
/// zone, and one preset per `(bank, patch)` pair given.
fn build_sf2(presets: &[(u16, u16)], exclusive_class: i16) -> Vec<u8> {
    // INFO list.
    let mut info = Vec::new();
    sub_chunk(&mut info, b"ifil", &[2, 0, 1, 0]);
    sub_chunk(&mut info, b"INAM", b"Test Bank\0\0\0");

    // sdta list: 1200 zero samples with a small blip.
    let mut smpl = Vec::new();
    for i in 0..1200u32 {
        let v: i16 = if i < 100 { 8000 } else { 0 };
        smpl.extend_from_slice(&v.to_le_bytes());
    }
    let mut sdta = Vec::new();
    sub_chunk(&mut sdta, b"smpl", &smpl);

    // phdr: one record per preset plus the terminal.
    let mut phdr = Vec::new();
    for (i, (bank, patch)) in presets.iter().enumerate() {
        push_name20(&mut phdr, &format!("Preset{i}"));
        push_u16(&mut phdr, *patch);
        push_u16(&mut phdr, *bank);
        push_u16(&mut phdr, i as u16);
        push_u32(&mut phdr, 0);
        push_u32(&mut phdr, 0);
        push_u32(&mut phdr, 0);
    }
    push_name20(&mut phdr, "EOP");
    push_u16(&mut phdr, 0);
    push_u16(&mut phdr, 0);
    push_u16(&mut phdr, presets.len() as u16);
    push_u32(&mut phdr, 0);
    push_u32(&mut phdr, 0);
    push_u32(&mut phdr, 0);

    // pbag: one zone per preset, each holding one generator.
    let mut pbag = Vec::new();
    for i in 0..presets.len() {
        push_u16(&mut pbag, i as u16);
        push_u16(&mut pbag, 0);
    }
    push_u16(&mut pbag, presets.len() as u16);
    push_u16(&mut pbag, 0);

    // pgen: each preset zone names instrument 0; then the terminal.
    let mut pgen = Vec::new();
    for _ in 0..presets.len() {
        push_u16(&mut pgen, 41);
        push_u16(&mut pgen, 0);
    }
    push_u16(&mut pgen, 0);
    push_u16(&mut pgen, 0);

    // inst: one instrument plus the terminal.
    let mut inst = Vec::new();
    push_name20(&mut inst, "Inst0");
    push_u16(&mut inst, 0);
    push_name20(&mut inst, "EOI");
    push_u16(&mut inst, 1);

    // igen: optionally an exclusive class, then sample 0, then the
    // terminal.
    let mut igen = Vec::new();
    let mut igen_count = 1u16;
    if exclusive_class != 0 {
        push_u16(&mut igen, 57);
        igen.extend_from_slice(&exclusive_class.to_le_bytes());
        igen_count += 1;
    }
    push_u16(&mut igen, 53);
    push_u16(&mut igen, 0);
    push_u16(&mut igen, 0);
    push_u16(&mut igen, 0);

    // ibag: one zone plus the terminal.
    let mut ibag = Vec::new();
    push_u16(&mut ibag, 0);
    push_u16(&mut ibag, 0);
    push_u16(&mut ibag, igen_count);
    push_u16(&mut ibag, 0);

    // shdr: one sample plus the terminal.
    let mut shdr = Vec::new();
    push_name20(&mut shdr, "Blip");
    push_u32(&mut shdr, 0);
    push_u32(&mut shdr, 1000);
    push_u32(&mut shdr, 0);
    push_u32(&mut shdr, 999);
    push_u32(&mut shdr, 44100);
    shdr.push(60);
    shdr.push(0);
    push_u16(&mut shdr, 0);
    push_u16(&mut shdr, 1);
    push_name20(&mut shdr, "EOS");
    push_u32(&mut shdr, 0);
    push_u32(&mut shdr, 0);
    push_u32(&mut shdr, 0);
    push_u32(&mut shdr, 0);
    push_u32(&mut shdr, 0);
    shdr.push(0);
    shdr.push(0);
    push_u16(&mut shdr, 0);
    push_u16(&mut shdr, 0);

    let mut pdta = Vec::new();
    sub_chunk(&mut pdta, b"phdr", &phdr);
    sub_chunk(&mut pdta, b"pbag", &pbag);
    sub_chunk(&mut pdta, b"pmod", &[]);
    sub_chunk(&mut pdta, b"pgen", &pgen);
    sub_chunk(&mut pdta, b"inst", &inst);
    sub_chunk(&mut pdta, b"ibag", &ibag);
    sub_chunk(&mut pdta, b"imod", &[]);
    sub_chunk(&mut pdta, b"igen", &igen);
    sub_chunk(&mut pdta, b"shdr", &shdr);

    let mut body = Vec::new();
    body.extend_from_slice(b"sfbk");
    list_chunk(&mut body, b"INFO", &info);
    list_chunk(&mut body, b"sdta", &sdta);
    list_chunk(&mut body, b"pdta", &pdta);

    let mut out = Vec::new();
    out.extend_from_slice(b"RIFF");
    push_u32(&mut out, body.len() as u32);
    out.extend_from_slice(&body);
    out
}

fn parse(bytes: Vec<u8>) -> Result<SoundFont, SoundFontError> {
    let mut cursor = ByteCursor::new(bytes);
    SoundFont::new(&mut cursor)
}

#[test]
fn parses_three_preset_bank() {
    let sf = parse(build_sf2(&[(0, 0), (0, 1), (0, 5)], 0)).unwrap();
    assert_eq!(sf.get_presets().len(), 3);
    assert!(sf.get_wave_data().len() > 0);
    assert_eq!(sf.get_instruments().len(), 1);
    assert_eq!(sf.get_sample_headers().len(), 1);
    assert_eq!(sf.get_bits_per_sample(), 16);
    assert_eq!(sf.get_info().get_version().get_major(), 2);
    assert_eq!(sf.get_info().get_version().get_minor(), 1);
}

#[test]
fn preset_names_and_numbers_survive() {
    let sf = parse(build_sf2(&[(0, 7)], 0)).unwrap();
    let p = &sf.get_presets()[0];
    assert_eq!(p.name, b"Preset0".to_vec());
    assert_eq!(p.patch_number, 7);
    assert_eq!(p.bank_number, 0);
    assert_eq!(p.regions.len(), 1);
}

#[test]
fn presets_are_sorted_by_bank_then_patch() {
    let sf = parse(build_sf2(&[(1, 0), (0, 9), (0, 2), (128, 0)], 0)).unwrap();
    let keys: Vec<(u16, u16)> = sf
        .get_presets()
        .iter()
        .map(|p| (p.bank_number, p.patch_number))
        .collect();
    assert_eq!(keys, vec![(0, 2), (0, 9), (1, 0), (128, 0)]);
}

#[test]
fn sample_bounds_hold_after_parse() {
    let sf = parse(build_sf2(&[(0, 0)], 0)).unwrap();
    let wave_len = sf.get_wave_data().len() as i64;
    for instrument in sf.get_instruments() {
        for region in &instrument.regions {
            assert!(0 <= region.sample_start);
            assert!(region.sample_start < region.sample_end);
            assert!(region.sample_end <= wave_len);
            assert!(region.sample_start_loop <= region.sample_end_loop);
        }
    }
}

#[test]
fn wave_data_carries_pcm() {
    let sf = parse(build_sf2(&[(0, 0)], 0)).unwrap();
    assert_eq!(sf.get_wave_data().len(), 1200);
    assert_eq!(sf.get_wave_data()[0], 8000);
    assert_eq!(sf.get_wave_data()[1199], 0);
}

#[test]
fn rejects_wrong_riff_tag() {
    let mut bytes = build_sf2(&[(0, 0)], 0);
    bytes[0] = b'X';
    assert!(matches!(parse(bytes), Err(SoundFontError::RiffChunkNotFound)));
}

#[test]
fn rejects_wrong_form_type() {
    let mut bytes = build_sf2(&[(0, 0)], 0);
    bytes[8] = b'x';
    assert!(matches!(
        parse(bytes),
        Err(SoundFontError::InvalidRiffChunkType { .. })
    ));
}

#[test]
fn rejects_truncated_stream() {
    let bytes = build_sf2(&[(0, 0)], 0);
    let cut = bytes[..bytes.len() / 2].to_vec();
    assert!(parse(cut).is_err());
}

#[test]
fn rejects_unknown_info_record() {
    let mut bytes = build_sf2(&[(0, 0)], 0);
    // The INAM record's tag sits after RIFF(12) + LIST header(12) + ifil record(12).
    let pos = 12 + 12 + 12;
    assert_eq!(&bytes[pos..pos + 4], b"INAM");
    bytes[pos] = b'Z';
    bytes[pos + 1] = b'Z';
    assert!(matches!(
        parse(bytes),
        Err(SoundFontError::ListContainsUnknownId(_))
    ));
}

#[test]
fn rejects_sm24_chunk() {
    // Replace the smpl tag with sm24: 24-bit sample data is refused.
    let mut bytes = build_sf2(&[(0, 0)], 0);
    let pos = find(&bytes, b"smpl");
    bytes[pos..pos + 4].copy_from_slice(b"sm24");
    assert!(matches!(
        parse(bytes),
        Err(SoundFontError::UnsupportedSampleFormat)
    ));
}

#[test]
fn rejects_unknown_pdta_sub_chunk() {
    // Cripple the shdr tag: the pdta list then holds an unknown id.
    let mut bytes = build_sf2(&[(0, 0)], 0);
    let pos = find(&bytes, b"shdr");
    bytes[pos..pos + 4].copy_from_slice(b"zzzz");
    assert!(matches!(
        parse(bytes),
        Err(SoundFontError::ListContainsUnknownId(_))
    ));
}

#[test]
fn rejects_missing_sub_chunk() {
    // Shrink the pdta list so it ends before the shdr chunk.
    let mut bytes = build_sf2(&[(0, 0)], 0);
    let shdr_pos = find(&bytes, b"shdr");
    let pdta_pos = find(&bytes, b"pdta");
    let size_pos = pdta_pos - 4;
    let old_size = u32::from_le_bytes(bytes[size_pos..size_pos + 4].try_into().unwrap());
    let shdr_total = (bytes.len() - shdr_pos) as u32;
    bytes[size_pos..size_pos + 4].copy_from_slice(&(old_size - shdr_total).to_le_bytes());
    assert!(matches!(
        parse(bytes),
        Err(SoundFontError::SubChunkNotFound(_))
    ));
}

#[test]
fn rejects_out_of_range_sample_id() {
    // Point the instrument zone's sample generator past the header list.
    let mut bytes = build_sf2(&[(0, 0)], 0);
    let pos = find(&bytes, b"igen");
    // Record layout: tag(4) size(4) gen_type(2) amount(2).
    bytes[pos + 10] = 9;
    assert!(matches!(
        parse(bytes),
        Err(SoundFontError::InvalidSampleId { instrument_id: 0, sample_id: 9 })
    ));
}

#[test]
fn rejects_region_out_of_wave_bounds() {
    // Stretch the sample header's end past the wave data.
    let mut bytes = build_sf2(&[(0, 0)], 0);
    let pos = find(&bytes, b"shdr");
    let end_pos = pos + 8 + 20 + 4;
    bytes[end_pos..end_pos + 4].copy_from_slice(&90000u32.to_le_bytes());
    assert!(matches!(
        parse(bytes),
        Err(SoundFontError::RegionSampleOutOfBounds { .. })
    ));
}

#[test]
fn rejects_empty_sample_segment() {
    // An end at the start makes the segment empty.
    let mut bytes = build_sf2(&[(0, 0)], 0);
    let pos = find(&bytes, b"shdr");
    let end_pos = pos + 8 + 20 + 4;
    bytes[end_pos..end_pos + 4].copy_from_slice(&0u32.to_le_bytes());
    assert!(matches!(
        parse(bytes),
        Err(SoundFontError::RegionCheckFailed { .. })
    ));
}

#[test]
fn error_messages_name_the_problem() {
    let e = parse({
        let mut b = build_sf2(&[(0, 0)], 0);
        b[0] = b'X';
        b
    })
    .unwrap_err();
    assert_eq!(e.message(), "the RIFF chunk was not found");

    let mut b = build_sf2(&[(0, 0)], 0);
    let pos = find(&b, b"igen");
    b[pos + 10] = 9;
    let e = parse(b).unwrap_err();
    assert_eq!(
        e.message(),
        "the instrument with the ID '0' contains an invalid sample ID '9'"
    );
}

#[test]
fn invalid_form_type_message_names_both_tags() {
    let mut bytes = build_sf2(&[(0, 0)], 0);
    bytes[8] = b'x';
    bytes[9] = b'x';
    let e = parse(bytes).unwrap_err();
    assert_eq!(
        e.message(),
        "the type of the RIFF chunk must be 'sfbk', but was 'xxbk'"
    );
}

#[test]
fn duplicate_presets_keep_a_deterministic_order() {
    let sf = parse(build_sf2(&[(0, 3), (0, 3)], 0)).unwrap();
    let names: Vec<&[u8]> = sf.get_presets().iter().map(|p| p.name.as_slice()).collect();
    assert_eq!(names, vec![b"Preset0".as_slice(), b"Preset1".as_slice()]);
}

#[test]
fn empty_sdta_list_reports_missing_sample_data() {
    // Shrink the sdta list to its type word alone: no smpl chunk.
    let mut bytes = build_sf2(&[(0, 0)], 0);
    let smpl_pos = find(&bytes, b"smpl");
    let sdta_pos = find(&bytes, b"sdta");
    let size_pos = sdta_pos - 4;
    let old_size = u32::from_le_bytes(bytes[size_pos..size_pos + 4].try_into().unwrap());
    let smpl_total = u32::from_le_bytes(bytes[smpl_pos + 4..smpl_pos + 8].try_into().unwrap()) + 8;
    bytes[size_pos..size_pos + 4].copy_from_slice(&(old_size - smpl_total).to_le_bytes());
    bytes.drain(smpl_pos..smpl_pos + smpl_total as usize);
    assert!(matches!(parse(bytes), Err(SoundFontError::SampleDataNotFound)));
}

#[test]
fn later_info_record_overrides_an_earlier_one() {
    // Append a second ifil record to the INFO list: the last one wins.
    let mut bytes = build_sf2(&[(0, 0)], 0);
    let info_pos = find(&bytes, b"INFO");
    let size_pos = info_pos - 4;
    let old_size = u32::from_le_bytes(bytes[size_pos..size_pos + 4].try_into().unwrap());
    bytes[size_pos..size_pos + 4].copy_from_slice(&(old_size + 12).to_le_bytes());
    let insert_at = info_pos + 4 + (old_size as usize - 4);
    let record = [b'i', b'f', b'i', b'l', 4, 0, 0, 0, 3, 0, 9, 0];
    for (i, b) in record.iter().enumerate() {
        bytes.insert(insert_at + i, *b);
    }
    let sf = parse(bytes).unwrap();
    assert_eq!(sf.get_info().get_version().get_major(), 3);
    assert_eq!(sf.get_info().get_version().get_minor(), 9);
}

#[test]
fn short_version_record_is_rejected() {
    // Declare the ifil record two bytes long: a truncated version.
    let mut bytes = build_sf2(&[(0, 0)], 0);
    let pos = find(&bytes, b"ifil");
    bytes[pos + 4..pos + 8].copy_from_slice(&2u32.to_le_bytes());
    // Remove two of its four payload bytes so the walk stays aligned.
    bytes.drain(pos + 8..pos + 10);
    let info_pos = find(&bytes, b"INFO");
    let size_pos = info_pos - 4;
    let old_size = u32::from_le_bytes(bytes[size_pos..size_pos + 4].try_into().unwrap());
    bytes[size_pos..size_pos + 4].copy_from_slice(&(old_size - 2).to_le_bytes());
    assert!(parse(bytes).is_err());
}

#[test]
fn region_order_violation_names_the_comparison() {
    let mut bytes = build_sf2(&[(0, 0)], 0);
    let pos = find(&bytes, b"shdr");
    let end_pos = pos + 8 + 20 + 4;
    bytes[end_pos..end_pos + 4].copy_from_slice(&0u32.to_le_bytes());
    match parse(bytes) {
        Err(SoundFontError::RegionCheckFailed { inst_name, region_idx, msg }) => {
            assert_eq!(msg, "end < start");
            assert_eq!(region_idx, 0);
            assert_eq!(inst_name, "0 Inst0");
        }
        other => panic!("expected a region check failure, got {other:?}"),
    }
}

#[test]
fn four_cc_sanitizes_bytes() {
    let tag = FourCC::from_bytes([b'R', 0x01, 0xff, b'F']);
    assert_eq!(tag.as_bytes(), &[b'R', b'?', b'?', b'F']);
    assert_eq!(FourCC::from_bytes(*b"RIFF"), FourCC::from_bytes(*b"RIFF"));
}

#[test]
fn format_usize_renders_decimal() {
    assert_eq!(format_usize(0), b"0".to_vec());
    assert_eq!(format_usize(42), b"42".to_vec());
    assert_eq!(format_usize(1234567), b"1234567".to_vec());
}

fn find(haystack: &[u8], needle: &[u8; 4]) -> usize {
    for i in 0..haystack.len() - 4 {
        if &haystack[i..i + 4] == needle {
            return i;
        }
    }
    panic!("tag not found");
}
