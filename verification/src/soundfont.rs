//! The SoundFont bank: the immutable result of parsing an SF2 file.

use vstd::prelude::*;
use crate::binary::{
    le_u32_at, spec_scan_chunks, BinaryReader, ByteCursor, ChunkScan, ReadError,
};
use crate::error::{spec_four_cc, FourCC, SoundFontError};
use crate::info::{spec_info_matches, spec_info_parseable, SoundFontInfo};
use crate::instrument::{Instrument, InstrumentRegion};
use crate::parameters::{
    spec_pdta_derivation, spec_pdta_failure, SoundFontParameters,
};
use crate::preset::{spec_presets_sorted, Preset};
use crate::sample_data::{spec_sdta_parseable, spec_wave_data_at, SoundFontSampleData};
use crate::sample_header::SampleHeader;
use crate::text::{ascii_to_string, format_usize};
use vstd::string::StringExecFns;

verus! {


/// Where the list starting at `pos` ends: its eight-byte header plus
/// the bytes its chunk walk consumed (sub-chunks may overrun the
/// declared size, so the walk decides).
pub open spec fn spec_list_end(data: Seq<u8>, pos: int) -> int {
    match spec_scan_chunks(data, pos + 12, le_u32_at(data, pos + 4) - 4) {
        ChunkScan::Done { chunks, leftover } => pos + 8 + le_u32_at(data, pos + 4) - leftover,
        ChunkScan::Truncated => pos,
    }
}

/// The RIFF container's twelve-byte front: a RIFF tag, the size word,
/// and the sfbk form type.
pub open spec fn spec_riff_header_ok(data: Seq<u8>, pos: int) -> bool {
    &&& pos + 12 <= data.len()
    &&& spec_four_cc(data[pos], data[pos + 1], data[pos + 2], data[pos + 3]) =~= seq![
        0x52u8,
        0x49u8,
        0x46u8,
        0x46u8,
    ]
    &&& spec_four_cc(data[pos + 8], data[pos + 9], data[pos + 10], data[pos + 11]) =~= seq![
        0x73u8,
        0x66u8,
        0x62u8,
        0x6bu8,
    ]
}

/// How a loaded bank relates to the bytes it was parsed from: the
/// metadata decodes the INFO records, the PCM pool decodes an smpl
/// chunk, and the sample, instrument and preset tables chain back to
/// the pdta records through the zone and region builders.
pub open spec fn spec_sound_font_derivation(sf: SoundFont, data: Seq<u8>, pos: int) -> bool {
    let q0 = pos + 12;
    let q1 = spec_list_end(data, q0);
    let q2 = spec_list_end(data, q1);
    &&& sf.bits_per_sample == 16
    &&& spec_riff_header_ok(data, pos)
    &&& spec_info_parseable(data, q0)
    &&& match spec_scan_chunks(data, q0 + 12, le_u32_at(data, q0 + 4) - 4) {
        ChunkScan::Done { chunks, leftover } => spec_info_matches(sf.info, data, chunks),
        ChunkScan::Truncated => false,
    }
    &&& spec_sdta_parseable(data, q1)
    &&& exists|wpos: int| spec_wave_data_at(sf.wave_data@, data, wpos)
    &&& match spec_scan_chunks(data, q2 + 12, le_u32_at(data, q2 + 4) - 4) {
        ChunkScan::Done { chunks, leftover } => spec_pdta_derivation(
            (SoundFontParameters {
                sample_headers: sf.sample_headers,
                presets: sf.presets,
                instruments: sf.instruments,
            }),
            data,
            chunks,
        ),
        ChunkScan::Truncated => false,
    }
}

/// A byte stream the loader accepts, up to the region bounds check:
/// the RIFF front, a parseable INFO list, a parseable sdta list, and
/// a pdta list with no structural failure.
pub open spec fn spec_sound_font_loadable(data: Seq<u8>, pos: int) -> bool {
    let q0 = pos + 12;
    let q1 = spec_list_end(data, q0);
    let q2 = spec_list_end(data, q1);
    &&& spec_riff_header_ok(data, pos)
    &&& spec_info_parseable(data, q0)
    &&& spec_sdta_parseable(data, q1)
    &&& !spec_pdta_failure(data, q2)
}

/// Whether every region of every instrument points at a sample segment
/// that lies inside the wave data, with a non-empty segment and an
/// ordered loop.
pub open spec fn spec_regions_in_bounds(instruments: Seq<Instrument>, wave_len: int) -> bool {
    forall|i: int, r: int|
        0 <= i < instruments.len() && 0 <= r < (#[trigger] instruments[i]).regions@.len() ==> {
            let reg = #[trigger] instruments[i].regions@[r];
            &&& reg.sample_start >= 0
            &&& reg.sample_start_loop >= 0
            &&& reg.sample_end < wave_len
            &&& reg.sample_end_loop < wave_len
            &&& reg.sample_end > reg.sample_start
            &&& reg.sample_end_loop >= reg.sample_start_loop
        }
}


/// A region whose sample indices fall outside the wave data.
pub open spec fn spec_region_bounds_bad(reg: InstrumentRegion, wave_len: int) -> bool {
    ||| reg.sample_start < 0
    ||| reg.sample_start_loop < 0
    ||| reg.sample_end >= wave_len
    ||| reg.sample_end_loop >= wave_len
}

/// A region whose segment is empty or whose loop is reversed.
pub open spec fn spec_region_order_bad(reg: InstrumentRegion) -> bool {
    ||| reg.sample_end <= reg.sample_start
    ||| reg.sample_end_loop < reg.sample_start_loop
}

/// A region the load-time check rejects.
pub open spec fn spec_region_bad(reg: InstrumentRegion, wave_len: int) -> bool {
    spec_region_bounds_bad(reg, wave_len) || spec_region_order_bad(reg)
}

/// Region `j` of instrument `i` is the first rejected region in
/// instrument-major, region-minor order.
pub open spec fn spec_first_bad_region(
    instruments: Seq<Instrument>,
    wave_len: int,
    i: int,
    j: int,
) -> bool {
    &&& 0 <= i < instruments.len()
    &&& 0 <= j < instruments[i].regions@.len()
    &&& spec_region_bad(instruments[i].regions@[j], wave_len)
    &&& forall|a: int, b: int|
        #![trigger instruments[a].regions@[b]]
        (0 <= a < instruments.len() && 0 <= b < instruments[a].regions@.len() && (a < i || (a == i
            && b < j))) ==> !spec_region_bad(instruments[a].regions@[b], wave_len)
}

/// A byte sequence with everything past ASCII replaced by `'?'`.
pub open spec fn spec_clamped_ascii(name: Seq<u8>) -> Seq<u8> {
    Seq::new(
        name.len(),
        |i: int|
            if name[i] < 128 {
                name[i]
            } else {
                0x3fu8
            },
    )
}

/// The bytes of an instrument's error label: its index in decimal, a
/// space, and its name with non-ASCII bytes replaced.
pub open spec fn spec_instrument_label(index: int, name: Seq<u8>) -> Seq<u8> {
    crate::text::spec_decimal_digits(index) + seq![0x20u8] + spec_clamped_ascii(name)
}

/// The payload of a bounds violation: `region_idx` names the first
/// rejected region, the violation is one of the index bounds, and the
/// label spells the instrument out.
pub open spec fn spec_bounds_payload(
    instruments: Seq<Instrument>,
    wave_len: int,
    label: Seq<char>,
    region_idx: int,
) -> bool {
    exists|i: int|
        {
            &&& #[trigger] spec_first_bad_region(instruments, wave_len, i, region_idx)
            &&& spec_region_bounds_bad(instruments[i].regions@[region_idx], wave_len)
            &&& spec_is_label(label, i, instruments[i].name@)
        }
}

/// The payload of an ordering violation: `region_idx` names the first
/// rejected region, its indices are in bounds but mis-ordered, the
/// label spells the instrument out, and the message names the failed
/// comparison.
pub open spec fn spec_order_payload(
    instruments: Seq<Instrument>,
    wave_len: int,
    label: Seq<char>,
    region_idx: int,
    msg: Seq<char>,
) -> bool {
    exists|i: int|
        {
            &&& #[trigger] spec_first_bad_region(instruments, wave_len, i, region_idx)
            &&& !spec_region_bounds_bad(instruments[i].regions@[region_idx], wave_len)
            &&& spec_is_label(label, i, instruments[i].name@)
            &&& ({
                let reg = instruments[i].regions@[region_idx];
                if reg.sample_end <= reg.sample_start {
                    msg == "end < start"@
                } else {
                    reg.sample_end_loop < reg.sample_start_loop && msg
                        == "end_loop < start_loop"@
                }
            })
        }
}

/// What a region-check error's payload must say, per its kind.
pub open spec fn spec_sanity_error_ok(
    instruments: Seq<Instrument>,
    wave_len: int,
    e: SoundFontError,
) -> bool {
    &&& (e matches SoundFontError::RegionSampleOutOfBounds { inst_name, region_idx }
        ==> spec_bounds_payload(instruments, wave_len, inst_name@, region_idx as int))
    &&& (e matches SoundFontError::RegionCheckFailed { inst_name, region_idx, msg }
        ==> spec_order_payload(instruments, wave_len, inst_name@, region_idx as int, msg@))
}

/// Whether a string spells out an instrument's error label.
pub open spec fn spec_is_label(s: Seq<char>, index: int, name: Seq<u8>) -> bool {
    let label = spec_instrument_label(index, name);
    &&& s.len() == label.len()
    &&& forall|k: int| 0 <= k < s.len() ==> s[k] == (#[trigger] label[k]) as char
}

/// A parsed SoundFont: metadata, the PCM pool, and the preset,
/// instrument and sample tables.
#[derive(Clone, Debug)]
pub struct SoundFont {
    pub info: SoundFontInfo,
    pub bits_per_sample: i32,
    pub wave_data: Vec<i16>,
    pub sample_headers: Vec<SampleHeader>,
    pub presets: Vec<Preset>,
    pub instruments: Vec<Instrument>,
}

impl SoundFont {
    /// The load-time invariants of a bank: presets sorted by
    /// `(bank, patch)`, every cross-reference valid, and every region's
    /// sample segment inside the wave data.
    pub open spec fn wf(&self) -> bool {
        &&& self.bits_per_sample == 16
        &&& spec_presets_sorted(self.presets@)
        &&& forall|i: int|
            0 <= i < self.presets@.len() ==> (#[trigger] self.presets@[i]).wf(
                self.instruments@.len() as int,
            )
        &&& forall|i: int|
            0 <= i < self.instruments@.len() ==> (#[trigger] self.instruments@[i]).wf(
                self.sample_headers@.len() as int,
            )
        &&& spec_regions_in_bounds(self.instruments@, self.wave_data@.len() as int)
    }

    /// Load a SoundFont from a byte stream: an outer `RIFF sfbk` chunk
    /// holding the INFO, sdta and pdta lists, followed by the region
    /// bounds check.
    #[verifier::spinoff_prover]
    #[verifier::rlimit(100)]
    pub fn new(reader: &mut ByteCursor) -> (r: Result<Self, SoundFontError>)
        requires
            old(reader).wf(),
        ensures
            final(reader).wf(),
            final(reader).data() == old(reader).data(),
            match r {
                Ok(sf) => sf.wf() && spec_sound_font_derivation(
                    sf,
                    old(reader).data(),
                    old(reader).pos(),
                ) && (exists|pos: int|
                    crate::parameters::spec_sample_headers_at(
                        sf.sample_headers@,
                        old(reader).data(),
                        pos,
                    )),
                Err(e) => true,
            },
            spec_sound_font_loadable(old(reader).data(), old(reader).pos()) ==> !(r matches Err(e)
                && !(e is RegionCheckFailed || e is RegionSampleOutOfBounds)),
            r matches Err(e) ==> ((e is RegionCheckFailed || e is RegionSampleOutOfBounds)
                ==> exists|sf: SoundFont|
                {
                    &&& #[trigger] spec_sound_font_derivation(
                        sf,
                        old(reader).data(),
                        old(reader).pos(),
                    )
                    &&& !spec_regions_in_bounds(sf.instruments@, sf.wave_data@.len() as int)
                    &&& spec_sanity_error_ok(sf.instruments@, sf.wave_data@.len() as int, e)
                }),
            (r matches Err(SoundFontError::RiffChunkNotFound)) <==> (old(reader).spec_remaining()
                >= 4 && !(spec_four_cc(
                old(reader).data()[old(reader).pos()],
                old(reader).data()[old(reader).pos() + 1],
                old(reader).data()[old(reader).pos() + 2],
                old(reader).data()[old(reader).pos() + 3],
            ) =~= seq![0x52u8, 0x49u8, 0x46u8, 0x46u8])),
            (r matches Err(SoundFontError::InvalidRiffChunkType { .. })) <==> (old(
                reader,
            ).spec_remaining() >= 12 && (spec_four_cc(
                old(reader).data()[old(reader).pos()],
                old(reader).data()[old(reader).pos() + 1],
                old(reader).data()[old(reader).pos() + 2],
                old(reader).data()[old(reader).pos() + 3],
            ) =~= seq![0x52u8, 0x49u8, 0x46u8, 0x46u8]) && !(spec_four_cc(
                old(reader).data()[old(reader).pos() + 8],
                old(reader).data()[old(reader).pos() + 9],
                old(reader).data()[old(reader).pos() + 10],
                old(reader).data()[old(reader).pos() + 11],
            ) =~= seq![0x73u8, 0x66u8, 0x62u8, 0x6bu8])),
            r matches Err(SoundFontError::InvalidRiffChunkType { expected, actual }) ==> (
            expected@ =~= seq![0x73u8, 0x66u8, 0x62u8, 0x6bu8] && actual@ == spec_four_cc(
                old(reader).data()[old(reader).pos() + 8],
                old(reader).data()[old(reader).pos() + 9],
                old(reader).data()[old(reader).pos() + 10],
                old(reader).data()[old(reader).pos() + 11],
            )),
    {
        let ghost data = old(reader).data();
        let ghost base = old(reader).pos();
        let chunk_id = match BinaryReader::read_four_cc(reader) {
            Ok(c) => c,
            Err(e) => {
                proof {
                    assert(!spec_riff_header_ok(data, base));
                }
                return Err(SoundFontError::IoError(e));
            },
        };
        if !chunk_id.matches_tag(0x52, 0x49, 0x46, 0x46) {
            proof {
                assert(!spec_riff_header_ok(data, base));
            }
            return Err(SoundFontError::RiffChunkNotFound);
        }
        match BinaryReader::read_i32(reader) {
            Ok(_) => (),
            Err(e) => {
                proof {
                    assert(!spec_riff_header_ok(data, base));
                }
                return Err(SoundFontError::IoError(e));
            },
        }
        let form_type = match BinaryReader::read_four_cc(reader) {
            Ok(c) => c,
            Err(e) => {
                proof {
                    assert(!spec_riff_header_ok(data, base));
                }
                return Err(SoundFontError::IoError(e));
            },
        };
        if !form_type.matches_tag(0x73, 0x66, 0x62, 0x6b) {
            proof {
                assert(!spec_riff_header_ok(data, base));
            }
            return Err(
                SoundFontError::InvalidRiffChunkType {
                    expected: FourCC::from_bytes([0x73, 0x66, 0x62, 0x6b]),
                    actual: form_type,
                },
            );
        }
        proof {
            assert(spec_riff_header_ok(data, base));
        }
        let ghost q0 = base + 12;
        let info = match SoundFontInfo::new(reader) {
            Ok(v) => v,
            Err(e) => {
                proof {
                    assert(!spec_info_parseable(data, q0));
                    assert(!spec_sound_font_loadable(data, base));
                }
                return Err(e);
            },
        };
        proof {
            assert(spec_info_parseable(data, q0));
            assert(reader.pos() == spec_list_end(data, q0));
        }
        let ghost q1 = reader.pos();
        let sample_data = match SoundFontSampleData::new(reader) {
            Ok(v) => v,
            Err(e) => {
                proof {
                    assert(!spec_sdta_parseable(data, q1));
                    assert(!spec_sound_font_loadable(data, base));
                }
                return Err(e);
            },
        };
        proof {
            assert(spec_sdta_parseable(data, q1));
            assert(reader.pos() == spec_list_end(data, q1));
        }
        let ghost wave_view = sample_data.wave_data@;
        let ghost q2 = reader.pos();
        let parameters = match SoundFontParameters::new(reader) {
            Ok(v) => v,
            Err(e) => {
                proof {
                    assert(spec_pdta_failure(data, q2));
                    assert(!spec_sound_font_loadable(data, base));
                }
                return Err(e);
            },
        };
        let ghost headers_view = parameters.sample_headers@;
        let ghost params_snapshot = parameters;
        let sound_font = SoundFont {
            info,
            bits_per_sample: 16,
            wave_data: sample_data.wave_data,
            sample_headers: parameters.sample_headers,
            presets: parameters.presets,
            instruments: parameters.instruments,
        };
        proof {
            let wpos = choose|wpos: int| spec_wave_data_at(wave_view, data, wpos);
            assert(spec_wave_data_at(sound_font.wave_data@, data, wpos));
            assert(exists|w: int| spec_wave_data_at(sound_font.wave_data@, data, w));
            assert((SoundFontParameters {
                sample_headers: sound_font.sample_headers,
                presets: sound_font.presets,
                instruments: sound_font.instruments,
            }) == params_snapshot);
            assert(spec_sound_font_derivation(sound_font, data, base));
        }
        match sound_font.sanity_check() {
            Ok(()) => {
                proof {
                    let pos = choose|pos: int|
                        crate::parameters::spec_sample_headers_at(
                            headers_view,
                            old(reader).data(),
                            pos,
                        );
                    assert(crate::parameters::spec_sample_headers_at(
                        sound_font.sample_headers@,
                        old(reader).data(),
                        pos,
                    ));
                    assert(exists|p: int|
                        crate::parameters::spec_sample_headers_at(
                            sound_font.sample_headers@,
                            old(reader).data(),
                            p,
                        ));
                    let wpos = choose|wpos: int|
                        crate::sample_data::spec_wave_data_at(
                            wave_view,
                            old(reader).data(),
                            wpos,
                        );
                    assert(crate::sample_data::spec_wave_data_at(
                        sound_font.wave_data@,
                        old(reader).data(),
                        wpos,
                    ));
                    assert(exists|p: int|
                        crate::sample_data::spec_wave_data_at(
                            sound_font.wave_data@,
                            old(reader).data(),
                            p,
                        ));
                }
                Ok(sound_font)
            },
            Err(e) => {
                proof {
                    assert(!spec_regions_in_bounds(
                        sound_font.instruments@,
                        sound_font.wave_data@.len() as int,
                    ));
                    assert(exists|sf: SoundFont|
                        {
                            &&& #[trigger] spec_sound_font_derivation(sf, data, base)
                            &&& !spec_regions_in_bounds(sf.instruments@, sf.wave_data@.len() as int)
                            &&& spec_sanity_error_ok(
                                sf.instruments@,
                                sf.wave_data@.len() as int,
                                e,
                            )
                        });
                }
                Err(e)
            },
        }
    }

    /// Check that every region's sample segment lies inside the wave
    /// data. A violation names the instrument and the region.
    #[verifier::spinoff_prover]
    #[verifier::rlimit(60)]
    pub fn sanity_check(&self) -> (r: Result<(), SoundFontError>)
        ensures
            r is Ok <==> spec_regions_in_bounds(self.instruments@, self.wave_data@.len() as int),
            r is Err ==> (r matches Err(e) && (e is RegionSampleOutOfBounds
                || e is RegionCheckFailed)),
            r matches Err(e) ==> spec_sanity_error_ok(
                self.instruments@,
                self.wave_data@.len() as int,
                e,
            ),
    {
        let wave_len = self.wave_data.len();
        let mut i: usize = 0;
        while i < self.instruments.len()
            invariant
                wave_len == self.wave_data@.len(),
                0 <= i <= self.instruments@.len(),
                forall|a: int, b: int|
                    0 <= a < i && 0 <= b < (#[trigger] self.instruments@[a]).regions@.len() ==> {
                        let reg = #[trigger] self.instruments@[a].regions@[b];
                        &&& reg.sample_start >= 0
                        &&& reg.sample_start_loop >= 0
                        &&& reg.sample_end < wave_len
                        &&& reg.sample_end_loop < wave_len
                        &&& reg.sample_end > reg.sample_start
                        &&& reg.sample_end_loop >= reg.sample_start_loop
                    },
            decreases self.instruments@.len() - i,
        {
            let instrument = &self.instruments[i];
            let mut r: usize = 0;
            while r < instrument.regions.len()
                invariant
                    wave_len == self.wave_data@.len(),
                    0 <= i < self.instruments@.len(),
                    instrument == self.instruments@[i as int],
                    0 <= r <= instrument.regions@.len(),
                    forall|a: int, b: int|
                        0 <= a < i && 0 <= b < (#[trigger] self.instruments@[a]).regions@.len()
                            ==> {
                            let reg = #[trigger] self.instruments@[a].regions@[b];
                            &&& reg.sample_start >= 0
                            &&& reg.sample_start_loop >= 0
                            &&& reg.sample_end < wave_len
                            &&& reg.sample_end_loop < wave_len
                            &&& reg.sample_end > reg.sample_start
                            &&& reg.sample_end_loop >= reg.sample_start_loop
                        },
                    forall|b: int|
                        0 <= b < r ==> {
                            let reg = #[trigger] instrument.regions@[b];
                            &&& reg.sample_start >= 0
                            &&& reg.sample_start_loop >= 0
                            &&& reg.sample_end < wave_len
                            &&& reg.sample_end_loop < wave_len
                            &&& reg.sample_end > reg.sample_start
                            &&& reg.sample_end_loop >= reg.sample_start_loop
                        },
                decreases instrument.regions@.len() - r,
            {
                let region = &instrument.regions[r];
                let start = region.sample_start;
                let end = region.sample_end;
                let start_loop = region.sample_start_loop;
                let end_loop = region.sample_end_loop;
                let bounds_bad = start < 0 || start_loop < 0 || end as i128 >= wave_len as i128
                    || end_loop as i128 >= wave_len as i128;
                if bounds_bad || end <= start || end_loop < start_loop {
                    proof {
                        assert forall|a: int, b: int|
                            #![trigger self.instruments@[a].regions@[b]]
                            (0 <= a < self.instruments@.len() && 0 <= b
                                < self.instruments@[a].regions@.len() && (a < i || (a == i && b < (
                            r as int)))) implies !spec_region_bad(
                            self.instruments@[a].regions@[b],
                            wave_len as int,
                        ) by {
                            if a < i {
                                assert(self.instruments@[a].regions@.len() > b);
                            }
                        }
                        assert(spec_first_bad_region(
                            self.instruments@,
                            wave_len as int,
                            i as int,
                            r as int,
                        ));
                    }
                    let inst_name = Self::describe_instrument(i, &instrument.name);
                    let ghost label_snap = inst_name@;
                    if bounds_bad {
                        let err = SoundFontError::RegionSampleOutOfBounds {
                            inst_name,
                            region_idx: r,
                        };
                        proof {
                            assert(spec_region_bounds_bad(
                                self.instruments@[i as int].regions@[r as int],
                                wave_len as int,
                            ));
                            assert(spec_is_label(
                                label_snap,
                                i as int,
                                self.instruments@[i as int].name@,
                            ));
                            assert(spec_bounds_payload(
                                self.instruments@,
                                wave_len as int,
                                label_snap,
                                r as int,
                            ));
                        }
                        return Err(err);
                    }
                    let msg = if end <= start {
                        String::from_str("end < start")
                    } else {
                        String::from_str("end_loop < start_loop")
                    };
                    let ghost msg_snap = msg@;
                    let err = SoundFontError::RegionCheckFailed { inst_name, region_idx: r, msg };
                    proof {
                        assert(!spec_region_bounds_bad(
                            self.instruments@[i as int].regions@[r as int],
                            wave_len as int,
                        ));
                        assert(spec_is_label(
                            label_snap,
                            i as int,
                            self.instruments@[i as int].name@,
                        ));
                        if end <= start {
                            assert(msg_snap == "end < start"@);
                        } else {
                            assert(msg_snap == "end_loop < start_loop"@);
                        }
                        assert(spec_order_payload(
                            self.instruments@,
                            wave_len as int,
                            label_snap,
                            r as int,
                            msg_snap,
                        ));
                    }
                    return Err(err);
                }
                r = r + 1;
            }
            i = i + 1;
        }
        Ok(())
    }

    /// Render an instrument's index and name for an error message.
    fn describe_instrument(index: usize, name: &Vec<u8>) -> (r: String)
        ensures
            spec_is_label(r@, index as int, name@),
    {
        let mut bytes = format_usize(index);
        bytes.push(0x20);
        proof {
            assert(bytes@ =~= crate::text::spec_decimal_digits(index as int) + seq![0x20u8]
                + spec_clamped_ascii(name@.take(0)));
        }
        let mut k: usize = 0;
        while k < name.len()
            invariant
                0 <= k <= name@.len(),
                forall|j: int| 0 <= j < bytes@.len() ==> #[trigger] bytes@[j] < 128,
                bytes@ == crate::text::spec_decimal_digits(index as int) + seq![0x20u8]
                    + spec_clamped_ascii(name@.take(k as int)),
            decreases name@.len() - k,
        {
            let ghost before_bytes = bytes@;
            let b = name[k];
            if b < 128 {
                bytes.push(b);
            } else {
                bytes.push(0x3f);
            }
            k = k + 1;
            proof {
                let c = (if name@[k - 1] < 128 {
                    name@[k - 1]
                } else {
                    0x3fu8
                });
                assert(bytes@ =~= before_bytes.push(c));
                assert(spec_clamped_ascii(name@.take(k as int)) =~= spec_clamped_ascii(
                    name@.take(k - 1),
                ).push(c));
                assert(bytes@ =~= crate::text::spec_decimal_digits(index as int) + seq![0x20u8]
                    + spec_clamped_ascii(name@.take(k as int)));
            }
        }
        proof {
            assert(name@.take(name@.len() as int) =~= name@);
            assert(bytes@ == spec_instrument_label(index as int, name@));
        }
        ascii_to_string(&bytes)
    }

    /// The bank's metadata.
    pub fn get_info(&self) -> (r: &SoundFontInfo)
        ensures
            r == &self.info,
    {
        &self.info
    }

    /// Bits per sample of the wave data; always 16.
    pub fn get_bits_per_sample(&self) -> (r: i32)
        ensures
            r == self.bits_per_sample,
    {
        self.bits_per_sample
    }

    /// The mono 16-bit PCM pool.
    pub fn get_wave_data(&self) -> (r: &Vec<i16>)
        ensures
            r == &self.wave_data,
    {
        &self.wave_data
    }

    /// The sample headers of the bank.
    pub fn get_sample_headers(&self) -> (r: &Vec<SampleHeader>)
        ensures
            r == &self.sample_headers,
    {
        &self.sample_headers
    }

    /// The presets of the bank, sorted by `(bank, patch)`.
    pub fn get_presets(&self) -> (r: &Vec<Preset>)
        ensures
            r == &self.presets,
    {
        &self.presets
    }

    /// The instruments of the bank.
    pub fn get_instruments(&self) -> (r: &Vec<Instrument>)
        ensures
            r == &self.instruments,
    {
        &self.instruments
    }
}

} // verus!
