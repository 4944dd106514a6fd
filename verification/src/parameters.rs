//! The pdta list of a SoundFont: presets, instruments, zones,
//! generators and sample headers.

use vstd::prelude::*;
use crate::binary::{
    le_u32_at, lemma_last_chunk_push, spec_last_chunk, spec_list_header_ok, spec_scan_chunks,
    BinaryReader, ByteCursor, ChunkEntry, ChunkScan, ReadCounter, ReadError,
};
use crate::error::{spec_four_cc, FourCC, SoundFontError};
use crate::generator::{spec_generator_at, Generator};
use crate::instrument::{
    spec_instrument_info_at, spec_instrument_regions_match, spec_instruments_parseable, Instrument,
    InstrumentInfo,
};
use crate::preset::{
    create_presets, sort_presets, spec_preset_info_at, spec_preset_regions_match,
    spec_presets_parseable, spec_presets_sorted, Preset, PresetInfo,
};
use crate::sample_header::{spec_sample_header_at, SampleHeader};
use crate::zone::{spec_zone_extents_ok, spec_zone_info_at, Zone, ZoneInfo};

verus! {

/// Whether a chunk of the pdta list carries a known tag and a size
/// consistent with its record stride.
pub open spec fn spec_pdta_tag_ok(e: ChunkEntry) -> bool {
    ||| (e.tag =~= seq![0x70u8, 0x68u8, 0x64u8, 0x72u8] && e.size % 38 == 0 && e.size >= 38)
    ||| (e.tag =~= seq![0x70u8, 0x62u8, 0x61u8, 0x67u8] && e.size % 4 == 0)
    ||| e.tag =~= seq![0x70u8, 0x6du8, 0x6fu8, 0x64u8]
    ||| (e.tag =~= seq![0x70u8, 0x67u8, 0x65u8, 0x6eu8] && e.size % 4 == 0 && e.size >= 4)
    ||| (e.tag =~= seq![0x69u8, 0x6eu8, 0x73u8, 0x74u8] && e.size % 22 == 0 && e.size >= 22)
    ||| (e.tag =~= seq![0x69u8, 0x62u8, 0x61u8, 0x67u8] && e.size % 4 == 0)
    ||| e.tag =~= seq![0x69u8, 0x6du8, 0x6fu8, 0x64u8]
    ||| (e.tag =~= seq![0x69u8, 0x67u8, 0x65u8, 0x6eu8] && e.size % 4 == 0 && e.size >= 4)
    ||| (e.tag =~= seq![0x73u8, 0x68u8, 0x64u8, 0x72u8] && e.size % 46 == 0 && e.size >= 46)
}

/// Whether the pdta list at `pos` is structurally well-formed at the
/// record level: a `LIST pdta` header, every chunk fitting the data
/// with a known tag and a consistent size, and all seven required
/// chunks present.
pub open spec fn spec_pdta_records_ok(data: Seq<u8>, pos: int) -> bool {
    &&& spec_list_header_ok(data, pos, seq![0x70u8, 0x64u8, 0x74u8, 0x61u8])
    &&& match spec_scan_chunks(data, pos + 12, le_u32_at(data, pos + 4) - 4) {
        ChunkScan::Done { chunks, leftover } => (forall|k: int|
            0 <= k < chunks.len() ==> spec_pdta_tag_ok(#[trigger] chunks[k])) && ({
    &&& spec_last_chunk(chunks, seq![0x70u8, 0x68u8, 0x64u8, 0x72u8]) is Some
    &&& spec_last_chunk(chunks, seq![0x70u8, 0x62u8, 0x61u8, 0x67u8]) is Some
    &&& spec_last_chunk(chunks, seq![0x70u8, 0x67u8, 0x65u8, 0x6eu8]) is Some
    &&& spec_last_chunk(chunks, seq![0x69u8, 0x6eu8, 0x73u8, 0x74u8]) is Some
    &&& spec_last_chunk(chunks, seq![0x69u8, 0x62u8, 0x61u8, 0x67u8]) is Some
    &&& spec_last_chunk(chunks, seq![0x69u8, 0x67u8, 0x65u8, 0x6eu8]) is Some
    &&& spec_last_chunk(chunks, seq![0x73u8, 0x68u8, 0x64u8, 0x72u8]) is Some
        }),
        ChunkScan::Truncated => false,
    }
}

/// Whether `rs` decodes the records of the last `phdr` chunk.
pub open spec fn spec_phdr_records(rs: Seq<PresetInfo>, data: Seq<u8>, chunks: Seq<ChunkEntry>) -> bool {
    match spec_last_chunk(chunks, seq![0x70u8, 0x68u8, 0x64u8, 0x72u8]) {
        Some(e) => rs.len() == e.size / 38 && (forall|i: int|
            0 <= i < rs.len() ==> spec_preset_info_at(#[trigger] rs[i], data, e.body + 38 * i)),
        None => false,
    }
}

/// Whether `rs` decodes the records of the last `pbag` chunk.
pub open spec fn spec_pbag_records(rs: Seq<ZoneInfo>, data: Seq<u8>, chunks: Seq<ChunkEntry>) -> bool {
    match spec_last_chunk(chunks, seq![0x70u8, 0x62u8, 0x61u8, 0x67u8]) {
        Some(e) => rs.len() == e.size / 4 && (forall|i: int|
            0 <= i < rs.len() ==> #[trigger] rs[i] == spec_zone_info_at(data, e.body + 4 * i)),
        None => false,
    }
}

/// Whether `rs` decodes the records of the last `pgen` chunk.
pub open spec fn spec_pgen_records(rs: Seq<Generator>, data: Seq<u8>, chunks: Seq<ChunkEntry>) -> bool {
    match spec_last_chunk(chunks, seq![0x70u8, 0x67u8, 0x65u8, 0x6eu8]) {
        Some(e) => rs.len() == e.size / 4 - 1 && (forall|i: int|
            0 <= i < rs.len() ==> #[trigger] rs[i] == spec_generator_at(data, e.body + 4 * i)),
        None => false,
    }
}

/// Whether `rs` decodes the records of the last `inst` chunk.
pub open spec fn spec_inst_records(rs: Seq<InstrumentInfo>, data: Seq<u8>, chunks: Seq<ChunkEntry>) -> bool {
    match spec_last_chunk(chunks, seq![0x69u8, 0x6eu8, 0x73u8, 0x74u8]) {
        Some(e) => rs.len() == e.size / 22 && (forall|i: int|
            0 <= i < rs.len() ==> spec_instrument_info_at(#[trigger] rs[i], data, e.body + 22 * i)),
        None => false,
    }
}

/// Whether `rs` decodes the records of the last `ibag` chunk.
pub open spec fn spec_ibag_records(rs: Seq<ZoneInfo>, data: Seq<u8>, chunks: Seq<ChunkEntry>) -> bool {
    match spec_last_chunk(chunks, seq![0x69u8, 0x62u8, 0x61u8, 0x67u8]) {
        Some(e) => rs.len() == e.size / 4 && (forall|i: int|
            0 <= i < rs.len() ==> #[trigger] rs[i] == spec_zone_info_at(data, e.body + 4 * i)),
        None => false,
    }
}

/// Whether `rs` decodes the records of the last `igen` chunk.
pub open spec fn spec_igen_records(rs: Seq<Generator>, data: Seq<u8>, chunks: Seq<ChunkEntry>) -> bool {
    match spec_last_chunk(chunks, seq![0x69u8, 0x67u8, 0x65u8, 0x6eu8]) {
        Some(e) => rs.len() == e.size / 4 - 1 && (forall|i: int|
            0 <= i < rs.len() ==> #[trigger] rs[i] == spec_generator_at(data, e.body + 4 * i)),
        None => false,
    }
}

/// Whether `rs` decodes the records of the last `shdr` chunk.
pub open spec fn spec_shdr_records(rs: Seq<SampleHeader>, data: Seq<u8>, chunks: Seq<ChunkEntry>) -> bool {
    match spec_last_chunk(chunks, seq![0x73u8, 0x68u8, 0x64u8, 0x72u8]) {
        Some(e) => rs.len() == e.size / 46 - 1 && (forall|i: int|
            0 <= i < rs.len() ==> spec_sample_header_at(#[trigger] rs[i], data, e.body + 46 * i)),
        None => false,
    }
}

/// The zone list `Zone::create` builds from bag and generator records.
pub open spec fn spec_zones_shape(zones: Seq<Zone>, infos: Seq<ZoneInfo>, gens: Seq<Generator>) -> bool {
    &&& infos.len() >= 1
    &&& spec_zone_extents_ok(infos, gens.len() as int)
    &&& zones.len() == infos.len() - 1
    &&& forall|i: int|
        0 <= i < zones.len() ==> (#[trigger] zones[i]).generators@ =~= gens.subrange(
            infos[i].generator_index as int,
            infos[i + 1].generator_index as int,
        )
}

/// The instrument list `Instrument::create` builds.
pub open spec fn spec_instruments_shape(
    instruments: Seq<Instrument>,
    infos: Seq<InstrumentInfo>,
    zones: Seq<Zone>,
    samples: Seq<SampleHeader>,
) -> bool {
    &&& infos.len() >= 1
    &&& instruments.len() == infos.len() - 1
    &&& forall|i: int|
        0 <= i < instruments.len() ==> (#[trigger] instruments[i]).name@ == infos[i].name@
    &&& forall|i: int|
        0 <= i < instruments.len() ==> (#[trigger] instruments[i]).wf(samples.len() as int)
    &&& forall|i: int|
        #![trigger instruments[i]]
        #![trigger infos[i].zone_start_index]
        0 <= i < instruments.len() ==> infos[i].zone_start_index < infos[i + 1].zone_start_index
            && infos[i + 1].zone_start_index <= zones.len() && spec_instrument_regions_match(
            instruments[i].regions@,
            zones,
            infos[i].zone_start_index as int,
            infos[i + 1].zone_start_index as int,
        )
}

/// The preset list `create_presets` builds, before sorting.
pub open spec fn spec_presets_shape(
    presets: Seq<Preset>,
    infos: Seq<PresetInfo>,
    zones: Seq<Zone>,
    instrument_count: int,
) -> bool {
    &&& infos.len() >= 1
    &&& presets.len() == infos.len() - 1
    &&& forall|i: int|
        0 <= i < presets.len() ==> (#[trigger] presets[i]).name@ == infos[i].name@
            && presets[i].patch_number == infos[i].patch_number && presets[i].bank_number
            == infos[i].bank_number
    &&& forall|i: int| 0 <= i < presets.len() ==> (#[trigger] presets[i]).wf(instrument_count)
    &&& forall|i: int|
        #![trigger presets[i]]
        #![trigger infos[i].zone_start_index]
        0 <= i < presets.len() ==> infos[i].zone_start_index < infos[i + 1].zone_start_index
            && infos[i + 1].zone_start_index <= zones.len() && spec_preset_regions_match(
            presets[i].regions@,
            zones,
            infos[i].zone_start_index as int,
            infos[i + 1].zone_start_index as int,
        )
}

/// Why a structurally well-formed pdta list can still fail to load:
/// some record table, decoded from the list's actual chunks, breaks a
/// structural rule further down the chain. On a fully valid list no
/// such witness exists, so an error may only be returned with one.
pub open spec fn spec_pdta_failure(data: Seq<u8>, pos: int) -> bool {
    ||| !spec_pdta_records_ok(data, pos)
    ||| match spec_scan_chunks(data, pos + 12, le_u32_at(data, pos + 4) - 4) {
        ChunkScan::Done { chunks, leftover } => exists|
            pzinfos: Seq<ZoneInfo>,
            pgens: Seq<Generator>,
            izinfos: Seq<ZoneInfo>,
            igens: Seq<Generator>,
        |
            #![trigger
                spec_pbag_records(pzinfos, data, chunks),
                spec_pgen_records(pgens, data, chunks),
                spec_ibag_records(izinfos, data, chunks),
                spec_igen_records(igens, data, chunks)
            ]
            {
                &&& spec_pbag_records(pzinfos, data, chunks)
                &&& spec_pgen_records(pgens, data, chunks)
                &&& spec_ibag_records(izinfos, data, chunks)
                &&& spec_igen_records(igens, data, chunks)
                &&& ({
                    ||| !spec_zone_extents_ok(pzinfos, pgens.len() as int)
                    ||| !spec_zone_extents_ok(izinfos, igens.len() as int)
                    ||| pzinfos.len() == 0
                    ||| izinfos.len() == 0
                    ||| exists|
                        pzones: Seq<Zone>,
                        izones: Seq<Zone>,
                        pinfos: Seq<PresetInfo>,
                        iinfos: Seq<InstrumentInfo>,
                        nshdr: int,
                    |
                        #![trigger
                            spec_zones_shape(pzones, pzinfos, pgens),
                            spec_phdr_records(pinfos, data, chunks),
                            spec_instruments_parseable(iinfos, izones, nshdr)
                        ]
                        {
                            &&& spec_zones_shape(pzones, pzinfos, pgens)
                            &&& spec_zones_shape(izones, izinfos, igens)
                            &&& spec_phdr_records(pinfos, data, chunks)
                            &&& spec_inst_records(iinfos, data, chunks)
                            &&& (spec_last_chunk(chunks, seq![0x73u8, 0x68u8, 0x64u8, 0x72u8])
                                matches Some(e) && nshdr == e.size / 46 - 1)
                            &&& ({
                                ||| !spec_instruments_parseable(iinfos, izones, nshdr)
                                ||| !spec_presets_parseable(pinfos, pzones, iinfos.len() - 1)
                            })
                        }
                })
            },
        ChunkScan::Truncated => false,
    }
}

/// The derivation a successful load pins down: every table of the
/// result chains back, through the exact contracts of the zone and
/// region builders, to record tables decoded from the pdta list's
/// actual chunks.
pub open spec fn spec_pdta_derivation(p: SoundFontParameters, data: Seq<u8>, chunks: Seq<ChunkEntry>) -> bool {
    exists|
        pinfos: Seq<PresetInfo>,
        pzinfos: Seq<ZoneInfo>,
        pgens: Seq<Generator>,
        iinfos: Seq<InstrumentInfo>,
        izinfos: Seq<ZoneInfo>,
        igens: Seq<Generator>,
        pzones: Seq<Zone>,
        izones: Seq<Zone>,
        unsorted: Seq<Preset>,
    |
        #![trigger
            spec_phdr_records(pinfos, data, chunks),
            spec_pgen_records(pgens, data, chunks),
            spec_inst_records(iinfos, data, chunks),
            spec_igen_records(igens, data, chunks),
            spec_zones_shape(pzones, pzinfos, pgens),
            spec_zones_shape(izones, izinfos, igens),
            spec_presets_shape(unsorted, pinfos, pzones, p.instruments@.len() as int)
        ]
        {
            &&& spec_phdr_records(pinfos, data, chunks)
            &&& spec_pbag_records(pzinfos, data, chunks)
            &&& spec_pgen_records(pgens, data, chunks)
            &&& spec_inst_records(iinfos, data, chunks)
            &&& spec_ibag_records(izinfos, data, chunks)
            &&& spec_igen_records(igens, data, chunks)
            &&& spec_shdr_records(p.sample_headers@, data, chunks)
            &&& spec_zones_shape(pzones, pzinfos, pgens)
            &&& spec_zones_shape(izones, izinfos, igens)
            &&& spec_instruments_shape(p.instruments@, iinfos, izones, p.sample_headers@)
            &&& spec_presets_shape(unsorted, pinfos, pzones, p.instruments@.len() as int)
            &&& p.presets@.to_multiset() == unsorted.to_multiset()
            &&& p.presets@.len() == unsorted.len()
        }
}


/// Whether the data holds an `shdr`-tagged chunk at position `pos`
/// (the tag itself sits eight bytes earlier) whose records decode to
/// exactly the given sample headers, with the terminal record after
/// them.
pub open spec fn spec_sample_headers_at(
    headers: Seq<SampleHeader>,
    data: Seq<u8>,
    pos: int,
) -> bool {
    &&& 8 <= pos
    &&& pos + 46 * (headers.len() + 1) <= data.len()
    &&& spec_four_cc(data[pos - 8], data[pos - 7], data[pos - 6], data[pos - 5])
        =~= seq![0x73u8, 0x68u8, 0x64u8, 0x72u8]
    &&& forall|i: int|
        0 <= i < headers.len() ==> spec_sample_header_at(#[trigger] headers[i], data, pos + 46 * i)
}

/// The parameter tables of a SoundFont: sample headers, presets sorted
/// by `(bank, patch)`, and instruments, with every cross-reference
/// checked at load time.
#[derive(Clone, Debug)]
pub struct SoundFontParameters {
    pub sample_headers: Vec<SampleHeader>,
    pub presets: Vec<Preset>,
    pub instruments: Vec<Instrument>,
}

impl SoundFontParameters {
    /// Every preset region references a valid instrument, every
    /// instrument region references a valid sample header, and the
    /// presets are sorted.
    pub open spec fn wf(&self) -> bool {
        &&& spec_presets_sorted(self.presets@)
        &&& forall|i: int|
            0 <= i < self.presets@.len() ==> (#[trigger] self.presets@[i]).wf(
                self.instruments@.len() as int,
            )
        &&& forall|i: int|
            0 <= i < self.instruments@.len() ==> (#[trigger] self.instruments@[i]).wf(
                self.sample_headers@.len() as int,
            )
    }

    /// Read the `LIST pdta` chunk: nine sub-chunks, reconstruct the
    /// zones, flatten presets and instruments, and sort the presets.
    /// Success pins every table to the list's records; an error is
    /// returned only with a structural cause.
    #[verifier::spinoff_prover]
    #[verifier::rlimit(100)]
    pub fn new(reader: &mut ByteCursor) -> (r: Result<Self, SoundFontError>)
        requires
            old(reader).wf(),
        ensures
            final(reader).wf(),
            final(reader).data() == old(reader).data(),
            match r {
                Ok(p) => {
                    &&& final(reader).pos() >= old(reader).pos() + 8
                    &&& p.wf()
                    &&& exists|pos: int|
                        spec_sample_headers_at(p.sample_headers@, old(reader).data(), pos)
                    &&& match spec_scan_chunks(
                        old(reader).data(),
                        old(reader).pos() + 12,
                        le_u32_at(old(reader).data(), old(reader).pos() + 4) - 4,
                    ) {
                        ChunkScan::Done { chunks, leftover } => spec_pdta_derivation(
                            p,
                            old(reader).data(),
                            chunks,
                        ),
                        ChunkScan::Truncated => false,
                    }
                },
                Err(e) => {
                    &&& !(e is RegionCheckFailed || e is RegionSampleOutOfBounds
                        || e is RiffChunkNotFound || e is InvalidRiffChunkType)
                    &&& spec_pdta_failure(old(reader).data(), old(reader).pos())
                },
            },
    {
        let ghost data = old(reader).data();
        let ghost base = old(reader).pos();
        let chunk_id = match BinaryReader::read_four_cc(reader) {
            Ok(c) => c,
            Err(e) => {
                return Err(SoundFontError::IoError(e));
            },
        };
        if !chunk_id.matches_tag(0x4c, 0x49, 0x53, 0x54) {
            return Err(SoundFontError::ListChunkNotFound);
        }
        let size = match BinaryReader::read_u32(reader) {
            Ok(s) => s,
            Err(e) => {
                return Err(SoundFontError::IoError(e));
            },
        };
        if size < 4 || size as usize > reader.remaining() {
            return Err(SoundFontError::IoError(ReadError::UnexpectedEndOfStream));
        }
        let list_type = BinaryReader::read_four_cc(reader).unwrap();
        if !list_type.matches_tag(0x70, 0x64, 0x74, 0x61) {
            return Err(
                SoundFontError::InvalidListChunkType {
                    expected: FourCC::from_bytes([0x70, 0x64, 0x74, 0x61]),
                    actual: list_type,
                },
            );
        }
        let content = size as usize - 4;
        let counter = ReadCounter::new(reader);
        let ghost scan_full = spec_scan_chunks(data, base + 12, content as int);
        let mut preset_infos: Option<Vec<PresetInfo>> = None;
        let mut preset_bag: Option<Vec<ZoneInfo>> = None;
        let mut preset_generators: Option<Vec<Generator>> = None;
        let mut instrument_infos: Option<Vec<InstrumentInfo>> = None;
        let mut instrument_bag: Option<Vec<ZoneInfo>> = None;
        let mut instrument_generators: Option<Vec<Generator>> = None;
        let mut sample_headers: Option<Vec<SampleHeader>> = None;
        let ghost mut done: Seq<ChunkEntry> = Seq::empty();
        let ghost mut shdr_at: int = 0;
        while counter.bytes_read(reader) < content
            invariant
                reader.wf(),
                reader.data() == data,
                data == old(reader).data(),
                base == old(reader).pos(),
                counter.start() == base + 12,
                base + 12 <= reader.pos(),
                spec_list_header_ok(data, base, seq![0x70u8, 0x64u8, 0x74u8, 0x61u8]),
                content as int == le_u32_at(data, base + 4) - 4,
                scan_full == spec_scan_chunks(data, base + 12, content as int),
                ({
                    let rem = content as int - (reader.pos() - counter.start());
                    match spec_scan_chunks(data, reader.pos(), rem) {
                        ChunkScan::Done { chunks, leftover } => scan_full == (ChunkScan::Done {
                            chunks: done + chunks,
                            leftover,
                        }),
                        ChunkScan::Truncated => scan_full is Truncated,
                    }
                }),
                forall|k: int| 0 <= k < done.len() ==> spec_pdta_tag_ok(#[trigger] done[k]),
                match preset_infos {
                    Some(v) => spec_phdr_records(v@, data, done),
                    None => spec_last_chunk(done, seq![0x70u8, 0x68u8, 0x64u8, 0x72u8]) is None,
                },
                match preset_bag {
                    Some(v) => spec_pbag_records(v@, data, done),
                    None => spec_last_chunk(done, seq![0x70u8, 0x62u8, 0x61u8, 0x67u8]) is None,
                },
                match preset_generators {
                    Some(v) => spec_pgen_records(v@, data, done),
                    None => spec_last_chunk(done, seq![0x70u8, 0x67u8, 0x65u8, 0x6eu8]) is None,
                },
                match instrument_infos {
                    Some(v) => spec_inst_records(v@, data, done),
                    None => spec_last_chunk(done, seq![0x69u8, 0x6eu8, 0x73u8, 0x74u8]) is None,
                },
                match instrument_bag {
                    Some(v) => spec_ibag_records(v@, data, done),
                    None => spec_last_chunk(done, seq![0x69u8, 0x62u8, 0x61u8, 0x67u8]) is None,
                },
                match instrument_generators {
                    Some(v) => spec_igen_records(v@, data, done),
                    None => spec_last_chunk(done, seq![0x69u8, 0x67u8, 0x65u8, 0x6eu8]) is None,
                },
                match sample_headers {
                    Some(v) => spec_shdr_records(v@, data, done),
                    None => spec_last_chunk(done, seq![0x73u8, 0x68u8, 0x64u8, 0x72u8]) is None,
                },
                match sample_headers {
                    Some(v) => spec_sample_headers_at(v@, data, shdr_at),
                    None => true,
                },
            decreases (if reader.pos() > counter.start() + content {
                0int
            } else {
                counter.start() + content - reader.pos()
            }),
        {
            let ghost p = reader.pos();
            let ghost rem = content as int - (p - counter.start());
            let id = match BinaryReader::read_four_cc(reader) {
                Ok(c) => c,
                Err(e) => {
                    proof {
                        assert(spec_scan_chunks(data, p, rem) is Truncated);
                    }
                    return Err(SoundFontError::IoError(e));
                },
            };
            let record_size = match BinaryReader::read_u32(reader) {
                Ok(s) => s,
                Err(e) => {
                    proof {
                        assert(spec_scan_chunks(data, p, rem) is Truncated);
                    }
                    return Err(SoundFontError::IoError(e));
                },
            };
            if record_size as usize > reader.remaining() {
                proof {
                    assert(spec_scan_chunks(data, p, rem) is Truncated);
                }
                return Err(SoundFontError::IoError(ReadError::UnexpectedEndOfStream));
            }
            let ghost entry = ChunkEntry {
                tag: spec_four_cc(data[p], data[p + 1], data[p + 2], data[p + 3]),
                body: p + 8,
                size: record_size as int,
            };
            if id.matches_tag(0x70, 0x68, 0x64, 0x72) {
                proof {
                    let size_i = record_size as int;
                    match spec_scan_chunks(data, p + 8 + size_i, rem - 8 - size_i) {
                        ChunkScan::Done { chunks, leftover } => {
                            assert(spec_scan_chunks(data, p, rem) == (ChunkScan::Done {
                                chunks: seq![entry] + chunks,
                                leftover,
                            }));
                            assert(scan_full == (ChunkScan::Done {
                                chunks: done + (seq![entry] + chunks),
                                leftover,
                            }));
                            assert((done + (seq![entry] + chunks))[done.len() as int] == entry);
                        },
                        ChunkScan::Truncated => {
                            assert(spec_scan_chunks(data, p, rem) is Truncated);
                        },
                    }
                }
                preset_infos = Some(PresetInfo::read_from_chunk(reader, record_size as usize)?);
                proof {
                    let done0 = done;
                    let size_i = record_size as int;
                    match spec_scan_chunks(data, reader.pos(), content as int - (reader.pos()
                        - counter.start())) {
                        ChunkScan::Done { chunks, leftover } => {
                            assert(done0 + (seq![entry] + chunks) =~= (done0.push(entry))
                                + chunks);
                            assert(scan_full == (ChunkScan::Done {
                                chunks: (done0.push(entry)) + chunks,
                                leftover,
                            }));
                        },
                        ChunkScan::Truncated => {
                            assert(scan_full is Truncated);
                        },
                    }
                    lemma_last_chunk_push(done0, entry, seq![0x70u8, 0x68u8, 0x64u8, 0x72u8]);
                    lemma_last_chunk_push(done0, entry, seq![0x70u8, 0x62u8, 0x61u8, 0x67u8]);
                    lemma_last_chunk_push(done0, entry, seq![0x70u8, 0x6du8, 0x6fu8, 0x64u8]);
                    lemma_last_chunk_push(done0, entry, seq![0x70u8, 0x67u8, 0x65u8, 0x6eu8]);
                    lemma_last_chunk_push(done0, entry, seq![0x69u8, 0x6eu8, 0x73u8, 0x74u8]);
                    lemma_last_chunk_push(done0, entry, seq![0x69u8, 0x62u8, 0x61u8, 0x67u8]);
                    lemma_last_chunk_push(done0, entry, seq![0x69u8, 0x6du8, 0x6fu8, 0x64u8]);
                    lemma_last_chunk_push(done0, entry, seq![0x69u8, 0x67u8, 0x65u8, 0x6eu8]);
                    lemma_last_chunk_push(done0, entry, seq![0x73u8, 0x68u8, 0x64u8, 0x72u8]);
                    assert(!(entry.tag =~= seq![0x70u8, 0x62u8, 0x61u8, 0x67u8])) by {
                        assert(entry.tag[1] == 0x68);
                    }
                    assert(!(entry.tag =~= seq![0x70u8, 0x6du8, 0x6fu8, 0x64u8])) by {
                        assert(entry.tag[1] == 0x68);
                    }
                    assert(!(entry.tag =~= seq![0x70u8, 0x67u8, 0x65u8, 0x6eu8])) by {
                        assert(entry.tag[1] == 0x68);
                    }
                    assert(!(entry.tag =~= seq![0x69u8, 0x6eu8, 0x73u8, 0x74u8])) by {
                        assert(entry.tag[0] == 0x70);
                    }
                    assert(!(entry.tag =~= seq![0x69u8, 0x62u8, 0x61u8, 0x67u8])) by {
                        assert(entry.tag[0] == 0x70);
                    }
                    assert(!(entry.tag =~= seq![0x69u8, 0x6du8, 0x6fu8, 0x64u8])) by {
                        assert(entry.tag[0] == 0x70);
                    }
                    assert(!(entry.tag =~= seq![0x69u8, 0x67u8, 0x65u8, 0x6eu8])) by {
                        assert(entry.tag[0] == 0x70);
                    }
                    assert(!(entry.tag =~= seq![0x73u8, 0x68u8, 0x64u8, 0x72u8])) by {
                        assert(entry.tag[0] == 0x70);
                    }
                    done = done0.push(entry);
                    assert(spec_last_chunk(done, seq![0x70u8, 0x68u8, 0x64u8, 0x72u8]) == Some(entry));
                }
            } else if id.matches_tag(0x70, 0x62, 0x61, 0x67) {
                proof {
                    let size_i = record_size as int;
                    match spec_scan_chunks(data, p + 8 + size_i, rem - 8 - size_i) {
                        ChunkScan::Done { chunks, leftover } => {
                            assert(spec_scan_chunks(data, p, rem) == (ChunkScan::Done {
                                chunks: seq![entry] + chunks,
                                leftover,
                            }));
                            assert(scan_full == (ChunkScan::Done {
                                chunks: done + (seq![entry] + chunks),
                                leftover,
                            }));
                            assert((done + (seq![entry] + chunks))[done.len() as int] == entry);
                        },
                        ChunkScan::Truncated => {
                            assert(spec_scan_chunks(data, p, rem) is Truncated);
                        },
                    }
                }
                preset_bag = Some(ZoneInfo::read_from_chunk(reader, record_size as usize)?);
                proof {
                    let done0 = done;
                    let size_i = record_size as int;
                    match spec_scan_chunks(data, reader.pos(), content as int - (reader.pos()
                        - counter.start())) {
                        ChunkScan::Done { chunks, leftover } => {
                            assert(done0 + (seq![entry] + chunks) =~= (done0.push(entry))
                                + chunks);
                            assert(scan_full == (ChunkScan::Done {
                                chunks: (done0.push(entry)) + chunks,
                                leftover,
                            }));
                        },
                        ChunkScan::Truncated => {
                            assert(scan_full is Truncated);
                        },
                    }
                    lemma_last_chunk_push(done0, entry, seq![0x70u8, 0x68u8, 0x64u8, 0x72u8]);
                    lemma_last_chunk_push(done0, entry, seq![0x70u8, 0x62u8, 0x61u8, 0x67u8]);
                    lemma_last_chunk_push(done0, entry, seq![0x70u8, 0x6du8, 0x6fu8, 0x64u8]);
                    lemma_last_chunk_push(done0, entry, seq![0x70u8, 0x67u8, 0x65u8, 0x6eu8]);
                    lemma_last_chunk_push(done0, entry, seq![0x69u8, 0x6eu8, 0x73u8, 0x74u8]);
                    lemma_last_chunk_push(done0, entry, seq![0x69u8, 0x62u8, 0x61u8, 0x67u8]);
                    lemma_last_chunk_push(done0, entry, seq![0x69u8, 0x6du8, 0x6fu8, 0x64u8]);
                    lemma_last_chunk_push(done0, entry, seq![0x69u8, 0x67u8, 0x65u8, 0x6eu8]);
                    lemma_last_chunk_push(done0, entry, seq![0x73u8, 0x68u8, 0x64u8, 0x72u8]);
                    assert(!(entry.tag =~= seq![0x70u8, 0x68u8, 0x64u8, 0x72u8])) by {
                        assert(entry.tag[1] == 0x62);
                    }
                    assert(!(entry.tag =~= seq![0x70u8, 0x6du8, 0x6fu8, 0x64u8])) by {
                        assert(entry.tag[1] == 0x62);
                    }
                    assert(!(entry.tag =~= seq![0x70u8, 0x67u8, 0x65u8, 0x6eu8])) by {
                        assert(entry.tag[1] == 0x62);
                    }
                    assert(!(entry.tag =~= seq![0x69u8, 0x6eu8, 0x73u8, 0x74u8])) by {
                        assert(entry.tag[0] == 0x70);
                    }
                    assert(!(entry.tag =~= seq![0x69u8, 0x62u8, 0x61u8, 0x67u8])) by {
                        assert(entry.tag[0] == 0x70);
                    }
                    assert(!(entry.tag =~= seq![0x69u8, 0x6du8, 0x6fu8, 0x64u8])) by {
                        assert(entry.tag[0] == 0x70);
                    }
                    assert(!(entry.tag =~= seq![0x69u8, 0x67u8, 0x65u8, 0x6eu8])) by {
                        assert(entry.tag[0] == 0x70);
                    }
                    assert(!(entry.tag =~= seq![0x73u8, 0x68u8, 0x64u8, 0x72u8])) by {
                        assert(entry.tag[0] == 0x70);
                    }
                    done = done0.push(entry);
                    assert(spec_last_chunk(done, seq![0x70u8, 0x62u8, 0x61u8, 0x67u8]) == Some(entry));
                }
            } else if id.matches_tag(0x70, 0x6d, 0x6f, 0x64) {
                proof {
                    let size_i = record_size as int;
                    match spec_scan_chunks(data, p + 8 + size_i, rem - 8 - size_i) {
                        ChunkScan::Done { chunks, leftover } => {
                            assert(spec_scan_chunks(data, p, rem) == (ChunkScan::Done {
                                chunks: seq![entry] + chunks,
                                leftover,
                            }));
                            assert(scan_full == (ChunkScan::Done {
                                chunks: done + (seq![entry] + chunks),
                                leftover,
                            }));
                            assert((done + (seq![entry] + chunks))[done.len() as int] == entry);
                        },
                        ChunkScan::Truncated => {
                            assert(spec_scan_chunks(data, p, rem) is Truncated);
                        },
                    }
                }
                BinaryReader::discard_data(reader, record_size as usize).unwrap();
                proof {
                    let done0 = done;
                    let size_i = record_size as int;
                    match spec_scan_chunks(data, reader.pos(), content as int - (reader.pos()
                        - counter.start())) {
                        ChunkScan::Done { chunks, leftover } => {
                            assert(done0 + (seq![entry] + chunks) =~= (done0.push(entry))
                                + chunks);
                            assert(scan_full == (ChunkScan::Done {
                                chunks: (done0.push(entry)) + chunks,
                                leftover,
                            }));
                        },
                        ChunkScan::Truncated => {
                            assert(scan_full is Truncated);
                        },
                    }
                    lemma_last_chunk_push(done0, entry, seq![0x70u8, 0x68u8, 0x64u8, 0x72u8]);
                    lemma_last_chunk_push(done0, entry, seq![0x70u8, 0x62u8, 0x61u8, 0x67u8]);
                    lemma_last_chunk_push(done0, entry, seq![0x70u8, 0x6du8, 0x6fu8, 0x64u8]);
                    lemma_last_chunk_push(done0, entry, seq![0x70u8, 0x67u8, 0x65u8, 0x6eu8]);
                    lemma_last_chunk_push(done0, entry, seq![0x69u8, 0x6eu8, 0x73u8, 0x74u8]);
                    lemma_last_chunk_push(done0, entry, seq![0x69u8, 0x62u8, 0x61u8, 0x67u8]);
                    lemma_last_chunk_push(done0, entry, seq![0x69u8, 0x6du8, 0x6fu8, 0x64u8]);
                    lemma_last_chunk_push(done0, entry, seq![0x69u8, 0x67u8, 0x65u8, 0x6eu8]);
                    lemma_last_chunk_push(done0, entry, seq![0x73u8, 0x68u8, 0x64u8, 0x72u8]);
                    assert(!(entry.tag =~= seq![0x70u8, 0x68u8, 0x64u8, 0x72u8])) by {
                        assert(entry.tag[1] == 0x6d);
                    }
                    assert(!(entry.tag =~= seq![0x70u8, 0x62u8, 0x61u8, 0x67u8])) by {
                        assert(entry.tag[1] == 0x6d);
                    }
                    assert(!(entry.tag =~= seq![0x70u8, 0x67u8, 0x65u8, 0x6eu8])) by {
                        assert(entry.tag[1] == 0x6d);
                    }
                    assert(!(entry.tag =~= seq![0x69u8, 0x6eu8, 0x73u8, 0x74u8])) by {
                        assert(entry.tag[0] == 0x70);
                    }
                    assert(!(entry.tag =~= seq![0x69u8, 0x62u8, 0x61u8, 0x67u8])) by {
                        assert(entry.tag[0] == 0x70);
                    }
                    assert(!(entry.tag =~= seq![0x69u8, 0x6du8, 0x6fu8, 0x64u8])) by {
                        assert(entry.tag[0] == 0x70);
                    }
                    assert(!(entry.tag =~= seq![0x69u8, 0x67u8, 0x65u8, 0x6eu8])) by {
                        assert(entry.tag[0] == 0x70);
                    }
                    assert(!(entry.tag =~= seq![0x73u8, 0x68u8, 0x64u8, 0x72u8])) by {
                        assert(entry.tag[0] == 0x70);
                    }
                    done = done0.push(entry);
                }
            } else if id.matches_tag(0x70, 0x67, 0x65, 0x6e) {
                proof {
                    let size_i = record_size as int;
                    match spec_scan_chunks(data, p + 8 + size_i, rem - 8 - size_i) {
                        ChunkScan::Done { chunks, leftover } => {
                            assert(spec_scan_chunks(data, p, rem) == (ChunkScan::Done {
                                chunks: seq![entry] + chunks,
                                leftover,
                            }));
                            assert(scan_full == (ChunkScan::Done {
                                chunks: done + (seq![entry] + chunks),
                                leftover,
                            }));
                            assert((done + (seq![entry] + chunks))[done.len() as int] == entry);
                        },
                        ChunkScan::Truncated => {
                            assert(spec_scan_chunks(data, p, rem) is Truncated);
                        },
                    }
                }
                preset_generators = Some(Generator::read_from_chunk(reader, record_size as usize)?);
                proof {
                    let done0 = done;
                    let size_i = record_size as int;
                    match spec_scan_chunks(data, reader.pos(), content as int - (reader.pos()
                        - counter.start())) {
                        ChunkScan::Done { chunks, leftover } => {
                            assert(done0 + (seq![entry] + chunks) =~= (done0.push(entry))
                                + chunks);
                            assert(scan_full == (ChunkScan::Done {
                                chunks: (done0.push(entry)) + chunks,
                                leftover,
                            }));
                        },
                        ChunkScan::Truncated => {
                            assert(scan_full is Truncated);
                        },
                    }
                    lemma_last_chunk_push(done0, entry, seq![0x70u8, 0x68u8, 0x64u8, 0x72u8]);
                    lemma_last_chunk_push(done0, entry, seq![0x70u8, 0x62u8, 0x61u8, 0x67u8]);
                    lemma_last_chunk_push(done0, entry, seq![0x70u8, 0x6du8, 0x6fu8, 0x64u8]);
                    lemma_last_chunk_push(done0, entry, seq![0x70u8, 0x67u8, 0x65u8, 0x6eu8]);
                    lemma_last_chunk_push(done0, entry, seq![0x69u8, 0x6eu8, 0x73u8, 0x74u8]);
                    lemma_last_chunk_push(done0, entry, seq![0x69u8, 0x62u8, 0x61u8, 0x67u8]);
                    lemma_last_chunk_push(done0, entry, seq![0x69u8, 0x6du8, 0x6fu8, 0x64u8]);
                    lemma_last_chunk_push(done0, entry, seq![0x69u8, 0x67u8, 0x65u8, 0x6eu8]);
                    lemma_last_chunk_push(done0, entry, seq![0x73u8, 0x68u8, 0x64u8, 0x72u8]);
                    assert(!(entry.tag =~= seq![0x70u8, 0x68u8, 0x64u8, 0x72u8])) by {
                        assert(entry.tag[1] == 0x67);
                    }
                    assert(!(entry.tag =~= seq![0x70u8, 0x62u8, 0x61u8, 0x67u8])) by {
                        assert(entry.tag[1] == 0x67);
                    }
                    assert(!(entry.tag =~= seq![0x70u8, 0x6du8, 0x6fu8, 0x64u8])) by {
                        assert(entry.tag[1] == 0x67);
                    }
                    assert(!(entry.tag =~= seq![0x69u8, 0x6eu8, 0x73u8, 0x74u8])) by {
                        assert(entry.tag[0] == 0x70);
                    }
                    assert(!(entry.tag =~= seq![0x69u8, 0x62u8, 0x61u8, 0x67u8])) by {
                        assert(entry.tag[0] == 0x70);
                    }
                    assert(!(entry.tag =~= seq![0x69u8, 0x6du8, 0x6fu8, 0x64u8])) by {
                        assert(entry.tag[0] == 0x70);
                    }
                    assert(!(entry.tag =~= seq![0x69u8, 0x67u8, 0x65u8, 0x6eu8])) by {
                        assert(entry.tag[0] == 0x70);
                    }
                    assert(!(entry.tag =~= seq![0x73u8, 0x68u8, 0x64u8, 0x72u8])) by {
                        assert(entry.tag[0] == 0x70);
                    }
                    done = done0.push(entry);
                    assert(spec_last_chunk(done, seq![0x70u8, 0x67u8, 0x65u8, 0x6eu8]) == Some(entry));
                }
            } else if id.matches_tag(0x69, 0x6e, 0x73, 0x74) {
                proof {
                    let size_i = record_size as int;
                    match spec_scan_chunks(data, p + 8 + size_i, rem - 8 - size_i) {
                        ChunkScan::Done { chunks, leftover } => {
                            assert(spec_scan_chunks(data, p, rem) == (ChunkScan::Done {
                                chunks: seq![entry] + chunks,
                                leftover,
                            }));
                            assert(scan_full == (ChunkScan::Done {
                                chunks: done + (seq![entry] + chunks),
                                leftover,
                            }));
                            assert((done + (seq![entry] + chunks))[done.len() as int] == entry);
                        },
                        ChunkScan::Truncated => {
                            assert(spec_scan_chunks(data, p, rem) is Truncated);
                        },
                    }
                }
                instrument_infos = Some(InstrumentInfo::read_from_chunk(reader, record_size as usize)?);
                proof {
                    let done0 = done;
                    let size_i = record_size as int;
                    match spec_scan_chunks(data, reader.pos(), content as int - (reader.pos()
                        - counter.start())) {
                        ChunkScan::Done { chunks, leftover } => {
                            assert(done0 + (seq![entry] + chunks) =~= (done0.push(entry))
                                + chunks);
                            assert(scan_full == (ChunkScan::Done {
                                chunks: (done0.push(entry)) + chunks,
                                leftover,
                            }));
                        },
                        ChunkScan::Truncated => {
                            assert(scan_full is Truncated);
                        },
                    }
                    lemma_last_chunk_push(done0, entry, seq![0x70u8, 0x68u8, 0x64u8, 0x72u8]);
                    lemma_last_chunk_push(done0, entry, seq![0x70u8, 0x62u8, 0x61u8, 0x67u8]);
                    lemma_last_chunk_push(done0, entry, seq![0x70u8, 0x6du8, 0x6fu8, 0x64u8]);
                    lemma_last_chunk_push(done0, entry, seq![0x70u8, 0x67u8, 0x65u8, 0x6eu8]);
                    lemma_last_chunk_push(done0, entry, seq![0x69u8, 0x6eu8, 0x73u8, 0x74u8]);
                    lemma_last_chunk_push(done0, entry, seq![0x69u8, 0x62u8, 0x61u8, 0x67u8]);
                    lemma_last_chunk_push(done0, entry, seq![0x69u8, 0x6du8, 0x6fu8, 0x64u8]);
                    lemma_last_chunk_push(done0, entry, seq![0x69u8, 0x67u8, 0x65u8, 0x6eu8]);
                    lemma_last_chunk_push(done0, entry, seq![0x73u8, 0x68u8, 0x64u8, 0x72u8]);
                    assert(!(entry.tag =~= seq![0x70u8, 0x68u8, 0x64u8, 0x72u8])) by {
                        assert(entry.tag[0] == 0x69);
                    }
                    assert(!(entry.tag =~= seq![0x70u8, 0x62u8, 0x61u8, 0x67u8])) by {
                        assert(entry.tag[0] == 0x69);
                    }
                    assert(!(entry.tag =~= seq![0x70u8, 0x6du8, 0x6fu8, 0x64u8])) by {
                        assert(entry.tag[0] == 0x69);
                    }
                    assert(!(entry.tag =~= seq![0x70u8, 0x67u8, 0x65u8, 0x6eu8])) by {
                        assert(entry.tag[0] == 0x69);
                    }
                    assert(!(entry.tag =~= seq![0x69u8, 0x62u8, 0x61u8, 0x67u8])) by {
                        assert(entry.tag[1] == 0x6e);
                    }
                    assert(!(entry.tag =~= seq![0x69u8, 0x6du8, 0x6fu8, 0x64u8])) by {
                        assert(entry.tag[1] == 0x6e);
                    }
                    assert(!(entry.tag =~= seq![0x69u8, 0x67u8, 0x65u8, 0x6eu8])) by {
                        assert(entry.tag[1] == 0x6e);
                    }
                    assert(!(entry.tag =~= seq![0x73u8, 0x68u8, 0x64u8, 0x72u8])) by {
                        assert(entry.tag[0] == 0x69);
                    }
                    done = done0.push(entry);
                    assert(spec_last_chunk(done, seq![0x69u8, 0x6eu8, 0x73u8, 0x74u8]) == Some(entry));
                }
            } else if id.matches_tag(0x69, 0x62, 0x61, 0x67) {
                proof {
                    let size_i = record_size as int;
                    match spec_scan_chunks(data, p + 8 + size_i, rem - 8 - size_i) {
                        ChunkScan::Done { chunks, leftover } => {
                            assert(spec_scan_chunks(data, p, rem) == (ChunkScan::Done {
                                chunks: seq![entry] + chunks,
                                leftover,
                            }));
                            assert(scan_full == (ChunkScan::Done {
                                chunks: done + (seq![entry] + chunks),
                                leftover,
                            }));
                            assert((done + (seq![entry] + chunks))[done.len() as int] == entry);
                        },
                        ChunkScan::Truncated => {
                            assert(spec_scan_chunks(data, p, rem) is Truncated);
                        },
                    }
                }
                instrument_bag = Some(ZoneInfo::read_from_chunk(reader, record_size as usize)?);
                proof {
                    let done0 = done;
                    let size_i = record_size as int;
                    match spec_scan_chunks(data, reader.pos(), content as int - (reader.pos()
                        - counter.start())) {
                        ChunkScan::Done { chunks, leftover } => {
                            assert(done0 + (seq![entry] + chunks) =~= (done0.push(entry))
                                + chunks);
                            assert(scan_full == (ChunkScan::Done {
                                chunks: (done0.push(entry)) + chunks,
                                leftover,
                            }));
                        },
                        ChunkScan::Truncated => {
                            assert(scan_full is Truncated);
                        },
                    }
                    lemma_last_chunk_push(done0, entry, seq![0x70u8, 0x68u8, 0x64u8, 0x72u8]);
                    lemma_last_chunk_push(done0, entry, seq![0x70u8, 0x62u8, 0x61u8, 0x67u8]);
                    lemma_last_chunk_push(done0, entry, seq![0x70u8, 0x6du8, 0x6fu8, 0x64u8]);
                    lemma_last_chunk_push(done0, entry, seq![0x70u8, 0x67u8, 0x65u8, 0x6eu8]);
                    lemma_last_chunk_push(done0, entry, seq![0x69u8, 0x6eu8, 0x73u8, 0x74u8]);
                    lemma_last_chunk_push(done0, entry, seq![0x69u8, 0x62u8, 0x61u8, 0x67u8]);
                    lemma_last_chunk_push(done0, entry, seq![0x69u8, 0x6du8, 0x6fu8, 0x64u8]);
                    lemma_last_chunk_push(done0, entry, seq![0x69u8, 0x67u8, 0x65u8, 0x6eu8]);
                    lemma_last_chunk_push(done0, entry, seq![0x73u8, 0x68u8, 0x64u8, 0x72u8]);
                    assert(!(entry.tag =~= seq![0x70u8, 0x68u8, 0x64u8, 0x72u8])) by {
                        assert(entry.tag[0] == 0x69);
                    }
                    assert(!(entry.tag =~= seq![0x70u8, 0x62u8, 0x61u8, 0x67u8])) by {
                        assert(entry.tag[0] == 0x69);
                    }
                    assert(!(entry.tag =~= seq![0x70u8, 0x6du8, 0x6fu8, 0x64u8])) by {
                        assert(entry.tag[0] == 0x69);
                    }
                    assert(!(entry.tag =~= seq![0x70u8, 0x67u8, 0x65u8, 0x6eu8])) by {
                        assert(entry.tag[0] == 0x69);
                    }
                    assert(!(entry.tag =~= seq![0x69u8, 0x6eu8, 0x73u8, 0x74u8])) by {
                        assert(entry.tag[1] == 0x62);
                    }
                    assert(!(entry.tag =~= seq![0x69u8, 0x6du8, 0x6fu8, 0x64u8])) by {
                        assert(entry.tag[1] == 0x62);
                    }
                    assert(!(entry.tag =~= seq![0x69u8, 0x67u8, 0x65u8, 0x6eu8])) by {
                        assert(entry.tag[1] == 0x62);
                    }
                    assert(!(entry.tag =~= seq![0x73u8, 0x68u8, 0x64u8, 0x72u8])) by {
                        assert(entry.tag[0] == 0x69);
                    }
                    done = done0.push(entry);
                    assert(spec_last_chunk(done, seq![0x69u8, 0x62u8, 0x61u8, 0x67u8]) == Some(entry));
                }
            } else if id.matches_tag(0x69, 0x6d, 0x6f, 0x64) {
                proof {
                    let size_i = record_size as int;
                    match spec_scan_chunks(data, p + 8 + size_i, rem - 8 - size_i) {
                        ChunkScan::Done { chunks, leftover } => {
                            assert(spec_scan_chunks(data, p, rem) == (ChunkScan::Done {
                                chunks: seq![entry] + chunks,
                                leftover,
                            }));
                            assert(scan_full == (ChunkScan::Done {
                                chunks: done + (seq![entry] + chunks),
                                leftover,
                            }));
                            assert((done + (seq![entry] + chunks))[done.len() as int] == entry);
                        },
                        ChunkScan::Truncated => {
                            assert(spec_scan_chunks(data, p, rem) is Truncated);
                        },
                    }
                }
                BinaryReader::discard_data(reader, record_size as usize).unwrap();
                proof {
                    let done0 = done;
                    let size_i = record_size as int;
                    match spec_scan_chunks(data, reader.pos(), content as int - (reader.pos()
                        - counter.start())) {
                        ChunkScan::Done { chunks, leftover } => {
                            assert(done0 + (seq![entry] + chunks) =~= (done0.push(entry))
                                + chunks);
                            assert(scan_full == (ChunkScan::Done {
                                chunks: (done0.push(entry)) + chunks,
                                leftover,
                            }));
                        },
                        ChunkScan::Truncated => {
                            assert(scan_full is Truncated);
                        },
                    }
                    lemma_last_chunk_push(done0, entry, seq![0x70u8, 0x68u8, 0x64u8, 0x72u8]);
                    lemma_last_chunk_push(done0, entry, seq![0x70u8, 0x62u8, 0x61u8, 0x67u8]);
                    lemma_last_chunk_push(done0, entry, seq![0x70u8, 0x6du8, 0x6fu8, 0x64u8]);
                    lemma_last_chunk_push(done0, entry, seq![0x70u8, 0x67u8, 0x65u8, 0x6eu8]);
                    lemma_last_chunk_push(done0, entry, seq![0x69u8, 0x6eu8, 0x73u8, 0x74u8]);
                    lemma_last_chunk_push(done0, entry, seq![0x69u8, 0x62u8, 0x61u8, 0x67u8]);
                    lemma_last_chunk_push(done0, entry, seq![0x69u8, 0x6du8, 0x6fu8, 0x64u8]);
                    lemma_last_chunk_push(done0, entry, seq![0x69u8, 0x67u8, 0x65u8, 0x6eu8]);
                    lemma_last_chunk_push(done0, entry, seq![0x73u8, 0x68u8, 0x64u8, 0x72u8]);
                    assert(!(entry.tag =~= seq![0x70u8, 0x68u8, 0x64u8, 0x72u8])) by {
                        assert(entry.tag[0] == 0x69);
                    }
                    assert(!(entry.tag =~= seq![0x70u8, 0x62u8, 0x61u8, 0x67u8])) by {
                        assert(entry.tag[0] == 0x69);
                    }
                    assert(!(entry.tag =~= seq![0x70u8, 0x6du8, 0x6fu8, 0x64u8])) by {
                        assert(entry.tag[0] == 0x69);
                    }
                    assert(!(entry.tag =~= seq![0x70u8, 0x67u8, 0x65u8, 0x6eu8])) by {
                        assert(entry.tag[0] == 0x69);
                    }
                    assert(!(entry.tag =~= seq![0x69u8, 0x6eu8, 0x73u8, 0x74u8])) by {
                        assert(entry.tag[1] == 0x6d);
                    }
                    assert(!(entry.tag =~= seq![0x69u8, 0x62u8, 0x61u8, 0x67u8])) by {
                        assert(entry.tag[1] == 0x6d);
                    }
                    assert(!(entry.tag =~= seq![0x69u8, 0x67u8, 0x65u8, 0x6eu8])) by {
                        assert(entry.tag[1] == 0x6d);
                    }
                    assert(!(entry.tag =~= seq![0x73u8, 0x68u8, 0x64u8, 0x72u8])) by {
                        assert(entry.tag[0] == 0x69);
                    }
                    done = done0.push(entry);
                }
            } else if id.matches_tag(0x69, 0x67, 0x65, 0x6e) {
                proof {
                    let size_i = record_size as int;
                    match spec_scan_chunks(data, p + 8 + size_i, rem - 8 - size_i) {
                        ChunkScan::Done { chunks, leftover } => {
                            assert(spec_scan_chunks(data, p, rem) == (ChunkScan::Done {
                                chunks: seq![entry] + chunks,
                                leftover,
                            }));
                            assert(scan_full == (ChunkScan::Done {
                                chunks: done + (seq![entry] + chunks),
                                leftover,
                            }));
                            assert((done + (seq![entry] + chunks))[done.len() as int] == entry);
                        },
                        ChunkScan::Truncated => {
                            assert(spec_scan_chunks(data, p, rem) is Truncated);
                        },
                    }
                }
                instrument_generators = Some(Generator::read_from_chunk(reader, record_size as usize)?);
                proof {
                    let done0 = done;
                    let size_i = record_size as int;
                    match spec_scan_chunks(data, reader.pos(), content as int - (reader.pos()
                        - counter.start())) {
                        ChunkScan::Done { chunks, leftover } => {
                            assert(done0 + (seq![entry] + chunks) =~= (done0.push(entry))
                                + chunks);
                            assert(scan_full == (ChunkScan::Done {
                                chunks: (done0.push(entry)) + chunks,
                                leftover,
                            }));
                        },
                        ChunkScan::Truncated => {
                            assert(scan_full is Truncated);
                        },
                    }
                    lemma_last_chunk_push(done0, entry, seq![0x70u8, 0x68u8, 0x64u8, 0x72u8]);
                    lemma_last_chunk_push(done0, entry, seq![0x70u8, 0x62u8, 0x61u8, 0x67u8]);
                    lemma_last_chunk_push(done0, entry, seq![0x70u8, 0x6du8, 0x6fu8, 0x64u8]);
                    lemma_last_chunk_push(done0, entry, seq![0x70u8, 0x67u8, 0x65u8, 0x6eu8]);
                    lemma_last_chunk_push(done0, entry, seq![0x69u8, 0x6eu8, 0x73u8, 0x74u8]);
                    lemma_last_chunk_push(done0, entry, seq![0x69u8, 0x62u8, 0x61u8, 0x67u8]);
                    lemma_last_chunk_push(done0, entry, seq![0x69u8, 0x6du8, 0x6fu8, 0x64u8]);
                    lemma_last_chunk_push(done0, entry, seq![0x69u8, 0x67u8, 0x65u8, 0x6eu8]);
                    lemma_last_chunk_push(done0, entry, seq![0x73u8, 0x68u8, 0x64u8, 0x72u8]);
                    assert(!(entry.tag =~= seq![0x70u8, 0x68u8, 0x64u8, 0x72u8])) by {
                        assert(entry.tag[0] == 0x69);
                    }
                    assert(!(entry.tag =~= seq![0x70u8, 0x62u8, 0x61u8, 0x67u8])) by {
                        assert(entry.tag[0] == 0x69);
                    }
                    assert(!(entry.tag =~= seq![0x70u8, 0x6du8, 0x6fu8, 0x64u8])) by {
                        assert(entry.tag[0] == 0x69);
                    }
                    assert(!(entry.tag =~= seq![0x70u8, 0x67u8, 0x65u8, 0x6eu8])) by {
                        assert(entry.tag[0] == 0x69);
                    }
                    assert(!(entry.tag =~= seq![0x69u8, 0x6eu8, 0x73u8, 0x74u8])) by {
                        assert(entry.tag[1] == 0x67);
                    }
                    assert(!(entry.tag =~= seq![0x69u8, 0x62u8, 0x61u8, 0x67u8])) by {
                        assert(entry.tag[1] == 0x67);
                    }
                    assert(!(entry.tag =~= seq![0x69u8, 0x6du8, 0x6fu8, 0x64u8])) by {
                        assert(entry.tag[1] == 0x67);
                    }
                    assert(!(entry.tag =~= seq![0x73u8, 0x68u8, 0x64u8, 0x72u8])) by {
                        assert(entry.tag[0] == 0x69);
                    }
                    done = done0.push(entry);
                    assert(spec_last_chunk(done, seq![0x69u8, 0x67u8, 0x65u8, 0x6eu8]) == Some(entry));
                }
            } else if id.matches_tag(0x73, 0x68, 0x64, 0x72) {
                proof {
                    let size_i = record_size as int;
                    match spec_scan_chunks(data, p + 8 + size_i, rem - 8 - size_i) {
                        ChunkScan::Done { chunks, leftover } => {
                            assert(spec_scan_chunks(data, p, rem) == (ChunkScan::Done {
                                chunks: seq![entry] + chunks,
                                leftover,
                            }));
                            assert(scan_full == (ChunkScan::Done {
                                chunks: done + (seq![entry] + chunks),
                                leftover,
                            }));
                            assert((done + (seq![entry] + chunks))[done.len() as int] == entry);
                        },
                        ChunkScan::Truncated => {
                            assert(spec_scan_chunks(data, p, rem) is Truncated);
                        },
                    }
                }
                proof {
                    shdr_at = reader.pos();
                }
                sample_headers = Some(SampleHeader::read_from_chunk(reader, record_size as usize)?);
                proof {
                    let done0 = done;
                    let size_i = record_size as int;
                    match spec_scan_chunks(data, reader.pos(), content as int - (reader.pos()
                        - counter.start())) {
                        ChunkScan::Done { chunks, leftover } => {
                            assert(done0 + (seq![entry] + chunks) =~= (done0.push(entry))
                                + chunks);
                            assert(scan_full == (ChunkScan::Done {
                                chunks: (done0.push(entry)) + chunks,
                                leftover,
                            }));
                        },
                        ChunkScan::Truncated => {
                            assert(scan_full is Truncated);
                        },
                    }
                    lemma_last_chunk_push(done0, entry, seq![0x70u8, 0x68u8, 0x64u8, 0x72u8]);
                    lemma_last_chunk_push(done0, entry, seq![0x70u8, 0x62u8, 0x61u8, 0x67u8]);
                    lemma_last_chunk_push(done0, entry, seq![0x70u8, 0x6du8, 0x6fu8, 0x64u8]);
                    lemma_last_chunk_push(done0, entry, seq![0x70u8, 0x67u8, 0x65u8, 0x6eu8]);
                    lemma_last_chunk_push(done0, entry, seq![0x69u8, 0x6eu8, 0x73u8, 0x74u8]);
                    lemma_last_chunk_push(done0, entry, seq![0x69u8, 0x62u8, 0x61u8, 0x67u8]);
                    lemma_last_chunk_push(done0, entry, seq![0x69u8, 0x6du8, 0x6fu8, 0x64u8]);
                    lemma_last_chunk_push(done0, entry, seq![0x69u8, 0x67u8, 0x65u8, 0x6eu8]);
                    lemma_last_chunk_push(done0, entry, seq![0x73u8, 0x68u8, 0x64u8, 0x72u8]);
                    assert(!(entry.tag =~= seq![0x70u8, 0x68u8, 0x64u8, 0x72u8])) by {
                        assert(entry.tag[0] == 0x73);
                    }
                    assert(!(entry.tag =~= seq![0x70u8, 0x62u8, 0x61u8, 0x67u8])) by {
                        assert(entry.tag[0] == 0x73);
                    }
                    assert(!(entry.tag =~= seq![0x70u8, 0x6du8, 0x6fu8, 0x64u8])) by {
                        assert(entry.tag[0] == 0x73);
                    }
                    assert(!(entry.tag =~= seq![0x70u8, 0x67u8, 0x65u8, 0x6eu8])) by {
                        assert(entry.tag[0] == 0x73);
                    }
                    assert(!(entry.tag =~= seq![0x69u8, 0x6eu8, 0x73u8, 0x74u8])) by {
                        assert(entry.tag[0] == 0x73);
                    }
                    assert(!(entry.tag =~= seq![0x69u8, 0x62u8, 0x61u8, 0x67u8])) by {
                        assert(entry.tag[0] == 0x73);
                    }
                    assert(!(entry.tag =~= seq![0x69u8, 0x6du8, 0x6fu8, 0x64u8])) by {
                        assert(entry.tag[0] == 0x73);
                    }
                    assert(!(entry.tag =~= seq![0x69u8, 0x67u8, 0x65u8, 0x6eu8])) by {
                        assert(entry.tag[0] == 0x73);
                    }
                    done = done0.push(entry);
                    assert(spec_last_chunk(done, seq![0x73u8, 0x68u8, 0x64u8, 0x72u8]) == Some(entry));
                }
            } else {
                proof {
                    let size_i = record_size as int;
                    match spec_scan_chunks(data, p + 8 + size_i, rem - 8 - size_i) {
                        ChunkScan::Done { chunks, leftover } => {
                            assert(spec_scan_chunks(data, p, rem) == (ChunkScan::Done {
                                chunks: seq![entry] + chunks,
                                leftover,
                            }));
                            assert(scan_full == (ChunkScan::Done {
                                chunks: done + (seq![entry] + chunks),
                                leftover,
                            }));
                            assert((done + (seq![entry] + chunks))[done.len() as int] == entry);
                        },
                        ChunkScan::Truncated => {
                            assert(spec_scan_chunks(data, p, rem) is Truncated);
                        },
                    }
                }
                return Err(SoundFontError::ListContainsUnknownId(id));
            }
        }
        proof {
            let rem = content as int - (reader.pos() - counter.start());
            assert(rem <= 0);
            assert(spec_scan_chunks(data, reader.pos(), rem) == (ChunkScan::Done {
                chunks: Seq::<ChunkEntry>::empty(),
                leftover: rem,
            }));
            assert(done + Seq::<ChunkEntry>::empty() =~= done);
            assert(scan_full == (ChunkScan::Done { chunks: done, leftover: rem }));
        }
        let preset_infos = match preset_infos {
            Some(v) => v,
            None => {
                return Err(
                    SoundFontError::SubChunkNotFound(FourCC::from_bytes([0x70, 0x68, 0x64, 0x72])),
                );
            },
        };
        let preset_bag = match preset_bag {
            Some(v) => v,
            None => {
                return Err(
                    SoundFontError::SubChunkNotFound(FourCC::from_bytes([0x70, 0x62, 0x61, 0x67])),
                );
            },
        };
        let preset_generators = match preset_generators {
            Some(v) => v,
            None => {
                return Err(
                    SoundFontError::SubChunkNotFound(FourCC::from_bytes([0x70, 0x67, 0x65, 0x6e])),
                );
            },
        };
        let instrument_infos = match instrument_infos {
            Some(v) => v,
            None => {
                return Err(
                    SoundFontError::SubChunkNotFound(FourCC::from_bytes([0x69, 0x6e, 0x73, 0x74])),
                );
            },
        };
        let instrument_bag = match instrument_bag {
            Some(v) => v,
            None => {
                return Err(
                    SoundFontError::SubChunkNotFound(FourCC::from_bytes([0x69, 0x62, 0x61, 0x67])),
                );
            },
        };
        let instrument_generators = match instrument_generators {
            Some(v) => v,
            None => {
                return Err(
                    SoundFontError::SubChunkNotFound(FourCC::from_bytes([0x69, 0x67, 0x65, 0x6e])),
                );
            },
        };
        let sample_headers = match sample_headers {
            Some(v) => v,
            None => {
                return Err(
                    SoundFontError::SubChunkNotFound(FourCC::from_bytes([0x73, 0x68, 0x64, 0x72])),
                );
            },
        };
        let preset_zones = match Zone::create(&preset_bag, &preset_generators) {
            Ok(z) => z,
            Err(e) => {
                proof {
                    assert(spec_pbag_records(preset_bag@, data, done));
                    assert(spec_pgen_records(preset_generators@, data, done));
                    assert(spec_ibag_records(instrument_bag@, data, done));
                    assert(spec_igen_records(instrument_generators@, data, done));
                    assert(spec_pdta_failure(data, base));
                }
                return Err(e);
            },
        };
        let instrument_zones = match Zone::create(&instrument_bag, &instrument_generators) {
            Ok(z) => z,
            Err(e) => {
                proof {
                    assert(spec_pbag_records(preset_bag@, data, done));
                    assert(spec_pgen_records(preset_generators@, data, done));
                    assert(spec_ibag_records(instrument_bag@, data, done));
                    assert(spec_igen_records(instrument_generators@, data, done));
                    assert(spec_pdta_failure(data, base));
                }
                return Err(e);
            },
        };
        let instruments = match Instrument::create(
            &instrument_infos,
            &instrument_zones,
            &sample_headers,
        ) {
            Ok(v) => v,
            Err(e) => {
                proof {
                    assert(spec_pbag_records(preset_bag@, data, done));
                    assert(spec_pgen_records(preset_generators@, data, done));
                    assert(spec_ibag_records(instrument_bag@, data, done));
                    assert(spec_igen_records(instrument_generators@, data, done));
                    assert(spec_phdr_records(preset_infos@, data, done));
                    assert(spec_inst_records(instrument_infos@, data, done));
                    assert(spec_zones_shape(preset_zones@, preset_bag@, preset_generators@));
                    assert(spec_zones_shape(instrument_zones@, instrument_bag@,
                        instrument_generators@));
                    assert(spec_last_chunk(done, seq![0x73u8, 0x68u8, 0x64u8, 0x72u8]) is Some);
                    assert(!spec_instruments_parseable(
                        instrument_infos@,
                        instrument_zones@,
                        sample_headers@.len() as int,
                    ));
                    assert(spec_pdta_failure(data, base));
                }
                return Err(e);
            },
        };
        let unsorted = match create_presets(&preset_infos, &preset_zones, instruments.len()) {
            Ok(v) => v,
            Err(e) => {
                proof {
                    assert(spec_pbag_records(preset_bag@, data, done));
                    assert(spec_pgen_records(preset_generators@, data, done));
                    assert(spec_ibag_records(instrument_bag@, data, done));
                    assert(spec_igen_records(instrument_generators@, data, done));
                    assert(spec_phdr_records(preset_infos@, data, done));
                    assert(spec_inst_records(instrument_infos@, data, done));
                    assert(spec_zones_shape(preset_zones@, preset_bag@, preset_generators@));
                    assert(spec_zones_shape(instrument_zones@, instrument_bag@,
                        instrument_generators@));
                    assert(spec_last_chunk(done, seq![0x73u8, 0x68u8, 0x64u8, 0x72u8]) is Some);
                    assert(!spec_presets_parseable(
                        preset_infos@,
                        preset_zones@,
                        instruments@.len() as int,
                    ));
                    assert(instruments@.len() == instrument_infos@.len() - 1);
                    assert(spec_pdta_failure(data, base));
                }
                return Err(e);
            },
        };
        let ghost unsorted_view = unsorted@;
        let presets = sort_presets(unsorted);
        proof {
            broadcast use vstd::seq_lib::group_to_multiset_ensures;

            assert forall|i: int| 0 <= i < presets@.len() implies (#[trigger] presets@[i]).wf(
                instruments@.len() as int,
            ) by {
                assert(presets@.contains(presets@[i]));
                assert(presets@.to_multiset().count(presets@[i]) > 0);
                assert(unsorted_view.to_multiset().count(presets@[i]) > 0);
                assert(unsorted_view.contains(presets@[i]));
                let j = choose|j: int|
                    0 <= j < unsorted_view.len() && unsorted_view[j] == presets@[i];
                assert(unsorted_view[j].wf(instruments@.len() as int));
            }
        }
        let result = SoundFontParameters { sample_headers, presets, instruments };
        proof {
            assert(spec_sample_headers_at(result.sample_headers@, old(reader).data(), shdr_at));
            assert(exists|pos: int|
                spec_sample_headers_at(result.sample_headers@, old(reader).data(), pos));
            assert(spec_zones_shape(preset_zones@, preset_bag@, preset_generators@));
            assert(spec_zones_shape(instrument_zones@, instrument_bag@, instrument_generators@));
            assert(spec_instruments_shape(result.instruments@, instrument_infos@,
                instrument_zones@, result.sample_headers@));
            assert(spec_presets_shape(unsorted_view, preset_infos@, preset_zones@,
                result.instruments@.len() as int));
            assert(spec_pdta_derivation(result, data, done));
        }
        Ok(result)
    }
}

} // verus!
