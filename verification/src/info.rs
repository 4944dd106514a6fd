//! The INFO list of a SoundFont: bank metadata.

use vstd::prelude::*;
use crate::binary::{
    le_u16_at, le_u32_at, lemma_last_chunk_push, spec_last_chunk, spec_list_header_ok,
    spec_name_field, spec_scan_chunks, BinaryReader, ByteCursor, ChunkEntry, ChunkScan,
    ReadCounter, ReadError,
};
use crate::error::{spec_four_cc, FourCC, SoundFontError};
use crate::version::SoundFontVersion;

verus! {

/// Whether a chunk of the INFO list carries a known record tag; the
/// version records must be at least four bytes.
pub open spec fn spec_info_tag_ok(e: ChunkEntry) -> bool {
    ||| (e.tag =~= seq![0x69u8, 0x66u8, 0x69u8, 0x6cu8] && e.size >= 4)
    ||| e.tag =~= seq![0x69u8, 0x73u8, 0x6eu8, 0x67u8]
    ||| e.tag =~= seq![0x49u8, 0x4eu8, 0x41u8, 0x4du8]
    ||| e.tag =~= seq![0x69u8, 0x72u8, 0x6fu8, 0x6du8]
    ||| (e.tag =~= seq![0x69u8, 0x76u8, 0x65u8, 0x72u8] && e.size >= 4)
    ||| e.tag =~= seq![0x49u8, 0x43u8, 0x52u8, 0x44u8]
    ||| e.tag =~= seq![0x49u8, 0x45u8, 0x4eu8, 0x47u8]
    ||| e.tag =~= seq![0x49u8, 0x50u8, 0x52u8, 0x44u8]
    ||| e.tag =~= seq![0x49u8, 0x43u8, 0x4fu8, 0x50u8]
    ||| e.tag =~= seq![0x49u8, 0x43u8, 0x4du8, 0x54u8]
    ||| e.tag =~= seq![0x49u8, 0x53u8, 0x46u8, 0x54u8]
}

/// Whether the INFO list at `pos` parses: a well-formed `LIST INFO`
/// header whose records all fit in the data and all carry known tags.
pub open spec fn spec_info_parseable(data: Seq<u8>, pos: int) -> bool {
    &&& spec_list_header_ok(data, pos, seq![0x49u8, 0x4eu8, 0x46u8, 0x4fu8])
    &&& match spec_scan_chunks(data, pos + 12, le_u32_at(data, pos + 4) - 4) {
        ChunkScan::Done { chunks, leftover } => forall|k: int|
            0 <= k < chunks.len() ==> spec_info_tag_ok(#[trigger] chunks[k]),
        ChunkScan::Truncated => false,
    }
}

/// How the decoded metadata relates to the records of the INFO list:
/// each field holds the decoding of the last record with its tag, or
/// its default when the tag never occurs.
pub open spec fn spec_info_matches(info: SoundFontInfo, data: Seq<u8>, chunks: Seq<ChunkEntry>) -> bool {
    &&& match spec_last_chunk(chunks, seq![0x69u8, 0x66u8, 0x69u8, 0x6cu8]) {
        Some(e) => info.version.major == le_u16_at(data, e.body) as i16 && info.version.minor
            == le_u16_at(data, e.body + 2) as i16,
        None => info.version == (SoundFontVersion { major: 0, minor: 0 }),
    }
    &&& match spec_last_chunk(chunks, seq![0x69u8, 0x73u8, 0x6eu8, 0x67u8]) {
        Some(e) => spec_name_field(info.target_sound_engine@, data, e.body, e.size),
        None => info.target_sound_engine@.len() == 0,
    }
    &&& match spec_last_chunk(chunks, seq![0x49u8, 0x4eu8, 0x41u8, 0x4du8]) {
        Some(e) => spec_name_field(info.bank_name@, data, e.body, e.size),
        None => info.bank_name@.len() == 0,
    }
    &&& match spec_last_chunk(chunks, seq![0x69u8, 0x72u8, 0x6fu8, 0x6du8]) {
        Some(e) => spec_name_field(info.rom_name@, data, e.body, e.size),
        None => info.rom_name@.len() == 0,
    }
    &&& match spec_last_chunk(chunks, seq![0x69u8, 0x76u8, 0x65u8, 0x72u8]) {
        Some(e) => info.rom_version.major == le_u16_at(data, e.body) as i16 && info.rom_version.minor
            == le_u16_at(data, e.body + 2) as i16,
        None => info.rom_version == (SoundFontVersion { major: 0, minor: 0 }),
    }
    &&& match spec_last_chunk(chunks, seq![0x49u8, 0x43u8, 0x52u8, 0x44u8]) {
        Some(e) => spec_name_field(info.creation_date@, data, e.body, e.size),
        None => info.creation_date@.len() == 0,
    }
    &&& match spec_last_chunk(chunks, seq![0x49u8, 0x45u8, 0x4eu8, 0x47u8]) {
        Some(e) => spec_name_field(info.author@, data, e.body, e.size),
        None => info.author@.len() == 0,
    }
    &&& match spec_last_chunk(chunks, seq![0x49u8, 0x50u8, 0x52u8, 0x44u8]) {
        Some(e) => spec_name_field(info.target_product@, data, e.body, e.size),
        None => info.target_product@.len() == 0,
    }
    &&& match spec_last_chunk(chunks, seq![0x49u8, 0x43u8, 0x4fu8, 0x50u8]) {
        Some(e) => spec_name_field(info.copyright@, data, e.body, e.size),
        None => info.copyright@.len() == 0,
    }
    &&& match spec_last_chunk(chunks, seq![0x49u8, 0x43u8, 0x4du8, 0x54u8]) {
        Some(e) => spec_name_field(info.comments@, data, e.body, e.size),
        None => info.comments@.len() == 0,
    }
    &&& match spec_last_chunk(chunks, seq![0x49u8, 0x53u8, 0x46u8, 0x54u8]) {
        Some(e) => spec_name_field(info.tools@, data, e.body, e.size),
        None => info.tools@.len() == 0,
    }
}

/// The metadata records of a SoundFont bank.
#[derive(Clone, Debug)]
pub struct SoundFontInfo {
    /// The format version from the `ifil` record.
    pub version: SoundFontVersion,
    /// The target sound engine from the `isng` record.
    pub target_sound_engine: Vec<u8>,
    /// The bank's name from the `INAM` record.
    pub bank_name: Vec<u8>,
    /// The ROM's name from the `irom` record.
    pub rom_name: Vec<u8>,
    /// The ROM version from the `iver` record.
    pub rom_version: SoundFontVersion,
    /// The creation date from the `ICRD` record.
    pub creation_date: Vec<u8>,
    /// The author from the `IENG` record.
    pub author: Vec<u8>,
    /// The target product from the `IPRD` record.
    pub target_product: Vec<u8>,
    /// The copyright notice from the `ICOP` record.
    pub copyright: Vec<u8>,
    /// The comments from the `ICMT` record.
    pub comments: Vec<u8>,
    /// The tool string from the `ISFT` record.
    pub tools: Vec<u8>,
}

impl SoundFontInfo {
    /// Read the `LIST INFO` chunk. Records may appear in any order and
    /// any may be missing; a later record overrides an earlier one of
    /// the same tag, and a record with an unknown tag is an error.
    pub fn new(reader: &mut ByteCursor) -> (r: Result<Self, SoundFontError>)
        requires
            old(reader).wf(),
        ensures
            final(reader).wf(),
            final(reader).data() == old(reader).data(),
            r is Ok <==> spec_info_parseable(old(reader).data(), old(reader).pos()),
            match r {
                Ok(info) => {
                    &&& final(reader).pos() >= old(reader).pos() + 8
                    &&& match spec_scan_chunks(
                        old(reader).data(),
                        old(reader).pos() + 12,
                        le_u32_at(old(reader).data(), old(reader).pos() + 4) - 4,
                    ) {
                        ChunkScan::Done { chunks, leftover } => spec_info_matches(
                            info,
                            old(reader).data(),
                            chunks,
                        ) && final(reader).pos() == old(reader).pos() + 8 + le_u32_at(
                            old(reader).data(),
                            old(reader).pos() + 4,
                        ) - leftover,
                        ChunkScan::Truncated => false,
                    }
                },
                Err(e) => {
                    ||| e is IoError
                    ||| e is ListChunkNotFound
                    ||| e is InvalidListChunkType
                    ||| e is ListContainsUnknownId
                },
            },
            r matches Err(SoundFontError::ListChunkNotFound) <==> (old(reader).spec_remaining()
                >= 4 && !(spec_four_cc(
                old(reader).data()[old(reader).pos()],
                old(reader).data()[old(reader).pos() + 1],
                old(reader).data()[old(reader).pos() + 2],
                old(reader).data()[old(reader).pos() + 3],
            ) =~= seq![0x4cu8, 0x49u8, 0x53u8, 0x54u8])),
    {
        let ghost data = old(reader).data();
        let ghost base = old(reader).pos();
        let chunk_id = match BinaryReader::read_four_cc(reader) {
            Ok(c) => c,
            Err(e) => {
                return Err(SoundFontError::IoError(e));
            },
        };
        if !chunk_id.matches_tag(0x4c, 0x49, 0x53, 0x54) {
            return Err(SoundFontError::ListChunkNotFound);
        }
        let size = match BinaryReader::read_u32(reader) {
            Ok(s) => s,
            Err(e) => {
                return Err(SoundFontError::IoError(e));
            },
        };
        if size < 4 || size as usize > reader.remaining() {
            return Err(SoundFontError::IoError(ReadError::UnexpectedEndOfStream));
        }
        let list_type = BinaryReader::read_four_cc(reader).unwrap();
        if !list_type.matches_tag(0x49, 0x4e, 0x46, 0x4f) {
            return Err(
                SoundFontError::InvalidListChunkType {
                    expected: FourCC::from_bytes([0x49, 0x4e, 0x46, 0x4f]),
                    actual: list_type,
                },
            );
        }
        let content = size as usize - 4;
        let counter = ReadCounter::new(reader);
        let ghost scan_full = spec_scan_chunks(data, base + 12, content as int);
        let ghost mut done: Seq<ChunkEntry> = Seq::empty();
        let mut info = SoundFontInfo {
            version: SoundFontVersion::default(),
            target_sound_engine: Vec::new(),
            bank_name: Vec::new(),
            rom_name: Vec::new(),
            rom_version: SoundFontVersion::default(),
            creation_date: Vec::new(),
            author: Vec::new(),
            target_product: Vec::new(),
            copyright: Vec::new(),
            comments: Vec::new(),
            tools: Vec::new(),
        };
        while counter.bytes_read(reader) < content
            invariant
                reader.wf(),
                reader.data() == data,
                data == old(reader).data(),
                base == old(reader).pos(),
                counter.start() == base + 12,
                base + 12 <= reader.pos(),
                spec_list_header_ok(data, base, seq![0x49u8, 0x4eu8, 0x46u8, 0x4fu8]),
                content as int == le_u32_at(data, base + 4) - 4,
                scan_full == spec_scan_chunks(data, base + 12, content as int),
                ({
                    let rem = content as int - (reader.pos() - counter.start());
                    match spec_scan_chunks(data, reader.pos(), rem) {
                        ChunkScan::Done { chunks, leftover } => scan_full == (ChunkScan::Done {
                            chunks: done + chunks,
                            leftover,
                        }),
                        ChunkScan::Truncated => scan_full is Truncated,
                    }
                }),
                forall|k: int| 0 <= k < done.len() ==> spec_info_tag_ok(#[trigger] done[k]),
                spec_info_matches(info, data, done),
            decreases (if reader.pos() > counter.start() + content {
                0int
            } else {
                counter.start() + content - reader.pos()
            }),
        {
            let ghost p = reader.pos();
            let ghost rem = content as int - (p - counter.start());
            let id = match BinaryReader::read_four_cc(reader) {
                Ok(c) => c,
                Err(e) => {
                    proof {
                        assert(spec_scan_chunks(data, p, rem) is Truncated);
                    }
                    return Err(SoundFontError::IoError(e));
                },
            };
            let record_size = match BinaryReader::read_u32(reader) {
                Ok(s) => s,
                Err(e) => {
                    proof {
                        assert(spec_scan_chunks(data, p, rem) is Truncated);
                    }
                    return Err(SoundFontError::IoError(e));
                },
            };
            if record_size as usize > reader.remaining() {
                proof {
                    assert(spec_scan_chunks(data, p, rem) is Truncated);
                }
                return Err(SoundFontError::IoError(ReadError::UnexpectedEndOfStream));
            }
            let ghost entry = ChunkEntry {
                tag: spec_four_cc(data[p], data[p + 1], data[p + 2], data[p + 3]),
                body: p + 8,
                size: record_size as int,
            };
            if id.matches_tag(0x69, 0x66, 0x69, 0x6c) {
                if record_size < 4 {
                    proof {
                        assert(!spec_info_tag_ok(entry));
                        let size_i = record_size as int;
                        match spec_scan_chunks(data, p + 8 + size_i, rem - 8 - size_i) {
                            ChunkScan::Done { chunks, leftover } => {
                                assert(spec_scan_chunks(data, p, rem) == (ChunkScan::Done {
                                    chunks: seq![entry] + chunks,
                                    leftover,
                                }));
                                assert(scan_full == (ChunkScan::Done {
                                    chunks: done + (seq![entry] + chunks),
                                    leftover,
                                }));
                                assert((done + (seq![entry] + chunks))[done.len() as int]
                                    == entry);
                            },
                            ChunkScan::Truncated => {
                                assert(spec_scan_chunks(data, p, rem) is Truncated);
                            },
                        }
                    }
                    return Err(SoundFontError::IoError(ReadError::UnexpectedEndOfStream));
                }
                info.version = SoundFontVersion::new(reader).unwrap();
                BinaryReader::discard_data(reader, record_size as usize - 4).unwrap();
                proof {
                    let done0 = done;
                    let size_i = record_size as int;
                    match spec_scan_chunks(data, p + 8 + size_i, rem - 8 - size_i) {
                        ChunkScan::Done { chunks, leftover } => {
                            assert(done0 + (seq![entry] + chunks) =~= (done0.push(entry))
                                + chunks);
                            assert(scan_full == (ChunkScan::Done {
                                chunks: (done0.push(entry)) + chunks,
                                leftover,
                            }));
                        },
                        ChunkScan::Truncated => {
                            assert(scan_full is Truncated);
                        },
                    }
                    lemma_last_chunk_push(done0, entry, seq![0x69u8, 0x66u8, 0x69u8, 0x6cu8]);
                    lemma_last_chunk_push(done0, entry, seq![0x69u8, 0x73u8, 0x6eu8, 0x67u8]);
                    lemma_last_chunk_push(done0, entry, seq![0x49u8, 0x4eu8, 0x41u8, 0x4du8]);
                    lemma_last_chunk_push(done0, entry, seq![0x69u8, 0x72u8, 0x6fu8, 0x6du8]);
                    lemma_last_chunk_push(done0, entry, seq![0x69u8, 0x76u8, 0x65u8, 0x72u8]);
                    lemma_last_chunk_push(done0, entry, seq![0x49u8, 0x43u8, 0x52u8, 0x44u8]);
                    lemma_last_chunk_push(done0, entry, seq![0x49u8, 0x45u8, 0x4eu8, 0x47u8]);
                    lemma_last_chunk_push(done0, entry, seq![0x49u8, 0x50u8, 0x52u8, 0x44u8]);
                    lemma_last_chunk_push(done0, entry, seq![0x49u8, 0x43u8, 0x4fu8, 0x50u8]);
                    lemma_last_chunk_push(done0, entry, seq![0x49u8, 0x43u8, 0x4du8, 0x54u8]);
                    lemma_last_chunk_push(done0, entry, seq![0x49u8, 0x53u8, 0x46u8, 0x54u8]);
                    assert(!(entry.tag =~= seq![0x69u8, 0x73u8, 0x6eu8, 0x67u8])) by {
                        assert(entry.tag[1] == 0x66);
                    }
                    assert(!(entry.tag =~= seq![0x49u8, 0x4eu8, 0x41u8, 0x4du8])) by {
                        assert(entry.tag[0] == 0x69);
                    }
                    assert(!(entry.tag =~= seq![0x69u8, 0x72u8, 0x6fu8, 0x6du8])) by {
                        assert(entry.tag[1] == 0x66);
                    }
                    assert(!(entry.tag =~= seq![0x69u8, 0x76u8, 0x65u8, 0x72u8])) by {
                        assert(entry.tag[1] == 0x66);
                    }
                    assert(!(entry.tag =~= seq![0x49u8, 0x43u8, 0x52u8, 0x44u8])) by {
                        assert(entry.tag[0] == 0x69);
                    }
                    assert(!(entry.tag =~= seq![0x49u8, 0x45u8, 0x4eu8, 0x47u8])) by {
                        assert(entry.tag[0] == 0x69);
                    }
                    assert(!(entry.tag =~= seq![0x49u8, 0x50u8, 0x52u8, 0x44u8])) by {
                        assert(entry.tag[0] == 0x69);
                    }
                    assert(!(entry.tag =~= seq![0x49u8, 0x43u8, 0x4fu8, 0x50u8])) by {
                        assert(entry.tag[0] == 0x69);
                    }
                    assert(!(entry.tag =~= seq![0x49u8, 0x43u8, 0x4du8, 0x54u8])) by {
                        assert(entry.tag[0] == 0x69);
                    }
                    assert(!(entry.tag =~= seq![0x49u8, 0x53u8, 0x46u8, 0x54u8])) by {
                        assert(entry.tag[0] == 0x69);
                    }
                    done = done0.push(entry);
                    assert(spec_info_matches(info, data, done));
                }
            } else if id.matches_tag(0x69, 0x73, 0x6e, 0x67) {
                info.target_sound_engine = BinaryReader::read_fixed_length_string(
                    reader,
                    record_size as usize,
                ).unwrap();
                proof {
                    let done0 = done;
                    let size_i = record_size as int;
                    match spec_scan_chunks(data, p + 8 + size_i, rem - 8 - size_i) {
                        ChunkScan::Done { chunks, leftover } => {
                            assert(done0 + (seq![entry] + chunks) =~= (done0.push(entry))
                                + chunks);
                            assert(scan_full == (ChunkScan::Done {
                                chunks: (done0.push(entry)) + chunks,
                                leftover,
                            }));
                        },
                        ChunkScan::Truncated => {
                            assert(scan_full is Truncated);
                        },
                    }
                    lemma_last_chunk_push(done0, entry, seq![0x69u8, 0x66u8, 0x69u8, 0x6cu8]);
                    lemma_last_chunk_push(done0, entry, seq![0x69u8, 0x73u8, 0x6eu8, 0x67u8]);
                    lemma_last_chunk_push(done0, entry, seq![0x49u8, 0x4eu8, 0x41u8, 0x4du8]);
                    lemma_last_chunk_push(done0, entry, seq![0x69u8, 0x72u8, 0x6fu8, 0x6du8]);
                    lemma_last_chunk_push(done0, entry, seq![0x69u8, 0x76u8, 0x65u8, 0x72u8]);
                    lemma_last_chunk_push(done0, entry, seq![0x49u8, 0x43u8, 0x52u8, 0x44u8]);
                    lemma_last_chunk_push(done0, entry, seq![0x49u8, 0x45u8, 0x4eu8, 0x47u8]);
                    lemma_last_chunk_push(done0, entry, seq![0x49u8, 0x50u8, 0x52u8, 0x44u8]);
                    lemma_last_chunk_push(done0, entry, seq![0x49u8, 0x43u8, 0x4fu8, 0x50u8]);
                    lemma_last_chunk_push(done0, entry, seq![0x49u8, 0x43u8, 0x4du8, 0x54u8]);
                    lemma_last_chunk_push(done0, entry, seq![0x49u8, 0x53u8, 0x46u8, 0x54u8]);
                    assert(!(entry.tag =~= seq![0x69u8, 0x66u8, 0x69u8, 0x6cu8])) by {
                        assert(entry.tag[1] == 0x73);
                    }
                    assert(!(entry.tag =~= seq![0x49u8, 0x4eu8, 0x41u8, 0x4du8])) by {
                        assert(entry.tag[0] == 0x69);
                    }
                    assert(!(entry.tag =~= seq![0x69u8, 0x72u8, 0x6fu8, 0x6du8])) by {
                        assert(entry.tag[1] == 0x73);
                    }
                    assert(!(entry.tag =~= seq![0x69u8, 0x76u8, 0x65u8, 0x72u8])) by {
                        assert(entry.tag[1] == 0x73);
                    }
                    assert(!(entry.tag =~= seq![0x49u8, 0x43u8, 0x52u8, 0x44u8])) by {
                        assert(entry.tag[0] == 0x69);
                    }
                    assert(!(entry.tag =~= seq![0x49u8, 0x45u8, 0x4eu8, 0x47u8])) by {
                        assert(entry.tag[0] == 0x69);
                    }
                    assert(!(entry.tag =~= seq![0x49u8, 0x50u8, 0x52u8, 0x44u8])) by {
                        assert(entry.tag[0] == 0x69);
                    }
                    assert(!(entry.tag =~= seq![0x49u8, 0x43u8, 0x4fu8, 0x50u8])) by {
                        assert(entry.tag[0] == 0x69);
                    }
                    assert(!(entry.tag =~= seq![0x49u8, 0x43u8, 0x4du8, 0x54u8])) by {
                        assert(entry.tag[0] == 0x69);
                    }
                    assert(!(entry.tag =~= seq![0x49u8, 0x53u8, 0x46u8, 0x54u8])) by {
                        assert(entry.tag[0] == 0x69);
                    }
                    done = done0.push(entry);
                    assert(spec_info_matches(info, data, done));
                }
            } else if id.matches_tag(0x49, 0x4e, 0x41, 0x4d) {
                info.bank_name = BinaryReader::read_fixed_length_string(
                    reader,
                    record_size as usize,
                ).unwrap();
                proof {
                    let done0 = done;
                    let size_i = record_size as int;
                    match spec_scan_chunks(data, p + 8 + size_i, rem - 8 - size_i) {
                        ChunkScan::Done { chunks, leftover } => {
                            assert(done0 + (seq![entry] + chunks) =~= (done0.push(entry))
                                + chunks);
                            assert(scan_full == (ChunkScan::Done {
                                chunks: (done0.push(entry)) + chunks,
                                leftover,
                            }));
                        },
                        ChunkScan::Truncated => {
                            assert(scan_full is Truncated);
                        },
                    }
                    lemma_last_chunk_push(done0, entry, seq![0x69u8, 0x66u8, 0x69u8, 0x6cu8]);
                    lemma_last_chunk_push(done0, entry, seq![0x69u8, 0x73u8, 0x6eu8, 0x67u8]);
                    lemma_last_chunk_push(done0, entry, seq![0x49u8, 0x4eu8, 0x41u8, 0x4du8]);
                    lemma_last_chunk_push(done0, entry, seq![0x69u8, 0x72u8, 0x6fu8, 0x6du8]);
                    lemma_last_chunk_push(done0, entry, seq![0x69u8, 0x76u8, 0x65u8, 0x72u8]);
                    lemma_last_chunk_push(done0, entry, seq![0x49u8, 0x43u8, 0x52u8, 0x44u8]);
                    lemma_last_chunk_push(done0, entry, seq![0x49u8, 0x45u8, 0x4eu8, 0x47u8]);
                    lemma_last_chunk_push(done0, entry, seq![0x49u8, 0x50u8, 0x52u8, 0x44u8]);
                    lemma_last_chunk_push(done0, entry, seq![0x49u8, 0x43u8, 0x4fu8, 0x50u8]);
                    lemma_last_chunk_push(done0, entry, seq![0x49u8, 0x43u8, 0x4du8, 0x54u8]);
                    lemma_last_chunk_push(done0, entry, seq![0x49u8, 0x53u8, 0x46u8, 0x54u8]);
                    assert(!(entry.tag =~= seq![0x69u8, 0x66u8, 0x69u8, 0x6cu8])) by {
                        assert(entry.tag[0] == 0x49);
                    }
                    assert(!(entry.tag =~= seq![0x69u8, 0x73u8, 0x6eu8, 0x67u8])) by {
                        assert(entry.tag[0] == 0x49);
                    }
                    assert(!(entry.tag =~= seq![0x69u8, 0x72u8, 0x6fu8, 0x6du8])) by {
                        assert(entry.tag[0] == 0x49);
                    }
                    assert(!(entry.tag =~= seq![0x69u8, 0x76u8, 0x65u8, 0x72u8])) by {
                        assert(entry.tag[0] == 0x49);
                    }
                    assert(!(entry.tag =~= seq![0x49u8, 0x43u8, 0x52u8, 0x44u8])) by {
                        assert(entry.tag[1] == 0x4e);
                    }
                    assert(!(entry.tag =~= seq![0x49u8, 0x45u8, 0x4eu8, 0x47u8])) by {
                        assert(entry.tag[1] == 0x4e);
                    }
                    assert(!(entry.tag =~= seq![0x49u8, 0x50u8, 0x52u8, 0x44u8])) by {
                        assert(entry.tag[1] == 0x4e);
                    }
                    assert(!(entry.tag =~= seq![0x49u8, 0x43u8, 0x4fu8, 0x50u8])) by {
                        assert(entry.tag[1] == 0x4e);
                    }
                    assert(!(entry.tag =~= seq![0x49u8, 0x43u8, 0x4du8, 0x54u8])) by {
                        assert(entry.tag[1] == 0x4e);
                    }
                    assert(!(entry.tag =~= seq![0x49u8, 0x53u8, 0x46u8, 0x54u8])) by {
                        assert(entry.tag[1] == 0x4e);
                    }
                    done = done0.push(entry);
                    assert(spec_info_matches(info, data, done));
                }
            } else if id.matches_tag(0x69, 0x72, 0x6f, 0x6d) {
                info.rom_name = BinaryReader::read_fixed_length_string(
                    reader,
                    record_size as usize,
                ).unwrap();
                proof {
                    let done0 = done;
                    let size_i = record_size as int;
                    match spec_scan_chunks(data, p + 8 + size_i, rem - 8 - size_i) {
                        ChunkScan::Done { chunks, leftover } => {
                            assert(done0 + (seq![entry] + chunks) =~= (done0.push(entry))
                                + chunks);
                            assert(scan_full == (ChunkScan::Done {
                                chunks: (done0.push(entry)) + chunks,
                                leftover,
                            }));
                        },
                        ChunkScan::Truncated => {
                            assert(scan_full is Truncated);
                        },
                    }
                    lemma_last_chunk_push(done0, entry, seq![0x69u8, 0x66u8, 0x69u8, 0x6cu8]);
                    lemma_last_chunk_push(done0, entry, seq![0x69u8, 0x73u8, 0x6eu8, 0x67u8]);
                    lemma_last_chunk_push(done0, entry, seq![0x49u8, 0x4eu8, 0x41u8, 0x4du8]);
                    lemma_last_chunk_push(done0, entry, seq![0x69u8, 0x72u8, 0x6fu8, 0x6du8]);
                    lemma_last_chunk_push(done0, entry, seq![0x69u8, 0x76u8, 0x65u8, 0x72u8]);
                    lemma_last_chunk_push(done0, entry, seq![0x49u8, 0x43u8, 0x52u8, 0x44u8]);
                    lemma_last_chunk_push(done0, entry, seq![0x49u8, 0x45u8, 0x4eu8, 0x47u8]);
                    lemma_last_chunk_push(done0, entry, seq![0x49u8, 0x50u8, 0x52u8, 0x44u8]);
                    lemma_last_chunk_push(done0, entry, seq![0x49u8, 0x43u8, 0x4fu8, 0x50u8]);
                    lemma_last_chunk_push(done0, entry, seq![0x49u8, 0x43u8, 0x4du8, 0x54u8]);
                    lemma_last_chunk_push(done0, entry, seq![0x49u8, 0x53u8, 0x46u8, 0x54u8]);
                    assert(!(entry.tag =~= seq![0x69u8, 0x66u8, 0x69u8, 0x6cu8])) by {
                        assert(entry.tag[1] == 0x72);
                    }
                    assert(!(entry.tag =~= seq![0x69u8, 0x73u8, 0x6eu8, 0x67u8])) by {
                        assert(entry.tag[1] == 0x72);
                    }
                    assert(!(entry.tag =~= seq![0x49u8, 0x4eu8, 0x41u8, 0x4du8])) by {
                        assert(entry.tag[0] == 0x69);
                    }
                    assert(!(entry.tag =~= seq![0x69u8, 0x76u8, 0x65u8, 0x72u8])) by {
                        assert(entry.tag[1] == 0x72);
                    }
                    assert(!(entry.tag =~= seq![0x49u8, 0x43u8, 0x52u8, 0x44u8])) by {
                        assert(entry.tag[0] == 0x69);
                    }
                    assert(!(entry.tag =~= seq![0x49u8, 0x45u8, 0x4eu8, 0x47u8])) by {
                        assert(entry.tag[0] == 0x69);
                    }
                    assert(!(entry.tag =~= seq![0x49u8, 0x50u8, 0x52u8, 0x44u8])) by {
                        assert(entry.tag[0] == 0x69);
                    }
                    assert(!(entry.tag =~= seq![0x49u8, 0x43u8, 0x4fu8, 0x50u8])) by {
                        assert(entry.tag[0] == 0x69);
                    }
                    assert(!(entry.tag =~= seq![0x49u8, 0x43u8, 0x4du8, 0x54u8])) by {
                        assert(entry.tag[0] == 0x69);
                    }
                    assert(!(entry.tag =~= seq![0x49u8, 0x53u8, 0x46u8, 0x54u8])) by {
                        assert(entry.tag[0] == 0x69);
                    }
                    done = done0.push(entry);
                    assert(spec_info_matches(info, data, done));
                }
            } else if id.matches_tag(0x69, 0x76, 0x65, 0x72) {
                if record_size < 4 {
                    proof {
                        assert(!spec_info_tag_ok(entry));
                        let size_i = record_size as int;
                        match spec_scan_chunks(data, p + 8 + size_i, rem - 8 - size_i) {
                            ChunkScan::Done { chunks, leftover } => {
                                assert(spec_scan_chunks(data, p, rem) == (ChunkScan::Done {
                                    chunks: seq![entry] + chunks,
                                    leftover,
                                }));
                                assert(scan_full == (ChunkScan::Done {
                                    chunks: done + (seq![entry] + chunks),
                                    leftover,
                                }));
                                assert((done + (seq![entry] + chunks))[done.len() as int]
                                    == entry);
                            },
                            ChunkScan::Truncated => {
                                assert(spec_scan_chunks(data, p, rem) is Truncated);
                            },
                        }
                    }
                    return Err(SoundFontError::IoError(ReadError::UnexpectedEndOfStream));
                }
                info.rom_version = SoundFontVersion::new(reader).unwrap();
                BinaryReader::discard_data(reader, record_size as usize - 4).unwrap();
                proof {
                    let done0 = done;
                    let size_i = record_size as int;
                    match spec_scan_chunks(data, p + 8 + size_i, rem - 8 - size_i) {
                        ChunkScan::Done { chunks, leftover } => {
                            assert(done0 + (seq![entry] + chunks) =~= (done0.push(entry))
                                + chunks);
                            assert(scan_full == (ChunkScan::Done {
                                chunks: (done0.push(entry)) + chunks,
                                leftover,
                            }));
                        },
                        ChunkScan::Truncated => {
                            assert(scan_full is Truncated);
                        },
                    }
                    lemma_last_chunk_push(done0, entry, seq![0x69u8, 0x66u8, 0x69u8, 0x6cu8]);
                    lemma_last_chunk_push(done0, entry, seq![0x69u8, 0x73u8, 0x6eu8, 0x67u8]);
                    lemma_last_chunk_push(done0, entry, seq![0x49u8, 0x4eu8, 0x41u8, 0x4du8]);
                    lemma_last_chunk_push(done0, entry, seq![0x69u8, 0x72u8, 0x6fu8, 0x6du8]);
                    lemma_last_chunk_push(done0, entry, seq![0x69u8, 0x76u8, 0x65u8, 0x72u8]);
                    lemma_last_chunk_push(done0, entry, seq![0x49u8, 0x43u8, 0x52u8, 0x44u8]);
                    lemma_last_chunk_push(done0, entry, seq![0x49u8, 0x45u8, 0x4eu8, 0x47u8]);
                    lemma_last_chunk_push(done0, entry, seq![0x49u8, 0x50u8, 0x52u8, 0x44u8]);
                    lemma_last_chunk_push(done0, entry, seq![0x49u8, 0x43u8, 0x4fu8, 0x50u8]);
                    lemma_last_chunk_push(done0, entry, seq![0x49u8, 0x43u8, 0x4du8, 0x54u8]);
                    lemma_last_chunk_push(done0, entry, seq![0x49u8, 0x53u8, 0x46u8, 0x54u8]);
                    assert(!(entry.tag =~= seq![0x69u8, 0x66u8, 0x69u8, 0x6cu8])) by {
                        assert(entry.tag[1] == 0x76);
                    }
                    assert(!(entry.tag =~= seq![0x69u8, 0x73u8, 0x6eu8, 0x67u8])) by {
                        assert(entry.tag[1] == 0x76);
                    }
                    assert(!(entry.tag =~= seq![0x49u8, 0x4eu8, 0x41u8, 0x4du8])) by {
                        assert(entry.tag[0] == 0x69);
                    }
                    assert(!(entry.tag =~= seq![0x69u8, 0x72u8, 0x6fu8, 0x6du8])) by {
                        assert(entry.tag[1] == 0x76);
                    }
                    assert(!(entry.tag =~= seq![0x49u8, 0x43u8, 0x52u8, 0x44u8])) by {
                        assert(entry.tag[0] == 0x69);
                    }
                    assert(!(entry.tag =~= seq![0x49u8, 0x45u8, 0x4eu8, 0x47u8])) by {
                        assert(entry.tag[0] == 0x69);
                    }
                    assert(!(entry.tag =~= seq![0x49u8, 0x50u8, 0x52u8, 0x44u8])) by {
                        assert(entry.tag[0] == 0x69);
                    }
                    assert(!(entry.tag =~= seq![0x49u8, 0x43u8, 0x4fu8, 0x50u8])) by {
                        assert(entry.tag[0] == 0x69);
                    }
                    assert(!(entry.tag =~= seq![0x49u8, 0x43u8, 0x4du8, 0x54u8])) by {
                        assert(entry.tag[0] == 0x69);
                    }
                    assert(!(entry.tag =~= seq![0x49u8, 0x53u8, 0x46u8, 0x54u8])) by {
                        assert(entry.tag[0] == 0x69);
                    }
                    done = done0.push(entry);
                    assert(spec_info_matches(info, data, done));
                }
            } else if id.matches_tag(0x49, 0x43, 0x52, 0x44) {
                info.creation_date = BinaryReader::read_fixed_length_string(
                    reader,
                    record_size as usize,
                ).unwrap();
                proof {
                    let done0 = done;
                    let size_i = record_size as int;
                    match spec_scan_chunks(data, p + 8 + size_i, rem - 8 - size_i) {
                        ChunkScan::Done { chunks, leftover } => {
                            assert(done0 + (seq![entry] + chunks) =~= (done0.push(entry))
                                + chunks);
                            assert(scan_full == (ChunkScan::Done {
                                chunks: (done0.push(entry)) + chunks,
                                leftover,
                            }));
                        },
                        ChunkScan::Truncated => {
                            assert(scan_full is Truncated);
                        },
                    }
                    lemma_last_chunk_push(done0, entry, seq![0x69u8, 0x66u8, 0x69u8, 0x6cu8]);
                    lemma_last_chunk_push(done0, entry, seq![0x69u8, 0x73u8, 0x6eu8, 0x67u8]);
                    lemma_last_chunk_push(done0, entry, seq![0x49u8, 0x4eu8, 0x41u8, 0x4du8]);
                    lemma_last_chunk_push(done0, entry, seq![0x69u8, 0x72u8, 0x6fu8, 0x6du8]);
                    lemma_last_chunk_push(done0, entry, seq![0x69u8, 0x76u8, 0x65u8, 0x72u8]);
                    lemma_last_chunk_push(done0, entry, seq![0x49u8, 0x43u8, 0x52u8, 0x44u8]);
                    lemma_last_chunk_push(done0, entry, seq![0x49u8, 0x45u8, 0x4eu8, 0x47u8]);
                    lemma_last_chunk_push(done0, entry, seq![0x49u8, 0x50u8, 0x52u8, 0x44u8]);
                    lemma_last_chunk_push(done0, entry, seq![0x49u8, 0x43u8, 0x4fu8, 0x50u8]);
                    lemma_last_chunk_push(done0, entry, seq![0x49u8, 0x43u8, 0x4du8, 0x54u8]);
                    lemma_last_chunk_push(done0, entry, seq![0x49u8, 0x53u8, 0x46u8, 0x54u8]);
                    assert(!(entry.tag =~= seq![0x69u8, 0x66u8, 0x69u8, 0x6cu8])) by {
                        assert(entry.tag[0] == 0x49);
                    }
                    assert(!(entry.tag =~= seq![0x69u8, 0x73u8, 0x6eu8, 0x67u8])) by {
                        assert(entry.tag[0] == 0x49);
                    }
                    assert(!(entry.tag =~= seq![0x49u8, 0x4eu8, 0x41u8, 0x4du8])) by {
                        assert(entry.tag[1] == 0x43);
                    }
                    assert(!(entry.tag =~= seq![0x69u8, 0x72u8, 0x6fu8, 0x6du8])) by {
                        assert(entry.tag[0] == 0x49);
                    }
                    assert(!(entry.tag =~= seq![0x69u8, 0x76u8, 0x65u8, 0x72u8])) by {
                        assert(entry.tag[0] == 0x49);
                    }
                    assert(!(entry.tag =~= seq![0x49u8, 0x45u8, 0x4eu8, 0x47u8])) by {
                        assert(entry.tag[1] == 0x43);
                    }
                    assert(!(entry.tag =~= seq![0x49u8, 0x50u8, 0x52u8, 0x44u8])) by {
                        assert(entry.tag[1] == 0x43);
                    }
                    assert(!(entry.tag =~= seq![0x49u8, 0x43u8, 0x4fu8, 0x50u8])) by {
                        assert(entry.tag[2] == 0x52);
                    }
                    assert(!(entry.tag =~= seq![0x49u8, 0x43u8, 0x4du8, 0x54u8])) by {
                        assert(entry.tag[2] == 0x52);
                    }
                    assert(!(entry.tag =~= seq![0x49u8, 0x53u8, 0x46u8, 0x54u8])) by {
                        assert(entry.tag[1] == 0x43);
                    }
                    done = done0.push(entry);
                    assert(spec_info_matches(info, data, done));
                }
            } else if id.matches_tag(0x49, 0x45, 0x4e, 0x47) {
                info.author = BinaryReader::read_fixed_length_string(
                    reader,
                    record_size as usize,
                ).unwrap();
                proof {
                    let done0 = done;
                    let size_i = record_size as int;
                    match spec_scan_chunks(data, p + 8 + size_i, rem - 8 - size_i) {
                        ChunkScan::Done { chunks, leftover } => {
                            assert(done0 + (seq![entry] + chunks) =~= (done0.push(entry))
                                + chunks);
                            assert(scan_full == (ChunkScan::Done {
                                chunks: (done0.push(entry)) + chunks,
                                leftover,
                            }));
                        },
                        ChunkScan::Truncated => {
                            assert(scan_full is Truncated);
                        },
                    }
                    lemma_last_chunk_push(done0, entry, seq![0x69u8, 0x66u8, 0x69u8, 0x6cu8]);
                    lemma_last_chunk_push(done0, entry, seq![0x69u8, 0x73u8, 0x6eu8, 0x67u8]);
                    lemma_last_chunk_push(done0, entry, seq![0x49u8, 0x4eu8, 0x41u8, 0x4du8]);
                    lemma_last_chunk_push(done0, entry, seq![0x69u8, 0x72u8, 0x6fu8, 0x6du8]);
                    lemma_last_chunk_push(done0, entry, seq![0x69u8, 0x76u8, 0x65u8, 0x72u8]);
                    lemma_last_chunk_push(done0, entry, seq![0x49u8, 0x43u8, 0x52u8, 0x44u8]);
                    lemma_last_chunk_push(done0, entry, seq![0x49u8, 0x45u8, 0x4eu8, 0x47u8]);
                    lemma_last_chunk_push(done0, entry, seq![0x49u8, 0x50u8, 0x52u8, 0x44u8]);
                    lemma_last_chunk_push(done0, entry, seq![0x49u8, 0x43u8, 0x4fu8, 0x50u8]);
                    lemma_last_chunk_push(done0, entry, seq![0x49u8, 0x43u8, 0x4du8, 0x54u8]);
                    lemma_last_chunk_push(done0, entry, seq![0x49u8, 0x53u8, 0x46u8, 0x54u8]);
                    assert(!(entry.tag =~= seq![0x69u8, 0x66u8, 0x69u8, 0x6cu8])) by {
                        assert(entry.tag[0] == 0x49);
                    }
                    assert(!(entry.tag =~= seq![0x69u8, 0x73u8, 0x6eu8, 0x67u8])) by {
                        assert(entry.tag[0] == 0x49);
                    }
                    assert(!(entry.tag =~= seq![0x49u8, 0x4eu8, 0x41u8, 0x4du8])) by {
                        assert(entry.tag[1] == 0x45);
                    }
                    assert(!(entry.tag =~= seq![0x69u8, 0x72u8, 0x6fu8, 0x6du8])) by {
                        assert(entry.tag[0] == 0x49);
                    }
                    assert(!(entry.tag =~= seq![0x69u8, 0x76u8, 0x65u8, 0x72u8])) by {
                        assert(entry.tag[0] == 0x49);
                    }
                    assert(!(entry.tag =~= seq![0x49u8, 0x43u8, 0x52u8, 0x44u8])) by {
                        assert(entry.tag[1] == 0x45);
                    }
                    assert(!(entry.tag =~= seq![0x49u8, 0x50u8, 0x52u8, 0x44u8])) by {
                        assert(entry.tag[1] == 0x45);
                    }
                    assert(!(entry.tag =~= seq![0x49u8, 0x43u8, 0x4fu8, 0x50u8])) by {
                        assert(entry.tag[1] == 0x45);
                    }
                    assert(!(entry.tag =~= seq![0x49u8, 0x43u8, 0x4du8, 0x54u8])) by {
                        assert(entry.tag[1] == 0x45);
                    }
                    assert(!(entry.tag =~= seq![0x49u8, 0x53u8, 0x46u8, 0x54u8])) by {
                        assert(entry.tag[1] == 0x45);
                    }
                    done = done0.push(entry);
                    assert(spec_info_matches(info, data, done));
                }
            } else if id.matches_tag(0x49, 0x50, 0x52, 0x44) {
                info.target_product = BinaryReader::read_fixed_length_string(
                    reader,
                    record_size as usize,
                ).unwrap();
                proof {
                    let done0 = done;
                    let size_i = record_size as int;
                    match spec_scan_chunks(data, p + 8 + size_i, rem - 8 - size_i) {
                        ChunkScan::Done { chunks, leftover } => {
                            assert(done0 + (seq![entry] + chunks) =~= (done0.push(entry))
                                + chunks);
                            assert(scan_full == (ChunkScan::Done {
                                chunks: (done0.push(entry)) + chunks,
                                leftover,
                            }));
                        },
                        ChunkScan::Truncated => {
                            assert(scan_full is Truncated);
                        },
                    }
                    lemma_last_chunk_push(done0, entry, seq![0x69u8, 0x66u8, 0x69u8, 0x6cu8]);
                    lemma_last_chunk_push(done0, entry, seq![0x69u8, 0x73u8, 0x6eu8, 0x67u8]);
                    lemma_last_chunk_push(done0, entry, seq![0x49u8, 0x4eu8, 0x41u8, 0x4du8]);
                    lemma_last_chunk_push(done0, entry, seq![0x69u8, 0x72u8, 0x6fu8, 0x6du8]);
                    lemma_last_chunk_push(done0, entry, seq![0x69u8, 0x76u8, 0x65u8, 0x72u8]);
                    lemma_last_chunk_push(done0, entry, seq![0x49u8, 0x43u8, 0x52u8, 0x44u8]);
                    lemma_last_chunk_push(done0, entry, seq![0x49u8, 0x45u8, 0x4eu8, 0x47u8]);
                    lemma_last_chunk_push(done0, entry, seq![0x49u8, 0x50u8, 0x52u8, 0x44u8]);
                    lemma_last_chunk_push(done0, entry, seq![0x49u8, 0x43u8, 0x4fu8, 0x50u8]);
                    lemma_last_chunk_push(done0, entry, seq![0x49u8, 0x43u8, 0x4du8, 0x54u8]);
                    lemma_last_chunk_push(done0, entry, seq![0x49u8, 0x53u8, 0x46u8, 0x54u8]);
                    assert(!(entry.tag =~= seq![0x69u8, 0x66u8, 0x69u8, 0x6cu8])) by {
                        assert(entry.tag[0] == 0x49);
                    }
                    assert(!(entry.tag =~= seq![0x69u8, 0x73u8, 0x6eu8, 0x67u8])) by {
                        assert(entry.tag[0] == 0x49);
                    }
                    assert(!(entry.tag =~= seq![0x49u8, 0x4eu8, 0x41u8, 0x4du8])) by {
                        assert(entry.tag[1] == 0x50);
                    }
                    assert(!(entry.tag =~= seq![0x69u8, 0x72u8, 0x6fu8, 0x6du8])) by {
                        assert(entry.tag[0] == 0x49);
                    }
                    assert(!(entry.tag =~= seq![0x69u8, 0x76u8, 0x65u8, 0x72u8])) by {
                        assert(entry.tag[0] == 0x49);
                    }
                    assert(!(entry.tag =~= seq![0x49u8, 0x43u8, 0x52u8, 0x44u8])) by {
                        assert(entry.tag[1] == 0x50);
                    }
                    assert(!(entry.tag =~= seq![0x49u8, 0x45u8, 0x4eu8, 0x47u8])) by {
                        assert(entry.tag[1] == 0x50);
                    }
                    assert(!(entry.tag =~= seq![0x49u8, 0x43u8, 0x4fu8, 0x50u8])) by {
                        assert(entry.tag[1] == 0x50);
                    }
                    assert(!(entry.tag =~= seq![0x49u8, 0x43u8, 0x4du8, 0x54u8])) by {
                        assert(entry.tag[1] == 0x50);
                    }
                    assert(!(entry.tag =~= seq![0x49u8, 0x53u8, 0x46u8, 0x54u8])) by {
                        assert(entry.tag[1] == 0x50);
                    }
                    done = done0.push(entry);
                    assert(spec_info_matches(info, data, done));
                }
            } else if id.matches_tag(0x49, 0x43, 0x4f, 0x50) {
                info.copyright = BinaryReader::read_fixed_length_string(
                    reader,
                    record_size as usize,
                ).unwrap();
                proof {
                    let done0 = done;
                    let size_i = record_size as int;
                    match spec_scan_chunks(data, p + 8 + size_i, rem - 8 - size_i) {
                        ChunkScan::Done { chunks, leftover } => {
                            assert(done0 + (seq![entry] + chunks) =~= (done0.push(entry))
                                + chunks);
                            assert(scan_full == (ChunkScan::Done {
                                chunks: (done0.push(entry)) + chunks,
                                leftover,
                            }));
                        },
                        ChunkScan::Truncated => {
                            assert(scan_full is Truncated);
                        },
                    }
                    lemma_last_chunk_push(done0, entry, seq![0x69u8, 0x66u8, 0x69u8, 0x6cu8]);
                    lemma_last_chunk_push(done0, entry, seq![0x69u8, 0x73u8, 0x6eu8, 0x67u8]);
                    lemma_last_chunk_push(done0, entry, seq![0x49u8, 0x4eu8, 0x41u8, 0x4du8]);
                    lemma_last_chunk_push(done0, entry, seq![0x69u8, 0x72u8, 0x6fu8, 0x6du8]);
                    lemma_last_chunk_push(done0, entry, seq![0x69u8, 0x76u8, 0x65u8, 0x72u8]);
                    lemma_last_chunk_push(done0, entry, seq![0x49u8, 0x43u8, 0x52u8, 0x44u8]);
                    lemma_last_chunk_push(done0, entry, seq![0x49u8, 0x45u8, 0x4eu8, 0x47u8]);
                    lemma_last_chunk_push(done0, entry, seq![0x49u8, 0x50u8, 0x52u8, 0x44u8]);
                    lemma_last_chunk_push(done0, entry, seq![0x49u8, 0x43u8, 0x4fu8, 0x50u8]);
                    lemma_last_chunk_push(done0, entry, seq![0x49u8, 0x43u8, 0x4du8, 0x54u8]);
                    lemma_last_chunk_push(done0, entry, seq![0x49u8, 0x53u8, 0x46u8, 0x54u8]);
                    assert(!(entry.tag =~= seq![0x69u8, 0x66u8, 0x69u8, 0x6cu8])) by {
                        assert(entry.tag[0] == 0x49);
                    }
                    assert(!(entry.tag =~= seq![0x69u8, 0x73u8, 0x6eu8, 0x67u8])) by {
                        assert(entry.tag[0] == 0x49);
                    }
                    assert(!(entry.tag =~= seq![0x49u8, 0x4eu8, 0x41u8, 0x4du8])) by {
                        assert(entry.tag[1] == 0x43);
                    }
                    assert(!(entry.tag =~= seq![0x69u8, 0x72u8, 0x6fu8, 0x6du8])) by {
                        assert(entry.tag[0] == 0x49);
                    }
                    assert(!(entry.tag =~= seq![0x69u8, 0x76u8, 0x65u8, 0x72u8])) by {
                        assert(entry.tag[0] == 0x49);
                    }
                    assert(!(entry.tag =~= seq![0x49u8, 0x43u8, 0x52u8, 0x44u8])) by {
                        assert(entry.tag[2] == 0x4f);
                    }
                    assert(!(entry.tag =~= seq![0x49u8, 0x45u8, 0x4eu8, 0x47u8])) by {
                        assert(entry.tag[1] == 0x43);
                    }
                    assert(!(entry.tag =~= seq![0x49u8, 0x50u8, 0x52u8, 0x44u8])) by {
                        assert(entry.tag[1] == 0x43);
                    }
                    assert(!(entry.tag =~= seq![0x49u8, 0x43u8, 0x4du8, 0x54u8])) by {
                        assert(entry.tag[2] == 0x4f);
                    }
                    assert(!(entry.tag =~= seq![0x49u8, 0x53u8, 0x46u8, 0x54u8])) by {
                        assert(entry.tag[1] == 0x43);
                    }
                    done = done0.push(entry);
                    assert(spec_info_matches(info, data, done));
                }
            } else if id.matches_tag(0x49, 0x43, 0x4d, 0x54) {
                info.comments = BinaryReader::read_fixed_length_string(
                    reader,
                    record_size as usize,
                ).unwrap();
                proof {
                    let done0 = done;
                    let size_i = record_size as int;
                    match spec_scan_chunks(data, p + 8 + size_i, rem - 8 - size_i) {
                        ChunkScan::Done { chunks, leftover } => {
                            assert(done0 + (seq![entry] + chunks) =~= (done0.push(entry))
                                + chunks);
                            assert(scan_full == (ChunkScan::Done {
                                chunks: (done0.push(entry)) + chunks,
                                leftover,
                            }));
                        },
                        ChunkScan::Truncated => {
                            assert(scan_full is Truncated);
                        },
                    }
                    lemma_last_chunk_push(done0, entry, seq![0x69u8, 0x66u8, 0x69u8, 0x6cu8]);
                    lemma_last_chunk_push(done0, entry, seq![0x69u8, 0x73u8, 0x6eu8, 0x67u8]);
                    lemma_last_chunk_push(done0, entry, seq![0x49u8, 0x4eu8, 0x41u8, 0x4du8]);
                    lemma_last_chunk_push(done0, entry, seq![0x69u8, 0x72u8, 0x6fu8, 0x6du8]);
                    lemma_last_chunk_push(done0, entry, seq![0x69u8, 0x76u8, 0x65u8, 0x72u8]);
                    lemma_last_chunk_push(done0, entry, seq![0x49u8, 0x43u8, 0x52u8, 0x44u8]);
                    lemma_last_chunk_push(done0, entry, seq![0x49u8, 0x45u8, 0x4eu8, 0x47u8]);
                    lemma_last_chunk_push(done0, entry, seq![0x49u8, 0x50u8, 0x52u8, 0x44u8]);
                    lemma_last_chunk_push(done0, entry, seq![0x49u8, 0x43u8, 0x4fu8, 0x50u8]);
                    lemma_last_chunk_push(done0, entry, seq![0x49u8, 0x43u8, 0x4du8, 0x54u8]);
                    lemma_last_chunk_push(done0, entry, seq![0x49u8, 0x53u8, 0x46u8, 0x54u8]);
                    assert(!(entry.tag =~= seq![0x69u8, 0x66u8, 0x69u8, 0x6cu8])) by {
                        assert(entry.tag[0] == 0x49);
                    }
                    assert(!(entry.tag =~= seq![0x69u8, 0x73u8, 0x6eu8, 0x67u8])) by {
                        assert(entry.tag[0] == 0x49);
                    }
                    assert(!(entry.tag =~= seq![0x49u8, 0x4eu8, 0x41u8, 0x4du8])) by {
                        assert(entry.tag[1] == 0x43);
                    }
                    assert(!(entry.tag =~= seq![0x69u8, 0x72u8, 0x6fu8, 0x6du8])) by {
                        assert(entry.tag[0] == 0x49);
                    }
                    assert(!(entry.tag =~= seq![0x69u8, 0x76u8, 0x65u8, 0x72u8])) by {
                        assert(entry.tag[0] == 0x49);
                    }
                    assert(!(entry.tag =~= seq![0x49u8, 0x43u8, 0x52u8, 0x44u8])) by {
                        assert(entry.tag[2] == 0x4d);
                    }
                    assert(!(entry.tag =~= seq![0x49u8, 0x45u8, 0x4eu8, 0x47u8])) by {
                        assert(entry.tag[1] == 0x43);
                    }
                    assert(!(entry.tag =~= seq![0x49u8, 0x50u8, 0x52u8, 0x44u8])) by {
                        assert(entry.tag[1] == 0x43);
                    }
                    assert(!(entry.tag =~= seq![0x49u8, 0x43u8, 0x4fu8, 0x50u8])) by {
                        assert(entry.tag[2] == 0x4d);
                    }
                    assert(!(entry.tag =~= seq![0x49u8, 0x53u8, 0x46u8, 0x54u8])) by {
                        assert(entry.tag[1] == 0x43);
                    }
                    done = done0.push(entry);
                    assert(spec_info_matches(info, data, done));
                }
            } else if id.matches_tag(0x49, 0x53, 0x46, 0x54) {
                info.tools = BinaryReader::read_fixed_length_string(
                    reader,
                    record_size as usize,
                ).unwrap();
                proof {
                    let done0 = done;
                    let size_i = record_size as int;
                    match spec_scan_chunks(data, p + 8 + size_i, rem - 8 - size_i) {
                        ChunkScan::Done { chunks, leftover } => {
                            assert(done0 + (seq![entry] + chunks) =~= (done0.push(entry))
                                + chunks);
                            assert(scan_full == (ChunkScan::Done {
                                chunks: (done0.push(entry)) + chunks,
                                leftover,
                            }));
                        },
                        ChunkScan::Truncated => {
                            assert(scan_full is Truncated);
                        },
                    }
                    lemma_last_chunk_push(done0, entry, seq![0x69u8, 0x66u8, 0x69u8, 0x6cu8]);
                    lemma_last_chunk_push(done0, entry, seq![0x69u8, 0x73u8, 0x6eu8, 0x67u8]);
                    lemma_last_chunk_push(done0, entry, seq![0x49u8, 0x4eu8, 0x41u8, 0x4du8]);
                    lemma_last_chunk_push(done0, entry, seq![0x69u8, 0x72u8, 0x6fu8, 0x6du8]);
                    lemma_last_chunk_push(done0, entry, seq![0x69u8, 0x76u8, 0x65u8, 0x72u8]);
                    lemma_last_chunk_push(done0, entry, seq![0x49u8, 0x43u8, 0x52u8, 0x44u8]);
                    lemma_last_chunk_push(done0, entry, seq![0x49u8, 0x45u8, 0x4eu8, 0x47u8]);
                    lemma_last_chunk_push(done0, entry, seq![0x49u8, 0x50u8, 0x52u8, 0x44u8]);
                    lemma_last_chunk_push(done0, entry, seq![0x49u8, 0x43u8, 0x4fu8, 0x50u8]);
                    lemma_last_chunk_push(done0, entry, seq![0x49u8, 0x43u8, 0x4du8, 0x54u8]);
                    lemma_last_chunk_push(done0, entry, seq![0x49u8, 0x53u8, 0x46u8, 0x54u8]);
                    assert(!(entry.tag =~= seq![0x69u8, 0x66u8, 0x69u8, 0x6cu8])) by {
                        assert(entry.tag[0] == 0x49);
                    }
                    assert(!(entry.tag =~= seq![0x69u8, 0x73u8, 0x6eu8, 0x67u8])) by {
                        assert(entry.tag[0] == 0x49);
                    }
                    assert(!(entry.tag =~= seq![0x49u8, 0x4eu8, 0x41u8, 0x4du8])) by {
                        assert(entry.tag[1] == 0x53);
                    }
                    assert(!(entry.tag =~= seq![0x69u8, 0x72u8, 0x6fu8, 0x6du8])) by {
                        assert(entry.tag[0] == 0x49);
                    }
                    assert(!(entry.tag =~= seq![0x69u8, 0x76u8, 0x65u8, 0x72u8])) by {
                        assert(entry.tag[0] == 0x49);
                    }
                    assert(!(entry.tag =~= seq![0x49u8, 0x43u8, 0x52u8, 0x44u8])) by {
                        assert(entry.tag[1] == 0x53);
                    }
                    assert(!(entry.tag =~= seq![0x49u8, 0x45u8, 0x4eu8, 0x47u8])) by {
                        assert(entry.tag[1] == 0x53);
                    }
                    assert(!(entry.tag =~= seq![0x49u8, 0x50u8, 0x52u8, 0x44u8])) by {
                        assert(entry.tag[1] == 0x53);
                    }
                    assert(!(entry.tag =~= seq![0x49u8, 0x43u8, 0x4fu8, 0x50u8])) by {
                        assert(entry.tag[1] == 0x53);
                    }
                    assert(!(entry.tag =~= seq![0x49u8, 0x43u8, 0x4du8, 0x54u8])) by {
                        assert(entry.tag[1] == 0x53);
                    }
                    done = done0.push(entry);
                    assert(spec_info_matches(info, data, done));
                }
            } else {
                proof {
                    assert(!spec_info_tag_ok(entry));
                    let size_i = record_size as int;
                    match spec_scan_chunks(data, p + 8 + size_i, rem - 8 - size_i) {
                        ChunkScan::Done { chunks, leftover } => {
                            assert(spec_scan_chunks(data, p, rem) == (ChunkScan::Done {
                                chunks: seq![entry] + chunks,
                                leftover,
                            }));
                            assert(scan_full == (ChunkScan::Done {
                                chunks: done + (seq![entry] + chunks),
                                leftover,
                            }));
                            assert((done + (seq![entry] + chunks))[done.len() as int] == entry);
                        },
                        ChunkScan::Truncated => {
                            assert(spec_scan_chunks(data, p, rem) is Truncated);
                        },
                    }
                }
                return Err(SoundFontError::ListContainsUnknownId(id));
            }
        }
        proof {
            let rem = content as int - (reader.pos() - counter.start());
            assert(rem <= 0);
            assert(spec_scan_chunks(data, reader.pos(), rem) == (ChunkScan::Done {
                chunks: Seq::<ChunkEntry>::empty(),
                leftover: rem,
            }));
            assert(done + Seq::<ChunkEntry>::empty() =~= done);
            assert(scan_full == (ChunkScan::Done { chunks: done, leftover: rem }));
        }
        Ok(info)
    }

    /// The format version of the bank.
    pub fn get_version(&self) -> (r: SoundFontVersion)
        ensures
            r == self.version,
    {
        self.version
    }
}

} // verus!
