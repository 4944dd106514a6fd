//! The sdta list of a SoundFont: the 16-bit PCM sample pool.

use vstd::prelude::*;
use crate::binary::{
    le_u16, le_u32_at, spec_list_header_ok, spec_scan_chunks, BinaryReader, ByteCursor, ChunkEntry,
    ChunkScan, ReadCounter, ReadError,
};
use crate::error::{spec_four_cc, FourCC, SoundFontError};

verus! {

/// Whether the data holds an `smpl`-tagged chunk at position `pos`
/// (the tag itself sits eight bytes earlier) whose bytes decode
/// little-endian to exactly the given samples; the sample count is the
/// chunk's size over two.
pub open spec fn spec_wave_data_at(wave: Seq<i16>, data: Seq<u8>, pos: int) -> bool {
    &&& 8 <= pos
    &&& pos + 2 * wave.len() <= data.len()
    &&& spec_four_cc(data[pos - 8], data[pos - 7], data[pos - 6], data[pos - 5])
        =~= seq![0x73u8, 0x6du8, 0x70u8, 0x6cu8]
    &&& wave.len() == le_u32_at(data, pos - 4) / 2
    &&& forall|i: int|
        0 <= i < wave.len() ==> #[trigger] wave[i] == le_u16(
            data[pos + 2 * i],
            data[pos + 2 * i + 1],
        ) as i16
}

/// Whether the sdta list at `pos` parses: a well-formed `LIST sdta`
/// header whose sub-chunks all fit in the data and are all `smpl`
/// chunks, at least one of them. Any other tag is rejected before the
/// walk finishes, so nothing else may appear.
pub open spec fn spec_sdta_parseable(data: Seq<u8>, pos: int) -> bool {
    &&& spec_list_header_ok(data, pos, seq![0x73u8, 0x64u8, 0x74u8, 0x61u8])
    &&& match spec_scan_chunks(data, pos + 12, le_u32_at(data, pos + 4) - 4) {
        ChunkScan::Done { chunks, leftover } => chunks.len() >= 1 && (forall|k: int|
            0 <= k < chunks.len() ==> (#[trigger] chunks[k]).tag =~= seq![
                0x73u8,
                0x6du8,
                0x70u8,
                0x6cu8,
            ]),
        ChunkScan::Truncated => false,
    }
}

/// Whether the sdta list at `pos` is well-formed but holds no chunk
/// at all, the one case reported as missing sample data.
pub open spec fn spec_sdta_empty(data: Seq<u8>, pos: int) -> bool {
    &&& spec_list_header_ok(data, pos, seq![0x73u8, 0x64u8, 0x74u8, 0x61u8])
    &&& match spec_scan_chunks(data, pos + 12, le_u32_at(data, pos + 4) - 4) {
        ChunkScan::Done { chunks, leftover } => chunks.len() == 0,
        ChunkScan::Truncated => false,
    }
}

/// The sample pool of a SoundFont: mono 16-bit PCM.
#[derive(Clone, Debug)]
pub struct SoundFontSampleData {
    /// Bits per sample; always 16.
    pub bits_per_sample: i32,
    /// The PCM samples of the `smpl` chunk.
    pub wave_data: Vec<i16>,
}

impl SoundFontSampleData {
    /// Read the `LIST sdta` chunk. A `smpl` sub-chunk must be present;
    /// an `sm24` sub-chunk marks 24-bit samples, which are not
    /// supported.
    pub fn new(reader: &mut ByteCursor) -> (r: Result<Self, SoundFontError>)
        requires
            old(reader).wf(),
        ensures
            final(reader).wf(),
            final(reader).data() == old(reader).data(),
            r is Ok <==> spec_sdta_parseable(old(reader).data(), old(reader).pos()),
            match r {
                Ok(sd) => {
                    &&& final(reader).pos() >= old(reader).pos() + 8
                    &&& sd.bits_per_sample == 16
                    &&& exists|pos: int|
                        spec_wave_data_at(sd.wave_data@, old(reader).data(), pos)
                    &&& match spec_scan_chunks(
                        old(reader).data(),
                        old(reader).pos() + 12,
                        le_u32_at(old(reader).data(), old(reader).pos() + 4) - 4,
                    ) {
                        ChunkScan::Done { chunks, leftover } => final(reader).pos() == old(
                            reader,
                        ).pos() + 8 + le_u32_at(old(reader).data(), old(reader).pos() + 4)
                            - leftover,
                        ChunkScan::Truncated => false,
                    }
                },
                Err(e) => {
                    ||| e is IoError
                    ||| e is ListChunkNotFound
                    ||| e is InvalidListChunkType
                    ||| e is ListContainsUnknownId
                    ||| e is SampleDataNotFound
                    ||| e is UnsupportedSampleFormat
                },
            },
            r matches Err(SoundFontError::ListChunkNotFound) <==> (old(reader).spec_remaining()
                >= 4 && !(spec_four_cc(
                old(reader).data()[old(reader).pos()],
                old(reader).data()[old(reader).pos() + 1],
                old(reader).data()[old(reader).pos() + 2],
                old(reader).data()[old(reader).pos() + 3],
            ) =~= seq![0x4cu8, 0x49u8, 0x53u8, 0x54u8])),
            r matches Err(SoundFontError::SampleDataNotFound) <==> spec_sdta_empty(
                old(reader).data(),
                old(reader).pos(),
            ),
            r matches Err(SoundFontError::UnsupportedSampleFormat) ==> exists|q: int|
                {
                    &&& old(reader).pos() + 12 <= q
                    &&& q + 8 <= old(reader).data().len()
                    &&& #[trigger] spec_four_cc(
                        old(reader).data()[q],
                        old(reader).data()[q + 1],
                        old(reader).data()[q + 2],
                        old(reader).data()[q + 3],
                    ) =~= seq![0x73u8, 0x6du8, 0x32u8, 0x34u8]
                },
    {
        let ghost data = old(reader).data();
        let ghost base = old(reader).pos();
        let chunk_id = match BinaryReader::read_four_cc(reader) {
            Ok(c) => c,
            Err(e) => {
                return Err(SoundFontError::IoError(e));
            },
        };
        if !chunk_id.matches_tag(0x4c, 0x49, 0x53, 0x54) {
            return Err(SoundFontError::ListChunkNotFound);
        }
        let size = match BinaryReader::read_u32(reader) {
            Ok(s) => s,
            Err(e) => {
                return Err(SoundFontError::IoError(e));
            },
        };
        if size < 4 || size as usize > reader.remaining() {
            return Err(SoundFontError::IoError(ReadError::UnexpectedEndOfStream));
        }
        let list_type = BinaryReader::read_four_cc(reader).unwrap();
        if !list_type.matches_tag(0x73, 0x64, 0x74, 0x61) {
            return Err(
                SoundFontError::InvalidListChunkType {
                    expected: FourCC::from_bytes([0x73, 0x64, 0x74, 0x61]),
                    actual: list_type,
                },
            );
        }
        let content = size as usize - 4;
        let counter = ReadCounter::new(reader);
        let ghost scan_full = spec_scan_chunks(data, base + 12, content as int);
        let mut wave_data: Option<Vec<i16>> = None;
        let ghost mut done: Seq<ChunkEntry> = Seq::empty();
        let ghost mut smpl_at: int = 0;
        while counter.bytes_read(reader) < content
            invariant
                reader.wf(),
                reader.data() == data,
                data == old(reader).data(),
                base == old(reader).pos(),
                counter.start() == base + 12,
                base + 12 <= reader.pos(),
                spec_list_header_ok(data, base, seq![0x73u8, 0x64u8, 0x74u8, 0x61u8]),
                content as int == le_u32_at(data, base + 4) - 4,
                scan_full == spec_scan_chunks(data, base + 12, content as int),
                ({
                    let rem = content as int - (reader.pos() - counter.start());
                    match spec_scan_chunks(data, reader.pos(), rem) {
                        ChunkScan::Done { chunks, leftover } => scan_full == (ChunkScan::Done {
                            chunks: done + chunks,
                            leftover,
                        }),
                        ChunkScan::Truncated => scan_full is Truncated,
                    }
                }),
                forall|k: int|
                    0 <= k < done.len() ==> (#[trigger] done[k]).tag =~= seq![
                        0x73u8,
                        0x6du8,
                        0x70u8,
                        0x6cu8,
                    ],
                match wave_data {
                    Some(v) => done.len() >= 1 && spec_wave_data_at(v@, data, smpl_at) && smpl_at
                        == done.last().body,
                    None => done.len() == 0,
                },
            decreases (if reader.pos() > counter.start() + content {
                0int
            } else {
                counter.start() + content - reader.pos()
            }),
        {
            let ghost p = reader.pos();
            let ghost rem = content as int - (p - counter.start());
            let id = match BinaryReader::read_four_cc(reader) {
                Ok(c) => c,
                Err(e) => {
                    proof {
                        assert(spec_scan_chunks(data, p, rem) is Truncated);
                    }
                    return Err(SoundFontError::IoError(e));
                },
            };
            let record_size = match BinaryReader::read_u32(reader) {
                Ok(s) => s,
                Err(e) => {
                    proof {
                        assert(spec_scan_chunks(data, p, rem) is Truncated);
                    }
                    return Err(SoundFontError::IoError(e));
                },
            };
            if record_size as usize > reader.remaining() {
                proof {
                    assert(spec_scan_chunks(data, p, rem) is Truncated);
                }
                return Err(SoundFontError::IoError(ReadError::UnexpectedEndOfStream));
            }
            let ghost entry = ChunkEntry {
                tag: spec_four_cc(data[p], data[p + 1], data[p + 2], data[p + 3]),
                body: p + 8,
                size: record_size as int,
            };
            let smpl_hit = id.matches_tag(0x73, 0x6d, 0x70, 0x6c);
            if smpl_hit {
                proof {
                    smpl_at = reader.pos();
                }
                wave_data = Some(
                    BinaryReader::read_wave_data(reader, record_size as usize).unwrap(),
                );
                proof {
                    let rem2 = content as int - (reader.pos() - counter.start());
                    match spec_scan_chunks(data, reader.pos(), rem2) {
                        ChunkScan::Done { chunks, leftover } => {
                            assert(done + (seq![entry] + chunks) =~= (done.push(entry)) + chunks);
                            assert(scan_full == (ChunkScan::Done {
                                chunks: (done.push(entry)) + chunks,
                                leftover,
                            }));
                        },
                        ChunkScan::Truncated => {
                            assert(scan_full is Truncated);
                        },
                    }
                    done = done.push(entry);
                    assert(done.last() == entry);
                }
            } else if id.matches_tag(0x73, 0x6d, 0x32, 0x34) {
                proof {
                    let size_i = record_size as int;
                    match spec_scan_chunks(data, p + 8 + size_i, rem - 8 - size_i) {
                        ChunkScan::Done { chunks, leftover } => {
                            assert(spec_scan_chunks(data, p, rem) == (ChunkScan::Done {
                                chunks: seq![entry] + chunks,
                                leftover,
                            }));
                            assert(scan_full == (ChunkScan::Done {
                                chunks: done + (seq![entry] + chunks),
                                leftover,
                            }));
                            assert((done + (seq![entry] + chunks))[done.len() as int] == entry);
                        },
                        ChunkScan::Truncated => {
                            assert(spec_scan_chunks(data, p, rem) is Truncated);
                        },
                    }
                }
                proof {
                    assert(spec_four_cc(data[p], data[p + 1], data[p + 2], data[p + 3]) =~= seq![
                        0x73u8,
                        0x6du8,
                        0x32u8,
                        0x34u8,
                    ]);
                }
                return Err(SoundFontError::UnsupportedSampleFormat);
            } else {
                proof {
                    let size_i = record_size as int;
                    match spec_scan_chunks(data, p + 8 + size_i, rem - 8 - size_i) {
                        ChunkScan::Done { chunks, leftover } => {
                            assert(spec_scan_chunks(data, p, rem) == (ChunkScan::Done {
                                chunks: seq![entry] + chunks,
                                leftover,
                            }));
                            assert(scan_full == (ChunkScan::Done {
                                chunks: done + (seq![entry] + chunks),
                                leftover,
                            }));
                            assert((done + (seq![entry] + chunks))[done.len() as int] == entry);
                        },
                        ChunkScan::Truncated => {
                            assert(spec_scan_chunks(data, p, rem) is Truncated);
                        },
                    }
                }
                return Err(SoundFontError::ListContainsUnknownId(id));
            }
        }
        proof {
            let rem = content as int - (reader.pos() - counter.start());
            assert(rem <= 0);
            assert(spec_scan_chunks(data, reader.pos(), rem) == (ChunkScan::Done {
                chunks: Seq::<ChunkEntry>::empty(),
                leftover: rem,
            }));
            assert(done + Seq::<ChunkEntry>::empty() =~= done);
            assert(scan_full == (ChunkScan::Done { chunks: done, leftover: rem }));
        }
        match wave_data {
            Some(wave_data) => {
                let result = SoundFontSampleData { bits_per_sample: 16, wave_data };
                proof {
                    assert(spec_wave_data_at(result.wave_data@, data, smpl_at));
                    assert(exists|pos: int| spec_wave_data_at(result.wave_data@, data, pos));
                    let rem2 = content as int - (reader.pos() - counter.start());
                    assert(scan_full == (ChunkScan::Done { chunks: done, leftover: rem2 }));
                    assert(reader.pos() == base + 8 + le_u32_at(data, base + 4) - rem2);
                }
                Ok(result)
            },
            None => Err(SoundFontError::SampleDataNotFound),
        }
    }
}

} // verus!
