//! Sample headers: named segments of the 16-bit PCM pool.

use vstd::prelude::*;
use crate::binary::{le_u16_at, le_u32_at, spec_name_field, BinaryReader, ByteCursor};
use crate::error::SoundFontError;

verus! {

/// A sample header: a named segment of `wave_data` with loop points and
/// pitch information.
#[derive(Clone, Debug)]
pub struct SampleHeader {
    /// The sample's name, as sanitized ASCII bytes.
    pub name: Vec<u8>,
    /// First sample index of the segment.
    pub start: u32,
    /// One past the last sample index of the segment.
    pub end: u32,
    /// First sample index of the loop.
    pub start_loop: u32,
    /// One past the last sample index of the loop.
    pub end_loop: u32,
    /// The rate the segment was sampled at, in Hz.
    pub sample_rate: u32,
    /// The MIDI key the segment plays at its original pitch.
    pub original_pitch: u8,
    /// Pitch correction in cents.
    pub pitch_correction: i8,
    /// The paired sample for stereo pairs, as an index into the headers.
    pub sample_link: u16,
    /// The kind of sample (mono, left, right, linked).
    pub sample_type: u16,
}

/// How a decoded sample header relates to the 46 bytes at position `p`.
pub open spec fn spec_sample_header_at(h: SampleHeader, data: Seq<u8>, p: int) -> bool {
    &&& spec_name_field(h.name@, data, p, 20)
    &&& h.start == le_u32_at(data, p + 20)
    &&& h.end == le_u32_at(data, p + 24)
    &&& h.start_loop == le_u32_at(data, p + 28)
    &&& h.end_loop == le_u32_at(data, p + 32)
    &&& h.sample_rate == le_u32_at(data, p + 36)
    &&& h.original_pitch == data[p + 40]
    &&& h.pitch_correction == data[p + 41] as i8
    &&& h.sample_link == le_u16_at(data, p + 42)
    &&& h.sample_type == le_u16_at(data, p + 44)
}

impl SampleHeader {
    /// Read one 46-byte sample header record.
    pub fn new(reader: &mut ByteCursor) -> (r: Result<Self, SoundFontError>)
        requires
            old(reader).wf(),
        ensures
            final(reader).wf(),
            final(reader).data() == old(reader).data(),
            match r {
                Ok(h) => {
                    &&& old(reader).spec_remaining() >= 46
                    &&& spec_sample_header_at(h, old(reader).data(), old(reader).pos())
                    &&& final(reader).pos() == old(reader).pos() + 46
                },
                Err(e) => {
                    &&& e is IoError
                    &&& old(reader).spec_remaining() < 46
                },
            },
    {
        if reader.remaining() < 46 {
            return Err(SoundFontError::IoError(crate::binary::ReadError::UnexpectedEndOfStream));
        }
        let name = BinaryReader::read_fixed_length_string(reader, 20).unwrap();
        let start = BinaryReader::read_u32(reader).unwrap();
        let end = BinaryReader::read_u32(reader).unwrap();
        let start_loop = BinaryReader::read_u32(reader).unwrap();
        let end_loop = BinaryReader::read_u32(reader).unwrap();
        let sample_rate = BinaryReader::read_u32(reader).unwrap();
        let original_pitch = BinaryReader::read_u8(reader).unwrap();
        let pitch_correction = BinaryReader::read_i8(reader).unwrap();
        let sample_link = BinaryReader::read_u16(reader).unwrap();
        let sample_type = BinaryReader::read_u16(reader).unwrap();
        Ok(SampleHeader {
            name,
            start,
            end,
            start_loop,
            end_loop,
            sample_rate,
            original_pitch,
            pitch_correction,
            sample_link,
            sample_type,
        })
    }

    /// Read an `shdr` chunk of `size` bytes: 46 bytes per record, the
    /// trailing terminal record dropped.
    pub fn read_from_chunk(reader: &mut ByteCursor, size: usize) -> (r: Result<
        Vec<SampleHeader>,
        SoundFontError,
    >)
        requires
            old(reader).wf(),
        ensures
            final(reader).wf(),
            final(reader).data() == old(reader).data(),
            match r {
                Ok(v) => {
                    &&& size % 46 == 0
                    &&& size >= 46
                    &&& old(reader).spec_remaining() >= size
                    &&& final(reader).pos() == old(reader).pos() + size
                    &&& v@.len() == size / 46 - 1
                    &&& forall|i: int|
                        0 <= i < v@.len() ==> spec_sample_header_at(
                            #[trigger] v@[i],
                            old(reader).data(),
                            old(reader).pos() + 46 * i,
                        )
                },
                Err(e) => {
                    ||| e is InvalidSampleHeaderList && (size % 46 != 0 || size == 0)
                    ||| e is IoError && old(reader).spec_remaining() < size
                },
            },
    {
        if size % 46 != 0 || size == 0 {
            return Err(SoundFontError::InvalidSampleHeaderList);
        }
        if reader.remaining() < size {
            return Err(SoundFontError::IoError(crate::binary::ReadError::UnexpectedEndOfStream));
        }
        let ghost base = reader.pos();
        let count = size / 46 - 1;
        let mut v: Vec<SampleHeader> = Vec::new();
        let mut i: usize = 0;
        while i < count
            invariant
                reader.wf(),
                reader.data() == old(reader).data(),
                base + size <= reader.data().len(),
                size % 46 == 0,
                size >= 46,
                count == size / 46 - 1,
                0 <= i <= count,
                reader.pos() == base + 46 * i,
                v@.len() == i,
                forall|j: int|
                    0 <= j < i ==> spec_sample_header_at(
                        #[trigger] v@[j],
                        reader.data(),
                        base + 46 * j,
                    ),
            decreases count - i,
        {
            let h = SampleHeader::new(reader).unwrap();
            v.push(h);
            i = i + 1;
        }
        reader.skip(46).unwrap();
        Ok(v)
    }
}

} // verus!
