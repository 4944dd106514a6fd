//! Little- and big-endian primitive reads from an in-memory byte stream.

use vstd::prelude::*;
use crate::error::{spec_four_cc, FourCC};

verus! {

/// An error raised by the binary reader.
#[derive(Clone, Copy, Debug, PartialEq, Eq, Structural)]
pub enum ReadError {
    /// The stream ended before the requested number of bytes was read.
    UnexpectedEndOfStream,
    /// A variable-length value was longer than four bytes.
    VariableLengthValueTooLong,
}

/// A byte stream read from memory, with a current position.
pub struct ByteCursor {
    data: Vec<u8>,
    pos: usize,
}

impl ByteCursor {
    /// The whole underlying byte sequence.
    pub closed spec fn data(&self) -> Seq<u8> {
        self.data@
    }

    /// The current read position.
    pub closed spec fn pos(&self) -> int {
        self.pos as int
    }

    /// The position never runs past the end of the data.
    pub open spec fn wf(&self) -> bool {
        0 <= self.pos() <= self.data().len()
    }

    /// How many bytes are left to read.
    pub open spec fn spec_remaining(&self) -> int {
        self.data().len() - self.pos()
    }

    pub fn new(data: Vec<u8>) -> (c: Self)
        ensures
            c.wf(),
            c.data() == data@,
            c.pos() == 0,
    {
        ByteCursor { data, pos: 0 }
    }

    pub fn position(&self) -> (r: usize)
        ensures
            r == self.pos(),
    {
        self.pos
    }

    pub fn remaining(&self) -> (r: usize)
        requires
            self.wf(),
        ensures
            r == self.spec_remaining(),
    {
        self.data.len() - self.pos
    }

    /// Read one byte and advance.
    pub fn next_byte(&mut self) -> (r: Result<u8, ReadError>)
        requires
            old(self).wf(),
        ensures
            final(self).wf(),
            final(self).data() == old(self).data(),
            match r {
                Ok(b) => {
                    &&& old(self).spec_remaining() >= 1
                    &&& b == old(self).data()[old(self).pos()]
                    &&& final(self).pos() == old(self).pos() + 1
                },
                Err(e) => {
                    &&& e == ReadError::UnexpectedEndOfStream
                    &&& old(self).spec_remaining() == 0
                    &&& final(self).pos() == old(self).pos()
                },
            },
    {
        if self.pos < self.data.len() {
            let b = self.data[self.pos];
            self.pos = self.pos + 1;
            Ok(b)
        } else {
            Err(ReadError::UnexpectedEndOfStream)
        }
    }

    /// Advance past `size` bytes without decoding them.
    pub fn skip(&mut self, size: usize) -> (r: Result<(), ReadError>)
        requires
            old(self).wf(),
        ensures
            final(self).wf(),
            final(self).data() == old(self).data(),
            match r {
                Ok(()) => {
                    &&& old(self).spec_remaining() >= size
                    &&& final(self).pos() == old(self).pos() + size
                },
                Err(e) => {
                    &&& e == ReadError::UnexpectedEndOfStream
                    &&& old(self).spec_remaining() < size
                    &&& final(self).pos() == old(self).pos()
                },
            },
    {
        if size <= self.data.len() - self.pos {
            self.pos = self.pos + size;
            Ok(())
        } else {
            Err(ReadError::UnexpectedEndOfStream)
        }
    }
}

/// The unsigned 16-bit value encoded little-endian by two bytes.
pub open spec fn le_u16(b0: u8, b1: u8) -> u16 {
    (b0 + b1 * 0x100) as u16
}

/// The unsigned 32-bit value encoded little-endian by four bytes.
pub open spec fn le_u32(b0: u8, b1: u8, b2: u8, b3: u8) -> u32 {
    (b0 + b1 * 0x100 + b2 * 0x1_0000 + b3 * 0x100_0000) as u32
}

/// The unsigned 16-bit value encoded little-endian at position `p`.
pub open spec fn le_u16_at(data: Seq<u8>, p: int) -> u16 {
    le_u16(data[p], data[p + 1])
}

/// The unsigned 32-bit value encoded little-endian at position `p`.
pub open spec fn le_u32_at(data: Seq<u8>, p: int) -> u32 {
    le_u32(data[p], data[p + 1], data[p + 2], data[p + 3])
}

/// What `read_fixed_length_string` returns for a field of `length` bytes
/// at position `pos`: the sanitized prefix that stops at the first NUL.
pub open spec fn spec_name_field(v: Seq<u8>, data: Seq<u8>, pos: int, length: int) -> bool {
    &&& v.len() <= length
    &&& forall|j: int| 0 <= j < v.len() ==> v[j] == spec_name_byte(#[trigger] data[pos + j])
    &&& forall|j: int| 0 <= j < v.len() ==> #[trigger] data[pos + j] != 0
    &&& (v.len() < length ==> data[pos + v.len()] == 0)
}

/// The value of a variable-length quantity: seven value bits per byte,
/// most significant first.
pub open spec fn spec_vlq(s: Seq<u8>) -> int
    decreases s.len(),
{
    if s.len() == 0 {
        0
    } else {
        spec_vlq(s.drop_last()) * 128 + (s.last() % 128)
    }
}

/// The byte itself when in the printable range kept by name fields
/// (tab through `'~'`), `'?'` otherwise.
pub open spec fn spec_name_byte(b: u8) -> u8 {
    if 9 <= b <= 126 {
        b
    } else {
        0x3f
    }
}


/// One sub-chunk found while walking a list: its sanitized tag, the
/// position of its body, and its declared size.
pub struct ChunkEntry {
    pub tag: Seq<u8>,
    pub body: int,
    pub size: int,
}

/// The outcome of walking a list's sub-chunks.
pub enum ChunkScan {
    /// Every chunk fit in the data; `leftover` is what remained of the
    /// list's byte budget (zero when the chunks tile it exactly,
    /// negative when the last chunk ran past it).
    Done { chunks: Seq<ChunkEntry>, leftover: int },
    /// A chunk header or body ran past the end of the data.
    Truncated,
}

/// Walk the sub-chunks of a list: at `p` sit a four-byte tag and a
/// four-byte little-endian size, then the body. The walk stops once
/// `rem` bytes of the list are consumed.
pub open spec fn spec_scan_chunks(data: Seq<u8>, p: int, rem: int) -> ChunkScan
    decreases (if rem <= 0 { 0int } else { rem }),
{
    if rem <= 0 {
        ChunkScan::Done { chunks: Seq::empty(), leftover: rem }
    } else if p + 8 > data.len() {
        ChunkScan::Truncated
    } else {
        let size = le_u32_at(data, p + 4) as int;
        if p + 8 + size > data.len() {
            ChunkScan::Truncated
        } else {
            match spec_scan_chunks(data, p + 8 + size, rem - 8 - size) {
                ChunkScan::Done { chunks, leftover } => ChunkScan::Done {
                    chunks: seq![
                        ChunkEntry {
                            tag: spec_four_cc(data[p], data[p + 1], data[p + 2], data[p + 3]),
                            body: p + 8,
                            size,
                        },
                    ] + chunks,
                    leftover,
                },
                ChunkScan::Truncated => ChunkScan::Truncated,
            }
        }
    }
}

/// The last chunk with the given tag, if any: a later record of the
/// same kind overrides an earlier one.
pub open spec fn spec_last_chunk(chunks: Seq<ChunkEntry>, tag: Seq<u8>) -> Option<ChunkEntry>
    decreases chunks.len(),
{
    if chunks.len() == 0 {
        None
    } else if chunks.last().tag =~= tag {
        Some(chunks.last())
    } else {
        spec_last_chunk(chunks.drop_last(), tag)
    }
}

/// Appending a chunk overrides the last occurrence of its own tag and
/// leaves every other tag's last occurrence alone.
pub proof fn lemma_last_chunk_push(chunks: Seq<ChunkEntry>, e: ChunkEntry, tag: Seq<u8>)
    ensures
        spec_last_chunk(chunks.push(e), tag) == (if e.tag =~= tag {
            Some(e)
        } else {
            spec_last_chunk(chunks, tag)
        }),
{
    assert(chunks.push(e).last() == e);
    assert(chunks.push(e).drop_last() =~= chunks);
}

/// Whether a list starting at `pos` has a well-formed header: a LIST
/// tag, a size that covers the four-byte list type and fits in the
/// data, and the expected list type.
pub open spec fn spec_list_header_ok(data: Seq<u8>, pos: int, list_type: Seq<u8>) -> bool {
    &&& pos + 12 <= data.len()
    &&& spec_four_cc(data[pos], data[pos + 1], data[pos + 2], data[pos + 3]) =~= seq![
        0x4cu8,
        0x49u8,
        0x53u8,
        0x54u8,
    ]
    &&& le_u32_at(data, pos + 4) >= 4
    &&& pos + 8 + le_u32_at(data, pos + 4) <= data.len()
    &&& spec_four_cc(data[pos + 8], data[pos + 9], data[pos + 10], data[pos + 11]) =~= list_type
}

/// Reads primitive values out of a `ByteCursor`.
pub struct BinaryReader {}

impl BinaryReader {
    /// Read a signed byte.
    pub fn read_i8(reader: &mut ByteCursor) -> (r: Result<i8, ReadError>)
        requires
            old(reader).wf(),
        ensures
            final(reader).wf(),
            final(reader).data() == old(reader).data(),
            match r {
                Ok(v) => {
                    &&& old(reader).spec_remaining() >= 1
                    &&& v == old(reader).data()[old(reader).pos()] as i8
                    &&& final(reader).pos() == old(reader).pos() + 1
                },
                Err(e) => {
                    &&& e == ReadError::UnexpectedEndOfStream
                    &&& old(reader).spec_remaining() < 1
                    &&& final(reader).pos() == old(reader).pos()
                },
            },
    {
        let b = reader.next_byte()?;
        Ok(b as i8)
    }

    /// Read an unsigned byte.
    pub fn read_u8(reader: &mut ByteCursor) -> (r: Result<u8, ReadError>)
        requires
            old(reader).wf(),
        ensures
            final(reader).wf(),
            final(reader).data() == old(reader).data(),
            match r {
                Ok(v) => {
                    &&& old(reader).spec_remaining() >= 1
                    &&& v == old(reader).data()[old(reader).pos()]
                    &&& final(reader).pos() == old(reader).pos() + 1
                },
                Err(e) => {
                    &&& e == ReadError::UnexpectedEndOfStream
                    &&& old(reader).spec_remaining() < 1
                    &&& final(reader).pos() == old(reader).pos()
                },
            },
    {
        reader.next_byte()
    }

    /// Read a signed 16-bit value, little-endian.
    pub fn read_i16(reader: &mut ByteCursor) -> (r: Result<i16, ReadError>)
        requires
            old(reader).wf(),
        ensures
            final(reader).wf(),
            final(reader).data() == old(reader).data(),
            match r {
                Ok(v) => {
                    &&& old(reader).spec_remaining() >= 2
                    &&& v == le_u16(
                        old(reader).data()[old(reader).pos()],
                        old(reader).data()[old(reader).pos() + 1],
                    ) as i16
                    &&& final(reader).pos() == old(reader).pos() + 2
                },
                Err(e) => {
                    &&& e == ReadError::UnexpectedEndOfStream
                    &&& old(reader).spec_remaining() < 2
                    &&& final(reader).pos() == old(reader).pos()
                },
            },
    {
        let v = Self::read_u16(reader)?;
        Ok(v as i16)
    }

    /// Read an unsigned 16-bit value, little-endian.
    pub fn read_u16(reader: &mut ByteCursor) -> (r: Result<u16, ReadError>)
        requires
            old(reader).wf(),
        ensures
            final(reader).wf(),
            final(reader).data() == old(reader).data(),
            match r {
                Ok(v) => {
                    &&& old(reader).spec_remaining() >= 2
                    &&& v == le_u16(
                        old(reader).data()[old(reader).pos()],
                        old(reader).data()[old(reader).pos() + 1],
                    )
                    &&& final(reader).pos() == old(reader).pos() + 2
                },
                Err(e) => {
                    &&& e == ReadError::UnexpectedEndOfStream
                    &&& old(reader).spec_remaining() < 2
                    &&& final(reader).pos() == old(reader).pos()
                },
            },
    {
        if reader.remaining() < 2 {
            return Err(ReadError::UnexpectedEndOfStream);
        }
        let b0 = reader.next_byte().unwrap();
        let b1 = reader.next_byte().unwrap();
        Ok(b0 as u16 + (b1 as u16) * 0x100)
    }

    /// Read a signed 32-bit value, little-endian.
    pub fn read_i32(reader: &mut ByteCursor) -> (r: Result<i32, ReadError>)
        requires
            old(reader).wf(),
        ensures
            final(reader).wf(),
            final(reader).data() == old(reader).data(),
            match r {
                Ok(v) => {
                    &&& old(reader).spec_remaining() >= 4
                    &&& v == le_u32(
                        old(reader).data()[old(reader).pos()],
                        old(reader).data()[old(reader).pos() + 1],
                        old(reader).data()[old(reader).pos() + 2],
                        old(reader).data()[old(reader).pos() + 3],
                    ) as i32
                    &&& final(reader).pos() == old(reader).pos() + 4
                },
                Err(e) => {
                    &&& e == ReadError::UnexpectedEndOfStream
                    &&& old(reader).spec_remaining() < 4
                    &&& final(reader).pos() == old(reader).pos()
                },
            },
    {
        let v = Self::read_u32(reader)?;
        Ok(v as i32)
    }

    /// Read an unsigned 32-bit value, little-endian.
    pub fn read_u32(reader: &mut ByteCursor) -> (r: Result<u32, ReadError>)
        requires
            old(reader).wf(),
        ensures
            final(reader).wf(),
            final(reader).data() == old(reader).data(),
            match r {
                Ok(v) => {
                    &&& old(reader).spec_remaining() >= 4
                    &&& v == le_u32(
                        old(reader).data()[old(reader).pos()],
                        old(reader).data()[old(reader).pos() + 1],
                        old(reader).data()[old(reader).pos() + 2],
                        old(reader).data()[old(reader).pos() + 3],
                    )
                    &&& final(reader).pos() == old(reader).pos() + 4
                },
                Err(e) => {
                    &&& e == ReadError::UnexpectedEndOfStream
                    &&& old(reader).spec_remaining() < 4
                    &&& final(reader).pos() == old(reader).pos()
                },
            },
    {
        if reader.remaining() < 4 {
            return Err(ReadError::UnexpectedEndOfStream);
        }
        let b0 = reader.next_byte().unwrap();
        let b1 = reader.next_byte().unwrap();
        let b2 = reader.next_byte().unwrap();
        let b3 = reader.next_byte().unwrap();
        Ok(b0 as u32 + (b1 as u32) * 0x100 + (b2 as u32) * 0x1_0000 + (b3 as u32) * 0x100_0000)
    }

    /// Read a signed 16-bit value, big-endian.
    pub fn read_i16_big_endian(reader: &mut ByteCursor) -> (r: Result<i16, ReadError>)
        requires
            old(reader).wf(),
        ensures
            final(reader).wf(),
            final(reader).data() == old(reader).data(),
            match r {
                Ok(v) => {
                    &&& old(reader).spec_remaining() >= 2
                    &&& v == le_u16(
                        old(reader).data()[old(reader).pos() + 1],
                        old(reader).data()[old(reader).pos()],
                    ) as i16
                    &&& final(reader).pos() == old(reader).pos() + 2
                },
                Err(e) => {
                    &&& e == ReadError::UnexpectedEndOfStream
                    &&& old(reader).spec_remaining() < 2
                    &&& final(reader).pos() == old(reader).pos()
                },
            },
    {
        if reader.remaining() < 2 {
            return Err(ReadError::UnexpectedEndOfStream);
        }
        let b0 = reader.next_byte().unwrap();
        let b1 = reader.next_byte().unwrap();
        Ok((b1 as u16 + (b0 as u16) * 0x100) as i16)
    }

    /// Read a signed 32-bit value, big-endian.
    pub fn read_i32_big_endian(reader: &mut ByteCursor) -> (r: Result<i32, ReadError>)
        requires
            old(reader).wf(),
        ensures
            final(reader).wf(),
            final(reader).data() == old(reader).data(),
            match r {
                Ok(v) => {
                    &&& old(reader).spec_remaining() >= 4
                    &&& v == le_u32(
                        old(reader).data()[old(reader).pos() + 3],
                        old(reader).data()[old(reader).pos() + 2],
                        old(reader).data()[old(reader).pos() + 1],
                        old(reader).data()[old(reader).pos()],
                    ) as i32
                    &&& final(reader).pos() == old(reader).pos() + 4
                },
                Err(e) => {
                    &&& e == ReadError::UnexpectedEndOfStream
                    &&& old(reader).spec_remaining() < 4
                    &&& final(reader).pos() == old(reader).pos()
                },
            },
    {
        if reader.remaining() < 4 {
            return Err(ReadError::UnexpectedEndOfStream);
        }
        let b0 = reader.next_byte().unwrap();
        let b1 = reader.next_byte().unwrap();
        let b2 = reader.next_byte().unwrap();
        let b3 = reader.next_byte().unwrap();
        Ok((b3 as u32 + (b2 as u32) * 0x100 + (b1 as u32) * 0x1_0000 + (b0 as u32) * 0x100_0000)
            as i32)
    }

    /// Read a four-byte chunk tag.
    pub fn read_four_cc(reader: &mut ByteCursor) -> (r: Result<FourCC, ReadError>)
        requires
            old(reader).wf(),
        ensures
            final(reader).wf(),
            final(reader).data() == old(reader).data(),
            match r {
                Ok(v) => {
                    &&& old(reader).spec_remaining() >= 4
                    &&& v@ == spec_four_cc(
                        old(reader).data()[old(reader).pos()],
                        old(reader).data()[old(reader).pos() + 1],
                        old(reader).data()[old(reader).pos() + 2],
                        old(reader).data()[old(reader).pos() + 3],
                    )
                    &&& final(reader).pos() == old(reader).pos() + 4
                },
                Err(e) => {
                    &&& e == ReadError::UnexpectedEndOfStream
                    &&& old(reader).spec_remaining() < 4
                    &&& final(reader).pos() == old(reader).pos()
                },
            },
    {
        if reader.remaining() < 4 {
            return Err(ReadError::UnexpectedEndOfStream);
        }
        let b0 = reader.next_byte().unwrap();
        let b1 = reader.next_byte().unwrap();
        let b2 = reader.next_byte().unwrap();
        let b3 = reader.next_byte().unwrap();
        Ok(FourCC::from_bytes([b0, b1, b2, b3]))
    }

    /// Read a variable-length quantity of at most four bytes: seven value
    /// bits per byte, high bit set on every byte but the last.
    pub fn read_i32_variable_length(reader: &mut ByteCursor) -> (r: Result<i32, ReadError>)
        requires
            old(reader).wf(),
        ensures
            final(reader).wf(),
            final(reader).data() == old(reader).data(),
            match r {
                Ok(v) => exists|k: int|
                    {
                        &&& 1 <= k <= 4
                        &&& old(reader).spec_remaining() >= k
                        &&& final(reader).pos() == old(reader).pos() + k
                        &&& forall|j: int|
                            0 <= j < k - 1 ==> #[trigger] old(reader).data()[old(reader).pos() + j]
                                >= 128
                        &&& old(reader).data()[old(reader).pos() + k - 1] < 128
                        &&& v == spec_vlq(
                            #[trigger] old(reader).data().subrange(
                                old(reader).pos(),
                                old(reader).pos() + k,
                            ),
                        )
                    },
                Err(ReadError::UnexpectedEndOfStream) => {
                    &&& old(reader).spec_remaining() < 4
                    &&& forall|j: int|
                        0 <= j < old(reader).spec_remaining() ==> #[trigger] old(reader).data()[old(
                            reader,
                        ).pos() + j] >= 128
                },
                Err(ReadError::VariableLengthValueTooLong) => {
                    &&& old(reader).spec_remaining() >= 4
                    &&& forall|j: int|
                        0 <= j < 4 ==> #[trigger] old(reader).data()[old(reader).pos() + j] >= 128
                },
            },
    {
        let ghost base = reader.pos();
        let mut acc: i32 = 0;
        let mut count: usize = 0;
        loop
            invariant
                reader.wf(),
                reader.data() == old(reader).data(),
                base == old(reader).pos(),
                0 <= count <= 3,
                reader.pos() == base + count,
                0 <= acc,
                acc < (if count == 0 {
                    1int
                } else if count == 1 {
                    0x80int
                } else if count == 2 {
                    0x4000int
                } else {
                    0x20_0000int
                }),
                acc == spec_vlq(reader.data().subrange(base, base + count)),
                forall|j: int| 0 <= j < count ==> #[trigger] reader.data()[base + j] >= 128,
            decreases 4 - count,
        {
            let value = match BinaryReader::read_u8(reader) {
                Ok(v) => v,
                Err(_) => {
                    return Err(ReadError::UnexpectedEndOfStream);
                },
            };
            proof {
                let s = reader.data().subrange(base, base + count + 1);
                assert(base + count + 1 <= reader.data().len());
                assert(s.len() == count + 1);
                assert(s.drop_last() =~= reader.data().subrange(base, base + count));
                assert(s.last() == value);
            }
            acc = acc * 128 + (value % 128) as i32;
            count = count + 1;
            if value < 128 {
                proof {
                    assert(final(reader).pos() == old(reader).pos() + count);
                }
                return Ok(acc);
            }
            if count == 4 {
                return Err(ReadError::VariableLengthValueTooLong);
            }
        }
    }

    /// Read a fixed-length name field: `length` bytes are always consumed,
    /// the result stops at the first NUL, and bytes outside the printable
    /// range (tab through `'~'`) are replaced with `'?'`.
    pub fn read_fixed_length_string(reader: &mut ByteCursor, length: usize) -> (r: Result<
        Vec<u8>,
        ReadError,
    >)
        requires
            old(reader).wf(),
        ensures
            final(reader).wf(),
            final(reader).data() == old(reader).data(),
            match r {
                Ok(v) => {
                    &&& old(reader).spec_remaining() >= length
                    &&& final(reader).pos() == old(reader).pos() + length
                    &&& spec_name_field(v@, old(reader).data(), old(reader).pos(), length as int)
                },
                Err(e) => {
                    &&& e == ReadError::UnexpectedEndOfStream
                    &&& old(reader).spec_remaining() < length
                    &&& final(reader).pos() == old(reader).pos()
                },
            },
    {
        if reader.remaining() < length {
            return Err(ReadError::UnexpectedEndOfStream);
        }
        let ghost base = reader.pos();
        let mut out: Vec<u8> = Vec::new();
        let mut i: usize = 0;
        let mut stopped = false;
        while i < length
            invariant
                reader.wf(),
                reader.data() == old(reader).data(),
                base + length <= reader.data().len(),
                0 <= i <= length,
                reader.pos() == base + i,
                out@.len() <= i,
                !stopped ==> out@.len() == i,
                forall|j: int|
                    0 <= j < out@.len() ==> out@[j] == spec_name_byte(
                        #[trigger] reader.data()[base + j],
                    ),
                forall|j: int| 0 <= j < out@.len() ==> #[trigger] reader.data()[base + j] != 0,
                stopped ==> out@.len() < length && reader.data()[base + out@.len()] == 0,
            decreases length - i,
        {
            let b = reader.next_byte().unwrap();
            if !stopped {
                if b == 0 {
                    stopped = true;
                } else if 9 <= b && b <= 126 {
                    out.push(b);
                } else {
                    out.push(0x3f);
                }
            }
            i = i + 1;
        }
        Ok(out)
    }

    /// Read `size` bytes as 16-bit little-endian PCM samples. A trailing
    /// odd byte is consumed and dropped.
    pub fn read_wave_data(reader: &mut ByteCursor, size: usize) -> (r: Result<Vec<i16>, ReadError>)
        requires
            old(reader).wf(),
        ensures
            final(reader).wf(),
            final(reader).data() == old(reader).data(),
            match r {
                Ok(v) => {
                    &&& old(reader).spec_remaining() >= size
                    &&& final(reader).pos() == old(reader).pos() + size
                    &&& v@.len() == size / 2
                    &&& forall|j: int|
                        0 <= j < v@.len() ==> v@[j] == le_u16(
                            #[trigger] old(reader).data()[old(reader).pos() + 2 * j],
                            old(reader).data()[old(reader).pos() + 2 * j + 1],
                        ) as i16
                },
                Err(e) => {
                    &&& e == ReadError::UnexpectedEndOfStream
                    &&& old(reader).spec_remaining() < size
                    &&& final(reader).pos() == old(reader).pos()
                },
            },
    {
        if reader.remaining() < size {
            return Err(ReadError::UnexpectedEndOfStream);
        }
        let ghost base = reader.pos();
        let length = size / 2;
        let mut samples: Vec<i16> = Vec::new();
        let mut i: usize = 0;
        while i < length
            invariant
                reader.wf(),
                reader.data() == old(reader).data(),
                base + size <= reader.data().len(),
                length == size / 2,
                0 <= i <= length,
                reader.pos() == base + 2 * i,
                samples@.len() == i,
                forall|j: int|
                    0 <= j < i ==> samples@[j] == le_u16(
                        #[trigger] reader.data()[base + 2 * j],
                        reader.data()[base + 2 * j + 1],
                    ) as i16,
            decreases length - i,
        {
            let v = Self::read_i16(reader).unwrap();
            samples.push(v);
            i = i + 1;
        }
        if size % 2 == 1 {
            reader.skip(1).unwrap();
        }
        Ok(samples)
    }

    /// Skip `size` bytes of the stream.
    pub fn discard_data(reader: &mut ByteCursor, size: usize) -> (r: Result<(), ReadError>)
        requires
            old(reader).wf(),
        ensures
            final(reader).wf(),
            final(reader).data() == old(reader).data(),
            match r {
                Ok(()) => {
                    &&& old(reader).spec_remaining() >= size
                    &&& final(reader).pos() == old(reader).pos() + size
                },
                Err(e) => {
                    &&& e == ReadError::UnexpectedEndOfStream
                    &&& old(reader).spec_remaining() < size
                    &&& final(reader).pos() == old(reader).pos()
                },
            },
    {
        reader.skip(size)
    }
}

/// Counts how many bytes a `ByteCursor` has read since a marked point.
pub struct ReadCounter {
    start: usize,
}

impl ReadCounter {
    /// The position the counter was started at.
    pub closed spec fn start(&self) -> int {
        self.start as int
    }

    /// Mark the current position of the stream.
    pub fn new(reader: &ByteCursor) -> (r: Self)
        ensures
            r.start() == reader.pos(),
    {
        ReadCounter { start: reader.position() }
    }

    /// How many bytes were read since the counter was started.
    pub fn bytes_read(&self, reader: &ByteCursor) -> (r: usize)
        requires
            self.start() <= reader.pos(),
        ensures
            r == reader.pos() - self.start(),
    {
        reader.position() - self.start
    }
}

} // verus!
