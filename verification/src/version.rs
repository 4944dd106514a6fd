//! The version record of a SoundFont bank.

use vstd::prelude::*;
use crate::binary::{le_u16, BinaryReader, ByteCursor, ReadError};

verus! {

/// The version of a SoundFont, as read from an `ifil` or `iver` record.
#[derive(Clone, Copy, Debug, PartialEq, Eq, Structural)]
pub struct SoundFontVersion {
    pub major: i16,
    pub minor: i16,
}

impl SoundFontVersion {
    /// The zero version, used before an `ifil` record is seen.
    pub fn default() -> (r: Self)
        ensures
            r.major == 0,
            r.minor == 0,
    {
        SoundFontVersion { major: 0, minor: 0 }
    }

    /// Read a version as two little-endian 16-bit values, major first.
    pub fn new(reader: &mut ByteCursor) -> (r: Result<Self, ReadError>)
        requires
            old(reader).wf(),
        ensures
            final(reader).wf(),
            final(reader).data() == old(reader).data(),
            match r {
                Ok(v) => {
                    &&& old(reader).spec_remaining() >= 4
                    &&& v.major == le_u16(
                        old(reader).data()[old(reader).pos()],
                        old(reader).data()[old(reader).pos() + 1],
                    ) as i16
                    &&& v.minor == le_u16(
                        old(reader).data()[old(reader).pos() + 2],
                        old(reader).data()[old(reader).pos() + 3],
                    ) as i16
                    &&& final(reader).pos() == old(reader).pos() + 4
                },
                Err(e) => {
                    &&& e == ReadError::UnexpectedEndOfStream
                    &&& old(reader).spec_remaining() < 4
                },
            },
    {
        if reader.remaining() < 4 {
            return Err(ReadError::UnexpectedEndOfStream);
        }
        let major = BinaryReader::read_i16(reader).unwrap();
        let minor = BinaryReader::read_i16(reader).unwrap();
        Ok(SoundFontVersion { major, minor })
    }

    /// The major version.
    pub fn get_major(&self) -> (r: i32)
        ensures
            r == self.major,
    {
        self.major as i32
    }

    /// The minor version.
    pub fn get_minor(&self) -> (r: i32)
        ensures
            r == self.minor,
    {
        self.minor as i32
    }
}

} // verus!
