//! Zones: range-matched bundles of generators, reconstructed from the
//! bag and generator chunks.

use vstd::prelude::*;
use crate::binary::{le_u16_at, BinaryReader, ByteCursor};
use crate::error::SoundFontError;
use crate::generator::Generator;

verus! {

/// One bag record: where the zone's generators and modulators start.
#[derive(Clone, Copy, Debug, PartialEq, Eq, Structural)]
pub struct ZoneInfo {
    pub generator_index: u16,
    pub modulator_index: u16,
}

/// The bag record encoded at position `p` of the data.
pub open spec fn spec_zone_info_at(data: Seq<u8>, p: int) -> ZoneInfo {
    ZoneInfo { generator_index: le_u16_at(data, p), modulator_index: le_u16_at(data, p + 2) }
}

impl ZoneInfo {
    /// Read a `pbag` or `ibag` chunk of `size` bytes: four bytes per
    /// record, the terminal record kept so that zone extents can be
    /// computed from consecutive records.
    pub fn read_from_chunk(reader: &mut ByteCursor, size: usize) -> (r: Result<
        Vec<ZoneInfo>,
        SoundFontError,
    >)
        requires
            old(reader).wf(),
        ensures
            final(reader).wf(),
            final(reader).data() == old(reader).data(),
            match r {
                Ok(v) => {
                    &&& size % 4 == 0
                    &&& old(reader).spec_remaining() >= size
                    &&& final(reader).pos() == old(reader).pos() + size
                    &&& v@.len() == size / 4
                    &&& forall|i: int|
                        0 <= i < v@.len() ==> #[trigger] v@[i] == spec_zone_info_at(
                            old(reader).data(),
                            old(reader).pos() + 4 * i,
                        )
                },
                Err(e) => {
                    ||| e is InvalidZoneList && size % 4 != 0
                    ||| e is IoError && old(reader).spec_remaining() < size
                },
            },
    {
        if size % 4 != 0 {
            return Err(SoundFontError::InvalidZoneList);
        }
        if reader.remaining() < size {
            return Err(SoundFontError::IoError(crate::binary::ReadError::UnexpectedEndOfStream));
        }
        let ghost base = reader.pos();
        let count = size / 4;
        let mut v: Vec<ZoneInfo> = Vec::new();
        let mut i: usize = 0;
        while i < count
            invariant
                reader.wf(),
                reader.data() == old(reader).data(),
                base + size <= reader.data().len(),
                size % 4 == 0,
                count == size / 4,
                0 <= i <= count,
                reader.pos() == base + 4 * i,
                v@.len() == i,
                forall|j: int|
                    0 <= j < i ==> #[trigger] v@[j] == spec_zone_info_at(
                        reader.data(),
                        base + 4 * j,
                    ),
            decreases count - i,
        {
            let generator_index = BinaryReader::read_u16(reader).unwrap();
            let modulator_index = BinaryReader::read_u16(reader).unwrap();
            v.push(ZoneInfo { generator_index, modulator_index });
            i = i + 1;
        }
        Ok(v)
    }
}

/// A zone: the generators between two consecutive bag records.
#[derive(Clone, Debug)]
pub struct Zone {
    pub generators: Vec<Generator>,
}

/// Whether consecutive bag records slice the generator array properly.
pub open spec fn spec_zone_extents_ok(infos: Seq<ZoneInfo>, gen_count: int) -> bool {
    forall|i: int|
        0 <= i < infos.len() - 1 ==> #[trigger] infos[i].generator_index
            <= infos[i + 1].generator_index && infos[i + 1].generator_index <= gen_count
}

impl Zone {
    /// Pair each bag record with the next one and take the generators in
    /// between. The final record is the terminal sentinel, so `n` records
    /// yield `n - 1` zones.
    pub fn create(infos: &Vec<ZoneInfo>, generators: &Vec<Generator>) -> (r: Result<
        Vec<Zone>,
        SoundFontError,
    >)
        ensures
            match r {
                Ok(v) => {
                    &&& infos@.len() >= 1
                    &&& spec_zone_extents_ok(infos@, generators@.len() as int)
                    &&& v@.len() == infos@.len() - 1
                    &&& forall|i: int|
                        0 <= i < v@.len() ==> #[trigger] v@[i].generators@ =~= generators@.subrange(
                            infos@[i].generator_index as int,
                            infos@[i + 1].generator_index as int,
                        )
                },
                Err(e) => {
                    ||| e is ZoneNotFound && infos@.len() == 0
                    ||| e is InvalidZoneList && !spec_zone_extents_ok(
                        infos@,
                        generators@.len() as int,
                    )
                },
            },
    {
        if infos.len() == 0 {
            return Err(SoundFontError::ZoneNotFound);
        }
        let count = infos.len() - 1;
        let mut zones: Vec<Zone> = Vec::new();
        let mut i: usize = 0;
        while i < count
            invariant
                count == infos@.len() - 1,
                0 <= i <= count,
                zones@.len() == i,
                forall|j: int|
                    0 <= j < i ==> #[trigger] infos@[j].generator_index <= infos@[j
                        + 1].generator_index && infos@[j + 1].generator_index <= generators@.len(),
                forall|j: int|
                    0 <= j < i ==> #[trigger] zones@[j].generators@ == generators@.subrange(
                        infos@[j].generator_index as int,
                        infos@[j + 1].generator_index as int,
                    ),
            decreases count - i,
        {
            let start = infos[i].generator_index as usize;
            let end = infos[i + 1].generator_index as usize;
            if !(start <= end && end <= generators.len()) {
                return Err(SoundFontError::InvalidZoneList);
            }
            let mut gs: Vec<Generator> = Vec::new();
            let mut j: usize = start;
            while j < end
                invariant
                    start <= j <= end,
                    end <= generators@.len(),
                    gs@.len() == j - start,
                    forall|k: int| 0 <= k < gs@.len() ==> gs@[k] == generators@[start + k],
                decreases end - j,
            {
                let g = generators[j];
                gs.push(g);
                j = j + 1;
            }
            proof {
                assert(gs@ =~= generators@.subrange(start as int, end as int));
            }
            zones.push(Zone { generators: gs });
            i = i + 1;
        }
        proof {
            assert(spec_zone_extents_ok(infos@, generators@.len() as int));
            assert forall|k: int| 0 <= k < zones@.len() implies #[trigger] zones@[k].generators@
                == generators@.subrange(
                infos@[k].generator_index as int,
                infos@[k + 1].generator_index as int,
            ) by {
                assert(zones@[k].generators@ =~= generators@.subrange(
                    infos@[k].generator_index as int,
                    infos@[k + 1].generator_index as int,
                ));
            }
        }
        Ok(zones)
    }
}

} // verus!
