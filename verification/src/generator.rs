//! SoundFont generators: the numeric parameters attached to zones.

use vstd::prelude::*;
use crate::binary::{le_u16_at, BinaryReader, ByteCursor};
use crate::error::SoundFontError;

verus! {

/// How many distinct generator ids the format defines.
pub const GENERATOR_COUNT: usize = 61;

pub const GEN_START_ADDRESS_OFFSET: u16 = 0;

pub const GEN_END_ADDRESS_OFFSET: u16 = 1;

pub const GEN_START_LOOP_ADDRESS_OFFSET: u16 = 2;

pub const GEN_END_LOOP_ADDRESS_OFFSET: u16 = 3;

pub const GEN_START_ADDRESS_COARSE_OFFSET: u16 = 4;

pub const GEN_MODULATION_LFO_TO_PITCH: u16 = 5;

pub const GEN_VIBRATO_LFO_TO_PITCH: u16 = 6;

pub const GEN_MODULATION_ENVELOPE_TO_PITCH: u16 = 7;

pub const GEN_INITIAL_FILTER_CUTOFF_FREQUENCY: u16 = 8;

pub const GEN_INITIAL_FILTER_Q: u16 = 9;

pub const GEN_MODULATION_LFO_TO_FILTER_CUTOFF_FREQUENCY: u16 = 10;

pub const GEN_MODULATION_ENVELOPE_TO_FILTER_CUTOFF_FREQUENCY: u16 = 11;

pub const GEN_END_ADDRESS_COARSE_OFFSET: u16 = 12;

pub const GEN_MODULATION_LFO_TO_VOLUME: u16 = 13;

pub const GEN_CHORUS_EFFECTS_SEND: u16 = 15;

pub const GEN_REVERB_EFFECTS_SEND: u16 = 16;

pub const GEN_PAN: u16 = 17;

pub const GEN_DELAY_MODULATION_LFO: u16 = 21;

pub const GEN_FREQUENCY_MODULATION_LFO: u16 = 22;

pub const GEN_DELAY_VIBRATO_LFO: u16 = 23;

pub const GEN_FREQUENCY_VIBRATO_LFO: u16 = 24;

pub const GEN_DELAY_MODULATION_ENVELOPE: u16 = 25;

pub const GEN_ATTACK_MODULATION_ENVELOPE: u16 = 26;

pub const GEN_HOLD_MODULATION_ENVELOPE: u16 = 27;

pub const GEN_DECAY_MODULATION_ENVELOPE: u16 = 28;

pub const GEN_SUSTAIN_MODULATION_ENVELOPE: u16 = 29;

pub const GEN_RELEASE_MODULATION_ENVELOPE: u16 = 30;

pub const GEN_KEY_NUMBER_TO_MODULATION_ENVELOPE_HOLD: u16 = 31;

pub const GEN_KEY_NUMBER_TO_MODULATION_ENVELOPE_DECAY: u16 = 32;

pub const GEN_DELAY_VOLUME_ENVELOPE: u16 = 33;

pub const GEN_ATTACK_VOLUME_ENVELOPE: u16 = 34;

pub const GEN_HOLD_VOLUME_ENVELOPE: u16 = 35;

pub const GEN_DECAY_VOLUME_ENVELOPE: u16 = 36;

pub const GEN_SUSTAIN_VOLUME_ENVELOPE: u16 = 37;

pub const GEN_RELEASE_VOLUME_ENVELOPE: u16 = 38;

pub const GEN_KEY_NUMBER_TO_VOLUME_ENVELOPE_HOLD: u16 = 39;

pub const GEN_KEY_NUMBER_TO_VOLUME_ENVELOPE_DECAY: u16 = 40;

pub const GEN_INSTRUMENT: u16 = 41;

pub const GEN_KEY_RANGE: u16 = 43;

pub const GEN_VELOCITY_RANGE: u16 = 44;

pub const GEN_START_LOOP_ADDRESS_COARSE_OFFSET: u16 = 45;

pub const GEN_KEY_NUMBER: u16 = 46;

pub const GEN_VELOCITY: u16 = 47;

pub const GEN_INITIAL_ATTENUATION: u16 = 48;

pub const GEN_END_LOOP_ADDRESS_COARSE_OFFSET: u16 = 50;

pub const GEN_COARSE_TUNE: u16 = 51;

pub const GEN_FINE_TUNE: u16 = 52;

pub const GEN_SAMPLE_ID: u16 = 53;

pub const GEN_SAMPLE_MODES: u16 = 54;

pub const GEN_SCALE_TUNING: u16 = 56;

pub const GEN_EXCLUSIVE_CLASS: u16 = 57;

pub const GEN_OVERRIDING_ROOT_KEY: u16 = 58;

/// One generator record: an id and its 16-bit signed amount.
#[derive(Clone, Copy, Debug, PartialEq, Eq, Structural)]
pub struct Generator {
    pub generator_type: u16,
    pub value: i16,
}

/// The generator encoded at position `p` of the data.
pub open spec fn spec_generator_at(data: Seq<u8>, p: int) -> Generator {
    Generator {
        generator_type: le_u16_at(data, p),
        value: le_u16_at(data, p + 2) as i16,
    }
}

impl Generator {
    /// Read one four-byte generator record.
    pub fn new(reader: &mut ByteCursor) -> (r: Result<Self, SoundFontError>)
        requires
            old(reader).wf(),
        ensures
            final(reader).wf(),
            final(reader).data() == old(reader).data(),
            match r {
                Ok(g) => {
                    &&& old(reader).spec_remaining() >= 4
                    &&& g == spec_generator_at(old(reader).data(), old(reader).pos())
                    &&& final(reader).pos() == old(reader).pos() + 4
                },
                Err(e) => {
                    &&& e is IoError
                    &&& old(reader).spec_remaining() < 4
                },
            },
    {
        if reader.remaining() < 4 {
            return Err(SoundFontError::IoError(crate::binary::ReadError::UnexpectedEndOfStream));
        }
        let generator_type = BinaryReader::read_u16(reader).unwrap();
        let value = BinaryReader::read_i16(reader).unwrap();
        Ok(Generator { generator_type, value })
    }

    /// Read a `pgen` or `igen` chunk of `size` bytes: four bytes per
    /// record, the trailing terminal record dropped.
    pub fn read_from_chunk(reader: &mut ByteCursor, size: usize) -> (r: Result<
        Vec<Generator>,
        SoundFontError,
    >)
        requires
            old(reader).wf(),
        ensures
            final(reader).wf(),
            final(reader).data() == old(reader).data(),
            match r {
                Ok(v) => {
                    &&& size % 4 == 0
                    &&& size >= 4
                    &&& old(reader).spec_remaining() >= size
                    &&& final(reader).pos() == old(reader).pos() + size
                    &&& v@.len() == size / 4 - 1
                    &&& forall|i: int|
                        0 <= i < v@.len() ==> #[trigger] v@[i] == spec_generator_at(
                            old(reader).data(),
                            old(reader).pos() + 4 * i,
                        )
                },
                Err(e) => {
                    ||| e is InvalidGeneratorList && (size % 4 != 0 || size == 0)
                    ||| e is IoError && old(reader).spec_remaining() < size
                },
            },
    {
        if size % 4 != 0 || size == 0 {
            return Err(SoundFontError::InvalidGeneratorList);
        }
        if reader.remaining() < size {
            return Err(SoundFontError::IoError(crate::binary::ReadError::UnexpectedEndOfStream));
        }
        let ghost base = reader.pos();
        let count = size / 4 - 1;
        let mut v: Vec<Generator> = Vec::new();
        let mut i: usize = 0;
        while i < count
            invariant
                reader.wf(),
                reader.data() == old(reader).data(),
                base + size <= reader.data().len(),
                size % 4 == 0,
                size >= 4,
                count == size / 4 - 1,
                0 <= i <= count,
                reader.pos() == base + 4 * i,
                v@.len() == i,
                forall|j: int|
                    0 <= j < i ==> #[trigger] v@[j] == spec_generator_at(
                        reader.data(),
                        base + 4 * j,
                    ),
            decreases count - i,
        {
            let g = Generator::new(reader).unwrap();
            v.push(g);
            i = i + 1;
        }
        reader.skip(4).unwrap();
        Ok(v)
    }
}

/// The generator table after a zone's generators are written over it,
/// in order. Ids outside the table are ignored.
pub open spec fn spec_apply_generators(gs: Seq<i16>, gens: Seq<Generator>) -> Seq<i16>
    decreases gens.len(),
{
    if gens.len() == 0 {
        gs
    } else {
        let g = gens.last();
        let prev = spec_apply_generators(gs, gens.drop_last());
        if g.generator_type < 61 {
            prev.update(g.generator_type as int, g.value)
        } else {
            prev
        }
    }
}

/// Write a zone's generators over a generator table, in order.
pub fn apply_generators(gs: &mut Vec<i16>, gens: &Vec<Generator>)
    requires
        old(gs)@.len() == GENERATOR_COUNT,
    ensures
        final(gs)@ == spec_apply_generators(old(gs)@, gens@),
        final(gs)@.len() == GENERATOR_COUNT,
{
    let mut i: usize = 0;
    while i < gens.len()
        invariant
            gs@.len() == GENERATOR_COUNT,
            0 <= i <= gens@.len(),
            gs@ == spec_apply_generators(old(gs)@, gens@.take(i as int)),
        decreases gens@.len() - i,
    {
        let g = gens[i];
        proof {
            assert(gens@.take(i + 1).drop_last() =~= gens@.take(i as int));
            assert(gens@.take(i + 1).last() == gens@[i as int]);
        }
        if g.generator_type < 61 {
            gs.set(g.generator_type as usize, g.value);
        }
        i = i + 1;
    }
    proof {
        assert(gens@.take(gens@.len() as int) =~= gens@);
    }
}

} // verus!
