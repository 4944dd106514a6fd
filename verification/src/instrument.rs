//! Instruments: named zone lists that resolve to sample segments.

use vstd::prelude::*;
use crate::binary::{le_u16_at, spec_name_field, BinaryReader, ByteCursor};
use crate::error::SoundFontError;
use crate::generator::{
    spec_apply_generators, apply_generators, Generator, GEN_ATTACK_MODULATION_ENVELOPE,
    GEN_ATTACK_VOLUME_ENVELOPE, GEN_DECAY_MODULATION_ENVELOPE, GEN_DECAY_VOLUME_ENVELOPE,
    GEN_DELAY_MODULATION_ENVELOPE, GEN_DELAY_MODULATION_LFO, GEN_DELAY_VIBRATO_LFO,
    GEN_DELAY_VOLUME_ENVELOPE, GEN_END_ADDRESS_COARSE_OFFSET, GEN_END_ADDRESS_OFFSET,
    GEN_END_LOOP_ADDRESS_COARSE_OFFSET, GEN_END_LOOP_ADDRESS_OFFSET,
    GEN_HOLD_MODULATION_ENVELOPE, GEN_HOLD_VOLUME_ENVELOPE,
    GEN_INITIAL_FILTER_CUTOFF_FREQUENCY, GEN_KEY_NUMBER, GEN_KEY_RANGE,
    GEN_OVERRIDING_ROOT_KEY, GEN_RELEASE_MODULATION_ENVELOPE, GEN_RELEASE_VOLUME_ENVELOPE,
    GEN_SAMPLE_ID, GEN_SCALE_TUNING, GEN_START_ADDRESS_COARSE_OFFSET, GEN_START_ADDRESS_OFFSET,
    GEN_START_LOOP_ADDRESS_COARSE_OFFSET, GEN_START_LOOP_ADDRESS_OFFSET, GEN_VELOCITY,
    GEN_VELOCITY_RANGE, GENERATOR_COUNT,
};
use crate::preset::spec_is_global_zone;
use crate::text::clone_bytes;
use crate::sample_header::SampleHeader;
use crate::zone::Zone;

verus! {

/// One 22-byte `inst` record.
#[derive(Clone, Debug)]
pub struct InstrumentInfo {
    pub name: Vec<u8>,
    pub zone_start_index: u16,
}

/// How a decoded instrument record relates to the 22 bytes at `p`.
pub open spec fn spec_instrument_info_at(h: InstrumentInfo, data: Seq<u8>, p: int) -> bool {
    &&& spec_name_field(h.name@, data, p, 20)
    &&& h.zone_start_index == le_u16_at(data, p + 20)
}

impl InstrumentInfo {
    /// Read one instrument record.
    pub fn new(reader: &mut ByteCursor) -> (r: Result<Self, SoundFontError>)
        requires
            old(reader).wf(),
        ensures
            final(reader).wf(),
            final(reader).data() == old(reader).data(),
            match r {
                Ok(h) => {
                    &&& old(reader).spec_remaining() >= 22
                    &&& spec_instrument_info_at(h, old(reader).data(), old(reader).pos())
                    &&& final(reader).pos() == old(reader).pos() + 22
                },
                Err(e) => {
                    &&& e is IoError
                    &&& old(reader).spec_remaining() < 22
                },
            },
    {
        if reader.remaining() < 22 {
            return Err(SoundFontError::IoError(crate::binary::ReadError::UnexpectedEndOfStream));
        }
        let name = BinaryReader::read_fixed_length_string(reader, 20).unwrap();
        let zone_start_index = BinaryReader::read_u16(reader).unwrap();
        Ok(InstrumentInfo { name, zone_start_index })
    }

    /// Read an `inst` chunk of `size` bytes: 22 bytes per record, all
    /// records kept, the last being the terminal sentinel.
    pub fn read_from_chunk(reader: &mut ByteCursor, size: usize) -> (r: Result<
        Vec<InstrumentInfo>,
        SoundFontError,
    >)
        requires
            old(reader).wf(),
        ensures
            final(reader).wf(),
            final(reader).data() == old(reader).data(),
            match r {
                Ok(v) => {
                    &&& size % 22 == 0
                    &&& size >= 22
                    &&& old(reader).spec_remaining() >= size
                    &&& final(reader).pos() == old(reader).pos() + size
                    &&& v@.len() == size / 22
                    &&& forall|i: int|
                        0 <= i < v@.len() ==> spec_instrument_info_at(
                            #[trigger] v@[i],
                            old(reader).data(),
                            old(reader).pos() + 22 * i,
                        )
                },
                Err(e) => {
                    ||| e is InvalidInstrumentList && (size % 22 != 0 || size == 0)
                    ||| e is IoError && old(reader).spec_remaining() < size
                },
            },
    {
        if size % 22 != 0 || size == 0 {
            return Err(SoundFontError::InvalidInstrumentList);
        }
        if reader.remaining() < size {
            return Err(SoundFontError::IoError(crate::binary::ReadError::UnexpectedEndOfStream));
        }
        let ghost base = reader.pos();
        let count = size / 22;
        let mut v: Vec<InstrumentInfo> = Vec::new();
        let mut i: usize = 0;
        while i < count
            invariant
                reader.wf(),
                reader.data() == old(reader).data(),
                base + size <= reader.data().len(),
                size % 22 == 0,
                count == size / 22,
                0 <= i <= count,
                reader.pos() == base + 22 * i,
                v@.len() == i,
                forall|j: int|
                    0 <= j < i ==> spec_instrument_info_at(
                        #[trigger] v@[j],
                        reader.data(),
                        base + 22 * j,
                    ),
            decreases count - i,
        {
            let h = InstrumentInfo::new(reader).unwrap();
            v.push(h);
            i = i + 1;
        }
        Ok(v)
    }
}

/// The default value of one instrument-level generator, per the format's
/// stated defaults: full ranges, 13500-cent cutoff, `-12000` timecents
/// for every envelope and LFO delay, 100-percent scale tuning.
pub open spec fn spec_default_instrument_value(i: int) -> i16 {
    if i == GEN_INITIAL_FILTER_CUTOFF_FREQUENCY as int {
        13500
    } else if i == GEN_DELAY_MODULATION_LFO as int || i == GEN_DELAY_VIBRATO_LFO as int
        || i == GEN_DELAY_MODULATION_ENVELOPE as int || i == GEN_ATTACK_MODULATION_ENVELOPE as int
        || i == GEN_HOLD_MODULATION_ENVELOPE as int || i == GEN_DECAY_MODULATION_ENVELOPE as int
        || i == GEN_RELEASE_MODULATION_ENVELOPE as int || i == GEN_DELAY_VOLUME_ENVELOPE as int
        || i == GEN_ATTACK_VOLUME_ENVELOPE as int || i == GEN_HOLD_VOLUME_ENVELOPE as int
        || i == GEN_DECAY_VOLUME_ENVELOPE as int || i == GEN_RELEASE_VOLUME_ENVELOPE as int {
        -12000i16
    } else if i == GEN_KEY_RANGE as int || i == GEN_VELOCITY_RANGE as int {
        0x7f00
    } else if i == GEN_KEY_NUMBER as int || i == GEN_VELOCITY as int
        || i == GEN_OVERRIDING_ROOT_KEY as int {
        -1i16
    } else if i == GEN_SCALE_TUNING as int {
        100
    } else {
        0
    }
}

/// The default generator table of an instrument region.
pub open spec fn spec_default_instrument_gs() -> Seq<i16> {
    Seq::new(61, |i: int| spec_default_instrument_value(i))
}

/// Build the default instrument generator table.
pub fn default_instrument_gs() -> (r: Vec<i16>)
    ensures
        r@ == spec_default_instrument_gs(),
{
    let mut gs: Vec<i16> = Vec::new();
    let mut i: usize = 0;
    while i < GENERATOR_COUNT
        invariant
            0 <= i <= 61,
            gs@.len() == i,
            forall|j: int| 0 <= j < i ==> gs@[j] == spec_default_instrument_value(j),
        decreases 61 - i,
    {
        if i == 8 {
            gs.push(13500);
        } else if i == 21 || i == 23 || i == 25 || i == 26 || i == 27 || i == 28 || i == 30
            || i == 33 || i == 34 || i == 35 || i == 36 || i == 38 {
            gs.push(-12000);
        } else if i == 43 || i == 44 {
            gs.push(0x7f00);
        } else if i == 46 || i == 47 || i == 58 {
            gs.push(-1);
        } else if i == 56 {
            gs.push(100);
        } else {
            gs.push(0);
        }
        i = i + 1;
    }
    proof {
        assert(gs@ =~= spec_default_instrument_gs());
    }
    gs
}

/// The generator table of an instrument region built from a global and
/// a local zone.
pub open spec fn spec_instrument_region_gs(global: Seq<Generator>, local: Seq<Generator>) -> Seq<
    i16,
> {
    spec_apply_generators(spec_apply_generators(spec_default_instrument_gs(), global), local)
}

/// Whether one instrument zone resolves to a valid sample.
pub open spec fn spec_instrument_zone_ok(
    global: Seq<Generator>,
    local: Seq<Generator>,
    sample_count: int,
) -> bool {
    let gs = spec_instrument_region_gs(global, local);
    ((gs[GEN_SAMPLE_ID as int] as u16) as int) < sample_count
}

/// Whether every local zone of an instrument resolves to a valid sample.
pub open spec fn spec_instrument_zones_valid(
    zones: Seq<Zone>,
    start: int,
    end: int,
    sample_count: int,
) -> bool {
    if spec_is_global_zone(zones[start], GEN_SAMPLE_ID) {
        (forall|k: int|
            start + 1 <= k && k < end ==> spec_instrument_zone_ok(
                zones[start].generators@,
                (#[trigger] zones[k]).generators@,
                sample_count,
            ))
    } else {
        (forall|k: int|
            start <= k && k < end ==> spec_instrument_zone_ok(
                Seq::empty(),
                (#[trigger] zones[k]).generators@,
                sample_count,
            ))
    }
}

/// Whether a region list is exactly the flattening of the zone span
/// `[start, end)`: one region per local zone, each layered over the
/// global zone when the first zone is global.
pub open spec fn spec_instrument_regions_match(
    regions: Seq<InstrumentRegion>,
    zones: Seq<Zone>,
    start: int,
    end: int,
) -> bool {
    if spec_is_global_zone(zones[start], GEN_SAMPLE_ID) {
        &&& regions.len() == end - start - 1
        &&& forall|k: int|
            0 <= k < regions.len() ==> (#[trigger] regions[k]).gs@ == spec_instrument_region_gs(
                zones[start].generators@,
                zones[start + 1 + k].generators@,
            )
    } else {
        &&& regions.len() == end - start
        &&& forall|k: int|
            0 <= k < regions.len() ==> (#[trigger] regions[k]).gs@ == spec_instrument_region_gs(
                Seq::empty(),
                zones[start + k].generators@,
            )
    }
}

/// An instrument zone flattened against its parent's global zone, with
/// the sample bounds already combined with the address offsets.
#[derive(Clone, Debug)]
pub struct InstrumentRegion {
    /// The 61 generator values of the region.
    pub gs: Vec<i16>,
    /// The index of the sample header the region plays, always in range
    /// for the bank's sample header list.
    pub sample_id: usize,
    /// First sample index: the header's start plus the address offsets.
    pub sample_start: i64,
    /// One past the last sample index.
    pub sample_end: i64,
    /// First sample index of the loop.
    pub sample_start_loop: i64,
    /// One past the last sample index of the loop.
    pub sample_end_loop: i64,
}

impl InstrumentRegion {
    /// The generator table has exactly one slot per generator id.
    pub open spec fn wf(&self) -> bool {
        self.gs@.len() == 61
    }

    /// How the combined sample bounds relate to a sample header and the
    /// region's generator table.
    pub open spec fn spec_bounds_of(&self, h: SampleHeader) -> bool {
        &&& self.sample_start == h.start + self.gs@[GEN_START_ADDRESS_OFFSET as int] + 32768
            * self.gs@[GEN_START_ADDRESS_COARSE_OFFSET as int]
        &&& self.sample_end == h.end + self.gs@[GEN_END_ADDRESS_OFFSET as int] + 32768
            * self.gs@[GEN_END_ADDRESS_COARSE_OFFSET as int]
        &&& self.sample_start_loop == h.start_loop + self.gs@[GEN_START_LOOP_ADDRESS_OFFSET as int]
            + 32768 * self.gs@[GEN_START_LOOP_ADDRESS_COARSE_OFFSET as int]
        &&& self.sample_end_loop == h.end_loop + self.gs@[GEN_END_LOOP_ADDRESS_OFFSET as int]
            + 32768 * self.gs@[GEN_END_LOOP_ADDRESS_COARSE_OFFSET as int]
    }

    /// Build one region from the optional global zone and a local zone.
    pub fn new(
        global: Option<&Zone>,
        local: &Zone,
        instrument_id: usize,
        samples: &Vec<SampleHeader>,
    ) -> (r: Result<Self, SoundFontError>)
        ensures
            ({
                let gs = spec_instrument_region_gs(
                    match global {
                        Some(z) => z.generators@,
                        None => Seq::empty(),
                    },
                    local.generators@,
                );
                match r {
                    Ok(reg) => {
                        &&& reg.wf()
                        &&& reg.gs@ == gs
                        &&& reg.sample_id == (gs[GEN_SAMPLE_ID as int] as u16) as int
                        &&& reg.sample_id < samples@.len()
                        &&& reg.spec_bounds_of(samples@[reg.sample_id as int])
                    },
                    Err(e) => {
                        &&& e matches SoundFontError::InvalidSampleId {
                            instrument_id: iid,
                            sample_id: sid,
                        }
                        &&& iid == instrument_id
                        &&& sid == (gs[GEN_SAMPLE_ID as int] as u16) as int
                        &&& sid >= samples@.len()
                    },
                }
            }),
    {
        let mut gs = default_instrument_gs();
        match global {
            Some(z) => apply_generators(&mut gs, &z.generators),
            None => (),
        }
        apply_generators(&mut gs, &local.generators);
        let sample_id = gs[53] as u16 as usize;
        if sample_id >= samples.len() {
            return Err(SoundFontError::InvalidSampleId { instrument_id, sample_id });
        }
        proof {
            assert(spec_apply_generators(spec_default_instrument_gs(), Seq::empty())
                == spec_default_instrument_gs());
        }
        let h = &samples[sample_id];
        let sample_start = h.start as i64 + gs[0] as i64 + 32768 * gs[4] as i64;
        let sample_end = h.end as i64 + gs[1] as i64 + 32768 * gs[12] as i64;
        let sample_start_loop = h.start_loop as i64 + gs[2] as i64 + 32768 * gs[45] as i64;
        let sample_end_loop = h.end_loop as i64 + gs[3] as i64 + 32768 * gs[50] as i64;
        Ok(InstrumentRegion {
            gs,
            sample_id,
            sample_start,
            sample_end,
            sample_start_loop,
            sample_end_loop,
        })
    }

    /// The region's value for one generator id, zero for ids the format
    /// does not define.
    pub fn amount(&self, generator_type: u16) -> (r: i16)
        requires
            self.wf(),
        ensures
            r == crate::preset::spec_region_amount(self.gs@, generator_type),
    {
        if generator_type < 61 {
            self.gs[generator_type as usize]
        } else {
            0
        }
    }
}

/// Whether the instrument records flatten without error: at least the
/// terminal record, every zone span non-empty and inside the zone
/// table, and every local zone's sample reference in range.
pub open spec fn spec_instruments_parseable(
    infos: Seq<InstrumentInfo>,
    zones: Seq<Zone>,
    sample_count: int,
) -> bool {
    &&& infos.len() >= 1
    &&& forall|i: int|
        #![trigger infos[i].zone_start_index]
        0 <= i < infos.len() - 1 ==> {
            &&& infos[i].zone_start_index < infos[i + 1].zone_start_index
            &&& infos[i + 1].zone_start_index <= zones.len()
            &&& spec_instrument_zones_valid(
                zones,
                infos[i].zone_start_index as int,
                infos[i + 1].zone_start_index as int,
                sample_count,
            )
        }
}

/// An instrument: a name and its flattened regions.
#[derive(Clone, Debug)]
pub struct Instrument {
    /// The instrument's name, as sanitized ASCII bytes.
    pub name: Vec<u8>,
    /// The flattened regions of the instrument.
    pub regions: Vec<InstrumentRegion>,
}

impl Instrument {
    /// Every region's generator table is complete and its sample
    /// reference is within the given sample count.
    pub open spec fn wf(&self, sample_count: int) -> bool {
        forall|r: int|
            0 <= r < self.regions@.len() ==> (#[trigger] self.regions@[r]).wf()
                && self.regions@[r].sample_id < sample_count
    }

    /// Flatten the zones of one instrument into regions, the first zone
    /// serving as the global zone when it does not end with a sample
    /// generator.
    pub fn create_regions(
        zones: &Vec<Zone>,
        start: usize,
        end: usize,
        instrument_id: usize,
        samples: &Vec<SampleHeader>,
    ) -> (r: Result<Vec<InstrumentRegion>, SoundFontError>)
        requires
            start < end <= zones@.len(),
        ensures
            match r {
                Ok(v) => {
                    &&& spec_instrument_zones_valid(
                        zones@,
                        start as int,
                        end as int,
                        samples@.len() as int,
                    )
                    &&& spec_instrument_regions_match(v@, zones@, start as int, end as int)
                    &&& forall|k: int|
                        0 <= k < v@.len() ==> (#[trigger] v@[k]).wf() && v@[k].sample_id
                            < samples@.len() && v@[k].sample_id == (v@[k].gs@[GEN_SAMPLE_ID as int]
                            as u16) as int && v@[k].spec_bounds_of(
                            samples@[v@[k].sample_id as int],
                        )
                },
                Err(e) => {
                    &&& e matches SoundFontError::InvalidSampleId { instrument_id: p, .. } && p
                        == instrument_id
                    &&& !spec_instrument_zones_valid(
                        zones@,
                        start as int,
                        end as int,
                        samples@.len() as int,
                    )
                },
            },
    {
        let first = &zones[start];
        let is_global = first.generators.len() == 0 || first.generators[first.generators.len()
            - 1].generator_type != GEN_SAMPLE_ID;
        let mut regions: Vec<InstrumentRegion> = Vec::new();
        if is_global {
            let mut k: usize = start + 1;
            while k < end
                invariant
                    start + 1 <= k <= end <= zones@.len(),
                    spec_is_global_zone(zones@[start as int], GEN_SAMPLE_ID),
                    regions@.len() == k - start - 1,
                    forall|j: int|
                        0 <= j < regions@.len() ==> (#[trigger] regions@[j]).gs@
                            == spec_instrument_region_gs(
                            zones@[start as int].generators@,
                            zones@[start as int + 1 + j].generators@,
                        ) && regions@[j].wf() && regions@[j].sample_id < samples@.len()
                            && regions@[j].sample_id == (regions@[j].gs@[GEN_SAMPLE_ID as int]
                            as u16) as int && regions@[j].spec_bounds_of(
                            samples@[regions@[j].sample_id as int],
                        ),
                decreases end - k,
            {
                let reg = InstrumentRegion::new(
                    Some(&zones[start]),
                    &zones[k],
                    instrument_id,
                    samples,
                )?;
                regions.push(reg);
                k = k + 1;
            }
        } else {
            let mut k: usize = start;
            while k < end
                invariant
                    start <= k <= end <= zones@.len(),
                    !spec_is_global_zone(zones@[start as int], GEN_SAMPLE_ID),
                    regions@.len() == k - start,
                    forall|j: int|
                        0 <= j < regions@.len() ==> (#[trigger] regions@[j]).gs@
                            == spec_instrument_region_gs(
                            Seq::empty(),
                            zones@[start as int + j].generators@,
                        ) && regions@[j].wf() && regions@[j].sample_id < samples@.len()
                            && regions@[j].sample_id == (regions@[j].gs@[GEN_SAMPLE_ID as int]
                            as u16) as int && regions@[j].spec_bounds_of(
                            samples@[regions@[j].sample_id as int],
                        ),
                decreases end - k,
            {
                let reg = InstrumentRegion::new(None, &zones[k], instrument_id, samples)?;
                regions.push(reg);
                k = k + 1;
            }
        }
        proof {
            if spec_is_global_zone(zones@[start as int], GEN_SAMPLE_ID) {
                assert forall|k: int| start + 1 <= k && k < end implies spec_instrument_zone_ok(
                    zones@[start as int].generators@,
                    (#[trigger] zones@[k]).generators@,
                    samples@.len() as int,
                ) by {
                    let j = k - start - 1;
                    assert(regions@[j].gs@ == spec_instrument_region_gs(
                        zones@[start as int].generators@,
                        zones@[start as int + 1 + j].generators@,
                    ));
                    assert(regions@[j].sample_id < samples@.len());
                }
            } else {
                assert forall|k: int| start <= k && k < end implies spec_instrument_zone_ok(
                    Seq::empty(),
                    (#[trigger] zones@[k]).generators@,
                    samples@.len() as int,
                ) by {
                    let j = k - start;
                    assert(regions@[j].gs@ == spec_instrument_region_gs(
                        Seq::empty(),
                        zones@[start as int + j].generators@,
                    ));
                    assert(regions@[j].sample_id < samples@.len());
                }
            }
        }
        Ok(regions)
    }

    /// Pair each instrument record with its zone span and flatten the
    /// zones into regions.
    pub fn create(
        infos: &Vec<InstrumentInfo>,
        zones: &Vec<Zone>,
        samples: &Vec<SampleHeader>,
    ) -> (r: Result<Vec<Instrument>, SoundFontError>)
        ensures
            match r {
                Ok(v) => {
                    &&& infos@.len() >= 1
                    &&& v@.len() == infos@.len() - 1
                    &&& forall|i: int|
                        0 <= i < v@.len() ==> (#[trigger] v@[i]).name@ == infos@[i].name@
                    &&& forall|i: int|
                        0 <= i < v@.len() ==> (#[trigger] v@[i]).wf(samples@.len() as int)
                    &&& forall|i: int|
                        #![trigger v@[i]]
                        #![trigger infos@[i].zone_start_index]
                        0 <= i < v@.len() ==> infos@[i].zone_start_index < infos@[i
                            + 1].zone_start_index && infos@[i + 1].zone_start_index
                            <= zones@.len() && spec_instrument_regions_match(
                            v@[i].regions@,
                            zones@,
                            infos@[i].zone_start_index as int,
                            infos@[i + 1].zone_start_index as int,
                        )
                    &&& forall|i: int, k: int|
                        #![trigger v@[i].regions@[k]]
                        0 <= i < v@.len() && 0 <= k < v@[i].regions@.len() ==> {
                            let reg = v@[i].regions@[k];
                            &&& reg.sample_id == (reg.gs@[GEN_SAMPLE_ID as int] as u16) as int
                            &&& reg.spec_bounds_of(samples@[reg.sample_id as int])
                        }
                },
                Err(e) => {
                    ||| e is InvalidInstrumentList
                    ||| e is InvalidInstrument
                    ||| e is InvalidSampleId
                },
            },
            r is Ok <==> spec_instruments_parseable(infos@, zones@, samples@.len() as int),
            r matches Err(SoundFontError::InvalidInstrument(p)) ==> (0 <= p < infos@.len() - 1
                && infos@[p as int].zone_start_index == infos@[p as int + 1].zone_start_index),
            r matches Err(SoundFontError::InvalidSampleId { instrument_id: p, .. }) ==> (0 <= p
                < infos@.len() - 1 && !spec_instrument_zones_valid(
                zones@,
                infos@[p as int].zone_start_index as int,
                infos@[p as int + 1].zone_start_index as int,
                samples@.len() as int,
            )),
    {
        if infos.len() == 0 {
            return Err(SoundFontError::InvalidInstrumentList);
        }
        let count = infos.len() - 1;
        let mut instruments: Vec<Instrument> = Vec::new();
        let mut i: usize = 0;
        while i < count
            invariant
                count == infos@.len() - 1,
                0 <= i <= count,
                instruments@.len() == i,
                forall|j: int|
                    0 <= j < i ==> (#[trigger] instruments@[j]).name@ == infos@[j].name@,
                forall|j: int|
                    0 <= j < i ==> (#[trigger] instruments@[j]).wf(samples@.len() as int),
                forall|j: int|
                    #![trigger instruments@[j]]
                    #![trigger infos@[j].zone_start_index]
                    0 <= j < i ==> infos@[j].zone_start_index < infos@[j + 1].zone_start_index
                        && infos@[j + 1].zone_start_index <= zones@.len()
                        && spec_instrument_regions_match(
                        instruments@[j].regions@,
                        zones@,
                        infos@[j].zone_start_index as int,
                        infos@[j + 1].zone_start_index as int,
                    ),
                forall|j: int, k: int|
                    #![trigger instruments@[j].regions@[k]]
                    0 <= j < i && 0 <= k < instruments@[j].regions@.len() ==> {
                        let reg = instruments@[j].regions@[k];
                        &&& reg.sample_id == (reg.gs@[GEN_SAMPLE_ID as int] as u16) as int
                        &&& reg.spec_bounds_of(samples@[reg.sample_id as int])
                    },
                forall|j: int|
                    #![trigger infos@[j].name]
                    0 <= j < i ==> spec_instrument_zones_valid(
                        zones@,
                        infos@[j].zone_start_index as int,
                        infos@[j + 1].zone_start_index as int,
                        samples@.len() as int,
                    ),
            decreases count - i,
        {
            let start = infos[i].zone_start_index as usize;
            let end = infos[i + 1].zone_start_index as usize;
            if start > end || end > zones.len() {
                return Err(SoundFontError::InvalidInstrumentList);
            }
            if start == end {
                return Err(SoundFontError::InvalidInstrument(i));
            }
            let regions = Instrument::create_regions(zones, start, end, i, samples)?;
            let ghost regs = regions@;
            let ghost insts0 = instruments@;
            let name = clone_bytes(&infos[i].name);
            instruments.push(Instrument { name, regions });
            proof {
                assert(spec_instrument_regions_match(regs, zones@, start as int, end as int));
                assert(instruments@[i as int].regions@ == regs);
                assert forall|j: int|
                    #![trigger instruments@[j]]
                    #![trigger infos@[j].zone_start_index]
                    0 <= j < i + 1 implies infos@[j].zone_start_index < infos@[j
                    + 1].zone_start_index && infos@[j + 1].zone_start_index <= zones@.len()
                    && spec_instrument_regions_match(
                    instruments@[j].regions@,
                    zones@,
                    infos@[j].zone_start_index as int,
                    infos@[j + 1].zone_start_index as int,
                ) by {
                    if j < i {
                        assert(instruments@[j] == insts0[j]);
                        assert(spec_instrument_regions_match(
                            insts0[j].regions@,
                            zones@,
                            infos@[j].zone_start_index as int,
                            infos@[j + 1].zone_start_index as int,
                        ));
                    } else {
                        assert(instruments@[j].regions@ == regs);
                    }
                }
            }
            i = i + 1;
        }
        Ok(instruments)
    }
}

} // verus!
