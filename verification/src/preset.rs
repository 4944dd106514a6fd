//! Presets: the bank/patch-addressed entries of a SoundFont, with their
//! flattened regions.

use vstd::prelude::*;
use crate::binary::{le_u16_at, le_u32_at, spec_name_field, BinaryReader, ByteCursor};
use crate::error::SoundFontError;
use crate::generator::{
    spec_apply_generators, apply_generators, Generator, GEN_INSTRUMENT, GEN_KEY_RANGE,
    GEN_VELOCITY_RANGE, GENERATOR_COUNT,
};
use crate::text::clone_bytes;
use crate::zone::Zone;
use vstd::multiset::Multiset;

verus! {

/// One 38-byte `phdr` record.
#[derive(Clone, Debug)]
pub struct PresetInfo {
    pub name: Vec<u8>,
    pub patch_number: u16,
    pub bank_number: u16,
    pub zone_start_index: u16,
    pub library: u32,
    pub genre: u32,
    pub morphology: u32,
}

/// How a decoded preset record relates to the 38 bytes at position `p`.
pub open spec fn spec_preset_info_at(h: PresetInfo, data: Seq<u8>, p: int) -> bool {
    &&& spec_name_field(h.name@, data, p, 20)
    &&& h.patch_number == le_u16_at(data, p + 20)
    &&& h.bank_number == le_u16_at(data, p + 22)
    &&& h.zone_start_index == le_u16_at(data, p + 24)
    &&& h.library == le_u32_at(data, p + 26)
    &&& h.genre == le_u32_at(data, p + 30)
    &&& h.morphology == le_u32_at(data, p + 34)
}

impl PresetInfo {
    /// Read one preset header record.
    pub fn new(reader: &mut ByteCursor) -> (r: Result<Self, SoundFontError>)
        requires
            old(reader).wf(),
        ensures
            final(reader).wf(),
            final(reader).data() == old(reader).data(),
            match r {
                Ok(h) => {
                    &&& old(reader).spec_remaining() >= 38
                    &&& spec_preset_info_at(h, old(reader).data(), old(reader).pos())
                    &&& final(reader).pos() == old(reader).pos() + 38
                },
                Err(e) => {
                    &&& e is IoError
                    &&& old(reader).spec_remaining() < 38
                },
            },
    {
        if reader.remaining() < 38 {
            return Err(SoundFontError::IoError(crate::binary::ReadError::UnexpectedEndOfStream));
        }
        let name = BinaryReader::read_fixed_length_string(reader, 20).unwrap();
        let patch_number = BinaryReader::read_u16(reader).unwrap();
        let bank_number = BinaryReader::read_u16(reader).unwrap();
        let zone_start_index = BinaryReader::read_u16(reader).unwrap();
        let library = BinaryReader::read_u32(reader).unwrap();
        let genre = BinaryReader::read_u32(reader).unwrap();
        let morphology = BinaryReader::read_u32(reader).unwrap();
        Ok(PresetInfo {
            name,
            patch_number,
            bank_number,
            zone_start_index,
            library,
            genre,
            morphology,
        })
    }

    /// Read a `phdr` chunk of `size` bytes: 38 bytes per record, all
    /// records kept, the last being the terminal sentinel.
    pub fn read_from_chunk(reader: &mut ByteCursor, size: usize) -> (r: Result<
        Vec<PresetInfo>,
        SoundFontError,
    >)
        requires
            old(reader).wf(),
        ensures
            final(reader).wf(),
            final(reader).data() == old(reader).data(),
            match r {
                Ok(v) => {
                    &&& size % 38 == 0
                    &&& size >= 38
                    &&& old(reader).spec_remaining() >= size
                    &&& final(reader).pos() == old(reader).pos() + size
                    &&& v@.len() == size / 38
                    &&& forall|i: int|
                        0 <= i < v@.len() ==> spec_preset_info_at(
                            #[trigger] v@[i],
                            old(reader).data(),
                            old(reader).pos() + 38 * i,
                        )
                },
                Err(e) => {
                    ||| e is InvalidPresetList && (size % 38 != 0 || size == 0)
                    ||| e is IoError && old(reader).spec_remaining() < size
                },
            },
    {
        if size % 38 != 0 || size == 0 {
            return Err(SoundFontError::InvalidPresetList);
        }
        if reader.remaining() < size {
            return Err(SoundFontError::IoError(crate::binary::ReadError::UnexpectedEndOfStream));
        }
        let ghost base = reader.pos();
        let count = size / 38;
        let mut v: Vec<PresetInfo> = Vec::new();
        let mut i: usize = 0;
        while i < count
            invariant
                reader.wf(),
                reader.data() == old(reader).data(),
                base + size <= reader.data().len(),
                size % 38 == 0,
                count == size / 38,
                0 <= i <= count,
                reader.pos() == base + 38 * i,
                v@.len() == i,
                forall|j: int|
                    0 <= j < i ==> spec_preset_info_at(
                        #[trigger] v@[j],
                        reader.data(),
                        base + 38 * j,
                    ),
            decreases count - i,
        {
            let h = PresetInfo::new(reader).unwrap();
            v.push(h);
            i = i + 1;
        }
        Ok(v)
    }
}

/// The default generator table of a preset region: full key and velocity
/// ranges, zero offsets everywhere else.
pub open spec fn spec_default_preset_gs() -> Seq<i16> {
    Seq::new(61, |i: int| spec_default_preset_value(i))
}

/// The default value of one preset-level generator.
pub open spec fn spec_default_preset_value(i: int) -> i16 {
    if i == GEN_KEY_RANGE as int || i == GEN_VELOCITY_RANGE as int {
        0x7f00
    } else {
        0
    }
}

/// Build the default preset generator table.
pub fn default_preset_gs() -> (r: Vec<i16>)
    ensures
        r@ == spec_default_preset_gs(),
{
    let mut gs: Vec<i16> = Vec::new();
    let mut i: usize = 0;
    while i < GENERATOR_COUNT
        invariant
            0 <= i <= 61,
            gs@.len() == i,
            forall|j: int| 0 <= j < i ==> gs@[j] == spec_default_preset_value(j),
        decreases 61 - i,
    {
        if i == 43 || i == 44 {
            gs.push(0x7f00);
        } else {
            gs.push(0);
        }
        i = i + 1;
    }
    proof {
        assert(gs@ =~= spec_default_preset_gs());
    }
    gs
}

/// Whether a zone is the global zone of its parent: its generator list
/// does not end with a reference generator of the given kind.
pub open spec fn spec_is_global_zone(z: Zone, reference: u16) -> bool {
    z.generators@.len() == 0 || z.generators@.last().generator_type != reference
}

/// The generator table of a preset region built from a global and a
/// local zone.
pub open spec fn spec_preset_region_gs(global: Seq<Generator>, local: Seq<Generator>) -> Seq<i16> {
    spec_apply_generators(spec_apply_generators(spec_default_preset_gs(), global), local)
}

/// Whether a region list is exactly the flattening of the zone span
/// `[start, end)`: one region per local zone, each layered over the
/// global zone when the first zone is global.
pub open spec fn spec_preset_regions_match(
    regions: Seq<PresetRegion>,
    zones: Seq<Zone>,
    start: int,
    end: int,
) -> bool {
    if spec_is_global_zone(zones[start], GEN_INSTRUMENT) {
        &&& regions.len() == end - start - 1
        &&& forall|k: int|
            0 <= k < regions.len() ==> (#[trigger] regions[k]).gs@ == spec_preset_region_gs(
                zones[start].generators@,
                zones[start + 1 + k].generators@,
            )
    } else {
        &&& regions.len() == end - start
        &&& forall|k: int|
            0 <= k < regions.len() ==> (#[trigger] regions[k]).gs@ == spec_preset_region_gs(
                Seq::empty(),
                zones[start + k].generators@,
            )
    }
}

/// A preset zone flattened against its parent's global zone. Preset
/// generator values are additive offsets over the instrument layer.
#[derive(Clone, Debug)]
pub struct PresetRegion {
    /// The 61 generator values of the region.
    pub gs: Vec<i16>,
    /// The index of the instrument the region plays, always in range
    /// for the bank's instrument list.
    pub instrument: usize,
}

impl PresetRegion {
    /// The generator table has exactly one slot per generator id.
    pub open spec fn wf(&self) -> bool {
        self.gs@.len() == 61
    }

    /// Build one region from the optional global zone and a local zone.
    pub fn new(
        global: Option<&Zone>,
        local: &Zone,
        preset_id: usize,
        instrument_count: usize,
    ) -> (r: Result<Self, SoundFontError>)
        ensures
            ({
                let gs = spec_preset_region_gs(
                    match global {
                        Some(z) => z.generators@,
                        None => Seq::empty(),
                    },
                    local.generators@,
                );
                match r {
                    Ok(reg) => {
                        &&& reg.wf()
                        &&& reg.gs@ == gs
                        &&& reg.instrument == gs[GEN_INSTRUMENT as int] as u16 as int
                        &&& reg.instrument < instrument_count
                    },
                    Err(e) => {
                        &&& e matches SoundFontError::InvalidInstrumentId {
                            preset_id: p,
                            instrument_id: id,
                        }
                        &&& p == preset_id
                        &&& id == gs[GEN_INSTRUMENT as int] as u16 as int
                        &&& id >= instrument_count
                    },
                }
            }),
    {
        let mut gs = default_preset_gs();
        match global {
            Some(z) => apply_generators(&mut gs, &z.generators),
            None => (),
        }
        apply_generators(&mut gs, &local.generators);
        let instrument_id = gs[41] as u16 as usize;
        if instrument_id >= instrument_count {
            return Err(SoundFontError::InvalidInstrumentId { preset_id, instrument_id });
        }
        proof {
            assert(spec_apply_generators(spec_default_preset_gs(), Seq::empty())
                == spec_default_preset_gs());
        }
        Ok(PresetRegion { gs, instrument: instrument_id })
    }

    /// The region's value for one generator id, zero for ids the format
    /// does not define.
    pub fn amount(&self, generator_type: u16) -> (r: i16)
        requires
            self.wf(),
        ensures
            r == spec_region_amount(self.gs@, generator_type),
    {
        if generator_type < 61 {
            self.gs[generator_type as usize]
        } else {
            0
        }
    }
}

/// The value a region's generator table holds for one generator id.
pub open spec fn spec_region_amount(gs: Seq<i16>, generator_type: u16) -> i16 {
    if generator_type < 61 {
        gs[generator_type as int]
    } else {
        0
    }
}

/// Whether one preset zone resolves to a valid instrument.
pub open spec fn spec_preset_zone_ok(
    global: Seq<Generator>,
    local: Seq<Generator>,
    instrument_count: int,
) -> bool {
    let gs = spec_preset_region_gs(global, local);
    ((gs[GEN_INSTRUMENT as int] as u16) as int) < instrument_count
}

/// Whether every local zone of a preset resolves to a valid instrument.
pub open spec fn spec_preset_zones_valid(
    zones: Seq<Zone>,
    start: int,
    end: int,
    instrument_count: int,
) -> bool {
    if spec_is_global_zone(zones[start], GEN_INSTRUMENT) {
        (forall|k: int|
            start + 1 <= k && k < end ==> spec_preset_zone_ok(
                zones[start].generators@,
                (#[trigger] zones[k]).generators@,
                instrument_count,
            ))
    } else {
        (forall|k: int|
            start <= k && k < end ==> spec_preset_zone_ok(
                Seq::empty(),
                (#[trigger] zones[k]).generators@,
                instrument_count,
            ))
    }
}

/// A preset: a named `(bank, patch)` entry with its flattened regions.
#[derive(Clone, Debug)]
pub struct Preset {
    /// The preset's name, as sanitized ASCII bytes.
    pub name: Vec<u8>,
    pub patch_number: u16,
    pub bank_number: u16,
    pub library: u32,
    pub genre: u32,
    pub morphology: u32,
    /// The flattened regions of the preset.
    pub regions: Vec<PresetRegion>,
}

impl Preset {
    /// Every region's generator table is complete and its instrument
    /// reference is within the given instrument count.
    pub open spec fn wf(&self, instrument_count: int) -> bool {
        forall|r: int|
            0 <= r < self.regions@.len() ==> (#[trigger] self.regions@[r]).wf()
                && self.regions@[r].instrument < instrument_count
    }

    /// Flatten the zones of one preset into regions, the first zone
    /// serving as the global zone when it does not end with an
    /// instrument generator.
    pub fn create_regions(
        zones: &Vec<Zone>,
        start: usize,
        end: usize,
        preset_id: usize,
        instrument_count: usize,
    ) -> (r: Result<Vec<PresetRegion>, SoundFontError>)
        requires
            start < end <= zones@.len(),
        ensures
            match r {
                Ok(v) => {
                    &&& spec_preset_zones_valid(
                        zones@,
                        start as int,
                        end as int,
                        instrument_count as int,
                    )
                    &&& spec_preset_regions_match(v@, zones@, start as int, end as int)
                    &&& forall|k: int|
                        0 <= k < v@.len() ==> (#[trigger] v@[k]).wf() && v@[k].instrument
                            < instrument_count && v@[k].instrument == v@[k].gs@[GEN_INSTRUMENT as int] as u16 as int
                },
                Err(e) => {
                    &&& e matches SoundFontError::InvalidInstrumentId { preset_id: p, .. }
                        && p == preset_id
                    &&& !spec_preset_zones_valid(
                        zones@,
                        start as int,
                        end as int,
                        instrument_count as int,
                    )
                },
            },
    {
        let first = &zones[start];
        let is_global = first.generators.len() == 0 || first.generators[first.generators.len()
            - 1].generator_type != GEN_INSTRUMENT;
        let mut regions: Vec<PresetRegion> = Vec::new();
        if is_global {
            let mut k: usize = start + 1;
            while k < end
                invariant
                    start + 1 <= k <= end <= zones@.len(),
                    spec_is_global_zone(zones@[start as int], GEN_INSTRUMENT),
                    regions@.len() == k - start - 1,
                    forall|j: int|
                        0 <= j < regions@.len() ==> (#[trigger] regions@[j]).gs@
                            == spec_preset_region_gs(
                            zones@[start as int].generators@,
                            zones@[start as int + 1 + j].generators@,
                        ) && regions@[j].wf() && regions@[j].instrument < instrument_count
                            && regions@[j].instrument == regions@[j].gs@[GEN_INSTRUMENT as int] as u16 as int,
                decreases end - k,
            {
                let reg = PresetRegion::new(
                    Some(&zones[start]),
                    &zones[k],
                    preset_id,
                    instrument_count,
                )?;
                regions.push(reg);
                k = k + 1;
            }
        } else {
            let mut k: usize = start;
            while k < end
                invariant
                    start <= k <= end <= zones@.len(),
                    !spec_is_global_zone(zones@[start as int], GEN_INSTRUMENT),
                    regions@.len() == k - start,
                    forall|j: int|
                        0 <= j < regions@.len() ==> (#[trigger] regions@[j]).gs@
                            == spec_preset_region_gs(
                            Seq::empty(),
                            zones@[start as int + j].generators@,
                        ) && regions@[j].wf() && regions@[j].instrument < instrument_count
                            && regions@[j].instrument == regions@[j].gs@[GEN_INSTRUMENT as int] as u16 as int,
                decreases end - k,
            {
                let reg = PresetRegion::new(None, &zones[k], preset_id, instrument_count)?;
                regions.push(reg);
                k = k + 1;
            }
        }
        proof {
            if spec_is_global_zone(zones@[start as int], GEN_INSTRUMENT) {
                assert forall|k: int| start + 1 <= k && k < end implies spec_preset_zone_ok(
                    zones@[start as int].generators@,
                    (#[trigger] zones@[k]).generators@,
                    instrument_count as int,
                ) by {
                    let j = k - start - 1;
                    assert(regions@[j].gs@ == spec_preset_region_gs(
                        zones@[start as int].generators@,
                        zones@[start as int + 1 + j].generators@,
                    ));
                    assert(regions@[j].instrument < instrument_count);
                }
            } else {
                assert forall|k: int| start <= k && k < end implies spec_preset_zone_ok(
                    Seq::empty(),
                    (#[trigger] zones@[k]).generators@,
                    instrument_count as int,
                ) by {
                    let j = k - start;
                    assert(regions@[j].gs@ == spec_preset_region_gs(
                        Seq::empty(),
                        zones@[start as int + j].generators@,
                    ));
                    assert(regions@[j].instrument < instrument_count);
                }
            }
        }
        Ok(regions)
    }
}


/// Whether the preset records flatten without error: at least the
/// terminal record, every zone span non-empty and inside the zone
/// table, and every local zone's instrument reference in range.
pub open spec fn spec_presets_parseable(
    infos: Seq<PresetInfo>,
    zones: Seq<Zone>,
    instrument_count: int,
) -> bool {
    &&& infos.len() >= 1
    &&& forall|i: int|
        #![trigger infos[i].zone_start_index]
        0 <= i < infos.len() - 1 ==> {
            &&& infos[i].zone_start_index < infos[i + 1].zone_start_index
            &&& infos[i + 1].zone_start_index <= zones.len()
            &&& spec_preset_zones_valid(
                zones,
                infos[i].zone_start_index as int,
                infos[i + 1].zone_start_index as int,
                instrument_count,
            )
        }
}

/// Pair each preset record with its zone span and flatten the zones
/// into regions.
pub fn create_presets(
    infos: &Vec<PresetInfo>,
    zones: &Vec<Zone>,
    instrument_count: usize,
) -> (r: Result<Vec<Preset>, SoundFontError>)
    ensures
        match r {
            Ok(v) => {
                &&& infos@.len() >= 1
                &&& v@.len() == infos@.len() - 1
                &&& forall|i: int|
                    0 <= i < v@.len() ==> (#[trigger] v@[i]).name@ == infos@[i].name@
                        && v@[i].patch_number == infos@[i].patch_number && v@[i].bank_number
                        == infos@[i].bank_number
                &&& forall|i: int|
                    0 <= i < v@.len() ==> (#[trigger] v@[i]).wf(instrument_count as int)
                &&& forall|i: int|
                    #![trigger v@[i]]
                    #![trigger infos@[i].zone_start_index]
                    0 <= i < v@.len() ==> infos@[i].zone_start_index < infos@[i
                        + 1].zone_start_index && infos@[i + 1].zone_start_index <= zones@.len()
                        && spec_preset_regions_match(
                        v@[i].regions@,
                        zones@,
                        infos@[i].zone_start_index as int,
                        infos@[i + 1].zone_start_index as int,
                    )
            },
            Err(e) => {
                ||| e is InvalidPresetList
                ||| e is InvalidPreset
                ||| e is InvalidInstrumentId
            },
        },
        r is Ok <==> spec_presets_parseable(infos@, zones@, instrument_count as int),
        r matches Err(SoundFontError::InvalidPreset(p)) ==> (0 <= p < infos@.len() - 1
            && infos@[p as int].zone_start_index == infos@[p as int + 1].zone_start_index),
        r matches Err(SoundFontError::InvalidInstrumentId { preset_id: p, .. }) ==> (0 <= p
            < infos@.len() - 1 && !spec_preset_zones_valid(
            zones@,
            infos@[p as int].zone_start_index as int,
            infos@[p as int + 1].zone_start_index as int,
            instrument_count as int,
        )),
{
    if infos.len() == 0 {
        return Err(SoundFontError::InvalidPresetList);
    }
    let count = infos.len() - 1;
    let mut presets: Vec<Preset> = Vec::new();
    let mut i: usize = 0;
    while i < count
        invariant
            count == infos@.len() - 1,
            0 <= i <= count,
            presets@.len() == i,
            forall|j: int|
                0 <= j < i ==> (#[trigger] presets@[j]).name@ == infos@[j].name@
                    && presets@[j].patch_number == infos@[j].patch_number
                    && presets@[j].bank_number == infos@[j].bank_number,
            forall|j: int| 0 <= j < i ==> (#[trigger] presets@[j]).wf(instrument_count as int),
            forall|j: int|
                #![trigger presets@[j]]
                #![trigger infos@[j].zone_start_index]
                0 <= j < i ==> infos@[j].zone_start_index < infos@[j + 1].zone_start_index
                    && infos@[j + 1].zone_start_index <= zones@.len()
                    && spec_preset_regions_match(
                    presets@[j].regions@,
                    zones@,
                    infos@[j].zone_start_index as int,
                    infos@[j + 1].zone_start_index as int,
                ),
            forall|j: int|
                #![trigger infos@[j].patch_number]
                0 <= j < i ==> spec_preset_zones_valid(
                    zones@,
                    infos@[j].zone_start_index as int,
                    infos@[j + 1].zone_start_index as int,
                    instrument_count as int,
                ),
        decreases count - i,
    {
        let start = infos[i].zone_start_index as usize;
        let end = infos[i + 1].zone_start_index as usize;
        if start > end || end > zones.len() {
            return Err(SoundFontError::InvalidPresetList);
        }
        if start == end {
            return Err(SoundFontError::InvalidPreset(i));
        }
        let regions = Preset::create_regions(zones, start, end, i, instrument_count)?;
        let ghost regs = regions@;
        let ghost presets0 = presets@;
        let name = clone_bytes(&infos[i].name);
        presets.push(
            Preset {
                name,
                patch_number: infos[i].patch_number,
                bank_number: infos[i].bank_number,
                library: infos[i].library,
                genre: infos[i].genre,
                morphology: infos[i].morphology,
                regions,
            },
        );
        proof {
            assert(spec_preset_regions_match(regs, zones@, start as int, end as int));
            assert(presets@[i as int].regions@ == regs);
            assert forall|j: int|
                #![trigger presets@[j]]
                #![trigger infos@[j].zone_start_index]
                0 <= j < i + 1 implies infos@[j].zone_start_index < infos@[j
                + 1].zone_start_index && infos@[j + 1].zone_start_index <= zones@.len()
                && spec_preset_regions_match(
                presets@[j].regions@,
                zones@,
                infos@[j].zone_start_index as int,
                infos@[j + 1].zone_start_index as int,
            ) by {
                if j < i {
                    assert(presets@[j] == presets0[j]);
                    assert(spec_preset_regions_match(
                        presets0[j].regions@,
                        zones@,
                        infos@[j].zone_start_index as int,
                        infos@[j + 1].zone_start_index as int,
                    ));
                } else {
                    assert(presets@[j].regions@ == regs);
                }
            }
        }
        i = i + 1;
    }
    Ok(presets)
}

/// The key presets are ordered by: bank first, then patch.
pub open spec fn spec_preset_key(p: Preset) -> int {
    p.bank_number * 0x10000 + p.patch_number
}

/// Whether a preset list is ordered by `(bank, patch)` ascending.
pub open spec fn spec_presets_sorted(s: Seq<Preset>) -> bool {
    forall|i: int, j: int|
        0 <= i < j < s.len() ==> spec_preset_key(#[trigger] s[i]) <= spec_preset_key(
            #[trigger] s[j],
        )
}

/// A preset inserted after every entry whose key is at most its own:
/// the insertion step of a stable sort.
pub open spec fn spec_insert_preset(s: Seq<Preset>, p: Preset) -> Seq<Preset>
    decreases s.len(),
{
    if s.len() == 0 {
        seq![p]
    } else if spec_preset_key(s.last()) > spec_preset_key(p) {
        spec_insert_preset(s.drop_last(), p).push(s.last())
    } else {
        s.push(p)
    }
}

/// The stable insertion sort of a preset list: entries are taken in
/// order and each lands after all earlier entries with keys at most
/// its own, so equal keys keep their input order.
pub open spec fn spec_sort_presets(s: Seq<Preset>) -> Seq<Preset>
    decreases s.len(),
{
    if s.len() == 0 {
        Seq::empty()
    } else {
        spec_insert_preset(spec_sort_presets(s.drop_last()), s.last())
    }
}

/// On a sorted list, inserting before the first strictly greater key
/// is the stable insertion step.
proof fn lemma_insert_preset_at(s: Seq<Preset>, p: Preset, j: int)
    requires
        0 <= j <= s.len(),
        forall|k: int| 0 <= k < j ==> spec_preset_key(#[trigger] s[k]) <= spec_preset_key(p),
        j == s.len() || spec_preset_key(s[j]) > spec_preset_key(p),
        spec_presets_sorted(s),
    ensures
        spec_insert_preset(s, p) == s.insert(j, p),
    decreases s.len(),
{
    if s.len() == 0 {
        assert(s.insert(0, p) =~= seq![p]);
    } else if spec_preset_key(s.last()) > spec_preset_key(p) {
        assert(j < s.len());
        assert(spec_presets_sorted(s.drop_last()));
        assert(forall|k: int|
            0 <= k < j ==> spec_preset_key(#[trigger] s.drop_last()[k]) <= spec_preset_key(p));
        lemma_insert_preset_at(s.drop_last(), p, j);
        assert(s.drop_last().insert(j, p).push(s.last()) =~= s.insert(j, p));
    } else {
        assert(j == s.len());
        assert(s.push(p) =~= s.insert(s.len() as int, p));
    }
}

/// Sort presets by `(bank, patch)` ascending, keeping the same
/// collection of presets. The result is exactly the stable insertion
/// sort, so presets with equal keys keep their input order.
pub fn sort_presets(presets: Vec<Preset>) -> (r: Vec<Preset>)
    ensures
        r@.len() == presets@.len(),
        r@.to_multiset() == presets@.to_multiset(),
        spec_presets_sorted(r@),
        r@ == spec_sort_presets(presets@),
{
    broadcast use vstd::seq_lib::group_to_multiset_ensures;

    let mut rest = presets;
    let mut out: Vec<Preset> = Vec::new();
    while rest.len() > 0
        invariant
            out@.len() + rest@.len() == presets@.len(),
            out@.to_multiset().add(rest@.to_multiset()) =~= presets@.to_multiset(),
            spec_presets_sorted(out@),
            rest@ =~= presets@.skip(presets@.len() - rest@.len()),
            out@ == spec_sort_presets(presets@.take(presets@.len() - rest@.len())),
        decreases rest@.len(),
    {
        let ghost rest0 = rest@;
        let ghost consumed = presets@.len() - rest0.len();
        let p = rest.remove(0);
        proof {
            assert(rest@ =~= presets@.skip(presets@.len() - rest@.len()));
        }
        let key = p.bank_number as u32 * 0x10000 + p.patch_number as u32;
        let mut j: usize = 0;
        while j < out.len()
            invariant
                0 <= j <= out@.len(),
                key == spec_preset_key(p),
                forall|k: int| 0 <= k < j ==> spec_preset_key(#[trigger] out@[k]) <= key,
            ensures
                0 <= j <= out@.len(),
                key == spec_preset_key(p),
                forall|k: int| 0 <= k < j ==> spec_preset_key(#[trigger] out@[k]) <= key,
                j == out@.len() || spec_preset_key(out@[j as int]) > key,
            decreases out@.len() - j,
        {
            let other = out[j].bank_number as u32 * 0x10000 + out[j].patch_number as u32;
            if other > key {
                break;
            }
            j = j + 1;
        }
        let ghost out0 = out@;
        let ghost pp = p;
        out.insert(j, p);
        proof {
            broadcast use vstd::seq_lib::group_to_multiset_ensures;
            broadcast use vstd::multiset::group_multiset_axioms;

            assert(rest@ == rest0.remove(0));
            assert(rest0.remove(0).to_multiset() =~= rest0.to_multiset().remove(rest0[0]));
            assert(out@ == out0.insert(j as int, pp));
            assert(out0.insert(j as int, pp).to_multiset() == out0.to_multiset().insert(pp));
            assert(rest0.to_multiset().count(pp) >= 1) by {
                assert(rest0[0] == pp);
                assert(rest0.contains(pp));
            }
            assert(out@.to_multiset().add(rest@.to_multiset()) =~= presets@.to_multiset()) by {
                assert forall|x: Preset|
                    out@.to_multiset().add(rest@.to_multiset()).count(x) == #[trigger] presets@.to_multiset().count(
                        x,
                    ) by {
                    assert(out0.to_multiset().add(rest0.to_multiset()).count(x)
                        == presets@.to_multiset().count(x));
                    assert(out@.to_multiset().count(x) == out0.to_multiset().insert(pp).count(x));
                    assert(rest@.to_multiset().count(x) == rest0.to_multiset().remove(pp).count(
                        x,
                    ));
                }
            }
            lemma_insert_preset_at(out0, pp, j as int);
            assert(presets@.take(consumed + 1).drop_last() =~= presets@.take(consumed));
            assert(presets@.take(consumed + 1).last() == rest0[0]);
            assert(out@ == spec_sort_presets(presets@.take(consumed + 1)));
            assert forall|a: int, b: int| 0 <= a < b < out@.len() implies spec_preset_key(
                #[trigger] out@[a],
            ) <= spec_preset_key(#[trigger] out@[b]) by {
                if b < j {
                    assert(out@[a] == out0[a] && out@[b] == out0[b]);
                } else if a < j && b == j {
                    assert(out@[b] == pp);
                    assert(spec_preset_key(out0[a]) <= key);
                } else if a < j && b > j {
                    assert(out@[a] == out0[a] && out@[b] == out0[b - 1]);
                } else if a == j {
                    assert(out@[a] == pp);
                    assert(out@[b] == out0[b - 1]);
                    assert(j < out0.len() ==> spec_preset_key(out0[j as int]) > key);
                    assert(spec_presets_sorted(out0));
                } else {
                    assert(out@[a] == out0[a - 1] && out@[b] == out0[b - 1]);
                }
            }
        }
    }
    proof {
        assert(rest@.to_multiset().len() == 0);
        assert(out@.to_multiset().add(rest@.to_multiset()) =~= out@.to_multiset());
        assert(out@.to_multiset() == presets@.to_multiset());
        assert(presets@.take(presets@.len() as int) =~= presets@);
    }
    out
}

} // verus!
