//! Region pairs: a preset region layered over an instrument region for
//! one sounding note.

use vstd::prelude::*;
use crate::generator::{GEN_EXCLUSIVE_CLASS, GEN_KEY_RANGE, GEN_SAMPLE_MODES, GEN_VELOCITY_RANGE};
use crate::instrument::InstrumentRegion;
use crate::preset::{spec_region_amount, PresetRegion};
use crate::text::clone_copy_vec;

verus! {

/// Whether a packed range generator covers a value: the low byte is
/// the lower bound, the high byte the upper.
pub open spec fn spec_range_contains(x: i16, v: u8) -> bool {
    ((x as u16) % 256) <= v && v <= ((x as u16) / 256)
}

/// Test a packed range generator against a value.
pub fn range_contains(x: i16, v: u8) -> (r: bool)
    ensures
        r == spec_range_contains(x, v),
{
    let ux = x as u16;
    proof {
        assert(ux / 256 <= 255);
    }
    (ux % 256) as u8 <= v && v <= (ux / 256) as u8
}

/// Whether a region's key and velocity ranges cover a note.
pub open spec fn spec_region_covers(gs: Seq<i16>, key: u8, velocity: u8) -> bool {
    &&& spec_range_contains(gs[GEN_KEY_RANGE as int], key)
    &&& spec_range_contains(gs[GEN_VELOCITY_RANGE as int], velocity)
}

impl PresetRegion {
    /// Whether the region's key and velocity ranges cover a note.
    pub fn contains(&self, key: u8, velocity: u8) -> (r: bool)
        requires
            self.wf(),
        ensures
            r == spec_region_covers(self.gs@, key, velocity),
    {
        range_contains(self.gs[43], key) && range_contains(self.gs[44], velocity)
    }
}

impl InstrumentRegion {
    /// Whether the region's key and velocity ranges cover a note.
    pub fn contains(&self, key: u8, velocity: u8) -> (r: bool)
        requires
            self.wf(),
        ensures
            r == spec_region_covers(self.gs@, key, velocity),
    {
        range_contains(self.gs[43], key) && range_contains(self.gs[44], velocity)
    }
}

impl PresetRegion {
    /// Copy the region for a voice of its own.
    pub fn duplicate(&self) -> (r: Self)
        ensures
            r.gs@ == self.gs@,
            r.instrument == self.instrument,
    {
        PresetRegion { gs: clone_copy_vec(&self.gs), instrument: self.instrument }
    }
}

impl InstrumentRegion {
    /// Copy the region for a voice of its own.
    pub fn duplicate(&self) -> (r: Self)
        ensures
            r.gs@ == self.gs@,
            r.sample_id == self.sample_id,
            r.sample_start == self.sample_start,
            r.sample_end == self.sample_end,
            r.sample_start_loop == self.sample_start_loop,
            r.sample_end_loop == self.sample_end_loop,
    {
        InstrumentRegion {
            gs: clone_copy_vec(&self.gs),
            sample_id: self.sample_id,
            sample_start: self.sample_start,
            sample_end: self.sample_end,
            sample_start_loop: self.sample_start_loop,
            sample_end_loop: self.sample_end_loop,
        }
    }
}

/// A preset region layered over an instrument region. The instrument
/// layer sets absolute generator values; the preset layer offsets them
/// additively.
#[derive(Clone, Debug)]
pub struct RegionPair {
    pub preset: PresetRegion,
    pub instrument: InstrumentRegion,
}

impl RegionPair {
    /// Both layers carry a complete generator table.
    pub open spec fn wf(&self) -> bool {
        &&& self.preset.wf()
        &&& self.instrument.wf()
    }

    /// The combined value of one generator: the instrument layer's
    /// value plus the preset layer's offset.
    pub fn gs_sum(&self, generator_type: u16) -> (r: i32)
        requires
            self.wf(),
        ensures
            r == spec_region_amount(self.instrument.gs@, generator_type)
                + spec_region_amount(self.preset.gs@, generator_type),
    {
        self.instrument.amount(generator_type) as i32 + self.preset.amount(generator_type) as i32
    }

    /// The instrument layer's value alone, for the generators the
    /// preset layer may not offset.
    pub fn gs_instrument(&self, generator_type: u16) -> (r: i16)
        requires
            self.wf(),
        ensures
            r == spec_region_amount(self.instrument.gs@, generator_type),
    {
        self.instrument.amount(generator_type)
    }

    /// The region's exclusive class; zero means none.
    pub fn get_exclusive_class(&self) -> (r: i16)
        requires
            self.wf(),
        ensures
            r == spec_region_amount(self.instrument.gs@, GEN_EXCLUSIVE_CLASS),
    {
        self.instrument.amount(GEN_EXCLUSIVE_CLASS)
    }

    /// The region's sample loop mode.
    pub fn get_sample_modes(&self) -> (r: i16)
        requires
            self.wf(),
        ensures
            r == spec_region_amount(self.instrument.gs@, GEN_SAMPLE_MODES),
    {
        self.instrument.amount(GEN_SAMPLE_MODES)
    }
}

} // verus!
