//! Synthesizer configuration.

use vstd::prelude::*;

verus! {

/// An error raised when a synthesizer is constructed from invalid
/// settings.
#[derive(Clone, Copy, Debug, PartialEq, Eq, Structural)]
pub enum SynthesizerError {
    /// The sample rate is outside 8000..=192000 Hz.
    SampleRateOutOfRange(i32),
    /// The block size is outside 1..=1024 samples.
    BlockSizeOutOfRange(usize),
    /// The maximum polyphony is outside 1..=1024 voices.
    MaximumPolyphonyOutOfRange(usize),
}

/// The construction parameters of a synthesizer.
#[derive(Clone, Copy, Debug)]
pub struct SynthesizerSettings {
    /// Output sample rate in Hz.
    pub sample_rate: i32,
    /// Samples rendered per internal block.
    pub block_size: usize,
    /// The voice pool's capacity.
    pub maximum_polyphony: usize,
    /// Whether reverb and chorus sends are mixed.
    pub enable_reverb_and_chorus: bool,
}

impl SynthesizerSettings {
    /// Default settings at the given sample rate: 64-sample blocks,
    /// 64 voices, effects enabled.
    pub fn new(sample_rate: i32) -> (r: Self)
        ensures
            r.sample_rate == sample_rate,
            r.block_size == 64,
            r.maximum_polyphony == 64,
            r.enable_reverb_and_chorus,
    {
        SynthesizerSettings {
            sample_rate,
            block_size: 64,
            maximum_polyphony: 64,
            enable_reverb_and_chorus: true,
        }
    }

    /// Whether the settings lie in the supported ranges.
    pub open spec fn valid(&self) -> bool {
        &&& 8000 <= self.sample_rate <= 192000
        &&& 1 <= self.block_size <= 1024
        &&& 1 <= self.maximum_polyphony <= 1024
    }

    /// Check the settings, naming the first offending field.
    pub fn check(&self) -> (r: Result<(), SynthesizerError>)
        ensures
            r is Ok <==> self.valid(),
    {
        if !(8000 <= self.sample_rate && self.sample_rate <= 192000) {
            return Err(SynthesizerError::SampleRateOutOfRange(self.sample_rate));
        }
        if !(1 <= self.block_size && self.block_size <= 1024) {
            return Err(SynthesizerError::BlockSizeOutOfRange(self.block_size));
        }
        if !(1 <= self.maximum_polyphony && self.maximum_polyphony <= 1024) {
            return Err(SynthesizerError::MaximumPolyphonyOutOfRange(self.maximum_polyphony));
        }
        Ok(())
    }
}

} // verus!
