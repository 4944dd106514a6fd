//! Typed errors raised while loading a SoundFont, and the FourCC tags
//! they report.

use vstd::prelude::*;
use vstd::string::StringExecFns;
use crate::binary::ReadError;

verus! {

/// True when the byte is a printable ASCII character or a space.
pub fn is_ascii_graphic_or_space(byte: u8) -> (r: bool)
    ensures
        r == (0x21 <= byte <= 0x7e || byte == 0x20),
{
    (0x21 <= byte && byte <= 0x7e) || byte == 0x20
}

/// The byte itself when printable ASCII, `'?'` otherwise.
pub open spec fn spec_sanitized_byte(byte: u8) -> u8 {
    if 0x20 <= byte <= 0x7e {
        byte
    } else {
        0x3f
    }
}

/// Replace a byte that is not printable ASCII with `'?'`.
pub fn replace_with_question_mark_if_non_ascii(byte: u8) -> (r: u8)
    ensures
        r == spec_sanitized_byte(byte),
{
    if is_ascii_graphic_or_space(byte) {
        byte
    } else {
        0x3f
    }
}

/// A four-byte ASCII chunk tag.
///
/// The bytes are sanitized at construction, so a tag is always printable
/// and can be reported in an error message as it stands.
#[derive(Clone, Copy, Debug)]
pub struct FourCC {
    bytes: [u8; 4],
}

impl View for FourCC {
    type V = Seq<u8>;

    closed spec fn view(&self) -> Seq<u8> {
        self.bytes@
    }
}

/// The view a `FourCC` built from the given bytes has.
pub open spec fn spec_four_cc(b0: u8, b1: u8, b2: u8, b3: u8) -> Seq<u8> {
    seq![
        spec_sanitized_byte(b0),
        spec_sanitized_byte(b1),
        spec_sanitized_byte(b2),
        spec_sanitized_byte(b3),
    ]
}

impl FourCC {
    /// Build a tag from raw bytes, replacing unprintable bytes with `'?'`.
    pub fn from_bytes(bytes: [u8; 4]) -> (r: Self)
        ensures
            r@ == spec_four_cc(bytes[0], bytes[1], bytes[2], bytes[3]),
    {
        let sanitized: [u8; 4] = [
            replace_with_question_mark_if_non_ascii(bytes[0]),
            replace_with_question_mark_if_non_ascii(bytes[1]),
            replace_with_question_mark_if_non_ascii(bytes[2]),
            replace_with_question_mark_if_non_ascii(bytes[3]),
        ];
        let r = FourCC { bytes: sanitized };
        proof {
            assert(r@ =~= spec_four_cc(bytes[0], bytes[1], bytes[2], bytes[3]));
        }
        r
    }

    /// The four bytes of the tag.
    pub fn as_bytes(&self) -> (r: &[u8; 4])
        ensures
            r@ == self@,
    {
        &self.bytes
    }

    /// Compare the tag against a literal tag such as `b"RIFF"`.
    pub fn eq_bytes(&self, other: &[u8; 4]) -> (r: bool)
        ensures
            r == (self@ =~= other@),
    {
        self.bytes[0] == other[0] && self.bytes[1] == other[1] && self.bytes[2] == other[2]
            && self.bytes[3] == other[3]
    }

    /// The tag's four characters as text.
    pub fn as_text(&self) -> String {
        let mut bytes: Vec<u8> = Vec::new();
        let mut i: usize = 0;
        while i < 4
            invariant
                0 <= i <= 4,
                forall|j: int| 0 <= j < bytes@.len() ==> #[trigger] bytes@[j] < 128,
            decreases 4 - i,
        {
            let b = self.bytes[i];
            if b < 128 {
                bytes.push(b);
            } else {
                bytes.push(0x3f);
            }
            i = i + 1;
        }
        crate::text::ascii_to_string(&bytes)
    }

    /// Compare the tag against four literal characters.
    pub fn matches_tag(&self, c0: u8, c1: u8, c2: u8, c3: u8) -> (r: bool)
        ensures
            r == (self@ =~= seq![c0, c1, c2, c3]),
    {
        self.bytes[0] == c0 && self.bytes[1] == c1 && self.bytes[2] == c2 && self.bytes[3] == c3
    }
}

impl PartialEq for FourCC {
    fn eq(&self, other: &FourCC) -> (r: bool) {
        self.eq_bytes(&other.bytes)
    }
}

impl vstd::std_specs::cmp::PartialEqSpecImpl for FourCC {
    open spec fn obeys_eq_spec() -> bool {
        true
    }

    open spec fn eq_spec(&self, other: &FourCC) -> bool {
        self@ =~= other@
    }
}

impl Eq for FourCC {}

/// An error raised while loading a SoundFont.
#[derive(Debug)]
pub enum SoundFontError {
    /// The byte stream ended early or held a malformed primitive.
    IoError(ReadError),
    /// The file does not start with a RIFF chunk.
    RiffChunkNotFound,
    /// The RIFF chunk's form type is not `sfbk`.
    InvalidRiffChunkType { expected: FourCC, actual: FourCC },
    /// A LIST chunk was expected and not found.
    ListChunkNotFound,
    /// A LIST chunk's type differs from the expected one.
    InvalidListChunkType { expected: FourCC, actual: FourCC },
    /// The INFO list holds a record with an unknown tag.
    ListContainsUnknownId(FourCC),
    /// The sdta list holds no `smpl` chunk.
    SampleDataNotFound,
    /// The sample data is not 16-bit mono PCM (SoundFont 3 is rejected).
    UnsupportedSampleFormat,
    /// A required sub-chunk was missing from a list.
    SubChunkNotFound(FourCC),
    /// The preset header list has an inconsistent size.
    InvalidPresetList,
    /// A preset references an instrument index out of range.
    InvalidInstrumentId { preset_id: usize, instrument_id: usize },
    /// A preset has no zone.
    InvalidPreset(usize),
    /// No preset was found.
    PresetNotFound,
    /// The instrument list has an inconsistent size.
    InvalidInstrumentList,
    /// An instrument references a sample index out of range.
    InvalidSampleId { instrument_id: usize, sample_id: usize },
    /// An instrument has no zone.
    InvalidInstrument(usize),
    /// No instrument was found.
    InstrumentNotFound,
    /// The sample header list has an inconsistent size.
    InvalidSampleHeaderList,
    /// A zone list has an inconsistent size.
    InvalidZoneList,
    /// No zone was found.
    ZoneNotFound,
    /// A generator list has an inconsistent size.
    InvalidGeneratorList,
    /// A region failed the load-time sample bounds check.
    RegionCheckFailed { inst_name: String, region_idx: usize, msg: String },
    /// A region's sample indices fall outside the wave data.
    RegionSampleOutOfBounds { inst_name: String, region_idx: usize },
}


impl SoundFontError {
    /// A human-readable description of the error. For the variants
    /// without fields the exact text is part of the contract.
    pub fn message(&self) -> (r: String)
        ensures
            self matches SoundFontError::IoError(ReadError::UnexpectedEndOfStream) ==> r@
                == "unexpected end of the byte stream"@,
            self matches SoundFontError::IoError(ReadError::VariableLengthValueTooLong) ==> r@
                == "the length of the value must be equal to or less than 4"@,
            self is RiffChunkNotFound ==> r@ == "the RIFF chunk was not found"@,
            self is ListChunkNotFound ==> r@ == "the LIST chunk was not found"@,
            self is SampleDataNotFound ==> r@ == "no valid sample data was found"@,
            self is UnsupportedSampleFormat ==> r@ == "SoundFont3 is not yet supported"@,
            self is InvalidPresetList ==> r@ == "the preset list is invalid"@,
            self is PresetNotFound ==> r@ == "no valid preset was found"@,
            self is InvalidInstrumentList ==> r@ == "the instrument list is invalid"@,
            self is InstrumentNotFound ==> r@ == "no valid instrument was found"@,
            self is InvalidSampleHeaderList ==> r@ == "the sample header list is invalid"@,
            self is InvalidZoneList ==> r@ == "the zone list is invalid"@,
            self is ZoneNotFound ==> r@ == "no valid zone was found"@,
            self is InvalidGeneratorList ==> r@ == "the generator list is invalid"@,
    {
        match self {
            SoundFontError::IoError(ReadError::UnexpectedEndOfStream) => String::from_str(
                "unexpected end of the byte stream",
            ),
            SoundFontError::IoError(ReadError::VariableLengthValueTooLong) => String::from_str(
                "the length of the value must be equal to or less than 4",
            ),
            SoundFontError::RiffChunkNotFound => String::from_str("the RIFF chunk was not found"),
            SoundFontError::InvalidRiffChunkType { expected, actual } => String::from_str(
                "the type of the RIFF chunk must be '",
            ).concat(expected.as_text().as_str()).concat("', but was '").concat(
                actual.as_text().as_str(),
            ).concat("'"),
            SoundFontError::ListChunkNotFound => String::from_str("the LIST chunk was not found"),
            SoundFontError::InvalidListChunkType { expected, actual } => String::from_str(
                "the type of the LIST chunk must be '",
            ).concat(expected.as_text().as_str()).concat("', but was '").concat(
                actual.as_text().as_str(),
            ).concat("'"),
            SoundFontError::ListContainsUnknownId(id) => String::from_str(
                "the INFO list contains an unknown ID '",
            ).concat(id.as_text().as_str()).concat("'"),
            SoundFontError::SampleDataNotFound => String::from_str(
                "no valid sample data was found",
            ),
            SoundFontError::UnsupportedSampleFormat => String::from_str(
                "SoundFont3 is not yet supported",
            ),
            SoundFontError::SubChunkNotFound(id) => String::from_str("the '").concat(
                id.as_text().as_str(),
            ).concat("' sub-chunk was not found"),
            SoundFontError::InvalidPresetList => String::from_str("the preset list is invalid"),
            SoundFontError::InvalidInstrumentId { preset_id, instrument_id } => String::from_str(
                "the preset with the ID '",
            ).concat(usize_text(*preset_id).as_str()).concat(
                "' contains an invalid instrument ID '",
            ).concat(usize_text(*instrument_id).as_str()).concat("'"),
            SoundFontError::InvalidPreset(preset_id) => String::from_str(
                "the preset with the ID '",
            ).concat(usize_text(*preset_id).as_str()).concat("' has no zone"),
            SoundFontError::PresetNotFound => String::from_str("no valid preset was found"),
            SoundFontError::InvalidInstrumentList => String::from_str(
                "the instrument list is invalid",
            ),
            SoundFontError::InvalidSampleId { instrument_id, sample_id } => String::from_str(
                "the instrument with the ID '",
            ).concat(usize_text(*instrument_id).as_str()).concat(
                "' contains an invalid sample ID '",
            ).concat(usize_text(*sample_id).as_str()).concat("'"),
            SoundFontError::InvalidInstrument(instrument_id) => String::from_str(
                "the instrument with the ID '",
            ).concat(usize_text(*instrument_id).as_str()).concat("' has no zone"),
            SoundFontError::InstrumentNotFound => String::from_str(
                "no valid instrument was found",
            ),
            SoundFontError::InvalidSampleHeaderList => String::from_str(
                "the sample header list is invalid",
            ),
            SoundFontError::InvalidZoneList => String::from_str("the zone list is invalid"),
            SoundFontError::ZoneNotFound => String::from_str("no valid zone was found"),
            SoundFontError::InvalidGeneratorList => String::from_str(
                "the generator list is invalid",
            ),
            SoundFontError::RegionCheckFailed { inst_name, region_idx, msg } => String::from_str(
                "Error at inst ",
            ).concat(inst_name.as_str()).concat(", zone ").concat(
                usize_text(*region_idx).as_str(),
            ).concat(": ").concat(msg.as_str()),
            SoundFontError::RegionSampleOutOfBounds { inst_name, region_idx } => String::from_str(
                "Error at inst ",
            ).concat(inst_name.as_str()).concat(", zone ").concat(
                usize_text(*region_idx).as_str(),
            ).concat(": Sample out of bounds"),
        }
    }
}

/// A number rendered as decimal text.
pub fn usize_text(n: usize) -> String {
    crate::text::ascii_to_string(&crate::text::format_usize(n))
}

} // verus!
