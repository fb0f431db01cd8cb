use vstd::prelude::*;
use vstd::utf8::{decode_utf8, valid_utf8};

use crate::error::utf8_text;

verus! {

/// A rational edit rate (`numerator / denominator`).
#[derive(Clone, Copy, Debug, PartialEq, Eq, Structural)]
pub struct Rational {
    pub num: i32,
    pub den: i32,
}

/// High-level track classification from libMXF's `MXFDataDefEnum`.
#[derive(Clone, Copy, Debug, PartialEq, Eq, Structural)]
pub enum TrackKind {
    Picture,
    Sound,
    Data,
    Other,
}

/// The classification of a libMXF data definition code.
pub open spec fn kind_of_data_def(data_def: i32) -> TrackKind {
    if data_def == 1 {
        TrackKind::Picture
    } else if data_def == 2 {
        TrackKind::Sound
    } else if data_def == 4 {
        TrackKind::Data
    } else {
        TrackKind::Other
    }
}

impl TrackKind {
    pub fn from_data_def(data_def: i32) -> (kind: Self)
        ensures
            kind == kind_of_data_def(data_def),
    {
        match data_def {
            1 => TrackKind::Picture,
            2 => TrackKind::Sound,
            4 => TrackKind::Data,
            _ => TrackKind::Other,
        }
    }
}

/// The bmx code of `WAVE_PCM`, the one essence type whose buffers hold several samples.
pub const WAVE_PCM_CODE: i32 = 90;

/// bmx `EssenceType` value.
#[derive(Clone, Copy, Debug, PartialEq, Eq, Structural)]
pub struct EssenceType(pub i32);

impl EssenceType {
    /// bmx's `UNKNOWN_ESSENCE_TYPE`.
    pub fn unknown() -> (essence: Self)
        ensures
            essence.0 == 0,
    {
        EssenceType(0)
    }

    /// bmx's `UNC_HD_1080P`.
    pub fn unc_hd_1080p() -> (essence: Self)
        ensures
            essence.0 == 35,
    {
        EssenceType(35)
    }

    /// bmx's `WAVE_PCM`.
    pub fn wave_pcm() -> (essence: Self)
        ensures
            essence.0 == WAVE_PCM_CODE,
    {
        EssenceType(WAVE_PCM_CODE)
    }

    /// The opaque picture type that carries a caller-supplied mapping.
    pub fn opaque_picture() -> (essence: Self)
        ensures
            essence.0 == 97,
    {
        EssenceType(97)
    }

    /// The opaque sound type that carries a caller-supplied mapping.
    pub fn opaque_sound() -> (essence: Self)
        ensures
            essence.0 == 98,
    {
        EssenceType(98)
    }

    /// The opaque data type that carries a caller-supplied mapping.
    pub fn opaque_data() -> (essence: Self)
        ensures
            essence.0 == 99,
    {
        EssenceType(99)
    }

    pub fn from_i32(value: i32) -> (essence: Self)
        ensures
            essence.0 == value,
    {
        EssenceType(value)
    }

    pub fn as_i32(self) -> (value: i32)
        ensures
            value == self.0,
    {
        self.0
    }

    /// The name of an essence type from what bmx's name lookup returned: the bytes of
    /// its C string without the terminator, or none for a null pointer. Bytes that are
    /// not UTF-8, like a null pointer, give `UNKNOWN_ESSENCE_TYPE`.
    pub fn name_from(raw: Option<&[u8]>) -> (name: String)
        ensures
            name@ == match raw {
                Some(bytes) => essence_name(Some(bytes@)),
                None => essence_name(None),
            },
    {
        let unknown = "UNKNOWN_ESSENCE_TYPE";
        match raw {
            Some(bytes) => match utf8_text(bytes) {
                Some(text) => text,
                None => unknown.to_string(),
            },
            None => unknown.to_string(),
        }
    }
}

/// The name that a C string from bmx's name lookup gives an essence type.
pub open spec fn essence_name(raw: Option<Seq<u8>>) -> Seq<char> {
    match raw {
        Some(bytes) => if valid_utf8(bytes) {
            decode_utf8(bytes)
        } else {
            "UNKNOWN_ESSENCE_TYPE"@
        },
        None => "UNKNOWN_ESSENCE_TYPE"@,
    }
}

/// File descriptor class used for an opaque track.
#[derive(Clone, Copy, Debug, PartialEq, Eq, Structural)]
pub enum DescriptorKind {
    Default,
    Cdci,
    Rgba,
    WaveAudio,
    GenericData,
}

/// The numeric code of a descriptor class.
pub open spec fn descriptor_code(kind: DescriptorKind) -> i32 {
    match kind {
        DescriptorKind::Default => 0,
        DescriptorKind::Cdci => 1,
        DescriptorKind::Rgba => 2,
        DescriptorKind::WaveAudio => 3,
        DescriptorKind::GenericData => 4,
    }
}

/// The descriptor class named by a numeric code; unknown codes are `Default`.
pub open spec fn descriptor_of_code(value: i32) -> DescriptorKind {
    if value == 1 {
        DescriptorKind::Cdci
    } else if value == 2 {
        DescriptorKind::Rgba
    } else if value == 3 {
        DescriptorKind::WaveAudio
    } else if value == 4 {
        DescriptorKind::GenericData
    } else {
        DescriptorKind::Default
    }
}

impl DescriptorKind {
    pub fn from_i32(value: i32) -> (kind: Self)
        ensures
            kind == descriptor_of_code(value),
    {
        match value {
            1 => DescriptorKind::Cdci,
            2 => DescriptorKind::Rgba,
            3 => DescriptorKind::WaveAudio,
            4 => DescriptorKind::GenericData,
            _ => DescriptorKind::Default,
        }
    }

    pub fn as_i32(self) -> (value: i32)
        ensures
            value == descriptor_code(self),
    {
        match self {
            DescriptorKind::Default => 0,
            DescriptorKind::Cdci => 1,
            DescriptorKind::Rgba => 2,
            DescriptorKind::WaveAudio => 3,
            DescriptorKind::GenericData => 4,
        }
    }
}

/// Decoding the code of a descriptor class gives that class back.
pub proof fn lemma_descriptor_code_round_trip(kind: DescriptorKind)
    ensures
        descriptor_of_code(descriptor_code(kind)) == kind,
{
}

/// Every code from 0 to 4 names a class whose code it is; every other code reads as
/// `Default`, whose code is 0.
pub proof fn lemma_descriptor_of_code(value: i32)
    ensures
        0 <= value <= 4 ==> descriptor_code(descriptor_of_code(value)) == value,
        !(0 <= value <= 4) ==> descriptor_of_code(value) == DescriptorKind::Default,
{
}

/// One component of an RGBA `PixelLayout`.
#[derive(Clone, Copy, Debug, PartialEq, Eq, Structural)]
pub struct PixelComponent {
    pub code: u8,
    pub depth: u8,
}

/// Material Package start timecode.
#[derive(Clone, Copy, Debug, PartialEq, Eq, Structural)]
pub struct Timecode {
    pub hour: i16,
    pub minute: i16,
    pub second: i16,
    pub frame: i16,
    pub drop_frame: bool,
}

/// Writer Identification and package UIDs. Unset fields keep bmx's generated values.
#[derive(Clone, Debug, Default, PartialEq, Eq)]
pub struct Identity {
    pub company_name: Option<String>,
    pub product_name: Option<String>,
    pub version_string: Option<String>,
    pub product_version: Option<(u16, u16, u16, u16, u16)>,
    pub product_uid: Option<[u8; 16]>,
    pub creation_date: Option<(i16, u8, u8, u8, u8, u8, u8)>,
    pub generation_uid: Option<[u8; 16]>,
    pub material_package_uid: Option<[u8; 32]>,
    pub file_source_package_uid: Option<[u8; 32]>,
}

/// A track description captured at open time.
#[derive(Clone, Debug, PartialEq, Eq)]
pub struct Track {
    pub index: usize,
    pub kind: TrackKind,
    pub essence_type: EssenceType,
    pub essence_container_ul: [u8; 16],
    pub coding_ul: Option<[u8; 16]>,
    pub descriptor: DescriptorKind,
    pub stored_width: Option<u32>,
    pub stored_height: Option<u32>,
    pub display_width: Option<u32>,
    pub display_height: Option<u32>,
    pub component_depth: Option<u32>,
    pub subsampling: Option<(u32, u32)>,
    pub frame_layout: Option<u8>,
    pub aspect_ratio: Option<Rational>,
    pub video_line_map: Option<(i32, i32)>,
    pub pixel_layout: Vec<PixelComponent>,
    pub color_primaries: Option<[u8; 16]>,
    pub transfer_characteristic: Option<[u8; 16]>,
    pub coding_equations: Option<[u8; 16]>,
    pub sampling_rate: Option<u32>,
    pub channel_count: Option<u32>,
    pub quantization_bits: Option<u32>,
    pub edit_rate: Rational,
    pub duration: i64,
}

/// One essence payload with the KLV key and length stripped.
#[derive(Clone, Debug, PartialEq, Eq)]
pub struct Frame {
    pub data: Vec<u8>,
    pub element_key: [u8; 16],
    pub file_position: i64,
    pub kl_size: u8,
    pub position: i64,
    pub track_index: usize,
}

/// The frames belonging to one edit unit, across the selected tracks.
#[derive(Clone, Debug, Default, PartialEq, Eq)]
pub struct Package {
    pub frames: Vec<Frame>,
}

/// Tuning knobs for index-driven access.
#[derive(Clone, Copy, Debug, PartialEq, Eq, Structural)]
pub struct ReadOptions {
    /// Bytes pulled on a short read so tiny KLV-header fetches are amortized.
    pub read_ahead: u32,
    /// Paged LRU via `mxf_cache_file_open`. Zero disables the cache wrapper.
    pub cache_bytes: u32,
}

impl Default for ReadOptions {
    fn default() -> (options: Self)
        ensures
            options.read_ahead == 0x10_0000,
            options.cache_bytes == 0x400_0000,
    {
        ReadOptions { read_ahead: 0x10_0000, cache_bytes: 0x400_0000 }
    }
}

/// OP1a flavour flags. `SINGLE_PASS` writes a closed-complete header and never
/// seeks backward.
#[derive(Clone, Copy, Debug, PartialEq, Eq, Structural)]
pub struct Flavour(pub i32);

impl Flavour {
    /// The default OP1a flavour.
    pub fn default_flavour() -> (flavour: Self)
        ensures
            flavour.0 == 0,
    {
        Flavour(0)
    }

    /// Closed-complete header written up front; the writer never seeks backward.
    pub fn single_pass() -> (flavour: Self)
        ensures
            flavour.0 == 0x0008,
    {
        Flavour(0x0008)
    }
}

impl Default for Flavour {
    fn default() -> (flavour: Self)
        ensures
            flavour.0 == 0,
    {
        Flavour(0)
    }
}

/// One output track. Opaque types require container / coding ULs.
#[derive(Clone, Debug, PartialEq, Eq)]
pub struct TrackSpec {
    pub essence_type: EssenceType,
    pub sampling_rate: Option<u32>,
    pub channel_count: Option<u32>,
    pub quantization_bits: Option<u32>,
    pub stored_width: Option<u32>,
    pub stored_height: Option<u32>,
    pub essence_container_ul: Option<[u8; 16]>,
    pub coding_ul: Option<[u8; 16]>,
    pub element_type: Option<u8>,
    pub element_llen: Option<u8>,
    pub temporal_reordering: bool,
    pub descriptor: Option<DescriptorKind>,
    pub component_depth: Option<u32>,
    pub subsampling: Option<(u32, u32)>,
    pub frame_layout: Option<u8>,
    pub aspect_ratio: Option<Rational>,
    pub video_line_map: Option<(i32, i32)>,
    pub pixel_layout: Option<Vec<PixelComponent>>,
    pub color_primaries: Option<[u8; 16]>,
    pub transfer_characteristic: Option<[u8; 16]>,
    pub coding_equations: Option<[u8; 16]>,
}

impl TrackSpec {
    /// A track of the given essence type with every optional field unset.
    pub open spec fn is_bare(self, essence_type: EssenceType) -> bool {
        &&& self.essence_type == essence_type
        &&& self.sampling_rate is None
        &&& self.channel_count is None
        &&& self.quantization_bits is None
        &&& self.stored_width is None
        &&& self.stored_height is None
        &&& self.essence_container_ul is None
        &&& self.coding_ul is None
        &&& self.element_type is None
        &&& self.element_llen is None
        &&& !self.temporal_reordering
        &&& self.descriptor is None
        &&& self.component_depth is None
        &&& self.subsampling is None
        &&& self.frame_layout is None
        &&& self.aspect_ratio is None
        &&& self.video_line_map is None
        &&& self.pixel_layout is None
        &&& self.color_primaries is None
        &&& self.transfer_characteristic is None
        &&& self.coding_equations is None
    }

    pub fn new(essence_type: EssenceType) -> (spec: Self)
        ensures
            spec.is_bare(essence_type),
    {
        TrackSpec {
            essence_type,
            sampling_rate: None,
            channel_count: None,
            quantization_bits: None,
            stored_width: None,
            stored_height: None,
            essence_container_ul: None,
            coding_ul: None,
            element_type: None,
            element_llen: None,
            temporal_reordering: false,
            descriptor: None,
            component_depth: None,
            subsampling: None,
            frame_layout: None,
            aspect_ratio: None,
            video_line_map: None,
            pixel_layout: None,
            color_primaries: None,
            transfer_characteristic: None,
            coding_equations: None,
        }
    }
}

/// Clip-level XML (ST 434 / generic stream), not an essence track.
#[derive(Clone, Debug, PartialEq, Eq)]
pub struct XmlMetadata {
    pub data: Vec<u8>,
    pub scheme_id: Option<[u8; 16]>,
    pub language: Option<String>,
    pub namespace: Option<String>,
    pub mime_type: Option<String>,
    pub is_xml: bool,
}

impl XmlMetadata {
    pub fn new(data: Vec<u8>) -> (item: Self)
        ensures
            item.data@ == data@,
            item.scheme_id is None,
            item.language is None,
            item.namespace is None,
            item.mime_type is None,
            item.is_xml,
    {
        XmlMetadata {
            data,
            scheme_id: None,
            language: None,
            namespace: None,
            mime_type: None,
            is_xml: true,
        }
    }
}

/// Clip-level write specification. Duration is required for single-pass.
#[derive(Clone, Debug, PartialEq, Eq)]
pub struct ClipSpec {
    pub edit_rate: Rational,
    pub flavour: Flavour,
    pub duration: Option<i64>,
    pub tracks: Vec<TrackSpec>,
    pub xml: Vec<XmlMetadata>,
    pub start_timecode: Option<Timecode>,
    pub timecode_track: bool,
    pub system_item: bool,
    pub identity: Option<Identity>,
}

impl Default for ClipSpec {
    fn default() -> (spec: Self)
        ensures
            spec.edit_rate == (Rational { num: 25, den: 1 }),
            spec.flavour.0 == 0,
            spec.duration is None,
            spec.tracks@.len() == 0,
            spec.xml@.len() == 0,
            spec.start_timecode is None,
            spec.timecode_track,
            !spec.system_item,
            spec.identity is None,
    {
        ClipSpec {
            edit_rate: Rational { num: 25, den: 1 },
            flavour: Flavour(0),
            duration: None,
            tracks: Vec::new(),
            xml: Vec::new(),
            start_timecode: None,
            timecode_track: true,
            system_item: false,
            identity: None,
        }
    }
}

} // verus!
