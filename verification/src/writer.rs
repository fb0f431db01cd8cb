use vstd::prelude::*;

use crate::error::Error;
use crate::text::{decimal, push_decimal};
use vstd::utf8::encode_utf8;
use crate::reader::MxfuseRational;
use crate::reader::{
    dim_value, pixel_layout_of, track_describes, ul_value, MxfuseTimecode, MxfuseTrackInfo,
};
use crate::types::{
    descriptor_code, descriptor_of_code, lemma_descriptor_code_round_trip, ClipSpec, DescriptorKind, EssenceType,
    Identity, PixelComponent, Rational, Track, TrackSpec, XmlMetadata, WAVE_PCM_CODE,
};

verus! {

broadcast use vstd::array::group_array_axioms;

pub const MXFUSE_TRACK_HAS_SAMPLING_RATE: u32 = 0x1;
pub const MXFUSE_TRACK_HAS_CHANNEL_COUNT: u32 = 0x2;
pub const MXFUSE_TRACK_HAS_QUANT_BITS: u32 = 0x4;
pub const MXFUSE_TRACK_HAS_STORED_WIDTH: u32 = 0x8;
pub const MXFUSE_TRACK_HAS_STORED_HEIGHT: u32 = 0x10;
pub const MXFUSE_TRACK_HAS_CONTAINER_UL: u32 = 0x20;
pub const MXFUSE_TRACK_HAS_CODING_UL: u32 = 0x40;
pub const MXFUSE_TRACK_HAS_ELEMENT_TYPE: u32 = 0x80;
pub const MXFUSE_TRACK_HAS_ELEMENT_LLEN: u32 = 0x100;
pub const MXFUSE_TRACK_HAS_TEMPORAL_REORDER: u32 = 0x200;
pub const MXFUSE_TRACK_HAS_DESCRIPTOR: u32 = 0x400;
pub const MXFUSE_TRACK_HAS_COMPONENT_DEPTH: u32 = 0x800;
pub const MXFUSE_TRACK_HAS_SUBSAMPLING: u32 = 0x1000;
pub const MXFUSE_TRACK_HAS_FRAME_LAYOUT: u32 = 0x2000;
pub const MXFUSE_TRACK_HAS_ASPECT_RATIO: u32 = 0x4000;
pub const MXFUSE_TRACK_HAS_VIDEO_LINE_MAP: u32 = 0x8000;
pub const MXFUSE_TRACK_HAS_PIXEL_LAYOUT: u32 = 0x10000;
pub const MXFUSE_TRACK_HAS_COLOR_PRIMARIES: u32 = 0x20000;
pub const MXFUSE_TRACK_HAS_TRANSFER: u32 = 0x40000;
pub const MXFUSE_TRACK_HAS_CODING_EQ: u32 = 0x80000;

/// The most pixel components a track specification carries to the shim.
pub const MXFUSE_MAX_PIXEL_COMPONENTS: usize = 8;

/// One output track as the shim takes it; a flag marks each field that is given.
#[derive(Clone, Copy, Debug, PartialEq, Eq)]
pub struct MxfuseTrackSpec {
    pub essence_type: i32,
    pub flags: u32,
    pub sampling_rate: MxfuseRational,
    pub channel_count: u32,
    pub quantization_bits: u32,
    pub stored_width: u32,
    pub stored_height: u32,
    pub essence_container_ul: [u8; 16],
    pub picture_coding_ul: [u8; 16],
    pub element_type: u8,
    pub element_llen: u8,
    pub temporal_reordering: i32,
    pub descriptor_kind: i32,
    pub component_depth: u32,
    pub horiz_subsampling: u32,
    pub vert_subsampling: u32,
    pub frame_layout: u8,
    pub aspect_ratio: MxfuseRational,
    pub video_line_map: [i32; 2],
    pub pixel_layout_count: u8,
    pub pixel_layout: [u8; 16],
    pub color_primaries: [u8; 16],
    pub transfer_characteristic: [u8; 16],
    pub coding_equations: [u8; 16],
}

/// Whether every byte of an array is zero.
pub open spec fn all_zero<const N: usize>(bytes: [u8; N]) -> bool {
    forall|i: int| 0 <= i < N ==> bytes@[i] == 0
}

impl MxfuseTrackSpec {
    /// Every field zero: nothing given.
    pub open spec fn is_zeroed(&self) -> bool {
        &&& self.essence_type == 0
        &&& self.flags == 0
        &&& self.sampling_rate == MxfuseRational { num: 0, den: 0 }
        &&& self.channel_count == 0
        &&& self.quantization_bits == 0
        &&& self.stored_width == 0
        &&& self.stored_height == 0
        &&& all_zero(self.essence_container_ul)
        &&& all_zero(self.picture_coding_ul)
        &&& self.element_type == 0
        &&& self.element_llen == 0
        &&& self.temporal_reordering == 0
        &&& self.descriptor_kind == 0
        &&& self.component_depth == 0
        &&& self.horiz_subsampling == 0
        &&& self.vert_subsampling == 0
        &&& self.frame_layout == 0
        &&& self.aspect_ratio == MxfuseRational { num: 0, den: 0 }
        &&& self.video_line_map@ == seq![0i32, 0i32]
        &&& self.pixel_layout_count == 0
        &&& all_zero(self.pixel_layout)
        &&& all_zero(self.color_primaries)
        &&& all_zero(self.transfer_characteristic)
        &&& all_zero(self.coding_equations)
    }
}

impl Default for MxfuseTrackSpec {
    fn default() -> (spec: Self)
        ensures
            spec.is_zeroed(),
    {
        let zero = [0u8; 16];
        assert(all_zero(zero));
        let lines = [0i32; 2];
        assert(lines@ == seq![0i32, 0i32]);
        MxfuseTrackSpec {
            essence_type: 0,
            flags: 0,
            sampling_rate: MxfuseRational { num: 0, den: 0 },
            channel_count: 0,
            quantization_bits: 0,
            stored_width: 0,
            stored_height: 0,
            essence_container_ul: [0u8; 16],
            picture_coding_ul: [0u8; 16],
            element_type: 0,
            element_llen: 0,
            temporal_reordering: 0,
            descriptor_kind: 0,
            component_depth: 0,
            horiz_subsampling: 0,
            vert_subsampling: 0,
            frame_layout: 0,
            aspect_ratio: MxfuseRational { num: 0, den: 0 },
            video_line_map: [0i32; 2],
            pixel_layout_count: 0,
            pixel_layout: [0u8; 16],
            color_primaries: [0u8; 16],
            transfer_characteristic: [0u8; 16],
            coding_equations: [0u8; 16],
        }
    }
}

/// `bit` when `present`, else no bit.
pub open spec fn bit_if(present: bool, bit: u32) -> u32 {
    if present {
        bit
    } else {
        0
    }
}

fn flag(present: bool, bit: u32) -> (f: u32)
    ensures
        f == bit_if(present, bit),
{
    if present {
        bit
    } else {
        0
    }
}

/// The flags of the fields that a track specification gives.
pub open spec fn track_flags(t: TrackSpec) -> u32 {
    0u32 | bit_if(t.sampling_rate is Some, MXFUSE_TRACK_HAS_SAMPLING_RATE) | bit_if(
        t.channel_count is Some,
        MXFUSE_TRACK_HAS_CHANNEL_COUNT,
    ) | bit_if(t.quantization_bits is Some, MXFUSE_TRACK_HAS_QUANT_BITS) | bit_if(
        t.stored_width is Some,
        MXFUSE_TRACK_HAS_STORED_WIDTH,
    ) | bit_if(t.stored_height is Some, MXFUSE_TRACK_HAS_STORED_HEIGHT) | bit_if(
        t.essence_container_ul is Some,
        MXFUSE_TRACK_HAS_CONTAINER_UL,
    ) | bit_if(t.coding_ul is Some, MXFUSE_TRACK_HAS_CODING_UL) | bit_if(
        t.element_type is Some,
        MXFUSE_TRACK_HAS_ELEMENT_TYPE,
    ) | bit_if(t.element_llen is Some, MXFUSE_TRACK_HAS_ELEMENT_LLEN) | bit_if(
        t.temporal_reordering,
        MXFUSE_TRACK_HAS_TEMPORAL_REORDER,
    ) | bit_if(t.descriptor is Some, MXFUSE_TRACK_HAS_DESCRIPTOR) | bit_if(
        t.component_depth is Some,
        MXFUSE_TRACK_HAS_COMPONENT_DEPTH,
    ) | bit_if(t.subsampling is Some, MXFUSE_TRACK_HAS_SUBSAMPLING) | bit_if(
        t.frame_layout is Some,
        MXFUSE_TRACK_HAS_FRAME_LAYOUT,
    ) | bit_if(t.aspect_ratio is Some, MXFUSE_TRACK_HAS_ASPECT_RATIO) | bit_if(
        t.video_line_map is Some,
        MXFUSE_TRACK_HAS_VIDEO_LINE_MAP,
    ) | bit_if(t.pixel_layout is Some, MXFUSE_TRACK_HAS_PIXEL_LAYOUT) | bit_if(
        t.color_primaries is Some,
        MXFUSE_TRACK_HAS_COLOR_PRIMARIES,
    ) | bit_if(t.transfer_characteristic is Some, MXFUSE_TRACK_HAS_TRANSFER) | bit_if(
        t.coding_equations is Some,
        MXFUSE_TRACK_HAS_CODING_EQ,
    )
}

/// The label a field carries, or zero when it is not given.
pub open spec fn ul_or_zero(ul: Option<[u8; 16]>, field: [u8; 16]) -> bool {
    match ul {
        Some(value) => field == value,
        None => all_zero(field),
    }
}

/// The number of pixel components sent: at most eight.
pub open spec fn pixel_count(layout: Seq<PixelComponent>) -> nat {
    if layout.len() < 8 {
        layout.len()
    } else {
        8
    }
}

/// The shim's pixel layout holds the first components as code/depth pairs, then zeros.
pub open spec fn pixel_layout_holds(layout: Seq<PixelComponent>, count: u8, pairs: [u8; 16]) -> bool {
    &&& count == pixel_count(layout)
    &&& forall|i: int|
        0 <= i < pixel_count(layout) ==> pairs@[2 * i] == layout[i].code && pairs@[2 * i + 1]
            == layout[i].depth
    &&& forall|i: int| 2 * pixel_count(layout) <= i < 16 ==> pairs@[i] == 0
}

/// `c` is what the shim is given for the track specification `t`: the flags of the
/// given fields, each given value, and zero for every field not given.
pub open spec fn encodes_track(c: MxfuseTrackSpec, t: TrackSpec) -> bool {
    &&& c.essence_type == t.essence_type.0
    &&& c.flags == track_flags(t)
    &&& c.sampling_rate == match t.sampling_rate {
        Some(rate) => MxfuseRational { num: rate as i32, den: 1 },
        None => MxfuseRational { num: 0, den: 0 },
    }
    &&& c.channel_count == match t.channel_count {
        Some(v) => v,
        None => 0u32,
    }
    &&& c.quantization_bits == match t.quantization_bits {
        Some(v) => v,
        None => 0u32,
    }
    &&& c.stored_width == match t.stored_width {
        Some(v) => v,
        None => 0u32,
    }
    &&& c.stored_height == match t.stored_height {
        Some(v) => v,
        None => 0u32,
    }
    &&& ul_or_zero(t.essence_container_ul, c.essence_container_ul)
    &&& ul_or_zero(t.coding_ul, c.picture_coding_ul)
    &&& c.element_type == match t.element_type {
        Some(v) => v,
        None => 0u8,
    }
    &&& c.element_llen == match t.element_llen {
        Some(v) => v,
        None => 0u8,
    }
    &&& c.temporal_reordering == if t.temporal_reordering {
        1i32
    } else {
        0i32
    }
    &&& c.descriptor_kind == match t.descriptor {
        Some(kind) => descriptor_code(kind),
        None => 0i32,
    }
    &&& c.component_depth == match t.component_depth {
        Some(v) => v,
        None => 0u32,
    }
    &&& (c.horiz_subsampling, c.vert_subsampling) == match t.subsampling {
        Some(pair) => pair,
        None => (0u32, 0u32),
    }
    &&& c.frame_layout == match t.frame_layout {
        Some(v) => v,
        None => 0u8,
    }
    &&& c.aspect_ratio == match t.aspect_ratio {
        Some(r) => MxfuseRational { num: r.num, den: r.den },
        None => MxfuseRational { num: 0, den: 0 },
    }
    &&& c.video_line_map@ == match t.video_line_map {
        Some((first, second)) => seq![first, second],
        None => seq![0i32, 0i32],
    }
    &&& match t.pixel_layout {
        Some(layout) => pixel_layout_holds(layout@, c.pixel_layout_count, c.pixel_layout),
        None => c.pixel_layout_count == 0 && all_zero(c.pixel_layout),
    }
    &&& ul_or_zero(t.color_primaries, c.color_primaries)
    &&& ul_or_zero(t.transfer_characteristic, c.transfer_characteristic)
    &&& ul_or_zero(t.coding_equations, c.coding_equations)
}

/// What the shim is given for a track carries each field of the track specification
/// in the shim field of the same meaning: a given number or label as it is, a pair
/// in its two halves, and zero where the field is not given.
pub proof fn lemma_encoded_track_fields(c: MxfuseTrackSpec, t: TrackSpec)
    requires
        encodes_track(c, t),
    ensures
        c.essence_type == t.essence_type.0,
        t.sampling_rate matches Some(r) ==> (c.sampling_rate.num == r as i32
            && c.sampling_rate.den == 1),
        t.channel_count matches Some(v) ==> c.channel_count == v,
        t.channel_count is None ==> c.channel_count == 0,
        t.quantization_bits matches Some(v) ==> c.quantization_bits == v,
        t.quantization_bits is None ==> c.quantization_bits == 0,
        t.stored_width matches Some(v) ==> c.stored_width == v,
        t.stored_height matches Some(v) ==> c.stored_height == v,
        t.essence_container_ul matches Some(u) ==> c.essence_container_ul == u,
        t.coding_ul matches Some(u) ==> c.picture_coding_ul == u,
        t.element_type matches Some(v) ==> c.element_type == v,
        t.element_llen matches Some(v) ==> c.element_llen == v,
        t.temporal_reordering <==> c.temporal_reordering == 1,
        t.descriptor matches Some(k) ==> descriptor_of_code(c.descriptor_kind) == k,
        t.component_depth matches Some(v) ==> c.component_depth == v,
        t.subsampling matches Some((h, v)) ==> (c.horiz_subsampling == h && c.vert_subsampling
            == v),
        t.frame_layout matches Some(v) ==> c.frame_layout == v,
        t.aspect_ratio matches Some(r) ==> (c.aspect_ratio.num == r.num && c.aspect_ratio.den
            == r.den),
        t.video_line_map matches Some((first, second)) ==> (c.video_line_map[0] == first
            && c.video_line_map[1] == second),
        t.color_primaries matches Some(u) ==> c.color_primaries == u,
        t.transfer_characteristic matches Some(u) ==> c.transfer_characteristic == u,
        t.coding_equations matches Some(u) ==> c.coding_equations == u,
        t.pixel_layout matches Some(layout) ==> c.pixel_layout_count as int == if layout@.len()
            < 8 {
            layout@.len() as int
        } else {
            8
        },
        t.pixel_layout matches Some(layout) ==> forall|i: int|
            0 <= i < c.pixel_layout_count ==> (c.pixel_layout[2 * i] == layout@[i].code
                && c.pixel_layout[2 * i + 1] == layout@[i].depth),
{
    match t.descriptor {
        Some(k) => lemma_descriptor_code_round_trip(k),
        None => {},
    }
}

fn encode_pixel_layout(layout: &Vec<PixelComponent>) -> (result: (u8, [u8; 16]))
    ensures
        pixel_layout_holds(layout@, result.0, result.1),
{
    let count = if layout.len() < MXFUSE_MAX_PIXEL_COMPONENTS {
        layout.len()
    } else {
        MXFUSE_MAX_PIXEL_COMPONENTS
    };
    let mut pairs = [0u8; 16];
    let mut index: usize = 0;
    while index < count
        invariant
            index <= count,
            count == pixel_count(layout@),
            count <= 8,
            forall|i: int|
                0 <= i < index ==> pairs@[2 * i] == layout@[i].code && pairs@[2 * i + 1]
                    == layout@[i].depth,
            forall|i: int| 2 * index <= i < 16 ==> pairs@[i] == 0,
        decreases count - index,
    {
        let component = layout[index];
        pairs[index * 2] = component.code;
        pairs[index * 2 + 1] = component.depth;
        index = index + 1;
    }
    (count as u8, pairs)
}

fn encode_flags(track: &TrackSpec) -> (flags: u32)
    ensures
        flags == track_flags(*track),
{
    let mut flags: u32 = 0;
    flags = flags | flag(track.sampling_rate.is_some(), MXFUSE_TRACK_HAS_SAMPLING_RATE);
    flags = flags | flag(track.channel_count.is_some(), MXFUSE_TRACK_HAS_CHANNEL_COUNT);
    flags = flags | flag(track.quantization_bits.is_some(), MXFUSE_TRACK_HAS_QUANT_BITS);
    flags = flags | flag(track.stored_width.is_some(), MXFUSE_TRACK_HAS_STORED_WIDTH);
    flags = flags | flag(track.stored_height.is_some(), MXFUSE_TRACK_HAS_STORED_HEIGHT);
    flags = flags | flag(track.essence_container_ul.is_some(), MXFUSE_TRACK_HAS_CONTAINER_UL);
    flags = flags | flag(track.coding_ul.is_some(), MXFUSE_TRACK_HAS_CODING_UL);
    flags = flags | flag(track.element_type.is_some(), MXFUSE_TRACK_HAS_ELEMENT_TYPE);
    flags = flags | flag(track.element_llen.is_some(), MXFUSE_TRACK_HAS_ELEMENT_LLEN);
    flags = flags | flag(track.temporal_reordering, MXFUSE_TRACK_HAS_TEMPORAL_REORDER);
    flags = flags | flag(track.descriptor.is_some(), MXFUSE_TRACK_HAS_DESCRIPTOR);
    flags = flags | flag(track.component_depth.is_some(), MXFUSE_TRACK_HAS_COMPONENT_DEPTH);
    flags = flags | flag(track.subsampling.is_some(), MXFUSE_TRACK_HAS_SUBSAMPLING);
    flags = flags | flag(track.frame_layout.is_some(), MXFUSE_TRACK_HAS_FRAME_LAYOUT);
    flags = flags | flag(track.aspect_ratio.is_some(), MXFUSE_TRACK_HAS_ASPECT_RATIO);
    flags = flags | flag(track.video_line_map.is_some(), MXFUSE_TRACK_HAS_VIDEO_LINE_MAP);
    flags = flags | flag(track.pixel_layout.is_some(), MXFUSE_TRACK_HAS_PIXEL_LAYOUT);
    flags = flags | flag(track.color_primaries.is_some(), MXFUSE_TRACK_HAS_COLOR_PRIMARIES);
    flags = flags | flag(track.transfer_characteristic.is_some(), MXFUSE_TRACK_HAS_TRANSFER);
    flags = flags | flag(track.coding_equations.is_some(), MXFUSE_TRACK_HAS_CODING_EQ);
    flags
}

fn u32_or_zero(value: Option<u32>) -> (v: u32)
    ensures
        v == match value {
            Some(x) => x,
            None => 0u32,
        },
{
    match value {
        Some(x) => x,
        None => 0,
    }
}

fn u8_or_zero(value: Option<u8>) -> (v: u8)
    ensures
        v == match value {
            Some(x) => x,
            None => 0u8,
        },
{
    match value {
        Some(x) => x,
        None => 0,
    }
}

fn label_or_zero(value: Option<[u8; 16]>) -> (field: [u8; 16])
    ensures
        ul_or_zero(value, field),
{
    match value {
        Some(ul) => ul,
        None => [0u8; 16],
    }
}

/// The shim's form of a track specification.
pub fn track_spec_to_c(track: &TrackSpec) -> (spec: MxfuseTrackSpec)
    ensures
        encodes_track(spec, *track),
{
    let (pixel_layout_count, pixel_layout) = match &track.pixel_layout {
        Some(layout) => encode_pixel_layout(layout),
        None => (0u8, [0u8; 16]),
    };
    let (horiz_subsampling, vert_subsampling) = match track.subsampling {
        Some(pair) => pair,
        None => (0u32, 0u32),
    };
    let video_line_map = match track.video_line_map {
        Some((first, second)) => [first, second],
        None => [0i32; 2],
    };
    assert(video_line_map@ == match track.video_line_map {
        Some((first, second)) => seq![first, second],
        None => seq![0i32, 0i32],
    });
    let sampling_rate = match track.sampling_rate {
        Some(rate) => MxfuseRational { num: rate as i32, den: 1 },
        None => MxfuseRational { num: 0, den: 0 },
    };
    MxfuseTrackSpec {
        essence_type: track.essence_type.as_i32(),
        flags: encode_flags(track),
        sampling_rate,
        channel_count: u32_or_zero(track.channel_count),
        quantization_bits: u32_or_zero(track.quantization_bits),
        stored_width: u32_or_zero(track.stored_width),
        stored_height: u32_or_zero(track.stored_height),
        essence_container_ul: label_or_zero(track.essence_container_ul),
        picture_coding_ul: label_or_zero(track.coding_ul),
        element_type: u8_or_zero(track.element_type),
        element_llen: u8_or_zero(track.element_llen),
        temporal_reordering: if track.temporal_reordering {
            1
        } else {
            0
        },
        descriptor_kind: match track.descriptor {
            Some(kind) => kind.as_i32(),
            None => 0,
        },
        component_depth: u32_or_zero(track.component_depth),
        horiz_subsampling,
        vert_subsampling,
        frame_layout: u8_or_zero(track.frame_layout),
        aspect_ratio: match track.aspect_ratio {
            Some(ratio) => MxfuseRational { num: ratio.num, den: ratio.den },
            None => MxfuseRational { num: 0, den: 0 },
        },
        video_line_map,
        pixel_layout_count,
        pixel_layout,
        color_primaries: label_or_zero(track.color_primaries),
        transfer_characteristic: label_or_zero(track.transfer_characteristic),
        coding_equations: label_or_zero(track.coding_equations),
    }
}

/// How many bytes one `WAVE_PCM` sample of a track takes: every channel holds the
/// quantization bits rounded up to whole bytes. Other tracks count zero.
pub open spec fn pcm_sample_bytes(track: TrackSpec) -> int {
    if track.essence_type.0 != WAVE_PCM_CODE {
        0
    } else {
        let channels: int = match track.channel_count {
            Some(c) => c as int,
            None => 1,
        };
        let bits: int = match track.quantization_bits {
            Some(b) => b as int,
            None => 16,
        };
        channels * ((bits + 7) / 8)
    }
}

/// How the bytes per `WAVE_PCM` sample follow from a track: other essence types take
/// none; an unset channel count counts as one channel and unset quantization bits as
/// sixteen.
pub proof fn lemma_pcm_sample_bytes_defaults(track: TrackSpec)
    ensures
        track.essence_type.0 != WAVE_PCM_CODE ==> pcm_sample_bytes(track) == 0,
        track.channel_count is None ==> pcm_sample_bytes(track) == pcm_sample_bytes(
            TrackSpec { channel_count: Some(1u32), ..track },
        ),
        track.quantization_bits is None ==> pcm_sample_bytes(track) == pcm_sample_bytes(
            TrackSpec { quantization_bits: Some(16u32), ..track },
        ),
{
}

/// With the channel count `c` and the quantization bits `b` given, a `WAVE_PCM` sample
/// takes `c` times the fewest whole bytes that hold `b` bits: a multiple of `c` bytes,
/// at least `c * b` bits, and less than a byte per channel more.
pub proof fn lemma_pcm_sample_bytes_given(track: TrackSpec, c: u32, b: u32)
    requires
        track.essence_type.0 == WAVE_PCM_CODE,
        track.channel_count == Some(c),
        track.quantization_bits == Some(b),
    ensures
        c == 0 ==> pcm_sample_bytes(track) == 0,
        c > 0 ==> pcm_sample_bytes(track) % (c as int) == 0,
        8 * pcm_sample_bytes(track) >= c * b,
        c > 0 ==> 8 * pcm_sample_bytes(track) < c * (b + 8),
{
    let k: int = (b + 7) / 8;
    assert(8 * k <= b + 7 && b + 7 < 8 * k + 8);
    assert(pcm_sample_bytes(track) == c * k);
    assert(c == 0 ==> c * k == 0) by (nonlinear_arith);
    if c > 0 {
        vstd::arithmetic::div_mod::lemma_mod_multiples_basic(k, c as int);
        assert(c * k == k * c) by (nonlinear_arith);
    }
    assert(8 * (c * k) >= c * b) by (nonlinear_arith)
        requires
            8 * k >= b,
            c >= 0,
    ;
    assert(c > 0 ==> 8 * (c * k) < c * (b + 8)) by (nonlinear_arith)
        requires
            8 * k < b + 8,
    ;
}

/// The bytes per `WAVE_PCM` sample that a track specification gives; 0 for other
/// tracks. The product must fit in a `u32`.
pub fn pcm_bytes_per_sample(track: &TrackSpec) -> (bytes: u32)
    requires
        pcm_sample_bytes(*track) <= u32::MAX,
    ensures
        bytes == pcm_sample_bytes(*track),
{
    if track.essence_type.0 != WAVE_PCM_CODE {
        return 0;
    }
    let channels = match track.channel_count {
        Some(c) => c,
        None => 1,
    };
    let bits = match track.quantization_bits {
        Some(b) => b,
        None => 16,
    };
    let per_channel = bits / 8 + if bits % 8 != 0 {
        1u32
    } else {
        0u32
    };
    assert(per_channel == (bits + 7) / 8);
    assert(channels * per_channel <= u32::MAX);
    channels * per_channel
}

/// What the writer keeps of each track to size its writes.
#[derive(Clone, Copy, Debug, PartialEq, Eq, Structural)]
pub struct TrackWriteInfo {
    pub essence_type: EssenceType,
    pub bytes_per_sample: u32,
}

/// One call of the shim's sample writer: a buffer of `size` bytes holding
/// `num_samples` samples for the track at `track_index`.
#[derive(Clone, Copy, Debug, PartialEq, Eq, Structural)]
pub struct SampleWrite {
    pub track_index: u32,
    pub size: u32,
    pub num_samples: u32,
}

/// An opened MXF writer's view of its tracks. One writer per thread.
pub struct ClipWriter {
    tracks: Vec<TrackWriteInfo>,
}

impl ClipWriter {
    pub closed spec fn spec_tracks(&self) -> Seq<TrackWriteInfo> {
        self.tracks@
    }

    /// The writer for the given output tracks, in order.
    pub fn new(tracks: &[TrackSpec]) -> (writer: Self)
        requires
            forall|i: int| 0 <= i < tracks@.len() ==> pcm_sample_bytes(#[trigger] tracks@[i]) <= u32::MAX,
        ensures
            writer.spec_tracks().len() == tracks@.len(),
            forall|i: int|
                0 <= i < tracks@.len() ==> #[trigger] writer.spec_tracks()[i] == (TrackWriteInfo {
                    essence_type: tracks@[i].essence_type,
                    bytes_per_sample: pcm_sample_bytes(tracks@[i]) as u32,
                }),
    {
        let mut infos: Vec<TrackWriteInfo> = Vec::new();
        let mut i: usize = 0;
        while i < tracks.len()
            invariant
                i <= tracks@.len(),
                infos@.len() == i,
                forall|k: int| 0 <= k < tracks@.len() ==> pcm_sample_bytes(#[trigger] tracks@[k]) <= u32::MAX,
                forall|k: int|
                    0 <= k < i ==> #[trigger] infos@[k] == (TrackWriteInfo {
                        essence_type: tracks@[k].essence_type,
                        bytes_per_sample: pcm_sample_bytes(tracks@[k]) as u32,
                    }),
            decreases tracks@.len() - i,
        {
            let track = &tracks[i];
            infos.push(
                TrackWriteInfo {
                    essence_type: track.essence_type,
                    bytes_per_sample: pcm_bytes_per_sample(track),
                },
            );
            i = i + 1;
        }
        ClipWriter { tracks: infos }
    }

    /// The shim call that writes one edit unit of essence, `len` bytes, for the track at
    /// `track_index`. Picture and opaque tracks take the buffer as one sample;
    /// `WAVE_PCM` takes it as `len / bytes_per_sample` samples, checked on the length
    /// cut to 32 bits before the length itself is checked.
    pub fn write(&self, track_index: usize, data: &[u8]) -> (result: Result<SampleWrite, Error>)
        ensures
            track_index >= self.spec_tracks().len() ==> (result matches Err(e) && e@
                == "track index out of range"@),
            track_index < self.spec_tracks().len() ==> {
                let info = self.spec_tracks()[track_index as int];
                let len32 = data@.len() as u32;
                let pcm = info.essence_type.0 == WAVE_PCM_CODE;
                if pcm && (info.bytes_per_sample == 0 || len32 % info.bytes_per_sample != 0) {
                    (result matches Err(e) && e@ == "WAVE_PCM payload is not a multiple of sample size"@)
                } else if data@.len() > u32::MAX {
                    (result matches Err(e) && e@ == "payload exceeds u32"@)
                } else {
                    result == Ok::<SampleWrite, Error>(
                        SampleWrite {
                            track_index: track_index as u32,
                            size: data@.len() as u32,
                            num_samples: if pcm {
                                (len32 / info.bytes_per_sample) as u32
                            } else {
                                1
                            },
                        },
                    )
                }
            },
    {
        if track_index >= self.tracks.len() {
            return Err(Error::from_str("track index out of range"));
        }
        let info = self.tracks[track_index];
        let len32 = data.len() as u32;
        let num_samples = if info.essence_type.0 == WAVE_PCM_CODE {
            if info.bytes_per_sample == 0 || len32 % info.bytes_per_sample != 0 {
                return Err(Error::from_str("WAVE_PCM payload is not a multiple of sample size"));
            }
            len32 / info.bytes_per_sample
        } else {
            1
        };
        if data.len() > 0xffff_ffffusize {
            return Err(Error::from_str("payload exceeds u32"));
        }
        Ok(SampleWrite { track_index: track_index as u32, size: len32, num_samples })
    }
}

pub const MXFUSE_CLIP_HAS_START_TIMECODE: u32 = 0x1;
pub const MXFUSE_CLIP_HAS_TIMECODE_TRACK: u32 = 0x2;
pub const MXFUSE_CLIP_HAS_SYSTEM_ITEM: u32 = 0x4;
pub const MXFUSE_CLIP_HAS_COMPANY: u32 = 0x8;
pub const MXFUSE_CLIP_HAS_PRODUCT: u32 = 0x10;
pub const MXFUSE_CLIP_HAS_VERSION_STRING: u32 = 0x20;
pub const MXFUSE_CLIP_HAS_PRODUCT_VERSION: u32 = 0x40;
pub const MXFUSE_CLIP_HAS_PRODUCT_UID: u32 = 0x80;
pub const MXFUSE_CLIP_HAS_CREATION_DATE: u32 = 0x100;
pub const MXFUSE_CLIP_HAS_GENERATION_UID: u32 = 0x200;
pub const MXFUSE_CLIP_HAS_MATERIAL_UID: u32 = 0x400;
pub const MXFUSE_CLIP_HAS_FILE_SOURCE_UID: u32 = 0x800;

/// The size of the shim's company and product name buffers, terminator included.
pub const MXFUSE_NAME_LEN: usize = 256;

/// The size of the shim's version string buffer, terminator included.
pub const MXFUSE_VERSION_LEN: usize = 64;

/// Clip-level writer settings as the shim takes them; a flag marks each one given.
#[derive(Clone, Debug, PartialEq, Eq)]
pub struct MxfuseClipOptions {
    pub flags: u32,
    pub start_timecode: MxfuseTimecode,
    pub timecode_track: i32,
    pub system_item: i32,
    pub company_name: Vec<u8>,
    pub product_name: Vec<u8>,
    pub version_string: Vec<u8>,
    pub product_version: [u16; 5],
    pub product_uid: [u8; 16],
    pub creation_year: i16,
    pub creation_month: u8,
    pub creation_day: u8,
    pub creation_hour: u8,
    pub creation_min: u8,
    pub creation_sec: u8,
    pub creation_qmsec: u8,
    pub generation_uid: [u8; 16],
    pub material_package_uid: [u8; 32],
    pub file_source_package_uid: [u8; 32],
}

/// A zeroed byte sequence.
pub open spec fn zeros(n: nat) -> Seq<u8> {
    Seq::new(n, |i: int| 0u8)
}

/// The UTF-8 bytes of a string.
pub open spec fn utf8_of(text: String) -> Seq<u8> {
    encode_utf8(text@)
}

/// Whether an optional string fits a C buffer of `capacity` bytes with its terminator.
pub open spec fn name_fits(value: Option<String>, capacity: nat) -> bool {
    value matches Some(v) ==> utf8_of(v).len() < capacity
}

/// The message for a string that does not fit its C buffer.
pub open spec fn too_long_message(field: Seq<char>, capacity: nat) -> Seq<char> {
    field + " exceeds "@ + decimal((capacity - 1) as nat) + " bytes"@
}

/// A C buffer of `capacity` bytes that holds `value`, NUL-terminated, or nothing.
pub open spec fn c_buffer_holds(value: Option<String>, buffer: Seq<u8>, capacity: nat) -> bool {
    match value {
        Some(v) => buffer == utf8_of(v) + seq![0u8] + zeros((capacity - utf8_of(v).len() - 1) as nat),
        None => buffer == zeros(capacity),
    }
}

/// Copies `value` and a NUL terminator into the start of `dest`, or fails, leaving
/// `dest` as it was, when they do not fit.
pub fn copy_c_array(dest: &mut Vec<u8>, value: &str, name: &str) -> (result: Result<(), Error>)
    requires
        old(dest)@.len() > 0,
    ensures
        encode_utf8(value@).len() >= old(dest)@.len() ==> final(dest)@ == old(dest)@ && (
        result matches Err(e) && e@ == too_long_message(name@, old(dest)@.len())),
        encode_utf8(value@).len() < old(dest)@.len() ==> result is Ok && final(dest)@ == encode_utf8(value@)
            + seq![0u8] + old(dest)@.skip(encode_utf8(value@).len() + 1int),
{
    let bytes = value.as_bytes();
    if bytes.len() >= dest.len() {
        let mut message = String::from_str(name);
        message.append(" exceeds ");
        push_decimal(&mut message, (dest.len() - 1) as u64);
        message.append(" bytes");
        return Err(Error::new(message));
    }
    let ghost before = dest@;
    let mut index: usize = 0;
    while index < bytes.len()
        invariant
            index <= bytes@.len(),
            bytes@.len() < dest@.len(),
            dest@.len() == before.len(),
            forall|i: int| 0 <= i < index ==> dest@[i] == bytes@[i],
            forall|i: int| index <= i < dest@.len() ==> dest@[i] == before[i],
        decreases bytes@.len() - index,
    {
        dest.set(index, bytes[index]);
        index = index + 1;
    }
    dest.set(bytes.len(), 0u8);
    assert(dest@ =~= encode_utf8(value@) + seq![0u8] + before.skip(encode_utf8(value@).len() + 1int));
    Ok(())
}

/// The flags of the identity fields given.
pub open spec fn identity_flags(id: Identity) -> u32 {
    0u32 | bit_if(id.company_name is Some, MXFUSE_CLIP_HAS_COMPANY) | bit_if(
        id.product_name is Some,
        MXFUSE_CLIP_HAS_PRODUCT,
    ) | bit_if(id.version_string is Some, MXFUSE_CLIP_HAS_VERSION_STRING) | bit_if(
        id.product_version is Some,
        MXFUSE_CLIP_HAS_PRODUCT_VERSION,
    ) | bit_if(id.product_uid is Some, MXFUSE_CLIP_HAS_PRODUCT_UID) | bit_if(
        id.creation_date is Some,
        MXFUSE_CLIP_HAS_CREATION_DATE,
    ) | bit_if(id.generation_uid is Some, MXFUSE_CLIP_HAS_GENERATION_UID) | bit_if(
        id.material_package_uid is Some,
        MXFUSE_CLIP_HAS_MATERIAL_UID,
    ) | bit_if(id.file_source_package_uid is Some, MXFUSE_CLIP_HAS_FILE_SOURCE_UID)
}

/// The flags of the clip-level settings given. The timecode track setting is always
/// passed on.
pub open spec fn clip_flags(spec: ClipSpec) -> u32 {
    let base = 0u32 | bit_if(spec.start_timecode is Some, MXFUSE_CLIP_HAS_START_TIMECODE)
        | MXFUSE_CLIP_HAS_TIMECODE_TRACK | bit_if(spec.system_item, MXFUSE_CLIP_HAS_SYSTEM_ITEM);
    match spec.identity {
        Some(id) => base | identity_flags(id),
        None => base,
    }
}

/// The error, if any, that an identity's names give: the first name, in the order
/// company, product, version, that does not fit its buffer.
pub open spec fn identity_error(id: Identity) -> Option<Seq<char>> {
    if !name_fits(id.company_name, MXFUSE_NAME_LEN as nat) {
        Some(too_long_message("company_name"@, MXFUSE_NAME_LEN as nat))
    } else if !name_fits(id.product_name, MXFUSE_NAME_LEN as nat) {
        Some(too_long_message("product_name"@, MXFUSE_NAME_LEN as nat))
    } else if !name_fits(id.version_string, MXFUSE_VERSION_LEN as nat) {
        Some(too_long_message("version_string"@, MXFUSE_VERSION_LEN as nat))
    } else {
        None
    }
}

/// A 32-byte identifier, or zero when it is not given.
pub open spec fn umid_or_zero(uid: Option<[u8; 32]>, field: [u8; 32]) -> bool {
    match uid {
        Some(value) => field == value,
        None => all_zero(field),
    }
}

/// The identity part of the clip options holds `id`'s fields, zero where not given.
pub open spec fn identity_holds(o: MxfuseClipOptions, id: Identity) -> bool {
    &&& c_buffer_holds(id.company_name, o.company_name@, MXFUSE_NAME_LEN as nat)
    &&& c_buffer_holds(id.product_name, o.product_name@, MXFUSE_NAME_LEN as nat)
    &&& c_buffer_holds(id.version_string, o.version_string@, MXFUSE_VERSION_LEN as nat)
    &&& o.product_version@ == match id.product_version {
        Some((a, b, c, d, e)) => seq![a, b, c, d, e],
        None => seq![0u16, 0u16, 0u16, 0u16, 0u16],
    }
    &&& ul_or_zero(id.product_uid, o.product_uid)
    &&& match id.creation_date {
        Some((year, month, day, hour, min, sec, qmsec)) => {
            &&& o.creation_year == year
            &&& o.creation_month == month
            &&& o.creation_day == day
            &&& o.creation_hour == hour
            &&& o.creation_min == min
            &&& o.creation_sec == sec
            &&& o.creation_qmsec == qmsec
        },
        None => {
            &&& o.creation_year == 0
            &&& o.creation_month == 0
            &&& o.creation_day == 0
            &&& o.creation_hour == 0
            &&& o.creation_min == 0
            &&& o.creation_sec == 0
            &&& o.creation_qmsec == 0
        },
    }
    &&& ul_or_zero(id.generation_uid, o.generation_uid)
    &&& umid_or_zero(id.material_package_uid, o.material_package_uid)
    &&& umid_or_zero(id.file_source_package_uid, o.file_source_package_uid)
}

/// The identity that sets nothing.
pub open spec fn no_identity() -> Identity {
    Identity {
        company_name: None,
        product_name: None,
        version_string: None,
        product_version: None,
        product_uid: None,
        creation_date: None,
        generation_uid: None,
        material_package_uid: None,
        file_source_package_uid: None,
    }
}

/// The clip options describe `spec`: its flags, its start timecode (zero when not
/// given), its timecode track and system item settings, and its identity.
pub open spec fn options_describe(o: MxfuseClipOptions, spec: ClipSpec) -> bool {
    &&& o.flags == clip_flags(spec)
    &&& o.start_timecode == match spec.start_timecode {
        Some(tc) => MxfuseTimecode {
            hour: tc.hour,
            minute: tc.minute,
            second: tc.second,
            frame: tc.frame,
            drop_frame: if tc.drop_frame {
                1i32
            } else {
                0i32
            },
        },
        None => MxfuseTimecode { hour: 0, minute: 0, second: 0, frame: 0, drop_frame: 0 },
    }
    &&& o.timecode_track == if spec.timecode_track {
        1i32
    } else {
        0i32
    }
    &&& o.system_item == if spec.system_item {
        1i32
    } else {
        0i32
    }
    &&& identity_holds(
        o,
        match spec.identity {
            Some(id) => id,
            None => no_identity(),
        },
    )
}

fn zeroed_buffer(len: usize) -> (buffer: Vec<u8>)
    ensures
        buffer@ == zeros(len as nat),
{
    let mut buffer: Vec<u8> = Vec::new();
    let mut i: usize = 0;
    while i < len
        invariant
            i <= len,
            buffer@ == zeros(i as nat),
        decreases len - i,
    {
        buffer.push(0u8);
        i = i + 1;
        proof {
            assert(buffer@ =~= zeros(i as nat));
        }
    }
    buffer
}

impl MxfuseClipOptions {
    /// Options with nothing set, and empty name buffers of the shim's sizes.
    pub fn new() -> (options: Self)
        ensures
            options.flags == 0,
            identity_holds(options, no_identity()),
            options.start_timecode == (MxfuseTimecode {
                hour: 0,
                minute: 0,
                second: 0,
                frame: 0,
                drop_frame: 0,
            }),
            options.timecode_track == 0,
            options.system_item == 0,
    {
        let options = MxfuseClipOptions {
            flags: 0,
            start_timecode: MxfuseTimecode { hour: 0, minute: 0, second: 0, frame: 0, drop_frame: 0 },
            timecode_track: 0,
            system_item: 0,
            company_name: zeroed_buffer(MXFUSE_NAME_LEN),
            product_name: zeroed_buffer(MXFUSE_NAME_LEN),
            version_string: zeroed_buffer(MXFUSE_VERSION_LEN),
            product_version: [0u16; 5],
            product_uid: [0u8; 16],
            creation_year: 0,
            creation_month: 0,
            creation_day: 0,
            creation_hour: 0,
            creation_min: 0,
            creation_sec: 0,
            creation_qmsec: 0,
            generation_uid: [0u8; 16],
            material_package_uid: [0u8; 32],
            file_source_package_uid: [0u8; 32],
        };
        assert(options.product_version@ == seq![0u16, 0u16, 0u16, 0u16, 0u16]);
        assert(all_zero(options.product_uid));
        assert(all_zero(options.material_package_uid));
        options
    }
}

fn identity_flag_bits(identity: &Identity) -> (flags: u32)
    ensures
        flags == identity_flags(*identity),
{
    let mut flags: u32 = 0;
    flags = flags | flag(identity.company_name.is_some(), MXFUSE_CLIP_HAS_COMPANY);
    flags = flags | flag(identity.product_name.is_some(), MXFUSE_CLIP_HAS_PRODUCT);
    flags = flags | flag(identity.version_string.is_some(), MXFUSE_CLIP_HAS_VERSION_STRING);
    flags = flags | flag(identity.product_version.is_some(), MXFUSE_CLIP_HAS_PRODUCT_VERSION);
    flags = flags | flag(identity.product_uid.is_some(), MXFUSE_CLIP_HAS_PRODUCT_UID);
    flags = flags | flag(identity.creation_date.is_some(), MXFUSE_CLIP_HAS_CREATION_DATE);
    flags = flags | flag(identity.generation_uid.is_some(), MXFUSE_CLIP_HAS_GENERATION_UID);
    flags = flags | flag(identity.material_package_uid.is_some(), MXFUSE_CLIP_HAS_MATERIAL_UID);
    flags = flags | flag(
        identity.file_source_package_uid.is_some(),
        MXFUSE_CLIP_HAS_FILE_SOURCE_UID,
    );
    flags
}

/// `after` is the buffer `before` with `value`, if given, and a NUL terminator copied
/// to its start; the rest of it is kept.
pub open spec fn name_written(value: Option<String>, before: Seq<u8>, after: Seq<u8>) -> bool {
    match value {
        Some(v) => after == utf8_of(v) + seq![0u8] + before.skip(utf8_of(v).len() + 1int),
        None => after == before,
    }
}

/// `after` is the clip options `before` with the identity `id` applied: its flags
/// OR-ed in, each given field set, and everything else kept.
pub open spec fn identity_applied(
    before: MxfuseClipOptions,
    after: MxfuseClipOptions,
    id: Identity,
) -> bool {
    &&& after.flags == (before.flags | identity_flags(id))
    &&& after.start_timecode == before.start_timecode
    &&& after.timecode_track == before.timecode_track
    &&& after.system_item == before.system_item
    &&& name_written(id.company_name, before.company_name@, after.company_name@)
    &&& name_written(id.product_name, before.product_name@, after.product_name@)
    &&& name_written(id.version_string, before.version_string@, after.version_string@)
    &&& after.product_version@ == match id.product_version {
        Some((a, b, c, d, e)) => seq![a, b, c, d, e],
        None => before.product_version@,
    }
    &&& after.product_uid == match id.product_uid {
        Some(u) => u,
        None => before.product_uid,
    }
    &&& match id.creation_date {
        Some((year, month, day, hour, min, sec, qmsec)) => {
            &&& after.creation_year == year
            &&& after.creation_month == month
            &&& after.creation_day == day
            &&& after.creation_hour == hour
            &&& after.creation_min == min
            &&& after.creation_sec == sec
            &&& after.creation_qmsec == qmsec
        },
        None => {
            &&& after.creation_year == before.creation_year
            &&& after.creation_month == before.creation_month
            &&& after.creation_day == before.creation_day
            &&& after.creation_hour == before.creation_hour
            &&& after.creation_min == before.creation_min
            &&& after.creation_sec == before.creation_sec
            &&& after.creation_qmsec == before.creation_qmsec
        },
    }
    &&& after.generation_uid == match id.generation_uid {
        Some(u) => u,
        None => before.generation_uid,
    }
    &&& after.material_package_uid == match id.material_package_uid {
        Some(u) => u,
        None => before.material_package_uid,
    }
    &&& after.file_source_package_uid == match id.file_source_package_uid {
        Some(u) => u,
        None => before.file_source_package_uid,
    }
}

/// Applied to options that hold no identity, an identity whose names fit leaves the
/// options holding exactly that identity.
pub proof fn lemma_identity_applied_to_fresh(
    before: MxfuseClipOptions,
    after: MxfuseClipOptions,
    id: Identity,
)
    requires
        identity_holds(before, no_identity()),
        identity_applied(before, after, id),
        identity_error(id) is None,
    ensures
        identity_holds(after, id),
{
    lemma_name_on_zeros(id.company_name, before.company_name@, after.company_name@, MXFUSE_NAME_LEN as nat);
    lemma_name_on_zeros(id.product_name, before.product_name@, after.product_name@, MXFUSE_NAME_LEN as nat);
    lemma_name_on_zeros(
        id.version_string,
        before.version_string@,
        after.version_string@,
        MXFUSE_VERSION_LEN as nat,
    );
}

/// A pinned identity lands field by field in the options it is applied to: the
/// creation date's year, month, day, hour, minute, second and quarter
/// millisecond go to the fields of those names in that order, each number of the
/// product version to its own place, each UID to its own field; what the identity
/// leaves unset keeps its earlier value.
pub proof fn lemma_identity_applied_fields(
    before: MxfuseClipOptions,
    after: MxfuseClipOptions,
    id: Identity,
)
    requires
        identity_applied(before, after, id),
    ensures
        id.creation_date matches Some(d) ==> (after.creation_year == d.0 && after.creation_month
            == d.1 && after.creation_day == d.2 && after.creation_hour == d.3 && after.creation_min
            == d.4 && after.creation_sec == d.5 && after.creation_qmsec == d.6),
        id.creation_date is None ==> (after.creation_year == before.creation_year
            && after.creation_month == before.creation_month && after.creation_day
            == before.creation_day && after.creation_hour == before.creation_hour
            && after.creation_min == before.creation_min && after.creation_sec
            == before.creation_sec && after.creation_qmsec == before.creation_qmsec),
        id.product_version matches Some(v) ==> (after.product_version@.len() == 5
            && after.product_version@[0] == v.0 && after.product_version@[1] == v.1
            && after.product_version@[2] == v.2 && after.product_version@[3] == v.3
            && after.product_version@[4] == v.4),
        id.product_uid matches Some(u) ==> after.product_uid == u,
        id.generation_uid matches Some(u) ==> after.generation_uid == u,
        id.material_package_uid matches Some(u) ==> after.material_package_uid == u,
        id.file_source_package_uid matches Some(u) ==> after.file_source_package_uid == u,
        after.start_timecode == before.start_timecode,
        after.timecode_track == before.timecode_track,
        after.system_item == before.system_item,
{
}

/// Options that hold an identity hold its creation date field by field (year,
/// month, day, hour, minute, second, quarter millisecond, in that order) and
/// each number of its product version in its own place; an unset date is all
/// zeros.
pub proof fn lemma_identity_holds_fields(o: MxfuseClipOptions, id: Identity)
    requires
        identity_holds(o, id),
    ensures
        id.creation_date matches Some(d) ==> (o.creation_year == d.0 && o.creation_month == d.1
            && o.creation_day == d.2 && o.creation_hour == d.3 && o.creation_min == d.4
            && o.creation_sec == d.5 && o.creation_qmsec == d.6),
        id.creation_date is None ==> (o.creation_year == 0 && o.creation_month == 0
            && o.creation_day == 0 && o.creation_hour == 0 && o.creation_min == 0
            && o.creation_sec == 0 && o.creation_qmsec == 0),
        id.product_version matches Some(v) ==> (o.product_version@.len() == 5
            && o.product_version@[0] == v.0 && o.product_version@[1] == v.1
            && o.product_version@[2] == v.2 && o.product_version@[3] == v.3
            && o.product_version@[4] == v.4),
{
}

proof fn lemma_name_on_zeros(value: Option<String>, before: Seq<u8>, after: Seq<u8>, capacity: nat)
    requires
        before == zeros(capacity),
        name_written(value, before, after),
        name_fits(value, capacity),
    ensures
        c_buffer_holds(value, after, capacity),
{
    match value {
        Some(v) => {
            assert(before.skip(utf8_of(v).len() + 1int) =~= zeros(
                (capacity - utf8_of(v).len() - 1) as nat,
            ));
        },
        None => {},
    }
}

fn copy_name(dest: &mut Vec<u8>, value: &Option<String>, name: &str) -> (result: Result<(), Error>)
    requires
        old(dest)@.len() > 0,
    ensures
        name_fits(*value, old(dest)@.len()) ==> result is Ok && name_written(
            *value,
            old(dest)@,
            final(dest)@,
        ),
        !name_fits(*value, old(dest)@.len()) ==> (result matches Err(e) && e@ == too_long_message(
            name@,
            old(dest)@.len(),
        )),
{
    match value {
        Some(text) => copy_c_array(dest, text.as_str(), name),
        None => Ok(()),
    }
}

/// Sets the identity fields of the clip options, whose name buffers have the shim's
/// sizes. Names that do not fit their buffers fail, the first in the order company,
/// product, version.
pub fn apply_identity(options: &mut MxfuseClipOptions, identity: &Identity) -> (result: Result<
    (),
    Error,
>)
    requires
        old(options).company_name@.len() == MXFUSE_NAME_LEN,
        old(options).product_name@.len() == MXFUSE_NAME_LEN,
        old(options).version_string@.len() == MXFUSE_VERSION_LEN,
    ensures
        identity_error(*identity) matches Some(message) ==> (result matches Err(e) && e@
            == message),
        identity_error(*identity) is None ==> result is Ok && identity_applied(
            *old(options),
            *final(options),
            *identity,
        ),
{
    proof {
        reveal_strlit("company_name");
        reveal_strlit("product_name");
        reveal_strlit("version_string");
    }
    copy_name(&mut options.company_name, &identity.company_name, "company_name")?;
    copy_name(&mut options.product_name, &identity.product_name, "product_name")?;
    copy_name(&mut options.version_string, &identity.version_string, "version_string")?;
    if let Some(version) = identity.product_version {
        options.product_version = [version.0, version.1, version.2, version.3, version.4];
    }
    if let Some(uid) = identity.product_uid {
        options.product_uid = uid;
    }
    if let Some(date) = identity.creation_date {
        options.creation_year = date.0;
        options.creation_month = date.1;
        options.creation_day = date.2;
        options.creation_hour = date.3;
        options.creation_min = date.4;
        options.creation_sec = date.5;
        options.creation_qmsec = date.6;
    }
    if let Some(uid) = identity.generation_uid {
        options.generation_uid = uid;
    }
    if let Some(uid) = identity.material_package_uid {
        options.material_package_uid = uid;
    }
    if let Some(uid) = identity.file_source_package_uid {
        options.file_source_package_uid = uid;
    }
    options.flags = options.flags | identity_flag_bits(identity);
    Ok(())
}

/// The clip-level settings the shim is configured with for `spec`.
pub fn clip_options(spec: &ClipSpec) -> (result: Result<MxfuseClipOptions, Error>)
    ensures
        (spec.identity matches Some(id) && identity_error(id) is Some) ==> (result matches Err(e)
            && Some(e@) == identity_error(spec.identity->0)),
        !(spec.identity matches Some(id) && identity_error(id) is Some) ==> (result matches Ok(o)
            && options_describe(o, *spec)),
{
    let mut options = MxfuseClipOptions::new();
    if let Some(timecode) = spec.start_timecode {
        options.start_timecode = MxfuseTimecode {
            hour: timecode.hour,
            minute: timecode.minute,
            second: timecode.second,
            frame: timecode.frame,
            drop_frame: if timecode.drop_frame {
                1
            } else {
                0
            },
        };
    }
    options.timecode_track = if spec.timecode_track {
        1
    } else {
        0
    };
    if spec.system_item {
        options.system_item = 1;
    }
    options.flags = 0u32 | flag(spec.start_timecode.is_some(), MXFUSE_CLIP_HAS_START_TIMECODE)
        | MXFUSE_CLIP_HAS_TIMECODE_TRACK | flag(spec.system_item, MXFUSE_CLIP_HAS_SYSTEM_ITEM);
    if let Some(identity) = &spec.identity {
        let ghost fresh = options;
        match apply_identity(&mut options, identity) {
            Ok(()) => {
                proof {
                    lemma_identity_applied_to_fresh(fresh, options, *identity);
                }
            },
            Err(e) => return Err(e),
        }
    }
    Ok(options)
}

/// Whether a string's UTF-8 bytes hold a NUL.
pub open spec fn has_nul(text: String) -> bool {
    exists|i: int| 0 <= i < utf8_of(text).len() && utf8_of(text)[i] == 0
}

fn contains_nul(text: &String) -> (found: bool)
    ensures
        found == has_nul(*text),
{
    let bytes = text.as_str().as_bytes();
    let mut i: usize = 0;
    while i < bytes.len()
        invariant
            i <= bytes@.len(),
            bytes@ == utf8_of(*text),
            forall|j: int| 0 <= j < i ==> bytes@[j] != 0,
        decreases bytes@.len() - i,
    {
        if bytes[i] == 0 {
            return true;
        }
        i = i + 1;
    }
    false
}

/// Checks a clip-level XML item before it is handed to the shim and gives the
/// payload size. The payload must be non-empty and fit a `u32`; the language and
/// namespace become C strings, so they must hold no NUL.
pub fn validate_xml(item: &XmlMetadata) -> (result: Result<u32, Error>)
    ensures
        item.data@.len() == 0 ==> (result matches Err(e) && e@ == "xml payload must not be empty"@),
        item.data@.len() > 0 && item.data@.len() > u32::MAX ==> (result matches Err(e) && e@
            == "xml payload exceeds u32"@),
        0 < item.data@.len() <= u32::MAX && (item.language matches Some(v) && has_nul(v)) ==> (
        result matches Err(e) && e@ == "xml language contains NUL"@),
        0 < item.data@.len() <= u32::MAX && !(item.language matches Some(v) && has_nul(v)) && (
        item.namespace matches Some(v) && has_nul(v)) ==> (result matches Err(e) && e@
            == "xml namespace contains NUL"@),
        0 < item.data@.len() <= u32::MAX && !(item.language matches Some(v) && has_nul(v)) && !(
        item.namespace matches Some(v) && has_nul(v)) ==> result == Ok::<u32, Error>(
            item.data@.len() as u32,
        ),
{
    if item.data.len() == 0 {
        return Err(Error::from_str("xml payload must not be empty"));
    }
    if item.data.len() > 0xffff_ffffusize {
        return Err(Error::from_str("xml payload exceeds u32"));
    }
    if let Some(language) = &item.language {
        if contains_nul(language) {
            return Err(Error::from_str("xml language contains NUL"));
        }
    }
    if let Some(namespace) = &item.namespace {
        if contains_nul(namespace) {
            return Err(Error::from_str("xml namespace contains NUL"));
        }
    }
    Ok(item.data.len() as u32)
}

/// What the shim's writer is opened with.
#[derive(Clone, Copy, Debug, PartialEq, Eq, Structural)]
pub struct WriterOpen {
    pub flavour: i32,
    pub edit_rate: MxfuseRational,
    pub duration: i64,
}

/// The arguments that open the shim's writer for `spec`; an unknown duration is -1.
/// A clip needs at least one track.
pub fn writer_open(spec: &ClipSpec) -> (result: Result<WriterOpen, Error>)
    ensures
        spec.tracks@.len() == 0 ==> (result matches Err(e) && e@
            == "ClipSpec.tracks must not be empty"@),
        spec.tracks@.len() > 0 ==> result == Ok::<WriterOpen, Error>(
            WriterOpen {
                flavour: spec.flavour.0,
                edit_rate: MxfuseRational { num: spec.edit_rate.num, den: spec.edit_rate.den },
                duration: match spec.duration {
                    Some(d) => d,
                    None => -1i64,
                },
            },
        ),
{
    if spec.tracks.len() == 0 {
        return Err(Error::from_str("ClipSpec.tracks must not be empty"));
    }
    Ok(
        WriterOpen {
            flavour: spec.flavour.0,
            edit_rate: MxfuseRational { num: spec.edit_rate.num, den: spec.edit_rate.den },
            duration: match spec.duration {
                Some(d) => d,
                None => -1,
            },
        },
    )
}

/// Whether the bytes per `WAVE_PCM` sample of a track fit a `u32`; a track for which
/// they do not cannot be written.
pub fn pcm_sample_bytes_fit(track: &TrackSpec) -> (fits: bool)
    ensures
        fits == (pcm_sample_bytes(*track) <= u32::MAX),
{
    if track.essence_type.0 != WAVE_PCM_CODE {
        return true;
    }
    let channels: u64 = match track.channel_count {
        Some(c) => c as u64,
        None => 1,
    };
    let bits: u64 = match track.quantization_bits {
        Some(b) => b as u64,
        None => 16,
    };
    let per_channel: u64 = (bits + 7) / 8;
    assert(channels * per_channel <= 0xffff_ffff_u64 * 0x2000_0000_u64) by (nonlinear_arith)
        requires
            channels <= 0xffff_ffff,
            per_channel <= 0x2000_0000,
    ;
    channels * per_channel <= 0xffff_ffff
}

/// `info` reports back the fields that `c` gave: what a file written from `c` and
/// opened again describes.
pub open spec fn info_carries(info: MxfuseTrackInfo, c: MxfuseTrackSpec) -> bool {
    &&& info.essence_type == c.essence_type
    &&& info.essence_container_ul == c.essence_container_ul
    &&& info.coding_ul == c.picture_coding_ul
    &&& info.descriptor_kind == c.descriptor_kind
    &&& info.stored_width == c.stored_width
    &&& info.stored_height == c.stored_height
    &&& info.component_depth == c.component_depth
    &&& info.horiz_subsampling == c.horiz_subsampling
    &&& info.vert_subsampling == c.vert_subsampling
    &&& info.frame_layout == c.frame_layout
    &&& info.aspect_ratio == c.aspect_ratio
    &&& info.video_line_map == c.video_line_map
    &&& info.pixel_layout_count == c.pixel_layout_count
    &&& info.pixel_layout == c.pixel_layout
    &&& info.color_primaries == c.color_primaries
    &&& info.transfer_characteristic == c.transfer_characteristic
    &&& info.coding_equations == c.coding_equations
    &&& info.channel_count == c.channel_count
    &&& info.quantization_bits == c.quantization_bits
}

/// A given dimension as read back: zero reads as absent.
pub open spec fn dim_read_back(value: Option<u32>) -> Option<u32> {
    match value {
        Some(v) => dim_value(v),
        None => None,
    }
}

/// A given label as read back: all zero reads as absent.
pub open spec fn ul_read_back(value: Option<[u8; 16]>) -> Option<[u8; 16]> {
    match value {
        Some(v) => ul_value(v),
        None => None,
    }
}

/// A given pair as read back: a pair of zeros reads as absent.
pub open spec fn pair_read_back<T>(value: Option<(T, T)>, zero: T) -> Option<(T, T)> {
    match value {
        Some(p) => if p.0 == zero && p.1 == zero {
            None
        } else {
            Some(p)
        },
        None => None,
    }
}

/// Writing a track specification and reading the track back gives the specification's
/// mapping again: the essence type, the container and coding labels, the descriptor
/// class and every descriptor field. What is lost is what the shim's zero stands for:
/// a value given as zero reads back as absent, an absent descriptor class reads back
/// as `Default`, and only the first eight pixel components travel.
pub proof fn lemma_track_round_trip(
    t: TrackSpec,
    c: MxfuseTrackSpec,
    info: MxfuseTrackInfo,
    track: Track,
)
    requires
        encodes_track(c, t),
        info_carries(info, c),
        track_describes(track, info),
    ensures
        track.essence_type == t.essence_type,
        ul_or_zero(t.essence_container_ul, track.essence_container_ul),
        track.coding_ul == ul_read_back(t.coding_ul),
        track.descriptor == match t.descriptor {
            Some(kind) => kind,
            None => DescriptorKind::Default,
        },
        track.stored_width == dim_read_back(t.stored_width),
        track.stored_height == dim_read_back(t.stored_height),
        track.component_depth == dim_read_back(t.component_depth),
        track.subsampling == pair_read_back(t.subsampling, 0u32),
        track.frame_layout == if dim_read_back(t.stored_width) is None && dim_read_back(
            t.stored_height,
        ) is None {
            None::<u8>
        } else {
            Some(
                match t.frame_layout {
                    Some(v) => v,
                    None => 0u8,
                },
            )
        },
        track.aspect_ratio == match t.aspect_ratio {
            Some(r) => if r.num == 0 {
                None::<Rational>
            } else {
                Some(r)
            },
            None => None,
        },
        track.video_line_map == pair_read_back(t.video_line_map, 0i32),
        track.pixel_layout@ == match t.pixel_layout {
            Some(layout) => layout@.take(pixel_count(layout@) as int),
            None => Seq::<PixelComponent>::empty(),
        },
        track.color_primaries == ul_read_back(t.color_primaries),
        track.transfer_characteristic == ul_read_back(t.transfer_characteristic),
        track.coding_equations == ul_read_back(t.coding_equations),
        track.channel_count == dim_read_back(t.channel_count),
        track.quantization_bits == dim_read_back(t.quantization_bits),
{
    if let Some(kind) = t.descriptor {
        lemma_descriptor_code_round_trip(kind);
    }
    assert(info.video_line_map@ == c.video_line_map@);
    match t.pixel_layout {
        Some(layout) => {
            assert(pixel_layout_of(info) =~= layout@.take(pixel_count(layout@) as int));
        },
        None => {
            assert(pixel_layout_of(info) =~= Seq::<PixelComponent>::empty());
        },
    }
}

} // verus!
