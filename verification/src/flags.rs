//! The flags that tell the shim which fields of a track specification are given.
use vstd::prelude::*;

use crate::types::TrackSpec;
use crate::writer::{
    track_flags, MXFUSE_TRACK_HAS_ASPECT_RATIO, MXFUSE_TRACK_HAS_CHANNEL_COUNT,
    MXFUSE_TRACK_HAS_CODING_EQ, MXFUSE_TRACK_HAS_CODING_UL, MXFUSE_TRACK_HAS_COLOR_PRIMARIES,
    MXFUSE_TRACK_HAS_COMPONENT_DEPTH, MXFUSE_TRACK_HAS_CONTAINER_UL, MXFUSE_TRACK_HAS_DESCRIPTOR,
    MXFUSE_TRACK_HAS_ELEMENT_LLEN, MXFUSE_TRACK_HAS_ELEMENT_TYPE, MXFUSE_TRACK_HAS_FRAME_LAYOUT,
    MXFUSE_TRACK_HAS_PIXEL_LAYOUT, MXFUSE_TRACK_HAS_QUANT_BITS, MXFUSE_TRACK_HAS_SAMPLING_RATE,
    MXFUSE_TRACK_HAS_STORED_HEIGHT, MXFUSE_TRACK_HAS_STORED_WIDTH, MXFUSE_TRACK_HAS_SUBSAMPLING,
    MXFUSE_TRACK_HAS_TEMPORAL_REORDER, MXFUSE_TRACK_HAS_TRANSFER, MXFUSE_TRACK_HAS_VIDEO_LINE_MAP,
};

verus! {

/// The flags that describe a track to the shim set, for each field of the track
/// specification, that field's own bit exactly when the field is given, and no other
/// bit.
pub proof fn lemma_track_flags(t: TrackSpec)
    ensures
        (track_flags(t) & MXFUSE_TRACK_HAS_SAMPLING_RATE == MXFUSE_TRACK_HAS_SAMPLING_RATE) <==> t.sampling_rate is Some,
        (track_flags(t) & MXFUSE_TRACK_HAS_CHANNEL_COUNT == MXFUSE_TRACK_HAS_CHANNEL_COUNT) <==> t.channel_count is Some,
        (track_flags(t) & MXFUSE_TRACK_HAS_QUANT_BITS == MXFUSE_TRACK_HAS_QUANT_BITS) <==> t.quantization_bits is Some,
        (track_flags(t) & MXFUSE_TRACK_HAS_STORED_WIDTH == MXFUSE_TRACK_HAS_STORED_WIDTH) <==> t.stored_width is Some,
        (track_flags(t) & MXFUSE_TRACK_HAS_STORED_HEIGHT == MXFUSE_TRACK_HAS_STORED_HEIGHT) <==> t.stored_height is Some,
        (track_flags(t) & MXFUSE_TRACK_HAS_CONTAINER_UL == MXFUSE_TRACK_HAS_CONTAINER_UL) <==> t.essence_container_ul is Some,
        (track_flags(t) & MXFUSE_TRACK_HAS_CODING_UL == MXFUSE_TRACK_HAS_CODING_UL) <==> t.coding_ul is Some,
        (track_flags(t) & MXFUSE_TRACK_HAS_ELEMENT_TYPE == MXFUSE_TRACK_HAS_ELEMENT_TYPE) <==> t.element_type is Some,
        (track_flags(t) & MXFUSE_TRACK_HAS_ELEMENT_LLEN == MXFUSE_TRACK_HAS_ELEMENT_LLEN) <==> t.element_llen is Some,
        (track_flags(t) & MXFUSE_TRACK_HAS_TEMPORAL_REORDER == MXFUSE_TRACK_HAS_TEMPORAL_REORDER) <==> t.temporal_reordering,
        (track_flags(t) & MXFUSE_TRACK_HAS_DESCRIPTOR == MXFUSE_TRACK_HAS_DESCRIPTOR) <==> t.descriptor is Some,
        (track_flags(t) & MXFUSE_TRACK_HAS_COMPONENT_DEPTH == MXFUSE_TRACK_HAS_COMPONENT_DEPTH) <==> t.component_depth is Some,
        (track_flags(t) & MXFUSE_TRACK_HAS_SUBSAMPLING == MXFUSE_TRACK_HAS_SUBSAMPLING) <==> t.subsampling is Some,
        (track_flags(t) & MXFUSE_TRACK_HAS_FRAME_LAYOUT == MXFUSE_TRACK_HAS_FRAME_LAYOUT) <==> t.frame_layout is Some,
        (track_flags(t) & MXFUSE_TRACK_HAS_ASPECT_RATIO == MXFUSE_TRACK_HAS_ASPECT_RATIO) <==> t.aspect_ratio is Some,
        (track_flags(t) & MXFUSE_TRACK_HAS_VIDEO_LINE_MAP == MXFUSE_TRACK_HAS_VIDEO_LINE_MAP) <==> t.video_line_map is Some,
        (track_flags(t) & MXFUSE_TRACK_HAS_PIXEL_LAYOUT == MXFUSE_TRACK_HAS_PIXEL_LAYOUT) <==> t.pixel_layout is Some,
        (track_flags(t) & MXFUSE_TRACK_HAS_COLOR_PRIMARIES == MXFUSE_TRACK_HAS_COLOR_PRIMARIES) <==> t.color_primaries is Some,
        (track_flags(t) & MXFUSE_TRACK_HAS_TRANSFER == MXFUSE_TRACK_HAS_TRANSFER) <==> t.transfer_characteristic is Some,
        (track_flags(t) & MXFUSE_TRACK_HAS_CODING_EQ == MXFUSE_TRACK_HAS_CODING_EQ) <==> t.coding_equations is Some,
        track_flags(t) & 0xfff0_0000u32 == 0u32,
{
    assert(MXFUSE_TRACK_HAS_SAMPLING_RATE == 0x1u32);
    assert(MXFUSE_TRACK_HAS_CHANNEL_COUNT == 0x2u32);
    assert(MXFUSE_TRACK_HAS_QUANT_BITS == 0x4u32);
    assert(MXFUSE_TRACK_HAS_STORED_WIDTH == 0x8u32);
    assert(MXFUSE_TRACK_HAS_STORED_HEIGHT == 0x10u32);
    assert(MXFUSE_TRACK_HAS_CONTAINER_UL == 0x20u32);
    assert(MXFUSE_TRACK_HAS_CODING_UL == 0x40u32);
    assert(MXFUSE_TRACK_HAS_ELEMENT_TYPE == 0x80u32);
    assert(MXFUSE_TRACK_HAS_ELEMENT_LLEN == 0x100u32);
    assert(MXFUSE_TRACK_HAS_TEMPORAL_REORDER == 0x200u32);
    assert(MXFUSE_TRACK_HAS_DESCRIPTOR == 0x400u32);
    assert(MXFUSE_TRACK_HAS_COMPONENT_DEPTH == 0x800u32);
    assert(MXFUSE_TRACK_HAS_SUBSAMPLING == 0x1000u32);
    assert(MXFUSE_TRACK_HAS_FRAME_LAYOUT == 0x2000u32);
    assert(MXFUSE_TRACK_HAS_ASPECT_RATIO == 0x4000u32);
    assert(MXFUSE_TRACK_HAS_VIDEO_LINE_MAP == 0x8000u32);
    assert(MXFUSE_TRACK_HAS_PIXEL_LAYOUT == 0x10000u32);
    assert(MXFUSE_TRACK_HAS_COLOR_PRIMARIES == 0x20000u32);
    assert(MXFUSE_TRACK_HAS_TRANSFER == 0x40000u32);
    assert(MXFUSE_TRACK_HAS_CODING_EQ == 0x80000u32);
    let p0: bool = t.sampling_rate is Some;
    let p1: bool = t.channel_count is Some;
    let p2: bool = t.quantization_bits is Some;
    let p3: bool = t.stored_width is Some;
    let p4: bool = t.stored_height is Some;
    let p5: bool = t.essence_container_ul is Some;
    let p6: bool = t.coding_ul is Some;
    let p7: bool = t.element_type is Some;
    let p8: bool = t.element_llen is Some;
    let p9: bool = t.temporal_reordering;
    let p10: bool = t.descriptor is Some;
    let p11: bool = t.component_depth is Some;
    let p12: bool = t.subsampling is Some;
    let p13: bool = t.frame_layout is Some;
    let p14: bool = t.aspect_ratio is Some;
    let p15: bool = t.video_line_map is Some;
    let p16: bool = t.pixel_layout is Some;
    let p17: bool = t.color_primaries is Some;
    let p18: bool = t.transfer_characteristic is Some;
    let p19: bool = t.coding_equations is Some;
    let f: u32 = track_flags(t);
    assert(f == 0u32 | (if p0 { 0x1u32 } else { 0u32 }) | (if p1 { 0x2u32 } else { 0u32 }) | (if p2 { 0x4u32 } else { 0u32 }) | (if p3 { 0x8u32 } else { 0u32 }) | (if p4 { 0x10u32 } else { 0u32 }) | (if p5 { 0x20u32 } else { 0u32 }) | (if p6 { 0x40u32 } else { 0u32 }) | (if p7 { 0x80u32 } else { 0u32 }) | (if p8 { 0x100u32 } else { 0u32 }) | (if p9 { 0x200u32 } else { 0u32 }) | (if p10 { 0x400u32 } else { 0u32 }) | (if p11 { 0x800u32 } else { 0u32 }) | (if p12 { 0x1000u32 } else { 0u32 }) | (if p13 { 0x2000u32 } else { 0u32 }) | (if p14 { 0x4000u32 } else { 0u32 }) | (if p15 { 0x8000u32 } else { 0u32 }) | (if p16 { 0x10000u32 } else { 0u32 }) | (if p17 { 0x20000u32 } else { 0u32 }) | (if p18 { 0x40000u32 } else { 0u32 }) | (if p19 { 0x80000u32 } else { 0u32 }));
    assert((f & 0x1u32 == 0x1u32 <==> p0) && (f & 0x2u32 == 0x2u32 <==> p1) && (f & 0x4u32 == 0x4u32 <==> p2) && (f & 0x8u32 == 0x8u32 <==> p3) && (f & 0x10u32 == 0x10u32 <==> p4) && (f & 0x20u32 == 0x20u32 <==> p5) && (f & 0x40u32 == 0x40u32 <==> p6) && (f & 0x80u32 == 0x80u32 <==> p7) && (f & 0x100u32 == 0x100u32 <==> p8) && (f & 0x200u32 == 0x200u32 <==> p9) && (f & 0x400u32 == 0x400u32 <==> p10) && (f & 0x800u32 == 0x800u32 <==> p11) && (f & 0x1000u32 == 0x1000u32 <==> p12) && (f & 0x2000u32 == 0x2000u32 <==> p13) && (f & 0x4000u32 == 0x4000u32 <==> p14) && (f & 0x8000u32 == 0x8000u32 <==> p15) && (f & 0x10000u32 == 0x10000u32 <==> p16) && (f & 0x20000u32 == 0x20000u32 <==> p17) && (f & 0x40000u32 == 0x40000u32 <==> p18) && (f & 0x80000u32 == 0x80000u32 <==> p19) && f & 0xfff0_0000u32 == 0u32) by (bit_vector)
        requires
            f == 0u32 | (if p0 { 0x1u32 } else { 0u32 }) | (if p1 { 0x2u32 } else { 0u32 }) | (if p2 { 0x4u32 } else { 0u32 }) | (if p3 { 0x8u32 } else { 0u32 }) | (if p4 { 0x10u32 } else { 0u32 }) | (if p5 { 0x20u32 } else { 0u32 }) | (if p6 { 0x40u32 } else { 0u32 }) | (if p7 { 0x80u32 } else { 0u32 }) | (if p8 { 0x100u32 } else { 0u32 }) | (if p9 { 0x200u32 } else { 0u32 }) | (if p10 { 0x400u32 } else { 0u32 }) | (if p11 { 0x800u32 } else { 0u32 }) | (if p12 { 0x1000u32 } else { 0u32 }) | (if p13 { 0x2000u32 } else { 0u32 }) | (if p14 { 0x4000u32 } else { 0u32 }) | (if p15 { 0x8000u32 } else { 0u32 }) | (if p16 { 0x10000u32 } else { 0u32 }) | (if p17 { 0x20000u32 } else { 0u32 }) | (if p18 { 0x40000u32 } else { 0u32 }) | (if p19 { 0x80000u32 } else { 0u32 }),
    ;
}

} // verus!
