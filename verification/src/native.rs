use vstd::prelude::*;

use crate::error::Error;
use crate::reader::Clip;
use crate::types::{
    descriptor_code, descriptor_of_code, ClipSpec, DescriptorKind, EssenceType, Flavour, Frame,
    Identity, Package, PixelComponent, Rational, ReadOptions, Timecode, Track, TrackKind,
    TrackSpec, XmlMetadata,
};

verus! {

/// Read options as JavaScript passes them: unset knobs take the defaults.
#[derive(Clone, Copy, Debug, PartialEq, Eq, Structural)]
pub struct NativeReadOptions {
    pub read_ahead: Option<u32>,
    pub cache_bytes: Option<u32>,
}

/// One pixel component as JavaScript sees it.
#[derive(Clone, Copy, Debug, PartialEq, Eq, Structural)]
pub struct NativePixelComponent {
    pub code: u32,
    pub depth: u32,
}

/// A timecode as JavaScript sees it.
#[derive(Clone, Copy, Debug, PartialEq, Eq, Structural)]
pub struct NativeTimecode {
    pub hour: i32,
    pub minute: i32,
    pub second: i32,
    pub frame: i32,
    pub drop_frame: bool,
}

/// A track description as JavaScript sees it; byte buffers are `Vec<u8>`.
#[derive(Clone, Debug, PartialEq, Eq)]
pub struct NativeTrack {
    pub index: u32,
    pub kind: String,
    pub essence_type: String,
    pub essence_container_ul: Vec<u8>,
    pub coding_ul: Option<Vec<u8>>,
    pub descriptor: i32,
    pub stored_width: Option<u32>,
    pub stored_height: Option<u32>,
    pub display_width: Option<u32>,
    pub display_height: Option<u32>,
    pub component_depth: Option<u32>,
    pub horiz_subsampling: Option<u32>,
    pub vert_subsampling: Option<u32>,
    pub frame_layout: Option<u32>,
    pub aspect_ratio_num: Option<i32>,
    pub aspect_ratio_den: Option<i32>,
    pub video_line_map: Option<Vec<i32>>,
    pub pixel_layout: Vec<NativePixelComponent>,
    pub color_primaries: Option<Vec<u8>>,
    pub transfer_characteristic: Option<Vec<u8>>,
    pub coding_equations: Option<Vec<u8>>,
    pub sampling_rate: Option<u32>,
    pub channel_count: Option<u32>,
    pub quantization_bits: Option<u32>,
    pub edit_rate_num: i32,
    pub edit_rate_den: i32,
    pub duration: i64,
}

/// One frame as JavaScript sees it.
#[derive(Clone, Debug, PartialEq, Eq)]
pub struct NativeFrame {
    pub data: Vec<u8>,
    pub element_key: Vec<u8>,
    pub file_position: i64,
    pub kl_size: u8,
    pub position: i64,
    pub track_index: u32,
}

/// A clip-level XML item as JavaScript sees it.
#[derive(Clone, Debug, PartialEq, Eq)]
pub struct NativeXmlMetadata {
    pub data: Vec<u8>,
    pub scheme_id: Option<Vec<u8>>,
    pub language: Option<String>,
    pub namespace: Option<String>,
    pub mime_type: Option<String>,
    pub is_xml: bool,
}

/// The frames of one edit unit as JavaScript sees them.
#[derive(Clone, Debug, PartialEq, Eq)]
pub struct NativePackage {
    pub frames: Vec<NativeFrame>,
}

/// Clip-level facts as JavaScript sees them.
#[derive(Clone, Debug, PartialEq, Eq)]
pub struct NativeClipInfo {
    pub edit_rate_num: i32,
    pub edit_rate_den: i32,
    pub duration: i64,
    pub tracks: Vec<NativeTrack>,
    pub start_timecode: Option<NativeTimecode>,
}

/// An output track as JavaScript gives it.
#[derive(Clone, Debug, PartialEq, Eq)]
pub struct NativeTrackSpec {
    pub essence_type: i32,
    pub sampling_rate: Option<u32>,
    pub channel_count: Option<u32>,
    pub quantization_bits: Option<u32>,
    pub stored_width: Option<u32>,
    pub stored_height: Option<u32>,
    pub essence_container_ul: Option<Vec<u8>>,
    pub coding_ul: Option<Vec<u8>>,
    pub element_type: Option<u32>,
    pub element_llen: Option<u32>,
    pub temporal_reordering: Option<bool>,
    pub descriptor: Option<i32>,
    pub component_depth: Option<u32>,
    pub horiz_subsampling: Option<u32>,
    pub vert_subsampling: Option<u32>,
    pub frame_layout: Option<u32>,
    pub aspect_ratio_num: Option<i32>,
    pub aspect_ratio_den: Option<i32>,
    pub video_line_map: Option<Vec<i32>>,
    pub pixel_layout: Option<Vec<NativePixelComponent>>,
    pub color_primaries: Option<Vec<u8>>,
    pub transfer_characteristic: Option<Vec<u8>>,
    pub coding_equations: Option<Vec<u8>>,
}

/// Writer identity as JavaScript gives it.
#[derive(Clone, Debug, PartialEq, Eq)]
pub struct NativeIdentity {
    pub company_name: Option<String>,
    pub product_name: Option<String>,
    pub version_string: Option<String>,
    pub product_version: Option<Vec<u32>>,
    pub product_uid: Option<Vec<u8>>,
    pub creation_date: Option<Vec<i32>>,
    pub generation_uid: Option<Vec<u8>>,
    pub material_package_uid: Option<Vec<u8>>,
    pub file_source_package_uid: Option<Vec<u8>>,
}

/// A clip write specification as JavaScript gives it.
#[derive(Clone, Debug, PartialEq, Eq)]
pub struct NativeClipSpec {
    pub edit_rate_num: i32,
    pub edit_rate_den: i32,
    pub flavour: Option<i32>,
    pub duration: Option<i64>,
    pub tracks: Vec<NativeTrackSpec>,
    pub xml: Option<Vec<NativeXmlMetadata>>,
    pub start_timecode: Option<NativeTimecode>,
    pub timecode_track: Option<bool>,
    pub system_item: Option<bool>,
    pub identity: Option<NativeIdentity>,
}

/// The read options that JavaScript's knobs stand for; an unset knob takes its
/// default, 1 MiB of read-ahead and a 64 MiB cache.
pub fn read_options_from(options: Option<NativeReadOptions>) -> (chosen: ReadOptions)
    ensures
        chosen.read_ahead == match options {
            Some(NativeReadOptions { read_ahead: Some(v), .. }) => v,
            _ => 0x10_0000u32,
        },
        chosen.cache_bytes == match options {
            Some(NativeReadOptions { cache_bytes: Some(v), .. }) => v,
            _ => 0x400_0000u32,
        },
{
    let options = match options {
        Some(o) => o,
        None => NativeReadOptions { read_ahead: None, cache_bytes: None },
    };
    ReadOptions {
        read_ahead: match options.read_ahead {
            Some(v) => v,
            None => 0x10_0000,
        },
        cache_bytes: match options.cache_bytes {
            Some(v) => v,
            None => 0x400_0000,
        },
    }
}

/// The name that bindings give a track kind.
pub open spec fn kind_text(kind: TrackKind) -> Seq<char> {
    match kind {
        TrackKind::Picture => "picture"@,
        TrackKind::Sound => "sound"@,
        TrackKind::Data => "data"@,
        TrackKind::Other => "other"@,
    }
}

impl TrackKind {
    /// The lower-case name of the kind: `picture`, `sound`, `data` or `other`.
    pub fn name(self) -> (name: &'static str)
        ensures
            name@ == kind_text(self),
    {
        match self {
            TrackKind::Picture => "picture",
            TrackKind::Sound => "sound",
            TrackKind::Data => "data",
            TrackKind::Other => "other",
        }
    }
}

fn array16_to_vec(bytes: &[u8; 16]) -> (v: Vec<u8>)
    ensures
        v@ == bytes@,
{
    let mut v: Vec<u8> = Vec::new();
    let mut i: usize = 0;
    while i < 16
        invariant
            i <= 16,
            v@ == bytes@.take(i as int),
        decreases 16 - i,
    {
        v.push(bytes[i]);
        i = i + 1;
        proof {
            assert(v@ =~= bytes@.take(i as int));
        }
    }
    proof {
        assert(bytes@.take(16) =~= bytes@);
    }
    v
}

/// A label carried as a byte buffer, or none.
pub open spec fn buffer_of_ul(ul: Option<[u8; 16]>, buffer: Option<Vec<u8>>) -> bool {
    match ul {
        Some(u) => buffer matches Some(b) && b@ == u@,
        None => buffer is None,
    }
}

fn optional_ul_buffer(ul: Option<[u8; 16]>) -> (buffer: Option<Vec<u8>>)
    ensures
        buffer_of_ul(ul, buffer),
{
    match ul {
        Some(u) => Some(array16_to_vec(&u)),
        None => None,
    }
}

/// `native` carries the track description `track` to JavaScript, with the essence
/// type named `essence_type_name`.
pub open spec fn native_track_describes(
    native: NativeTrack,
    track: Track,
    essence_type_name: Seq<char>,
) -> bool {
    &&& native.index == track.index as u32
    &&& native.kind@ == kind_text(track.kind)
    &&& native.essence_type@ == essence_type_name
    &&& native.essence_container_ul@ == track.essence_container_ul@
    &&& buffer_of_ul(track.coding_ul, native.coding_ul)
    &&& native.descriptor == descriptor_code(track.descriptor)
    &&& native.stored_width == track.stored_width
    &&& native.stored_height == track.stored_height
    &&& native.display_width == track.display_width
    &&& native.display_height == track.display_height
    &&& native.component_depth == track.component_depth
    &&& native.horiz_subsampling == match track.subsampling {
        Some(pair) => Some(pair.0),
        None => None::<u32>,
    }
    &&& native.vert_subsampling == match track.subsampling {
        Some(pair) => Some(pair.1),
        None => None::<u32>,
    }
    &&& native.frame_layout == match track.frame_layout {
        Some(v) => Some(v as u32),
        None => None::<u32>,
    }
    &&& native.aspect_ratio_num == match track.aspect_ratio {
        Some(r) => Some(r.num),
        None => None::<i32>,
    }
    &&& native.aspect_ratio_den == match track.aspect_ratio {
        Some(r) => Some(r.den),
        None => None::<i32>,
    }
    &&& match track.video_line_map {
        Some((first, second)) => native.video_line_map matches Some(v) && v@ == seq![first, second],
        None => native.video_line_map is None,
    }
    &&& native.pixel_layout@.len() == track.pixel_layout@.len()
    &&& forall|i: int|
        0 <= i < track.pixel_layout@.len() ==> #[trigger] native.pixel_layout@[i] == (
        NativePixelComponent {
            code: track.pixel_layout@[i].code as u32,
            depth: track.pixel_layout@[i].depth as u32,
        })
    &&& buffer_of_ul(track.color_primaries, native.color_primaries)
    &&& buffer_of_ul(track.transfer_characteristic, native.transfer_characteristic)
    &&& buffer_of_ul(track.coding_equations, native.coding_equations)
    &&& native.sampling_rate == track.sampling_rate
    &&& native.channel_count == track.channel_count
    &&& native.quantization_bits == track.quantization_bits
    &&& native.edit_rate_num == track.edit_rate.num
    &&& native.edit_rate_den == track.edit_rate.den
    &&& native.duration == track.duration
}

/// The JavaScript track carries every picture and sound field of the library
/// track under the same name, unchanged: no field is filled from another one.
pub proof fn lemma_native_track_fields(
    native: NativeTrack,
    track: Track,
    essence_type_name: Seq<char>,
)
    requires
        native_track_describes(native, track, essence_type_name),
    ensures
        native.index == track.index as u32,
        native.essence_type@ == essence_type_name,
        native.stored_width == track.stored_width,
        native.stored_height == track.stored_height,
        native.display_width == track.display_width,
        native.display_height == track.display_height,
        native.component_depth == track.component_depth,
        native.sampling_rate == track.sampling_rate,
        native.channel_count == track.channel_count,
        native.quantization_bits == track.quantization_bits,
        track.subsampling matches Some((h, v)) ==> (native.horiz_subsampling == Some(h)
            && native.vert_subsampling == Some(v)),
        track.subsampling is None ==> (native.horiz_subsampling is None
            && native.vert_subsampling is None),
        track.aspect_ratio matches Some(r) ==> (native.aspect_ratio_num == Some(r.num)
            && native.aspect_ratio_den == Some(r.den)),
        native.edit_rate_num == track.edit_rate.num,
        native.edit_rate_den == track.edit_rate.den,
        native.duration == track.duration,
{
}

/// The JavaScript description of a track whose essence type bmx names
/// `essence_type_name`.
pub fn native_track_from(track: &Track, essence_type_name: String) -> (native: NativeTrack)
    ensures
        native_track_describes(native, *track, essence_type_name@),
{
    let mut pixel_layout: Vec<NativePixelComponent> = Vec::new();
    let mut i: usize = 0;
    while i < track.pixel_layout.len()
        invariant
            i <= track.pixel_layout@.len(),
            pixel_layout@.len() == i,
            forall|k: int|
                0 <= k < i ==> #[trigger] pixel_layout@[k] == (NativePixelComponent {
                    code: track.pixel_layout@[k].code as u32,
                    depth: track.pixel_layout@[k].depth as u32,
                }),
        decreases track.pixel_layout@.len() - i,
    {
        let item = track.pixel_layout[i];
        pixel_layout.push(NativePixelComponent { code: item.code as u32, depth: item.depth as u32 });
        i = i + 1;
    }
    let video_line_map = match track.video_line_map {
        Some((first, second)) => {
            let mut v: Vec<i32> = Vec::new();
            v.push(first);
            v.push(second);
            Some(v)
        },
        None => None,
    };
    let kind = String::from_str(track.kind.name());
    assert(kind@ == kind_text(track.kind));
    assert(match track.video_line_map {
        Some((first, second)) => video_line_map matches Some(v) && v@ == seq![first, second],
        None => video_line_map is None,
    });
    NativeTrack {
        index: track.index as u32,
        kind,
        essence_type: essence_type_name,
        essence_container_ul: array16_to_vec(&track.essence_container_ul),
        coding_ul: optional_ul_buffer(track.coding_ul),
        descriptor: track.descriptor.as_i32(),
        stored_width: track.stored_width,
        stored_height: track.stored_height,
        display_width: track.display_width,
        display_height: track.display_height,
        component_depth: track.component_depth,
        horiz_subsampling: match track.subsampling {
            Some(pair) => Some(pair.0),
            None => None,
        },
        vert_subsampling: match track.subsampling {
            Some(pair) => Some(pair.1),
            None => None,
        },
        frame_layout: match track.frame_layout {
            Some(v) => Some(v as u32),
            None => None,
        },
        aspect_ratio_num: match track.aspect_ratio {
            Some(r) => Some(r.num),
            None => None,
        },
        aspect_ratio_den: match track.aspect_ratio {
            Some(r) => Some(r.den),
            None => None,
        },
        video_line_map,
        pixel_layout,
        color_primaries: optional_ul_buffer(track.color_primaries),
        transfer_characteristic: optional_ul_buffer(track.transfer_characteristic),
        coding_equations: optional_ul_buffer(track.coding_equations),
        sampling_rate: track.sampling_rate,
        channel_count: track.channel_count,
        quantization_bits: track.quantization_bits,
        edit_rate_num: track.edit_rate.num,
        edit_rate_den: track.edit_rate.den,
        duration: track.duration,
    }
}

/// The JavaScript form of a library timecode: each number widened to 32 bits.
pub open spec fn native_timecode_of(tc: Timecode) -> NativeTimecode {
    NativeTimecode {
        hour: tc.hour as i32,
        minute: tc.minute as i32,
        second: tc.second as i32,
        frame: tc.frame as i32,
        drop_frame: tc.drop_frame,
    }
}

/// Clip-level facts for JavaScript: the clip's edit rate, duration and start
/// timecode, and each of its tracks described with the essence type name given for
/// it at the same position.
pub fn native_clip_info(clip: &Clip, essence_type_names: Vec<String>) -> (info: NativeClipInfo)
    requires
        essence_type_names@.len() == clip.spec_tracks().len(),
    ensures
        info.edit_rate_num == clip.spec_edit_rate().num,
        info.edit_rate_den == clip.spec_edit_rate().den,
        info.duration == clip.spec_duration(),
        info.tracks@.len() == clip.spec_tracks().len(),
        forall|i: int|
            0 <= i < clip.spec_tracks().len() ==> native_track_describes(
                #[trigger] info.tracks@[i],
                clip.spec_tracks()[i],
                essence_type_names@[i]@,
            ),
        info.start_timecode == match clip.spec_start_timecode() {
            Some(tc) => Some(native_timecode_of(tc)),
            None => None,
        },
{
    let all = clip.tracks();
    let mut tracks: Vec<NativeTrack> = Vec::new();
    let mut i: usize = 0;
    while i < all.len()
        invariant
            all@ == clip.spec_tracks(),
            essence_type_names@.len() == all@.len(),
            i <= all@.len(),
            tracks@.len() == i,
            forall|k: int|
                0 <= k < i ==> native_track_describes(
                    #[trigger] tracks@[k],
                    all@[k],
                    essence_type_names@[k]@,
                ),
        decreases all@.len() - i,
    {
        let name = essence_type_names[i].clone();
        tracks.push(native_track_from(&all[i], name));
        i = i + 1;
    }
    let rate = clip.edit_rate();
    let start_timecode = match clip.start_timecode() {
        Some(tc) => Some(
            NativeTimecode {
                hour: tc.hour as i32,
                minute: tc.minute as i32,
                second: tc.second as i32,
                frame: tc.frame as i32,
                drop_frame: tc.drop_frame,
            },
        ),
        None => None,
    };
    NativeClipInfo {
        edit_rate_num: rate.num,
        edit_rate_den: rate.den,
        duration: clip.duration(),
        tracks,
        start_timecode,
    }
}

/// The JavaScript form of a frame.
pub fn native_frame_from(frame: Frame) -> (native: NativeFrame)
    ensures
        native.data@ == frame.data@,
        native.element_key@ == frame.element_key@,
        native.file_position == frame.file_position,
        native.kl_size == frame.kl_size,
        native.position == frame.position,
        native.track_index == frame.track_index as u32,
{
    let element_key = array16_to_vec(&frame.element_key);
    NativeFrame {
        data: frame.data,
        element_key,
        file_position: frame.file_position,
        kl_size: frame.kl_size,
        position: frame.position,
        track_index: frame.track_index as u32,
    }
}

/// The JavaScript form of the packages a read returned: the same packages, each with
/// its frames in order.
pub fn native_packages_from(packages: Vec<Package>) -> (native: Vec<NativePackage>)
    ensures
        native@.len() == packages@.len(),
        forall|i: int|
            0 <= i < packages@.len() ==> #[trigger] native@[i].frames@.len()
                == packages@[i].frames@.len(),
        forall|i: int, j: int|
            0 <= i < packages@.len() && 0 <= j < packages@[i].frames@.len() ==> {
                let n = #[trigger] native@[i].frames@[j];
                let f = packages@[i].frames@[j];
                &&& n.data@ == f.data@
                &&& n.element_key@ == f.element_key@
                &&& n.file_position == f.file_position
                &&& n.kl_size == f.kl_size
                &&& n.position == f.position
                &&& n.track_index == f.track_index as u32
            },
{
    let mut native: Vec<NativePackage> = Vec::new();
    let mut i: usize = 0;
    while i < packages.len()
        invariant
            i <= packages@.len(),
            native@.len() == i,
            forall|k: int| 0 <= k < i ==> #[trigger] native@[k].frames@.len() == packages@[k].frames@.len(),
            forall|k: int, j: int|
                0 <= k < i && 0 <= j < packages@[k].frames@.len() ==> {
                    let n = #[trigger] native@[k].frames@[j];
                    let f = packages@[k].frames@[j];
                    &&& n.data@ == f.data@
                    &&& n.element_key@ == f.element_key@
                    &&& n.file_position == f.file_position
                    &&& n.kl_size == f.kl_size
                    &&& n.position == f.position
                    &&& n.track_index == f.track_index as u32
                },
        decreases packages@.len() - i,
    {
        let package = &packages[i];
        let mut frames: Vec<NativeFrame> = Vec::new();
        let mut j: usize = 0;
        while j < package.frames.len()
            invariant
                j <= package.frames@.len(),
                frames@.len() == j,
                forall|m: int|
                    0 <= m < j ==> {
                        let n = #[trigger] frames@[m];
                        let f = package.frames@[m];
                        &&& n.data@ == f.data@
                        &&& n.element_key@ == f.element_key@
                        &&& n.file_position == f.file_position
                        &&& n.kl_size == f.kl_size
                        &&& n.position == f.position
                        &&& n.track_index == f.track_index as u32
                    },
            decreases package.frames@.len() - j,
        {
            let f = &package.frames[j];
            let copy = Frame {
                data: f.data.clone(),
                element_key: f.element_key,
                file_position: f.file_position,
                kl_size: f.kl_size,
                position: f.position,
                track_index: f.track_index,
            };
            frames.push(native_frame_from(copy));
            j = j + 1;
        }
        native.push(NativePackage { frames });
        i = i + 1;
    }
    native
}

/// Whether an optional buffer, if given, holds exactly `n` bytes.
pub open spec fn buffer_fits(value: Option<Vec<u8>>, n: nat) -> bool {
    value matches Some(b) ==> b@.len() == n
}

/// The error for the first of two checks that fails: `name`'s buffer must hold `n`
/// bytes, then `rest`.
pub open spec fn size_check(value: Option<Vec<u8>>, n: nat, name: Seq<char>, rest: Option<
    Seq<char>,
>) -> Option<Seq<char>> {
    if buffer_fits(value, n) {
        rest
    } else {
        Some(name + if n == 16 {
            " must be 16 bytes"@
        } else {
            " must be 32 bytes"@
        })
    }
}

fn size_error(name: &str, wide: bool) -> (error: Error)
    ensures
        error@ == name@ + if wide {
            " must be 32 bytes"@
        } else {
            " must be 16 bytes"@
        },
{
    let mut message = String::from_str(name);
    if wide {
        message.append(" must be 32 bytes");
    } else {
        message.append(" must be 16 bytes");
    }
    Error::new(message)
}

/// A label given as an optional byte buffer: absent stays absent, sixteen bytes
/// become the label, any other length is refused by name.
pub fn optional_ul(value: Option<Vec<u8>>, name: &str) -> (result: Result<Option<[u8; 16]>, Error>)
    ensures
        buffer_fits(value, 16) ==> (result matches Ok(ul) && match value {
            Some(b) => ul matches Some(a) && a@ == b@,
            None => ul is None,
        }),
        !buffer_fits(value, 16) ==> (result matches Err(e) && Some(e@) == size_check(
            value,
            16,
            name@,
            None,
        )),
{
    match value {
        None => Ok(None),
        Some(bytes) => {
            if bytes.len() != 16 {
                return Err(size_error(name, false));
            }
            let mut array = [0u8; 16];
            let mut i: usize = 0;
            while i < 16
                invariant
                    i <= 16,
                    bytes@.len() == 16,
                    forall|k: int| 0 <= k < i ==> array@[k] == bytes@[k],
                decreases 16 - i,
            {
                array[i] = bytes[i];
                i = i + 1;
            }
            assert(array@ =~= bytes@);
            Ok(Some(array))
        },
    }
}

/// A package identifier given as an optional byte buffer: absent stays absent,
/// thirty-two bytes become the identifier, any other length is refused by name.
pub fn optional_umid(value: Option<Vec<u8>>, name: &str) -> (result: Result<
    Option<[u8; 32]>,
    Error,
>)
    ensures
        buffer_fits(value, 32) ==> (result matches Ok(umid) && match value {
            Some(b) => umid matches Some(a) && a@ == b@,
            None => umid is None,
        }),
        !buffer_fits(value, 32) ==> (result matches Err(e) && Some(e@) == size_check(
            value,
            32,
            name@,
            None,
        )),
{
    match value {
        None => Ok(None),
        Some(bytes) => {
            if bytes.len() != 32 {
                return Err(size_error(name, true));
            }
            let mut array = [0u8; 32];
            let mut i: usize = 0;
            while i < 32
                invariant
                    i <= 32,
                    bytes@.len() == 32,
                    forall|k: int| 0 <= k < i ==> array@[k] == bytes@[k],
                decreases 32 - i,
            {
                array[i] = bytes[i];
                i = i + 1;
            }
            assert(array@ =~= bytes@);
            Ok(Some(array))
        },
    }
}

/// A string that JavaScript gives, with the empty string read as absent.
pub open spec fn non_empty(value: Option<String>) -> Option<String> {
    match value {
        Some(v) => if v@.len() == 0 {
            None
        } else {
            Some(v)
        },
        None => None,
    }
}

fn keep_non_empty(value: Option<String>) -> (kept: Option<String>)
    ensures
        kept == non_empty(value),
{
    match value {
        Some(v) => if v.as_str().is_empty() {
            None
        } else {
            Some(v)
        },
        None => None,
    }
}

/// The first failing size check of an XML item's buffers.
pub open spec fn xml_error(item: NativeXmlMetadata) -> Option<Seq<char>> {
    size_check(item.scheme_id, 16, "schemeId"@, None)
}

/// The clip-level XML item that JavaScript gives describes `x`.
pub open spec fn xml_from_native_holds(item: NativeXmlMetadata, x: XmlMetadata) -> bool {
    &&& x.data@ == item.data@
    &&& ul_given(item.scheme_id, x.scheme_id)
    &&& x.language == non_empty(item.language)
    &&& x.namespace == non_empty(item.namespace)
    &&& x.mime_type == non_empty(item.mime_type)
    &&& x.is_xml == item.is_xml
}

/// The clip-level XML item that JavaScript gives: empty strings read as absent.
pub fn xml_from_native(item: NativeXmlMetadata) -> (result: Result<XmlMetadata, Error>)
    ensures
        xml_error(item) matches Some(message) ==> (result matches Err(e) && e@ == message),
        xml_error(item) is None ==> (result matches Ok(x) && xml_from_native_holds(item, x)),
{
    proof {
        reveal_strlit("schemeId");
    }
    let scheme_id = optional_ul(item.scheme_id, "schemeId")?;
    Ok(
        XmlMetadata {
            data: item.data,
            scheme_id,
            language: keep_non_empty(item.language),
            namespace: keep_non_empty(item.namespace),
            mime_type: keep_non_empty(item.mime_type),
            is_xml: item.is_xml,
        },
    )
}

/// `native` carries the XML item `item` to JavaScript.
pub open spec fn xml_to_native_holds(item: XmlMetadata, native: NativeXmlMetadata) -> bool {
    &&& native.data@ == item.data@
    &&& buffer_of_ul(item.scheme_id, native.scheme_id)
    &&& native.language == item.language
    &&& native.namespace == item.namespace
    &&& native.mime_type == item.mime_type
    &&& native.is_xml == item.is_xml
}

/// The JavaScript form of a clip-level XML item.
pub fn xml_to_native(item: &XmlMetadata) -> (native: NativeXmlMetadata)
    ensures
        xml_to_native_holds(*item, native),
{
    NativeXmlMetadata {
        data: item.data.clone(),
        scheme_id: optional_ul_buffer(item.scheme_id),
        language: clone_text(&item.language),
        namespace: clone_text(&item.namespace),
        mime_type: clone_text(&item.mime_type),
        is_xml: item.is_xml,
    }
}

/// None of an XML item's names is the empty string.
pub open spec fn names_given_or_absent(item: XmlMetadata) -> bool {
    &&& (item.language matches Some(v) ==> v@.len() > 0)
    &&& (item.namespace matches Some(v) ==> v@.len() > 0)
    &&& (item.mime_type matches Some(v) ==> v@.len() > 0)
}

/// An XML item that goes to JavaScript and comes back is the item it was: its scheme
/// passes the size check, and payload, scheme, names and kind read back, as long as
/// no name is the empty string (JavaScript's empty names read as absent).
pub proof fn lemma_xml_round_trip(item: XmlMetadata, native: NativeXmlMetadata, back: XmlMetadata)
    requires
        xml_to_native_holds(item, native),
        names_given_or_absent(item),
    ensures
        xml_error(native) is None,
        xml_from_native_holds(native, back) ==> {
            &&& back.data@ == item.data@
            &&& back.scheme_id == item.scheme_id
            &&& back.language == item.language
            &&& back.namespace == item.namespace
            &&& back.mime_type == item.mime_type
            &&& back.is_xml == item.is_xml
        },
{
    broadcast use vstd::array::group_array_axioms;

    if xml_from_native_holds(native, back) {
        match item.scheme_id {
            Some(u) => {
                assert(back.scheme_id->0@ =~= u@);
            },
            None => {},
        }
    }
}

fn clone_text(value: &Option<String>) -> (copy: Option<String>)
    ensures
        copy == *value,
{
    match value {
        Some(v) => Some(v.clone()),
        None => None,
    }
}

/// The first failing size check of an identity's buffers.
pub open spec fn identity_buffers_error(item: NativeIdentity) -> Option<Seq<char>> {
    size_check(
        item.product_uid,
        16,
        "productUid"@,
        size_check(
            item.generation_uid,
            16,
            "generationUid"@,
            size_check(
                item.material_package_uid,
                32,
                "materialPackageUid"@,
                size_check(item.file_source_package_uid, 32, "fileSourcePackageUid"@, None),
            ),
        ),
    )
}

/// The identity that JavaScript gives describes `id`: empty names read as absent, a
/// version needs five numbers and a date seven, each cut to its field's width, and
/// the identifiers are the given bytes.
pub open spec fn identity_from_native_holds(item: NativeIdentity, id: Identity) -> bool {
    &&& id.company_name == non_empty(item.company_name)
    &&& id.product_name == non_empty(item.product_name)
    &&& id.version_string == non_empty(item.version_string)
    &&& id.product_version == match item.product_version {
        Some(v) => if v@.len() >= 5 {
            Some((v@[0] as u16, v@[1] as u16, v@[2] as u16, v@[3] as u16, v@[4] as u16))
        } else {
            None
        },
        None => None,
    }
    &&& id.creation_date == match item.creation_date {
        Some(v) => if v@.len() >= 7 {
            Some(
                (
                    v@[0] as i16,
                    v@[1] as u8,
                    v@[2] as u8,
                    v@[3] as u8,
                    v@[4] as u8,
                    v@[5] as u8,
                    v@[6] as u8,
                ),
            )
        } else {
            None
        },
        None => None,
    }
    &&& match item.product_uid {
        Some(b) => id.product_uid matches Some(a) && a@ == b@,
        None => id.product_uid is None,
    }
    &&& match item.generation_uid {
        Some(b) => id.generation_uid matches Some(a) && a@ == b@,
        None => id.generation_uid is None,
    }
    &&& match item.material_package_uid {
        Some(b) => id.material_package_uid matches Some(a) && a@ == b@,
        None => id.material_package_uid is None,
    }
    &&& match item.file_source_package_uid {
        Some(b) => id.file_source_package_uid matches Some(a) && a@ == b@,
        None => id.file_source_package_uid is None,
    }
}

/// The writer identity that JavaScript gives.
pub fn identity_from_native(item: NativeIdentity) -> (result: Result<Identity, Error>)
    ensures
        identity_buffers_error(item) matches Some(message) ==> (result matches Err(e) && e@
            == message),
        identity_buffers_error(item) is None ==> (result matches Ok(id)
            && identity_from_native_holds(item, id)),
{
    proof {
        reveal_strlit("productUid");
        reveal_strlit("generationUid");
        reveal_strlit("materialPackageUid");
        reveal_strlit("fileSourcePackageUid");
    }
    let company_name = keep_non_empty(item.company_name);
    let product_name = keep_non_empty(item.product_name);
    let version_string = keep_non_empty(item.version_string);
    let product_version = match item.product_version {
        Some(values) => if values.len() >= 5 {
            Some(
                (
                    values[0] as u16,
                    values[1] as u16,
                    values[2] as u16,
                    values[3] as u16,
                    values[4] as u16,
                ),
            )
        } else {
            None
        },
        None => None,
    };
    let product_uid = optional_ul(item.product_uid, "productUid")?;
    let creation_date = match item.creation_date {
        Some(values) => if values.len() >= 7 {
            Some(
                (
                    values[0] as i16,
                    values[1] as u8,
                    values[2] as u8,
                    values[3] as u8,
                    values[4] as u8,
                    values[5] as u8,
                    values[6] as u8,
                ),
            )
        } else {
            None
        },
        None => None,
    };
    let generation_uid = optional_ul(item.generation_uid, "generationUid")?;
    let material_package_uid = optional_umid(item.material_package_uid, "materialPackageUid")?;
    let file_source_package_uid = optional_umid(
        item.file_source_package_uid,
        "fileSourcePackageUid",
    )?;
    Ok(
        Identity {
            company_name,
            product_name,
            version_string,
            product_version,
            product_uid,
            creation_date,
            generation_uid,
            material_package_uid,
            file_source_package_uid,
        },
    )
}

/// The first failing size check of a track specification's buffers.
pub open spec fn track_spec_error(track: NativeTrackSpec) -> Option<Seq<char>> {
    size_check(
        track.essence_container_ul,
        16,
        "essenceContainerUl"@,
        size_check(
            track.coding_ul,
            16,
            "codingUl"@,
            size_check(
                track.color_primaries,
                16,
                "colorPrimaries"@,
                size_check(
                    track.transfer_characteristic,
                    16,
                    "transferCharacteristic"@,
                    size_check(track.coding_equations, 16, "codingEquations"@, None),
                ),
            ),
        ),
    )
}

/// A label that JavaScript gives is the label held.
pub open spec fn ul_given(value: Option<Vec<u8>>, ul: Option<[u8; 16]>) -> bool {
    match value {
        Some(b) => ul matches Some(a) && a@ == b@,
        None => ul is None,
    }
}

/// The track specification that JavaScript gives describes `t`: numbers cut to their
/// field's width, pairs only when both halves are given, a line map from its first two
/// numbers.
pub open spec fn track_spec_from_native_holds(track: NativeTrackSpec, t: TrackSpec) -> bool {
    &&& t.essence_type == EssenceType(track.essence_type)
    &&& t.sampling_rate == track.sampling_rate
    &&& t.channel_count == track.channel_count
    &&& t.quantization_bits == track.quantization_bits
    &&& t.stored_width == track.stored_width
    &&& t.stored_height == track.stored_height
    &&& ul_given(track.essence_container_ul, t.essence_container_ul)
    &&& ul_given(track.coding_ul, t.coding_ul)
    &&& t.element_type == match track.element_type {
        Some(v) => Some(v as u8),
        None => None::<u8>,
    }
    &&& t.element_llen == match track.element_llen {
        Some(v) => Some(v as u8),
        None => None::<u8>,
    }
    &&& t.temporal_reordering == match track.temporal_reordering {
        Some(b) => b,
        None => false,
    }
    &&& t.descriptor == match track.descriptor {
        Some(code) => Some(descriptor_of_code(code)),
        None => None::<DescriptorKind>,
    }
    &&& t.component_depth == track.component_depth
    &&& t.subsampling == match (track.horiz_subsampling, track.vert_subsampling) {
        (Some(h), Some(v)) => Some((h, v)),
        _ => None::<(u32, u32)>,
    }
    &&& t.frame_layout == match track.frame_layout {
        Some(v) => Some(v as u8),
        None => None::<u8>,
    }
    &&& t.aspect_ratio == match (track.aspect_ratio_num, track.aspect_ratio_den) {
        (Some(num), Some(den)) => Some(Rational { num, den }),
        _ => None::<Rational>,
    }
    &&& t.video_line_map == match track.video_line_map {
        Some(v) => if v@.len() >= 2 {
            Some((v@[0], v@[1]))
        } else {
            None
        },
        None => None::<(i32, i32)>,
    }
    &&& match track.pixel_layout {
        Some(items) => t.pixel_layout matches Some(layout) && layout@.len() == items@.len() && (
        forall|i: int|
            0 <= i < items@.len() ==> #[trigger] layout@[i] == (PixelComponent {
                code: items@[i].code as u8,
                depth: items@[i].depth as u8,
            })),
        None => t.pixel_layout is None,
    }
    &&& ul_given(track.color_primaries, t.color_primaries)
    &&& ul_given(track.transfer_characteristic, t.transfer_characteristic)
    &&& ul_given(track.coding_equations, t.coding_equations)
}

fn pixel_layout_from_native(items: &Vec<NativePixelComponent>) -> (layout: Vec<PixelComponent>)
    ensures
        layout@.len() == items@.len(),
        forall|i: int|
            0 <= i < items@.len() ==> #[trigger] layout@[i] == (PixelComponent {
                code: items@[i].code as u8,
                depth: items@[i].depth as u8,
            }),
{
    let mut layout: Vec<PixelComponent> = Vec::new();
    let mut i: usize = 0;
    while i < items.len()
        invariant
            i <= items@.len(),
            layout@.len() == i,
            forall|k: int|
                0 <= k < i ==> #[trigger] layout@[k] == (PixelComponent {
                    code: items@[k].code as u8,
                    depth: items@[k].depth as u8,
                }),
        decreases items@.len() - i,
    {
        let item = items[i];
        layout.push(PixelComponent { code: item.code as u8, depth: item.depth as u8 });
        i = i + 1;
    }
    layout
}

/// The output track that JavaScript gives.
pub fn track_spec_from_native(track: NativeTrackSpec) -> (result: Result<TrackSpec, Error>)
    ensures
        track_spec_error(track) matches Some(message) ==> (result matches Err(e) && e@
            == message),
        track_spec_error(track) is None ==> (result matches Ok(t) && track_spec_from_native_holds(
            track,
            t,
        )),
{
    proof {
        reveal_strlit("essenceContainerUl");
        reveal_strlit("codingUl");
        reveal_strlit("colorPrimaries");
        reveal_strlit("transferCharacteristic");
        reveal_strlit("codingEquations");
    }
    let essence_container_ul = optional_ul(track.essence_container_ul, "essenceContainerUl")?;
    let coding_ul = optional_ul(track.coding_ul, "codingUl")?;
    let subsampling = match (track.horiz_subsampling, track.vert_subsampling) {
        (Some(horiz), Some(vert)) => Some((horiz, vert)),
        _ => None,
    };
    let aspect_ratio = match (track.aspect_ratio_num, track.aspect_ratio_den) {
        (Some(num), Some(den)) => Some(Rational { num, den }),
        _ => None,
    };
    let video_line_map = match &track.video_line_map {
        Some(values) => if values.len() >= 2 {
            Some((values[0], values[1]))
        } else {
            None
        },
        None => None,
    };
    let pixel_layout = match &track.pixel_layout {
        Some(items) => Some(pixel_layout_from_native(items)),
        None => None,
    };
    let color_primaries = optional_ul(track.color_primaries, "colorPrimaries")?;
    let transfer_characteristic = optional_ul(
        track.transfer_characteristic,
        "transferCharacteristic",
    )?;
    let coding_equations = optional_ul(track.coding_equations, "codingEquations")?;
    Ok(
        TrackSpec {
            essence_type: EssenceType::from_i32(track.essence_type),
            sampling_rate: track.sampling_rate,
            channel_count: track.channel_count,
            quantization_bits: track.quantization_bits,
            stored_width: track.stored_width,
            stored_height: track.stored_height,
            essence_container_ul,
            coding_ul,
            element_type: match track.element_type {
                Some(v) => Some(v as u8),
                None => None,
            },
            element_llen: match track.element_llen {
                Some(v) => Some(v as u8),
                None => None,
            },
            temporal_reordering: match track.temporal_reordering {
                Some(b) => b,
                None => false,
            },
            descriptor: match track.descriptor {
                Some(code) => Some(DescriptorKind::from_i32(code)),
                None => None,
            },
            component_depth: track.component_depth,
            subsampling,
            frame_layout: match track.frame_layout {
                Some(v) => Some(v as u8),
                None => None,
            },
            aspect_ratio,
            video_line_map,
            pixel_layout,
            color_primaries,
            transfer_characteristic,
            coding_equations,
        },
    )
}

/// The error of the first track specification that fails, if any.
pub open spec fn first_track_error(tracks: Seq<NativeTrackSpec>) -> Option<Seq<char>>
    decreases tracks.len(),
{
    if tracks.len() == 0 {
        None
    } else if track_spec_error(tracks[0]) is Some {
        track_spec_error(tracks[0])
    } else {
        first_track_error(tracks.drop_first())
    }
}

/// The error of the first XML item that fails, if any.
pub open spec fn first_xml_error(items: Seq<NativeXmlMetadata>) -> Option<Seq<char>>
    decreases items.len(),
{
    if items.len() == 0 {
        None
    } else if xml_error(items[0]) is Some {
        xml_error(items[0])
    } else {
        first_xml_error(items.drop_first())
    }
}

/// The XML items of a JavaScript clip specification; none when not given.
pub open spec fn native_xml_items(spec: NativeClipSpec) -> Seq<NativeXmlMetadata> {
    match spec.xml {
        Some(items) => items@,
        None => Seq::empty(),
    }
}

/// The first error of a JavaScript clip specification: its tracks are checked first,
/// then its XML items, then its identity.
pub open spec fn clip_spec_error(spec: NativeClipSpec) -> Option<Seq<char>> {
    if first_track_error(spec.tracks@) is Some {
        first_track_error(spec.tracks@)
    } else if first_xml_error(native_xml_items(spec)) is Some {
        first_xml_error(native_xml_items(spec))
    } else {
        match spec.identity {
            Some(item) => identity_buffers_error(item),
            None => None,
        }
    }
}

/// The JavaScript timecode as the library holds it: each number cut to 16 bits.
pub open spec fn timecode_from_native(tc: NativeTimecode) -> Timecode {
    Timecode {
        hour: tc.hour as i16,
        minute: tc.minute as i16,
        second: tc.second as i16,
        frame: tc.frame as i16,
        drop_frame: tc.drop_frame,
    }
}

/// The clip specification that JavaScript gives describes `c`: its settings, with
/// the flavour 0, the timecode track on and no system item when not given.
pub open spec fn clip_spec_from_native_holds(spec: NativeClipSpec, c: ClipSpec) -> bool {
    &&& c.edit_rate == Rational { num: spec.edit_rate_num, den: spec.edit_rate_den }
    &&& c.flavour == Flavour(
        match spec.flavour {
            Some(f) => f,
            None => 0,
        },
    )
    &&& c.duration == spec.duration
    &&& c.tracks@.len() == spec.tracks@.len()
    &&& forall|i: int|
        0 <= i < spec.tracks@.len() ==> track_spec_from_native_holds(
            #[trigger] spec.tracks@[i],
            c.tracks@[i],
        )
    &&& c.xml@.len() == native_xml_items(spec).len()
    &&& forall|i: int|
        0 <= i < native_xml_items(spec).len() ==> xml_from_native_holds(
            #[trigger] native_xml_items(spec)[i],
            c.xml@[i],
        )
    &&& c.start_timecode == match spec.start_timecode {
        Some(tc) => Some(timecode_from_native(tc)),
        None => None,
    }
    &&& c.timecode_track == match spec.timecode_track {
        Some(b) => b,
        None => true,
    }
    &&& c.system_item == match spec.system_item {
        Some(b) => b,
        None => false,
    }
    &&& match spec.identity {
        Some(item) => c.identity matches Some(id) && identity_from_native_holds(item, id),
        None => c.identity is None,
    }
}

/// Each track specification that JavaScript gives, in order; the first that fails
/// decides the error.
#[verifier::loop_isolation(false)]
pub fn track_specs_from_native(given: Vec<NativeTrackSpec>) -> (result: Result<
    Vec<TrackSpec>,
    Error,
>)
    ensures
        first_track_error(given@) matches Some(message) ==> (result matches Err(e) && e@
            == message),
        first_track_error(given@) is None ==> (result matches Ok(tracks) && tracks@.len()
            == given@.len() && forall|i: int|
            0 <= i < given@.len() ==> track_spec_from_native_holds(
                #[trigger] given@[i],
                tracks@[i],
            )),
{
    let ghost all = given@;
    let mut pending = given;
    let mut tracks: Vec<TrackSpec> = Vec::new();
    while pending.len() > 0
        invariant
            tracks@.len() + pending@.len() == all.len(),
            pending@ == all.skip(tracks@.len() as int),
            first_track_error(all) == first_track_error(pending@),
            forall|i: int|
                0 <= i < tracks@.len() ==> track_spec_from_native_holds(
                    #[trigger] all[i],
                    tracks@[i],
                ),
        decreases pending@.len(),
    {
        let ghost before = pending@;
        let track = pending.remove(0);
        proof {
            assert(before.drop_first() =~= pending@);
            assert(pending@ =~= all.skip(tracks@.len() + 1int));
        }
        match track_spec_from_native(track) {
            Ok(converted) => tracks.push(converted),
            Err(e) => {
                proof {
                    assert(first_track_error(before) == track_spec_error(track));
                }
                return Err(e);
            },
        }
    }
    Ok(tracks)
}

/// Each XML item that JavaScript gives, in order; the first that fails decides the
/// error.
#[verifier::loop_isolation(false)]
pub fn xml_items_from_native(given: Vec<NativeXmlMetadata>) -> (result: Result<
    Vec<XmlMetadata>,
    Error,
>)
    ensures
        first_xml_error(given@) matches Some(message) ==> (result matches Err(e) && e@
            == message),
        first_xml_error(given@) is None ==> (result matches Ok(xml) && xml@.len()
            == given@.len() && forall|i: int|
            0 <= i < given@.len() ==> xml_from_native_holds(#[trigger] given@[i], xml@[i])),
{
    let ghost all = given@;
    let mut pending = given;
    let mut xml: Vec<XmlMetadata> = Vec::new();
    while pending.len() > 0
        invariant
            xml@.len() + pending@.len() == all.len(),
            pending@ == all.skip(xml@.len() as int),
            first_xml_error(all) == first_xml_error(pending@),
            forall|i: int| 0 <= i < xml@.len() ==> xml_from_native_holds(#[trigger] all[i], xml@[i]),
        decreases pending@.len(),
    {
        let ghost before = pending@;
        let item = pending.remove(0);
        proof {
            assert(before.drop_first() =~= pending@);
            assert(pending@ =~= all.skip(xml@.len() + 1int));
        }
        match xml_from_native(item) {
            Ok(converted) => xml.push(converted),
            Err(e) => {
                proof {
                    assert(first_xml_error(before) == xml_error(item));
                }
                return Err(e);
            },
        }
    }
    Ok(xml)
}

/// The clip write specification that JavaScript gives.
pub fn clip_spec_from_native(spec: NativeClipSpec) -> (result: Result<ClipSpec, Error>)
    ensures
        clip_spec_error(spec) matches Some(message) ==> (result matches Err(e) && e@ == message),
        clip_spec_error(spec) is None ==> (result matches Ok(c) && clip_spec_from_native_holds(
            spec,
            c,
        )),
{
    let tracks = match track_specs_from_native(spec.tracks) {
        Ok(tracks) => tracks,
        Err(e) => return Err(e),
    };
    let xml_given = match spec.xml {
        Some(items) => items,
        None => Vec::new(),
    };
    let xml = match xml_items_from_native(xml_given) {
        Ok(xml) => xml,
        Err(e) => return Err(e),
    };
    let identity = match spec.identity {
        Some(item) => match identity_from_native(item) {
            Ok(id) => Some(id),
            Err(e) => return Err(e),
        },
        None => None,
    };
    let start_timecode = match spec.start_timecode {
        Some(tc) => Some(
            Timecode {
                hour: tc.hour as i16,
                minute: tc.minute as i16,
                second: tc.second as i16,
                frame: tc.frame as i16,
                drop_frame: tc.drop_frame,
            },
        ),
        None => None,
    };
    Ok(
        ClipSpec {
            edit_rate: Rational { num: spec.edit_rate_num, den: spec.edit_rate_den },
            flavour: Flavour(
                match spec.flavour {
                    Some(f) => f,
                    None => 0,
                },
            ),
            duration: spec.duration,
            tracks,
            xml,
            start_timecode,
            timecode_track: match spec.timecode_track {
                Some(b) => b,
                None => true,
            },
            system_item: match spec.system_item {
                Some(b) => b,
                None => false,
            },
            identity,
        },
    )
}

} // verus!
