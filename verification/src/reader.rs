use vstd::prelude::*;

use crate::error::{c_array_to_string, c_text};
use crate::types::{
    descriptor_of_code, kind_of_data_def, DescriptorKind, EssenceType, Frame, Package,
    PixelComponent, Rational, Timecode, Track, TrackKind, XmlMetadata,
};

verus! {

/// A rational as the shim passes it.
#[derive(Clone, Copy, Debug, Default, PartialEq, Eq, Structural)]
pub struct MxfuseRational {
    pub num: i32,
    pub den: i32,
}

/// A timecode as the shim passes it.
#[derive(Clone, Copy, Debug, Default, PartialEq, Eq, Structural)]
pub struct MxfuseTimecode {
    pub hour: i16,
    pub minute: i16,
    pub second: i16,
    pub frame: i16,
    pub drop_frame: i32,
}

/// Clip-level facts the shim reports after opening a file.
#[derive(Clone, Copy, Debug, Default, PartialEq, Eq, Structural)]
pub struct MxfuseClipInfo {
    pub edit_rate: MxfuseRational,
    pub duration: i64,
    pub num_tracks: usize,
    pub has_start_timecode: i32,
    pub start_timecode: MxfuseTimecode,
}

/// Per-track facts the shim reports; zero stands for an absent value.
#[derive(Clone, Copy, Debug, PartialEq, Eq)]
pub struct MxfuseTrackInfo {
    pub index: usize,
    pub data_def: i32,
    pub essence_type: i32,
    pub essence_container_ul: [u8; 16],
    pub edit_rate: MxfuseRational,
    pub duration: i64,
    pub enabled: i32,
    pub coding_ul: [u8; 16],
    pub descriptor_kind: i32,
    pub stored_width: u32,
    pub stored_height: u32,
    pub display_width: u32,
    pub display_height: u32,
    pub component_depth: u32,
    pub horiz_subsampling: u32,
    pub vert_subsampling: u32,
    pub frame_layout: u8,
    pub aspect_ratio: MxfuseRational,
    pub video_line_map: [i32; 2],
    pub pixel_layout_count: u8,
    pub pixel_layout: [u8; 16],
    pub color_primaries: [u8; 16],
    pub transfer_characteristic: [u8; 16],
    pub coding_equations: [u8; 16],
    pub sampling_rate: u32,
    pub channel_count: u32,
    pub quantization_bits: u32,
}

/// One essence payload as the shim hands it out, its bytes already copied.
#[derive(Clone, Debug, PartialEq, Eq)]
pub struct MxfuseFrameView {
    pub data: Vec<u8>,
    pub element_key: [u8; 16],
    pub file_position: i64,
    pub kl_size: u8,
    pub position: i64,
}

/// One clip-level XML item as the shim hands it out, its bytes already copied and its
/// C strings given as their character buffers.
#[derive(Clone, Debug, PartialEq, Eq)]
pub struct MxfuseXmlView {
    pub data: Vec<u8>,
    pub scheme_id: [u8; 16],
    pub language: Vec<u8>,
    pub mime_type: Vec<u8>,
    pub ns: Vec<u8>,
    pub is_xml: i32,
}

/// Whether all bytes of a label are zero.
pub open spec fn is_zero_ul(bytes: [u8; 16]) -> bool {
    forall|i: int| 0 <= i < 16 ==> bytes@[i] == 0
}

/// A label that the shim reports: all zero means absent.
pub open spec fn ul_value(bytes: [u8; 16]) -> Option<[u8; 16]> {
    if is_zero_ul(bytes) {
        None
    } else {
        Some(bytes)
    }
}

/// A dimension that the shim reports: zero means absent.
pub open spec fn dim_value(value: u32) -> Option<u32> {
    if value == 0 {
        None
    } else {
        Some(value)
    }
}

pub fn optional_ul(bytes: &[u8; 16]) -> (ul: Option<[u8; 16]>)
    ensures
        ul == ul_value(*bytes),
{
    let mut i: usize = 0;
    while i < 16
        invariant
            i <= 16,
            forall|j: int| 0 <= j < i ==> bytes@[j] == 0,
        decreases 16 - i,
    {
        if bytes[i] != 0 {
            return Some(*bytes);
        }
        i = i + 1;
    }
    None
}

pub fn optional_dim(value: u32) -> (dim: Option<u32>)
    ensures
        dim == dim_value(value),
{
    if value == 0 {
        None
    } else {
        Some(value)
    }
}

/// The pixel layout that a track's info lists.
pub open spec fn pixel_layout_of(info: MxfuseTrackInfo) -> Seq<PixelComponent> {
    Seq::new(
        info.pixel_layout_count as nat,
        |i: int|
            PixelComponent { code: info.pixel_layout@[2 * i], depth: info.pixel_layout@[2 * i + 1] },
    )
}

/// The rational that the shim's pair stands for.
pub open spec fn rational_of(r: MxfuseRational) -> Rational {
    Rational { num: r.num, den: r.den }
}

/// `track` describes what `info` reports, with zero values read as absent.
pub open spec fn track_describes(track: Track, info: MxfuseTrackInfo) -> bool {
    &&& track.index == info.index
    &&& track.kind == kind_of_data_def(info.data_def)
    &&& track.essence_type == EssenceType(info.essence_type)
    &&& track.essence_container_ul == info.essence_container_ul
    &&& track.coding_ul == ul_value(info.coding_ul)
    &&& track.descriptor == descriptor_of_code(info.descriptor_kind)
    &&& track.stored_width == dim_value(info.stored_width)
    &&& track.stored_height == dim_value(info.stored_height)
    &&& track.display_width == dim_value(info.display_width)
    &&& track.display_height == dim_value(info.display_height)
    &&& track.component_depth == dim_value(info.component_depth)
    &&& track.subsampling == if info.horiz_subsampling == 0 && info.vert_subsampling == 0 {
        None::<(u32, u32)>
    } else {
        Some((info.horiz_subsampling, info.vert_subsampling))
    }
    &&& track.frame_layout == if info.stored_width == 0 && info.stored_height == 0 {
        None::<u8>
    } else {
        Some(info.frame_layout)
    }
    &&& track.aspect_ratio == if info.aspect_ratio.num == 0 {
        None::<Rational>
    } else {
        Some(rational_of(info.aspect_ratio))
    }
    &&& track.video_line_map == if info.video_line_map[0] == 0 && info.video_line_map[1] == 0 {
        None::<(i32, i32)>
    } else {
        Some((info.video_line_map[0], info.video_line_map[1]))
    }
    &&& track.pixel_layout@ == pixel_layout_of(info)
    &&& track.color_primaries == ul_value(info.color_primaries)
    &&& track.transfer_characteristic == ul_value(info.transfer_characteristic)
    &&& track.coding_equations == ul_value(info.coding_equations)
    &&& track.sampling_rate == dim_value(info.sampling_rate)
    &&& track.channel_count == dim_value(info.channel_count)
    &&& track.quantization_bits == dim_value(info.quantization_bits)
    &&& track.edit_rate == rational_of(info.edit_rate)
    &&& track.duration == info.duration
}

/// Describes a track from the shim's report. A report lists at most eight pixel
/// components, two bytes each.
/// Each field of a track is the report's field of the same name: a zero
/// dimension, rate, count or depth reads as absent and any other value is kept
/// as it is, whatever the other fields hold (a display height never comes from
/// the stored height, a channel count never from the bit depth).
pub proof fn lemma_track_fields(track: Track, info: MxfuseTrackInfo)
    requires
        track_describes(track, info),
    ensures
        track.index == info.index,
        track.essence_type.0 == info.essence_type,
        track.essence_container_ul == info.essence_container_ul,
        track.stored_width == (if info.stored_width == 0 { None } else { Some(info.stored_width) }),
        track.stored_height == (if info.stored_height == 0 {
            None
        } else {
            Some(info.stored_height)
        }),
        track.display_width == (if info.display_width == 0 {
            None
        } else {
            Some(info.display_width)
        }),
        track.display_height == (if info.display_height == 0 {
            None
        } else {
            Some(info.display_height)
        }),
        track.component_depth == (if info.component_depth == 0 {
            None
        } else {
            Some(info.component_depth)
        }),
        track.sampling_rate == (if info.sampling_rate == 0 {
            None
        } else {
            Some(info.sampling_rate)
        }),
        track.channel_count == (if info.channel_count == 0 {
            None
        } else {
            Some(info.channel_count)
        }),
        track.quantization_bits == (if info.quantization_bits == 0 {
            None
        } else {
            Some(info.quantization_bits)
        }),
        track.edit_rate.num == info.edit_rate.num,
        track.edit_rate.den == info.edit_rate.den,
        track.duration == info.duration,
{
}

pub fn track_from_info(info: &MxfuseTrackInfo) -> (track: Track)
    requires
        info.pixel_layout_count <= 8,
    ensures
        track_describes(track, *info),
{
    let mut pixel_layout: Vec<PixelComponent> = Vec::new();
    let count = info.pixel_layout_count as usize;
    let mut index: usize = 0;
    while index < count
        invariant
            index <= count,
            count == info.pixel_layout_count,
            count <= 8,
            pixel_layout@ == pixel_layout_of(*info).take(index as int),
        decreases count - index,
    {
        pixel_layout.push(
            PixelComponent { code: info.pixel_layout[index * 2], depth: info.pixel_layout[index * 2 + 1] },
        );
        index = index + 1;
        proof {
            assert(pixel_layout@ =~= pixel_layout_of(*info).take(index as int));
        }
    }
    proof {
        assert(pixel_layout@ =~= pixel_layout_of(*info));
    }
    Track {
        index: info.index,
        kind: TrackKind::from_data_def(info.data_def),
        essence_type: EssenceType::from_i32(info.essence_type),
        essence_container_ul: info.essence_container_ul,
        coding_ul: optional_ul(&info.coding_ul),
        descriptor: DescriptorKind::from_i32(info.descriptor_kind),
        stored_width: optional_dim(info.stored_width),
        stored_height: optional_dim(info.stored_height),
        display_width: optional_dim(info.display_width),
        display_height: optional_dim(info.display_height),
        component_depth: optional_dim(info.component_depth),
        subsampling: if info.horiz_subsampling == 0 && info.vert_subsampling == 0 {
            None
        } else {
            Some((info.horiz_subsampling, info.vert_subsampling))
        },
        frame_layout: if info.stored_width == 0 && info.stored_height == 0 {
            None
        } else {
            Some(info.frame_layout)
        },
        aspect_ratio: if info.aspect_ratio.num == 0 {
            None
        } else {
            Some(Rational { num: info.aspect_ratio.num, den: info.aspect_ratio.den })
        },
        video_line_map: if info.video_line_map[0] == 0 && info.video_line_map[1] == 0 {
            None
        } else {
            Some((info.video_line_map[0], info.video_line_map[1]))
        },
        pixel_layout,
        color_primaries: optional_ul(&info.color_primaries),
        transfer_characteristic: optional_ul(&info.transfer_characteristic),
        coding_equations: optional_ul(&info.coding_equations),
        sampling_rate: optional_dim(info.sampling_rate),
        channel_count: optional_dim(info.channel_count),
        quantization_bits: optional_dim(info.quantization_bits),
        edit_rate: Rational { num: info.edit_rate.num, den: info.edit_rate.den },
        duration: info.duration,
    }
}

/// Whether every report lists at most eight pixel components.
pub open spec fn layouts_fit(infos: Seq<MxfuseTrackInfo>) -> bool {
    forall|i: int| 0 <= i < infos.len() ==> #[trigger] infos[i].pixel_layout_count <= 8
}

/// Describes the tracks of a clip from the shim's reports, one per report, in order.
pub fn tracks_from_infos(infos: &[MxfuseTrackInfo]) -> (tracks: Vec<Track>)
    requires
        layouts_fit(infos@),
    ensures
        tracks@.len() == infos@.len(),
        forall|i: int| 0 <= i < infos@.len() ==> track_describes(#[trigger] tracks@[i], infos@[i]),
{
    let mut tracks: Vec<Track> = Vec::new();
    let mut i: usize = 0;
    while i < infos.len()
        invariant
            i <= infos@.len(),
            tracks@.len() == i,
            layouts_fit(infos@),
            forall|k: int| 0 <= k < i ==> track_describes(#[trigger] tracks@[k], infos@[k]),
        decreases infos@.len() - i,
    {
        let track = track_from_info(&infos[i]);
        tracks.push(track);
        i = i + 1;
    }
    tracks
}

/// The frame that a shim view holds, for the given track.
pub fn frame_from_view(view: MxfuseFrameView, track_index: usize) -> (frame: Frame)
    ensures
        frame.data@ == view.data@,
        frame.element_key == view.element_key,
        frame.file_position == view.file_position,
        frame.kl_size == view.kl_size,
        frame.position == view.position,
        frame.track_index == track_index,
{
    Frame {
        data: view.data,
        element_key: view.element_key,
        file_position: view.file_position,
        kl_size: view.kl_size,
        position: view.position,
        track_index,
    }
}

/// The clip-level XML item that a shim view holds: empty C strings and an all-zero
/// scheme read as absent.
pub fn xml_from_view(view: &MxfuseXmlView) -> (item: XmlMetadata)
    ensures
        item.data@ == view.data@,
        item.scheme_id == ul_value(view.scheme_id),
        c_text(view.language@) == match item.language {
            Some(t) => Some(t@),
            None => None,
        },
        c_text(view.mime_type@) == match item.mime_type {
            Some(t) => Some(t@),
            None => None,
        },
        c_text(view.ns@) == match item.namespace {
            Some(t) => Some(t@),
            None => None,
        },
        item.is_xml == (view.is_xml != 0),
{
    let language = c_array_to_string(view.language.as_slice());
    let mime_type = c_array_to_string(view.mime_type.as_slice());
    let namespace = c_array_to_string(view.ns.as_slice());
    let scheme_id = optional_ul(&view.scheme_id);
    XmlMetadata {
        data: view.data.clone(),
        scheme_id,
        language,
        namespace,
        mime_type,
        is_xml: view.is_xml != 0,
    }
}

/// The start timecode that a clip report carries, if any.
pub open spec fn start_timecode_of(info: MxfuseClipInfo) -> Option<Timecode> {
    if info.has_start_timecode != 0 {
        Some(
            Timecode {
                hour: info.start_timecode.hour,
                minute: info.start_timecode.minute,
                second: info.start_timecode.second,
                frame: info.start_timecode.frame,
                drop_frame: info.start_timecode.drop_frame != 0,
            },
        )
    } else {
        None
    }
}

/// An opened MXF clip: what was learnt about it at open time. One reader per thread.
pub struct Clip {
    tracks: Vec<Track>,
    edit_rate: Rational,
    duration: i64,
    start_timecode: Option<Timecode>,
    xml: Vec<XmlMetadata>,
}

impl Clip {
    pub closed spec fn spec_tracks(&self) -> Seq<Track> {
        self.tracks@
    }

    pub closed spec fn spec_edit_rate(&self) -> Rational {
        self.edit_rate
    }

    pub closed spec fn spec_duration(&self) -> i64 {
        self.duration
    }

    pub closed spec fn spec_start_timecode(&self) -> Option<Timecode> {
        self.start_timecode
    }

    pub closed spec fn spec_xml(&self) -> Seq<XmlMetadata> {
        self.xml@
    }

    /// The clip that the shim's report, track descriptions and XML items make up.
    pub fn from_info(info: &MxfuseClipInfo, tracks: Vec<Track>, xml: Vec<XmlMetadata>) -> (clip:
        Self)
        ensures
            clip.spec_tracks() == tracks@,
            clip.spec_edit_rate() == rational_of(info.edit_rate),
            clip.spec_duration() == info.duration,
            clip.spec_start_timecode() == start_timecode_of(*info),
            clip.spec_xml() == xml@,
    {
        Clip {
            tracks,
            edit_rate: Rational { num: info.edit_rate.num, den: info.edit_rate.den },
            duration: info.duration,
            start_timecode: if info.has_start_timecode != 0 {
                Some(
                    Timecode {
                        hour: info.start_timecode.hour,
                        minute: info.start_timecode.minute,
                        second: info.start_timecode.second,
                        frame: info.start_timecode.frame,
                        drop_frame: info.start_timecode.drop_frame != 0,
                    },
                )
            } else {
                None
            },
            xml,
        }
    }

    pub fn edit_rate(&self) -> (rate: Rational)
        ensures
            rate == self.spec_edit_rate(),
    {
        self.edit_rate
    }

    pub fn duration(&self) -> (duration: i64)
        ensures
            duration == self.spec_duration(),
    {
        self.duration
    }

    pub fn start_timecode(&self) -> (timecode: Option<Timecode>)
        ensures
            timecode == self.spec_start_timecode(),
    {
        self.start_timecode
    }

    pub fn tracks(&self) -> (tracks: &[Track])
        ensures
            tracks@ == self.spec_tracks(),
    {
        self.tracks.as_slice()
    }

    pub fn xml(&self) -> (xml: &[XmlMetadata])
        ensures
            xml@ == self.spec_xml(),
    {
        self.xml.as_slice()
    }

    /// Which of the clip's tracks to enable so that exactly the given ones are read:
    /// one `(index, on)` pair per track of the clip, in the clip's order.
    pub fn selection(&self, selected: &[Track]) -> (enables: Vec<(usize, bool)>)
        ensures
            enables@.len() == self.spec_tracks().len(),
            forall|i: int|
                0 <= i < enables@.len() ==> #[trigger] enables@[i] == (
                    self.spec_tracks()[i].index,
                    is_selected(selected@, self.spec_tracks()[i].index),
                ),
    {
        let mut enables: Vec<(usize, bool)> = Vec::new();
        let mut i: usize = 0;
        while i < self.tracks.len()
            invariant
                i <= self.tracks@.len(),
                enables@.len() == i,
                forall|k: int|
                    0 <= k < i ==> #[trigger] enables@[k] == (
                        self.tracks@[k].index,
                        is_selected(selected@, self.tracks@[k].index),
                    ),
            decreases self.tracks@.len() - i,
        {
            let index = self.tracks[i].index;
            let on = contains_index(selected, index);
            enables.push((index, on));
            i = i + 1;
        }
        enables
    }

    /// Which tracks to enable so that exactly those whose index, cut to 32 bits, is
    /// listed are read: one `(index, on)` pair per track of the clip, in order.
    pub fn selection_by_u32(&self, indexes: &[u32]) -> (enables: Vec<(usize, bool)>)
        ensures
            enables@.len() == self.spec_tracks().len(),
            forall|i: int|
                0 <= i < enables@.len() ==> #[trigger] enables@[i] == (
                    self.spec_tracks()[i].index,
                    listed_u32(indexes@, self.spec_tracks()[i].index),
                ),
    {
        let mut enables: Vec<(usize, bool)> = Vec::new();
        let mut i: usize = 0;
        while i < self.tracks.len()
            invariant
                i <= self.tracks@.len(),
                enables@.len() == i,
                forall|k: int|
                    0 <= k < i ==> #[trigger] enables@[k] == (
                        self.tracks@[k].index,
                        listed_u32(indexes@, self.tracks@[k].index),
                    ),
            decreases self.tracks@.len() - i,
        {
            let index = self.tracks[i].index;
            let key = index as u32;
            let mut found = false;
            let mut j: usize = 0;
            while j < indexes.len()
                invariant
                    j <= indexes@.len(),
                    key == index as u32,
                    found == exists|k: int| 0 <= k < j && indexes@[k] == key,
                decreases indexes@.len() - j,
            {
                if indexes[j] == key {
                    found = true;
                }
                j = j + 1;
            }
            enables.push((index, found));
            i = i + 1;
        }
        enables
    }

    /// Which tracks to enable so that exactly those whose index is listed are read:
    /// one `(index, on)` pair per track of the clip, in order.
    pub fn selection_by_index(&self, indexes: &[usize]) -> (enables: Vec<(usize, bool)>)
        ensures
            enables@.len() == self.spec_tracks().len(),
            forall|i: int|
                0 <= i < enables@.len() ==> #[trigger] enables@[i] == (
                    self.spec_tracks()[i].index,
                    indexes@.contains(self.spec_tracks()[i].index),
                ),
    {
        let mut enables: Vec<(usize, bool)> = Vec::new();
        let mut i: usize = 0;
        while i < self.tracks.len()
            invariant
                i <= self.tracks@.len(),
                enables@.len() == i,
                forall|k: int|
                    0 <= k < i ==> #[trigger] enables@[k] == (
                        self.tracks@[k].index,
                        indexes@.contains(self.tracks@[k].index),
                    ),
            decreases self.tracks@.len() - i,
        {
            let index = self.tracks[i].index;
            let mut found = false;
            let mut j: usize = 0;
            while j < indexes.len()
                invariant
                    j <= indexes@.len(),
                    found == exists|k: int| 0 <= k < j && indexes@[k] == index,
                decreases indexes@.len() - j,
            {
                if indexes[j] == index {
                    found = true;
                }
                j = j + 1;
            }
            enables.push((index, found));
            i = i + 1;
        }
        enables
    }

    /// Starts reading `count` edit units.
    pub fn begin_read(&self, count: u32) -> (session: ReadSession)
        ensures
            session.remaining == count,
            session.packages@.len() == 0,
            session.current is None,
            session.next_track == 0,
            !session.exhausted,
            session.units_accounted() == count,
            session.frames_ordered(self.spec_tracks()),
    {
        ReadSession {
            remaining: count,
            packages: Vec::new(),
            current: None,
            next_track: 0,
            exhausted: false,
        }
    }
}

/// Whether `index`, cut to 32 bits, is among `indexes`.
pub open spec fn listed_u32(indexes: Seq<u32>, index: usize) -> bool {
    exists|j: int| 0 <= j < indexes.len() && indexes[j] == index as u32
}

/// Whether a track with the given index is among the selected ones.
pub open spec fn is_selected(selected: Seq<Track>, index: usize) -> bool {
    exists|j: int| 0 <= j < selected.len() && selected[j].index == index
}

fn contains_index(selected: &[Track], index: usize) -> (found: bool)
    ensures
        found == is_selected(selected@, index),
{
    let mut j: usize = 0;
    while j < selected.len()
        invariant
            j <= selected@.len(),
            forall|k: int| 0 <= k < j ==> selected@[k].index != index,
        decreases selected@.len() - j,
    {
        if selected[j].index == index {
            return true;
        }
        j = j + 1;
    }
    false
}

/// The frames come from the tracks at positions below `upto`, at most one from each,
/// in the tracks' order, each frame carrying its track's index.
pub open spec fn frames_in_track_order(frames: Seq<Frame>, tracks: Seq<Track>, upto: int) -> bool
    decreases frames.len(),
{
    if frames.len() == 0 {
        true
    } else {
        exists|j: int|
            0 <= j < upto && j < tracks.len() && #[trigger] tracks[j].index
                == frames.last().track_index && frames_in_track_order(frames.drop_last(), tracks, j)
    }
}

/// Frames in track order from the tracks below `a` are also so from the tracks below
/// any `b` past `a`.
pub proof fn lemma_track_order_widens(frames: Seq<Frame>, tracks: Seq<Track>, a: int, b: int)
    requires
        a <= b,
        frames_in_track_order(frames, tracks, a),
    ensures
        frames_in_track_order(frames, tracks, b),
{
    if frames.len() > 0 {
        let j = choose|j: int|
            0 <= j < a && j < tracks.len() && #[trigger] tracks[j].index
                == frames.last().track_index && frames_in_track_order(frames.drop_last(), tracks, j);
        assert(0 <= j < b && j < tracks.len() && tracks[j].index == frames.last().track_index
            && frames_in_track_order(frames.drop_last(), tracks, j));
    }
}

/// What the reader asks of the shim next.
#[derive(Clone, Copy, Debug, PartialEq, Eq, Structural)]
pub enum ReadStep {
    /// Read one edit unit.
    ReadUnit,
    /// Take the frame of the track with this index from the unit just read.
    PopFrame(usize),
    /// The read is over.
    Done,
}

/// A read of several edit units in progress. bmx is asked for one sample at a time,
/// since asking for several concatenates them into one payload; each unit read gives
/// one package with a frame for every selected track that has one.
pub struct ReadSession {
    pub remaining: u32,
    pub packages: Vec<Package>,
    pub current: Option<Package>,
    pub next_track: usize,
    pub exhausted: bool,
}

impl ReadSession {
    /// The edit units the session accounts for: packages closed, units still to read,
    /// and the unit whose package is open. Every step keeps it, so it stays the count
    /// the read began with.
    pub open spec fn units_accounted(&self) -> int {
        self.packages@.len() + self.remaining + if self.current is Some {
            1int
        } else {
            0int
        }
    }

    /// Every package, the open one included, holds frames in the order of `tracks`:
    /// the open one from the tracks popped so far.
    pub open spec fn frames_ordered(&self, tracks: Seq<Track>) -> bool {
        &&& self.current matches Some(p) ==> frames_in_track_order(
            p.frames@,
            tracks,
            self.next_track as int,
        )
        &&& forall|k: int|
            0 <= k < self.packages@.len() ==> frames_in_track_order(
                #[trigger] self.packages@[k].frames@,
                tracks,
                tracks.len() as int,
            )
    }

    /// The session is well formed for a clip with `num_tracks` tracks.
    pub open spec fn wf(&self, num_tracks: nat) -> bool {
        &&& self.current is Some ==> self.next_track < num_tracks
        &&& self.current is None ==> self.next_track == 0
        &&& self.exhausted ==> self.current is None
    }

    /// What to ask of the shim next.
    pub fn next_step(&self, clip: &Clip) -> (step: ReadStep)
        requires
            self.wf(clip.spec_tracks().len()),
        ensures
            self.current is Some ==> step == ReadStep::PopFrame(
                clip.spec_tracks()[self.next_track as int].index,
            ),
            self.current is None && (self.exhausted || self.remaining == 0) ==> step
                == ReadStep::Done,
            self.current is None && !self.exhausted && self.remaining > 0 ==> step
                == ReadStep::ReadUnit,
    {
        if self.current.is_some() {
            ReadStep::PopFrame(clip.tracks[self.next_track].index)
        } else if self.exhausted || self.remaining == 0 {
            ReadStep::Done
        } else {
            ReadStep::ReadUnit
        }
    }

    /// The shim read `units` edit units after `ReadStep::ReadUnit`: none ends the read;
    /// otherwise a package is begun, and closed at once when the clip has no tracks.
    pub fn unit_read(&mut self, clip: &Clip, units: u32)
        requires
            old(self).wf(clip.spec_tracks().len()),
            old(self).current is None,
            !old(self).exhausted,
            old(self).remaining > 0,
        ensures
            final(self).wf(clip.spec_tracks().len()),
            final(self).units_accounted() == old(self).units_accounted(),
            old(self).frames_ordered(clip.spec_tracks()) ==> final(self).frames_ordered(
                clip.spec_tracks(),
            ),
            units == 0 ==> final(self).exhausted && final(self).remaining == old(self).remaining
                && final(self).packages@ == old(self).packages@,
            units != 0 ==> !final(self).exhausted && final(self).remaining == old(self).remaining
                - 1,
            units != 0 && clip.spec_tracks().len() > 0 ==> (final(self).current matches Some(p)
                && p.frames@.len() == 0) && final(self).next_track == 0,
            units != 0 && clip.spec_tracks().len() > 0 ==> final(self).packages@ == old(
                self,
            ).packages@,
            units != 0 && clip.spec_tracks().len() == 0 ==> final(self).current is None
                && final(self).packages@.len() == old(self).packages@.len() + 1
                && final(self).packages@.take(old(self).packages@.len() as int) == old(
                self,
            ).packages@ && final(self).packages@.last().frames@.len() == 0,
    {
        if units == 0 {
            self.exhausted = true;
            return ;
        }
        self.remaining = self.remaining - 1;
        if clip.tracks.len() == 0 {
            self.packages.push(Package { frames: Vec::new() });
            proof {
                assert(self.packages@.take(old(self).packages@.len() as int) =~= old(self).packages@);
            }
        } else {
            self.current = Some(Package { frames: Vec::new() });
            self.next_track = 0;
        }
    }

    /// The shim answered `ReadStep::PopFrame` with `frame` (none when the track has no
    /// frame in this unit). After the last track the package is closed.
    pub fn frame_popped(&mut self, clip: &Clip, frame: Option<Frame>)
        requires
            old(self).wf(clip.spec_tracks().len()),
            old(self).current is Some,
            frame matches Some(f) ==> f.track_index == clip.spec_tracks()[old(
                self,
            ).next_track as int].index,
        ensures
            final(self).wf(clip.spec_tracks().len()),
            final(self).units_accounted() == old(self).units_accounted(),
            old(self).frames_ordered(clip.spec_tracks()) ==> final(self).frames_ordered(
                clip.spec_tracks(),
            ),
            final(self).remaining == old(self).remaining,
            final(self).exhausted == old(self).exhausted,
            ({
                let frames = old(self).current->0.frames@;
                let grown = match frame {
                    Some(f) => frames.push(f),
                    None => frames,
                };
                if old(self).next_track + 1 < clip.spec_tracks().len() {
                    &&& final(self).current matches Some(p) && p.frames@ == grown
                    &&& final(self).next_track == old(self).next_track + 1
                    &&& final(self).packages@ == old(self).packages@
                } else {
                    &&& final(self).current is None
                    &&& final(self).packages@.len() == old(self).packages@.len() + 1
                    &&& final(self).packages@.take(old(self).packages@.len() as int) == old(
                        self,
                    ).packages@
                    &&& final(self).packages@.last().frames@ == grown
                }
            }),
    {
        let ghost tracks = clip.spec_tracks();
        let ghost ordered = self.frames_ordered(tracks);
        let ghost position = self.next_track as int;
        let mut package = match self.current.take() {
            Some(p) => p,
            None => Package { frames: Vec::new() },
        };
        let ghost frames = package.frames@;
        let ghost given = frame;
        match frame {
            Some(f) => package.frames.push(f),
            None => {},
        }
        proof {
            if ordered {
                if given is Some {
                    assert(package.frames@.drop_last() =~= frames);
                    assert(tracks[position].index == package.frames@.last().track_index);
                    assert(frames_in_track_order(package.frames@, tracks, position + 1));
                } else {
                    lemma_track_order_widens(frames, tracks, position, position + 1);
                }
            }
        }
        if self.next_track < clip.tracks.len() - 1 {
            self.current = Some(package);
            self.next_track = self.next_track + 1;
        } else {
            self.packages.push(package);
            self.next_track = 0;
            proof {
                assert(self.packages@.take(old(self).packages@.len() as int) =~= old(self).packages@);
            }
        }
    }

    /// The packages read, one per edit unit, once `ReadStep::Done` was given.
    pub fn finish(self) -> (packages: Vec<Package>)
        ensures
            packages@ == self.packages@,
            packages@.len() <= self.units_accounted(),
    {
        self.packages
    }
}

} // verus!
