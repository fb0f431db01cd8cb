use mxfuse::reader::{
    frame_from_view, optional_dim, optional_ul, track_from_info, tracks_from_infos, xml_from_view, Clip,
    MxfuseClipInfo, MxfuseFrameView, MxfuseRational, MxfuseTimecode, MxfuseTrackInfo,
    MxfuseXmlView, ReadStep,
};
use mxfuse::{DescriptorKind, EssenceType, Frame, PixelComponent, Rational, Track, TrackKind};

fn blank_info(index: usize) -> MxfuseTrackInfo {
    MxfuseTrackInfo {
        index,
        data_def: 1,
        essence_type: 97,
        essence_container_ul: [7; 16],
        edit_rate: MxfuseRational { num: 25, den: 1 },
        duration: 10,
        enabled: 1,
        coding_ul: [0; 16],
        descriptor_kind: 0,
        stored_width: 0,
        stored_height: 0,
        display_width: 0,
        display_height: 0,
        component_depth: 0,
        horiz_subsampling: 0,
        vert_subsampling: 0,
        frame_layout: 0,
        aspect_ratio: MxfuseRational { num: 0, den: 0 },
        video_line_map: [0, 0],
        pixel_layout_count: 0,
        pixel_layout: [0; 16],
        color_primaries: [0; 16],
        transfer_characteristic: [0; 16],
        coding_equations: [0; 16],
        sampling_rate: 0,
        channel_count: 0,
        quantization_bits: 0,
    }
}

#[test]
fn zero_values_read_as_absent() {
    assert_eq!(optional_ul(&[0; 16]), None);
    let mut ul = [0u8; 16];
    ul[15] = 1;
    assert_eq!(optional_ul(&ul), Some(ul));
    assert_eq!(optional_dim(0), None);
    assert_eq!(optional_dim(1920), Some(1920));
}

#[test]
fn bare_info_gives_a_bare_track() {
    let track = track_from_info(&blank_info(3));
    assert_eq!(track.index, 3);
    assert_eq!(track.kind, TrackKind::Picture);
    assert_eq!(track.essence_type, EssenceType(97));
    assert_eq!(track.essence_container_ul, [7; 16]);
    assert_eq!(track.coding_ul, None);
    assert_eq!(track.descriptor, DescriptorKind::Default);
    assert_eq!(track.stored_width, None);
    assert_eq!(track.subsampling, None);
    assert_eq!(track.frame_layout, None);
    assert_eq!(track.aspect_ratio, None);
    assert_eq!(track.video_line_map, None);
    assert!(track.pixel_layout.is_empty());
    assert_eq!(track.sampling_rate, None);
    assert_eq!(track.edit_rate, Rational { num: 25, den: 1 });
    assert_eq!(track.duration, 10);
}

#[test]
fn full_info_gives_every_field() {
    let mut info = blank_info(0);
    info.coding_ul = [9; 16];
    info.descriptor_kind = 2;
    info.stored_width = 4096;
    info.stored_height = 2160;
    info.display_width = 4096;
    info.display_height = 2160;
    info.component_depth = 10;
    info.horiz_subsampling = 2;
    info.vert_subsampling = 1;
    info.frame_layout = 0;
    info.aspect_ratio = MxfuseRational { num: 16, den: 9 };
    info.video_line_map = [1, 0];
    info.pixel_layout_count = 3;
    info.pixel_layout[..6].copy_from_slice(&[b'R', 32, b'G', 32, b'B', 32]);
    info.pixel_layout[6] = 0xee;
    let track = track_from_info(&info);
    assert_eq!(track.coding_ul, Some([9; 16]));
    assert_eq!(track.descriptor, DescriptorKind::Rgba);
    assert_eq!(track.stored_width, Some(4096));
    assert_eq!(track.display_height, Some(2160));
    assert_eq!(track.component_depth, Some(10));
    assert_eq!(track.subsampling, Some((2, 1)));
    assert_eq!(track.frame_layout, Some(0));
    assert_eq!(track.aspect_ratio, Some(Rational { num: 16, den: 9 }));
    assert_eq!(track.video_line_map, Some((1, 0)));
    assert_eq!(
        track.pixel_layout,
        vec![
            PixelComponent { code: b'R', depth: 32 },
            PixelComponent { code: b'G', depth: 32 },
            PixelComponent { code: b'B', depth: 32 },
        ]
    );
}

#[test]
fn sound_info_reports_audio_fields() {
    let mut info = blank_info(1);
    info.data_def = 2;
    info.essence_type = 90;
    info.sampling_rate = 48_000;
    info.channel_count = 2;
    info.quantization_bits = 24;
    let track = track_from_info(&info);
    assert_eq!(track.kind, TrackKind::Sound);
    assert_eq!(track.sampling_rate, Some(48_000));
    assert_eq!(track.channel_count, Some(2));
    assert_eq!(track.quantization_bits, Some(24));
}

#[test]
fn frame_view_becomes_a_frame() {
    let view = MxfuseFrameView {
        data: vec![1, 2, 3],
        element_key: [4; 16],
        file_position: 1000,
        kl_size: 20,
        position: 5,
    };
    let frame = frame_from_view(view, 2);
    assert_eq!(
        frame,
        Frame {
            data: vec![1, 2, 3],
            element_key: [4; 16],
            file_position: 1000,
            kl_size: 20,
            position: 5,
            track_index: 2,
        }
    );
}

#[test]
fn xml_view_becomes_an_item() {
    let view = MxfuseXmlView {
        data: b"<a/>".to_vec(),
        scheme_id: [0; 16],
        language: b"en\0\0".to_vec(),
        mime_type: b"\0".to_vec(),
        ns: b"urn:x\0".to_vec(),
        is_xml: 1,
    };
    let item = xml_from_view(&view);
    assert_eq!(item.data, b"<a/>".to_vec());
    assert_eq!(item.scheme_id, None);
    assert_eq!(item.language.as_deref(), Some("en"));
    assert_eq!(item.mime_type, None);
    assert_eq!(item.namespace.as_deref(), Some("urn:x"));
    assert!(item.is_xml);
}

fn two_track_clip() -> Clip {
    let info = MxfuseClipInfo {
        edit_rate: MxfuseRational { num: 24, den: 1 },
        duration: 48,
        num_tracks: 2,
        has_start_timecode: 1,
        start_timecode: MxfuseTimecode { hour: 1, minute: 2, second: 3, frame: 4, drop_frame: 0 },
    };
    let mut sound = blank_info(1);
    sound.data_def = 2;
    let tracks = vec![track_from_info(&blank_info(0)), track_from_info(&sound)];
    Clip::from_info(&info, tracks, vec![])
}

#[test]
fn clip_reports_what_was_opened() {
    let clip = two_track_clip();
    assert_eq!(clip.edit_rate(), Rational { num: 24, den: 1 });
    assert_eq!(clip.duration(), 48);
    let timecode = clip.start_timecode().unwrap();
    assert_eq!((timecode.hour, timecode.minute, timecode.second, timecode.frame), (1, 2, 3, 4));
    assert!(!timecode.drop_frame);
    assert_eq!(clip.tracks().len(), 2);
    assert!(clip.xml().is_empty());
}

#[test]
fn selection_enables_exactly_the_chosen_tracks() {
    let clip = two_track_clip();
    let picture: Vec<Track> = clip
        .tracks()
        .iter()
        .filter(|track| track.kind == TrackKind::Picture)
        .cloned()
        .collect();
    assert_eq!(clip.selection(&picture), vec![(0, true), (1, false)]);
    assert_eq!(clip.selection(&[]), vec![(0, false), (1, false)]);
    let all = clip.tracks().to_vec();
    assert_eq!(clip.selection(&all), vec![(0, true), (1, true)]);
}

fn frame(track_index: usize, byte: u8) -> Frame {
    Frame {
        data: vec![byte],
        element_key: [0; 16],
        file_position: 0,
        kl_size: 0,
        position: 0,
        track_index,
    }
}

#[test]
fn read_session_builds_one_package_per_unit() {
    let clip = two_track_clip();
    let mut session = clip.begin_read(2);
    assert_eq!(session.next_step(&clip), ReadStep::ReadUnit);
    session.unit_read(&clip, 1);
    assert_eq!(session.next_step(&clip), ReadStep::PopFrame(0));
    session.frame_popped(&clip, Some(frame(0, 1)));
    assert_eq!(session.next_step(&clip), ReadStep::PopFrame(1));
    session.frame_popped(&clip, None);
    assert_eq!(session.next_step(&clip), ReadStep::ReadUnit);
    session.unit_read(&clip, 1);
    session.frame_popped(&clip, Some(frame(0, 2)));
    session.frame_popped(&clip, Some(frame(1, 3)));
    assert_eq!(session.next_step(&clip), ReadStep::Done);
    let packages = session.finish();
    assert_eq!(packages.len(), 2);
    assert_eq!(packages[0].frames, vec![frame(0, 1)]);
    assert_eq!(packages[1].frames, vec![frame(0, 2), frame(1, 3)]);
}

#[test]
fn read_session_stops_at_the_end_of_the_clip() {
    let clip = two_track_clip();
    let mut session = clip.begin_read(5);
    session.unit_read(&clip, 0);
    assert_eq!(session.next_step(&clip), ReadStep::Done);
    assert!(session.finish().is_empty());
    let mut none = clip.begin_read(0);
    assert_eq!(none.next_step(&clip), ReadStep::Done);
    none.exhausted = false;
    assert!(none.finish().is_empty());
}

#[test]
fn reports_become_tracks_in_order() {
    let mut second = blank_info(1);
    second.data_def = 2;
    let tracks = tracks_from_infos(&[blank_info(0), second]);
    assert_eq!(tracks.len(), 2);
    assert_eq!(tracks[0].index, 0);
    assert_eq!(tracks[0].kind, TrackKind::Picture);
    assert_eq!(tracks[1].index, 1);
    assert_eq!(tracks[1].kind, TrackKind::Sound);
    assert!(tracks_from_infos(&[]).is_empty());
}
