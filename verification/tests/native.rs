use mxfuse::native::{
    clip_spec_from_native, identity_from_native, native_clip_info, native_frame_from,
    native_packages_from, native_track_from, optional_ul, optional_umid, read_options_from,
    track_spec_from_native, xml_from_native, xml_to_native, NativeClipSpec, NativeIdentity,
    NativePixelComponent, NativeReadOptions, NativeTimecode, NativeTrackSpec, NativeXmlMetadata,
};
use mxfuse::reader::{Clip, MxfuseClipInfo, MxfuseRational, MxfuseTimecode};
use mxfuse::{
    DescriptorKind, EssenceType, Frame, Package, PixelComponent, Rational, Track, TrackKind,
    XmlMetadata,
};

fn bare_track_spec(essence_type: i32) -> NativeTrackSpec {
    NativeTrackSpec {
        essence_type,
        sampling_rate: None,
        channel_count: None,
        quantization_bits: None,
        stored_width: None,
        stored_height: None,
        essence_container_ul: None,
        coding_ul: None,
        element_type: None,
        element_llen: None,
        temporal_reordering: None,
        descriptor: None,
        component_depth: None,
        horiz_subsampling: None,
        vert_subsampling: None,
        frame_layout: None,
        aspect_ratio_num: None,
        aspect_ratio_den: None,
        video_line_map: None,
        pixel_layout: None,
        color_primaries: None,
        transfer_characteristic: None,
        coding_equations: None,
    }
}

fn bare_identity() -> NativeIdentity {
    NativeIdentity {
        company_name: None,
        product_name: None,
        version_string: None,
        product_version: None,
        product_uid: None,
        creation_date: None,
        generation_uid: None,
        material_package_uid: None,
        file_source_package_uid: None,
    }
}

fn xml_item(data: &[u8]) -> NativeXmlMetadata {
    NativeXmlMetadata {
        data: data.to_vec(),
        scheme_id: None,
        language: None,
        namespace: None,
        mime_type: None,
        is_xml: true,
    }
}

fn bare_clip_spec(tracks: Vec<NativeTrackSpec>) -> NativeClipSpec {
    NativeClipSpec {
        edit_rate_num: 25,
        edit_rate_den: 1,
        flavour: None,
        duration: None,
        tracks,
        xml: None,
        start_timecode: None,
        timecode_track: None,
        system_item: None,
        identity: None,
    }
}

fn picture_track(index: usize) -> Track {
    Track {
        index,
        kind: TrackKind::Picture,
        essence_type: EssenceType(97),
        essence_container_ul: [3; 16],
        coding_ul: Some([4; 16]),
        descriptor: DescriptorKind::Rgba,
        stored_width: Some(1920),
        stored_height: Some(1080),
        display_width: None,
        display_height: None,
        component_depth: Some(10),
        subsampling: Some((2, 1)),
        frame_layout: Some(0),
        aspect_ratio: Some(Rational { num: 16, den: 9 }),
        video_line_map: Some((21, 584)),
        pixel_layout: vec![
            PixelComponent { code: b'R', depth: 10 },
            PixelComponent { code: b'G', depth: 10 },
        ],
        color_primaries: None,
        transfer_characteristic: Some([5; 16]),
        coding_equations: None,
        sampling_rate: None,
        channel_count: None,
        quantization_bits: None,
        edit_rate: Rational { num: 25, den: 1 },
        duration: 250,
    }
}

#[test]
fn read_options_take_defaults_when_unset() {
    let chosen = read_options_from(None);
    assert_eq!(chosen.read_ahead, 1 << 20);
    assert_eq!(chosen.cache_bytes, 64 << 20);
    let chosen = read_options_from(Some(NativeReadOptions {
        read_ahead: Some(0),
        cache_bytes: None,
    }));
    assert_eq!(chosen.read_ahead, 0);
    assert_eq!(chosen.cache_bytes, 64 << 20);
    let chosen = read_options_from(Some(NativeReadOptions {
        read_ahead: None,
        cache_bytes: Some(4096),
    }));
    assert_eq!(chosen.read_ahead, 1 << 20);
    assert_eq!(chosen.cache_bytes, 4096);
}

#[test]
fn kinds_have_their_names() {
    assert_eq!(TrackKind::Picture.name(), "picture");
    assert_eq!(TrackKind::Sound.name(), "sound");
    assert_eq!(TrackKind::Data.name(), "data");
    assert_eq!(TrackKind::Other.name(), "other");
}

#[test]
fn labels_must_be_sixteen_bytes() {
    assert_eq!(optional_ul(None, "codingUl").unwrap(), None);
    assert_eq!(optional_ul(Some(vec![9; 16]), "codingUl").unwrap(), Some([9; 16]));
    let error = optional_ul(Some(vec![9; 15]), "codingUl").unwrap_err();
    assert_eq!(error.message(), "codingUl must be 16 bytes");
    let error = optional_ul(Some(vec![9; 32]), "schemeId").unwrap_err();
    assert_eq!(error.message(), "schemeId must be 16 bytes");
}

#[test]
fn package_ids_must_be_thirty_two_bytes() {
    assert_eq!(optional_umid(None, "materialPackageUid").unwrap(), None);
    assert_eq!(
        optional_umid(Some(vec![1; 32]), "materialPackageUid").unwrap(),
        Some([1; 32])
    );
    let error = optional_umid(Some(vec![1; 16]), "materialPackageUid").unwrap_err();
    assert_eq!(error.message(), "materialPackageUid must be 32 bytes");
}

#[test]
fn track_description_carries_every_field() {
    let track = picture_track(2);
    let native = native_track_from(&track, "RGBA".to_string());
    assert_eq!(native.index, 2);
    assert_eq!(native.kind, "picture");
    assert_eq!(native.essence_type, "RGBA");
    assert_eq!(native.essence_container_ul, vec![3; 16]);
    assert_eq!(native.coding_ul, Some(vec![4; 16]));
    assert_eq!(native.descriptor, 2);
    assert_eq!(native.stored_width, Some(1920));
    assert_eq!(native.stored_height, Some(1080));
    assert_eq!(native.display_width, None);
    assert_eq!(native.component_depth, Some(10));
    assert_eq!(native.horiz_subsampling, Some(2));
    assert_eq!(native.vert_subsampling, Some(1));
    assert_eq!(native.frame_layout, Some(0));
    assert_eq!(native.aspect_ratio_num, Some(16));
    assert_eq!(native.aspect_ratio_den, Some(9));
    assert_eq!(native.video_line_map, Some(vec![21, 584]));
    assert_eq!(
        native.pixel_layout,
        vec![
            NativePixelComponent { code: b'R' as u32, depth: 10 },
            NativePixelComponent { code: b'G' as u32, depth: 10 },
        ]
    );
    assert_eq!(native.color_primaries, None);
    assert_eq!(native.transfer_characteristic, Some(vec![5; 16]));
    assert_eq!(native.edit_rate_num, 25);
    assert_eq!(native.edit_rate_den, 1);
    assert_eq!(native.duration, 250);
}

#[test]
fn clip_info_describes_each_track() {
    let info = MxfuseClipInfo {
        edit_rate: MxfuseRational { num: 30000, den: 1001 },
        duration: 250,
        num_tracks: 2,
        has_start_timecode: 1,
        start_timecode: MxfuseTimecode {
            hour: 10,
            minute: 0,
            second: 3,
            frame: 12,
            drop_frame: 1,
        },
    };
    let mut sound = picture_track(1);
    sound.kind = TrackKind::Sound;
    let clip = Clip::from_info(&info, vec![picture_track(0), sound], Vec::new());
    let native = native_clip_info(&clip, vec!["RGBA".to_string(), "WAVE PCM".to_string()]);
    assert_eq!(native.edit_rate_num, 30000);
    assert_eq!(native.edit_rate_den, 1001);
    assert_eq!(native.duration, 250);
    assert_eq!(native.tracks.len(), 2);
    assert_eq!(native.tracks[0].kind, "picture");
    assert_eq!(native.tracks[0].essence_type, "RGBA");
    assert_eq!(native.tracks[1].kind, "sound");
    assert_eq!(native.tracks[1].essence_type, "WAVE PCM");
    assert_eq!(
        native.start_timecode,
        Some(NativeTimecode {
            hour: 10,
            minute: 0,
            second: 3,
            frame: 12,
            drop_frame: true,
        })
    );
}

#[test]
fn frames_keep_their_payload_and_key() {
    let frame = Frame {
        data: vec![1, 2, 3],
        element_key: [6; 16],
        file_position: 4096,
        kl_size: 20,
        position: 7,
        track_index: 1,
    };
    let native = native_frame_from(frame.clone());
    assert_eq!(native.data, vec![1, 2, 3]);
    assert_eq!(native.element_key, vec![6; 16]);
    assert_eq!(native.file_position, 4096);
    assert_eq!(native.kl_size, 20);
    assert_eq!(native.position, 7);
    assert_eq!(native.track_index, 1);
    let packages = native_packages_from(vec![
        Package { frames: vec![frame.clone(), frame] },
        Package { frames: Vec::new() },
    ]);
    assert_eq!(packages.len(), 2);
    assert_eq!(packages[0].frames.len(), 2);
    assert_eq!(packages[1].frames.len(), 0);
    assert_eq!(packages[0].frames[1].data, vec![1, 2, 3]);
}

#[test]
fn xml_items_cross_both_ways() {
    let mut item = XmlMetadata::new(b"<a/>".to_vec());
    item.scheme_id = Some([8; 16]);
    item.language = Some("en".to_string());
    let native = xml_to_native(&item);
    assert_eq!(native.data, b"<a/>".to_vec());
    assert_eq!(native.scheme_id, Some(vec![8; 16]));
    assert_eq!(native.language.as_deref(), Some("en"));
    assert_eq!(native.namespace, None);
    assert!(native.is_xml);
    let back = xml_from_native(native).unwrap();
    assert_eq!(back, item);
}

#[test]
fn xml_items_drop_empty_names_and_check_the_scheme() {
    let mut native = xml_item(b"<b/>");
    native.mime_type = Some(String::new());
    native.namespace = Some("urn:x".to_string());
    let item = xml_from_native(native).unwrap();
    assert_eq!(item.mime_type, None);
    assert_eq!(item.namespace.as_deref(), Some("urn:x"));
    let mut native = xml_item(b"<b/>");
    native.scheme_id = Some(vec![0; 3]);
    assert_eq!(
        xml_from_native(native).unwrap_err().message(),
        "schemeId must be 16 bytes"
    );
}

#[test]
fn identity_fields_are_cut_and_checked() {
    let mut item = bare_identity();
    item.company_name = Some("Acme".to_string());
    item.product_name = Some(String::new());
    item.product_version = Some(vec![1, 2, 3, 4, 70000]);
    item.creation_date = Some(vec![2024, 5, 6]);
    item.product_uid = Some(vec![2; 16]);
    item.material_package_uid = Some(vec![3; 32]);
    let id = identity_from_native(item).unwrap();
    assert_eq!(id.company_name.as_deref(), Some("Acme"));
    assert_eq!(id.product_name, None);
    assert_eq!(id.product_version, Some((1, 2, 3, 4, 70000u32 as u16)));
    assert_eq!(id.creation_date, None);
    assert_eq!(id.product_uid, Some([2; 16]));
    assert_eq!(id.material_package_uid, Some([3; 32]));
    assert_eq!(id.file_source_package_uid, None);

    let mut item = bare_identity();
    item.creation_date = Some(vec![2024, 5, 6, 7, 8, 9, 10]);
    let id = identity_from_native(item).unwrap();
    assert_eq!(id.creation_date, Some((2024, 5, 6, 7, 8, 9, 10)));

    let mut item = bare_identity();
    item.generation_uid = Some(vec![1; 4]);
    item.file_source_package_uid = Some(vec![1; 4]);
    assert_eq!(
        identity_from_native(item).unwrap_err().message(),
        "generationUid must be 16 bytes"
    );
    let mut item = bare_identity();
    item.file_source_package_uid = Some(vec![1; 16]);
    assert_eq!(
        identity_from_native(item).unwrap_err().message(),
        "fileSourcePackageUid must be 32 bytes"
    );
}

#[test]
fn track_specs_take_pairs_only_when_whole() {
    let mut native = bare_track_spec(90);
    native.sampling_rate = Some(48000);
    native.channel_count = Some(2);
    native.quantization_bits = Some(24);
    native.horiz_subsampling = Some(2);
    native.aspect_ratio_num = Some(16);
    native.aspect_ratio_den = Some(9);
    native.video_line_map = Some(vec![21]);
    native.element_type = Some(0x1_05);
    native.descriptor = Some(3);
    native.pixel_layout = Some(vec![NativePixelComponent { code: b'B' as u32, depth: 8 }]);
    native.coding_ul = Some(vec![4; 16]);
    let spec = track_spec_from_native(native).unwrap();
    assert_eq!(spec.essence_type, EssenceType(90));
    assert_eq!(spec.sampling_rate, Some(48000));
    assert_eq!(spec.channel_count, Some(2));
    assert_eq!(spec.quantization_bits, Some(24));
    assert_eq!(spec.subsampling, None);
    assert_eq!(spec.aspect_ratio, Some(Rational { num: 16, den: 9 }));
    assert_eq!(spec.video_line_map, None);
    assert_eq!(spec.element_type, Some(5));
    assert!(!spec.temporal_reordering);
    assert_eq!(spec.descriptor, Some(DescriptorKind::WaveAudio));
    assert_eq!(spec.pixel_layout, Some(vec![PixelComponent { code: b'B', depth: 8 }]));
    assert_eq!(spec.coding_ul, Some([4; 16]));
    assert_eq!(spec.essence_container_ul, None);

    let mut native = bare_track_spec(90);
    native.video_line_map = Some(vec![21, 584, 9]);
    native.vert_subsampling = Some(1);
    native.horiz_subsampling = Some(2);
    let spec = track_spec_from_native(native).unwrap();
    assert_eq!(spec.video_line_map, Some((21, 584)));
    assert_eq!(spec.subsampling, Some((2, 1)));
}

#[test]
fn track_spec_reports_the_first_bad_label() {
    let mut native = bare_track_spec(97);
    native.coding_equations = Some(vec![1; 2]);
    native.coding_ul = Some(vec![1; 2]);
    assert_eq!(
        track_spec_from_native(native).unwrap_err().message(),
        "codingUl must be 16 bytes"
    );
    let mut native = bare_track_spec(97);
    native.essence_container_ul = Some(vec![1; 17]);
    assert_eq!(
        track_spec_from_native(native).unwrap_err().message(),
        "essenceContainerUl must be 16 bytes"
    );
}

#[test]
fn clip_spec_takes_defaults() {
    let spec = clip_spec_from_native(bare_clip_spec(vec![bare_track_spec(90)])).unwrap();
    assert_eq!(spec.edit_rate, Rational { num: 25, den: 1 });
    assert_eq!(spec.flavour.0, 0);
    assert_eq!(spec.duration, None);
    assert_eq!(spec.tracks.len(), 1);
    assert!(spec.xml.is_empty());
    assert_eq!(spec.start_timecode, None);
    assert!(spec.timecode_track);
    assert!(!spec.system_item);
    assert_eq!(spec.identity, None);
}

#[test]
fn clip_spec_carries_what_is_given() {
    let mut native = bare_clip_spec(vec![bare_track_spec(90), bare_track_spec(97)]);
    native.flavour = Some(8);
    native.duration = Some(100);
    native.xml = Some(vec![xml_item(b"<x/>")]);
    native.start_timecode = Some(NativeTimecode {
        hour: 1,
        minute: 2,
        second: 3,
        frame: 4,
        drop_frame: false,
    });
    native.timecode_track = Some(false);
    native.system_item = Some(true);
    let mut identity = bare_identity();
    identity.company_name = Some("Acme".to_string());
    native.identity = Some(identity);
    let spec = clip_spec_from_native(native).unwrap();
    assert_eq!(spec.flavour.0, 8);
    assert_eq!(spec.duration, Some(100));
    assert_eq!(spec.tracks.len(), 2);
    assert_eq!(spec.tracks[1].essence_type, EssenceType(97));
    assert_eq!(spec.xml.len(), 1);
    assert_eq!(spec.xml[0].data, b"<x/>".to_vec());
    assert_eq!(spec.start_timecode.unwrap().frame, 4);
    assert!(!spec.timecode_track);
    assert!(spec.system_item);
    assert_eq!(spec.identity.unwrap().company_name.as_deref(), Some("Acme"));
}

#[test]
fn clip_spec_checks_tracks_then_xml_then_identity() {
    let mut bad_track = bare_track_spec(90);
    bad_track.color_primaries = Some(vec![1]);
    let mut native = bare_clip_spec(vec![bare_track_spec(90), bad_track]);
    let mut bad_xml = xml_item(b"<x/>");
    bad_xml.scheme_id = Some(vec![1]);
    native.xml = Some(vec![bad_xml.clone()]);
    let mut bad_identity = bare_identity();
    bad_identity.product_uid = Some(vec![1]);
    native.identity = Some(bad_identity.clone());
    assert_eq!(
        clip_spec_from_native(native).unwrap_err().message(),
        "colorPrimaries must be 16 bytes"
    );

    let mut native = bare_clip_spec(vec![bare_track_spec(90)]);
    native.xml = Some(vec![xml_item(b"<ok/>"), bad_xml]);
    native.identity = Some(bad_identity.clone());
    assert_eq!(
        clip_spec_from_native(native).unwrap_err().message(),
        "schemeId must be 16 bytes"
    );

    let mut native = bare_clip_spec(vec![bare_track_spec(90)]);
    native.identity = Some(bad_identity);
    assert_eq!(
        clip_spec_from_native(native).unwrap_err().message(),
        "productUid must be 16 bytes"
    );
}
