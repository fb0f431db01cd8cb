use mxfuse::reader::{track_from_info, MxfuseRational, MxfuseTrackInfo};
use mxfuse::writer::{
    apply_identity, clip_options, copy_c_array, pcm_bytes_per_sample, pcm_sample_bytes_fit,
    track_spec_to_c, validate_xml, writer_open, ClipWriter, MxfuseClipOptions, MxfuseTrackSpec,
    SampleWrite, MXFUSE_CLIP_HAS_COMPANY, MXFUSE_CLIP_HAS_START_TIMECODE,
    MXFUSE_CLIP_HAS_SYSTEM_ITEM, MXFUSE_CLIP_HAS_TIMECODE_TRACK, MXFUSE_TRACK_HAS_CODING_UL,
    MXFUSE_TRACK_HAS_CONTAINER_UL, MXFUSE_TRACK_HAS_PIXEL_LAYOUT, MXFUSE_TRACK_HAS_SAMPLING_RATE,
    MXFUSE_TRACK_HAS_STORED_HEIGHT, MXFUSE_TRACK_HAS_STORED_WIDTH,
};
use mxfuse::{
    ClipSpec, DescriptorKind, EssenceType, Flavour, Identity, PixelComponent, Rational, Timecode,
    TrackSpec, XmlMetadata,
};

const CONTAINER_UL: [u8; 16] = [
    0x06, 0x0e, 0x2b, 0x34, 0x04, 0x01, 0x01, 0x01, 0x0d, 0x01, 0x03, 0x01, 0x02, 0x7f, 0x01, 0x01,
];
const CODING_UL: [u8; 16] = [
    0x06, 0x0e, 0x2b, 0x34, 0x04, 0x01, 0x01, 0x01, 0x04, 0x01, 0x02, 0x01, 0x7f, 0x00, 0x00, 0x00,
];

fn pcm(channels: Option<u32>, bits: Option<u32>) -> TrackSpec {
    TrackSpec {
        sampling_rate: Some(48_000),
        channel_count: channels,
        quantization_bits: bits,
        ..TrackSpec::new(EssenceType::wave_pcm())
    }
}

#[test]
fn bare_track_spec_sets_no_flags() {
    let c = track_spec_to_c(&TrackSpec::new(EssenceType::unc_hd_1080p()));
    let mut expected = MxfuseTrackSpec::default();
    expected.essence_type = 35;
    assert_eq!(c, expected);
}

#[test]
fn opaque_track_spec_flags_every_given_field() {
    let spec = TrackSpec {
        stored_width: Some(64),
        stored_height: Some(32),
        essence_container_ul: Some(CONTAINER_UL),
        coding_ul: Some(CODING_UL),
        ..TrackSpec::new(EssenceType::opaque_picture())
    };
    let c = track_spec_to_c(&spec);
    assert_eq!(c.essence_type, 97);
    assert_eq!(
        c.flags,
        MXFUSE_TRACK_HAS_STORED_WIDTH
            | MXFUSE_TRACK_HAS_STORED_HEIGHT
            | MXFUSE_TRACK_HAS_CONTAINER_UL
            | MXFUSE_TRACK_HAS_CODING_UL
    );
    assert_eq!(c.stored_width, 64);
    assert_eq!(c.stored_height, 32);
    assert_eq!(c.essence_container_ul, CONTAINER_UL);
    assert_eq!(c.picture_coding_ul, CODING_UL);
}

#[test]
fn sampling_rate_becomes_a_whole_rational() {
    let c = track_spec_to_c(&pcm(Some(1), Some(16)));
    assert_eq!(c.flags & MXFUSE_TRACK_HAS_SAMPLING_RATE, MXFUSE_TRACK_HAS_SAMPLING_RATE);
    assert_eq!(c.sampling_rate, MxfuseRational { num: 48_000, den: 1 });
    assert_eq!(c.channel_count, 1);
    assert_eq!(c.quantization_bits, 16);
}

#[test]
fn pixel_layout_is_cut_to_eight_components() {
    let layout: Vec<PixelComponent> = (0..10u8)
        .map(|i| PixelComponent { code: b'A' + i, depth: i })
        .collect();
    let spec = TrackSpec {
        pixel_layout: Some(layout),
        ..TrackSpec::new(EssenceType::opaque_picture())
    };
    let c = track_spec_to_c(&spec);
    assert_eq!(c.flags, MXFUSE_TRACK_HAS_PIXEL_LAYOUT);
    assert_eq!(c.pixel_layout_count, 8);
    assert_eq!(c.pixel_layout[0], b'A');
    assert_eq!(c.pixel_layout[1], 0);
    assert_eq!(c.pixel_layout[14], b'H');
    assert_eq!(c.pixel_layout[15], 7);

    let empty = TrackSpec {
        pixel_layout: Some(vec![]),
        ..TrackSpec::new(EssenceType::opaque_picture())
    };
    let c = track_spec_to_c(&empty);
    assert_eq!(c.flags, MXFUSE_TRACK_HAS_PIXEL_LAYOUT);
    assert_eq!(c.pixel_layout_count, 0);
}

/// What a file written from `c` reports when opened again.
fn read_back(c: &MxfuseTrackSpec) -> MxfuseTrackInfo {
    MxfuseTrackInfo {
        index: 0,
        data_def: 1,
        essence_type: c.essence_type,
        essence_container_ul: c.essence_container_ul,
        edit_rate: MxfuseRational { num: 24, den: 1 },
        duration: 2,
        enabled: 1,
        coding_ul: c.picture_coding_ul,
        descriptor_kind: c.descriptor_kind,
        stored_width: c.stored_width,
        stored_height: c.stored_height,
        display_width: c.stored_width,
        display_height: c.stored_height,
        component_depth: c.component_depth,
        horiz_subsampling: c.horiz_subsampling,
        vert_subsampling: c.vert_subsampling,
        frame_layout: c.frame_layout,
        aspect_ratio: c.aspect_ratio,
        video_line_map: c.video_line_map,
        pixel_layout_count: c.pixel_layout_count,
        pixel_layout: c.pixel_layout,
        color_primaries: c.color_primaries,
        transfer_characteristic: c.transfer_characteristic,
        coding_equations: c.coding_equations,
        sampling_rate: c.sampling_rate.num as u32,
        channel_count: c.channel_count,
        quantization_bits: c.quantization_bits,
    }
}

#[test]
fn private_mapping_survives_a_round_trip() {
    let spec = TrackSpec {
        essence_container_ul: Some(CONTAINER_UL),
        coding_ul: Some(CODING_UL),
        stored_width: Some(4096),
        stored_height: Some(2160),
        element_type: Some(0x70),
        element_llen: Some(8),
        temporal_reordering: true,
        descriptor: Some(DescriptorKind::Rgba),
        aspect_ratio: Some(Rational { num: 16, den: 9 }),
        video_line_map: Some((1, 0)),
        pixel_layout: Some(vec![
            PixelComponent { code: b'R', depth: 32 },
            PixelComponent { code: b'G', depth: 32 },
            PixelComponent { code: b'B', depth: 32 },
        ]),
        color_primaries: Some([3; 16]),
        ..TrackSpec::new(EssenceType::opaque_picture())
    };
    let track = track_from_info(&read_back(&track_spec_to_c(&spec)));
    assert_eq!(track.essence_type, spec.essence_type);
    assert_eq!(track.essence_container_ul, CONTAINER_UL);
    assert_eq!(track.coding_ul, Some(CODING_UL));
    assert_eq!(track.descriptor, DescriptorKind::Rgba);
    assert_eq!(track.stored_width, Some(4096));
    assert_eq!(track.stored_height, Some(2160));
    assert_eq!(track.frame_layout, Some(0));
    assert_eq!(track.aspect_ratio, Some(Rational { num: 16, den: 9 }));
    assert_eq!(track.video_line_map, Some((1, 0)));
    assert_eq!(track.pixel_layout, spec.pixel_layout.clone().unwrap());
    assert_eq!(track.color_primaries, Some([3; 16]));
    assert_eq!(track.transfer_characteristic, None);
}

#[test]
fn zero_values_do_not_survive_a_round_trip() {
    let spec = TrackSpec {
        stored_width: Some(0),
        coding_ul: Some([0; 16]),
        video_line_map: Some((0, 0)),
        ..TrackSpec::new(EssenceType::opaque_picture())
    };
    let track = track_from_info(&read_back(&track_spec_to_c(&spec)));
    assert_eq!(track.stored_width, None);
    assert_eq!(track.coding_ul, None);
    assert_eq!(track.video_line_map, None);
    assert_eq!(track.descriptor, DescriptorKind::Default);
}

#[test]
fn pcm_sample_size() {
    assert_eq!(pcm_bytes_per_sample(&pcm(None, None)), 2);
    assert_eq!(pcm_bytes_per_sample(&pcm(Some(2), Some(24))), 6);
    assert_eq!(pcm_bytes_per_sample(&pcm(Some(3), Some(20))), 9);
    assert_eq!(pcm_bytes_per_sample(&pcm(Some(1), Some(1))), 1);
    assert_eq!(pcm_bytes_per_sample(&pcm(Some(4), Some(0))), 0);
    assert_eq!(pcm_bytes_per_sample(&TrackSpec::new(EssenceType::unc_hd_1080p())), 0);
    assert!(pcm_sample_bytes_fit(&pcm(Some(2), Some(24))));
    assert!(!pcm_sample_bytes_fit(&pcm(Some(u32::MAX), Some(16))));
    assert!(pcm_sample_bytes_fit(&TrackSpec {
        channel_count: Some(u32::MAX),
        ..TrackSpec::new(EssenceType::opaque_sound())
    }));
}

fn stock_writer() -> ClipWriter {
    ClipWriter::new(&[
        TrackSpec::new(EssenceType::unc_hd_1080p()),
        pcm(Some(1), Some(16)),
    ])
}

#[test]
fn writes_size_their_samples() {
    let writer = stock_writer();
    let picture = vec![0u8; 1920 * 1080 * 2];
    assert_eq!(
        writer.write(0, &picture).unwrap(),
        SampleWrite { track_index: 0, size: 1920 * 1080 * 2, num_samples: 1 }
    );
    let audio = vec![0u8; 1920 * 2];
    assert_eq!(
        writer.write(1, &audio).unwrap(),
        SampleWrite { track_index: 1, size: 3840, num_samples: 1920 }
    );
    assert_eq!(writer.write(1, &[]).unwrap().num_samples, 0);
}

#[test]
fn bad_writes_are_refused() {
    let writer = stock_writer();
    assert_eq!(writer.write(2, &[1, 2]).unwrap_err().message(), "track index out of range");
    assert_eq!(
        writer.write(1, &[1, 2, 3]).unwrap_err().message(),
        "WAVE_PCM payload is not a multiple of sample size"
    );
    let zero = ClipWriter::new(&[pcm(Some(1), Some(0))]);
    assert_eq!(
        zero.write(0, &[1, 2]).unwrap_err().message(),
        "WAVE_PCM payload is not a multiple of sample size"
    );
}

#[test]
fn clip_options_flag_what_the_spec_gives() {
    let spec = ClipSpec::default();
    let options = clip_options(&spec).unwrap();
    assert_eq!(options.flags, MXFUSE_CLIP_HAS_TIMECODE_TRACK);
    assert_eq!(options.timecode_track, 1);
    assert_eq!(options.system_item, 0);

    let spec = ClipSpec {
        start_timecode: Some(Timecode { hour: 10, minute: 0, second: 0, frame: 0, drop_frame: true }),
        timecode_track: false,
        system_item: true,
        identity: Some(Identity {
            company_name: Some("ACME".to_string()),
            ..Identity::default()
        }),
        ..ClipSpec::default()
    };
    let options = clip_options(&spec).unwrap();
    assert_eq!(
        options.flags,
        MXFUSE_CLIP_HAS_START_TIMECODE
            | MXFUSE_CLIP_HAS_TIMECODE_TRACK
            | MXFUSE_CLIP_HAS_SYSTEM_ITEM
            | MXFUSE_CLIP_HAS_COMPANY
    );
    assert_eq!(options.start_timecode.hour, 10);
    assert_eq!(options.start_timecode.drop_frame, 1);
    assert_eq!(options.timecode_track, 0);
    assert_eq!(options.system_item, 1);
    assert_eq!(&options.company_name[..5], b"ACME\0");
    assert!(options.product_name.iter().all(|b| *b == 0));
}

#[test]
fn identity_fills_every_given_field() {
    let mut options = MxfuseClipOptions::new();
    let identity = Identity {
        company_name: Some("ACME".to_string()),
        product_name: Some("mxfuse".to_string()),
        version_string: Some("1.0".to_string()),
        product_version: Some((1, 2, 3, 4, 5)),
        product_uid: Some([1; 16]),
        creation_date: Some((2024, 5, 6, 7, 8, 9, 10)),
        generation_uid: Some([2; 16]),
        material_package_uid: Some([3; 32]),
        file_source_package_uid: Some([4; 32]),
    };
    apply_identity(&mut options, &identity).unwrap();
    assert_eq!(options.flags, 0xff8);
    assert_eq!(&options.product_name[..7], b"mxfuse\0");
    assert_eq!(&options.version_string[..4], b"1.0\0");
    assert_eq!(options.product_version, [1, 2, 3, 4, 5]);
    assert_eq!(options.product_uid, [1; 16]);
    assert_eq!(options.creation_year, 2024);
    assert_eq!(options.creation_qmsec, 10);
    assert_eq!(options.generation_uid, [2; 16]);
    assert_eq!(options.material_package_uid, [3; 32]);
    assert_eq!(options.file_source_package_uid, [4; 32]);
}

#[test]
fn long_names_are_refused() {
    let spec = ClipSpec {
        identity: Some(Identity {
            product_name: Some("p".repeat(256)),
            version_string: Some("v".repeat(64)),
            ..Identity::default()
        }),
        ..ClipSpec::default()
    };
    assert_eq!(clip_options(&spec).unwrap_err().message(), "product_name exceeds 255 bytes");

    let spec = ClipSpec {
        identity: Some(Identity {
            product_name: Some("p".repeat(255)),
            version_string: Some("v".repeat(64)),
            ..Identity::default()
        }),
        ..ClipSpec::default()
    };
    assert_eq!(clip_options(&spec).unwrap_err().message(), "version_string exceeds 63 bytes");
}

#[test]
fn c_arrays_take_a_terminator() {
    let mut dest = vec![9u8; 4];
    copy_c_array(&mut dest, "ab", "field").unwrap();
    assert_eq!(dest, vec![b'a', b'b', 0, 9]);
    let mut dest = vec![9u8; 4];
    assert_eq!(copy_c_array(&mut dest, "abcd", "field").unwrap_err().message(), "field exceeds 3 bytes");
    assert_eq!(dest, vec![9u8; 4]);
}

#[test]
fn xml_items_are_checked() {
    assert_eq!(validate_xml(&XmlMetadata::new(b"<a/>".to_vec())).unwrap(), 4);
    assert_eq!(
        validate_xml(&XmlMetadata::new(vec![])).unwrap_err().message(),
        "xml payload must not be empty"
    );
    let mut item = XmlMetadata::new(b"<a/>".to_vec());
    item.language = Some("e\0n".to_string());
    assert_eq!(validate_xml(&item).unwrap_err().message(), "xml language contains NUL");
    item.language = Some("en".to_string());
    item.namespace = Some("\0".to_string());
    assert_eq!(validate_xml(&item).unwrap_err().message(), "xml namespace contains NUL");
}

#[test]
fn writer_open_needs_a_track() {
    let spec = ClipSpec::default();
    assert_eq!(writer_open(&spec).unwrap_err().message(), "ClipSpec.tracks must not be empty");
    let spec = ClipSpec {
        edit_rate: Rational { num: 30000, den: 1001 },
        flavour: Flavour::single_pass(),
        tracks: vec![TrackSpec::new(EssenceType::unc_hd_1080p())],
        ..ClipSpec::default()
    };
    let open = writer_open(&spec).unwrap();
    assert_eq!(open.flavour, 8);
    assert_eq!(open.edit_rate, MxfuseRational { num: 30000, den: 1001 });
    assert_eq!(open.duration, -1);
    let spec = ClipSpec { duration: Some(2), ..spec };
    assert_eq!(writer_open(&spec).unwrap().duration, 2);
}
