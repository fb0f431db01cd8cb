use mxfuse::{
    ClipSpec, DescriptorKind, EssenceType, Flavour, ReadOptions, TrackKind, TrackSpec,
    XmlMetadata,
};

#[test]
fn data_def_classifies_tracks() {
    assert_eq!(TrackKind::from_data_def(1), TrackKind::Picture);
    assert_eq!(TrackKind::from_data_def(2), TrackKind::Sound);
    assert_eq!(TrackKind::from_data_def(4), TrackKind::Data);
    assert_eq!(TrackKind::from_data_def(3), TrackKind::Other);
    assert_eq!(TrackKind::from_data_def(0), TrackKind::Other);
    assert_eq!(TrackKind::from_data_def(-1), TrackKind::Other);
}

#[test]
fn descriptor_codes_round_trip() {
    for kind in [
        DescriptorKind::Default,
        DescriptorKind::Cdci,
        DescriptorKind::Rgba,
        DescriptorKind::WaveAudio,
        DescriptorKind::GenericData,
    ] {
        assert_eq!(DescriptorKind::from_i32(kind.as_i32()), kind);
    }
    assert_eq!(DescriptorKind::Rgba.as_i32(), 2);
    assert_eq!(DescriptorKind::from_i32(4), DescriptorKind::GenericData);
    assert_eq!(DescriptorKind::from_i32(5), DescriptorKind::Default);
    assert_eq!(DescriptorKind::from_i32(-3), DescriptorKind::Default);
}

#[test]
fn essence_type_codes() {
    assert_eq!(EssenceType::unknown().as_i32(), 0);
    assert_eq!(EssenceType::unc_hd_1080p().as_i32(), 35);
    assert_eq!(EssenceType::wave_pcm().as_i32(), 90);
    assert_eq!(EssenceType::opaque_picture().as_i32(), 97);
    assert_eq!(EssenceType::opaque_sound().as_i32(), 98);
    assert_eq!(EssenceType::opaque_data().as_i32(), 99);
    assert_eq!(EssenceType::from_i32(1234), EssenceType(1234));
    assert_eq!(EssenceType::from_i32(-7).as_i32(), -7);
}

#[test]
fn defaults_match_the_documented_values() {
    let options = ReadOptions::default();
    assert_eq!(options.read_ahead, 1 << 20);
    assert_eq!(options.cache_bytes, 64 << 20);
    assert_eq!(Flavour::default(), Flavour(0));
    assert_eq!(Flavour::default_flavour(), Flavour(0));
    assert_eq!(Flavour::single_pass(), Flavour(0x0008));

    let spec = ClipSpec::default();
    assert_eq!(spec.edit_rate.num, 25);
    assert_eq!(spec.edit_rate.den, 1);
    assert_eq!(spec.flavour, Flavour(0));
    assert_eq!(spec.duration, None);
    assert!(spec.tracks.is_empty());
    assert!(spec.xml.is_empty());
    assert!(spec.timecode_track);
    assert!(!spec.system_item);
    assert!(spec.identity.is_none());
    assert!(spec.start_timecode.is_none());
}

#[test]
fn new_track_spec_sets_only_the_essence_type() {
    let spec = TrackSpec::new(EssenceType::wave_pcm());
    assert_eq!(spec.essence_type, EssenceType(90));
    assert_eq!(spec.sampling_rate, None);
    assert_eq!(spec.channel_count, None);
    assert_eq!(spec.essence_container_ul, None);
    assert_eq!(spec.coding_ul, None);
    assert!(!spec.temporal_reordering);
    assert_eq!(spec.pixel_layout, None);
    assert_eq!(spec.descriptor, None);
}

#[test]
fn new_xml_item_is_plain_xml() {
    let item = XmlMetadata::new(b"<clip/>".to_vec());
    assert_eq!(item.data, b"<clip/>".to_vec());
    assert!(item.is_xml);
    assert_eq!(item.scheme_id, None);
    assert_eq!(item.language, None);
    assert_eq!(item.namespace, None);
    assert_eq!(item.mime_type, None);
}

#[test]
fn essence_names_come_from_the_lookup() {
    assert_eq!(EssenceType::name_from(Some(b"WAVE_PCM".as_slice())), "WAVE_PCM");
    assert_eq!(EssenceType::name_from(Some("Écran".as_bytes())), "Écran");
    assert_eq!(EssenceType::name_from(None), "UNKNOWN_ESSENCE_TYPE");
    assert_eq!(
        EssenceType::name_from(Some([0x57, 0xff, 0x41].as_slice())),
        "UNKNOWN_ESSENCE_TYPE"
    );
    assert_eq!(EssenceType::name_from(Some(b"".as_slice())), "");
}
