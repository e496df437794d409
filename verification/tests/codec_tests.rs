use myvidcomp::codec::{
    canonical_encoder_name, chroma_location_value, codec_accepts_source, color_range_value,
    encoder_candidates, metadata_filter, quality_style, required_pixel_format, EncoderKind,
    QualityStyle,
};
use myvidcomp::options::TargetCodec;

#[test]
fn lists_encoders_per_codec() {
    let av1: Vec<&str> = encoder_candidates(TargetCodec::Av1)
        .iter()
        .map(|(name, _)| *name)
        .collect();
    assert!(av1.contains(&"libsvtav1"));
    assert!(av1.contains(&"av1_nvenc"));
    assert!(!av1.iter().any(|name| name.starts_with("hevc")));

    let hevc: Vec<&str> = encoder_candidates(TargetCodec::Hevc)
        .iter()
        .map(|(name, _)| *name)
        .collect();
    assert!(hevc.contains(&"libx265"));
    assert!(hevc.contains(&"hevc_nvenc"));
    assert!(!hevc.iter().any(|name| name.starts_with("av1")));

    let vvc: Vec<&str> = encoder_candidates(TargetCodec::Vvc)
        .iter()
        .map(|(name, _)| *name)
        .collect();
    assert_eq!(vvc, vec!["libvvenc"]);
}

#[test]
fn resolves_aliases_per_codec() {
    assert_eq!(canonical_encoder_name("nvenc", TargetCodec::Av1), "av1_nvenc");
    assert_eq!(canonical_encoder_name("nvenc", TargetCodec::Hevc), "hevc_nvenc");
    assert_eq!(canonical_encoder_name("mf", TargetCodec::Hevc), "hevc_mf");
    assert_eq!(canonical_encoder_name("svt", TargetCodec::Av1), "libsvtav1");
    assert_eq!(canonical_encoder_name("x265", TargetCodec::Hevc), "libx265");
    assert_eq!(canonical_encoder_name("cpu", TargetCodec::Vvc), "libvvenc");
    assert_eq!(canonical_encoder_name("libsvtav1", TargetCodec::Av1), "libsvtav1");
}

#[test]
fn reports_quality_styles() {
    assert_eq!(quality_style(EncoderKind::Hardware), QualityStyle::Bitrate);
    assert_eq!(quality_style(EncoderKind::MediaCodec), QualityStyle::Bitrate);
    assert_eq!(quality_style(EncoderKind::X265), QualityStyle::Crf);
    assert_eq!(quality_style(EncoderKind::SvtAv1), QualityStyle::Crf);
    assert_eq!(quality_style(EncoderKind::Vvenc), QualityStyle::Quantizer);
    assert_eq!(quality_style(EncoderKind::Rav1e), QualityStyle::Quantizer);
}

#[test]
fn maps_chroma_locations_per_codec() {
    assert_eq!(chroma_location_value(TargetCodec::Av1, "left"), Some(1));
    assert_eq!(chroma_location_value(TargetCodec::Av1, "topleft"), Some(2));
    assert_eq!(chroma_location_value(TargetCodec::Av1, "center"), None);

    assert_eq!(chroma_location_value(TargetCodec::Hevc, "left"), Some(0));
    assert_eq!(chroma_location_value(TargetCodec::Hevc, "center"), Some(1));
    assert_eq!(chroma_location_value(TargetCodec::Hevc, "topleft"), Some(2));
    assert_eq!(chroma_location_value(TargetCodec::Hevc, "top"), Some(3));
    assert_eq!(chroma_location_value(TargetCodec::Hevc, "bottomleft"), Some(4));
    assert_eq!(chroma_location_value(TargetCodec::Hevc, "bottom"), Some(5));

    assert_eq!(chroma_location_value(TargetCodec::Vvc, "left"), None);
}

#[test]
fn describes_metadata_filters() {
    let av1 = metadata_filter(TargetCodec::Av1).unwrap();
    assert_eq!(av1.name, "av1_metadata");
    assert_eq!(av1.range, "color_range");

    let hevc = metadata_filter(TargetCodec::Hevc).unwrap();
    assert_eq!(hevc.name, "hevc_metadata");
    assert_eq!(hevc.color_primaries, "colour_primaries");
    assert_eq!(hevc.range, "video_full_range_flag");
    assert_eq!(hevc.chroma, Some("chroma_sample_loc_type"));

    assert!(metadata_filter(TargetCodec::Vvc).is_none());
}

#[test]
fn maps_color_range() {
    assert_eq!(color_range_value(TargetCodec::Av1, "tv"), Some(0));
    assert_eq!(color_range_value(TargetCodec::Av1, "pc"), Some(1));
    assert_eq!(color_range_value(TargetCodec::Hevc, "limited"), Some(0));
    assert_eq!(color_range_value(TargetCodec::Hevc, "full"), Some(1));
    assert_eq!(color_range_value(TargetCodec::Av1, "unknown"), None);
}

#[test]
fn reports_forced_pixel_formats() {
    assert_eq!(required_pixel_format("libvvenc"), Some("yuv420p10le"));
    assert_eq!(required_pixel_format("libx265"), None);
    assert_eq!(required_pixel_format("libsvtav1"), None);

    assert!(!codec_accepts_source(TargetCodec::Vvc, Some("yuv420p")));
    assert!(codec_accepts_source(TargetCodec::Hevc, Some("yuv420p")));
    assert!(codec_accepts_source(TargetCodec::Vvc, Some("yuv420p10le")));
    assert!(codec_accepts_source(TargetCodec::Vvc, None));
}

#[test]
fn vvc_and_aliases_that_do_not_resolve_stay_as_given() {
    assert_eq!(canonical_encoder_name(" QSV ", TargetCodec::Hevc), "hevc_qsv");
    assert_eq!(canonical_encoder_name("media-foundation", TargetCodec::Av1), "av1_mf");
    assert_eq!(canonical_encoder_name("cpu", TargetCodec::Av1), "cpu");
    assert_eq!(canonical_encoder_name("aom", TargetCodec::Av1), "libaom-av1");
    assert_eq!(canonical_encoder_name("rav1e", TargetCodec::Hevc), "librav1e");
    assert_eq!(canonical_encoder_name("nvenc", TargetCodec::Vvc), "nvenc");
    assert_eq!(color_range_value(TargetCodec::Vvc, "pc"), None);
}
