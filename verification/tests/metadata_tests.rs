use myvidcomp::codec::color_range_value;
use myvidcomp::metadata::{
    av1_color_primaries_value, av1_matrix_coefficients_value,
    av1_transfer_characteristics_value, color_metadata_matches, contains_any_ignore_case,
    exemption_descriptions, interlaced_source_reason, metadata_exemptions_for, metadata_key,
    normalized_pix_fmt, pixel_format_bit_depth, pixel_format_has_alpha, skip_reason_label,
    source_codec_family, ColorFields, MetadataExemptions, SkipReason, SourceCodecFamily,
    TranscodePlanKind,
};
use myvidcomp::options::TargetCodec;
use myvidcomp::paths::{metadata_backup_temp_path, metadata_repair_temp_path};

#[test]
fn metadata_repair_paths_stay_next_to_temp_output() {
    let temp = "/tmp/.myvidcomp-clip.tmp.mp4";

    assert_eq!(
        metadata_repair_temp_path(temp),
        "/tmp/.myvidcomp-clip.tmp.mp4.repairing.mp4"
    );
    assert_eq!(
        metadata_backup_temp_path(temp),
        "/tmp/.myvidcomp-clip.tmp.mp4.before-repair.mp4"
    );
}

#[test]
fn maps_common_color_values_to_av1_metadata_codes() {
    assert_eq!(av1_color_primaries_value("bt709"), Some("1"));
    assert_eq!(av1_color_primaries_value("bt2020"), Some("9"));
    assert_eq!(av1_transfer_characteristics_value("smpte2084"), Some("16"));
    assert_eq!(
        av1_transfer_characteristics_value("arib-std-b67"),
        Some("18")
    );
    assert_eq!(av1_matrix_coefficients_value("bt2020nc"), Some("9"));
    assert_eq!(color_range_value(TargetCodec::Av1, "pc"), Some(1));
}

#[test]
fn classifies_common_codecs_for_quality_mapping() {
    assert_eq!(source_codec_family("h264"), SourceCodecFamily::H264);
    assert_eq!(source_codec_family("avc1"), SourceCodecFamily::H264);
    assert_eq!(source_codec_family("hevc"), SourceCodecFamily::H265);
    assert_eq!(source_codec_family("hvc1"), SourceCodecFamily::H265);
    assert_eq!(source_codec_family("vp8"), SourceCodecFamily::Vp8);
    assert_eq!(source_codec_family("vp9"), SourceCodecFamily::Vp9);
    assert_eq!(source_codec_family("mpeg1video"), SourceCodecFamily::Mpeg1);
    assert_eq!(source_codec_family("mpeg2video"), SourceCodecFamily::Mpeg2);
    assert_eq!(source_codec_family("mpeg4"), SourceCodecFamily::Mpeg4Part2);
    assert_eq!(source_codec_family("divx"), SourceCodecFamily::Mpeg4Part2);
    assert_eq!(source_codec_family("wmv3"), SourceCodecFamily::Vc1);
    assert_eq!(source_codec_family("mjpeg"), SourceCodecFamily::Mjpeg);
}

#[test]
fn unknown_codecs_fall_into_other() {
    assert_eq!(source_codec_family("CINEPAK"), SourceCodecFamily::Other);
    assert_eq!(source_codec_family("AV1"), SourceCodecFamily::Av1);
}

#[test]
fn skip_reason_includes_interlace_detail() {
    let reason = interlaced_source_reason(Some("tt")).unwrap();
    assert!(reason.contains("tt"));
    assert!(reason.contains("interlaced"));
    assert_eq!(interlaced_source_reason(Some("progressive")), None);
    assert_eq!(interlaced_source_reason(None), None);
}

#[test]
fn reads_pixel_formats() {
    assert_eq!(normalized_pix_fmt("yuvj420p"), "yuv420p");
    assert_eq!(normalized_pix_fmt("yuv420p10le"), "yuv420p10le");
    assert!(pixel_format_has_alpha("yuva420p"));
    assert!(!pixel_format_has_alpha("yuv420p"));
    assert_eq!(pixel_format_bit_depth("yuv420p10le"), Some(10));
    assert_eq!(pixel_format_bit_depth("p010le"), Some(10));
    assert_eq!(pixel_format_bit_depth("yuv420p"), None);
}

#[test]
fn finds_words_ignoring_case() {
    assert!(contains_any_ignore_case("Lavc60 libx265", &vec!["X265", "x264"]));
    assert!(!contains_any_ignore_case("Lavc60 libsvtav1", &vec!["x265"]));
    assert_eq!(metadata_key(" SMPTE_428 "), "smpte-428");
    assert!(color_metadata_matches("BT709", "bt709"));
}

#[test]
fn vvc_records_no_colour_details() {
    let colors = ColorFields {
        chroma_location: Some("left".to_string()),
        color_range: Some("tv".to_string()),
        color_primaries: Some("bt709".to_string()),
        color_transfer: Some("bt709".to_string()),
        color_space: Some("bt709".to_string()),
    };
    let vvc = metadata_exemptions_for(TargetCodec::Vvc, &colors);
    assert!(vvc.chroma_location && vvc.color_range && vvc.color_space);
    let av1 = metadata_exemptions_for(TargetCodec::Av1, &colors);
    assert_eq!(av1, MetadataExemptions::default());
    let lines = exemption_descriptions(&vvc, TargetCodec::Vvc);
    assert_eq!(lines.len(), 5);
    assert_eq!(lines[0].0, "chroma_location");
    assert!(exemption_descriptions(&av1, TargetCodec::Av1).is_empty());
}

#[test]
fn describes_plans_and_skips() {
    assert_eq!(TranscodePlanKind::Exact.label(), "exact");
    assert_eq!(TranscodePlanKind::Exact.output_pix_fmt(), None);
    let adapted = TranscodePlanKind::Adapted {
        output_pix_fmt: "yuv420p10le",
        description: "convert to 10-bit 4:2:0",
    };
    assert_eq!(adapted.label(), "adapted");
    assert_eq!(adapted.output_pix_fmt(), Some("yuv420p10le"));
    assert_eq!(adapted.description(), "convert to 10-bit 4:2:0");
    assert_eq!(
        skip_reason_label(&SkipReason::Conflict),
        "output or backup path already exists"
    );
    assert_eq!(
        skip_reason_label(&SkipReason::UnsafeReplacement("alpha".to_string())),
        "alpha"
    );
}
