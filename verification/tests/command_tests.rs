use myvidcomp::command::{
    build_av1_metadata_repair_args, build_ffmpeg_args_for_plan, color_metadata_args,
    metadata_bsf_arg, output_frame_rate_arg, output_pix_fmt_arg, push_optional_arg, EncodeJob,
};
use myvidcomp::metadata::{ColorFields, MetadataExemptions, TranscodePlanKind};
use myvidcomp::options::TargetCodec;
use myvidcomp::streams::OutputContainer;
use myvidcomp::validate::{
    codec_validation_error, color_metadata_validation_error, pixel_format_validation_error,
    resolution_validation_error,
};

fn no_colours() -> ColorFields {
    ColorFields {
        chroma_location: None,
        color_range: None,
        color_primaries: None,
        color_transfer: None,
        color_space: None,
    }
}

fn bt709() -> ColorFields {
    ColorFields {
        chroma_location: Some("left".to_string()),
        color_range: Some("tv".to_string()),
        color_primaries: Some("bt709".to_string()),
        color_transfer: Some("bt709".to_string()),
        color_space: Some("bt709".to_string()),
    }
}

fn job(container: OutputContainer) -> EncodeJob {
    EncodeJob {
        input_path: "/videos/clip.mkv".to_string(),
        temp_path: "/videos/.myvidcomp-clip.tmp.mp4".to_string(),
        mapped_stream_indexes: vec![0, 1],
        meaningful_chapters: false,
        output_container: container,
        nominal_frame_rate: Some("60000/1001".to_string()),
        avg_frame_rate: Some("30000/1001".to_string()),
        pix_fmt: Some("yuv420p".to_string()),
        colors: bt709(),
        display_aspect_ratio: Some("16:9".to_string()),
    }
}

fn has_pair(args: &[String], a: &str, b: &str) -> bool {
    args.windows(2).any(|pair| pair[0] == a && pair[1] == b)
}

#[test]
fn builds_av1_metadata_bitstream_filter_for_known_color_metadata() {
    assert_eq!(
        metadata_bsf_arg(TargetCodec::Av1, &bt709(), &MetadataExemptions::default()),
        Some(
            "av1_metadata=color_primaries=1:transfer_characteristics=1:matrix_coefficients=1:color_range=0:chroma_sample_position=1"
                .to_string()
        )
    );
}

#[test]
fn the_metadata_filter_skips_what_is_exempt_or_unknown() {
    let mut exempt = MetadataExemptions::default();
    exempt.chroma_location = true;
    exempt.color_range = true;
    assert_eq!(
        metadata_bsf_arg(TargetCodec::Hevc, &bt709(), &exempt),
        Some(
            "hevc_metadata=colour_primaries=1:transfer_characteristics=1:matrix_coefficients=1"
                .to_string()
        )
    );
    assert_eq!(metadata_bsf_arg(TargetCodec::Av1, &no_colours(), &MetadataExemptions::default()), None);
    assert_eq!(metadata_bsf_arg(TargetCodec::Vvc, &bt709(), &MetadataExemptions::default()), None);
}

#[test]
fn restates_the_colour_description() {
    assert_eq!(
        color_metadata_args(&bt709()),
        vec![
            "-color_range:v:0", "tv", "-colorspace:v:0", "bt709", "-color_trc:v:0", "bt709",
            "-color_primaries:v:0", "bt709", "-chroma_sample_location:v:0", "left"
        ]
    );
    let mut args = Vec::new();
    push_optional_arg(&mut args, "-aspect", None);
    assert!(args.is_empty());
    push_optional_arg(&mut args, "-aspect", Some("4:3"));
    assert_eq!(args, vec!["-aspect", "4:3"]);
}

#[test]
fn encode_args_lock_the_source_frame_rate_and_colour() {
    let quality = vec!["-crf".to_string(), "30".to_string()];
    let args = build_ffmpeg_args_for_plan(
        &job(OutputContainer::Mp4),
        "libsvtav1",
        TranscodePlanKind::Exact,
        &quality,
        &MetadataExemptions::default(),
        TargetCodec::Av1,
    );
    assert!(has_pair(&args, "-r:v:0", "60000/1001"));
    assert!(has_pair(&args, "-c:v:0", "libsvtav1"));
    assert!(has_pair(&args, "-crf", "30"));
    assert!(has_pair(&args, "-map", "0:1"));
    assert!(has_pair(&args, "-map_chapters", "-1"));
    assert!(has_pair(&args, "-pix_fmt:v:0", "yuv420p"));
    assert!(has_pair(&args, "-color_trc:v:0", "bt709"));
    assert!(has_pair(&args, "-aspect", "16:9"));
    assert!(has_pair(&args, "-movflags", "+faststart"));
    assert!(!args.iter().any(|arg| arg == "-tag:v"));
    assert_eq!(args.last().map(String::as_str), Some("/videos/.myvidcomp-clip.tmp.mp4"));
    let filter = args.iter().position(|arg| arg == "-bsf:v:0").unwrap();
    assert!(args[filter + 1].starts_with("av1_metadata="));
}

#[test]
fn hevc_in_mp4_gets_the_apple_tag_and_mkv_its_muxer() {
    let adapted = TranscodePlanKind::Adapted {
        output_pix_fmt: "yuv420p10le",
        description: "adapt chroma/bit depth to 4:2:0 10-bit for GPU encoding",
    };
    let args = build_ffmpeg_args_for_plan(
        &job(OutputContainer::Mp4),
        "hevc_nvenc",
        adapted,
        &vec!["-b:v".to_string(), "4000k".to_string()],
        &MetadataExemptions::default(),
        TargetCodec::Hevc,
    );
    assert!(has_pair(&args, "-tag:v", "hvc1"));
    assert!(has_pair(&args, "-pix_fmt:v:0", "yuv420p10le"));

    let mut mkv = job(OutputContainer::Mkv);
    mkv.meaningful_chapters = true;
    mkv.nominal_frame_rate = None;
    let args = build_ffmpeg_args_for_plan(
        &mkv,
        "libsvtav1",
        TranscodePlanKind::Exact,
        &Vec::new(),
        &MetadataExemptions::default(),
        TargetCodec::Av1,
    );
    assert!(has_pair(&args, "-f", "matroska"));
    assert!(has_pair(&args, "-map_chapters", "0"));
    assert!(has_pair(&args, "-r:v:0", "30000/1001"));
}

#[test]
fn rejects_changed_color_metadata() {
    let mut source = no_colours();
    source.color_space = Some("bt709".to_string());
    let mut output = no_colours();
    output.color_space = Some("bt2020nc".to_string());

    let err = color_metadata_validation_error(
        &source,
        &output,
        "av1",
        "clip.mp4",
        &MetadataExemptions::default(),
    )
    .unwrap();

    assert!(err.contains("output color space changed from bt709 to bt2020nc"));
}

#[test]
fn rejects_changed_pixel_format() {
    let err = pixel_format_validation_error(Some("yuv420p"), Some("yuv422p"), "clip.mp4").unwrap();

    assert!(err.contains("output pixel format changed from yuv420p to yuv422p"));
}

#[test]
fn accepts_normalized_full_range_yuvj_pixel_format() {
    assert!(pixel_format_validation_error(Some("yuvj420p"), Some("yuv420p"), "clip.mp4").is_none());
}

#[test]
fn rejects_missing_color_metadata() {
    let mut source = no_colours();
    source.color_transfer = Some("bt709".to_string());

    let err = color_metadata_validation_error(
        &source,
        &no_colours(),
        "av1",
        "clip.mp4",
        &MetadataExemptions::default(),
    )
    .unwrap();

    assert!(err.contains("output color transfer is missing, expected bt709"));
}

#[test]
fn accepts_missing_av1_mp4_chroma_location_report() {
    let mut source = no_colours();
    source.chroma_location = Some("topleft".to_string());

    assert!(
        color_metadata_validation_error(
            &source,
            &no_colours(),
            "av1",
            "clip.mp4",
            &MetadataExemptions::default(),
        )
        .is_none()
    );
}

#[test]
fn still_rejects_changed_chroma_location_report() {
    let mut source = no_colours();
    source.chroma_location = Some("topleft".to_string());
    let mut output = no_colours();
    output.chroma_location = Some("left".to_string());

    let err = color_metadata_validation_error(
        &source,
        &output,
        "av1",
        "clip.mp4",
        &MetadataExemptions::default(),
    )
    .unwrap();

    assert!(err.contains("output chroma location changed from topleft to left"));
}

#[test]
fn exempt_or_matching_colour_passes_validation() {
    let mut exempt = MetadataExemptions::default();
    exempt.color_space = true;
    let mut source = no_colours();
    source.color_space = Some("bt709".to_string());
    source.color_range = Some("TV".to_string());
    let mut output = no_colours();
    output.color_range = Some("tv".to_string());
    assert!(color_metadata_validation_error(&source, &output, "hevc", "clip.mkv", &exempt).is_none());
    assert_eq!(
        pixel_format_validation_error(Some("yuv420p"), None, "clip.mkv"),
        Some("output pixel format is missing, expected yuv420p: clip.mkv".to_string())
    );
    assert_eq!(pixel_format_validation_error(None, Some("yuv420p"), "clip.mkv"), None);
}

#[test]
fn metadata_repair_copies_every_stream_through_the_filter() {
    let mut colours = no_colours();
    colours.color_range = Some("tv".to_string());
    let args = build_av1_metadata_repair_args(
        "temp.mp4",
        "repair.mp4",
        &colours,
        "av1_metadata=chroma_sample_position=1",
        &vec![0, 4],
        false,
        OutputContainer::Mp4,
    );
    assert_eq!(
        args,
        vec![
            "-hide_banner",
            "-nostdin",
            "-n",
            "-i",
            "temp.mp4",
            "-map",
            "0:0",
            "-map",
            "0:4",
            "-map_metadata",
            "0",
            "-map_chapters",
            "-1",
            "-c",
            "copy",
            "-color_range:v:0",
            "tv",
            "-bsf:v:0",
            "av1_metadata=chroma_sample_position=1",
            "-movflags",
            "+faststart+write_colr",
            "repair.mp4",
        ]
    );
}

#[test]
fn metadata_repair_keeps_meaningful_chapters_and_matroska() {
    let args = build_av1_metadata_repair_args(
        "temp.mkv",
        "repair.mkv",
        &no_colours(),
        "av1_metadata=chroma_sample_position=1",
        &vec![4],
        true,
        OutputContainer::Mkv,
    );
    assert!(args.windows(2).any(|pair| pair == ["-map", "0:4"]));
    assert!(args.windows(2).any(|pair| pair == ["-map_chapters", "0"]));
    assert!(args.ends_with(&["-f".to_string(), "matroska".to_string(), "repair.mkv".to_string()]));
}

#[test]
fn refuses_an_output_in_the_wrong_codec() {
    assert_eq!(codec_validation_error("AV1", TargetCodec::Av1, "out.mp4"), None);
    assert_eq!(
        codec_validation_error("h264", TargetCodec::Hevc, "out.mp4"),
        Some("the converted file is h264, not the hevc that was asked for: out.mp4".to_string())
    );
}

#[test]
fn refuses_a_changed_resolution() {
    assert_eq!(resolution_validation_error(1920, 1080, 1920, 1080, "out.mp4"), None);
    assert_eq!(
        resolution_validation_error(1920, 1080, 1280, 720, "out.mp4"),
        Some("output resolution changed from 1920x1080 to 1280x720: out.mp4".to_string())
    );
}

#[test]
fn builds_av1_metadata_repair_args_without_reencoding() {
    let args = build_av1_metadata_repair_args(
        "temp.mp4",
        "repair.mp4",
        &no_colours(),
        "av1_metadata=chroma_sample_position=1",
        &vec![0, 1, 2],
        false,
        OutputContainer::Mp4,
    );

    assert!(args.windows(2).any(|pair| pair == ["-i", "temp.mp4"]));
    assert!(args.windows(2).any(|pair| pair == ["-map", "0:0"]));
    assert!(args.windows(2).any(|pair| pair == ["-map", "0:1"]));
    assert!(args.windows(2).any(|pair| pair == ["-map", "0:2"]));
    assert!(!args.windows(2).any(|pair| pair == ["-map", "0"]));
    assert!(args.windows(2).any(|pair| pair == ["-map_chapters", "-1"]));
    assert!(args.windows(2).any(|pair| pair == ["-c", "copy"]));
    assert!(args
        .windows(2)
        .any(|pair| pair == ["-bsf:v:0", "av1_metadata=chroma_sample_position=1"]));
    assert!(args
        .windows(2)
        .any(|pair| pair == ["-movflags", "+faststart+write_colr"]));
    assert!(args.iter().any(|arg| arg == "repair.mp4"));
}

#[test]
fn metadata_repair_args_repeat_color_output_metadata() {
    let mut colours = no_colours();
    colours.color_range = Some("tv".to_string());
    colours.color_space = Some("bt709".to_string());
    colours.color_transfer = Some("bt709".to_string());
    colours.color_primaries = Some("bt709".to_string());
    colours.chroma_location = Some("left".to_string());

    let args = build_av1_metadata_repair_args(
        "temp.mp4",
        "repair.mp4",
        &colours,
        "av1_metadata=chroma_sample_position=1",
        &vec![0],
        false,
        OutputContainer::Mp4,
    );

    assert!(args.windows(2).any(|pair| pair == ["-color_range:v:0", "tv"]));
    assert!(args
        .windows(2)
        .any(|pair| pair == ["-chroma_sample_location:v:0", "left"]));
}

#[test]
fn output_frame_rate_prefers_nominal_source_rate() {
    let mut source = job(OutputContainer::Mp4);
    source.avg_frame_rate = Some("31/1".to_string());
    source.nominal_frame_rate = Some("60000/1001".to_string());

    assert_eq!(output_frame_rate_arg(&source), Some("60000/1001"));
    source.nominal_frame_rate = None;
    assert_eq!(output_frame_rate_arg(&source), Some("31/1"));
}

#[test]
fn output_pixel_format_normalizes_full_range_yuvj() {
    let mut source = job(OutputContainer::Mp4);
    source.pix_fmt = Some("yuvj420p".to_string());

    assert_eq!(output_pix_fmt_arg(&source), Some("yuv420p".to_string()));
    source.pix_fmt = None;
    assert_eq!(output_pix_fmt_arg(&source), None);
}
