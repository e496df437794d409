use myvidcomp::codec::EncoderKind;
use myvidcomp::encoders::{
    detect_encoder_candidates_from_listing, detect_encoder_from_listing,
    encoder_from_name, encoder_list_contains, encoder_runtime_check_args,
    encoder_runtime_quality_args, ffmpeg_failure_is_encoder_retryable, first_error_line,
    is_ffmpeg_noise, requested_encoder, supported_encoder_names,
    validation_error_indicates_unusable_temp, validation_error_may_need_remux_repair,
    validation_failure_is_retryable, Encoder,
};
use myvidcomp::options::TargetCodec;
use myvidcomp::paths::is_temp_output_path;
use myvidcomp::events::Event;
use myvidcomp::selection::select_encoders;

#[test]
fn prefers_vulkan_before_cpu_fallback() {
    let encoders = r#"
 V..... av1_vulkan
 V..... libsvtav1
 V..... libaom-av1
"#;

    let encoder = detect_encoder_from_listing(encoders).unwrap();

    assert_eq!(encoder.name, "av1_vulkan");
    assert_eq!(encoder.kind, EncoderKind::Vulkan);
}

#[test]
fn prefers_media_foundation_before_vulkan() {
    let encoders = r#"
 V..... av1_vulkan
 V..... av1_mf
 V..... libsvtav1
"#;

    let encoder = detect_encoder_from_listing(encoders).unwrap();

    assert_eq!(encoder.name, "av1_mf");
    assert_eq!(encoder.kind, EncoderKind::Hardware);
}

#[test]
fn prefers_vendor_hardware_before_vulkan() {
    let encoders = r#"
 V..... av1_nvenc
 V..... av1_vulkan
 V..... libsvtav1
"#;

    let encoder = detect_encoder_from_listing(encoders).unwrap();

    assert_eq!(encoder.name, "av1_nvenc");
    assert_eq!(encoder.kind, EncoderKind::Hardware);
}

#[test]
fn prefers_nvenc_before_qsv() {
    let encoders = r#"
 V..... av1_qsv
 V..... av1_nvenc
 V..... libsvtav1
"#;

    let encoder = detect_encoder_from_listing(encoders).unwrap();

    assert_eq!(encoder.name, "av1_nvenc");
    assert_eq!(encoder.kind, EncoderKind::Hardware);
}

#[test]
fn automatic_exact_selection_prefers_hardware_before_software() {
    let encoders = r#"
 V..... av1_nvenc
 V..... av1_vulkan
 V..... libsvtav1
 V..... libaom-av1
"#;

    let encoder = detect_encoder_from_listing(encoders).unwrap();

    assert_eq!(encoder.name, "av1_nvenc");
    assert_eq!(encoder.kind, EncoderKind::Hardware);
}

#[test]
fn automatic_exact_selection_supports_hardware_only_listing() {
    let encoders = r#"
 V..... av1_qsv
 V..... av1_mf
"#;

    let encoder = detect_encoder_from_listing(encoders).unwrap();

    assert_eq!(encoder.name, "av1_qsv");
    assert_eq!(encoder.kind, EncoderKind::Hardware);
}

#[test]
fn keeps_encoder_candidates_in_probe_order() {
    let encoders = r#"
 V..... libsvtav1
 V..... av1_qsv
 V..... av1_mf
 V..... av1_nvenc
"#;

    let names: Vec<String> = detect_encoder_candidates_from_listing(encoders, TargetCodec::Av1)
        .into_iter()
        .map(|encoder| encoder.name)
        .collect();

    assert_eq!(names, ["av1_nvenc", "av1_qsv", "av1_mf", "libsvtav1"]);
}

#[test]
fn classifies_only_known_encoder_failures_as_retryable() {
    assert!(ffmpeg_failure_is_encoder_retryable(
        "No NVENC capable devices found"
    ));
    assert!(ffmpeg_failure_is_encoder_retryable(
        "Unsupported pixel format yuv422p10le"
    ));
    assert!(!ffmpeg_failure_is_encoder_retryable(
        "No space left on device"
    ));
    assert!(!ffmpeg_failure_is_encoder_retryable(
        "Invalid data found when processing input"
    ));
    // An unexplained message that names a failure stays terminal.
    assert!(!ffmpeg_failure_is_encoder_retryable(
        "conversion failed for reasons unknown"
    ));
    // ffmpeg dying without saying anything is usually a hardware wrapper
    // crashing, which the next encoder may well survive.
    assert!(ffmpeg_failure_is_encoder_retryable(
        "frame= 2366 fps=83 q=44.0 size=1280KiB time=00:01:38.54"
    ));
    assert!(ffmpeg_failure_is_encoder_retryable(""));
    assert!(!validation_failure_is_retryable(
        "ffprobe failed for output.mp4 with status 1: process crashed"
    ));
    assert!(!validation_failure_is_retryable(
        "output color metadata changed; after metadata repair: ffprobe failed for output.mp4"
    ));
}

#[test]
fn builds_encoder_runtime_check_args() {
    let encoder = Encoder {
        name: "av1_nvenc".to_string(),
        kind: EncoderKind::Hardware,
    };

    let args = encoder_runtime_check_args(&encoder);

    assert!(args.windows(2).any(|pair| pair == ["-c:v", "av1_nvenc"]));
    assert!(args.windows(2).any(|pair| pair == ["-f", "lavfi"]));
    assert!(args.windows(2).any(|pair| pair == ["-f", "null"]));
    assert!(args.iter().any(|arg| arg == "-nostdin"));
    assert!(args.iter().any(|arg| arg == "testsrc2=size=640x360:rate=1"));
}

#[test]
fn media_foundation_av1_uses_hardware_bitrate_quality() {
    let encoder = Encoder {
        name: "av1_mf".to_string(),
        kind: EncoderKind::Hardware,
    };

    assert_eq!(
        encoder_runtime_quality_args(&encoder),
        ["-b:v".to_string(), "600k".to_string()]
    );
}

#[test]
fn classifies_validation_errors_that_may_need_remux_repair() {
    assert!(validation_error_may_need_remux_repair(
        "output stream count changed from 3 to 4"
    ));
    assert!(validation_error_may_need_remux_repair(
        "output color transfer is missing"
    ));
    assert!(validation_error_may_need_remux_repair(
        "output chroma location is missing"
    ));
    assert!(!validation_error_may_need_remux_repair(
        "output sample aspect ratio changed"
    ));
}

#[test]
fn classifies_unusable_temp_validation_errors() {
    assert!(validation_error_indicates_unusable_temp(
        "output has no readable video stream: .myvidcomp-clip.tmp.mp4"
    ));
    assert!(validation_error_indicates_unusable_temp(
        "output codec is h264, expected av1"
    ));
    assert!(!validation_error_indicates_unusable_temp(
        "output sample aspect ratio changed"
    ));
    assert!(is_temp_output_path(".myvidcomp-clip-123.tmp.mp4"));
    assert!(!is_temp_output_path("clip.mp4"));
}

#[test]
fn other_validation_errors_keep_the_temp_output() {
    assert!(validation_error_indicates_unusable_temp(
        "output.mp4 has no readable video stream"
    ));
    assert!(!validation_error_indicates_unusable_temp(
        "output color transfer is missing"
    ));
}

#[test]
fn listing_names_whole_words_only() {
    let listing = " V..... libsvtav1            SVT-AV1\n V..... av1_nvenc_x\n";
    assert!(encoder_list_contains(listing, "libsvtav1"));
    assert!(!encoder_list_contains(listing, "av1_nvenc"));
    assert!(!encoder_list_contains(listing, "svtav1"));
}

#[test]
fn names_requested_encoders_and_refuses_others() {
    let listing = " V..... hevc_nvenc\n V..... libx265\n";
    let encoder = requested_encoder(listing, "nvenc", TargetCodec::Hevc).unwrap();
    assert_eq!(encoder.name, "hevc_nvenc");
    assert_eq!(encoder.kind, EncoderKind::Hardware);
    assert_eq!(
        requested_encoder(listing, "qsv", TargetCodec::Hevc).unwrap_err(),
        "requested encoder hevc_qsv is not advertised by ffmpeg"
    );
    let error = encoder_from_name("banana", TargetCodec::Vvc).unwrap_err();
    assert_eq!(error, "unsupported encoder: banana. Supported values: auto, libvvenc");
    assert_eq!(supported_encoder_names(TargetCodec::Vvc), vec!["libvvenc"]);
}

#[test]
fn explains_a_failure_with_its_last_error_line() {
    let text = "Input #0, matroska\n  Stream #0:0: Video\nsomething odd\n[av1_nvenc] Error opening encoder\nConversion failed!\nframe=  10\n";
    assert_eq!(first_error_line(text), "Conversion failed!");
    assert_eq!(first_error_line("plain words\n"), "plain words");
    assert_eq!(first_error_line(""), "unknown error");
    assert!(is_ffmpeg_noise("frame=  100 fps=3"));
    assert!(!is_ffmpeg_noise("Conversion failed!"));
}

#[test]
fn selects_the_advertised_encoders_that_pass_in_table_order() {
    let listing = " V..... hevc_nvenc\n V..... libx265\n";
    let (selection, reports) = select_encoders(listing, None, TargetCodec::Hevc, |e: &Encoder| {
        if e.name == "hevc_nvenc" {
            Err("Error: no device found\n".to_string())
        } else {
            Ok(())
        }
    });
    let selection = selection.unwrap();
    assert!(!selection.explicit);
    assert_eq!(selection.candidates.len(), 1);
    assert_eq!(selection.candidates[0].name, "libx265");
    assert_eq!(reports.len(), 8);
    assert_eq!(
        reports[0],
        Event::EncoderCandidateEvaluated {
            encoder: "hevc_videotoolbox".to_string(),
            advertised: false,
            usable: false,
            detail: Some("not advertised by ffmpeg".to_string()),
        }
    );
    assert_eq!(
        reports[1],
        Event::EncoderCandidateEvaluated {
            encoder: "hevc_nvenc".to_string(),
            advertised: true,
            usable: false,
            detail: Some("Error: no device found".to_string()),
        }
    );
    assert_eq!(
        reports[7],
        Event::EncoderCandidateEvaluated {
            encoder: "libx265".to_string(),
            advertised: true,
            usable: true,
            detail: None,
        }
    );
}

#[test]
fn reports_why_no_encoder_works() {
    let listing = " V..... hevc_nvenc\n V..... libx265\n";
    let (selection, _) = select_encoders(listing, None, TargetCodec::Hevc, |_e: &Encoder| {
        Err("Error: broken\n".to_string())
    });
    assert_eq!(
        selection.unwrap_err(),
        "this ffmpeg build advertises H.265 / HEVC encoders, but none of them worked: hevc_nvenc: Error: broken; libx265: Error: broken"
    );
    let (none, reports) = select_encoders("nothing here", None, TargetCodec::Av1, |_e: &Encoder| Ok(()));
    assert_eq!(none.unwrap_err(), "this ffmpeg build advertises no AV1 encoder");
    assert!(reports.is_empty());
}

#[test]
fn a_named_encoder_is_checked_alone() {
    let listing = " V..... hevc_nvenc\n V..... libx265\n";
    let (selection, reports) = select_encoders(listing, Some("libx265"), TargetCodec::Hevc, |_e: &Encoder| Ok(()));
    let selection = selection.unwrap();
    assert!(selection.explicit);
    assert_eq!(selection.candidates.len(), 1);
    assert_eq!(reports.len(), 1);
    let (failed, reports) = select_encoders(listing, Some("libx265"), TargetCodec::Hevc, |_e: &Encoder| {
        Err("Error: bad\n".to_string())
    });
    assert_eq!(failed.unwrap_err(), "requested encoder libx265 failed runtime encode check: Error: bad");
    assert!(reports.is_empty());
}
