use myvidcomp::embedding::{
    check_options_header, run_options_from_fields, EmbeddedOptions, MYVIDCOMP_FFI_ABI_VERSION,
};
use myvidcomp::options::{EncoderPreference, Preservation, QualityCheck, QualityMode, TargetCodec};
use myvidcomp::run::{OutputFormat, RunOptions};

fn text(value: &str) -> Result<Option<String>, String> {
    Ok(Some(value.to_string()))
}

fn base_options(folder: &str) -> EmbeddedOptions {
    EmbeddedOptions {
        target_folder: text(folder),
        ffmpeg: Ok(None),
        ffprobe: Ok(None),
        tmp_dir: Ok(None),
        encoder: Ok(None),
        encoder_preference: Ok(None),
        output_format: Ok(None),
        target_codec: Ok(None),
        preservation: Ok(None),
        quality_mode: Ok(None),
        quality_check: Ok(None),
        count: -1,
        quality_target: 0,
        review_margin: 0,
        quality_threads: 0,
        keep_original: 1,
        dry_run: 0,
    }
}

fn convert(options: EmbeddedOptions) -> Result<RunOptions, String> {
    run_options_from_fields(options, "ffmpeg".to_string(), "ffprobe".to_string())
}

#[test]
fn blank_options_fall_back_to_defaults() {
    let converted = convert(base_options("/videos")).unwrap();
    let defaults = RunOptions::with_tools("/videos".to_string(), "ffmpeg".to_string(), "ffprobe".to_string());

    assert_eq!(converted.target_folder, "/videos");
    assert_eq!(converted.count, -1);
    assert!(converted.keep_original);
    assert!(!converted.dry_run);
    assert_eq!(converted.target_codec, TargetCodec::Av1);
    assert_eq!(converted.preservation, Preservation::Flexible);
    assert_eq!(converted.quality_mode, QualityMode::Search);
    assert_eq!(converted.quality_check, QualityCheck::Sampled);
    assert_eq!(converted.quality_target, defaults.quality_target);
    assert_eq!(converted.review_margin, defaults.review_margin);
    assert_eq!(converted, defaults);
}

#[test]
fn reads_every_option_string() {
    let mut options = base_options("/videos");
    options.target_codec = text("hevc");
    options.preservation = text("strict");
    options.quality_mode = text("estimate");
    options.quality_check = text("full");
    options.encoder_preference = text("gpu");
    options.output_format = text("mkv-fallback");
    options.quality_target = 9300;
    options.review_margin = 150;

    let converted = convert(options).unwrap();

    assert_eq!(converted.target_codec, TargetCodec::Hevc);
    assert_eq!(converted.preservation, Preservation::Strict);
    assert_eq!(converted.quality_mode, QualityMode::Estimate);
    assert_eq!(converted.quality_check, QualityCheck::Full);
    assert_eq!(converted.encoder_preference, EncoderPreference::Gpu);
    assert_eq!(converted.output_format, OutputFormat::MkvFallback);
    assert_eq!(converted.quality_target, 9300);
    assert_eq!(converted.review_threshold(), 9150);
}

#[test]
fn rejects_malformed_options() {
    let err = check_options_header(99, 120, 120).unwrap_err();
    assert!(err.contains("unsupported FFI ABI version"));
    assert_eq!(
        err,
        "unsupported FFI ABI version 99; myvidcomp_run_blocking_v1 requires version 1"
    );

    let err = check_options_header(1, 8, 120).unwrap_err();
    assert!(err.contains("too small"));
    assert_eq!(err, "FFI options struct is too small: 8 < 120");
    assert!(check_options_header(1, 120, 120).is_ok());

    let mut invalid = base_options("/videos");
    invalid.target_codec = text("h264");
    let err = convert(invalid).unwrap_err();
    assert!(err.contains("invalid output codec"));
}

#[test]
fn reports_abi_version() {
    assert_eq!(MYVIDCOMP_FFI_ABI_VERSION, 1);
}

#[test]
fn a_missing_folder_and_bad_values_are_refused_in_order() {
    let mut options = base_options("/videos");
    options.target_folder = Ok(None);
    options.target_codec = text("h264");
    assert_eq!(convert(options).unwrap_err(), "target_folder is required");

    let mut options = base_options("/videos");
    options.target_folder = Ok(None);
    options.quality_target = 20;
    assert_eq!(convert(options).unwrap_err(), "quality target must be between 50 and 100");

    let mut options = base_options("/videos");
    options.ffmpeg = Err("ffmpeg is not valid UTF-8: invalid utf-8 sequence".to_string());
    assert_eq!(
        convert(options).unwrap_err(),
        "ffmpeg is not valid UTF-8: invalid utf-8 sequence"
    );
}

#[test]
fn named_tools_and_encoder_are_kept() {
    let mut options = base_options("/videos");
    options.ffmpeg = text("/opt/ffmpeg");
    options.tmp_dir = text("/scratch");
    options.encoder = text("svt");
    options.count = 3;
    options.dry_run = 1;
    options.keep_original = 0;
    options.quality_threads = 4;
    let converted = convert(options).unwrap();
    assert_eq!(converted.ffmpeg, "/opt/ffmpeg");
    assert_eq!(converted.ffprobe, "ffprobe");
    assert_eq!(converted.tmp_dir, Some("/scratch".to_string()));
    assert_eq!(converted.encoder, Some("svt".to_string()));
    assert_eq!(converted.count, 3);
    assert!(converted.dry_run);
    assert!(!converted.keep_original);
    assert_eq!(converted.quality_threads, 4);

    let mut options = base_options("/videos");
    options.encoder = text("auto");
    assert_eq!(convert(options).unwrap().encoder, None);
}
