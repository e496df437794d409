use myvidcomp::run::{
    candidate_json, conversion_limit, conversion_limit_reached, count_candidate_info,
    count_limit_info, file_status_label, log_level_label, normalize_output_format_choice,
    parse_output_format, summary_json, validate_run_options, CandidatePreview, FileStatus,
    LogLevel, OutputFormat, RunOptions, RunSummary,
};

#[test]
fn reports_info_when_count_exceeds_eligible_videos() {
    assert_eq!(
        count_limit_info(10, 3),
        Some(
            "Info: requested 10 conversion(s), only 3 eligible video(s) need conversion."
                .to_string()
        )
    );
    assert_eq!(count_limit_info(3, 3), None);
    assert_eq!(count_limit_info(-1, 3), None);
}

#[test]
fn reports_info_when_count_exceeds_candidates_in_dry_run() {
    assert_eq!(
        count_candidate_info(10, 3),
        Some(
            "Info: requested 10 conversion(s), only 3 candidate video file(s) were found before probing."
                .to_string()
        )
    );
    assert_eq!(count_candidate_info(3, 3), None);
    assert_eq!(count_candidate_info(-1, 3), None);
}

#[test]
fn parses_output_format_values() {
    assert_eq!(parse_output_format("mp4").unwrap(), OutputFormat::Mp4);
    assert_eq!(
        parse_output_format("mkv-fallback").unwrap(),
        OutputFormat::MkvFallback
    );
    assert_eq!(
        parse_output_format("MKV_Fallback").unwrap(),
        OutputFormat::MkvFallback
    );
    assert!(parse_output_format("webm").is_err());
}

#[test]
fn output_format_wire_names_round_trip() {
    for format in [OutputFormat::Mp4, OutputFormat::MkvFallback] {
        assert_eq!(parse_output_format(format.as_str()), Ok(format));
    }
    assert_eq!(normalize_output_format_choice(""), Ok(None));
    assert_eq!(normalize_output_format_choice("default"), Ok(None));
    assert_eq!(
        normalize_output_format_choice("MKV_FALLBACK"),
        Ok(Some(OutputFormat::MkvFallback))
    );
    assert!(normalize_output_format_choice("mkv").is_err());
}

#[test]
fn a_negative_count_sets_no_limit() {
    assert_eq!(conversion_limit(-1), None);
    assert_eq!(conversion_limit(0), Some(0));
    assert_eq!(conversion_limit(4), Some(4));
    assert!(!conversion_limit_reached(-1, 1_000));
    assert!(conversion_limit_reached(0, 0));
    assert!(!conversion_limit_reached(2, 1));
    assert!(conversion_limit_reached(2, 2));
    assert!(conversion_limit_reached(2, 3));
}

#[test]
fn review_threshold_is_target_less_margin() {
    let mut options = RunOptions::with_tools(
        "/videos".to_string(),
        "ffmpeg".to_string(),
        "ffprobe".to_string(),
    );
    options.quality_target = 9500;
    options.review_margin = 200;
    assert_eq!(options.review_threshold(), 9300);
    options.review_margin = 9600;
    assert_eq!(options.review_threshold(), 0);
}

#[test]
fn validates_count_and_folder() {
    let mut options = RunOptions::with_tools(
        "/videos".to_string(),
        "ffmpeg".to_string(),
        "ffprobe".to_string(),
    );
    assert_eq!(validate_run_options(&options, true), Ok(()));
    assert_eq!(
        validate_run_options(&options, false),
        Err("target folder does not exist or is not a directory: /videos".to_string())
    );
    options.count = -2;
    assert_eq!(
        validate_run_options(&options, true),
        Err("count must be -1 or greater".to_string())
    );
}

#[test]
fn serializes_summaries_and_candidates() {
    let summary = RunSummary {
        converted: 2,
        skipped: 1,
        failed: 3,
        source_bytes: 1000,
        output_bytes: 400,
    };
    assert_eq!(summary.conversion_attempts(), 5);
    assert_eq!(
        summary_json(&summary),
        "{\"converted\":2,\"skipped\":1,\"failed\":3,\"source_bytes\":1000,\"output_bytes\":400}"
    );
    let candidate = CandidatePreview {
        input_path: "/v/a \"b\".mkv".to_string(),
        output_path: "/v/a.mp4".to_string(),
    };
    assert_eq!(
        candidate_json(&candidate),
        "{\"input_path\":\"/v/a \\\"b\\\".mkv\",\"output_path\":\"/v/a.mp4\"}"
    );
    assert_eq!(log_level_label(LogLevel::Warning), "warning");
    assert_eq!(file_status_label(FileStatus::Failed), "failed");
}
