use myvidcomp::events::{event_json, fixed3_string, Event};
use myvidcomp::options::{EncoderPreference, Preservation, QualityCheck, QualityMode, TargetCodec};
use myvidcomp::run::{CandidatePreview, FileStatus, LogLevel, OutputFormat, RunSummary};

#[test]
fn serializes_events_as_json_for_ffi() {
    let event = Event::Log {
        level: LogLevel::Warning,
        message: "quote \" slash \\ newline\n".to_string(),
    };

    assert_eq!(
        event_json(&event),
        "{\"type\":\"log\",\"level\":\"warning\",\"message\":\"quote \\\" slash \\\\ newline\\n\"}"
    );
}

#[test]
fn serializes_settings_event_as_json() {
    let event = Event::SettingsSelected {
        codec: TargetCodec::Hevc,
        preservation: Preservation::Flexible,
        encoder_preference: EncoderPreference::Gpu,
        output_format: OutputFormat::MkvFallback,
        quality_mode: QualityMode::Search,
        quality_check: QualityCheck::Sampled,
        quality_target: 9500,
        review_threshold: 9300,
    };

    assert_eq!(
        event_json(&event),
        "{\"type\":\"settings_selected\",\"codec\":\"hevc\",\"preservation\":\"flexible\",\"encoder_preference\":\"gpu\",\"output_format\":\"mkv-fallback\",\"quality_mode\":\"search\",\"quality_check\":\"sampled\",\"quality_target\":9500,\"review_threshold\":9300}"
    );
}

#[test]
fn serializes_quality_events_as_json() {
    let measured = Event::QualityMeasured {
        index: 2,
        score: 9412,
        subsample: 5,
        target: 9500,
        passed: true,
        caveat: None,
    };
    assert_eq!(
        event_json(&measured),
        "{\"type\":\"quality_measured\",\"index\":2,\"score\":9412,\"subsample\":5,\"target\":9500,\"passed\":true,\"caveat\":null}"
    );

    let search = Event::QualitySearch {
        index: 1,
        iteration: 3,
        encoder: "libsvtav1".to_string(),
        quality: "crf=30".to_string(),
        score: Some(9550),
    };
    assert_eq!(
        event_json(&search),
        "{\"type\":\"quality_search\",\"index\":1,\"iteration\":3,\"encoder\":\"libsvtav1\",\"quality\":\"crf=30\",\"score\":9550}"
    );
}

#[test]
fn serializes_adapted_file_attempt_event_as_json() {
    let event = Event::FileAttempt {
        index: 2,
        attempt: 3,
        total_attempts: 5,
        encoder: "av1_nvenc".to_string(),
        quality: "crf=24".to_string(),
        plan: "adapted".to_string(),
        target_pix_fmt: Some("yuv420p10le".to_string()),
        fallback_reason: Some("unsupported pixel format".to_string()),
    };

    assert_eq!(
        event_json(&event),
        "{\"type\":\"file_attempt\",\"index\":2,\"attempt\":3,\"total_attempts\":5,\"encoder\":\"av1_nvenc\",\"quality\":\"crf=24\",\"plan\":\"adapted\",\"target_pix_fmt\":\"yuv420p10le\",\"fallback_reason\":\"unsupported pixel format\"}"
    );
}

#[test]
fn writes_percentages_with_three_decimals() {
    assert_eq!(fixed3_string(0), "0.000");
    assert_eq!(fixed3_string(5), "0.005");
    assert_eq!(fixed3_string(42_070), "42.070");
    assert_eq!(fixed3_string(100_000), "100.000");
}

#[test]
fn serializes_progress_events_as_json() {
    let file = Event::FileProgress {
        index: 1,
        percent_thousandths: 12_345,
        speed: Some("1.5x".to_string()),
        eta_seconds: 90,
    };
    assert_eq!(
        event_json(&file),
        "{\"type\":\"file_progress\",\"index\":1,\"percent\":12.345,\"speed\":\"1.5x\",\"eta_seconds\":90}"
    );
    let copy = Event::CopyProgress {
        index: 2,
        percent_thousandths: 50_000,
        copied_bytes: 512,
        total_bytes: 1024,
        eta_seconds: 3,
    };
    assert_eq!(
        event_json(&copy),
        "{\"type\":\"copy_progress\",\"index\":2,\"percent\":50.000,\"copied_bytes\":512,\"total_bytes\":1024,\"eta_seconds\":3}"
    );
}

#[test]
fn serializes_review_and_dry_run_events_as_json() {
    let review = Event::ReviewPending {
        index: 3,
        original_path: "/v/a.mkv".to_string(),
        review_path: "/v/a.myvidcomp-review.mp4".to_string(),
        sidecar_path: "/v/a.myvidcomp-review.mp4.json".to_string(),
        score: None,
        original_bytes: 100,
        review_bytes: 40,
        deviations: vec!["audio: dropped".to_string(), "color: \"range\"".to_string()],
    };
    assert_eq!(
        event_json(&review),
        "{\"type\":\"review_pending\",\"index\":3,\"original_path\":\"/v/a.mkv\",\"review_path\":\"/v/a.myvidcomp-review.mp4\",\"sidecar_path\":\"/v/a.myvidcomp-review.mp4.json\",\"score\":null,\"original_bytes\":100,\"review_bytes\":40,\"deviations\":[\"audio: dropped\",\"color: \\\"range\\\"\"]}"
    );
    let dry = Event::DryRun {
        encoder: "libx265".to_string(),
        limit: Some(2),
        candidates: vec![
            CandidatePreview { input_path: "/v/a.mkv".to_string(), output_path: "/v/a.mp4".to_string() },
            CandidatePreview { input_path: "/v/b.avi".to_string(), output_path: "/v/b.mp4".to_string() },
        ],
        skipped: 1,
    };
    assert_eq!(
        event_json(&dry),
        "{\"type\":\"dry_run\",\"encoder\":\"libx265\",\"limit\":2,\"candidates\":[{\"input_path\":\"/v/a.mkv\",\"output_path\":\"/v/a.mp4\"},{\"input_path\":\"/v/b.avi\",\"output_path\":\"/v/b.mp4\"}],\"skipped\":1}"
    );
    let empty = Event::DryRun { encoder: "x".to_string(), limit: None, candidates: Vec::new(), skipped: 0 };
    assert_eq!(
        event_json(&empty),
        "{\"type\":\"dry_run\",\"encoder\":\"x\",\"limit\":null,\"candidates\":[],\"skipped\":0}"
    );
}

#[test]
fn serializes_the_remaining_events_as_json() {
    assert_eq!(event_json(&Event::StopRequested), "{\"type\":\"stop_requested\"}");
    let finished = Event::FileFinished {
        index: 4,
        input_path: "/v/c.mov".to_string(),
        status: FileStatus::Failed,
        message: "no encoder".to_string(),
        source_bytes: Some(10),
        output_bytes: None,
    };
    assert_eq!(
        event_json(&finished),
        "{\"type\":\"file_finished\",\"index\":4,\"input_path\":\"/v/c.mov\",\"status\":\"failed\",\"message\":\"no encoder\",\"source_bytes\":10,\"output_bytes\":null}"
    );
    let summary = Event::Summary {
        summary: RunSummary { converted: 2, skipped: 1, failed: 0, source_bytes: 300, output_bytes: 120 },
    };
    assert_eq!(
        event_json(&summary),
        "{\"type\":\"summary\",\"summary\":{\"converted\":2,\"skipped\":1,\"failed\":0,\"source_bytes\":300,\"output_bytes\":120}}"
    );
    let candidate = Event::EncoderCandidateEvaluated {
        encoder: "av1_qsv".to_string(),
        advertised: true,
        usable: false,
        detail: Some("device missing".to_string()),
    };
    assert_eq!(
        event_json(&candidate),
        "{\"type\":\"encoder_candidate_evaluated\",\"encoder\":\"av1_qsv\",\"advertised\":true,\"usable\":false,\"detail\":\"device missing\"}"
    );
    let started = Event::FileStarted {
        index: 1,
        total: None,
        input_path: "/v/a.mkv".to_string(),
        output_path: "/v/a.mp4".to_string(),
        encoder: "libsvtav1".to_string(),
        quality: "crf=30".to_string(),
    };
    assert_eq!(
        event_json(&started),
        "{\"type\":\"file_started\",\"index\":1,\"total\":null,\"input_path\":\"/v/a.mkv\",\"output_path\":\"/v/a.mp4\",\"encoder\":\"libsvtav1\",\"quality\":\"crf=30\"}"
    );
    assert_eq!(
        event_json(&Event::ScanFinished { candidates: 5, skipped: 2 }),
        "{\"type\":\"scan_finished\",\"candidates\":5,\"skipped\":2}"
    );
    assert_eq!(
        event_json(&Event::Stage { index: 1, stage: "validating".to_string() }),
        "{\"type\":\"stage\",\"index\":1,\"stage\":\"validating\"}"
    );
}
