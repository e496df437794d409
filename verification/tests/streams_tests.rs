use myvidcomp::options::TargetCodec;
use myvidcomp::probe::{
    decode_compact_escapes, known_color_value, known_probe_value, known_ratio_value,
    parse_compact_fields, parse_stream_probe, parse_track_id, split_compact_unescaped,
    StreamInfo,
};
use myvidcomp::run::OutputFormat;
use myvidcomp::streams::{
    is_chapter_carrier_candidate, is_mp4_audio_codec, is_mp4_video_codec,
    matroska_incompatible_stream_reason, mp4_incompatible_stream_reason,
    select_output_container, stream_map_args, stream_signature_validation_error,
    validate_stream_signature, OutputContainer, StreamSignature,
};

fn sample_stream(index: usize, codec_type: &str, codec_name: &str) -> StreamInfo {
    StreamInfo {
        index,
        codec_type: codec_type.to_string(),
        codec_name: codec_name.to_string(),
        codec_tag_string: None,
        track_id: None,
        handler_name: None,
    }
}

#[test]
fn keeps_streams_with_missing_codec_names_in_signature() {
    let streams = parse_stream_probe(
        r#"
index=0|codec_name=h264|codec_type=video
index=1|codec_type=data
index=2|codec_name=aac|codec_type=audio
"#,
    );

    assert_eq!(streams.len(), 3);
    assert_eq!(streams[1].codec_type, "data");
    assert_eq!(streams[1].codec_name, "unknown");
}

#[test]
fn deduplicates_stream_probe_entries_by_ffprobe_index() {
    let streams = parse_stream_probe(
        r#"
index=4|codec_name=h264|codec_type=video|codec_tag_string=avc1|id=0x1|TAG:handler_name=VideoHandler
index=9|codec_name=aac|codec_type=audio|codec_tag_string=mp4a|id=2|TAG:handler_name=SoundHandler
index=9|codec_name=aac|codec_type=audio
index=1|codec_name=aac|codec_type=audio
index=2|codec_name=timed_id3|codec_type=data
"#,
    );

    assert_eq!(streams.len(), 4);
    assert_eq!(streams[0].index, 4);
    assert_eq!(streams[0].track_id, Some(1));
    assert_eq!(streams[0].codec_tag_string.as_deref(), Some("avc1"));
    assert_eq!(streams[0].handler_name.as_deref(), Some("VideoHandler"));
    assert_eq!(streams[1].index, 9);
    assert_eq!(streams[1].track_id, Some(2));
}

#[test]
fn validates_only_first_video_codec_changes() {
    let source = vec![
        StreamSignature {
            codec_type: "video".to_string(),
            codec_name: "h264".to_string(),
        },
        StreamSignature {
            codec_type: "audio".to_string(),
            codec_name: "aac".to_string(),
        },
        StreamSignature {
            codec_type: "video".to_string(),
            codec_name: "mjpeg".to_string(),
        },
    ];
    let output = vec![
        sample_stream(0, "video", "av1"),
        sample_stream(1, "audio", "aac"),
        sample_stream(2, "video", "mjpeg"),
    ];

    assert!(
        stream_signature_validation_error(&source, &output, "clip.mp4", TargetCodec::Av1)
            .is_none()
    );
}

#[test]
fn rejects_non_first_stream_codec_change() {
    let source = vec![
        StreamSignature {
            codec_type: "video".to_string(),
            codec_name: "h264".to_string(),
        },
        StreamSignature {
            codec_type: "audio".to_string(),
            codec_name: "aac".to_string(),
        },
    ];
    let output = vec![
        sample_stream(0, "video", "av1"),
        sample_stream(1, "audio", "alac"),
    ];

    let err =
        stream_signature_validation_error(&source, &output, "clip.mp4", TargetCodec::Av1).unwrap();

    assert!(err.contains("output stream #1 codec changed from aac to alac"));
}

#[test]
fn reports_changed_stream_counts_and_wrong_codecs() {
    let source = vec![StreamSignature::of(&sample_stream(0, "video", "h264"))];
    let two = vec![sample_stream(0, "video", "av1"), sample_stream(1, "audio", "aac")];
    assert_eq!(
        validate_stream_signature(&two, "clip.mp4", &source, TargetCodec::Av1),
        Err("output stream count changed from 1 to 2: clip.mp4".to_string())
    );
    let wrong = vec![sample_stream(0, "video", "h264")];
    assert_eq!(
        validate_stream_signature(&wrong, "clip.mp4", &source, TargetCodec::Hevc),
        Err("the converted video stream is h264, not the hevc that was asked for: clip.mp4"
            .to_string())
    );
    let right = vec![sample_stream(0, "video", "HEVC")];
    assert_eq!(
        validate_stream_signature(&right, "clip.mp4", &source, TargetCodec::Hevc),
        Ok(())
    );
}

#[test]
fn skip_reason_includes_stream_detail() {
    let streams = vec![
        sample_stream(0, "video", "h264"),
        sample_stream(1, "subtitle", "ass"),
    ];
    let reason = mp4_incompatible_stream_reason(&streams).unwrap();
    assert!(reason.contains("stream #1"));
    assert!(reason.contains("ass"));
}

#[test]
fn stream_mapping_uses_actual_probe_indexes() {
    let args = stream_map_args(&vec![2, 7, 11]);
    assert_eq!(
        args,
        ["-map", "0:2", "-map", "0:7", "-map", "0:11"]
            .into_iter()
            .map(str::to_string)
            .collect::<Vec<_>>()
    );
}

#[test]
fn matroska_fallback_rejects_data_but_accepts_text_subtitles() {
    let data = vec![
        sample_stream(0, "video", "h264"),
        sample_stream(5, "data", "bin_data"),
    ];
    let err = select_output_container(OutputFormat::MkvFallback, &data).unwrap_err();
    assert!(err.contains("stream #5"));
    assert!(err.contains("not conservatively Matroska-copy-compatible"));
    for codec in ["ass", "subrip"] {
        let streams = vec![
            sample_stream(0, "video", "h264"),
            sample_stream(6, "subtitle", codec),
        ];
        assert_eq!(
            select_output_container(OutputFormat::MkvFallback, &streams).unwrap(),
            OutputContainer::Mkv
        );
    }
}

#[test]
fn conservative_mp4_audio_whitelist_rejects_unsafe_codecs() {
    assert!(!is_mp4_audio_codec("pcm_s16le"));
    assert!(!is_mp4_audio_codec("dts"));
    assert!(!is_mp4_audio_codec("truehd"));
    assert!(!is_mp4_audio_codec("mp2"));
    assert!(!is_mp4_audio_codec("vorbis"));
}

#[test]
fn conservative_mp4_video_whitelist_rejects_unproven_codecs() {
    assert!(!is_mp4_video_codec("mpeg2video"));
    assert!(!is_mp4_video_codec("vp9"));
    assert!(!is_mp4_video_codec("h263"));
    assert!(!is_mp4_video_codec("vp8"));
}

#[test]
fn mp4_is_chosen_when_every_stream_fits() {
    let streams = vec![
        sample_stream(0, "video", "vp9"),
        sample_stream(1, "audio", "opus"),
        sample_stream(2, "subtitle", "mov_text"),
    ];
    assert_eq!(
        select_output_container(OutputFormat::Mp4, &streams),
        Ok(OutputContainer::Mp4)
    );
    assert_eq!(OutputContainer::Mkv.extension(), "mkv");
    assert_eq!(matroska_incompatible_stream_reason(&streams), None);
    let mut subtitle = sample_stream(3, "subtitle", "ass");
    subtitle.handler_name = Some("Subs".to_string());
    assert_eq!(
        mp4_incompatible_stream_reason(&vec![sample_stream(0, "video", "h264"), subtitle]),
        Some("stream #3 (subtitle) codec 'ass', handler 'Subs' is not MP4-copy-compatible".to_string())
    );
    assert_eq!(
        select_output_container(OutputFormat::Mp4, &vec![sample_stream(0, "video", "h264"), sample_stream(1, "audio", "dts")]),
        Err("stream #1 (audio) codec 'dts' is not MP4-copy-compatible".to_string())
    );
}

#[test]
fn reads_compact_probe_fields() {
    assert_eq!(
        split_compact_unescaped("a=1|b=x\\|y|c", '|'),
        vec!["a=1".to_string(), "b=x\\|y".to_string(), "c".to_string()]
    );
    assert_eq!(decode_compact_escapes("x\\|y\\\\z"), "x|y\\z");
    assert_eq!(
        parse_compact_fields("index=3|TAG:title=a\\|b"),
        vec![
            ("index".to_string(), "3".to_string()),
            ("TAG:title".to_string(), "a|b".to_string())
        ]
    );
    assert_eq!(parse_track_id("0x1f"), Some(31));
    assert_eq!(parse_track_id("12"), Some(12));
    assert_eq!(parse_track_id("0"), None);
    assert_eq!(parse_track_id("N/A"), None);
    assert_eq!(known_probe_value(" N/A "), None);
    assert_eq!(known_probe_value(" bt709 "), Some("bt709".to_string()));
    assert_eq!(known_color_value("unspecified"), None);
    assert_eq!(known_ratio_value("0:1"), None);
    assert_eq!(known_ratio_value("16:9"), Some("16:9".to_string()));
}

#[test]
fn spots_chapter_carriers() {
    let mut carrier = sample_stream(2, "data", "bin_data");
    carrier.codec_tag_string = Some("TEXT".to_string());
    carrier.track_id = Some(3);
    assert!(is_chapter_carrier_candidate(&carrier));
    carrier.track_id = None;
    assert!(!is_chapter_carrier_candidate(&carrier));
}
