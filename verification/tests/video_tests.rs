use myvidcomp::video::parse_video_fields;

#[test]
fn parses_nominal_frame_rate_from_probe() {
    let info = parse_video_fields(
        r#"
codec_name=mpeg2video
width=720
height=480
avg_frame_rate=31/1
r_frame_rate=24000/1001
duration=60.0
"#,
    )
    .unwrap();

    assert_eq!(info.codec_name, "mpeg2video");
    assert_eq!(info.width, 720);
    assert_eq!(info.height, 480);
    assert_eq!(info.avg_frame_rates, vec!["31/1".to_string()]);
    assert_eq!(info.r_frame_rates, vec!["24000/1001".to_string()]);
    assert_eq!(info.duration, Some("60.0".to_string()));
}

#[test]
fn parses_color_metadata_from_probe() {
    let info = parse_video_fields(
        r#"
codec_name=h264
width=1920
height=1080
sample_aspect_ratio=1:1
display_aspect_ratio=16:9
field_order=progressive
avg_frame_rate=30/1
r_frame_rate=30/1
color_range=tv
color_space=bt709
color_transfer=bt709
color_primaries=bt709
chroma_location=left
duration=60.0
"#,
    )
    .unwrap();

    assert_eq!(info.color_range, Some("tv".to_string()));
    assert_eq!(info.color_space, Some("bt709".to_string()));
    assert_eq!(info.color_transfer, Some("bt709".to_string()));
    assert_eq!(info.color_primaries, Some("bt709".to_string()));
    assert_eq!(info.chroma_location, Some("left".to_string()));
    assert_eq!(info.sample_aspect_ratio, Some("1:1".to_string()));
    assert_eq!(info.display_aspect_ratio, Some("16:9".to_string()));
    assert_eq!(info.field_order, Some("progressive".to_string()));
}

#[test]
fn ignores_unknown_color_metadata_from_probe() {
    let info = parse_video_fields(
        r#"
codec_name=h264
width=1920
height=1080
avg_frame_rate=30/1
r_frame_rate=30/1
color_range=unknown
color_space=unknown
color_transfer=unknown
color_primaries=unknown
duration=60.0
"#,
    )
    .unwrap();

    assert_eq!(info.color_range, None);
    assert_eq!(info.color_space, None);
    assert_eq!(info.color_transfer, None);
    assert_eq!(info.color_primaries, None);
}

#[test]
fn a_report_without_a_codec_is_no_video() {
    assert!(parse_video_fields("width=1920\nheight=1080\n").is_none());
    assert!(parse_video_fields("").is_none());
    assert!(parse_video_fields("codec_name=N/A\n").is_none());
}

#[test]
fn first_readable_bit_rate_wins_and_other_fields_take_the_last_value() {
    let info = parse_video_fields(
        "codec_name=h264\nbit_rate=N/A\nbit_rate=abc\nbit_rate=5000000\nbit_rate=7000\nprofile=Main\nprofile=High\nwidth=x\nbits_per_raw_sample=10\nTAG:encoder=x264 crf=18\n",
    )
    .unwrap();
    assert_eq!(info.bit_rate, Some(5_000_000));
    assert_eq!(info.profile, Some("High".to_string()));
    assert_eq!(info.width, 0);
    assert_eq!(info.bits_per_raw_sample, Some(10));
    assert_eq!(info.encoder_tag, Some("x264 crf=18".to_string()));
    assert_eq!(info.pix_fmt, None);
    assert!(info.avg_frame_rates.is_empty());
}

#[test]
fn values_are_trimmed_and_split_at_the_first_equals_sign() {
    let info = parse_video_fields(" codec_name = hevc \nTAG:encoder=a=b\nsample_aspect_ratio=0:1\n").unwrap();
    assert_eq!(info.codec_name, "hevc");
    assert_eq!(info.encoder_tag, Some("a=b".to_string()));
    assert_eq!(info.sample_aspect_ratio, None);
}
