use myvidcomp::codec::EncoderKind;
use myvidcomp::quality::{
    adjusted_crf, bitrate_label, bitrate_quality_args, constant_quality_args, trial_quality_args,
};

fn strings(items: &[&str]) -> Vec<String> {
    items.iter().map(|item| item.to_string()).collect()
}

#[test]
fn plain_sources_keep_their_estimate() {
    assert_eq!(adjusted_crf(24, None, None, None, false), 24);
    assert_eq!(adjusted_crf(24, Some("Main"), Some("yuv420p"), Some("bt709"), false), 24);
}

#[test]
fn sources_worth_preserving_get_a_lower_estimate() {
    assert_eq!(adjusted_crf(24, Some("High"), None, None, false), 23);
    assert_eq!(adjusted_crf(24, Some("Main 10"), Some("yuv420p10le"), None, false), 22);
    assert_eq!(
        adjusted_crf(24, Some("main10"), Some("yuv422p10le"), Some("smpte2084"), true),
        19
    );
    assert_eq!(adjusted_crf(24, None, None, Some("ARIB-STD-B67"), false), 22);
}

#[test]
fn adjusted_estimate_stays_in_range() {
    assert_eq!(adjusted_crf(13, Some("high"), Some("yuv444p"), Some("smpte2084"), true), 12);
    assert_eq!(adjusted_crf(2, None, None, None, false), 12);
    assert_eq!(adjusted_crf(50, None, None, None, false), 36);
    assert_eq!(adjusted_crf(40, Some("high"), None, None, false), 36);
}

#[test]
fn bitrates_round_up_to_whole_kilobits() {
    assert_eq!(bitrate_label(600_000), "600k");
    assert_eq!(bitrate_label(600_001), "601k");
    assert_eq!(bitrate_label(999), "1k");
    assert_eq!(bitrate_label(0), "0k");
}

#[test]
fn constant_quality_uses_each_encoders_knob() {
    assert_eq!(
        constant_quality_args(EncoderKind::SvtAv1, "30"),
        strings(&["-crf", "30", "-preset", "6"])
    );
    assert_eq!(
        constant_quality_args(EncoderKind::LibAom, "30"),
        strings(&["-crf", "30", "-b:v", "0", "-cpu-used", "4"])
    );
    assert_eq!(
        constant_quality_args(EncoderKind::Vulkan, "28"),
        strings(&["-crf", "28", "-b:v", "0"])
    );
    assert_eq!(
        constant_quality_args(EncoderKind::Rav1e, "120"),
        strings(&["-qp", "120", "-speed", "6"])
    );
    assert_eq!(
        constant_quality_args(EncoderKind::X265, "22.5"),
        strings(&["-crf", "22.5", "-preset", "medium"])
    );
    assert_eq!(
        constant_quality_args(EncoderKind::Vvenc, "27"),
        strings(&["-qp", "27", "-preset", "faster"])
    );
    assert_eq!(
        constant_quality_args(EncoderKind::Hardware, "30"),
        strings(&["-cq", "30"])
    );
}

#[test]
fn bitrate_quality_asks_for_a_target_rate() {
    assert_eq!(
        bitrate_quality_args(EncoderKind::Hardware, 2_500_000),
        strings(&["-b:v", "2500k"])
    );
    assert_eq!(
        bitrate_quality_args(EncoderKind::MediaCodec, 2_500_000),
        strings(&["-b:v", "2500k", "-bitrate_mode", "1"])
    );
}

#[test]
fn trial_encodes_use_the_fastest_presets() {
    assert_eq!(trial_quality_args(EncoderKind::SvtAv1, "30"), strings(&["-crf", "30", "-preset", "8"]));
    assert_eq!(
        trial_quality_args(EncoderKind::LibAom, "30"),
        strings(&["-crf", "30", "-b:v", "0", "-cpu-used", "6"])
    );
    assert_eq!(trial_quality_args(EncoderKind::X265, "22.5"), strings(&["-crf", "22.5", "-preset", "veryfast"]));
    assert_eq!(trial_quality_args(EncoderKind::Rav1e, "100"), strings(&["-qp", "100", "-speed", "9"]));
    assert_eq!(trial_quality_args(EncoderKind::Hardware, "1200"), strings(&["-b:v", "1200k"]));
}
