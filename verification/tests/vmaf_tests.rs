use myvidcomp::vmaf::{
    accuracy_caveat, can_score_on_gpu, comparison_pixel_format, model_for, parse_vmaf_score,
    score_from_output, vmaf_cuda_support_from_help, vmaf_support_from_help, VmafOptions,
};

fn hundredths(token: String) -> Option<u32> {
    match token.parse::<f64>() {
        Ok(value) if value.is_finite() && (0.0..=100.0).contains(&value) => {
            Some((value * 100.0).round() as u32)
        }
        _ => None,
    }
}

#[test]
fn reads_a_score_out_of_finished_output() {
    let measured = score_from_output(true, "VMAF score: 95.50\n", 5, hundredths).unwrap();
    assert_eq!(measured.hundredths, 9550);
    assert_eq!(measured.subsample, 5);

    let failed = score_from_output(false, "Error opening input file\n", 1, hundredths).unwrap_err();
    assert!(failed.starts_with("quality measurement failed:"));

    let scoreless = score_from_output(true, "nothing useful\n", 1, hundredths).unwrap_err();
    assert_eq!(scoreless, "quality measurement produced no score");
}

#[test]
fn parses_a_score() {
    assert_eq!(
        parse_vmaf_score("[libvmaf @ 0x55] VMAF score: 95.123456\n", hundredths),
        Some(9512)
    );
    assert_eq!(parse_vmaf_score("VMAF score: 100.000000", hundredths), Some(10000));
    assert_eq!(parse_vmaf_score("VMAF score: 0.000000", hundredths), Some(0));
    assert_eq!(parse_vmaf_score("no score here", hundredths), None);
    assert_eq!(parse_vmaf_score("VMAF score: nonsense", hundredths), None);
}

#[test]
fn takes_the_last_score() {
    let text = "VMAF score: 80.000000\nVMAF score: 92.500000\n";
    assert_eq!(parse_vmaf_score(text, hundredths), Some(9250));
}

#[test]
fn an_unreadable_later_score_keeps_the_earlier_one() {
    let text = "VMAF score: 80.000000\nVMAF score: 250\n";
    assert_eq!(parse_vmaf_score(text, hundredths), Some(8000));
}

#[test]
fn a_subsample_of_zero_counts_as_one() {
    let measured = score_from_output(true, "VMAF score: 50\n", 0, hundredths).unwrap();
    assert_eq!(measured.subsample, 1);
    assert_eq!(measured.hundredths, 5000);
}

#[test]
fn picks_a_model_for_the_resolution() {
    assert_eq!(model_for(1920, 1080), "vmaf_v0.6.1");
    assert_eq!(model_for(2560, 1440), "vmaf_v0.6.1");
    assert_eq!(model_for(3840, 2160), "vmaf_4k_v0.6.1");
    assert_eq!(model_for(1080, 2600), "vmaf_4k_v0.6.1");
}

#[test]
fn picks_a_comparable_pixel_format() {
    assert_eq!(comparison_pixel_format(None), "yuv420p");
    assert_eq!(comparison_pixel_format(Some("yuvj420p")), "yuv420p");
    assert_eq!(comparison_pixel_format(Some("p010le")), "yuv420p10le");
    assert_eq!(comparison_pixel_format(Some("yuv422p10le")), "yuv422p10le");
    assert_eq!(comparison_pixel_format(Some("gbrp")), "yuv444p");
    assert_eq!(comparison_pixel_format(Some("rgb48le")), "yuv444p");
    assert_eq!(comparison_pixel_format(Some("gbrp10le")), "yuv444p10le");
    assert_eq!(comparison_pixel_format(Some("nv12")), "yuv420p");
}

#[test]
fn only_eight_bit_four_two_zero_goes_to_the_card() {
    assert!(can_score_on_gpu(Some("yuv420p")));
    assert!(!can_score_on_gpu(Some("yuv420p10le")));
    assert!(!can_score_on_gpu(Some("yuv444p")));
}

#[test]
fn flags_hdr_sources() {
    assert!(accuracy_caveat(Some("smpte2084")).is_some());
    assert!(accuracy_caveat(Some("ARIB-STD-B67")).is_some());
    assert!(accuracy_caveat(Some("bt709")).is_none());
    assert!(accuracy_caveat(None).is_none());
}

#[test]
fn reads_filter_help() {
    let (support, reason) = vmaf_support_from_help("Filter libvmaf\n  n_subsample <int>\n");
    assert!(support.available);
    assert_eq!(reason, None);
    let (support, reason) = vmaf_support_from_help("Unknown filter 'libvmaf'.\n");
    assert!(!support.available);
    assert_eq!(
        reason,
        Some("this FFmpeg build has no libvmaf filter, so quality cannot be measured".to_string())
    );
    assert!(vmaf_cuda_support_from_help("Filter libvmaf_cuda\n n_subsample"));
    assert!(!vmaf_cuda_support_from_help("Filter libvmaf\n n_subsample"));
    let options = VmafOptions::default();
    assert_eq!((options.subsample, options.threads), (5, 0));
}
