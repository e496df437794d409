use myvidcomp::decode::{candidates, supported_methods, Decoding, Platform};
use myvidcomp::options::{parse_decoder_preference, DecoderPreference, HwAccel};

#[test]
fn offers_dull_candidates_first() {
    for platform in [Platform::Windows, Platform::MacOs, Platform::Android, Platform::Other] {
        let candidates = candidates(platform);
        assert!(!candidates.is_empty());

        match platform {
            Platform::Windows => assert_eq!(candidates.first().copied(), Some(HwAccel::D3d11va)),
            Platform::MacOs => {
                assert_eq!(candidates.first().copied(), Some(HwAccel::VideoToolbox))
            }
            Platform::Android => {
                assert_eq!(candidates.first().copied(), Some(HwAccel::MediaCodec))
            }
            Platform::Other => {}
        }

        // Nothing experimental is ever chosen automatically.
        assert!(!candidates.contains(&HwAccel::Vulkan));
        assert!(!candidates.contains(&HwAccel::D3d12va));

        for method in &candidates {
            assert_eq!(
                parse_decoder_preference(method.as_str()),
                Ok(DecoderPreference::Method(*method))
            );
        }
    }
}

#[test]
fn the_processor_is_the_default() {
    let mut decoding = Decoding::on_processor();
    assert_eq!(decoding.method(), None);
    // Nothing is asked of ffmpeg when the processor is doing the decoding.
    assert_eq!(
        decoding.method_for("hevc", |_| panic!("no decode test should run")),
        None
    );
}

#[test]
fn one_failure_ends_it_for_the_run() {
    let mut decoding = Decoding::with_method(HwAccel::D3d11va);
    assert_eq!(decoding.method(), Some(HwAccel::D3d11va));

    decoding.disable();

    assert_eq!(decoding.method(), None);
}

#[test]
fn a_refused_codec_is_remembered() {
    let mut decoding = Decoding::with_method(HwAccel::D3d11va);
    decoding.remember("av1", false);
    decoding.remember("hevc", true);

    assert_eq!(
        decoding.method_for("av1", |_| panic!("av1 was already tested")),
        None
    );
    assert_eq!(
        decoding.method_for("hevc", |_| panic!("hevc was already tested")),
        Some(HwAccel::D3d11va)
    );
}

#[test]
fn a_codec_is_tested_once_and_the_answer_kept() {
    let mut decoding = Decoding::with_method(HwAccel::Cuda);
    assert_eq!(decoding.method_for("h264", |_| false), None);
    assert_eq!(decoding.method_for("h264", |_| true), None);
    assert_eq!(decoding.method_for("vp9", |_| true), Some(HwAccel::Cuda));
}

#[test]
fn a_disabled_run_stays_on_the_processor() {
    let mut decoding = Decoding::with_method(HwAccel::Qsv);
    decoding.disable();
    assert_eq!(decoding.method_for("h264", |_| true), None);
    assert_eq!(decoding.method(), None);
}

#[test]
fn gpu_scoring_is_off_until_enabled() {
    let mut decoding = Decoding::with_method(HwAccel::Cuda);
    assert!(!decoding.scores_on_gpu());
    decoding.enable_gpu_scoring();
    assert!(decoding.scores_on_gpu());
    decoding.disable();
    assert!(!decoding.scores_on_gpu());
    let mut other = Decoding::with_method(HwAccel::Qsv);
    other.enable_gpu_scoring();
    assert!(!other.scores_on_gpu());
}

#[test]
fn select_takes_the_first_method_the_device_accepts() {
    let listing = "Hardware acceleration methods:\nvdpau\ncuda\nvaapi\nqsv\n";
    let supported = supported_methods(listing, Platform::Other);
    let (decoding, complaint) = Decoding::select(supported, DecoderPreference::Auto, |m| {
        if m == HwAccel::Vaapi {
            Err("no device".to_string())
        } else {
            Ok(())
        }
    });
    assert_eq!(complaint, None);
    assert_eq!(decoding.method(), Some(HwAccel::Cuda));
}

#[test]
fn a_named_method_that_fails_falls_back_with_a_reason() {
    let (decoding, complaint) = Decoding::select(
        vec![HwAccel::Cuda],
        DecoderPreference::Method(HwAccel::Qsv),
        |_| Err("device missing".to_string()),
    );
    assert_eq!(decoding.method(), None);
    assert_eq!(
        complaint,
        Some("qsv cannot be used on this computer, so decoding stays on the processor: device missing".to_string())
    );
}

#[test]
fn asking_for_the_gpu_without_any_reports_it() {
    let (decoding, complaint) = Decoding::select(Vec::new(), DecoderPreference::Gpu, |_| Ok(()));
    assert_eq!(decoding.method(), None);
    assert_eq!(
        complaint,
        Some("this FFmpeg build offers no hardware decoding, so decoding stays on the processor".to_string())
    );
}

#[test]
fn lists_only_supported_methods_in_platform_order() {
    let listing = "Hardware acceleration methods:\nvaapi\ncuda\nvulkan\n";
    assert_eq!(
        supported_methods(listing, Platform::Other),
        vec![HwAccel::Vaapi, HwAccel::Cuda]
    );
}
