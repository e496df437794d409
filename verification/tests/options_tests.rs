use myvidcomp::options::{
    hw_accels, normalize_decoder_preference_choice, normalize_encoder_preference_choice,
    normalize_target_codec_choice, parse_decoder_preference, parse_encoder_preference,
    parse_preservation, parse_quality_check, parse_quality_mode, parse_target_codec,
    validate_quality_target, DecoderPreference, EncoderPreference, HwAccel, Preservation,
    QualityCheck, QualityMode, TargetCodec,
};

#[test]
fn parses_a_decoder_preference() {
    assert_eq!(parse_decoder_preference("auto"), Ok(DecoderPreference::Auto));
    assert_eq!(parse_decoder_preference(" GPU "), Ok(DecoderPreference::Gpu));
    assert_eq!(parse_decoder_preference("software"), Ok(DecoderPreference::Cpu));
    for method in hw_accels() {
        assert_eq!(
            parse_decoder_preference(method.as_str()),
            Ok(DecoderPreference::Method(method))
        );
    }

    let error = parse_decoder_preference("h264_cuvid").unwrap_err();
    assert!(error.contains("Supported values"));
    assert!(error.contains("d3d11va"));
}

#[test]
fn auto_is_a_choice_not_a_blank() {
    assert_eq!(normalize_decoder_preference_choice(""), Ok(None));
    assert_eq!(normalize_decoder_preference_choice("default"), Ok(None));
    assert_eq!(
        normalize_decoder_preference_choice("auto"),
        Ok(Some(DecoderPreference::Auto))
    );
}

#[test]
fn wire_values_round_trip() {
    let cases = [
        DecoderPreference::Auto,
        DecoderPreference::Gpu,
        DecoderPreference::Cpu,
        DecoderPreference::Method(HwAccel::Cuda),
    ];
    for case in cases {
        assert_eq!(parse_decoder_preference(case.as_str()), Ok(case));
    }
    assert!(DecoderPreference::Auto.allows_hardware());
    assert!(!DecoderPreference::Cpu.allows_hardware());
}

#[test]
fn every_option_parses_back_from_its_wire_value() {
    for codec in [TargetCodec::Av1, TargetCodec::Hevc, TargetCodec::Vvc] {
        assert_eq!(parse_target_codec(codec.as_str()), Ok(codec));
    }
    for p in [Preservation::Strict, Preservation::Flexible] {
        assert_eq!(parse_preservation(p.as_str()), Ok(p));
    }
    for m in [QualityMode::Search, QualityMode::Estimate] {
        assert_eq!(parse_quality_mode(m.as_str()), Ok(m));
    }
    for q in [QualityCheck::Full, QualityCheck::Sampled, QualityCheck::Off] {
        assert_eq!(parse_quality_check(q.as_str()), Ok(q));
    }
    for e in [EncoderPreference::Auto, EncoderPreference::Gpu, EncoderPreference::Cpu] {
        assert_eq!(parse_encoder_preference(e.as_str()), Ok(e));
    }
    for method in hw_accels() {
        let d = DecoderPreference::Method(method);
        assert_eq!(parse_decoder_preference(d.as_str()), Ok(d));
    }
}

#[test]
fn option_parsers_accept_aliases_and_explain_refusals() {
    assert_eq!(parse_target_codec(" H.265 "), Ok(TargetCodec::Hevc));
    assert_eq!(parse_target_codec("X266"), Ok(TargetCodec::Vvc));
    assert_eq!(parse_target_codec("av01"), Ok(TargetCodec::Av1));
    assert_eq!(
        parse_target_codec(" VP9 "),
        Err("invalid output codec: vp9. Supported values: av1, hevc, vvc".to_string())
    );
    assert_eq!(parse_preservation("Exact"), Ok(Preservation::Strict));
    assert_eq!(parse_preservation("relaxed"), Ok(Preservation::Flexible));
    assert_eq!(
        parse_preservation("loose"),
        Err("invalid preservation setting: loose. Supported values: strict, flexible".to_string())
    );
    assert_eq!(parse_quality_mode("heuristic"), Ok(QualityMode::Estimate));
    assert_eq!(parse_quality_mode("VMAF"), Ok(QualityMode::Search));
    assert!(parse_quality_mode("guess").unwrap_err().starts_with("invalid quality mode: guess."));
    assert_eq!(parse_quality_check("every"), Ok(QualityCheck::Full));
    assert_eq!(parse_quality_check("fast"), Ok(QualityCheck::Sampled));
    assert_eq!(parse_quality_check("no"), Ok(QualityCheck::Off));
    assert_eq!(
        parse_quality_check("most"),
        Err("invalid quality check: most. Supported values: full, sampled, off".to_string())
    );
    assert_eq!(
        parse_encoder_preference("consistency_priority"),
        Ok(EncoderPreference::Auto)
    );
    assert_eq!(parse_encoder_preference("Hardware-Priority"), Ok(EncoderPreference::Gpu));
    assert_eq!(parse_encoder_preference("software"), Ok(EncoderPreference::Cpu));
    assert_eq!(
        parse_decoder_preference("h264_cuvid").unwrap_err(),
        "invalid decoder preference: h264_cuvid. Supported values: auto, gpu, cpu, d3d11va, d3d12va, dxva2, cuda, qsv, vaapi, videotoolbox, mediacodec, vulkan"
    );
}

#[test]
fn blank_auto_and_default_mean_not_set() {
    assert_eq!(normalize_target_codec_choice(""), Ok(None));
    assert_eq!(normalize_target_codec_choice("  AUTO "), Ok(None));
    assert_eq!(normalize_target_codec_choice("Default"), Ok(None));
    assert_eq!(normalize_target_codec_choice("hevc"), Ok(Some(TargetCodec::Hevc)));
    assert!(normalize_target_codec_choice("vp8").is_err());
    // For the encoder preference auto is a value of its own.
    assert_eq!(normalize_encoder_preference_choice(" "), Ok(None));
    assert_eq!(
        normalize_encoder_preference_choice("auto"),
        Ok(Some(EncoderPreference::Auto))
    );
}

#[test]
fn labels_and_codec_details() {
    assert_eq!(TargetCodec::Hevc.label(), "H.265 / HEVC");
    assert_eq!(TargetCodec::Vvc.ffprobe_name(), "vvc");
    assert_eq!(TargetCodec::Hevc.mp4_tag(), Some("hvc1"));
    assert_eq!(TargetCodec::Av1.mp4_tag(), None);
    assert!(Preservation::Flexible.allows_deviations());
    assert!(!Preservation::Strict.allows_deviations());
    assert_eq!(QualityCheck::Full.subsample(), 1);
    assert_eq!(QualityCheck::Off.subsample(), 5);
    assert_eq!(DecoderPreference::Method(HwAccel::Qsv).label(), "qsv");
    assert_eq!(DecoderPreference::Cpu.label(), "the processor");
    assert_eq!(TargetCodec::default(), TargetCodec::Av1);
    assert_eq!(Preservation::default(), Preservation::Flexible);
    assert_eq!(QualityCheck::default(), QualityCheck::Sampled);
}

#[test]
fn quality_targets_stay_between_fifty_and_a_hundred() {
    assert_eq!(validate_quality_target(9500), Ok(9500));
    assert_eq!(validate_quality_target(5000), Ok(5000));
    assert_eq!(validate_quality_target(10000), Ok(10000));
    assert_eq!(
        validate_quality_target(4999),
        Err("quality target must be between 50 and 100".to_string())
    );
    assert!(validate_quality_target(10001).is_err());
}
