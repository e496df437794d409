use myvidcomp::codec::EncoderKind;
use myvidcomp::encoders::{detect_encoder_candidates_from_listing, Encoder, EncoderSelection};
use myvidcomp::metadata::{
    metadata_exemptions_for, skip_reason_label, ColorFields, MetadataExemptions, SkipReason,
    TranscodePlanKind,
};
use myvidcomp::options::{EncoderPreference, Preservation, QualityCheck, TargetCodec};
use myvidcomp::plans::{
    closest_hardware_pixel_format, codec_forced_pixel_format, conversion_outcome,
    measurement_needed, plan_deviations, preservation_skip_reason, transcode_plan_steps,
    item_skip_reason, run_exemptions, unsupported_metadata_reason, PlanStep,
};

struct Source {
    pix_fmt: Option<&'static str>,
    bits_per_raw_sample: Option<u8>,
    color_transfer: Option<&'static str>,
}

fn plans_for(
    selection: &EncoderSelection,
    preference: EncoderPreference,
    preservation: Preservation,
    codec: TargetCodec,
    source: &Source,
) -> Vec<PlanStep> {
    let adaptation =
        closest_hardware_pixel_format(source.pix_fmt, source.bits_per_raw_sample, source.color_transfer)
            .map(|(output_pix_fmt, description)| TranscodePlanKind::Adapted {
                output_pix_fmt,
                description,
            });
    let forced = codec_forced_pixel_format(codec, source.pix_fmt);
    transcode_plan_steps(selection, preference, preservation, adaptation, forced)
}

fn plain_source() -> Source {
    Source { pix_fmt: Some("yuv420p"), bits_per_raw_sample: Some(8), color_transfer: None }
}

fn two_encoders() -> EncoderSelection {
    EncoderSelection {
        candidates: vec![
            Encoder { name: "av1_nvenc".to_string(), kind: EncoderKind::Hardware },
            Encoder { name: "libaom-av1".to_string(), kind: EncoderKind::LibAom },
        ],
        explicit: false,
    }
}

fn no_colours() -> ColorFields {
    ColorFields {
        chroma_location: None,
        color_range: None,
        color_primaries: None,
        color_transfer: None,
        color_space: None,
    }
}

#[test]
fn exact_transcode_plans_order_gpu_before_cpu() {
    let encoders = r#"
 V..... libsvtav1
 V..... av1_qsv
 V..... av1_mf
 V..... av1_nvenc
 V..... librav1e
"#;

    let selection = EncoderSelection {
        candidates: detect_encoder_candidates_from_listing(encoders, TargetCodec::Av1),
        explicit: false,
    };
    let names: Vec<String> = plans_for(
        &selection,
        EncoderPreference::Auto,
        Preservation::Strict,
        TargetCodec::Av1,
        &plain_source(),
    )
    .into_iter()
    .map(|plan| selection.candidates[plan.encoder].name.clone())
    .collect();

    assert_eq!(
        names,
        ["av1_nvenc", "av1_qsv", "av1_mf", "libsvtav1", "librav1e"]
    );
}

#[test]
fn consistency_plans_do_not_adapt_source_pixel_format() {
    let selection = two_encoders();
    let source = Source {
        pix_fmt: Some("yuv422p10le"),
        bits_per_raw_sample: Some(10),
        color_transfer: None,
    };

    let plans = plans_for(
        &selection,
        EncoderPreference::Auto,
        Preservation::Strict,
        TargetCodec::Av1,
        &source,
    );

    assert_eq!(plans.len(), 2);
    assert_eq!(selection.candidates[plans[0].encoder].name, "av1_nvenc");
    assert_eq!(plans[0].kind, TranscodePlanKind::Exact);
    assert_eq!(selection.candidates[plans[1].encoder].name, "libaom-av1");
    assert_eq!(plans[1].kind, TranscodePlanKind::Exact);
}

#[test]
fn hardware_plans_adapt_gpu_before_cpu_fallback() {
    let selection = two_encoders();
    let source = Source {
        pix_fmt: Some("yuv422p10le"),
        bits_per_raw_sample: Some(10),
        color_transfer: None,
    };

    let plans = plans_for(
        &selection,
        EncoderPreference::Gpu,
        Preservation::Strict,
        TargetCodec::Av1,
        &source,
    );

    assert_eq!(plans.len(), 3);
    assert_eq!(plans[0].kind, TranscodePlanKind::Exact);
    assert_eq!(selection.candidates[plans[1].encoder].name, "av1_nvenc");
    assert_eq!(plans[1].kind.output_pix_fmt(), Some("yuv420p10le"));
    assert_eq!(selection.candidates[plans[2].encoder].name, "libaom-av1");
    assert_eq!(plans[2].kind, TranscodePlanKind::Exact);
}

#[test]
fn hardware_pixel_format_adaptation_respects_safety_boundaries() {
    assert_eq!(closest_hardware_pixel_format(Some("yuva444p10le"), Some(10), None), None);
    assert_eq!(closest_hardware_pixel_format(Some("gbrp10le"), Some(10), None), None);
    assert_eq!(
        closest_hardware_pixel_format(Some("yuv422p"), Some(8), Some("smpte2084")).map(|value| value.0),
        Some("yuv420p10le")
    );
    for pix_fmt in ["yuv420p9le", "yuv422p14le", "yuv444p16le"] {
        assert_eq!(
            closest_hardware_pixel_format(Some(pix_fmt), None, None).map(|value| value.0),
            Some("yuv420p10le"),
            "{pix_fmt} must not be reduced to 8-bit"
        );
    }
    assert_eq!(
        closest_hardware_pixel_format(Some("yuv422p10le"), Some(8), None).map(|value| value.0),
        Some("yuv420p10le")
    );
}

#[test]
fn rejects_unmappable_av1_metadata_before_transcoding() {
    let mut colors = no_colours();
    colors.chroma_location = Some("center".to_string());

    let reason = unsupported_metadata_reason(TargetCodec::Av1, &colors).unwrap();

    assert!(reason.contains("chroma position center"));
}

#[test]
fn accepts_mappable_av1_metadata_before_transcoding() {
    let colors = ColorFields {
        chroma_location: Some("left".to_string()),
        color_range: Some("tv".to_string()),
        color_primaries: Some("bt709".to_string()),
        color_transfer: Some("bt709".to_string()),
        color_space: Some("bt709".to_string()),
    };

    assert!(unsupported_metadata_reason(TargetCodec::Av1, &colors).is_none());
}

#[test]
fn a_processor_only_run_never_plans_a_card() {
    let plans = plans_for(
        &two_encoders(),
        EncoderPreference::Cpu,
        Preservation::Flexible,
        TargetCodec::Av1,
        &Source { pix_fmt: Some("yuv422p10le"), bits_per_raw_sample: Some(10), color_transfer: None },
    );
    assert_eq!(plans, vec![PlanStep { encoder: 1, kind: TranscodePlanKind::Exact }]);
}

#[test]
fn a_flexible_run_adapts_on_the_card_after_the_processor() {
    let plans = plans_for(
        &two_encoders(),
        EncoderPreference::Auto,
        Preservation::Flexible,
        TargetCodec::Av1,
        &Source { pix_fmt: Some("yuv422p10le"), bits_per_raw_sample: Some(10), color_transfer: None },
    );
    assert_eq!(plans.len(), 3);
    assert_eq!(plans[1], PlanStep { encoder: 1, kind: TranscodePlanKind::Exact });
    assert_eq!(plans[2].encoder, 0);
    assert_eq!(plans[2].kind.output_pix_fmt(), Some("yuv420p10le"));
}

#[test]
fn h266_forces_its_format_on_every_attempt() {
    let selection = EncoderSelection {
        candidates: vec![Encoder { name: "libvvenc".to_string(), kind: EncoderKind::Vvenc }],
        explicit: false,
    };
    let plans = plans_for(
        &selection,
        EncoderPreference::Auto,
        Preservation::Strict,
        TargetCodec::Vvc,
        &plain_source(),
    );
    assert_eq!(plans.len(), 1);
    assert_eq!(plans[0].kind.output_pix_fmt(), Some("yuv420p10le"));
    assert_eq!(codec_forced_pixel_format(TargetCodec::Vvc, Some("yuv420p10le")), None);
}

#[test]
fn a_named_encoder_is_tried_alone() {
    let mut selection = two_encoders();
    selection.explicit = true;
    let plans = plans_for(
        &selection,
        EncoderPreference::Gpu,
        Preservation::Strict,
        TargetCodec::Av1,
        &Source { pix_fmt: Some("yuv444p"), bits_per_raw_sample: Some(8), color_transfer: None },
    );
    assert_eq!(plans.len(), 2);
    assert!(plans.iter().all(|plan| plan.encoder == 0));
    assert_eq!(plans[1].kind.output_pix_fmt(), Some("yuv420p"));
}

#[test]
fn strict_runs_leave_unrecordable_colour_alone() {
    let mut colors = no_colours();
    colors.color_primaries = Some("xyz".to_string());
    assert_eq!(
        preservation_skip_reason(Preservation::Strict, TargetCodec::Hevc, &colors),
        Some("H.265 / HEVC cannot record the colour space xyz".to_string())
    );
    assert_eq!(preservation_skip_reason(Preservation::Flexible, TargetCodec::Hevc, &colors), None);
    let exempt = metadata_exemptions_for(TargetCodec::Hevc, &colors);
    assert!(exempt.color_primaries);
    assert_eq!(
        unsupported_metadata_reason(TargetCodec::Vvc, &no_colours()),
        None
    );
}

#[test]
fn lists_what_an_attempt_changes() {
    let adapted = TranscodePlanKind::Adapted {
        output_pix_fmt: "yuv420p",
        description: "adapt chroma to 4:2:0 8-bit for GPU encoding",
    };
    let changes = plan_deviations(&MetadataExemptions::default(), TargetCodec::Av1, adapted, Some("yuv444p"));
    assert_eq!(
        changes,
        vec![(
            "pixel_format".to_string(),
            "Colour detail was converted from yuv444p to yuv420p. Most viewers will not see a difference."
                .to_string()
        )]
    );
    assert!(plan_deviations(&MetadataExemptions::default(), TargetCodec::Av1, TranscodePlanKind::Exact, None)
        .is_empty());
}

#[test]
fn changed_or_low_scoring_conversions_wait_for_review() {
    let change = vec![("pixel_format".to_string(), "converted".to_string())];
    let quiet = conversion_outcome(Vec::new(), QualityCheck::Off, None, 9300, "short".to_string());
    assert!(!quiet.needs_review);
    assert_eq!(quiet.score, None);

    let changed = conversion_outcome(change.clone(), QualityCheck::Off, Some(9900), 9300, "short".to_string());
    assert!(changed.needs_review);
    assert_eq!(changed.score, Some(9900));
    assert_eq!(changed.deviations, change);

    let low = conversion_outcome(Vec::new(), QualityCheck::Sampled, Some(9000), 9300, "short".to_string());
    assert!(low.needs_review);
    assert_eq!(low.deviations, vec![("quality".to_string(), "short".to_string())]);

    let good = conversion_outcome(Vec::new(), QualityCheck::Full, Some(9400), 9300, "short".to_string());
    assert!(!good.needs_review);

    let unmeasured = conversion_outcome(change, QualityCheck::Sampled, None, 9300, "short".to_string());
    assert!(unmeasured.needs_review);
    assert!(measurement_needed(1, QualityCheck::Off));
    assert!(!measurement_needed(0, QualityCheck::Off));
}

#[test]
fn strict_runs_exempt_nothing() {
    let colors = ColorFields {
        chroma_location: Some("topleft".to_string()),
        color_range: Some("tv".to_string()),
        color_primaries: Some("bt709".to_string()),
        color_transfer: Some("bt709".to_string()),
        color_space: Some("bt709".to_string()),
    };
    assert_eq!(
        run_exemptions(Preservation::Strict, TargetCodec::Vvc, &colors),
        MetadataExemptions::default()
    );
    assert_eq!(
        run_exemptions(Preservation::Flexible, TargetCodec::Vvc, &colors),
        metadata_exemptions_for(TargetCodec::Vvc, &colors)
    );
    assert!(run_exemptions(Preservation::Flexible, TargetCodec::Vvc, &colors).color_range);
}

#[test]
fn files_are_skipped_for_taken_paths_first() {
    let reason = item_skip_reason(true, Some("tt"), Preservation::Strict, TargetCodec::Vvc, &no_colours());
    assert!(matches!(reason, Some(SkipReason::Conflict)));
    assert_eq!(skip_reason_label(&reason.unwrap()), "output or backup path already exists");
}

#[test]
fn interlaced_sources_are_skipped() {
    let reason = item_skip_reason(false, Some("tt"), Preservation::Flexible, TargetCodec::Av1, &no_colours());
    assert_eq!(
        skip_reason_label(&reason.unwrap()),
        "interlaced source (field_order=tt); MyVidComp does not deinterlace"
    );
    assert!(item_skip_reason(false, Some("progressive"), Preservation::Flexible, TargetCodec::Av1, &no_colours()).is_none());
    assert!(item_skip_reason(false, None, Preservation::Strict, TargetCodec::Av1, &no_colours()).is_none());
}
