//! Which encode attempts to make for one file, in which order, and what a
//! finished conversion needs before it may replace its original.
//!
//! An attempt pairs an encoder with a treatment of the source's pixels:
//! kept exactly, or adapted to a format a graphics card can encode. Graphics
//! cards come first because they are fast; the processor follows because it
//! can encode anything; adapted attempts come where the run's preferences
//! allow them.
use vstd::prelude::*;
use crate::cli::or_value;
use crate::codec::EncoderKind;
use crate::encoders::{Encoder, EncoderSelection};
use crate::codec::{chroma_location_spec, chroma_location_value, color_range_value, metadata_filter, range_is_full};
use crate::metadata::{
    av1_color_primaries_value, av1_matrix, av1_matrix_coefficients_value, av1_primaries,
    av1_transfer, av1_transfer_characteristics_value, bit_depth, exemption_descriptions,
    exemption_lines, exemptions_spec, metadata_exemptions_for, has_alpha, normalized_pix_fmt, normalized_pix_fmt_spec,
    pixel_format_bit_depth, pixel_format_has_alpha, ColorFields, MetadataExemptions,
    TranscodePlanKind, SkipReason, interlaced_source_reason,
};
use crate::options::{EncoderPreference, Preservation, QualityCheck, TargetCodec};
use crate::probe::{opt_chars, pair_views};
use crate::text::{copy_str, join2, join3, starts_with, starts_with_str, str_eq};

verus! {

/// Whether an encoder runs on a graphics card.
pub open spec fn encoder_is_gpu(e: Encoder) -> bool {
    e.kind == EncoderKind::Hardware || e.kind == EncoderKind::Vulkan
}

/// The conversion a codec forces on every source it cannot take directly:
/// H.266 encoding takes 10-bit 4:2:0 and nothing else.
pub open spec fn forced_kind(codec: TargetCodec, pix_fmt: Option<Seq<char>>) -> Option<TranscodePlanKind> {
    let accepted = match pix_fmt {
        None => true,
        Some(f) => codec != TargetCodec::Vvc || f == "yuv420p10le"@,
    };
    if accepted || codec != TargetCodec::Vvc {
        None
    } else {
        Some(
            TranscodePlanKind::Adapted {
                output_pix_fmt: "yuv420p10le",
                description: "convert to 10-bit 4:2:0, the only format H.266 encoding accepts",
            },
        )
    }
}

pub open spec fn opt_view(o: Option<&str>) -> Option<Seq<char>> {
    match o {
        Some(s) => Some(s@),
        None => None,
    }
}

/// Reports the conversion a codec forces on every source it cannot take
/// directly.
pub fn codec_forced_pixel_format(codec: TargetCodec, pix_fmt: Option<&str>) -> (r: Option<TranscodePlanKind>)
    ensures
        r == forced_kind(codec, opt_view(pix_fmt)),
{
    if crate::codec::codec_accepts_source(codec, pix_fmt) {
        return None;
    }
    match codec {
        TargetCodec::Vvc => Some(
            TranscodePlanKind::Adapted {
                output_pix_fmt: "yuv420p10le",
                description: "convert to 10-bit 4:2:0, the only format H.266 encoding accepts",
            },
        ),
        TargetCodec::Av1 | TargetCodec::Hevc => None,
    }
}

/// Whether a transfer curve is one of the two HDR curves.
pub open spec fn hdr_transfer(transfer: Option<Seq<char>>) -> bool {
    transfer == Some("smpte2084"@) || transfer == Some("arib-std-b67"@)
}

/// The 4:2:0 format a graphics card can encode that is closest to the
/// source, with a description for the user: 10-bit when the source has more
/// than 8 bits or is HDR, 8-bit otherwise. None when the source is not YUV,
/// carries alpha, has no known format, or already is that format.
pub open spec fn hardware_format(
    pix_fmt: Option<Seq<char>>,
    bits_per_raw_sample: Option<u8>,
    color_transfer: Option<Seq<char>>,
) -> Option<(Seq<char>, Seq<char>)> {
    match pix_fmt {
        None => None,
        Some(f) => {
            let source = normalized_pix_fmt_spec(f);
            if !starts_with(source, "yuv"@) || has_alpha(source) {
                None
            } else {
                let ten = or_value(bits_per_raw_sample, 8u8) > 8 || or_value(bit_depth(source), 8u8)
                    > 8 || hdr_transfer(color_transfer);
                let target = if ten {
                    "yuv420p10le"@
                } else {
                    "yuv420p"@
                };
                if source == target {
                    None
                } else {
                    Some(
                        (
                            target,
                            if ten {
                                "adapt chroma/bit depth to 4:2:0 10-bit for GPU encoding"@
                            } else {
                                "adapt chroma to 4:2:0 8-bit for GPU encoding"@
                            },
                        ),
                    )
                }
            }
        },
    }
}

/// Finds the closest pixel format a graphics card can encode for a source.
pub fn closest_hardware_pixel_format(
    pix_fmt: Option<&str>,
    bits_per_raw_sample: Option<u8>,
    color_transfer: Option<&str>,
) -> (r: Option<(&'static str, &'static str)>)
    ensures
        match r {
            Some((t, d)) => hardware_format(opt_view(pix_fmt), bits_per_raw_sample, opt_view(color_transfer))
                == Some((t@, d@)),
            None => hardware_format(opt_view(pix_fmt), bits_per_raw_sample, opt_view(color_transfer)) is None,
        },
{
    let f = match pix_fmt {
        Some(f) => f,
        None => {
            return None;
        },
    };
    let source = normalized_pix_fmt(f);
    let s = source.as_str();
    if !starts_with_str(s, "yuv") || pixel_format_has_alpha(s) {
        return None;
    }
    let raw_bits: u8 = match bits_per_raw_sample {
        Some(b) => b,
        None => 8,
    };
    let depth: u8 = match pixel_format_bit_depth(s) {
        Some(d) => d,
        None => 8,
    };
    let hdr = match color_transfer {
        Some(t) => str_eq(t, "smpte2084") || str_eq(t, "arib-std-b67"),
        None => false,
    };
    let ten = raw_bits > 8 || depth > 8 || hdr;
    let target = if ten {
        "yuv420p10le"
    } else {
        "yuv420p"
    };
    if str_eq(s, target) {
        return None;
    }
    let description = if ten {
        "adapt chroma/bit depth to 4:2:0 10-bit for GPU encoding"
    } else {
        "adapt chroma to 4:2:0 8-bit for GPU encoding"
    };
    Some((target, description))
}

/// One encode attempt: the candidate at `encoder` in the selection, and how
/// it treats the source's pixels.
#[derive(Debug, Clone, Copy, PartialEq, Eq)]
pub struct PlanStep {
    pub encoder: usize,
    pub kind: TranscodePlanKind,
}

/// The positions in `cands[..n]` of the graphics-card encoders (`gpu`) or of
/// the processor encoders (`!gpu`), in order.
pub open spec fn kind_indices(cands: Seq<Encoder>, gpu: bool, n: int) -> Seq<usize>
    decreases n,
{
    if n <= 0 {
        Seq::empty()
    } else {
        let rest = kind_indices(cands, gpu, n - 1);
        if encoder_is_gpu(cands[n - 1]) == gpu {
            rest.push((n - 1) as usize)
        } else {
            rest
        }
    }
}

/// One attempt per encoder position, all treating pixels the same way.
pub open spec fn steps_for(idx: Seq<usize>, kind: TranscodePlanKind) -> Seq<PlanStep> {
    idx.map_values(|i: usize| PlanStep { encoder: i, kind })
}

/// The attempts for one file, in order. A named encoder is the only one
/// tried: exactly first (or in the format its codec forces), then adapted
/// when the user asked for speed. Otherwise graphics cards come before the
/// processor, a processor-only run never touches a card, a forced format
/// applies to every attempt, and an adapted card attempt comes before the
/// processor when the user asked for speed, or after it only when the run
/// may change details.
pub open spec fn plan_order(
    cands: Seq<Encoder>,
    explicit: bool,
    preference: EncoderPreference,
    preservation: Preservation,
    adaptation: Option<TranscodePlanKind>,
    forced: Option<TranscodePlanKind>,
) -> Seq<PlanStep> {
    if explicit {
        seq![PlanStep { encoder: 0, kind: or_value(forced, TranscodePlanKind::Exact) }] + if forced
            is None && encoder_is_gpu(cands[0]) && preference == EncoderPreference::Gpu
            && adaptation is Some {
            seq![PlanStep { encoder: 0, kind: adaptation.unwrap() }]
        } else {
            Seq::empty()
        }
    } else {
        let gpu = if preference == EncoderPreference::Cpu {
            Seq::<usize>::empty()
        } else {
            kind_indices(cands, true, cands.len() as int)
        };
        let cpu = kind_indices(cands, false, cands.len() as int);
        match forced {
            Some(f) => steps_for(gpu, f) + steps_for(cpu, f),
            None => {
                let adapted_gpu = match adaptation {
                    Some(k) => steps_for(gpu, k),
                    None => Seq::empty(),
                };
                if preference == EncoderPreference::Gpu {
                    steps_for(gpu, TranscodePlanKind::Exact) + adapted_gpu + steps_for(
                        cpu,
                        TranscodePlanKind::Exact,
                    )
                } else {
                    steps_for(gpu, TranscodePlanKind::Exact) + steps_for(cpu, TranscodePlanKind::Exact)
                        + if preservation == Preservation::Flexible {
                        adapted_gpu
                    } else {
                        Seq::empty()
                    }
                }
            },
        }
    }
}

proof fn lemma_kind_indices(cands: Seq<Encoder>, gpu: bool, n: int)
    requires
        0 <= n <= cands.len(),
        cands.len() <= usize::MAX,
    ensures
        forall|j: int|
            0 <= j < kind_indices(cands, gpu, n).len() ==> {
                let k = #[trigger] kind_indices(cands, gpu, n)[j];
                &&& k < n
                &&& encoder_is_gpu(cands[k as int]) == gpu
            },
    decreases n,
{
    if n > 0 {
        lemma_kind_indices(cands, gpu, n - 1);
        let rest = kind_indices(cands, gpu, n - 1);
        let all = kind_indices(cands, gpu, n);
        assert forall|j: int| 0 <= j < all.len() implies ({
            let k = #[trigger] all[j];
            &&& k < n
            &&& encoder_is_gpu(cands[k as int]) == gpu
        }) by {
            if j < rest.len() {
                assert(all[j] == rest[j]);
            } else {
                assert(all[j] == (n - 1) as usize);
            }
        }
    }
}

fn encoder_indices(cands: &Vec<Encoder>, gpu: bool) -> (r: Vec<usize>)
    ensures
        r@ == kind_indices(cands@, gpu, cands@.len() as int),
{
    let mut r: Vec<usize> = Vec::new();
    let mut i: usize = 0;
    while i < cands.len()
        invariant
            i <= cands.len(),
            r@ == kind_indices(cands@, gpu, i as int),
        decreases cands.len() - i,
    {
        if cands[i].is_gpu() == gpu {
            r.push(i);
        }
        i = i + 1;
    }
    r
}

fn push_steps(out: &mut Vec<PlanStep>, idx: &Vec<usize>, kind: TranscodePlanKind)
    ensures
        final(out)@ == old(out)@ + steps_for(idx@, kind),
{
    let ghost start = out@;
    let mut i: usize = 0;
    while i < idx.len()
        invariant
            i <= idx.len(),
            out@ == start + steps_for(idx@.subrange(0, i as int), kind),
        decreases idx.len() - i,
    {
        let ghost before = out@;
        out.push(PlanStep { encoder: idx[i], kind });
        assert(steps_for(idx@.subrange(0, i + 1), kind) =~= steps_for(idx@.subrange(0, i as int), kind).push(
            PlanStep { encoder: idx@[i as int], kind },
        ));
        i = i + 1;
    }
    assert(idx@.subrange(0, idx@.len() as int) =~= idx@);
}

/// Orders the encode attempts for one file. `adaptation` is the closest
/// format a graphics card can encode, if the source needs one, and `forced`
/// the conversion the codec demands of every attempt, if any.
pub fn transcode_plan_steps(
    selection: &EncoderSelection,
    preference: EncoderPreference,
    preservation: Preservation,
    adaptation: Option<TranscodePlanKind>,
    forced: Option<TranscodePlanKind>,
) -> (r: Vec<PlanStep>)
    requires
        selection.explicit ==> selection.candidates.len() > 0,
    ensures
        r@ == plan_order(
            selection.candidates@,
            selection.explicit,
            preference,
            preservation,
            adaptation,
            forced,
        ),
{
    let cands = &selection.candidates;
    if selection.explicit {
        let first_kind = match forced {
            Some(k) => k,
            None => TranscodePlanKind::Exact,
        };
        let mut plans = vec![PlanStep { encoder: 0, kind: first_kind }];
        if forced.is_none() && cands[0].is_gpu() && preference == EncoderPreference::Gpu {
            match adaptation {
                Some(k) => {
                    plans.push(PlanStep { encoder: 0, kind: k });
                },
                None => {},
            }
        }
        return plans;
    }
    let gpu = if preference == EncoderPreference::Cpu {
        Vec::new()
    } else {
        encoder_indices(cands, true)
    };
    let cpu = encoder_indices(cands, false);
    let mut plans: Vec<PlanStep> = Vec::new();
    match forced {
        Some(f) => {
            push_steps(&mut plans, &gpu, f);
            push_steps(&mut plans, &cpu, f);
            assert(plans@ =~= Seq::<PlanStep>::empty() + steps_for(gpu@, f) + steps_for(cpu@, f));
            return plans;
        },
        None => {},
    }
    push_steps(&mut plans, &gpu, TranscodePlanKind::Exact);
    if preference == EncoderPreference::Gpu {
        match adaptation {
            Some(k) => push_steps(&mut plans, &gpu, k),
            None => {},
        }
        push_steps(&mut plans, &cpu, TranscodePlanKind::Exact);
    } else {
        push_steps(&mut plans, &cpu, TranscodePlanKind::Exact);
        if preservation.allows_deviations() {
            match adaptation {
                Some(k) => push_steps(&mut plans, &gpu, k),
                None => {},
            }
        }
    }
    plans
}

proof fn lemma_steps_for(idx: Seq<usize>, kind: TranscodePlanKind)
    ensures
        steps_for(idx, kind).len() == idx.len(),
        forall|j: int|
            0 <= j < idx.len() ==> #[trigger] steps_for(idx, kind)[j] == (PlanStep { encoder: idx[j], kind }),
{
}

/// A processor-only run never touches a graphics card: unless the user
/// named an encoder, every attempt it makes is on a processor encoder of the
/// selection.
pub proof fn processor_runs_stay_off_the_card(
    cands: Seq<Encoder>,
    preservation: Preservation,
    adaptation: Option<TranscodePlanKind>,
    forced: Option<TranscodePlanKind>,
)
    requires
        cands.len() <= usize::MAX,
    ensures
        forall|k: int|
            0 <= k < plan_order(cands, false, EncoderPreference::Cpu, preservation, adaptation, forced).len()
                ==> {
                let s = #[trigger] plan_order(
                    cands,
                    false,
                    EncoderPreference::Cpu,
                    preservation,
                    adaptation,
                    forced,
                )[k];
                &&& s.encoder < cands.len()
                &&& !encoder_is_gpu(cands[s.encoder as int])
            },
{
    let n = cands.len() as int;
    let cpu = kind_indices(cands, false, n);
    let none = Seq::<usize>::empty();
    lemma_kind_indices(cands, false, n);
    let p = plan_order(cands, false, EncoderPreference::Cpu, preservation, adaptation, forced);
    let any_kind = match forced {
        Some(f) => f,
        None => TranscodePlanKind::Exact,
    };
    lemma_steps_for(cpu, any_kind);
    assert(steps_for(none, any_kind) =~= Seq::<PlanStep>::empty());
    match adaptation {
        Some(k) => {
            assert(steps_for(none, k) =~= Seq::<PlanStep>::empty());
        },
        None => {},
    }
    assert(p =~= steps_for(cpu, any_kind));
}

/// Under strict preservation the pixel format is kept: unless the codec
/// forces a conversion or the user asked for speed over an exact format,
/// every attempt encodes the source's pixels as they are.
pub proof fn strict_runs_keep_the_pixel_format(
    cands: Seq<Encoder>,
    explicit: bool,
    preference: EncoderPreference,
    adaptation: Option<TranscodePlanKind>,
)
    requires
        preference != EncoderPreference::Gpu,
    ensures
        forall|k: int|
            0 <= k < plan_order(cands, explicit, preference, Preservation::Strict, adaptation, None).len()
                ==> (#[trigger] plan_order(
                cands,
                explicit,
                preference,
                Preservation::Strict,
                adaptation,
                None,
            )[k]).kind == TranscodePlanKind::Exact,
{
    let n = cands.len() as int;
    let gpu = if preference == EncoderPreference::Cpu {
        Seq::<usize>::empty()
    } else {
        kind_indices(cands, true, n)
    };
    let cpu = kind_indices(cands, false, n);
    lemma_steps_for(gpu, TranscodePlanKind::Exact);
    lemma_steps_for(cpu, TranscodePlanKind::Exact);
    let p = plan_order(cands, explicit, preference, Preservation::Strict, adaptation, None);
    if explicit {
        assert(p =~= seq![PlanStep { encoder: 0, kind: TranscodePlanKind::Exact }]);
    } else {
        assert(p =~= steps_for(gpu, TranscodePlanKind::Exact) + steps_for(cpu, TranscodePlanKind::Exact));
        assert forall|k: int| 0 <= k < p.len() implies (#[trigger] p[k]).kind == TranscodePlanKind::Exact by {
            if k < gpu.len() {
                assert(p[k] == steps_for(gpu, TranscodePlanKind::Exact)[k]);
            } else {
                assert(p[k] == steps_for(cpu, TranscodePlanKind::Exact)[k - gpu.len()]);
            }
        }
    }
}

/// A named encoder is the only one tried.
pub proof fn a_named_encoder_is_the_only_one(
    cands: Seq<Encoder>,
    preference: EncoderPreference,
    preservation: Preservation,
    adaptation: Option<TranscodePlanKind>,
    forced: Option<TranscodePlanKind>,
)
    ensures
        plan_order(cands, true, preference, preservation, adaptation, forced).len() >= 1,
        forall|k: int|
            0 <= k < plan_order(cands, true, preference, preservation, adaptation, forced).len()
                ==> (#[trigger] plan_order(cands, true, preference, preservation, adaptation, forced)[k]).encoder
                == 0,
{
}

/// Why a codec cannot carry a source's colour details, naming the first
/// detail it would lose; none when it can carry them all. A codec with no
/// metadata filter loses any colour detail at all.
pub open spec fn unsupported_reason(codec: TargetCodec, c: ColorFields) -> Option<Seq<char>> {
    let name = codec.label_text();
    if codec == TargetCodec::Vvc {
        if c.color_primaries is Some || c.color_transfer is Some || c.color_space is Some
            || c.color_range is Some || c.chroma_location is Some {
            Some(name + " cannot record this video's colour metadata"@)
        } else {
            None
        }
    } else if opt_chars(c.color_primaries) is Some && av1_primaries(
        opt_chars(c.color_primaries).unwrap(),
    ) is None {
        Some(name + " cannot record the colour space "@ + opt_chars(c.color_primaries).unwrap())
    } else if opt_chars(c.color_transfer) is Some && av1_transfer(
        opt_chars(c.color_transfer).unwrap(),
    ) is None {
        Some(name + " cannot record the brightness curve "@ + opt_chars(c.color_transfer).unwrap())
    } else if opt_chars(c.color_space) is Some && av1_matrix(opt_chars(c.color_space).unwrap()) is None {
        Some(name + " cannot record the colour matrix "@ + opt_chars(c.color_space).unwrap())
    } else if opt_chars(c.color_range) is Some && range_is_full(opt_chars(c.color_range).unwrap()) is None {
        Some(name + " cannot record the colour range "@ + opt_chars(c.color_range).unwrap())
    } else if opt_chars(c.chroma_location) is Some && chroma_location_spec(
        codec,
        opt_chars(c.chroma_location).unwrap(),
    ) is None {
        Some(name + " cannot record the chroma position "@ + opt_chars(c.chroma_location).unwrap())
    } else {
        None
    }
}

/// Explains which colour detail a codec cannot record for a source.
pub fn unsupported_metadata_reason(codec: TargetCodec, colors: &ColorFields) -> (r: Option<String>)
    ensures
        opt_chars(r) == unsupported_reason(codec, *colors),
{
    let name = codec.label();
    if metadata_filter(codec).is_none() {
        let has_metadata = colors.color_primaries.is_some() || colors.color_transfer.is_some()
            || colors.color_space.is_some() || colors.color_range.is_some()
            || colors.chroma_location.is_some();
        return if has_metadata {
            Some(join2(name, " cannot record this video's colour metadata"))
        } else {
            None
        };
    }
    match &colors.color_primaries {
        Some(v) => {
            if av1_color_primaries_value(v.as_str()).is_none() {
                return Some(join3(name, " cannot record the colour space ", v.as_str()));
            }
        },
        None => {},
    }
    match &colors.color_transfer {
        Some(v) => {
            if av1_transfer_characteristics_value(v.as_str()).is_none() {
                return Some(join3(name, " cannot record the brightness curve ", v.as_str()));
            }
        },
        None => {},
    }
    match &colors.color_space {
        Some(v) => {
            if av1_matrix_coefficients_value(v.as_str()).is_none() {
                return Some(join3(name, " cannot record the colour matrix ", v.as_str()));
            }
        },
        None => {},
    }
    match &colors.color_range {
        Some(v) => {
            if color_range_value(codec, v.as_str()).is_none() {
                return Some(join3(name, " cannot record the colour range ", v.as_str()));
            }
        },
        None => {},
    }
    match &colors.chroma_location {
        Some(v) => {
            if chroma_location_value(codec, v.as_str()).is_none() {
                return Some(join3(name, " cannot record the chroma position ", v.as_str()));
            }
        },
        None => {},
    }
    None
}

/// Why a run leaves a file alone for its colour details: under strict
/// preservation, a codec that cannot record some detail means the file is
/// not converted; a flexible run converts it anyway and reports the loss.
pub fn preservation_skip_reason(
    preservation: Preservation,
    codec: TargetCodec,
    colors: &ColorFields,
) -> (r: Option<String>)
    ensures
        preservation == Preservation::Strict ==> opt_chars(r) == unsupported_reason(codec, *colors),
        preservation == Preservation::Flexible ==> r is None,
{
    if !preservation.allows_deviations() {
        unsupported_metadata_reason(codec, colors)
    } else {
        None
    }
}

/// What strict preservation refuses is exactly what a flexible run reports
/// as lost: for AV1 and H.265, a source has a colour detail the codec cannot
/// record if and only if the flexible run lists at least one colour
/// exemption for it.
pub proof fn strict_refuses_what_flexible_reports(codec: TargetCodec, c: ColorFields)
    requires
        codec != TargetCodec::Vvc,
    ensures
        unsupported_reason(codec, c) is Some <==> exemption_lines(exemptions_spec(codec, c), codec).len()
            > 0,
{
}

/// The changes one attempt makes to a file: the colour details its codec
/// cannot record, then any pixel-format conversion.
pub open spec fn plan_change_lines(
    exempt: MetadataExemptions,
    codec: TargetCodec,
    kind: TranscodePlanKind,
    source_pix_fmt: Option<Seq<char>>,
) -> Seq<(Seq<char>, Seq<char>)> {
    exemption_lines(exempt, codec) + match kind {
        TranscodePlanKind::Exact => Seq::empty(),
        TranscodePlanKind::Adapted { output_pix_fmt, .. } => seq![
            (
                "pixel_format"@,
                "Colour detail was converted from "@ + or_value(source_pix_fmt, "the source format"@)
                    + " to "@ + output_pix_fmt@ + ". Most viewers will not see a difference."@,
            ),
        ],
    }
}

/// Lists what one attempt changes, each with a stable kind.
pub fn plan_deviations(
    exempt: &MetadataExemptions,
    codec: TargetCodec,
    kind: TranscodePlanKind,
    source_pix_fmt: Option<&str>,
) -> (r: Vec<(String, String)>)
    ensures
        pair_views(r@) == plan_change_lines(*exempt, codec, kind, opt_view(source_pix_fmt)),
{
    let mut deviations = exemption_descriptions(exempt, codec);
    match kind.output_pix_fmt() {
        Some(target) => {
            let source = match source_pix_fmt {
                Some(f) => f,
                None => "the source format",
            };
            let mut detail = join3("Colour detail was converted from ", source, " to ");
            detail.append(target);
            detail.append(". Most viewers will not see a difference.");
            let ghost before = pair_views(deviations@);
            let k = copy_str("pixel_format");
            let ghost entry = (k@, detail@);
            deviations.push((k, detail));
            assert(pair_views(deviations@) =~= before.push(entry));
        },
        None => {},
    }
    deviations
}

/// What a finished conversion came to: its score when one was measured, the
/// changes the user should know about, and whether it must wait for the
/// user's decision instead of replacing the original.
#[derive(Debug, Clone, PartialEq, Eq)]
pub struct ConversionOutcome {
    pub score: Option<u32>,
    pub deviations: Vec<(String, String)>,
    pub needs_review: bool,
}

/// Whether a conversion is measured: always when it changed something,
/// because the user needs a number to judge it by, and otherwise when the
/// run checks quality at all.
pub open spec fn measures(deviation_count: nat, check: QualityCheck) -> bool {
    deviation_count > 0 || check != QualityCheck::Off
}

/// Whether a conversion must wait for the user: when it changed anything,
/// or when its measured score fell below the threshold.
pub open spec fn needs_review_spec(
    deviation_count: nat,
    check: QualityCheck,
    measured: Option<u32>,
    threshold: u32,
) -> bool {
    if !measures(deviation_count, check) {
        false
    } else {
        match measured {
            Some(s) => s < threshold || deviation_count > 0,
            None => deviation_count > 0,
        }
    }
}

/// Whether a conversion with this many changes is measured.
pub fn measurement_needed(deviation_count: usize, check: QualityCheck) -> (r: bool)
    ensures
        r == measures(deviation_count as nat, check),
{
    deviation_count > 0 || check != QualityCheck::Off
}

/// Decides what a finished conversion comes to. `measured` is the score in
/// hundredths when a measurement was made and succeeded, `threshold` the
/// score below which a result goes to review, and `shortfall` the sentence
/// recorded when the score falls short.
pub fn conversion_outcome(
    deviations: Vec<(String, String)>,
    check: QualityCheck,
    measured: Option<u32>,
    threshold: u32,
    shortfall: String,
) -> (r: ConversionOutcome)
    ensures
        r.needs_review == needs_review_spec(deviations@.len(), check, measured, threshold),
        r.score == (if measures(deviations@.len(), check) {
            measured
        } else {
            None
        }),
        pair_views(r.deviations@) == (if measures(deviations@.len(), check) && measured is Some
            && measured.unwrap() < threshold {
            pair_views(deviations@).push(("quality"@, shortfall@))
        } else {
            pair_views(deviations@)
        }),
{
    let must_measure = deviations.len() > 0;
    if !measurement_needed(deviations.len(), check) {
        return ConversionOutcome { score: None, deviations, needs_review: false };
    }
    match measured {
        None => ConversionOutcome { score: None, deviations, needs_review: must_measure },
        Some(score) => {
            let passed = score >= threshold;
            let mut deviations = deviations;
            if !passed {
                let ghost before = pair_views(deviations@);
                let k = copy_str("quality");
                let ghost entry = (k@, shortfall@);
                deviations.push((k, shortfall));
                assert(pair_views(deviations@) =~= before.push(entry));
            }
            ConversionOutcome { score: Some(score), deviations, needs_review: !passed || must_measure }
        },
    }
}

/// The tool never quietly loses anything: a conversion that changed any
/// detail always waits for the user, and so does one whose measured score
/// fell below the threshold; only an unchanged conversion that was not
/// found wanting replaces its original.
pub proof fn never_quietly_loses_anything(
    deviation_count: nat,
    check: QualityCheck,
    measured: Option<u32>,
    threshold: u32,
)
    ensures
        deviation_count > 0 ==> needs_review_spec(deviation_count, check, measured, threshold),
        check != QualityCheck::Off && measured is Some && measured.unwrap() < threshold ==> needs_review_spec(
            deviation_count,
            check,
            measured,
            threshold,
        ),
        !needs_review_spec(deviation_count, check, measured, threshold) ==> deviation_count == 0 && (
        measured is Some && check != QualityCheck::Off ==> measured.unwrap() >= threshold),
{
}

/// The colour details one run's attempts may lose: none under strict
/// preservation, and under flexible preservation exactly those the codec
/// cannot record for this source.
pub fn run_exemptions(preservation: Preservation, codec: TargetCodec, colors: &ColorFields) -> (r: MetadataExemptions)
    ensures
        preservation == Preservation::Flexible ==> r == exemptions_spec(codec, *colors),
        preservation == Preservation::Strict ==> r == (MetadataExemptions {
            chroma_location: false,
            color_primaries: false,
            color_transfer: false,
            color_space: false,
            color_range: false,
        }),
{
    if preservation.allows_deviations() {
        metadata_exemptions_for(codec, colors)
    } else {
        MetadataExemptions {
            chroma_location: false,
            color_primaries: false,
            color_transfer: false,
            color_space: false,
            color_range: false,
        }
    }
}

/// Why an interlaced source is left alone, as `interlaced_source_reason`
/// words it.
pub open spec fn interlace_text(field_order: Option<Seq<char>>) -> Option<Seq<char>> {
    match field_order {
        None => None,
        Some(f) => if f == "progressive"@ {
            None
        } else {
            Some("interlaced source (field_order="@ + f + "); MyVidComp does not deinterlace"@)
        },
    }
}

/// Why a file is left alone before any encode, checked in order: one of
/// the paths the conversion would create is already taken (`paths_taken`,
/// as the caller found on disk); the source is interlaced; or, under strict
/// preservation, the codec cannot record some colour detail.
pub fn item_skip_reason(
    paths_taken: bool,
    field_order: Option<&str>,
    preservation: Preservation,
    codec: TargetCodec,
    colors: &ColorFields,
) -> (r: Option<SkipReason>)
    ensures
        paths_taken ==> r matches Some(SkipReason::Conflict),
        !paths_taken ==> match interlace_text(opt_view(field_order)) {
            Some(t) => r matches Some(SkipReason::UnsafeReplacement(m)) && m@ == t,
            None => match (if preservation == Preservation::Strict {
                unsupported_reason(codec, *colors)
            } else {
                None
            }) {
                Some(t) => r matches Some(SkipReason::UnsafeReplacement(m)) && m@ == t,
                None => r is None,
            },
        },
{
    if paths_taken {
        return Some(SkipReason::Conflict);
    }
    match interlaced_source_reason(field_order) {
        Some(m) => return Some(SkipReason::UnsafeReplacement(m)),
        None => {},
    }
    match preservation_skip_reason(preservation, codec, colors) {
        Some(m) => Some(SkipReason::UnsafeReplacement(m)),
        None => None,
    }
}

} // verus!
