//! Quality settings on each encoder's own scale: how a starting estimate is
//! adjusted for sources worth preserving, and the arguments that hand a
//! setting to an encoder.
use vstd::prelude::*;
use crate::codec::EncoderKind;
use crate::metadata::{contains_any_ic, contains_any_ignore_case};
use crate::text::{contains, copy_str, decimal, decimal_string, join2, lower, str_views, views};

verus! {

/// What a text, if present, says under `contains_any_ic`.
pub open spec fn mentions(text: Option<Seq<char>>, needles: Seq<Seq<char>>) -> bool {
    match text {
        Some(t) => contains_any_ic(t, needles),
        None => false,
    }
}

pub open spec fn opt_view(o: Option<&str>) -> Option<Seq<char>> {
    match o {
        Some(s) => Some(s@),
        None => None,
    }
}

/// How many points the starting estimate is lowered for a source worth
/// preserving: one for a high or 10-bit profile, one for a pixel format with
/// more depth or colour detail, two for HDR transfer, and one when both the
/// colour space and the primaries are tagged.
pub open spec fn preservation_points(
    profile: Option<Seq<char>>,
    pix_fmt: Option<Seq<char>>,
    color_transfer: Option<Seq<char>>,
    space_and_primaries: bool,
) -> int {
    (if mentions(profile, seq!["high"@, "main 10"@, "main10"@]) {
        1int
    } else {
        0int
    }) + (if mentions(pix_fmt, seq!["10"@, "12"@, "422"@, "444"@]) {
        1int
    } else {
        0int
    }) + (if mentions(color_transfer, seq!["smpte2084"@, "arib-std-b67"@, "iec61966"@]) {
        2int
    } else {
        0int
    }) + (if space_and_primaries {
        1int
    } else {
        0int
    })
}

/// Profiles worth preserving: high and 10-bit profiles.
pub open spec fn rich_profiles() -> Seq<Seq<char>> {
    seq!["high"@, "main 10"@, "main10"@]
}

/// Pixel formats with more depth or colour detail than 8-bit 4:2:0.
pub open spec fn rich_formats() -> Seq<Seq<char>> {
    seq!["10"@, "12"@, "422"@, "444"@]
}

/// HDR and wide-gamut transfer curves.
pub open spec fn rich_transfers() -> Seq<Seq<char>> {
    seq!["smpte2084"@, "arib-std-b67"@, "iec61966"@]
}

/// Whether `text` holds one of `words`, ignoring case.
pub open spec fn holds_word(text: Option<Seq<char>>, words: Seq<Seq<char>>) -> bool {
    text is Some && exists|i: int|
        0 <= i < words.len() && contains(lower(text->0), lower(#[trigger] words[i]))
}

/// The points a source earns add up, one term for each reason: one for a
/// high or 10-bit profile, one for a deeper or richer pixel format, two for
/// an HDR transfer curve, and one for tagged colour space and primaries.
pub proof fn preservation_points_add_up(
    profile: Option<Seq<char>>,
    pix_fmt: Option<Seq<char>>,
    color_transfer: Option<Seq<char>>,
    space_and_primaries: bool,
)
    ensures
        preservation_points(profile, pix_fmt, color_transfer, space_and_primaries) == (if holds_word(
            profile,
            rich_profiles(),
        ) {
            1int
        } else {
            0int
        }) + (if holds_word(pix_fmt, rich_formats()) {
            1int
        } else {
            0int
        }) + (if holds_word(color_transfer, rich_transfers()) {
            2int
        } else {
            0int
        }) + (if space_and_primaries {
            1int
        } else {
            0int
        }),
{
    assert(rich_profiles() =~= seq!["high"@, "main 10"@, "main10"@]);
    assert(rich_formats() =~= seq!["10"@, "12"@, "422"@, "444"@]);
    assert(rich_transfers() =~= seq!["smpte2084"@, "arib-std-b67"@, "iec61966"@]);
}

/// `crf` lowered by `points`, never below zero, then held between 12 and 36.
pub open spec fn clamped_crf(crf: int, points: int) -> int {
    let lowered = if crf >= points {
        crf - points
    } else {
        0
    };
    if lowered < 12 {
        12
    } else if lowered > 36 {
        36
    } else {
        lowered
    }
}

fn mentions_any(text: Option<&str>, needles: &Vec<&str>) -> (r: bool)
    ensures
        r == mentions(opt_view(text), str_views(needles@)),
{
    match text {
        Some(t) => contains_any_ignore_case(t, needles),
        None => false,
    }
}

/// Lowers a starting AV1 quality estimate for a source worth preserving;
/// see `preservation_points`. `space_and_primaries` says whether the source
/// tags both its colour space and its primaries.
pub fn adjusted_crf(
    crf: u8,
    profile: Option<&str>,
    pix_fmt: Option<&str>,
    color_transfer: Option<&str>,
    space_and_primaries: bool,
) -> (r: u8)
    ensures
        r == clamped_crf(
            crf as int,
            preservation_points(
                opt_view(profile),
                opt_view(pix_fmt),
                opt_view(color_transfer),
                space_and_primaries,
            ),
        ),
{
    let mut points: u8 = 0;
    let profiles = vec!["high", "main 10", "main10"];
    assert(str_views(profiles@) =~= seq!["high"@, "main 10"@, "main10"@]);
    if mentions_any(profile, &profiles) {
        points += 1;
    }
    let formats = vec!["10", "12", "422", "444"];
    assert(str_views(formats@) =~= seq!["10"@, "12"@, "422"@, "444"@]);
    if mentions_any(pix_fmt, &formats) {
        points += 1;
    }
    let transfers = vec!["smpte2084", "arib-std-b67", "iec61966"];
    assert(str_views(transfers@) =~= seq!["smpte2084"@, "arib-std-b67"@, "iec61966"@]);
    if mentions_any(color_transfer, &transfers) {
        points += 2;
    }
    if space_and_primaries {
        points += 1;
    }
    let lowered = crf.saturating_sub(points);
    if lowered < 12 {
        12
    } else if lowered > 36 {
        36
    } else {
        lowered
    }
}

/// A bitrate as FFmpeg takes it: whole kilobits, rounded up, then `k`.
pub open spec fn bitrate_text(bits: u64) -> Seq<char> {
    decimal(((bits + 999) / 1000) as nat) + "k"@
}

/// Formats a bitrate in bits per second; see `bitrate_text`.
pub fn bitrate_label(bits: u64) -> (r: String)
    ensures
        r@ == bitrate_text(bits),
{
    let kilo: u64 = bits / 1000 + if bits % 1000 != 0 {
        1
    } else {
        0
    };
    assert(kilo == (bits + 999) / 1000);
    let digits = decimal_string(kilo);
    join2(digits.as_str(), "k")
}

/// The arguments that set a constant quality `value` on an encoder: the
/// knob the encoder reads, plus the speed or rate-control setting that goes
/// with it.
pub open spec fn constant_args(kind: EncoderKind, value: Seq<char>) -> Seq<Seq<char>> {
    match kind {
        EncoderKind::Vulkan => seq!["-crf"@, value, "-b:v"@, "0"@],
        EncoderKind::SvtAv1 => seq!["-crf"@, value, "-preset"@, "6"@],
        EncoderKind::LibAom => seq!["-crf"@, value, "-b:v"@, "0"@, "-cpu-used"@, "4"@],
        EncoderKind::Rav1e => seq!["-qp"@, value, "-speed"@, "6"@],
        EncoderKind::X265 => seq!["-crf"@, value, "-preset"@, "medium"@],
        EncoderKind::Vvenc => seq!["-qp"@, value, "-preset"@, "faster"@],
        EncoderKind::Hardware | EncoderKind::MediaCodec => seq!["-cq"@, value],
    }
}

/// The arguments that set a constant quality, given as the text the
/// encoder reads (whole numbers except for x265, which reads one decimal).
pub fn constant_quality_args(kind: EncoderKind, value: &str) -> (r: Vec<String>)
    ensures
        views(r@) == constant_args(kind, value@),
{
    let v = copy_str(value);
    let r = match kind {
        EncoderKind::Vulkan => vec![copy_str("-crf"), v, copy_str("-b:v"), copy_str("0")],
        EncoderKind::SvtAv1 => vec![copy_str("-crf"), v, copy_str("-preset"), copy_str("6")],
        EncoderKind::LibAom => vec![
            copy_str("-crf"),
            v,
            copy_str("-b:v"),
            copy_str("0"),
            copy_str("-cpu-used"),
            copy_str("4"),
        ],
        EncoderKind::Rav1e => vec![copy_str("-qp"), v, copy_str("-speed"), copy_str("6")],
        EncoderKind::X265 => vec![copy_str("-crf"), v, copy_str("-preset"), copy_str("medium")],
        EncoderKind::Vvenc => vec![copy_str("-qp"), v, copy_str("-preset"), copy_str("faster")],
        EncoderKind::Hardware | EncoderKind::MediaCodec => vec![copy_str("-cq"), v],
    };
    assert(views(r@) =~= constant_args(kind, value@));
    r
}

/// The arguments that ask an encoder for a target bitrate. Android encoders
/// also get a constant-bitrate mode, since their default rate control
/// ignores the request on some devices.
pub open spec fn bitrate_args(kind: EncoderKind, bits: u64) -> Seq<Seq<char>> {
    if kind == EncoderKind::MediaCodec {
        seq!["-b:v"@, bitrate_text(bits), "-bitrate_mode"@, "1"@]
    } else {
        seq!["-b:v"@, bitrate_text(bits)]
    }
}

/// The arguments that ask an encoder for a target bitrate in bits per
/// second; see `bitrate_args`.
pub fn bitrate_quality_args(kind: EncoderKind, bits: u64) -> (r: Vec<String>)
    ensures
        views(r@) == bitrate_args(kind, bits),
{
    let mut r = vec![copy_str("-b:v"), bitrate_label(bits)];
    if kind == EncoderKind::MediaCodec {
        r.push(copy_str("-bitrate_mode"));
        r.push(copy_str("1"));
    }
    assert(views(r@) =~= bitrate_args(kind, bits));
    r
}

/// The arguments for a trial encode during a quality search: the same
/// quality value the real encode would use, at the fastest preset each
/// encoder offers, since a preset changes size far more than quality. For
/// hardware encoders `value` is a bitrate in kilobits.
pub open spec fn trial_args(kind: EncoderKind, value: Seq<char>) -> Seq<Seq<char>> {
    match kind {
        EncoderKind::SvtAv1 => seq!["-crf"@, value, "-preset"@, "8"@],
        EncoderKind::LibAom => seq!["-crf"@, value, "-b:v"@, "0"@, "-cpu-used"@, "6"@],
        EncoderKind::Vulkan => seq!["-crf"@, value, "-b:v"@, "0"@],
        EncoderKind::X265 => seq!["-crf"@, value, "-preset"@, "veryfast"@],
        EncoderKind::Rav1e => seq!["-qp"@, value, "-speed"@, "9"@],
        EncoderKind::Vvenc => seq!["-qp"@, value, "-preset"@, "faster"@],
        EncoderKind::Hardware | EncoderKind::MediaCodec => seq!["-b:v"@, value + "k"@],
    }
}

/// Builds a trial encode's quality arguments; see `trial_args`.
pub fn trial_quality_args(kind: EncoderKind, value: &str) -> (r: Vec<String>)
    ensures
        views(r@) == trial_args(kind, value@),
{
    let v = copy_str(value);
    let r = match kind {
        EncoderKind::SvtAv1 => vec![copy_str("-crf"), v, copy_str("-preset"), copy_str("8")],
        EncoderKind::LibAom => vec![
            copy_str("-crf"),
            v,
            copy_str("-b:v"),
            copy_str("0"),
            copy_str("-cpu-used"),
            copy_str("6"),
        ],
        EncoderKind::Vulkan => vec![copy_str("-crf"), v, copy_str("-b:v"), copy_str("0")],
        EncoderKind::X265 => vec![copy_str("-crf"), v, copy_str("-preset"), copy_str("veryfast")],
        EncoderKind::Rav1e => vec![copy_str("-qp"), v, copy_str("-speed"), copy_str("9")],
        EncoderKind::Vvenc => vec![copy_str("-qp"), v, copy_str("-preset"), copy_str("faster")],
        EncoderKind::Hardware | EncoderKind::MediaCodec => vec![copy_str("-b:v"), join2(value, "k")],
    };
    assert(views(r@) =~= trial_args(kind, value@));
    r
}

} // verus!
