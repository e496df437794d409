//! Everything that differs between the three output codecs.
//!
//! Each codec brings its own encoders, its own way of expressing a quality
//! setting, and its own bitstream filter for carrying colour metadata through
//! the encode. Keeping that here means the conversion pipeline itself never has
//! to ask which codec it is producing.
use vstd::prelude::*;
use crate::options::{key_of, TargetCodec};
use crate::text::{copy_str, join2, join3, option_key, str_eq};

verus! {

/// The family an encoder belongs to, which decides how it is driven.
#[derive(Debug, Clone, Copy, PartialEq, Eq, Structural)]
pub enum EncoderKind {
    Hardware,
    Vulkan,
    SvtAv1,
    LibAom,
    Rav1e,
    X265,
    Vvenc,
    MediaCodec,
}

/// Which family of quality knobs an encoder exposes.
#[derive(Debug, Clone, Copy, PartialEq, Eq, Structural)]
pub enum QualityStyle {
    /// A target bitrate, because the encoder has no usable constant-quality mode.
    Bitrate,
    /// A CRF value on roughly the x264 scale.
    Crf,
    /// A quantizer on the encoder's own scale.
    Quantizer,
}

/// The encoders that can produce one codec, best first.
pub open spec fn encoder_table(codec: TargetCodec) -> Seq<(Seq<char>, EncoderKind)> {
    match codec {
        TargetCodec::Av1 => seq![
            ("av1_videotoolbox"@, EncoderKind::Hardware),
            ("av1_nvenc"@, EncoderKind::Hardware),
            ("av1_qsv"@, EncoderKind::Hardware),
            ("av1_amf"@, EncoderKind::Hardware),
            ("av1_mf"@, EncoderKind::Hardware),
            ("av1_mediacodec"@, EncoderKind::MediaCodec),
            ("av1_vulkan"@, EncoderKind::Vulkan),
            ("libsvtav1"@, EncoderKind::SvtAv1),
            ("libaom-av1"@, EncoderKind::LibAom),
            ("librav1e"@, EncoderKind::Rav1e),
        ],
        TargetCodec::Hevc => seq![
            ("hevc_videotoolbox"@, EncoderKind::Hardware),
            ("hevc_nvenc"@, EncoderKind::Hardware),
            ("hevc_qsv"@, EncoderKind::Hardware),
            ("hevc_amf"@, EncoderKind::Hardware),
            ("hevc_mf"@, EncoderKind::Hardware),
            ("hevc_mediacodec"@, EncoderKind::MediaCodec),
            ("hevc_vulkan"@, EncoderKind::Vulkan),
            ("libx265"@, EncoderKind::X265),
        ],
        TargetCodec::Vvc => seq![("libvvenc"@, EncoderKind::Vvenc)],
    }
}

/// Whether an encoder kind runs on a device rather than the processor.
pub open spec fn on_device(k: EncoderKind) -> bool {
    k == EncoderKind::Hardware || k == EncoderKind::MediaCodec || k == EncoderKind::Vulkan
}

/// The encoders tried for each codec, in order: every device encoder comes
/// before every software one. AV1 tries VideoToolbox, NVENC, QSV, AMF, Media
/// Foundation, MediaCodec and Vulkan, then SVT-AV1, libaom and rav1e; HEVC
/// the same devices, then x265; VVC only vvenc.
pub proof fn encoders_tried_in_order(codec: TargetCodec)
    ensures
        forall|i: int, j: int|
            0 <= i < j < encoder_table(codec).len() && on_device(#[trigger] encoder_table(codec)[j].1)
                ==> on_device(#[trigger] encoder_table(codec)[i].1),
        encoder_table(TargetCodec::Av1) =~= seq![
            ("av1_videotoolbox"@, EncoderKind::Hardware),
            ("av1_nvenc"@, EncoderKind::Hardware),
            ("av1_qsv"@, EncoderKind::Hardware),
            ("av1_amf"@, EncoderKind::Hardware),
            ("av1_mf"@, EncoderKind::Hardware),
            ("av1_mediacodec"@, EncoderKind::MediaCodec),
            ("av1_vulkan"@, EncoderKind::Vulkan),
            ("libsvtav1"@, EncoderKind::SvtAv1),
            ("libaom-av1"@, EncoderKind::LibAom),
            ("librav1e"@, EncoderKind::Rav1e),
        ],
        encoder_table(TargetCodec::Hevc) =~= seq![
            ("hevc_videotoolbox"@, EncoderKind::Hardware),
            ("hevc_nvenc"@, EncoderKind::Hardware),
            ("hevc_qsv"@, EncoderKind::Hardware),
            ("hevc_amf"@, EncoderKind::Hardware),
            ("hevc_mf"@, EncoderKind::Hardware),
            ("hevc_mediacodec"@, EncoderKind::MediaCodec),
            ("hevc_vulkan"@, EncoderKind::Vulkan),
            ("libx265"@, EncoderKind::X265),
        ],
        encoder_table(TargetCodec::Vvc) =~= seq![("libvvenc"@, EncoderKind::Vvenc)],
{
}

/// A candidate list whose names and kinds are those of `table`, in order.
pub open spec fn matches_table(r: Seq<(&'static str, EncoderKind)>, table: Seq<(Seq<char>, EncoderKind)>) -> bool {
    &&& r.len() == table.len()
    &&& forall|i: int| 0 <= i < r.len() ==> (#[trigger] r[i]).0@ == table[i].0 && r[i].1 == table[i].1
}

/// Lists the encoders that can produce one codec, best first. There is no
/// hardware H.266 encoder in any FFmpeg build today.
pub fn encoder_candidates(codec: TargetCodec) -> (r: Vec<(&'static str, EncoderKind)>)
    ensures
        matches_table(r@, encoder_table(codec)),
{
    match codec {
        TargetCodec::Av1 => {
            let r = vec![
                ("av1_videotoolbox", EncoderKind::Hardware),
                ("av1_nvenc", EncoderKind::Hardware),
                ("av1_qsv", EncoderKind::Hardware),
                ("av1_amf", EncoderKind::Hardware),
                ("av1_mf", EncoderKind::Hardware),
                ("av1_mediacodec", EncoderKind::MediaCodec),
                ("av1_vulkan", EncoderKind::Vulkan),
                ("libsvtav1", EncoderKind::SvtAv1),
                ("libaom-av1", EncoderKind::LibAom),
                ("librav1e", EncoderKind::Rav1e),
            ];
            r
        },
        TargetCodec::Hevc => {
            let r = vec![
                ("hevc_videotoolbox", EncoderKind::Hardware),
                ("hevc_nvenc", EncoderKind::Hardware),
                ("hevc_qsv", EncoderKind::Hardware),
                ("hevc_amf", EncoderKind::Hardware),
                ("hevc_mf", EncoderKind::Hardware),
                ("hevc_mediacodec", EncoderKind::MediaCodec),
                ("hevc_vulkan", EncoderKind::Vulkan),
                ("libx265", EncoderKind::X265),
            ];
            r
        },
        TargetCodec::Vvc => {
            let r = vec![("libvvenc", EncoderKind::Vvenc)];
            r
        },
    }
}

pub open spec fn vvc_alias_spec(k: Seq<char>) -> Seq<char> {
    if k == "vvenc"@ || k == "libvvenc"@ || k == "cpu"@ || k == "x266"@ {
        "libvvenc"@
    } else {
        k
    }
}

/// The encoder a short alias stands for, for one codec.
pub open spec fn canonical_encoder_spec(name: Seq<char>, codec: TargetCodec) -> Seq<char> {
    let k = key_of(name);
    let prefix = if codec == TargetCodec::Av1 { "av1"@ } else { "hevc"@ };
    if codec == TargetCodec::Vvc {
        vvc_alias_spec(k)
    } else if k == "videotoolbox"@ || k == "nvenc"@ || k == "qsv"@ || k == "amf"@ || k
        == "vulkan"@ || k == "mediacodec"@ {
        prefix + "_"@ + k
    } else if k == "mf"@ || k == "mediafoundation"@ || k == "media-foundation"@ {
        prefix + "_mf"@
    } else if k == "svt"@ || k == "svt-av1"@ || k == "libsvt"@ {
        "libsvtav1"@
    } else if k == "aom"@ || k == "libaom"@ {
        "libaom-av1"@
    } else if k == "rav1e"@ {
        "librav1e"@
    } else if (k == "x265"@ || k == "libx265"@ || k == "cpu"@) && codec == TargetCodec::Hevc {
        "libx265"@
    } else {
        k
    }
}

/// A colour range is limited for `tv`, `mpeg` or `limited`, and full for
/// `pc`, `jpeg` or `full`, in any case and with space around it.
pub proof fn range_names(value: Seq<char>)
    ensures
        key_of(value) == "tv"@ ==> range_is_full(value) == Some(false),
        key_of(value) == "mpeg"@ ==> range_is_full(value) == Some(false),
        key_of(value) == "limited"@ ==> range_is_full(value) == Some(false),
        key_of(value) == "pc"@ ==> range_is_full(value) == Some(true),
        key_of(value) == "jpeg"@ ==> range_is_full(value) == Some(true),
        key_of(value) == "full"@ ==> range_is_full(value) == Some(true),
{
    reveal_strlit("full");
    assert("full"@.len() == 4);
    reveal_strlit("jpeg");
    assert("jpeg"@.len() == 4);
    reveal_strlit("limited");
    assert("limited"@.len() == 7);
    reveal_strlit("mpeg");
    assert("mpeg"@.len() == 4);
    reveal_strlit("pc");
    assert("pc"@.len() == 2);
    reveal_strlit("tv");
    assert("tv"@.len() == 2);
    assert("full"@[0] != "jpeg"@[0]);
    assert("full"@[0] != "mpeg"@[0]);
    assert("jpeg"@[0] != "mpeg"@[0]);
    assert("pc"@[0] != "tv"@[0]);
}

/// The chroma sample positions each codec records, by ffprobe's names:
/// AV1 records left (vertical) as 1 and top-left (co-located) as 2; HEVC
/// records left 0, centre 1, top-left 2, top 3, bottom-left 4, bottom 5.
pub proof fn chroma_location_names(value: Seq<char>)
    ensures
        key_of(value) == "left"@ ==> chroma_location_spec(TargetCodec::Av1, value) == Some(1u32),
        key_of(value) == "vertical"@ ==> chroma_location_spec(TargetCodec::Av1, value) == Some(1u32),
        key_of(value) == "topleft"@ ==> chroma_location_spec(TargetCodec::Av1, value) == Some(2u32),
        key_of(value) == "top-left"@ ==> chroma_location_spec(TargetCodec::Av1, value) == Some(2u32),
        key_of(value) == "colocated"@ ==> chroma_location_spec(TargetCodec::Av1, value) == Some(2u32),
        key_of(value) == "left"@ ==> chroma_location_spec(TargetCodec::Hevc, value) == Some(0u32),
        key_of(value) == "vertical"@ ==> chroma_location_spec(TargetCodec::Hevc, value) == Some(0u32),
        key_of(value) == "center"@ ==> chroma_location_spec(TargetCodec::Hevc, value) == Some(1u32),
        key_of(value) == "centre"@ ==> chroma_location_spec(TargetCodec::Hevc, value) == Some(1u32),
        key_of(value) == "topleft"@ ==> chroma_location_spec(TargetCodec::Hevc, value) == Some(2u32),
        key_of(value) == "top-left"@ ==> chroma_location_spec(TargetCodec::Hevc, value) == Some(2u32),
        key_of(value) == "colocated"@ ==> chroma_location_spec(TargetCodec::Hevc, value) == Some(2u32),
        key_of(value) == "top"@ ==> chroma_location_spec(TargetCodec::Hevc, value) == Some(3u32),
        key_of(value) == "bottomleft"@ ==> chroma_location_spec(TargetCodec::Hevc, value) == Some(4u32),
        key_of(value) == "bottom-left"@ ==> chroma_location_spec(TargetCodec::Hevc, value) == Some(4u32),
        key_of(value) == "bottom"@ ==> chroma_location_spec(TargetCodec::Hevc, value) == Some(5u32),
{
    reveal_strlit("bottom");
    assert("bottom"@.len() == 6);
    reveal_strlit("bottom-left");
    assert("bottom-left"@.len() == 11);
    reveal_strlit("bottomleft");
    assert("bottomleft"@.len() == 10);
    reveal_strlit("center");
    assert("center"@.len() == 6);
    reveal_strlit("centre");
    assert("centre"@.len() == 6);
    reveal_strlit("colocated");
    assert("colocated"@.len() == 9);
    reveal_strlit("left");
    assert("left"@.len() == 4);
    reveal_strlit("top");
    assert("top"@.len() == 3);
    reveal_strlit("top-left");
    assert("top-left"@.len() == 8);
    reveal_strlit("topleft");
    assert("topleft"@.len() == 7);
    reveal_strlit("vertical");
    assert("vertical"@.len() == 8);
    assert("bottom"@[0] != "center"@[0]);
    assert("bottom"@[0] != "centre"@[0]);
    assert("center"@[4] != "centre"@[4]);
    assert("top-left"@[0] != "vertical"@[0]);
}

/// Each short encoder name stands for its encoder: a vendor name for that
/// vendor's encoder of the codec, the Media Foundation names for `_mf`,
/// `svt`, `aom` and `rav1e` for the AV1 software encoders, `x265` or `cpu`
/// for libx265 under HEVC, and `vvenc`, `cpu` or `x266` for libvvenc under
/// VVC; in any case and with space around it.
pub proof fn encoder_short_names(name: Seq<char>, codec: TargetCodec)
    ensures
        ({
            let k = key_of(name);
            let prefix = if codec == TargetCodec::Av1 { "av1"@ } else { "hevc"@ };
            &&& codec != TargetCodec::Vvc && k == "videotoolbox"@ ==> canonical_encoder_spec(name, codec) == prefix + "_"@ + "videotoolbox"@
            &&& codec != TargetCodec::Vvc && k == "nvenc"@ ==> canonical_encoder_spec(name, codec) == prefix + "_"@ + "nvenc"@
            &&& codec != TargetCodec::Vvc && k == "qsv"@ ==> canonical_encoder_spec(name, codec) == prefix + "_"@ + "qsv"@
            &&& codec != TargetCodec::Vvc && k == "amf"@ ==> canonical_encoder_spec(name, codec) == prefix + "_"@ + "amf"@
            &&& codec != TargetCodec::Vvc && k == "vulkan"@ ==> canonical_encoder_spec(name, codec) == prefix + "_"@ + "vulkan"@
            &&& codec != TargetCodec::Vvc && k == "mediacodec"@ ==> canonical_encoder_spec(name, codec) == prefix + "_"@ + "mediacodec"@
            &&& codec != TargetCodec::Vvc && k == "mf"@ ==> canonical_encoder_spec(name, codec) == prefix + "_mf"@
            &&& codec != TargetCodec::Vvc && k == "mediafoundation"@ ==> canonical_encoder_spec(name, codec) == prefix + "_mf"@
            &&& codec != TargetCodec::Vvc && k == "media-foundation"@ ==> canonical_encoder_spec(name, codec) == prefix + "_mf"@
            &&& codec != TargetCodec::Vvc && k == "svt"@ ==> canonical_encoder_spec(name, codec) == "libsvtav1"@
            &&& codec != TargetCodec::Vvc && k == "svt-av1"@ ==> canonical_encoder_spec(name, codec) == "libsvtav1"@
            &&& codec != TargetCodec::Vvc && k == "libsvt"@ ==> canonical_encoder_spec(name, codec) == "libsvtav1"@
            &&& codec != TargetCodec::Vvc && k == "aom"@ ==> canonical_encoder_spec(name, codec) == "libaom-av1"@
            &&& codec != TargetCodec::Vvc && k == "libaom"@ ==> canonical_encoder_spec(name, codec) == "libaom-av1"@
            &&& codec != TargetCodec::Vvc && k == "rav1e"@ ==> canonical_encoder_spec(name, codec) == "librav1e"@
            &&& codec == TargetCodec::Hevc && k == "x265"@ ==> canonical_encoder_spec(name, codec) == "libx265"@
            &&& codec == TargetCodec::Hevc && k == "libx265"@ ==> canonical_encoder_spec(name, codec) == "libx265"@
            &&& codec == TargetCodec::Hevc && k == "cpu"@ ==> canonical_encoder_spec(name, codec) == "libx265"@
            &&& codec == TargetCodec::Vvc && k == "vvenc"@ ==> canonical_encoder_spec(name, codec) == "libvvenc"@
            &&& codec == TargetCodec::Vvc && k == "libvvenc"@ ==> canonical_encoder_spec(name, codec) == "libvvenc"@
            &&& codec == TargetCodec::Vvc && k == "cpu"@ ==> canonical_encoder_spec(name, codec) == "libvvenc"@
            &&& codec == TargetCodec::Vvc && k == "x266"@ ==> canonical_encoder_spec(name, codec) == "libvvenc"@
        }),
{
    reveal_strlit("amf");
    assert("amf"@.len() == 3);
    reveal_strlit("aom");
    assert("aom"@.len() == 3);
    reveal_strlit("cpu");
    assert("cpu"@.len() == 3);
    reveal_strlit("libaom");
    assert("libaom"@.len() == 6);
    reveal_strlit("libsvt");
    assert("libsvt"@.len() == 6);
    reveal_strlit("libvvenc");
    assert("libvvenc"@.len() == 8);
    reveal_strlit("libx265");
    assert("libx265"@.len() == 7);
    reveal_strlit("media-foundation");
    assert("media-foundation"@.len() == 16);
    reveal_strlit("mediacodec");
    assert("mediacodec"@.len() == 10);
    reveal_strlit("mediafoundation");
    assert("mediafoundation"@.len() == 15);
    reveal_strlit("mf");
    assert("mf"@.len() == 2);
    reveal_strlit("nvenc");
    assert("nvenc"@.len() == 5);
    reveal_strlit("qsv");
    assert("qsv"@.len() == 3);
    reveal_strlit("rav1e");
    assert("rav1e"@.len() == 5);
    reveal_strlit("svt");
    assert("svt"@.len() == 3);
    reveal_strlit("svt-av1");
    assert("svt-av1"@.len() == 7);
    reveal_strlit("videotoolbox");
    assert("videotoolbox"@.len() == 12);
    reveal_strlit("vulkan");
    assert("vulkan"@.len() == 6);
    reveal_strlit("vvenc");
    assert("vvenc"@.len() == 5);
    reveal_strlit("x265");
    assert("x265"@.len() == 4);
    reveal_strlit("x266");
    assert("x266"@.len() == 4);
    assert("amf"@[1] != "aom"@[1]);
    assert("amf"@[0] != "cpu"@[0]);
    assert("amf"@[0] != "qsv"@[0]);
    assert("amf"@[0] != "svt"@[0]);
    assert("aom"@[0] != "cpu"@[0]);
    assert("aom"@[0] != "qsv"@[0]);
    assert("aom"@[0] != "svt"@[0]);
    assert("cpu"@[0] != "qsv"@[0]);
    assert("cpu"@[0] != "svt"@[0]);
    assert("libaom"@[3] != "libsvt"@[3]);
    assert("libaom"@[0] != "vulkan"@[0]);
    assert("libsvt"@[0] != "vulkan"@[0]);
    assert("libx265"@[0] != "svt-av1"@[0]);
    assert("nvenc"@[0] != "rav1e"@[0]);
    assert("nvenc"@[0] != "vvenc"@[0]);
    assert("qsv"@[0] != "svt"@[0]);
    assert("rav1e"@[0] != "vvenc"@[0]);
    assert("x265"@[3] != "x266"@[3]);
}

/// Expands a short encoder alias for the VVC codec. VVC has only a software
/// encoder, so no vendor alias can resolve.
pub fn vvc_alias(lowered: &str) -> (r: String)
    ensures
        r@ == vvc_alias_spec(lowered@),
{
    if str_eq(lowered, "vvenc") || str_eq(lowered, "libvvenc") || str_eq(lowered, "cpu")
        || str_eq(lowered, "x266") {
        copy_str("libvvenc")
    } else {
        copy_str(lowered)
    }
}

/// Expands a short encoder alias into the full encoder name for one codec.
pub fn canonical_encoder_name(name: &str, codec: TargetCodec) -> (r: String)
    ensures
        r@ == canonical_encoder_spec(name@, codec),
{
    let key = option_key(name);
    let k = key.as_str();
    let prefix = match codec {
        TargetCodec::Av1 => "av1",
        TargetCodec::Hevc => "hevc",
        TargetCodec::Vvc => {
            return vvc_alias(k);
        },
    };
    if str_eq(k, "videotoolbox") || str_eq(k, "nvenc") || str_eq(k, "qsv") || str_eq(k, "amf")
        || str_eq(k, "vulkan") || str_eq(k, "mediacodec") {
        join3(prefix, "_", k)
    } else if str_eq(k, "mf") || str_eq(k, "mediafoundation") || str_eq(k, "media-foundation") {
        join2(prefix, "_mf")
    } else if str_eq(k, "svt") || str_eq(k, "svt-av1") || str_eq(k, "libsvt") {
        copy_str("libsvtav1")
    } else if str_eq(k, "aom") || str_eq(k, "libaom") {
        copy_str("libaom-av1")
    } else if str_eq(k, "rav1e") {
        copy_str("librav1e")
    } else if (str_eq(k, "x265") || str_eq(k, "libx265") || str_eq(k, "cpu")) && codec
        == TargetCodec::Hevc {
        copy_str("libx265")
    } else {
        copy_str(k)
    }
}

/// Which quality knob an encoder family exposes. Hardware encoders across
/// every vendor either lack a constant-quality mode or expose one that behaves
/// differently per driver, so they all get an explicit bitrate.
pub fn quality_style(kind: EncoderKind) -> (r: QualityStyle)
    ensures
        r == (match kind {
            EncoderKind::Hardware | EncoderKind::MediaCodec => QualityStyle::Bitrate,
            EncoderKind::Vulkan | EncoderKind::SvtAv1 | EncoderKind::LibAom
            | EncoderKind::X265 => QualityStyle::Crf,
            EncoderKind::Rav1e | EncoderKind::Vvenc => QualityStyle::Quantizer,
        }),
{
    match kind {
        EncoderKind::Hardware | EncoderKind::MediaCodec => QualityStyle::Bitrate,
        EncoderKind::Vulkan | EncoderKind::SvtAv1 | EncoderKind::LibAom | EncoderKind::X265 => {
            QualityStyle::Crf
        },
        EncoderKind::Rav1e | EncoderKind::Vvenc => QualityStyle::Quantizer,
    }
}

/// The only pixel format an encoder accepts, when it accepts just one. VVenC
/// in FFmpeg is built for 10-bit 4:2:0 and rejects everything else.
pub fn required_pixel_format(encoder: &str) -> (r: Option<&'static str>)
    ensures
        match r {
            Some(f) => encoder@ == "libvvenc"@ && f@ == "yuv420p10le"@,
            None => encoder@ != "libvvenc"@,
        },
{
    if str_eq(encoder, "libvvenc") {
        Some("yuv420p10le")
    } else {
        None
    }
}

/// The bitstream filter that carries colour metadata into the encoded
/// stream, and the option names it uses.
#[derive(Debug, Clone, Copy)]
pub struct MetadataFilter {
    /// Filter name, for example `hevc_metadata`.
    pub name: &'static str,
    pub color_primaries: &'static str,
    pub transfer: &'static str,
    pub matrix: &'static str,
    pub range: &'static str,
    /// Chroma position option, when the filter has one.
    pub chroma: Option<&'static str>,
}

/// The filter names and option names each codec's metadata filter uses.
pub open spec fn filter_describes(f: MetadataFilter, codec: TargetCodec) -> bool {
    let chroma_name = match f.chroma {
        Some(c) => c@,
        None => Seq::empty(),
    };
    if codec == TargetCodec::Av1 {
        &&& f.name@ == "av1_metadata"@
        &&& f.color_primaries@ == "color_primaries"@
        &&& f.transfer@ == "transfer_characteristics"@
        &&& f.matrix@ == "matrix_coefficients"@
        &&& f.range@ == "color_range"@
        &&& f.chroma is Some
        &&& chroma_name == "chroma_sample_position"@
    } else {
        &&& f.name@ == "hevc_metadata"@
        &&& f.color_primaries@ == "colour_primaries"@
        &&& f.transfer@ == "transfer_characteristics"@
        &&& f.matrix@ == "matrix_coefficients"@
        &&& f.range@ == "video_full_range_flag"@
        &&& f.chroma is Some
        &&& chroma_name == "chroma_sample_loc_type"@
    }
}

/// The metadata bitstream filter for one codec. The HEVC filter spells colour
/// the British way and names its range option differently, so it is not a
/// drop-in rename of the AV1 one; `vvc_metadata` only handles access-unit
/// delimiters, so an H.266 stream has no way to state colour metadata.
pub fn metadata_filter(codec: TargetCodec) -> (r: Option<MetadataFilter>)
    ensures
        match r {
            Some(f) => codec != TargetCodec::Vvc && filter_describes(f, codec),
            None => codec == TargetCodec::Vvc,
        },
{
    match codec {
        TargetCodec::Av1 => Some(
            MetadataFilter {
                name: "av1_metadata",
                color_primaries: "color_primaries",
                transfer: "transfer_characteristics",
                matrix: "matrix_coefficients",
                range: "color_range",
                chroma: Some("chroma_sample_position"),
            },
        ),
        TargetCodec::Hevc => Some(
            MetadataFilter {
                name: "hevc_metadata",
                color_primaries: "colour_primaries",
                transfer: "transfer_characteristics",
                matrix: "matrix_coefficients",
                range: "video_full_range_flag",
                chroma: Some("chroma_sample_loc_type"),
            },
        ),
        TargetCodec::Vvc => None,
    }
}

/// The value one codec records for an ffprobe chroma location. AV1 only
/// distinguishes vertical and co-located samples, so the common `center`
/// position cannot be recorded; HEVC records the full set.
pub open spec fn chroma_location_spec(codec: TargetCodec, location: Seq<char>) -> Option<u32> {
    let k = key_of(location);
    match codec {
        TargetCodec::Av1 => if k == "left"@ || k == "vertical"@ {
            Some(1u32)
        } else if k == "topleft"@ || k == "top-left"@ || k == "colocated"@ {
            Some(2u32)
        } else {
            None
        },
        TargetCodec::Hevc => if k == "left"@ || k == "vertical"@ {
            Some(0u32)
        } else if k == "center"@ || k == "centre"@ {
            Some(1u32)
        } else if k == "topleft"@ || k == "top-left"@ || k == "colocated"@ {
            Some(2u32)
        } else if k == "top"@ {
            Some(3u32)
        } else if k == "bottomleft"@ || k == "bottom-left"@ {
            Some(4u32)
        } else if k == "bottom"@ {
            Some(5u32)
        } else {
            None
        },
        TargetCodec::Vvc => None,
    }
}

/// Maps an ffprobe chroma location onto the value one codec can record.
pub fn chroma_location_value(codec: TargetCodec, chroma_location: &str) -> (r: Option<u32>)
    ensures
        r == chroma_location_spec(codec, chroma_location@),
{
    let key = option_key(chroma_location);
    let k = key.as_str();
    match codec {
        TargetCodec::Av1 => {
            if str_eq(k, "left") || str_eq(k, "vertical") {
                Some(1)
            } else if str_eq(k, "topleft") || str_eq(k, "top-left") || str_eq(k, "colocated") {
                Some(2)
            } else {
                None
            }
        },
        TargetCodec::Hevc => {
            if str_eq(k, "left") || str_eq(k, "vertical") {
                Some(0)
            } else if str_eq(k, "center") || str_eq(k, "centre") {
                Some(1)
            } else if str_eq(k, "topleft") || str_eq(k, "top-left") || str_eq(k, "colocated") {
                Some(2)
            } else if str_eq(k, "top") {
                Some(3)
            } else if str_eq(k, "bottomleft") || str_eq(k, "bottom-left") {
                Some(4)
            } else if str_eq(k, "bottom") {
                Some(5)
            } else {
                None
            }
        },
        TargetCodec::Vvc => None,
    }
}

/// Whether a colour range names full range (`Some(true)`), limited range
/// (`Some(false)`), or neither.
pub open spec fn range_is_full(range: Seq<char>) -> Option<bool> {
    let k = key_of(range);
    if k == "tv"@ || k == "mpeg"@ || k == "limited"@ {
        Some(false)
    } else if k == "pc"@ || k == "jpeg"@ || k == "full"@ {
        Some(true)
    } else {
        None
    }
}

/// Maps a colour range onto the zero-or-one flag AV1 and HEVC both record;
/// H.266 records none.
pub fn color_range_value(codec: TargetCodec, color_range: &str) -> (r: Option<u32>)
    ensures
        r == (match range_is_full(color_range@) {
            Some(full) => if codec == TargetCodec::Vvc {
                None
            } else {
                Some(if full { 1u32 } else { 0u32 })
            },
            None => None,
        }),
{
    let key = option_key(color_range);
    let k = key.as_str();
    let full = if str_eq(k, "tv") || str_eq(k, "mpeg") || str_eq(k, "limited") {
        false
    } else if str_eq(k, "pc") || str_eq(k, "jpeg") || str_eq(k, "full") {
        true
    } else {
        return None;
    };
    match codec {
        TargetCodec::Av1 | TargetCodec::Hevc => Some(if full { 1 } else { 0 }),
        TargetCodec::Vvc => None,
    }
}

/// Whether a source in pixel format `pix_fmt` can be encoded to one codec
/// without changing its pixel format. libvvenc takes 10-bit 4:2:0 and nothing
/// else; libx265 and the AV1 encoders cover everything the tool meets. A
/// source whose format is unknown is taken as it is.
pub fn codec_accepts_source(codec: TargetCodec, pix_fmt: Option<&str>) -> (r: bool)
    ensures
        r == (match pix_fmt {
            None => true,
            Some(f) => codec != TargetCodec::Vvc || f@ == "yuv420p10le"@,
        }),
{
    match pix_fmt {
        None => true,
        Some(f) => match codec {
            TargetCodec::Vvc => str_eq(f, "yuv420p10le"),
            TargetCodec::Hevc => true,
            TargetCodec::Av1 => true,
        },
    }
}

} // verus!
