//! User-facing conversion options.
//!
//! Every option here follows the same shape: a small enum with a stable wire
//! value used by the CLI, the config file and embedding front ends, a
//! human-readable label used in terminal output, a strict parser, and a
//! normalizer that treats a blank, `auto` or `default` value as "not set".
use vstd::prelude::*;
use crate::text::{copy_str, eq_ignore_case, eq_ignore_case_str, lemma_plain_word, join3, lower, option_key, str_eq, trim, trimmed};

verus! {

/// A `Result` whose error text is read as characters.
pub open spec fn err_view<T>(r: Result<T, String>) -> Result<T, Seq<char>> {
    match r {
        Ok(v) => Ok(v),
        Err(e) => Err(e@),
    }
}

/// A `Result` of strings, both sides read as characters.
pub open spec fn text_result(r: Result<String, String>) -> Result<Seq<char>, Seq<char>> {
    match r {
        Ok(v) => Ok(v@),
        Err(e) => Err(e@),
    }
}

/// The key every option parser matches on: trimmed, then ASCII-lowercased.
pub open spec fn key_of(value: Seq<char>) -> Seq<char> {
    lower(trim(value))
}

/// Whether an option string means "not set": blank, `auto` or `default`.
pub open spec fn is_unset(value: Seq<char>) -> bool {
    let t = trim(value);
    t.len() == 0 || eq_ignore_case(t, "auto"@) || eq_ignore_case(t, "default"@)
}

/// Whether an option string is blank or `default` (where `auto` is a choice).
pub open spec fn is_blank_or_default(value: Seq<char>) -> bool {
    let t = trim(value);
    t.len() == 0 || eq_ignore_case(t, "default"@)
}

/// Video codec the converted file is encoded to.
#[derive(Debug, Clone, Copy, PartialEq, Eq, Structural)]
pub enum TargetCodec {
    /// AV1: smallest files, slowest software encoding, newest playback support.
    Av1,
    /// H.265 / HEVC: widest device support and the most permissive metadata handling.
    Hevc,
    /// H.266 / VVC: experimental, software only, very slow, few players.
    Vvc,
}

impl Default for TargetCodec {
    fn default() -> (r: Self)
        ensures
            r == TargetCodec::Av1,
    {
        TargetCodec::Av1
    }
}

impl TargetCodec {
    pub open spec fn wire_name(self) -> Seq<char> {
        match self {
            TargetCodec::Av1 => "av1"@,
            TargetCodec::Hevc => "hevc"@,
            TargetCodec::Vvc => "vvc"@,
        }
    }

    pub open spec fn label_text(self) -> Seq<char> {
        match self {
            TargetCodec::Av1 => "AV1"@,
            TargetCodec::Hevc => "H.265 / HEVC"@,
            TargetCodec::Vvc => "H.266 / VVC"@,
        }
    }

    /// Maps a target codec to its stable wire value.
    pub fn as_str(&self) -> (r: &'static str)
        ensures
            r@ == self.wire_name(),
    {
        match self {
            TargetCodec::Av1 => "av1",
            TargetCodec::Hevc => "hevc",
            TargetCodec::Vvc => "vvc",
        }
    }

    /// Maps a target codec to its human-readable log label.
    pub fn label(&self) -> (r: &'static str)
        ensures
            r@ == self.label_text(),
    {
        match self {
            TargetCodec::Av1 => "AV1",
            TargetCodec::Hevc => "H.265 / HEVC",
            TargetCodec::Vvc => "H.266 / VVC",
        }
    }

    /// The codec name ffprobe reports for a stream in this codec; the same
    /// word as the wire value.
    pub fn ffprobe_name(&self) -> (r: &'static str)
        ensures
            r@ == self.wire_name(),
    {
        match self {
            TargetCodec::Av1 => "av1",
            TargetCodec::Hevc => "hevc",
            TargetCodec::Vvc => "vvc",
        }
    }

    /// The MP4 codec tag this codec needs for broad player support. FFmpeg
    /// writes `hev1` by default, which Apple players refuse to decode.
    pub fn mp4_tag(&self) -> (r: Option<&'static str>)
        ensures
            match r {
                Some(t) => *self == TargetCodec::Hevc && t@ == "hvc1"@,
                None => *self != TargetCodec::Hevc,
            },
    {
        match self {
            TargetCodec::Hevc => Some("hvc1"),
            TargetCodec::Av1 | TargetCodec::Vvc => None,
        }
    }
}

pub open spec fn target_codec_for_key(k: Seq<char>) -> Option<TargetCodec> {
    if k == "av1"@ || k == "av01"@ {
        Some(TargetCodec::Av1)
    } else if k == "hevc"@ || k == "h265"@ || k == "h.265"@ || k == "x265"@ {
        Some(TargetCodec::Hevc)
    } else if k == "vvc"@ || k == "h266"@ || k == "h.266"@ || k == "x266"@ {
        Some(TargetCodec::Vvc)
    } else {
        None
    }
}

pub open spec fn parse_target_codec_spec(value: Seq<char>) -> Result<TargetCodec, Seq<char>> {
    let k = key_of(value);
    match target_codec_for_key(k) {
        Some(c) => Ok(c),
        None => Err("invalid output codec: "@ + k + ". Supported values: av1, hevc, vvc"@),
    }
}

pub open spec fn normalize_target_codec_spec(value: Seq<char>) -> Result<
    Option<TargetCodec>,
    Seq<char>,
> {
    if is_unset(value) {
        Ok(None)
    } else {
        match parse_target_codec_spec(value) {
            Ok(c) => Ok(Some(c)),
            Err(e) => Err(e),
        }
    }
}

/// Parses a target-codec wire value, accepting the common aliases.
pub fn parse_target_codec(value: &str) -> (r: Result<TargetCodec, String>)
    ensures
        err_view(r) == parse_target_codec_spec(value@),
{
    let key = option_key(value);
    let k = key.as_str();
    if str_eq(k, "av1") || str_eq(k, "av01") {
        Ok(TargetCodec::Av1)
    } else if str_eq(k, "hevc") || str_eq(k, "h265") || str_eq(k, "h.265") || str_eq(k, "x265") {
        Ok(TargetCodec::Hevc)
    } else if str_eq(k, "vvc") || str_eq(k, "h266") || str_eq(k, "h.266") || str_eq(k, "x266") {
        Ok(TargetCodec::Vvc)
    } else {
        Err(join3("invalid output codec: ", k, ". Supported values: av1, hevc, vvc"))
    }
}

/// Checks whether an option string means "not set".
pub fn is_unset_choice(value: &str) -> (r: bool)
    ensures
        r == is_unset(value@),
{
    let t = trimmed(value);
    let ts = t.as_str();
    ts.unicode_len() == 0 || eq_ignore_case_str(ts, "auto") || eq_ignore_case_str(ts, "default")
}

fn is_blank_or_default_choice(value: &str) -> (r: bool)
    ensures
        r == is_blank_or_default(value@),
{
    let t = trimmed(value);
    let ts = t.as_str();
    ts.unicode_len() == 0 || eq_ignore_case_str(ts, "default")
}

/// Normalizes an optional target-codec value: blank, `auto` and `default`
/// mean "not set".
pub fn normalize_target_codec_choice(value: &str) -> (r: Result<Option<TargetCodec>, String>)
    ensures
        err_view(r) == normalize_target_codec_spec(value@),
{
    if is_unset_choice(value) {
        Ok(None)
    } else {
        match parse_target_codec(value) {
            Ok(c) => Ok(Some(c)),
            Err(e) => Err(e),
        }
    }
}

/// How strictly the output must reproduce the source.
#[derive(Debug, Clone, Copy, PartialEq, Eq, Structural)]
pub enum Preservation {
    /// Only convert when everything the tool checks is reproduced exactly.
    Strict,
    /// Convert anyway when only recoverable details would change, record every
    /// change, measure quality, and keep both files for the user to compare.
    Flexible,
}

impl Default for Preservation {
    fn default() -> (r: Self)
        ensures
            r == Preservation::Flexible,
    {
        Preservation::Flexible
    }
}

impl Preservation {
    pub open spec fn wire_name(self) -> Seq<char> {
        match self {
            Preservation::Strict => "strict"@,
            Preservation::Flexible => "flexible"@,
        }
    }

    pub open spec fn label_text(self) -> Seq<char> {
        match self {
            Preservation::Strict => "strict preservation"@,
            Preservation::Flexible => "flexible preservation with review"@,
        }
    }

    /// Maps a preservation policy to its stable wire value.
    pub fn as_str(&self) -> (r: &'static str)
        ensures
            r@ == self.wire_name(),
    {
        match self {
            Preservation::Strict => "strict",
            Preservation::Flexible => "flexible",
        }
    }

    /// Maps a preservation policy to its human-readable log label.
    pub fn label(&self) -> (r: &'static str)
        ensures
            r@ == self.label_text(),
    {
        match self {
            Preservation::Strict => "strict preservation",
            Preservation::Flexible => "flexible preservation with review",
        }
    }

    /// Whether recoverable differences may be accepted: only in flexible mode.
    pub fn allows_deviations(&self) -> (r: bool)
        ensures
            r == (*self == Preservation::Flexible),
    {
        match self {
            Preservation::Flexible => true,
            Preservation::Strict => false,
        }
    }
}

pub open spec fn preservation_for_key(k: Seq<char>) -> Option<Preservation> {
    if k == "strict"@ || k == "exact"@ {
        Some(Preservation::Strict)
    } else if k == "flexible"@ || k == "relaxed"@ {
        Some(Preservation::Flexible)
    } else {
        None
    }
}

pub open spec fn parse_preservation_spec(value: Seq<char>) -> Result<Preservation, Seq<char>> {
    let k = key_of(value);
    match preservation_for_key(k) {
        Some(p) => Ok(p),
        None => Err(
            "invalid preservation setting: "@ + k + ". Supported values: strict, flexible"@,
        ),
    }
}

pub open spec fn normalize_preservation_spec(value: Seq<char>) -> Result<
    Option<Preservation>,
    Seq<char>,
> {
    if is_unset(value) {
        Ok(None)
    } else {
        match parse_preservation_spec(value) {
            Ok(p) => Ok(Some(p)),
            Err(e) => Err(e),
        }
    }
}

/// Parses a preservation wire value.
pub fn parse_preservation(value: &str) -> (r: Result<Preservation, String>)
    ensures
        err_view(r) == parse_preservation_spec(value@),
{
    let key = option_key(value);
    let k = key.as_str();
    if str_eq(k, "strict") || str_eq(k, "exact") {
        Ok(Preservation::Strict)
    } else if str_eq(k, "flexible") || str_eq(k, "relaxed") {
        Ok(Preservation::Flexible)
    } else {
        Err(join3("invalid preservation setting: ", k, ". Supported values: strict, flexible"))
    }
}

/// Normalizes an optional preservation value.
pub fn normalize_preservation_choice(value: &str) -> (r: Result<Option<Preservation>, String>)
    ensures
        err_view(r) == normalize_preservation_spec(value@),
{
    if is_unset_choice(value) {
        Ok(None)
    } else {
        match parse_preservation(value) {
            Ok(p) => Ok(Some(p)),
            Err(e) => Err(e),
        }
    }
}

/// How the encoder quality setting for each file is chosen.
#[derive(Debug, Clone, Copy, PartialEq, Eq, Structural)]
pub enum QualityMode {
    /// Encode short samples at several settings and pick the smallest one that
    /// still reaches the quality target.
    Search,
    /// Derive a setting from the source bitrate and codec without test encodes.
    Estimate,
}

impl Default for QualityMode {
    fn default() -> (r: Self)
        ensures
            r == QualityMode::Search,
    {
        QualityMode::Search
    }
}

impl QualityMode {
    pub open spec fn wire_name(self) -> Seq<char> {
        match self {
            QualityMode::Search => "search"@,
            QualityMode::Estimate => "estimate"@,
        }
    }

    pub open spec fn label_text(self) -> Seq<char> {
        match self {
            QualityMode::Search => "measure and tune"@,
            QualityMode::Estimate => "fast estimate"@,
        }
    }

    /// Maps a quality mode to its stable wire value.
    pub fn as_str(&self) -> (r: &'static str)
        ensures
            r@ == self.wire_name(),
    {
        match self {
            QualityMode::Search => "search",
            QualityMode::Estimate => "estimate",
        }
    }

    /// Maps a quality mode to its human-readable log label.
    pub fn label(&self) -> (r: &'static str)
        ensures
            r@ == self.label_text(),
    {
        match self {
            QualityMode::Search => "measure and tune",
            QualityMode::Estimate => "fast estimate",
        }
    }
}

pub open spec fn quality_mode_for_key(k: Seq<char>) -> Option<QualityMode> {
    if k == "search"@ || k == "vmaf"@ || k == "measure"@ {
        Some(QualityMode::Search)
    } else if k == "estimate"@ || k == "fast"@ || k == "heuristic"@ {
        Some(QualityMode::Estimate)
    } else {
        None
    }
}

pub open spec fn parse_quality_mode_spec(value: Seq<char>) -> Result<QualityMode, Seq<char>> {
    let k = key_of(value);
    match quality_mode_for_key(k) {
        Some(m) => Ok(m),
        None => Err("invalid quality mode: "@ + k + ". Supported values: search, estimate"@),
    }
}

pub open spec fn normalize_quality_mode_spec(value: Seq<char>) -> Result<
    Option<QualityMode>,
    Seq<char>,
> {
    if is_unset(value) {
        Ok(None)
    } else {
        match parse_quality_mode_spec(value) {
            Ok(m) => Ok(Some(m)),
            Err(e) => Err(e),
        }
    }
}

/// Parses a quality-mode wire value.
pub fn parse_quality_mode(value: &str) -> (r: Result<QualityMode, String>)
    ensures
        err_view(r) == parse_quality_mode_spec(value@),
{
    let key = option_key(value);
    let k = key.as_str();
    if str_eq(k, "search") || str_eq(k, "vmaf") || str_eq(k, "measure") {
        Ok(QualityMode::Search)
    } else if str_eq(k, "estimate") || str_eq(k, "fast") || str_eq(k, "heuristic") {
        Ok(QualityMode::Estimate)
    } else {
        Err(join3("invalid quality mode: ", k, ". Supported values: search, estimate"))
    }
}

/// Normalizes an optional quality-mode value.
pub fn normalize_quality_mode_choice(value: &str) -> (r: Result<Option<QualityMode>, String>)
    ensures
        err_view(r) == normalize_quality_mode_spec(value@),
{
    if is_unset_choice(value) {
        Ok(None)
    } else {
        match parse_quality_mode(value) {
            Ok(m) => Ok(Some(m)),
            Err(e) => Err(e),
        }
    }
}

/// How thoroughly the finished file is compared against its source.
#[derive(Debug, Clone, Copy, PartialEq, Eq, Structural)]
pub enum QualityCheck {
    /// Compare every frame. Accurate and slow.
    Full,
    /// Compare every fifth frame. Close enough to decide, several times faster.
    Sampled,
    /// Do not compare. Flexible conversions are still measured, because their
    /// review decision depends on a score.
    Off,
}

impl Default for QualityCheck {
    fn default() -> (r: Self)
        ensures
            r == QualityCheck::Sampled,
    {
        QualityCheck::Sampled
    }
}

impl QualityCheck {
    pub open spec fn wire_name(self) -> Seq<char> {
        match self {
            QualityCheck::Full => "full"@,
            QualityCheck::Sampled => "sampled"@,
            QualityCheck::Off => "off"@,
        }
    }

    pub open spec fn label_text(self) -> Seq<char> {
        match self {
            QualityCheck::Full => "check every frame"@,
            QualityCheck::Sampled => "check sampled frames"@,
            QualityCheck::Off => "no quality check"@,
        }
    }

    /// Maps a quality check to its stable wire value.
    pub fn as_str(&self) -> (r: &'static str)
        ensures
            r@ == self.wire_name(),
    {
        match self {
            QualityCheck::Full => "full",
            QualityCheck::Sampled => "sampled",
            QualityCheck::Off => "off",
        }
    }

    /// Maps a quality check to its human-readable log label.
    pub fn label(&self) -> (r: &'static str)
        ensures
            r@ == self.label_text(),
    {
        match self {
            QualityCheck::Full => "check every frame",
            QualityCheck::Sampled => "check sampled frames",
            QualityCheck::Off => "no quality check",
        }
    }

    /// How many frames to skip between measurements: every frame for a full
    /// check, one in five otherwise.
    pub fn subsample(&self) -> (r: u32)
        ensures
            r == (if *self == QualityCheck::Full { 1u32 } else { 5u32 }),
    {
        match self {
            QualityCheck::Full => 1,
            QualityCheck::Sampled | QualityCheck::Off => 5,
        }
    }
}

pub open spec fn quality_check_for_key(k: Seq<char>) -> Option<QualityCheck> {
    if k == "full"@ || k == "all"@ || k == "every"@ {
        Some(QualityCheck::Full)
    } else if k == "sampled"@ || k == "sample"@ || k == "fast"@ {
        Some(QualityCheck::Sampled)
    } else if k == "off"@ || k == "none"@ || k == "no"@ {
        Some(QualityCheck::Off)
    } else {
        None
    }
}

pub open spec fn parse_quality_check_spec(value: Seq<char>) -> Result<QualityCheck, Seq<char>> {
    let k = key_of(value);
    match quality_check_for_key(k) {
        Some(q) => Ok(q),
        None => Err("invalid quality check: "@ + k + ". Supported values: full, sampled, off"@),
    }
}

pub open spec fn normalize_quality_check_spec(value: Seq<char>) -> Result<
    Option<QualityCheck>,
    Seq<char>,
> {
    if is_unset(value) {
        Ok(None)
    } else {
        match parse_quality_check_spec(value) {
            Ok(q) => Ok(Some(q)),
            Err(e) => Err(e),
        }
    }
}

/// Parses a quality-check wire value.
pub fn parse_quality_check(value: &str) -> (r: Result<QualityCheck, String>)
    ensures
        err_view(r) == parse_quality_check_spec(value@),
{
    let key = option_key(value);
    let k = key.as_str();
    if str_eq(k, "full") || str_eq(k, "all") || str_eq(k, "every") {
        Ok(QualityCheck::Full)
    } else if str_eq(k, "sampled") || str_eq(k, "sample") || str_eq(k, "fast") {
        Ok(QualityCheck::Sampled)
    } else if str_eq(k, "off") || str_eq(k, "none") || str_eq(k, "no") {
        Ok(QualityCheck::Off)
    } else {
        Err(join3("invalid quality check: ", k, ". Supported values: full, sampled, off"))
    }
}

/// Normalizes an optional quality-check value.
pub fn normalize_quality_check_choice(value: &str) -> (r: Result<Option<QualityCheck>, String>)
    ensures
        err_view(r) == normalize_quality_check_spec(value@),
{
    if is_unset_choice(value) {
        Ok(None)
    } else {
        match parse_quality_check(value) {
            Ok(q) => Ok(Some(q)),
            Err(e) => Err(e),
        }
    }
}

/// Which encoders are tried first for each file.
#[derive(Debug, Clone, Copy, PartialEq, Eq, Structural)]
pub enum EncoderPreference {
    /// Graphics-card encoders that reproduce the source exactly, then processor
    /// encoders. The safe default.
    Auto,
    /// Graphics-card encoders first even when one has to change the pixel
    /// format. Fastest, and the sensible default on phones.
    Gpu,
    /// Processor encoders only. Slowest, usually the smallest files.
    Cpu,
}

impl Default for EncoderPreference {
    fn default() -> (r: Self)
        ensures
            r == EncoderPreference::Auto,
    {
        EncoderPreference::Auto
    }
}

impl EncoderPreference {
    pub open spec fn wire_name(self) -> Seq<char> {
        match self {
            EncoderPreference::Auto => "auto"@,
            EncoderPreference::Gpu => "gpu"@,
            EncoderPreference::Cpu => "cpu"@,
        }
    }

    pub open spec fn label_text(self) -> Seq<char> {
        match self {
            EncoderPreference::Auto => "balanced (graphics card, then processor)"@,
            EncoderPreference::Gpu => "graphics card first"@,
            EncoderPreference::Cpu => "processor only"@,
        }
    }

    /// Maps an encoder preference to its stable wire value.
    pub fn as_str(&self) -> (r: &'static str)
        ensures
            r@ == self.wire_name(),
    {
        match self {
            EncoderPreference::Auto => "auto",
            EncoderPreference::Gpu => "gpu",
            EncoderPreference::Cpu => "cpu",
        }
    }

    /// Maps an encoder preference to its human-readable log label.
    pub fn label(&self) -> (r: &'static str)
        ensures
            r@ == self.label_text(),
    {
        match self {
            EncoderPreference::Auto => "balanced (graphics card, then processor)",
            EncoderPreference::Gpu => "graphics card first",
            EncoderPreference::Cpu => "processor only",
        }
    }
}

pub open spec fn encoder_preference_for_key(k: Seq<char>) -> Option<EncoderPreference> {
    if k == "auto"@ || k == "balanced"@ || k == "consistency"@ || k == "consistency-priority"@
        || k == "consistency_priority"@ {
        Some(EncoderPreference::Auto)
    } else if k == "gpu"@ || k == "hardware"@ || k == "hardware-priority"@ || k
        == "hardware_priority"@ {
        Some(EncoderPreference::Gpu)
    } else if k == "cpu"@ || k == "software"@ {
        Some(EncoderPreference::Cpu)
    } else {
        None
    }
}

pub open spec fn parse_encoder_preference_spec(value: Seq<char>) -> Result<
    EncoderPreference,
    Seq<char>,
> {
    let k = key_of(value);
    match encoder_preference_for_key(k) {
        Some(p) => Ok(p),
        None => Err("invalid encoder preference: "@ + k + ". Supported values: auto, gpu, cpu"@),
    }
}

pub open spec fn normalize_encoder_preference_spec(value: Seq<char>) -> Result<
    Option<EncoderPreference>,
    Seq<char>,
> {
    if is_blank_or_default(value) {
        Ok(None)
    } else {
        match parse_encoder_preference_spec(trim(value)) {
            Ok(p) => Ok(Some(p)),
            Err(e) => Err(e),
        }
    }
}

/// Parses an encoder-preference wire value, including the retired
/// conversion-mode names.
pub fn parse_encoder_preference(value: &str) -> (r: Result<EncoderPreference, String>)
    ensures
        err_view(r) == parse_encoder_preference_spec(value@),
{
    let key = option_key(value);
    let k = key.as_str();
    if str_eq(k, "auto") || str_eq(k, "balanced") || str_eq(k, "consistency") || str_eq(
        k,
        "consistency-priority",
    ) || str_eq(k, "consistency_priority") {
        Ok(EncoderPreference::Auto)
    } else if str_eq(k, "gpu") || str_eq(k, "hardware") || str_eq(k, "hardware-priority")
        || str_eq(k, "hardware_priority") {
        Ok(EncoderPreference::Gpu)
    } else if str_eq(k, "cpu") || str_eq(k, "software") {
        Ok(EncoderPreference::Cpu)
    } else {
        Err(join3("invalid encoder preference: ", k, ". Supported values: auto, gpu, cpu"))
    }
}

/// Normalizes an optional encoder-preference value: only a blank or the word
/// `default` means "not set".
pub fn normalize_encoder_preference_choice(value: &str) -> (r: Result<
    Option<EncoderPreference>,
    String,
>)
    ensures
        err_view(r) == normalize_encoder_preference_spec(value@),
{
    if is_blank_or_default_choice(value) {
        Ok(None)
    } else {
        let t = trimmed(value);
        match parse_encoder_preference(t.as_str()) {
            Ok(p) => Ok(Some(p)),
            Err(e) => Err(e),
        }
    }
}

/// A quality target expressed as a VMAF score in hundredths, so the whole
/// options surface stays integer-only.
pub const DEFAULT_QUALITY_TARGET: u32 = 9500;

/// Default distance below the target at which a result is sent to review.
pub const DEFAULT_REVIEW_MARGIN: u32 = 200;

/// Lowest quality target the tool accepts.
pub const MIN_QUALITY_TARGET: u32 = 5000;

/// Highest quality target the tool accepts.
pub const MAX_QUALITY_TARGET: u32 = 10000;

/// Validates a quality target in hundredths of a VMAF point.
pub fn validate_quality_target(value: u32) -> (r: Result<u32, String>)
    ensures
        MIN_QUALITY_TARGET <= value <= MAX_QUALITY_TARGET ==> r == Ok::<u32, String>(value),
        !(MIN_QUALITY_TARGET <= value <= MAX_QUALITY_TARGET) ==> (r matches Err(e) && e@
            == "quality target must be between 50 and 100"@),
{
    if MIN_QUALITY_TARGET <= value && value <= MAX_QUALITY_TARGET {
        Ok(value)
    } else {
        Err(copy_str("quality target must be between 50 and 100"))
    }
}

/// One of FFmpeg's hardware decoding methods, named the way FFmpeg names it.
#[derive(Debug, Clone, Copy, PartialEq, Eq, Structural)]
pub enum HwAccel {
    D3d11va,
    D3d12va,
    Dxva2,
    Cuda,
    Qsv,
    Vaapi,
    VideoToolbox,
    MediaCodec,
    Vulkan,
}

impl HwAccel {
    pub open spec fn wire_name(self) -> Seq<char> {
        match self {
            HwAccel::D3d11va => "d3d11va"@,
            HwAccel::D3d12va => "d3d12va"@,
            HwAccel::Dxva2 => "dxva2"@,
            HwAccel::Cuda => "cuda"@,
            HwAccel::Qsv => "qsv"@,
            HwAccel::Vaapi => "vaapi"@,
            HwAccel::VideoToolbox => "videotoolbox"@,
            HwAccel::MediaCodec => "mediacodec"@,
            HwAccel::Vulkan => "vulkan"@,
        }
    }

    /// Maps a decoding method to the name ffmpeg knows it by.
    pub fn as_str(&self) -> (r: &'static str)
        ensures
            r@ == self.wire_name(),
    {
        match self {
            HwAccel::D3d11va => "d3d11va",
            HwAccel::D3d12va => "d3d12va",
            HwAccel::Dxva2 => "dxva2",
            HwAccel::Cuda => "cuda",
            HwAccel::Qsv => "qsv",
            HwAccel::Vaapi => "vaapi",
            HwAccel::VideoToolbox => "videotoolbox",
            HwAccel::MediaCodec => "mediacodec",
            HwAccel::Vulkan => "vulkan",
        }
    }
}

/// Every method that can be named, in the fixed order error messages use.
pub open spec fn hw_accel_order() -> Seq<HwAccel> {
    seq![
        HwAccel::D3d11va,
        HwAccel::D3d12va,
        HwAccel::Dxva2,
        HwAccel::Cuda,
        HwAccel::Qsv,
        HwAccel::Vaapi,
        HwAccel::VideoToolbox,
        HwAccel::MediaCodec,
        HwAccel::Vulkan,
    ]
}

/// Every method that can be named, in the fixed order error messages use.
pub fn hw_accels() -> (r: Vec<HwAccel>)
    ensures
        r@ == hw_accel_order(),
{
    let r = vec![
        HwAccel::D3d11va,
        HwAccel::D3d12va,
        HwAccel::Dxva2,
        HwAccel::Cuda,
        HwAccel::Qsv,
        HwAccel::Vaapi,
        HwAccel::VideoToolbox,
        HwAccel::MediaCodec,
        HwAccel::Vulkan,
    ];
    assert(r@ =~= hw_accel_order());
    r
}

/// The method whose ffmpeg name is exactly `k`, if any.
pub open spec fn hw_accel_named(k: Seq<char>) -> Option<HwAccel> {
    if k == "d3d11va"@ {
        Some(HwAccel::D3d11va)
    } else if k == "d3d12va"@ {
        Some(HwAccel::D3d12va)
    } else if k == "dxva2"@ {
        Some(HwAccel::Dxva2)
    } else if k == "cuda"@ {
        Some(HwAccel::Cuda)
    } else if k == "qsv"@ {
        Some(HwAccel::Qsv)
    } else if k == "vaapi"@ {
        Some(HwAccel::Vaapi)
    } else if k == "videotoolbox"@ {
        Some(HwAccel::VideoToolbox)
    } else if k == "mediacodec"@ {
        Some(HwAccel::MediaCodec)
    } else if k == "vulkan"@ {
        Some(HwAccel::Vulkan)
    } else {
        None
    }
}

proof fn lemma_hw_accel_named(a: HwAccel)
    ensures
        hw_accel_named(a.wire_name()) == Some(a),
{
    reveal_strlit("d3d11va");
    reveal_strlit("d3d12va");
    reveal_strlit("dxva2");
    reveal_strlit("cuda");
    reveal_strlit("qsv");
    reveal_strlit("vaapi");
    reveal_strlit("videotoolbox");
    reveal_strlit("mediacodec");
    reveal_strlit("vulkan");
    assert("d3d11va"@.len() == 7);
    assert("d3d12va"@.len() == 7);
    assert("dxva2"@.len() == 5);
    assert("cuda"@.len() == 4);
    assert("qsv"@.len() == 3);
    assert("vaapi"@.len() == 5);
    assert("videotoolbox"@.len() == 12);
    assert("mediacodec"@.len() == 10);
    assert("vulkan"@.len() == 6);
    match a {
        HwAccel::D3d11va => {
            assert(hw_accel_named("d3d11va"@) == Some(HwAccel::D3d11va));
        },
        HwAccel::D3d12va => {
            assert("d3d12va"@[4] != "d3d11va"@[4]);
            assert(hw_accel_named("d3d12va"@) == Some(HwAccel::D3d12va));
        },
        HwAccel::Dxva2 => {
            assert(hw_accel_named("dxva2"@) == Some(HwAccel::Dxva2));
        },
        HwAccel::Cuda => {
            assert(hw_accel_named("cuda"@) == Some(HwAccel::Cuda));
        },
        HwAccel::Qsv => {
            assert(hw_accel_named("qsv"@) == Some(HwAccel::Qsv));
        },
        HwAccel::Vaapi => {
            assert("vaapi"@[0] != "dxva2"@[0]);
            assert(hw_accel_named("vaapi"@) == Some(HwAccel::Vaapi));
        },
        HwAccel::VideoToolbox => {
            assert(hw_accel_named("videotoolbox"@) == Some(HwAccel::VideoToolbox));
        },
        HwAccel::MediaCodec => {
            assert(hw_accel_named("mediacodec"@) == Some(HwAccel::MediaCodec));
        },
        HwAccel::Vulkan => {
            assert(hw_accel_named("vulkan"@) == Some(HwAccel::Vulkan));
        },
    }
}

/// Whether decoding may happen on a graphics card.
///
/// Decoding is what reads the source, both while converting it and while
/// measuring the result. Doing it on a graphics card frees the processor for
/// the encode and for the quality measurement itself.
#[derive(Debug, Clone, Copy, PartialEq, Eq, Structural)]
pub enum DecoderPreference {
    /// Use a graphics card when one is proven to work on this file, and the
    /// processor otherwise.
    Auto,
    /// Ask for a graphics card and say so when none can be used.
    Gpu,
    /// Never use a graphics card.
    Cpu,
    /// Use exactly this method and nothing else.
    Method(HwAccel),
}

impl Default for DecoderPreference {
    fn default() -> (r: Self)
        ensures
            r == DecoderPreference::Auto,
    {
        DecoderPreference::Auto
    }
}

impl DecoderPreference {
    pub open spec fn wire_name(self) -> Seq<char> {
        match self {
            DecoderPreference::Auto => "auto"@,
            DecoderPreference::Gpu => "gpu"@,
            DecoderPreference::Cpu => "cpu"@,
            DecoderPreference::Method(m) => m.wire_name(),
        }
    }

    pub open spec fn label_text(self) -> Seq<char> {
        match self {
            DecoderPreference::Auto => "a graphics card when one works"@,
            DecoderPreference::Gpu => "a graphics card"@,
            DecoderPreference::Cpu => "the processor"@,
            DecoderPreference::Method(m) => m.wire_name(),
        }
    }

    /// Maps a decoder preference to its stable wire value, which for an
    /// explicit choice is the method name.
    pub fn as_str(&self) -> (r: &'static str)
        ensures
            r@ == self.wire_name(),
    {
        match self {
            DecoderPreference::Auto => "auto",
            DecoderPreference::Gpu => "gpu",
            DecoderPreference::Cpu => "cpu",
            DecoderPreference::Method(method) => method.as_str(),
        }
    }

    /// Maps a decoder preference to its human-readable log label.
    pub fn label(&self) -> (r: String)
        ensures
            r@ == self.label_text(),
    {
        match self {
            DecoderPreference::Auto => copy_str("a graphics card when one works"),
            DecoderPreference::Gpu => copy_str("a graphics card"),
            DecoderPreference::Cpu => copy_str("the processor"),
            DecoderPreference::Method(method) => copy_str(method.as_str()),
        }
    }

    /// Whether this preference allows a graphics card at all: every choice
    /// but the processor does.
    pub fn allows_hardware(&self) -> (r: bool)
        ensures
            r == (*self != DecoderPreference::Cpu),
    {
        match self {
            DecoderPreference::Cpu => false,
            _ => true,
        }
    }
}

pub open spec fn parse_decoder_preference_spec(value: Seq<char>) -> Result<
    DecoderPreference,
    Seq<char>,
> {
    let k = key_of(value);
    if k == "auto"@ {
        Ok(DecoderPreference::Auto)
    } else if k == "gpu"@ || k == "hardware"@ {
        Ok(DecoderPreference::Gpu)
    } else if k == "cpu"@ || k == "software"@ || k == "none"@ {
        Ok(DecoderPreference::Cpu)
    } else {
        match hw_accel_named(k) {
            Some(m) => Ok(DecoderPreference::Method(m)),
            None => Err(
                "invalid decoder preference: "@ + value
                    + ". Supported values: auto, gpu, cpu, d3d11va, d3d12va, dxva2, cuda, qsv, vaapi, videotoolbox, mediacodec, vulkan"@,
            ),
        }
    }
}

pub open spec fn normalize_decoder_preference_spec(value: Seq<char>) -> Result<
    Option<DecoderPreference>,
    Seq<char>,
> {
    if is_blank_or_default(value) {
        Ok(None)
    } else {
        match parse_decoder_preference_spec(trim(value)) {
            Ok(p) => Ok(Some(p)),
            Err(e) => Err(e),
        }
    }
}

/// Parses a decoder-preference wire value: one of the three general choices
/// or the ffmpeg name of one method.
pub fn parse_decoder_preference(value: &str) -> (r: Result<DecoderPreference, String>)
    ensures
        err_view(r) == parse_decoder_preference_spec(value@),
{
    let key = option_key(value);
    let k = key.as_str();
    if str_eq(k, "auto") {
        return Ok(DecoderPreference::Auto);
    }
    if str_eq(k, "gpu") || str_eq(k, "hardware") {
        return Ok(DecoderPreference::Gpu);
    }
    if str_eq(k, "cpu") || str_eq(k, "software") || str_eq(k, "none") {
        return Ok(DecoderPreference::Cpu);
    }
    let methods = hw_accels();
    let mut i: usize = 0;
    while i < methods.len()
        invariant
            methods@ == hw_accel_order(),
            i <= methods.len(),
            k@ == key_of(value@),
            k@ != "auto"@ && k@ != "gpu"@ && k@ != "hardware"@,
            k@ != "cpu"@ && k@ != "software"@ && k@ != "none"@,
            forall|j: int| 0 <= j < i ==> methods@[j].wire_name() != k@,
        decreases methods.len() - i,
    {
        let method = methods[i];
        if str_eq(method.as_str(), k) {
            proof {
                lemma_hw_accel_named(method);
            }
            return Ok(DecoderPreference::Method(method));
        }
        i = i + 1;
    }
    assert(hw_accel_named(k@) is None) by {
        assert(methods@[0].wire_name() != k@);
        assert(methods@[1].wire_name() != k@);
        assert(methods@[2].wire_name() != k@);
        assert(methods@[3].wire_name() != k@);
        assert(methods@[4].wire_name() != k@);
        assert(methods@[5].wire_name() != k@);
        assert(methods@[6].wire_name() != k@);
        assert(methods@[7].wire_name() != k@);
        assert(methods@[8].wire_name() != k@);
    }
    Err(
        join3(
            "invalid decoder preference: ",
            value,
            ". Supported values: auto, gpu, cpu, d3d11va, d3d12va, dxva2, cuda, qsv, vaapi, videotoolbox, mediacodec, vulkan",
        ),
    )
}

/// Normalizes an optional decoder-preference value. Unlike the codec, `auto`
/// is a real choice here, so only a blank or the word `default` means the
/// caller said nothing.
pub fn normalize_decoder_preference_choice(value: &str) -> (r: Result<
    Option<DecoderPreference>,
    String,
>)
    ensures
        err_view(r) == normalize_decoder_preference_spec(value@),
{
    if is_blank_or_default_choice(value) {
        Ok(None)
    } else {
        let t = trimmed(value);
        match parse_decoder_preference(t.as_str()) {
            Ok(p) => Ok(Some(p)),
            Err(e) => Err(e),
        }
    }
}

/// The names an output codec goes by, in the order the parser tries them.
pub open spec fn target_codec_names(v: TargetCodec) -> Seq<Seq<char>> {
    match v {
        TargetCodec::Av1 => seq!["av1"@, "av01"@],
        TargetCodec::Hevc => seq!["hevc"@, "h265"@, "h.265"@, "x265"@],
        TargetCodec::Vvc => seq!["vvc"@, "h266"@, "h.266"@, "x266"@],
    }
}

/// Each name of each setting parses to it, in any case and with space
/// around it, and a value parses exactly when, so read, it is one of
/// these names.
pub proof fn target_codec_aliases_parse(value: Seq<char>)
    ensures
        forall|v: TargetCodec, i: int| 0 <= i < target_codec_names(v).len() ==> #[trigger] parse_target_codec_spec(target_codec_names(v)[i]) == Ok::<TargetCodec, Seq<char>>(v),
        forall|v: TargetCodec| #[trigger] target_codec_names(v).contains(key_of(value)) ==> parse_target_codec_spec(value) == Ok::<TargetCodec, Seq<char>>(v),
        parse_target_codec_spec(value) matches Ok(v) ==> target_codec_names(v).contains(key_of(value)),
{
    reveal_strlit("av01");
    assert("av01"@.len() == 4);
    reveal_strlit("av1");
    assert("av1"@.len() == 3);
    reveal_strlit("h.265");
    assert("h.265"@.len() == 5);
    reveal_strlit("h.266");
    assert("h.266"@.len() == 5);
    reveal_strlit("h265");
    assert("h265"@.len() == 4);
    reveal_strlit("h266");
    assert("h266"@.len() == 4);
    reveal_strlit("hevc");
    assert("hevc"@.len() == 4);
    reveal_strlit("vvc");
    assert("vvc"@.len() == 3);
    reveal_strlit("x265");
    assert("x265"@.len() == 4);
    reveal_strlit("x266");
    assert("x266"@.len() == 4);
    assert("av1"@[0] != "vvc"@[0]);
    assert("av01"@[0] != "hevc"@[0]);
    assert("av01"@[0] != "h265"@[0]);
    assert("av01"@[0] != "x265"@[0]);
    assert("av01"@[0] != "h266"@[0]);
    assert("av01"@[0] != "x266"@[0]);
    assert("hevc"@[1] != "h265"@[1]);
    assert("hevc"@[0] != "x265"@[0]);
    assert("hevc"@[1] != "h266"@[1]);
    assert("hevc"@[0] != "x266"@[0]);
    assert("h265"@[0] != "x265"@[0]);
    assert("h265"@[3] != "h266"@[3]);
    assert("h265"@[0] != "x266"@[0]);
    assert("h.265"@[4] != "h.266"@[4]);
    assert("x265"@[0] != "h266"@[0]);
    assert("x265"@[3] != "x266"@[3]);
    assert("h266"@[0] != "x266"@[0]);
    crate::text::lemma_plain_word("av1"@);
    assert(target_codec_for_key("av1"@) == Some(TargetCodec::Av1));
    crate::text::lemma_plain_word("av01"@);
    assert(target_codec_for_key("av01"@) == Some(TargetCodec::Av1));
    crate::text::lemma_plain_word("hevc"@);
    assert(target_codec_for_key("hevc"@) == Some(TargetCodec::Hevc));
    crate::text::lemma_plain_word("h265"@);
    assert(target_codec_for_key("h265"@) == Some(TargetCodec::Hevc));
    crate::text::lemma_plain_word("h.265"@);
    assert(target_codec_for_key("h.265"@) == Some(TargetCodec::Hevc));
    crate::text::lemma_plain_word("x265"@);
    assert(target_codec_for_key("x265"@) == Some(TargetCodec::Hevc));
    crate::text::lemma_plain_word("vvc"@);
    assert(target_codec_for_key("vvc"@) == Some(TargetCodec::Vvc));
    crate::text::lemma_plain_word("h266"@);
    assert(target_codec_for_key("h266"@) == Some(TargetCodec::Vvc));
    crate::text::lemma_plain_word("h.266"@);
    assert(target_codec_for_key("h.266"@) == Some(TargetCodec::Vvc));
    crate::text::lemma_plain_word("x266"@);
    assert(target_codec_for_key("x266"@) == Some(TargetCodec::Vvc));
    assert forall|v: TargetCodec, i: int| 0 <= i < target_codec_names(v).len() implies #[trigger] parse_target_codec_spec(target_codec_names(v)[i]) == Ok::<TargetCodec, Seq<char>>(v) by {
        match v {
            TargetCodec::Av1 => {
                if i == 0 {} else {}
            },
            TargetCodec::Hevc => {
                if i == 0 {} else if i == 1 {} else if i == 2 {} else {}
            },
            TargetCodec::Vvc => {
                if i == 0 {} else if i == 1 {} else if i == 2 {} else {}
            },
        }
    }
    let k = key_of(value);
    assert forall|v: TargetCodec| #[trigger] target_codec_names(v).contains(k) implies parse_target_codec_spec(value) == Ok::<TargetCodec, Seq<char>>(v) by {
        let j = choose|j: int| 0 <= j < target_codec_names(v).len() && target_codec_names(v)[j] == k;
        match v {
            TargetCodec::Av1 => {
                if j == 0 {} else {}
            },
            TargetCodec::Hevc => {
                if j == 0 {} else if j == 1 {} else if j == 2 {} else {}
            },
            TargetCodec::Vvc => {
                if j == 0 {} else if j == 1 {} else if j == 2 {} else {}
            },
        }
    }
    if target_codec_for_key(k) is Some {
        if k == "av1"@ { assert(target_codec_names(TargetCodec::Av1)[0] == k); }
        if k == "av01"@ { assert(target_codec_names(TargetCodec::Av1)[1] == k); }
        if k == "hevc"@ { assert(target_codec_names(TargetCodec::Hevc)[0] == k); }
        if k == "h265"@ { assert(target_codec_names(TargetCodec::Hevc)[1] == k); }
        if k == "h.265"@ { assert(target_codec_names(TargetCodec::Hevc)[2] == k); }
        if k == "x265"@ { assert(target_codec_names(TargetCodec::Hevc)[3] == k); }
        if k == "vvc"@ { assert(target_codec_names(TargetCodec::Vvc)[0] == k); }
        if k == "h266"@ { assert(target_codec_names(TargetCodec::Vvc)[1] == k); }
        if k == "h.266"@ { assert(target_codec_names(TargetCodec::Vvc)[2] == k); }
        if k == "x266"@ { assert(target_codec_names(TargetCodec::Vvc)[3] == k); }
    }
}

/// The names a preservation policy goes by, in the order the parser tries them.
pub open spec fn preservation_names(v: Preservation) -> Seq<Seq<char>> {
    match v {
        Preservation::Strict => seq!["strict"@, "exact"@],
        Preservation::Flexible => seq!["flexible"@, "relaxed"@],
    }
}

/// Each name of each setting parses to it, in any case and with space
/// around it, and a value parses exactly when, so read, it is one of
/// these names.
pub proof fn preservation_aliases_parse(value: Seq<char>)
    ensures
        forall|v: Preservation, i: int| 0 <= i < preservation_names(v).len() ==> #[trigger] parse_preservation_spec(preservation_names(v)[i]) == Ok::<Preservation, Seq<char>>(v),
        forall|v: Preservation| #[trigger] preservation_names(v).contains(key_of(value)) ==> parse_preservation_spec(value) == Ok::<Preservation, Seq<char>>(v),
        parse_preservation_spec(value) matches Ok(v) ==> preservation_names(v).contains(key_of(value)),
{
    reveal_strlit("exact");
    assert("exact"@.len() == 5);
    reveal_strlit("flexible");
    assert("flexible"@.len() == 8);
    reveal_strlit("relaxed");
    assert("relaxed"@.len() == 7);
    reveal_strlit("strict");
    assert("strict"@.len() == 6);
    crate::text::lemma_plain_word("strict"@);
    assert(preservation_for_key("strict"@) == Some(Preservation::Strict));
    crate::text::lemma_plain_word("exact"@);
    assert(preservation_for_key("exact"@) == Some(Preservation::Strict));
    crate::text::lemma_plain_word("flexible"@);
    assert(preservation_for_key("flexible"@) == Some(Preservation::Flexible));
    crate::text::lemma_plain_word("relaxed"@);
    assert(preservation_for_key("relaxed"@) == Some(Preservation::Flexible));
    assert forall|v: Preservation, i: int| 0 <= i < preservation_names(v).len() implies #[trigger] parse_preservation_spec(preservation_names(v)[i]) == Ok::<Preservation, Seq<char>>(v) by {
        match v {
            Preservation::Strict => {
                if i == 0 {} else {}
            },
            Preservation::Flexible => {
                if i == 0 {} else {}
            },
        }
    }
    let k = key_of(value);
    assert forall|v: Preservation| #[trigger] preservation_names(v).contains(k) implies parse_preservation_spec(value) == Ok::<Preservation, Seq<char>>(v) by {
        let j = choose|j: int| 0 <= j < preservation_names(v).len() && preservation_names(v)[j] == k;
        match v {
            Preservation::Strict => {
                if j == 0 {} else {}
            },
            Preservation::Flexible => {
                if j == 0 {} else {}
            },
        }
    }
    if preservation_for_key(k) is Some {
        if k == "strict"@ { assert(preservation_names(Preservation::Strict)[0] == k); }
        if k == "exact"@ { assert(preservation_names(Preservation::Strict)[1] == k); }
        if k == "flexible"@ { assert(preservation_names(Preservation::Flexible)[0] == k); }
        if k == "relaxed"@ { assert(preservation_names(Preservation::Flexible)[1] == k); }
    }
}

/// The names a quality mode goes by, in the order the parser tries them.
pub open spec fn quality_mode_names(v: QualityMode) -> Seq<Seq<char>> {
    match v {
        QualityMode::Search => seq!["search"@, "vmaf"@, "measure"@],
        QualityMode::Estimate => seq!["estimate"@, "fast"@, "heuristic"@],
    }
}

/// Each name of each setting parses to it, in any case and with space
/// around it, and a value parses exactly when, so read, it is one of
/// these names.
pub proof fn quality_mode_aliases_parse(value: Seq<char>)
    ensures
        forall|v: QualityMode, i: int| 0 <= i < quality_mode_names(v).len() ==> #[trigger] parse_quality_mode_spec(quality_mode_names(v)[i]) == Ok::<QualityMode, Seq<char>>(v),
        forall|v: QualityMode| #[trigger] quality_mode_names(v).contains(key_of(value)) ==> parse_quality_mode_spec(value) == Ok::<QualityMode, Seq<char>>(v),
        parse_quality_mode_spec(value) matches Ok(v) ==> quality_mode_names(v).contains(key_of(value)),
{
    reveal_strlit("estimate");
    assert("estimate"@.len() == 8);
    reveal_strlit("fast");
    assert("fast"@.len() == 4);
    reveal_strlit("heuristic");
    assert("heuristic"@.len() == 9);
    reveal_strlit("measure");
    assert("measure"@.len() == 7);
    reveal_strlit("search");
    assert("search"@.len() == 6);
    reveal_strlit("vmaf");
    assert("vmaf"@.len() == 4);
    assert("vmaf"@[0] != "fast"@[0]);
    crate::text::lemma_plain_word("search"@);
    assert(quality_mode_for_key("search"@) == Some(QualityMode::Search));
    crate::text::lemma_plain_word("vmaf"@);
    assert(quality_mode_for_key("vmaf"@) == Some(QualityMode::Search));
    crate::text::lemma_plain_word("measure"@);
    assert(quality_mode_for_key("measure"@) == Some(QualityMode::Search));
    crate::text::lemma_plain_word("estimate"@);
    assert(quality_mode_for_key("estimate"@) == Some(QualityMode::Estimate));
    crate::text::lemma_plain_word("fast"@);
    assert(quality_mode_for_key("fast"@) == Some(QualityMode::Estimate));
    crate::text::lemma_plain_word("heuristic"@);
    assert(quality_mode_for_key("heuristic"@) == Some(QualityMode::Estimate));
    assert forall|v: QualityMode, i: int| 0 <= i < quality_mode_names(v).len() implies #[trigger] parse_quality_mode_spec(quality_mode_names(v)[i]) == Ok::<QualityMode, Seq<char>>(v) by {
        match v {
            QualityMode::Search => {
                if i == 0 {} else if i == 1 {} else {}
            },
            QualityMode::Estimate => {
                if i == 0 {} else if i == 1 {} else {}
            },
        }
    }
    let k = key_of(value);
    assert forall|v: QualityMode| #[trigger] quality_mode_names(v).contains(k) implies parse_quality_mode_spec(value) == Ok::<QualityMode, Seq<char>>(v) by {
        let j = choose|j: int| 0 <= j < quality_mode_names(v).len() && quality_mode_names(v)[j] == k;
        match v {
            QualityMode::Search => {
                if j == 0 {} else if j == 1 {} else {}
            },
            QualityMode::Estimate => {
                if j == 0 {} else if j == 1 {} else {}
            },
        }
    }
    if quality_mode_for_key(k) is Some {
        if k == "search"@ { assert(quality_mode_names(QualityMode::Search)[0] == k); }
        if k == "vmaf"@ { assert(quality_mode_names(QualityMode::Search)[1] == k); }
        if k == "measure"@ { assert(quality_mode_names(QualityMode::Search)[2] == k); }
        if k == "estimate"@ { assert(quality_mode_names(QualityMode::Estimate)[0] == k); }
        if k == "fast"@ { assert(quality_mode_names(QualityMode::Estimate)[1] == k); }
        if k == "heuristic"@ { assert(quality_mode_names(QualityMode::Estimate)[2] == k); }
    }
}

/// The names a quality check goes by, in the order the parser tries them.
pub open spec fn quality_check_names(v: QualityCheck) -> Seq<Seq<char>> {
    match v {
        QualityCheck::Full => seq!["full"@, "all"@, "every"@],
        QualityCheck::Sampled => seq!["sampled"@, "sample"@, "fast"@],
        QualityCheck::Off => seq!["off"@, "none"@, "no"@],
    }
}

/// Each name of each setting parses to it, in any case and with space
/// around it, and a value parses exactly when, so read, it is one of
/// these names.
pub proof fn quality_check_aliases_parse(value: Seq<char>)
    ensures
        forall|v: QualityCheck, i: int| 0 <= i < quality_check_names(v).len() ==> #[trigger] parse_quality_check_spec(quality_check_names(v)[i]) == Ok::<QualityCheck, Seq<char>>(v),
        forall|v: QualityCheck| #[trigger] quality_check_names(v).contains(key_of(value)) ==> parse_quality_check_spec(value) == Ok::<QualityCheck, Seq<char>>(v),
        parse_quality_check_spec(value) matches Ok(v) ==> quality_check_names(v).contains(key_of(value)),
{
    reveal_strlit("all");
    assert("all"@.len() == 3);
    reveal_strlit("every");
    assert("every"@.len() == 5);
    reveal_strlit("fast");
    assert("fast"@.len() == 4);
    reveal_strlit("full");
    assert("full"@.len() == 4);
    reveal_strlit("no");
    assert("no"@.len() == 2);
    reveal_strlit("none");
    assert("none"@.len() == 4);
    reveal_strlit("off");
    assert("off"@.len() == 3);
    reveal_strlit("sample");
    assert("sample"@.len() == 6);
    reveal_strlit("sampled");
    assert("sampled"@.len() == 7);
    assert("full"@[1] != "fast"@[1]);
    assert("full"@[0] != "none"@[0]);
    assert("all"@[0] != "off"@[0]);
    assert("fast"@[0] != "none"@[0]);
    crate::text::lemma_plain_word("full"@);
    assert(quality_check_for_key("full"@) == Some(QualityCheck::Full));
    crate::text::lemma_plain_word("all"@);
    assert(quality_check_for_key("all"@) == Some(QualityCheck::Full));
    crate::text::lemma_plain_word("every"@);
    assert(quality_check_for_key("every"@) == Some(QualityCheck::Full));
    crate::text::lemma_plain_word("sampled"@);
    assert(quality_check_for_key("sampled"@) == Some(QualityCheck::Sampled));
    crate::text::lemma_plain_word("sample"@);
    assert(quality_check_for_key("sample"@) == Some(QualityCheck::Sampled));
    crate::text::lemma_plain_word("fast"@);
    assert(quality_check_for_key("fast"@) == Some(QualityCheck::Sampled));
    crate::text::lemma_plain_word("off"@);
    assert(quality_check_for_key("off"@) == Some(QualityCheck::Off));
    crate::text::lemma_plain_word("none"@);
    assert(quality_check_for_key("none"@) == Some(QualityCheck::Off));
    crate::text::lemma_plain_word("no"@);
    assert(quality_check_for_key("no"@) == Some(QualityCheck::Off));
    assert forall|v: QualityCheck, i: int| 0 <= i < quality_check_names(v).len() implies #[trigger] parse_quality_check_spec(quality_check_names(v)[i]) == Ok::<QualityCheck, Seq<char>>(v) by {
        match v {
            QualityCheck::Full => {
                if i == 0 {} else if i == 1 {} else {}
            },
            QualityCheck::Sampled => {
                if i == 0 {} else if i == 1 {} else {}
            },
            QualityCheck::Off => {
                if i == 0 {} else if i == 1 {} else {}
            },
        }
    }
    let k = key_of(value);
    assert forall|v: QualityCheck| #[trigger] quality_check_names(v).contains(k) implies parse_quality_check_spec(value) == Ok::<QualityCheck, Seq<char>>(v) by {
        let j = choose|j: int| 0 <= j < quality_check_names(v).len() && quality_check_names(v)[j] == k;
        match v {
            QualityCheck::Full => {
                if j == 0 {} else if j == 1 {} else {}
            },
            QualityCheck::Sampled => {
                if j == 0 {} else if j == 1 {} else {}
            },
            QualityCheck::Off => {
                if j == 0 {} else if j == 1 {} else {}
            },
        }
    }
    if quality_check_for_key(k) is Some {
        if k == "full"@ { assert(quality_check_names(QualityCheck::Full)[0] == k); }
        if k == "all"@ { assert(quality_check_names(QualityCheck::Full)[1] == k); }
        if k == "every"@ { assert(quality_check_names(QualityCheck::Full)[2] == k); }
        if k == "sampled"@ { assert(quality_check_names(QualityCheck::Sampled)[0] == k); }
        if k == "sample"@ { assert(quality_check_names(QualityCheck::Sampled)[1] == k); }
        if k == "fast"@ { assert(quality_check_names(QualityCheck::Sampled)[2] == k); }
        if k == "off"@ { assert(quality_check_names(QualityCheck::Off)[0] == k); }
        if k == "none"@ { assert(quality_check_names(QualityCheck::Off)[1] == k); }
        if k == "no"@ { assert(quality_check_names(QualityCheck::Off)[2] == k); }
    }
}

/// The names an encoder preference goes by, in the order the parser tries them.
pub open spec fn encoder_preference_names(v: EncoderPreference) -> Seq<Seq<char>> {
    match v {
        EncoderPreference::Auto => seq!["auto"@, "balanced"@, "consistency"@, "consistency-priority"@, "consistency_priority"@],
        EncoderPreference::Gpu => seq!["gpu"@, "hardware"@, "hardware-priority"@, "hardware_priority"@],
        EncoderPreference::Cpu => seq!["cpu"@, "software"@],
    }
}

/// Each name of each setting parses to it, in any case and with space
/// around it, and a value parses exactly when, so read, it is one of
/// these names.
pub proof fn encoder_preference_aliases_parse(value: Seq<char>)
    ensures
        forall|v: EncoderPreference, i: int| 0 <= i < encoder_preference_names(v).len() ==> #[trigger] parse_encoder_preference_spec(encoder_preference_names(v)[i]) == Ok::<EncoderPreference, Seq<char>>(v),
        forall|v: EncoderPreference| #[trigger] encoder_preference_names(v).contains(key_of(value)) ==> parse_encoder_preference_spec(value) == Ok::<EncoderPreference, Seq<char>>(v),
        parse_encoder_preference_spec(value) matches Ok(v) ==> encoder_preference_names(v).contains(key_of(value)),
{
    reveal_strlit("auto");
    assert("auto"@.len() == 4);
    reveal_strlit("balanced");
    assert("balanced"@.len() == 8);
    reveal_strlit("consistency");
    assert("consistency"@.len() == 11);
    reveal_strlit("consistency-priority");
    assert("consistency-priority"@.len() == 20);
    reveal_strlit("consistency_priority");
    assert("consistency_priority"@.len() == 20);
    reveal_strlit("cpu");
    assert("cpu"@.len() == 3);
    reveal_strlit("gpu");
    assert("gpu"@.len() == 3);
    reveal_strlit("hardware");
    assert("hardware"@.len() == 8);
    reveal_strlit("hardware-priority");
    assert("hardware-priority"@.len() == 17);
    reveal_strlit("hardware_priority");
    assert("hardware_priority"@.len() == 17);
    reveal_strlit("software");
    assert("software"@.len() == 8);
    assert("balanced"@[0] != "hardware"@[0]);
    assert("balanced"@[0] != "software"@[0]);
    assert("consistency-priority"@[11] != "consistency_priority"@[11]);
    assert("gpu"@[0] != "cpu"@[0]);
    assert("hardware"@[0] != "software"@[0]);
    assert("hardware-priority"@[8] != "hardware_priority"@[8]);
    crate::text::lemma_plain_word("auto"@);
    assert(encoder_preference_for_key("auto"@) == Some(EncoderPreference::Auto));
    crate::text::lemma_plain_word("balanced"@);
    assert(encoder_preference_for_key("balanced"@) == Some(EncoderPreference::Auto));
    crate::text::lemma_plain_word("consistency"@);
    assert(encoder_preference_for_key("consistency"@) == Some(EncoderPreference::Auto));
    crate::text::lemma_plain_word("consistency-priority"@);
    assert(encoder_preference_for_key("consistency-priority"@) == Some(EncoderPreference::Auto));
    crate::text::lemma_plain_word("consistency_priority"@);
    assert(encoder_preference_for_key("consistency_priority"@) == Some(EncoderPreference::Auto));
    crate::text::lemma_plain_word("gpu"@);
    assert(encoder_preference_for_key("gpu"@) == Some(EncoderPreference::Gpu));
    crate::text::lemma_plain_word("hardware"@);
    assert(encoder_preference_for_key("hardware"@) == Some(EncoderPreference::Gpu));
    crate::text::lemma_plain_word("hardware-priority"@);
    assert(encoder_preference_for_key("hardware-priority"@) == Some(EncoderPreference::Gpu));
    crate::text::lemma_plain_word("hardware_priority"@);
    assert(encoder_preference_for_key("hardware_priority"@) == Some(EncoderPreference::Gpu));
    crate::text::lemma_plain_word("cpu"@);
    assert(encoder_preference_for_key("cpu"@) == Some(EncoderPreference::Cpu));
    crate::text::lemma_plain_word("software"@);
    assert(encoder_preference_for_key("software"@) == Some(EncoderPreference::Cpu));
    assert forall|v: EncoderPreference, i: int| 0 <= i < encoder_preference_names(v).len() implies #[trigger] parse_encoder_preference_spec(encoder_preference_names(v)[i]) == Ok::<EncoderPreference, Seq<char>>(v) by {
        match v {
            EncoderPreference::Auto => {
                if i == 0 {} else if i == 1 {} else if i == 2 {} else if i == 3 {} else {}
            },
            EncoderPreference::Gpu => {
                if i == 0 {} else if i == 1 {} else if i == 2 {} else {}
            },
            EncoderPreference::Cpu => {
                if i == 0 {} else {}
            },
        }
    }
    let k = key_of(value);
    assert forall|v: EncoderPreference| #[trigger] encoder_preference_names(v).contains(k) implies parse_encoder_preference_spec(value) == Ok::<EncoderPreference, Seq<char>>(v) by {
        let j = choose|j: int| 0 <= j < encoder_preference_names(v).len() && encoder_preference_names(v)[j] == k;
        match v {
            EncoderPreference::Auto => {
                if j == 0 {} else if j == 1 {} else if j == 2 {} else if j == 3 {} else {}
            },
            EncoderPreference::Gpu => {
                if j == 0 {} else if j == 1 {} else if j == 2 {} else {}
            },
            EncoderPreference::Cpu => {
                if j == 0 {} else {}
            },
        }
    }
    if encoder_preference_for_key(k) is Some {
        if k == "auto"@ { assert(encoder_preference_names(EncoderPreference::Auto)[0] == k); }
        if k == "balanced"@ { assert(encoder_preference_names(EncoderPreference::Auto)[1] == k); }
        if k == "consistency"@ { assert(encoder_preference_names(EncoderPreference::Auto)[2] == k); }
        if k == "consistency-priority"@ { assert(encoder_preference_names(EncoderPreference::Auto)[3] == k); }
        if k == "consistency_priority"@ { assert(encoder_preference_names(EncoderPreference::Auto)[4] == k); }
        if k == "gpu"@ { assert(encoder_preference_names(EncoderPreference::Gpu)[0] == k); }
        if k == "hardware"@ { assert(encoder_preference_names(EncoderPreference::Gpu)[1] == k); }
        if k == "hardware-priority"@ { assert(encoder_preference_names(EncoderPreference::Gpu)[2] == k); }
        if k == "hardware_priority"@ { assert(encoder_preference_names(EncoderPreference::Gpu)[3] == k); }
        if k == "cpu"@ { assert(encoder_preference_names(EncoderPreference::Cpu)[0] == k); }
        if k == "software"@ { assert(encoder_preference_names(EncoderPreference::Cpu)[1] == k); }
    }
}
/// The decoder preferences that are not a method name each parse from every
/// name they go by: `auto`; `gpu` or `hardware`; `cpu`, `software` or
/// `none`; in any case and with space around it.
pub proof fn decoder_preference_aliases_parse(value: Seq<char>)
    ensures
        key_of(value) == "auto"@ ==> parse_decoder_preference_spec(value) == Ok::<DecoderPreference, Seq<char>>(
            DecoderPreference::Auto,
        ),
        key_of(value) == "gpu"@ || key_of(value) == "hardware"@ ==> parse_decoder_preference_spec(value)
            == Ok::<DecoderPreference, Seq<char>>(DecoderPreference::Gpu),
        key_of(value) == "cpu"@ || key_of(value) == "software"@ || key_of(value) == "none"@
            ==> parse_decoder_preference_spec(value) == Ok::<DecoderPreference, Seq<char>>(
            DecoderPreference::Cpu,
        ),
{
    reveal_strlit("auto");
    assert("auto"@.len() == 4);
    reveal_strlit("gpu");
    assert("gpu"@.len() == 3);
    reveal_strlit("hardware");
    assert("hardware"@.len() == 8);
    reveal_strlit("cpu");
    assert("cpu"@.len() == 3);
    reveal_strlit("software");
    assert("software"@.len() == 8);
    reveal_strlit("none");
    assert("none"@.len() == 4);
    assert("cpu"@[0] != "gpu"@[0]);
    assert("none"@[0] != "auto"@[0]);
    assert("software"@[0] != "hardware"@[0]);
}

/// Every codec parses back from its own wire value.
pub proof fn target_codec_round_trip(c: TargetCodec)
    ensures
        parse_target_codec_spec(c.wire_name()) == Ok::<TargetCodec, Seq<char>>(c),
{
    reveal_strlit("av1");
    reveal_strlit("av01");
    reveal_strlit("hevc");
    reveal_strlit("h265");
    reveal_strlit("h.265");
    reveal_strlit("x265");
    reveal_strlit("vvc");
    reveal_strlit("h266");
    reveal_strlit("h.266");
    reveal_strlit("x266");
    lemma_plain_word(c.wire_name());
}

/// Every preservation policy parses back from its own wire value.
pub proof fn preservation_round_trip(p: Preservation)
    ensures
        parse_preservation_spec(p.wire_name()) == Ok::<Preservation, Seq<char>>(p),
{
    reveal_strlit("strict");
    assert("strict"@.len() == 6);
    reveal_strlit("exact");
    assert("exact"@.len() == 5);
    reveal_strlit("flexible");
    assert("flexible"@.len() == 8);
    reveal_strlit("relaxed");
    assert("relaxed"@.len() == 7);
    lemma_plain_word(p.wire_name());
}

/// Every quality mode parses back from its own wire value.
pub proof fn quality_mode_round_trip(m: QualityMode)
    ensures
        parse_quality_mode_spec(m.wire_name()) == Ok::<QualityMode, Seq<char>>(m),
{
    reveal_strlit("search");
    assert("search"@.len() == 6);
    reveal_strlit("vmaf");
    assert("vmaf"@.len() == 4);
    reveal_strlit("measure");
    assert("measure"@.len() == 7);
    reveal_strlit("estimate");
    assert("estimate"@.len() == 8);
    reveal_strlit("fast");
    assert("fast"@.len() == 4);
    reveal_strlit("heuristic");
    assert("heuristic"@.len() == 9);
    lemma_plain_word(m.wire_name());
}

/// Every quality check parses back from its own wire value.
pub proof fn quality_check_round_trip(q: QualityCheck)
    ensures
        parse_quality_check_spec(q.wire_name()) == Ok::<QualityCheck, Seq<char>>(q),
{
    reveal_strlit("full");
    assert("full"@.len() == 4);
    reveal_strlit("all");
    assert("all"@.len() == 3);
    reveal_strlit("every");
    assert("every"@.len() == 5);
    reveal_strlit("sampled");
    assert("sampled"@.len() == 7);
    reveal_strlit("sample");
    assert("sample"@.len() == 6);
    reveal_strlit("fast");
    assert("fast"@.len() == 4);
    reveal_strlit("off");
    assert("off"@.len() == 3);
    reveal_strlit("none");
    assert("none"@.len() == 4);
    reveal_strlit("no");
    assert("no"@.len() == 2);
    assert("off"@[0] != "all"@[0]);
    lemma_plain_word(q.wire_name());
}

/// Every encoder preference parses back from its own wire value.
pub proof fn encoder_preference_round_trip(e: EncoderPreference)
    ensures
        parse_encoder_preference_spec(e.wire_name()) == Ok::<EncoderPreference, Seq<char>>(e),
{
    reveal_strlit("auto");
    assert("auto"@.len() == 4);
    reveal_strlit("balanced");
    assert("balanced"@.len() == 8);
    reveal_strlit("consistency");
    assert("consistency"@.len() == 11);
    reveal_strlit("consistency-priority");
    assert("consistency-priority"@.len() == 20);
    reveal_strlit("consistency_priority");
    assert("consistency_priority"@.len() == 20);
    reveal_strlit("gpu");
    assert("gpu"@.len() == 3);
    reveal_strlit("hardware");
    assert("hardware"@.len() == 8);
    reveal_strlit("hardware-priority");
    assert("hardware-priority"@.len() == 17);
    reveal_strlit("hardware_priority");
    assert("hardware_priority"@.len() == 17);
    reveal_strlit("cpu");
    assert("cpu"@.len() == 3);
    reveal_strlit("software");
    assert("software"@.len() == 8);
    assert("cpu"@[0] != "gpu"@[0]);
    lemma_plain_word(e.wire_name());
}

/// Every decoder preference, each explicit method included, parses back from
/// its own wire value.
pub proof fn decoder_preference_round_trip(d: DecoderPreference)
    ensures
        parse_decoder_preference_spec(d.wire_name()) == Ok::<DecoderPreference, Seq<char>>(d),
{
    reveal_strlit("auto");
    assert("auto"@.len() == 4);
    reveal_strlit("gpu");
    assert("gpu"@.len() == 3);
    reveal_strlit("hardware");
    assert("hardware"@.len() == 8);
    reveal_strlit("cpu");
    assert("cpu"@.len() == 3);
    reveal_strlit("software");
    assert("software"@.len() == 8);
    reveal_strlit("none");
    assert("none"@.len() == 4);
    reveal_strlit("d3d11va");
    assert("d3d11va"@.len() == 7);
    reveal_strlit("d3d12va");
    assert("d3d12va"@.len() == 7);
    reveal_strlit("dxva2");
    assert("dxva2"@.len() == 5);
    reveal_strlit("cuda");
    assert("cuda"@.len() == 4);
    reveal_strlit("qsv");
    assert("qsv"@.len() == 3);
    reveal_strlit("vaapi");
    assert("vaapi"@.len() == 5);
    reveal_strlit("videotoolbox");
    assert("videotoolbox"@.len() == 12);
    reveal_strlit("mediacodec");
    assert("mediacodec"@.len() == 10);
    reveal_strlit("vulkan");
    assert("vulkan"@.len() == 6);
    assert("cpu"@[0] != "gpu"@[0]);
    assert("qsv"@[0] != "gpu"@[0]);
    assert("qsv"@[0] != "cpu"@[0]);
    assert("cuda"@[0] != "auto"@[0]);
    assert("cuda"@[0] != "none"@[0]);
    lemma_plain_word(d.wire_name());
    if let DecoderPreference::Method(m) = d {
        lemma_hw_accel_named(m);
    }
}

} // verus!
