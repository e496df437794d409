//! What a run is asked to do, and what it reports back.
use vstd::prelude::*;
use crate::options::{
    err_view, is_unset, is_unset_choice, key_of, DEFAULT_QUALITY_TARGET, DEFAULT_REVIEW_MARGIN,
    EncoderPreference, Preservation, QualityCheck, QualityMode, TargetCodec,
};
use crate::json::{json_quoted, json_string};
use crate::text::{copy_str, decimal, decimal_string, join3, lemma_plain_word, option_key, str_eq};

verus! {

/// The container a converted file is written in.
#[derive(Debug, Clone, Copy, PartialEq, Eq, Structural)]
pub enum OutputFormat {
    /// Always MP4.
    Mp4,
    /// MP4, or MKV when a stream cannot go in an MP4.
    MkvFallback,
}

impl Default for OutputFormat {
    fn default() -> (r: Self)
        ensures
            r == OutputFormat::Mp4,
    {
        OutputFormat::Mp4
    }
}

impl OutputFormat {
    pub open spec fn wire_name(self) -> Seq<char> {
        match self {
            OutputFormat::Mp4 => "mp4"@,
            OutputFormat::MkvFallback => "mkv-fallback"@,
        }
    }

    pub open spec fn label_text(self) -> Seq<char> {
        match self {
            OutputFormat::Mp4 => "MP4 output"@,
            OutputFormat::MkvFallback => "MP4 with MKV fallback"@,
        }
    }

    /// Maps an output format to its stable wire value.
    pub fn as_str(&self) -> (r: &'static str)
        ensures
            r@ == self.wire_name(),
    {
        match self {
            OutputFormat::Mp4 => "mp4",
            OutputFormat::MkvFallback => "mkv-fallback",
        }
    }

    /// Maps an output format to its human-readable log label.
    pub fn label(&self) -> (r: &'static str)
        ensures
            r@ == self.label_text(),
    {
        match self {
            OutputFormat::Mp4 => "MP4 output",
            OutputFormat::MkvFallback => "MP4 with MKV fallback",
        }
    }
}

pub open spec fn output_format_for_key(k: Seq<char>) -> Option<OutputFormat> {
    if k == "mp4"@ {
        Some(OutputFormat::Mp4)
    } else if k == "mkv-fallback"@ || k == "mkv_fallback"@ || k == "mkvfallback"@ {
        Some(OutputFormat::MkvFallback)
    } else {
        None
    }
}

pub open spec fn parse_output_format_spec(value: Seq<char>) -> Result<OutputFormat, Seq<char>> {
    let k = key_of(value);
    match output_format_for_key(k) {
        Some(f) => Ok(f),
        None => Err("invalid output format: "@ + k + ". Supported values: mp4, mkv-fallback"@),
    }
}

pub open spec fn normalize_output_format_spec(value: Seq<char>) -> Result<
    Option<OutputFormat>,
    Seq<char>,
> {
    if is_unset(value) {
        Ok(None)
    } else {
        match parse_output_format_spec(value) {
            Ok(f) => Ok(Some(f)),
            Err(e) => Err(e),
        }
    }
}

/// Parses an output-format wire value.
pub fn parse_output_format(value: &str) -> (r: Result<OutputFormat, String>)
    ensures
        err_view(r) == parse_output_format_spec(value@),
{
    let key = option_key(value);
    let k = key.as_str();
    if str_eq(k, "mp4") {
        Ok(OutputFormat::Mp4)
    } else if str_eq(k, "mkv-fallback") || str_eq(k, "mkv_fallback") || str_eq(k, "mkvfallback") {
        Ok(OutputFormat::MkvFallback)
    } else {
        Err(join3("invalid output format: ", k, ". Supported values: mp4, mkv-fallback"))
    }
}

/// Normalizes an optional output-format value: blank, `auto` and `default`
/// mean "not set".
pub fn normalize_output_format_choice(value: &str) -> (r: Result<Option<OutputFormat>, String>)
    ensures
        err_view(r) == normalize_output_format_spec(value@),
{
    if is_unset_choice(value) {
        Ok(None)
    } else {
        match parse_output_format(value) {
            Ok(f) => Ok(Some(f)),
            Err(e) => Err(e),
        }
    }
}

/// Every output format parses back from its own wire value.
pub proof fn output_format_round_trip(f: OutputFormat)
    ensures
        parse_output_format_spec(f.wire_name()) == Ok::<OutputFormat, Seq<char>>(f),
{
    reveal_strlit("mp4");
    reveal_strlit("mkv-fallback");
    reveal_strlit("mkv_fallback");
    reveal_strlit("mkvfallback");
    assert("mp4"@.len() == 3);
    assert("mkv-fallback"@.len() == 12);
    lemma_plain_word(f.wire_name());
}

/// The settings of one run.
#[derive(Debug, Clone, PartialEq, Eq)]
pub struct RunOptions {
    pub target_folder: String,
    /// How many files to convert at most; -1 means all of them.
    pub count: isize,
    pub keep_original: bool,
    pub dry_run: bool,
    pub ffmpeg: String,
    pub ffprobe: String,
    pub tmp_dir: Option<String>,
    pub encoder: Option<String>,
    pub encoder_preference: EncoderPreference,
    pub output_format: OutputFormat,
    pub target_codec: TargetCodec,
    pub preservation: Preservation,
    pub quality_mode: QualityMode,
    pub quality_check: QualityCheck,
    /// Quality target as a VMAF score in hundredths, for example 9500 for 95.0.
    pub quality_target: u32,
    /// How far below the target a result may land before it goes to review,
    /// also in hundredths.
    pub review_margin: u32,
    /// Worker threads for quality measurement. Zero means "match the machine".
    pub quality_threads: u32,
}

impl RunOptions {
    /// The default settings for a folder, run with the given tools.
    pub fn with_tools(target_folder: String, ffmpeg: String, ffprobe: String) -> (r: Self)
        ensures
            r.target_folder@ == target_folder@,
            r.ffmpeg@ == ffmpeg@,
            r.ffprobe@ == ffprobe@,
            r.count == -1,
            r.keep_original,
            !r.dry_run,
            r.tmp_dir is None,
            r.encoder is None,
            r.encoder_preference == EncoderPreference::Auto,
            r.output_format == OutputFormat::Mp4,
            r.target_codec == TargetCodec::Av1,
            r.preservation == Preservation::Flexible,
            r.quality_mode == QualityMode::Search,
            r.quality_check == QualityCheck::Sampled,
            r.quality_target == DEFAULT_QUALITY_TARGET,
            r.review_margin == DEFAULT_REVIEW_MARGIN,
            r.quality_threads == 0,
    {
        RunOptions {
            target_folder,
            count: -1,
            keep_original: true,
            dry_run: false,
            ffmpeg,
            ffprobe,
            tmp_dir: None,
            encoder: None,
            encoder_preference: EncoderPreference::Auto,
            output_format: OutputFormat::Mp4,
            target_codec: TargetCodec::Av1,
            preservation: Preservation::Flexible,
            quality_mode: QualityMode::Search,
            quality_check: QualityCheck::Sampled,
            quality_target: DEFAULT_QUALITY_TARGET,
            review_margin: DEFAULT_REVIEW_MARGIN,
            quality_threads: 0,
        }
    }

    /// The score below which a result must be reviewed, in hundredths: the
    /// target less the margin, and never below zero.
    pub fn review_threshold(&self) -> (r: u32)
        ensures
            r == (if self.quality_target >= self.review_margin {
                (self.quality_target - self.review_margin) as u32
            } else {
                0u32
            }),
            r <= self.quality_target,
    {
        self.quality_target.saturating_sub(self.review_margin)
    }
}

/// Checks run options before anything is touched: the count must be -1 or
/// greater, and the target folder must be a directory (`folder_is_dir`, as the
/// caller found it on disk).
pub fn validate_run_options(options: &RunOptions, folder_is_dir: bool) -> (r: Result<(), String>)
    ensures
        options.count < -1 ==> (r matches Err(e) && e@ == "count must be -1 or greater"@),
        options.count >= -1 && !folder_is_dir ==> (r matches Err(e) && e@
            == "target folder does not exist or is not a directory: "@ + options.target_folder@),
        options.count >= -1 && folder_is_dir ==> r is Ok,
{
    if options.count < -1 {
        return Err(copy_str("count must be -1 or greater"));
    }
    if !folder_is_dir {
        return Err(
            crate::text::join2(
                "target folder does not exist or is not a directory: ",
                options.target_folder.as_str(),
            ),
        );
    }
    Ok(())
}

/// What a run did, counted.
#[derive(Debug, Clone, Copy, Default, PartialEq, Eq)]
pub struct RunSummary {
    pub converted: usize,
    pub skipped: usize,
    pub failed: usize,
    pub source_bytes: u64,
    pub output_bytes: u64,
}

impl RunSummary {
    /// Conversions attempted: files converted plus files that failed.
    pub fn conversion_attempts(&self) -> (r: usize)
        requires
            self.converted + self.failed <= usize::MAX,
        ensures
            r == self.converted + self.failed,
    {
        self.converted + self.failed
    }
}

/// One file a dry run would convert, and where the result would go.
#[derive(Debug, Clone, PartialEq, Eq)]
pub struct CandidatePreview {
    pub input_path: String,
    pub output_path: String,
}

#[derive(Debug, Clone, Copy, PartialEq, Eq, Structural)]
pub enum LogLevel {
    Info,
    Warning,
    Error,
}

#[derive(Debug, Clone, Copy, PartialEq, Eq, Structural)]
pub enum FileStatus {
    Converted,
    Failed,
}

pub open spec fn log_level_name(level: LogLevel) -> Seq<char> {
    match level {
        LogLevel::Info => "info"@,
        LogLevel::Warning => "warning"@,
        LogLevel::Error => "error"@,
    }
}

/// Maps a log level to its JSON label.
pub fn log_level_label(level: LogLevel) -> (r: &'static str)
    ensures
        r@ == log_level_name(level),
{
    match level {
        LogLevel::Info => "info",
        LogLevel::Warning => "warning",
        LogLevel::Error => "error",
    }
}

/// Maps a file status to its JSON label.
pub fn file_status_label(status: FileStatus) -> (r: &'static str)
    ensures
        r@ == (match status {
            FileStatus::Converted => "converted"@,
            FileStatus::Failed => "failed"@,
        }),
{
    match status {
        FileStatus::Converted => "converted",
        FileStatus::Failed => "failed",
    }
}

fn append_number(out: &mut String, n: u64)
    ensures
        final(out)@ == old(out)@ + decimal(n as nat),
{
    let d = decimal_string(n);
    out.append(d.as_str());
}

/// A run summary as a JSON object.
pub open spec fn summary_text(summary: RunSummary) -> Seq<char> {
    "{\"converted\":"@ + decimal(summary.converted as nat) + ",\"skipped\":"@ + decimal(
        summary.skipped as nat,
    ) + ",\"failed\":"@ + decimal(summary.failed as nat) + ",\"source_bytes\":"@ + decimal(
        summary.source_bytes as nat,
    ) + ",\"output_bytes\":"@ + decimal(summary.output_bytes as nat) + "}"@
}

/// Serializes a run summary as a JSON object.
pub fn summary_json(summary: &RunSummary) -> (r: String)
    ensures
        r@ == summary_text(*summary),
{
    let mut out = copy_str("{\"converted\":");
    append_number(&mut out, summary.converted as u64);
    out.append(",\"skipped\":");
    append_number(&mut out, summary.skipped as u64);
    out.append(",\"failed\":");
    append_number(&mut out, summary.failed as u64);
    out.append(",\"source_bytes\":");
    append_number(&mut out, summary.source_bytes);
    out.append(",\"output_bytes\":");
    append_number(&mut out, summary.output_bytes);
    out.append("}");
    out
}

/// A dry-run candidate as a JSON object.
pub open spec fn candidate_text(candidate: CandidatePreview) -> Seq<char> {
    "{\"input_path\":"@ + json_quoted(candidate.input_path@) + ",\"output_path\":"@ + json_quoted(
        candidate.output_path@,
    ) + "}"@
}

/// Serializes a dry-run candidate as a JSON object.
pub fn candidate_json(candidate: &CandidatePreview) -> (r: String)
    ensures
        r@ == candidate_text(*candidate),
{
    let mut out = copy_str("{\"input_path\":");
    let a = json_string(candidate.input_path.as_str());
    out.append(a.as_str());
    out.append(",\"output_path\":");
    let b = json_string(candidate.output_path.as_str());
    out.append(b.as_str());
    out.append("}");
    out
}

/// The names an output format goes by, in the order the parser tries them.
pub open spec fn output_format_names(v: OutputFormat) -> Seq<Seq<char>> {
    match v {
        OutputFormat::Mp4 => seq!["mp4"@],
        OutputFormat::MkvFallback => seq!["mkv-fallback"@, "mkv_fallback"@, "mkvfallback"@],
    }
}

/// Each name of each setting parses to it, in any case and with space
/// around it, and a value parses exactly when, so read, it is one of
/// these names.
pub proof fn output_format_aliases_parse(value: Seq<char>)
    ensures
        forall|v: OutputFormat, i: int| 0 <= i < output_format_names(v).len() ==> #[trigger] parse_output_format_spec(output_format_names(v)[i]) == Ok::<OutputFormat, Seq<char>>(v),
        forall|v: OutputFormat| #[trigger] output_format_names(v).contains(key_of(value)) ==> parse_output_format_spec(value) == Ok::<OutputFormat, Seq<char>>(v),
        parse_output_format_spec(value) matches Ok(v) ==> output_format_names(v).contains(key_of(value)),
{
    reveal_strlit("mkv-fallback");
    assert("mkv-fallback"@.len() == 12);
    reveal_strlit("mkv_fallback");
    assert("mkv_fallback"@.len() == 12);
    reveal_strlit("mkvfallback");
    assert("mkvfallback"@.len() == 11);
    reveal_strlit("mp4");
    assert("mp4"@.len() == 3);
    assert("mkv-fallback"@[3] != "mkv_fallback"@[3]);
    crate::text::lemma_plain_word("mp4"@);
    assert(output_format_for_key("mp4"@) == Some(OutputFormat::Mp4));
    crate::text::lemma_plain_word("mkv-fallback"@);
    assert(output_format_for_key("mkv-fallback"@) == Some(OutputFormat::MkvFallback));
    crate::text::lemma_plain_word("mkv_fallback"@);
    assert(output_format_for_key("mkv_fallback"@) == Some(OutputFormat::MkvFallback));
    crate::text::lemma_plain_word("mkvfallback"@);
    assert(output_format_for_key("mkvfallback"@) == Some(OutputFormat::MkvFallback));
    assert forall|v: OutputFormat, i: int| 0 <= i < output_format_names(v).len() implies #[trigger] parse_output_format_spec(output_format_names(v)[i]) == Ok::<OutputFormat, Seq<char>>(v) by {
        match v {
            OutputFormat::Mp4 => {
                {}
            },
            OutputFormat::MkvFallback => {
                if i == 0 {} else if i == 1 {} else {}
            },
        }
    }
    let k = key_of(value);
    assert forall|v: OutputFormat| #[trigger] output_format_names(v).contains(k) implies parse_output_format_spec(value) == Ok::<OutputFormat, Seq<char>>(v) by {
        let j = choose|j: int| 0 <= j < output_format_names(v).len() && output_format_names(v)[j] == k;
        match v {
            OutputFormat::Mp4 => {
                {}
            },
            OutputFormat::MkvFallback => {
                if j == 0 {} else if j == 1 {} else {}
            },
        }
    }
    if output_format_for_key(k) is Some {
        if k == "mp4"@ { assert(output_format_names(OutputFormat::Mp4)[0] == k); }
        if k == "mkv-fallback"@ { assert(output_format_names(OutputFormat::MkvFallback)[0] == k); }
        if k == "mkv_fallback"@ { assert(output_format_names(OutputFormat::MkvFallback)[1] == k); }
        if k == "mkvfallback"@ { assert(output_format_names(OutputFormat::MkvFallback)[2] == k); }
    }
}
/// The conversion limit a count sets: none for -1 (or any negative count).
pub open spec fn limit_of(count: isize) -> Option<usize> {
    if count >= 0 {
        Some(count as usize)
    } else {
        None
    }
}

/// The conversion limit a count sets.
pub fn conversion_limit(count: isize) -> (r: Option<usize>)
    ensures
        r == limit_of(count),
{
    if count >= 0 {
        Some(count as usize)
    } else {
        None
    }
}

/// Whether a run that has made `attempts` conversion attempts has used up its
/// count.
pub fn conversion_limit_reached(count: isize, attempts: usize) -> (r: bool)
    ensures
        r == (count >= 0 && attempts >= count),
{
    match conversion_limit(count) {
        Some(limit) => attempts >= limit,
        None => false,
    }
}

/// Once a run has used up its count it stays used up; a run without a count
/// never does.
pub proof fn limit_reached_is_monotone(count: isize, a: usize, b: usize)
    requires
        a <= b,
    ensures
        (count >= 0 && a >= count) ==> (count >= 0 && b >= count),
        count < 0 ==> !(count >= 0 && b >= count),
{
}

/// A note for a run that asked for more conversions than there were eligible
/// videos; none otherwise.
pub fn count_limit_info(count: isize, eligible_count: usize) -> (r: Option<String>)
    ensures
        count >= 0 && count > eligible_count ==> (r matches Some(m) && m@ == "Info: requested "@
            + decimal(count as nat) + " conversion(s), only "@ + decimal(eligible_count as nat)
            + " eligible video(s) need conversion."@),
        !(count >= 0 && count > eligible_count) ==> r is None,
{
    if count >= 0 && count as usize > eligible_count {
        let mut out = copy_str("Info: requested ");
        append_number(&mut out, count as u64);
        out.append(" conversion(s), only ");
        append_number(&mut out, eligible_count as u64);
        out.append(" eligible video(s) need conversion.");
        Some(out)
    } else {
        None
    }
}

/// A note for a dry run that asked for more conversions than there were
/// candidate files; none otherwise.
pub fn count_candidate_info(count: isize, candidate_count: usize) -> (r: Option<String>)
    ensures
        count >= 0 && count > candidate_count ==> (r matches Some(m) && m@ == "Info: requested "@
            + decimal(count as nat) + " conversion(s), only "@ + decimal(candidate_count as nat)
            + " candidate video file(s) were found before probing."@),
        !(count >= 0 && count > candidate_count) ==> r is None,
{
    if count >= 0 && count as usize > candidate_count {
        let mut out = copy_str("Info: requested ");
        append_number(&mut out, count as u64);
        out.append(" conversion(s), only ");
        append_number(&mut out, candidate_count as u64);
        out.append(" candidate video file(s) were found before probing.");
        Some(out)
    } else {
        None
    }
}

} // verus!
