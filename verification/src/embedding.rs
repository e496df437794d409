//! Run options handed over by an embedding application.
//!
//! An embedding front end passes a versioned options struct whose first two
//! fields are always its ABI version and its size. The caller reads the
//! struct's strings (each is absent when its pointer is null or the string
//! is empty, and an error when it is not UTF-8); this module checks the
//! header and turns the fields into run options, with a blank setting
//! meaning that setting's default.
use vstd::prelude::*;
use crate::config::{encoder_choice, normalize_encoder_choice};
use crate::options::{
    normalize_encoder_preference_choice, normalize_encoder_preference_spec,
    normalize_preservation_choice, normalize_preservation_spec, normalize_quality_check_choice,
    normalize_quality_check_spec, normalize_quality_mode_choice, normalize_quality_mode_spec,
    normalize_target_codec_choice, normalize_target_codec_spec, validate_quality_target,
    EncoderPreference, Preservation, QualityCheck, QualityMode, TargetCodec, DEFAULT_QUALITY_TARGET,
    DEFAULT_REVIEW_MARGIN, MAX_QUALITY_TARGET, MIN_QUALITY_TARGET,
};
use crate::run::{normalize_output_format_choice, normalize_output_format_spec, OutputFormat, RunOptions};
use crate::text::{copy_str, decimal, decimal_string, join2};

verus! {

/// The newest embedding ABI version this library offers.
pub const MYVIDCOMP_FFI_ABI_VERSION: u32 = 1;

/// The ABI version of the first options struct.
pub const RUN_OPTIONS_V1_ABI_VERSION: u32 = 1;

/// Why an options header is refused: the version must be 1, and the struct
/// at least as large as version 1's (`expected_size` bytes).
pub open spec fn header_error(abi_version: u32, struct_size: u32, expected_size: u32) -> Option<Seq<char>> {
    if abi_version != 1 {
        Some("unsupported FFI ABI version "@ + decimal(abi_version as nat)
            + "; myvidcomp_run_blocking_v1 requires version 1"@)
    } else if struct_size < expected_size {
        Some("FFI options struct is too small: "@ + decimal(struct_size as nat) + " < "@ + decimal(
            expected_size as nat,
        ))
    } else {
        None
    }
}

/// Checks an options header before any other field is read; see
/// `header_error`.
pub fn check_options_header(abi_version: u32, struct_size: u32, expected_size: u32) -> (r: Result<(), String>)
    ensures
        match header_error(abi_version, struct_size, expected_size) {
            Some(e) => r matches Err(m) && m@ == e,
            None => r is Ok,
        },
{
    if abi_version != RUN_OPTIONS_V1_ABI_VERSION {
        let mut out = join2("unsupported FFI ABI version ", decimal_string(abi_version as u64).as_str());
        out.append("; myvidcomp_run_blocking_v1 requires version 1");
        return Err(out);
    }
    if struct_size < expected_size {
        let mut out = join2("FFI options struct is too small: ", decimal_string(struct_size as u64).as_str());
        out.append(" < ");
        let e = decimal_string(expected_size as u64);
        out.append(e.as_str());
        return Err(out);
    }
    Ok(())
}

/// The fields of a version-1 options struct, with its strings read.
pub struct EmbeddedOptions {
    pub target_folder: Result<Option<String>, String>,
    pub ffmpeg: Result<Option<String>, String>,
    pub ffprobe: Result<Option<String>, String>,
    pub tmp_dir: Result<Option<String>, String>,
    pub encoder: Result<Option<String>, String>,
    pub encoder_preference: Result<Option<String>, String>,
    pub output_format: Result<Option<String>, String>,
    pub target_codec: Result<Option<String>, String>,
    pub preservation: Result<Option<String>, String>,
    pub quality_mode: Result<Option<String>, String>,
    pub quality_check: Result<Option<String>, String>,
    pub count: i64,
    /// Quality target in hundredths; zero selects the default.
    pub quality_target: u32,
    /// Review margin in hundredths; zero selects the default.
    pub review_margin: u32,
    pub quality_threads: u32,
    pub keep_original: u8,
    pub dry_run: u8,
}

/// One string field, read as characters.
pub open spec fn text_field(f: Result<Option<String>, String>) -> Result<Option<Seq<char>>, Seq<char>> {
    match f {
        Ok(Some(s)) => Ok(Some(s@)),
        Ok(None) => Ok(None),
        Err(e) => Err(e@),
    }
}

/// A field that must be given.
pub open spec fn required(f: Result<Option<Seq<char>>, Seq<char>>, name: Seq<char>) -> Result<Seq<char>, Seq<char>> {
    match f {
        Ok(Some(t)) => Ok(t),
        Ok(None) => Err(name + " is required"@),
        Err(e) => Err(e),
    }
}

/// A field that falls back to `d` when it is not given.
pub open spec fn or_given(f: Result<Option<Seq<char>>, Seq<char>>, d: Seq<char>) -> Result<Seq<char>, Seq<char>> {
    match f {
        Ok(Some(t)) => Ok(t),
        Ok(None) => Ok(d),
        Err(e) => Err(e),
    }
}

/// A choice field: absent, or a value its parser reads as "not set", means
/// the default `d`.
pub open spec fn choice<T>(
    f: Result<Option<Seq<char>>, Seq<char>>,
    parse: spec_fn(Seq<char>) -> Result<Option<T>, Seq<char>>,
    d: T,
) -> Result<T, Seq<char>> {
    match f {
        Err(e) => Err(e),
        Ok(None) => Ok(d),
        Ok(Some(t)) => match parse(t) {
            Err(e) => Err(e),
            Ok(None) => Ok(d),
            Ok(Some(v)) => Ok(v),
        },
    }
}

/// The quality target: zero selects the default, anything else must be a
/// valid target.
pub open spec fn target_of(q: u32) -> Result<u32, Seq<char>> {
    if q == 0 {
        Ok(DEFAULT_QUALITY_TARGET)
    } else if MIN_QUALITY_TARGET <= q <= MAX_QUALITY_TARGET {
        Ok(q)
    } else {
        Err("quality target must be between 50 and 100"@)
    }
}

/// The count as a platform integer.
pub open spec fn count_of(count: i64) -> Result<isize, Seq<char>> {
    if isize::MIN <= count <= isize::MAX {
        Ok(count as isize)
    } else {
        Err("count is out of range for this platform: "@ + signed_decimal(count as int))
    }
}

/// An integer in decimal, with a minus sign when negative.
pub open spec fn signed_decimal(n: int) -> Seq<char> {
    if n < 0 {
        "-"@ + decimal((-n) as nat)
    } else {
        decimal(n as nat)
    }
}

/// Run options read as plain values.
pub struct OptionsModel {
    pub target_folder: Seq<char>,
    pub count: isize,
    pub keep_original: bool,
    pub dry_run: bool,
    pub ffmpeg: Seq<char>,
    pub ffprobe: Seq<char>,
    pub tmp_dir: Option<Seq<char>>,
    pub encoder: Option<Seq<char>>,
    pub encoder_preference: EncoderPreference,
    pub output_format: OutputFormat,
    pub target_codec: TargetCodec,
    pub preservation: Preservation,
    pub quality_mode: QualityMode,
    pub quality_check: QualityCheck,
    pub quality_target: u32,
    pub review_margin: u32,
    pub quality_threads: u32,
}

/// Run options read as plain values.
pub open spec fn options_model(o: RunOptions) -> OptionsModel {
    OptionsModel {
        target_folder: o.target_folder@,
        count: o.count,
        keep_original: o.keep_original,
        dry_run: o.dry_run,
        ffmpeg: o.ffmpeg@,
        ffprobe: o.ffprobe@,
        tmp_dir: match o.tmp_dir {
            Some(s) => Some(s@),
            None => None,
        },
        encoder: match o.encoder {
            Some(s) => Some(s@),
            None => None,
        },
        encoder_preference: o.encoder_preference,
        output_format: o.output_format,
        target_codec: o.target_codec,
        preservation: o.preservation,
        quality_mode: o.quality_mode,
        quality_check: o.quality_check,
        quality_target: o.quality_target,
        review_margin: o.review_margin,
        quality_threads: o.quality_threads,
    }
}

/// The encoder field: absent, or "auto", means no particular encoder.
pub open spec fn encoder_field(f: Result<Option<Seq<char>>, Seq<char>>) -> Result<Option<Seq<char>>, Seq<char>> {
    match f {
        Err(e) => Err(e),
        Ok(None) => Ok(None),
        Ok(Some(t)) => Ok(encoder_choice(t)),
    }
}

pub open spec fn err_of<T>(r: Result<T, Seq<char>>) -> Seq<char> {
    match r {
        Err(e) => e,
        Ok(_) => Seq::empty(),
    }
}

/// What a set of fields gives: the first refused field's error, in the
/// order quality target, folder, count, ffmpeg, ffprobe, temporary folder,
/// encoder, encoder preference, output format, codec, preservation,
/// quality mode and quality check; else the options. `ffmpeg` and `ffprobe`
/// are the tools to use when the fields name none.
pub open spec fn embedded_outcome(
    f: EmbeddedOptions,
    ffmpeg: Seq<char>,
    ffprobe: Seq<char>,
) -> Result<OptionsModel, Seq<char>> {
    let target = target_of(f.quality_target);
    let folder = required(text_field(f.target_folder), "target_folder"@);
    let count = count_of(f.count);
    let mpeg = or_given(text_field(f.ffmpeg), ffmpeg);
    let probe = or_given(text_field(f.ffprobe), ffprobe);
    let tmp = text_field(f.tmp_dir);
    let encoder = encoder_field(text_field(f.encoder));
    let preference = choice(
        text_field(f.encoder_preference),
        |t: Seq<char>| normalize_encoder_preference_spec(t),
        EncoderPreference::Auto,
    );
    let format = choice(
        text_field(f.output_format),
        |t: Seq<char>| normalize_output_format_spec(t),
        OutputFormat::Mp4,
    );
    let codec = choice(
        text_field(f.target_codec),
        |t: Seq<char>| normalize_target_codec_spec(t),
        TargetCodec::Av1,
    );
    let preservation = choice(
        text_field(f.preservation),
        |t: Seq<char>| normalize_preservation_spec(t),
        Preservation::Flexible,
    );
    let mode = choice(
        text_field(f.quality_mode),
        |t: Seq<char>| normalize_quality_mode_spec(t),
        QualityMode::Search,
    );
    let check = choice(
        text_field(f.quality_check),
        |t: Seq<char>| normalize_quality_check_spec(t),
        QualityCheck::Sampled,
    );
    if target is Err {
        Err(err_of(target))
    } else if folder is Err {
        Err(err_of(folder))
    } else if count is Err {
        Err(err_of(count))
    } else if mpeg is Err {
        Err(err_of(mpeg))
    } else if probe is Err {
        Err(err_of(probe))
    } else if tmp is Err {
        Err(err_of(tmp))
    } else if encoder is Err {
        Err(err_of(encoder))
    } else if preference is Err {
        Err(err_of(preference))
    } else if format is Err {
        Err(err_of(format))
    } else if codec is Err {
        Err(err_of(codec))
    } else if preservation is Err {
        Err(err_of(preservation))
    } else if mode is Err {
        Err(err_of(mode))
    } else if check is Err {
        Err(err_of(check))
    } else {
        Ok(
            OptionsModel {
                target_folder: folder->Ok_0,
                count: count->Ok_0,
                keep_original: f.keep_original != 0,
                dry_run: f.dry_run != 0,
                ffmpeg: mpeg->Ok_0,
                ffprobe: probe->Ok_0,
                tmp_dir: tmp->Ok_0,
                encoder: encoder->Ok_0,
                encoder_preference: preference->Ok_0,
                output_format: format->Ok_0,
                target_codec: codec->Ok_0,
                preservation: preservation->Ok_0,
                quality_mode: mode->Ok_0,
                quality_check: check->Ok_0,
                quality_target: target->Ok_0,
                review_margin: if f.review_margin == 0 {
                    DEFAULT_REVIEW_MARGIN
                } else {
                    f.review_margin
                },
                quality_threads: f.quality_threads,
            },
        )
    }
}

fn signed_decimal_string(n: i64) -> (r: String)
    ensures
        r@ == signed_decimal(n as int),
{
    if n < 0 {
        let magnitude: u64 = ((-(n + 1)) as u64) + 1;
        join2("-", decimal_string(magnitude).as_str())
    } else {
        decimal_string(n as u64)
    }
}

fn read_required(f: Result<Option<String>, String>, name: &str) -> (r: Result<String, String>)
    ensures
        match required(text_field(f), name@) {
            Ok(t) => r matches Ok(s) && s@ == t,
            Err(e) => r matches Err(m) && m@ == e,
        },
{
    match f {
        Ok(Some(s)) => Ok(s),
        Ok(None) => Err(join2(name, " is required")),
        Err(e) => Err(e),
    }
}

fn read_or(f: Result<Option<String>, String>, d: String) -> (r: Result<String, String>)
    ensures
        match or_given(text_field(f), d@) {
            Ok(t) => r matches Ok(s) && s@ == t,
            Err(e) => r matches Err(m) && m@ == e,
        },
{
    match f {
        Ok(Some(s)) => Ok(s),
        Ok(None) => Ok(d),
        Err(e) => Err(e),
    }
}

fn read_count(count: i64) -> (r: Result<isize, String>)
    ensures
        match count_of(count) {
            Ok(c) => r == Ok::<isize, String>(c),
            Err(e) => r matches Err(m) && m@ == e,
        },
{
    if (isize::MIN as i64) <= count && count <= (isize::MAX as i64) {
        Ok(count as isize)
    } else {
        Err(join2("count is out of range for this platform: ", signed_decimal_string(count).as_str()))
    }
}

/// Turns the fields of a version-1 options struct into run options; see
/// `embedded_outcome`. `default_ffmpeg` and `default_ffprobe` are the tools
/// to use when the fields name none.
pub fn run_options_from_fields(
    fields: EmbeddedOptions,
    default_ffmpeg: String,
    default_ffprobe: String,
) -> (r: Result<RunOptions, String>)
    ensures
        match embedded_outcome(fields, default_ffmpeg@, default_ffprobe@) {
            Ok(m) => r matches Ok(o) && options_model(o) == m,
            Err(e) => r matches Err(msg) && msg@ == e,
        },
{
    let ghost f = fields;
    let quality_target = if fields.quality_target == 0 {
        DEFAULT_QUALITY_TARGET
    } else {
        match validate_quality_target(fields.quality_target) {
            Ok(q) => q,
            Err(e) => return Err(e),
        }
    };
    let review_margin = if fields.review_margin == 0 {
        DEFAULT_REVIEW_MARGIN
    } else {
        fields.review_margin
    };
    let target_folder = match read_required(fields.target_folder, "target_folder") {
        Ok(t) => t,
        Err(e) => return Err(e),
    };
    let count = match read_count(fields.count) {
        Ok(c) => c,
        Err(e) => return Err(e),
    };
    let ffmpeg = match read_or(fields.ffmpeg, default_ffmpeg) {
        Ok(t) => t,
        Err(e) => return Err(e),
    };
    let ffprobe = match read_or(fields.ffprobe, default_ffprobe) {
        Ok(t) => t,
        Err(e) => return Err(e),
    };
    let tmp_dir = match fields.tmp_dir {
        Ok(t) => t,
        Err(e) => return Err(e),
    };
    let encoder = match fields.encoder {
        Ok(Some(t)) => normalize_encoder_choice(t.as_str()),
        Ok(None) => None,
        Err(e) => return Err(e),
    };
    let encoder_preference = match fields.encoder_preference {
        Ok(Some(t)) => match normalize_encoder_preference_choice(t.as_str()) {
            Ok(Some(v)) => v,
            Ok(None) => EncoderPreference::Auto,
            Err(e) => return Err(e),
        },
        Ok(None) => EncoderPreference::Auto,
        Err(e) => return Err(e),
    };
    let output_format = match fields.output_format {
        Ok(Some(t)) => match normalize_output_format_choice(t.as_str()) {
            Ok(Some(v)) => v,
            Ok(None) => OutputFormat::Mp4,
            Err(e) => return Err(e),
        },
        Ok(None) => OutputFormat::Mp4,
        Err(e) => return Err(e),
    };
    let target_codec = match fields.target_codec {
        Ok(Some(t)) => match normalize_target_codec_choice(t.as_str()) {
            Ok(Some(v)) => v,
            Ok(None) => TargetCodec::Av1,
            Err(e) => return Err(e),
        },
        Ok(None) => TargetCodec::Av1,
        Err(e) => return Err(e),
    };
    let preservation = match fields.preservation {
        Ok(Some(t)) => match normalize_preservation_choice(t.as_str()) {
            Ok(Some(v)) => v,
            Ok(None) => Preservation::Flexible,
            Err(e) => return Err(e),
        },
        Ok(None) => Preservation::Flexible,
        Err(e) => return Err(e),
    };
    let quality_mode = match fields.quality_mode {
        Ok(Some(t)) => match normalize_quality_mode_choice(t.as_str()) {
            Ok(Some(v)) => v,
            Ok(None) => QualityMode::Search,
            Err(e) => return Err(e),
        },
        Ok(None) => QualityMode::Search,
        Err(e) => return Err(e),
    };
    let quality_check = match fields.quality_check {
        Ok(Some(t)) => match normalize_quality_check_choice(t.as_str()) {
            Ok(Some(v)) => v,
            Ok(None) => QualityCheck::Sampled,
            Err(e) => return Err(e),
        },
        Ok(None) => QualityCheck::Sampled,
        Err(e) => return Err(e),
    };
    let options = RunOptions {
        target_folder,
        count,
        keep_original: fields.keep_original != 0,
        dry_run: fields.dry_run != 0,
        ffmpeg,
        ffprobe,
        tmp_dir,
        encoder,
        encoder_preference,
        output_format,
        target_codec,
        preservation,
        quality_mode,
        quality_check,
        quality_target,
        review_margin,
        quality_threads: fields.quality_threads,
    };
    assert(options_model(options) == embedded_outcome(f, default_ffmpeg@, default_ffprobe@)->Ok_0);
    Ok(options)
}

/// Fields that only name the folder, with every string blank, every number
/// zero, the count -1 and originals kept, give the default options for that
/// folder: a caller may zero the struct and fill in only what it cares
/// about.
pub proof fn blank_fields_give_defaults(f: EmbeddedOptions, ffmpeg: Seq<char>, ffprobe: Seq<char>)
    requires
        text_field(f.target_folder) matches Ok(Some(_)),
        text_field(f.ffmpeg) == Ok::<Option<Seq<char>>, Seq<char>>(None),
        text_field(f.ffprobe) == Ok::<Option<Seq<char>>, Seq<char>>(None),
        text_field(f.tmp_dir) == Ok::<Option<Seq<char>>, Seq<char>>(None),
        text_field(f.encoder) == Ok::<Option<Seq<char>>, Seq<char>>(None),
        text_field(f.encoder_preference) == Ok::<Option<Seq<char>>, Seq<char>>(None),
        text_field(f.output_format) == Ok::<Option<Seq<char>>, Seq<char>>(None),
        text_field(f.target_codec) == Ok::<Option<Seq<char>>, Seq<char>>(None),
        text_field(f.preservation) == Ok::<Option<Seq<char>>, Seq<char>>(None),
        text_field(f.quality_mode) == Ok::<Option<Seq<char>>, Seq<char>>(None),
        text_field(f.quality_check) == Ok::<Option<Seq<char>>, Seq<char>>(None),
        f.count == -1,
        f.quality_target == 0,
        f.review_margin == 0,
        f.quality_threads == 0,
        f.keep_original == 1,
        f.dry_run == 0,
    ensures
        embedded_outcome(f, ffmpeg, ffprobe) == Ok::<OptionsModel, Seq<char>>(
            OptionsModel {
                target_folder: text_field(f.target_folder)->Ok_0->Some_0,
                count: -1isize,
                keep_original: true,
                dry_run: false,
                ffmpeg,
                ffprobe,
                tmp_dir: None,
                encoder: None,
                encoder_preference: EncoderPreference::Auto,
                output_format: OutputFormat::Mp4,
                target_codec: TargetCodec::Av1,
                preservation: Preservation::Flexible,
                quality_mode: QualityMode::Search,
                quality_check: QualityCheck::Sampled,
                quality_target: DEFAULT_QUALITY_TARGET,
                review_margin: DEFAULT_REVIEW_MARGIN,
                quality_threads: 0,
            },
        ),
{
}

} // verus!
