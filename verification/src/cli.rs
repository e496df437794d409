//! Command-line arguments, and how they combine with the settings file.
//!
//! Every option given on the command line wins over the settings file, and
//! the settings file wins over the built-in defaults. The settings file is
//! read only when it exists or when no argument was given at all.
use vstd::prelude::*;
use crate::config::{answer, lemma_answer, opt_text, reads_numbers, Config, ConfigModel, LineOutcome, Pending, outcome_view};
use crate::options::{
    normalize_encoder_preference_choice, normalize_encoder_preference_spec,
    normalize_preservation_choice, normalize_preservation_spec, normalize_quality_check_choice,
    normalize_quality_check_spec, normalize_quality_mode_choice, normalize_quality_mode_spec,
    normalize_target_codec_choice, normalize_target_codec_spec, EncoderPreference, Preservation,
    QualityCheck, QualityMode, TargetCodec, DEFAULT_QUALITY_TARGET, DEFAULT_REVIEW_MARGIN,
};
use crate::config::{encoder_choice, normalize_encoder_choice};
use crate::run::{normalize_output_format_choice, normalize_output_format_spec, OutputFormat, RunOptions};
use crate::text::{copy_str, join2, parse_isize, parse_u32, signed_text, starts_with, starts_with_str, str_eq, unsigned_text, views};

verus! {

/// What the command line said, before the settings file is consulted. A
/// setting the command line did not mention is `None`; for the choice
/// options, `Some(None)` means the command line asked for the default.
#[derive(Debug, Clone, PartialEq, Eq)]
pub struct CliArgs {
    pub target_folder: Option<String>,
    pub count: Option<isize>,
    pub keep_original: Option<bool>,
    pub dry_run: Option<bool>,
    pub help: bool,
    pub version: bool,
    pub ffmpeg: Option<String>,
    pub ffprobe: Option<String>,
    pub tmp_dir: Option<String>,
    pub encoder: Option<Option<String>>,
    pub encoder_preference: Option<Option<EncoderPreference>>,
    pub output_format: Option<Option<OutputFormat>>,
    pub target_codec: Option<Option<TargetCodec>>,
    pub preservation: Option<Option<Preservation>>,
    pub quality_mode: Option<Option<QualityMode>>,
    pub quality_check: Option<Option<QualityCheck>>,
    pub quality_target: Option<u32>,
    pub review_margin: Option<u32>,
    pub quality_threads: Option<u32>,
    pub list_reviews: bool,
    pub resolve_reviews: Option<String>,
    pub config_path: Option<String>,
    /// Whether the command line was empty, which makes the settings file
    /// required.
    pub no_cli_args: bool,
}

/// A `CliArgs` with its strings read as characters.
pub struct CliModel {
    pub target_folder: Option<Seq<char>>,
    pub count: Option<isize>,
    pub keep_original: Option<bool>,
    pub dry_run: Option<bool>,
    pub help: bool,
    pub version: bool,
    pub ffmpeg: Option<Seq<char>>,
    pub ffprobe: Option<Seq<char>>,
    pub tmp_dir: Option<Seq<char>>,
    pub encoder: Option<Option<Seq<char>>>,
    pub encoder_preference: Option<Option<EncoderPreference>>,
    pub output_format: Option<Option<OutputFormat>>,
    pub target_codec: Option<Option<TargetCodec>>,
    pub preservation: Option<Option<Preservation>>,
    pub quality_mode: Option<Option<QualityMode>>,
    pub quality_check: Option<Option<QualityCheck>>,
    pub quality_target: Option<u32>,
    pub review_margin: Option<u32>,
    pub quality_threads: Option<u32>,
    pub list_reviews: bool,
    pub resolve_reviews: Option<Seq<char>>,
    pub config_path: Option<Seq<char>>,
    pub no_cli_args: bool,
}

pub open spec fn opt_opt_text(o: Option<Option<String>>) -> Option<Option<Seq<char>>> {
    match o {
        Some(inner) => Some(opt_text(inner)),
        None => None,
    }
}

impl CliArgs {
    pub open spec fn model(&self) -> CliModel {
        CliModel {
            target_folder: opt_text(self.target_folder),
            count: self.count,
            keep_original: self.keep_original,
            dry_run: self.dry_run,
            help: self.help,
            version: self.version,
            ffmpeg: opt_text(self.ffmpeg),
            ffprobe: opt_text(self.ffprobe),
            tmp_dir: opt_text(self.tmp_dir),
            encoder: opt_opt_text(self.encoder),
            encoder_preference: self.encoder_preference,
            output_format: self.output_format,
            target_codec: self.target_codec,
            preservation: self.preservation,
            quality_mode: self.quality_mode,
            quality_check: self.quality_check,
            quality_target: self.quality_target,
            review_margin: self.review_margin,
            quality_threads: self.quality_threads,
            list_reviews: self.list_reviews,
            resolve_reviews: opt_text(self.resolve_reviews),
            config_path: opt_text(self.config_path),
            no_cli_args: self.no_cli_args,
        }
    }
}

/// A command line that has said nothing yet.
pub open spec fn blank_cli(no_cli_args: bool) -> CliModel {
    CliModel {
        target_folder: None,
        count: None,
        keep_original: None,
        dry_run: None,
        help: false,
        version: false,
        ffmpeg: None,
        ffprobe: None,
        tmp_dir: None,
        encoder: None,
        encoder_preference: None,
        output_format: None,
        target_codec: None,
        preservation: None,
        quality_mode: None,
        quality_check: None,
        quality_target: None,
        review_margin: None,
        quality_threads: None,
        list_reviews: false,
        resolve_reviews: None,
        config_path: None,
        no_cli_args,
    }
}

/// What the argument `args[i]` does to the command line read so far,
/// before any quality number it carries is read. The flag says whether it
/// consumed the argument after it as its value.
pub open spec fn arg_effect(m: CliModel, args: Seq<Seq<char>>, i: int) -> Result<
    (CliModel, Pending, bool),
    Seq<char>,
> {
    let a = args[i];
    let has_value = i + 1 < args.len();
    let v = args[i + 1];
    if a == "-h"@ || a == "--help"@ {
        Ok((CliModel { help: true, ..m }, Pending::Nothing, false))
    } else if a == "-V"@ || a == "--version"@ {
        Ok((CliModel { version: true, ..m }, Pending::Nothing, false))
    } else if a == "--dry-run"@ {
        Ok((CliModel { dry_run: Some(true), ..m }, Pending::Nothing, false))
    } else if a == "--no-dry-run"@ {
        Ok((CliModel { dry_run: Some(false), ..m }, Pending::Nothing, false))
    } else if a == "--keep-original"@ {
        Ok((CliModel { keep_original: Some(true), ..m }, Pending::Nothing, false))
    } else if a == "--no-keep-original"@ {
        Ok((CliModel { keep_original: Some(false), ..m }, Pending::Nothing, false))
    } else if a == "--count"@ {
        if !has_value {
            Err("--count requires a value"@)
        } else {
            match signed_text(v) {
                Some(x) => if isize::MIN <= x <= isize::MAX {
                    if x < -1 {
                        Err("--count must be -1 or greater"@)
                    } else {
                        Ok((CliModel { count: Some(x as isize), ..m }, Pending::Nothing, true))
                    }
                } else {
                    Err("invalid --count value: "@ + v)
                },
                None => Err("invalid --count value: "@ + v),
            }
        }
    } else if a == "--config"@ {
        if !has_value {
            Err("--config requires a path"@)
        } else {
            Ok((CliModel { config_path: Some(v), ..m }, Pending::Nothing, true))
        }
    } else if a == "--ffmpeg"@ {
        if !has_value {
            Err("--ffmpeg requires a path"@)
        } else {
            Ok((CliModel { ffmpeg: Some(v), ..m }, Pending::Nothing, true))
        }
    } else if a == "--ffprobe"@ {
        if !has_value {
            Err("--ffprobe requires a path"@)
        } else {
            Ok((CliModel { ffprobe: Some(v), ..m }, Pending::Nothing, true))
        }
    } else if a == "--tmp-dir"@ {
        if !has_value {
            Err("--tmp-dir requires a path"@)
        } else {
            Ok((CliModel { tmp_dir: Some(v), ..m }, Pending::Nothing, true))
        }
    } else if a == "--encoder"@ {
        if !has_value {
            Err("--encoder requires a value"@)
        } else {
            Ok((CliModel { encoder: Some(encoder_choice(v)), ..m }, Pending::Nothing, true))
        }
    } else if a == "--encoder-preference"@ || a == "--conversion-mode"@ {
        if !has_value {
            Err(a + " requires a value"@)
        } else {
            match normalize_encoder_preference_spec(v) {
                Ok(p) => Ok((CliModel { encoder_preference: Some(p), ..m }, Pending::Nothing, true)),
                Err(e) => Err(e),
            }
        }
    } else if a == "--output-format"@ {
        if !has_value {
            Err("--output-format requires a value"@)
        } else {
            match normalize_output_format_spec(v) {
                Ok(p) => Ok((CliModel { output_format: Some(p), ..m }, Pending::Nothing, true)),
                Err(e) => Err(e),
            }
        }
    } else if a == "--codec"@ {
        if !has_value {
            Err("--codec requires a value"@)
        } else {
            match normalize_target_codec_spec(v) {
                Ok(p) => Ok((CliModel { target_codec: Some(p), ..m }, Pending::Nothing, true)),
                Err(e) => Err(e),
            }
        }
    } else if a == "--preservation"@ {
        if !has_value {
            Err("--preservation requires a value"@)
        } else {
            match normalize_preservation_spec(v) {
                Ok(p) => Ok((CliModel { preservation: Some(p), ..m }, Pending::Nothing, true)),
                Err(e) => Err(e),
            }
        }
    } else if a == "--quality-mode"@ {
        if !has_value {
            Err("--quality-mode requires a value"@)
        } else {
            match normalize_quality_mode_spec(v) {
                Ok(p) => Ok((CliModel { quality_mode: Some(p), ..m }, Pending::Nothing, true)),
                Err(e) => Err(e),
            }
        }
    } else if a == "--quality-check"@ {
        if !has_value {
            Err("--quality-check requires a value"@)
        } else {
            match normalize_quality_check_spec(v) {
                Ok(p) => Ok((CliModel { quality_check: Some(p), ..m }, Pending::Nothing, true)),
                Err(e) => Err(e),
            }
        }
    } else if a == "--quality"@ {
        if !has_value {
            Err("--quality requires a value"@)
        } else {
            Ok((m, Pending::QualityTarget(v), true))
        }
    } else if a == "--review-margin"@ {
        if !has_value {
            Err("--review-margin requires a value"@)
        } else {
            Ok((m, Pending::ReviewMargin(v), true))
        }
    } else if a == "--quality-threads"@ {
        if !has_value {
            Err("--quality-threads requires a value"@)
        } else {
            match unsigned_text(v) {
                Some(x) => if x <= u32::MAX {
                    Ok((CliModel { quality_threads: Some(x as u32), ..m }, Pending::Nothing, true))
                } else {
                    Err("invalid --quality-threads value: "@ + v)
                },
                None => Err("invalid --quality-threads value: "@ + v),
            }
        }
    } else if a == "--list-reviews"@ {
        Ok((CliModel { list_reviews: true, ..m }, Pending::Nothing, false))
    } else if a == "--resolve-reviews"@ {
        if !has_value {
            Err("--resolve-reviews requires a decision"@)
        } else {
            Ok((CliModel { resolve_reviews: Some(v), ..m }, Pending::Nothing, true))
        }
    } else if starts_with(a, "-"@) {
        Err("unknown option: "@ + a)
    } else if m.target_folder is Some {
        Err("unexpected extra positional argument: "@ + a)
    } else {
        Ok((CliModel { target_folder: Some(a), ..m }, Pending::Nothing, false))
    }
}

/// What the argument `args[i]` does, with the decimal quality numbers read
/// by `target` and `points`.
pub open spec fn arg_step<F: Fn(String) -> Result<u32, String>, G: Fn(String) -> Result<u32, String>>(
    m: CliModel,
    args: Seq<Seq<char>>,
    i: int,
    target: F,
    points: G,
) -> Result<(CliModel, bool), Seq<char>> {
    match arg_effect(m, args, i) {
        Err(e) => Err(e),
        Ok((m2, p, took)) => match p {
            Pending::Nothing => Ok((m2, took)),
            Pending::QualityTarget(v) => match answer(target, v) {
                Ok(x) => Ok((CliModel { quality_target: Some(x), ..m2 }, took)),
                Err(e) => Err(e),
            },
            Pending::ReviewMargin(v) => match answer(points, v) {
                Ok(x) => Ok((CliModel { review_margin: Some(x), ..m2 }, took)),
                Err(e) => Err(e),
            },
        },
    }
}

/// The command line `args[i..]` read on top of `m`, or the first reason it
/// cannot be read.
pub open spec fn cli_from<F: Fn(String) -> Result<u32, String>, G: Fn(String) -> Result<u32, String>>(
    m: CliModel,
    args: Seq<Seq<char>>,
    i: int,
    target: F,
    points: G,
) -> Result<CliModel, Seq<char>>
    decreases args.len() - i,
{
    if i < 0 || i >= args.len() {
        Ok(m)
    } else {
        match arg_step(m, args, i, target, points) {
            Err(e) => Err(e),
            Ok((m2, took)) => cli_from(m2, args, i + if took { 2int } else { 1int }, target, points),
        }
    }
}

/// Whether an argument asks for the help text.
pub open spec fn is_help_flag(a: Seq<char>) -> bool {
    a == "-h"@ || a == "--help"@
}

/// `-h` and `--help` each ask for the help text: reading one, wherever it
/// stands, sets `help`, changes nothing else, takes no value and is never
/// refused; and a command line made of nothing but these flags reads as a
/// blank command line asking for help.
pub proof fn help_flags_ask_for_help<F: Fn(String) -> Result<u32, String>, G: Fn(String) -> Result<
    u32,
    String,
>>(m: CliModel, args: Seq<Seq<char>>, i: int, target: F, points: G)
    requires
        0 <= i < args.len(),
        is_help_flag(args[i]),
    ensures
        arg_effect(m, args, i) matches Ok((m2, p, took)) && m2.help && !took && p == Pending::Nothing
            && m2 == (CliModel { help: true, ..m }),
        cli_from(m, args, i, target, points) == cli_from(CliModel { help: true, ..m }, args, i + 1, target, points),
        (forall|k: int| 0 <= k < args.len() ==> #[trigger] is_help_flag(args[k])) ==> cli_text(
            args,
            target,
            points,
        ) == Ok::<CliModel, Seq<char>>(CliModel { help: true, ..blank_cli(false) }),
{
    if forall|k: int| 0 <= k < args.len() ==> #[trigger] is_help_flag(args[k]) {
        lemma_only_help(blank_cli(false), args, 0, target, points);
        assert(CliModel { help: true, ..CliModel { help: true, ..blank_cli(false) } } == CliModel {
            help: true,
            ..blank_cli(false)
        });
    }
}

proof fn lemma_only_help<F: Fn(String) -> Result<u32, String>, G: Fn(String) -> Result<u32, String>>(
    m: CliModel,
    args: Seq<Seq<char>>,
    i: int,
    target: F,
    points: G,
)
    requires
        0 <= i < args.len(),
        forall|k: int| 0 <= k < args.len() ==> #[trigger] is_help_flag(args[k]),
    ensures
        cli_from(m, args, i, target, points) == Ok::<CliModel, Seq<char>>(CliModel { help: true, ..m }),
    decreases args.len() - i,
{
    assert(is_help_flag(args[i]));
    let m2 = CliModel { help: true, ..m };
    if i + 1 < args.len() {
        lemma_only_help(m2, args, i + 1, target, points);
        assert(CliModel { help: true, ..m2 } == m2);
    }
}

/// What each option does, wherever it stands on the command line: the
/// switches set their setting and take no value; each option that takes a
/// value, when one follows, takes it and sets its setting from it (the
/// quality numbers are read afterwards); none of them is ever an unknown
/// option.
pub proof fn options_do_what_they_say(m: CliModel, args: Seq<Seq<char>>, i: int)
    requires
        0 <= i < args.len(),
    ensures
        ({
            let a = args[i];
            let v = args[i + 1];
            let e = arg_effect(m, args, i);
            &&& (a == "-V"@ || a == "--version"@) ==> e == Ok::<(CliModel, Pending, bool), Seq<char>>(
                (CliModel { version: true, ..m }, Pending::Nothing, false),
            )
            &&& a == "--dry-run"@ ==> e == Ok::<(CliModel, Pending, bool), Seq<char>>(
                (CliModel { dry_run: Some(true), ..m }, Pending::Nothing, false),
            )
            &&& a == "--no-dry-run"@ ==> e == Ok::<(CliModel, Pending, bool), Seq<char>>(
                (CliModel { dry_run: Some(false), ..m }, Pending::Nothing, false),
            )
            &&& a == "--keep-original"@ ==> e == Ok::<(CliModel, Pending, bool), Seq<char>>(
                (CliModel { keep_original: Some(true), ..m }, Pending::Nothing, false),
            )
            &&& a == "--no-keep-original"@ ==> e == Ok::<(CliModel, Pending, bool), Seq<char>>(
                (CliModel { keep_original: Some(false), ..m }, Pending::Nothing, false),
            )
            &&& a == "--list-reviews"@ ==> e == Ok::<(CliModel, Pending, bool), Seq<char>>(
                (CliModel { list_reviews: true, ..m }, Pending::Nothing, false),
            )
            &&& i + 1 < args.len() ==> {
                &&& a == "--config"@ ==> e == Ok::<(CliModel, Pending, bool), Seq<char>>(
                    (CliModel { config_path: Some(v), ..m }, Pending::Nothing, true),
                )
                &&& a == "--ffmpeg"@ ==> e == Ok::<(CliModel, Pending, bool), Seq<char>>(
                    (CliModel { ffmpeg: Some(v), ..m }, Pending::Nothing, true),
                )
                &&& a == "--ffprobe"@ ==> e == Ok::<(CliModel, Pending, bool), Seq<char>>(
                    (CliModel { ffprobe: Some(v), ..m }, Pending::Nothing, true),
                )
                &&& a == "--tmp-dir"@ ==> e == Ok::<(CliModel, Pending, bool), Seq<char>>(
                    (CliModel { tmp_dir: Some(v), ..m }, Pending::Nothing, true),
                )
                &&& a == "--resolve-reviews"@ ==> e == Ok::<(CliModel, Pending, bool), Seq<char>>(
                    (CliModel { resolve_reviews: Some(v), ..m }, Pending::Nothing, true),
                )
                &&& a == "--encoder"@ ==> e == Ok::<(CliModel, Pending, bool), Seq<char>>(
                    (CliModel { encoder: Some(encoder_choice(v)), ..m }, Pending::Nothing, true),
                )
                &&& a == "--quality"@ ==> e == Ok::<(CliModel, Pending, bool), Seq<char>>(
                    (m, Pending::QualityTarget(v), true),
                )
                &&& a == "--review-margin"@ ==> e == Ok::<(CliModel, Pending, bool), Seq<char>>(
                    (m, Pending::ReviewMargin(v), true),
                )
                &&& a == "--count"@ ==> (signed_text(v) is Some && -1 <= signed_text(v)->0 <= isize::MAX
                    ==> e == Ok::<(CliModel, Pending, bool), Seq<char>>(
                    (CliModel { count: Some(signed_text(v)->0 as isize), ..m }, Pending::Nothing, true),
                ))
                &&& a == "--quality-threads"@ ==> (unsigned_text(v) is Some && unsigned_text(v)->0 <= u32::MAX
                    ==> e == Ok::<(CliModel, Pending, bool), Seq<char>>(
                    (CliModel { quality_threads: Some(unsigned_text(v)->0 as u32), ..m }, Pending::Nothing, true),
                ))
                &&& (a == "--encoder-preference"@ || a == "--conversion-mode"@) ==> e == match normalize_encoder_preference_spec(v) {
                    Ok(p) => Ok::<(CliModel, Pending, bool), Seq<char>>(
                        (CliModel { encoder_preference: Some(p), ..m }, Pending::Nothing, true),
                    ),
                    Err(x) => Err(x),
                }
                &&& a == "--output-format"@ ==> e == match normalize_output_format_spec(v) {
                    Ok(p) => Ok::<(CliModel, Pending, bool), Seq<char>>(
                        (CliModel { output_format: Some(p), ..m }, Pending::Nothing, true),
                    ),
                    Err(x) => Err(x),
                }
                &&& a == "--codec"@ ==> e == match normalize_target_codec_spec(v) {
                    Ok(p) => Ok::<(CliModel, Pending, bool), Seq<char>>(
                        (CliModel { target_codec: Some(p), ..m }, Pending::Nothing, true),
                    ),
                    Err(x) => Err(x),
                }
                &&& a == "--preservation"@ ==> e == match normalize_preservation_spec(v) {
                    Ok(p) => Ok::<(CliModel, Pending, bool), Seq<char>>(
                        (CliModel { preservation: Some(p), ..m }, Pending::Nothing, true),
                    ),
                    Err(x) => Err(x),
                }
                &&& a == "--quality-mode"@ ==> e == match normalize_quality_mode_spec(v) {
                    Ok(p) => Ok::<(CliModel, Pending, bool), Seq<char>>(
                        (CliModel { quality_mode: Some(p), ..m }, Pending::Nothing, true),
                    ),
                    Err(x) => Err(x),
                }
                &&& a == "--quality-check"@ ==> e == match normalize_quality_check_spec(v) {
                    Ok(p) => Ok::<(CliModel, Pending, bool), Seq<char>>(
                        (CliModel { quality_check: Some(p), ..m }, Pending::Nothing, true),
                    ),
                    Err(x) => Err(x),
                }
            }
        }),
{
    reveal_strlit("-h");
    assert("-h"@.len() == 2);
    reveal_strlit("--help");
    assert("--help"@.len() == 6);
    reveal_strlit("-V");
    assert("-V"@.len() == 2);
    reveal_strlit("--version");
    assert("--version"@.len() == 9);
    reveal_strlit("--dry-run");
    assert("--dry-run"@.len() == 9);
    reveal_strlit("--no-dry-run");
    assert("--no-dry-run"@.len() == 12);
    reveal_strlit("--keep-original");
    assert("--keep-original"@.len() == 15);
    reveal_strlit("--no-keep-original");
    assert("--no-keep-original"@.len() == 18);
    reveal_strlit("--count");
    assert("--count"@.len() == 7);
    reveal_strlit("--config");
    assert("--config"@.len() == 8);
    reveal_strlit("--ffmpeg");
    assert("--ffmpeg"@.len() == 8);
    reveal_strlit("--ffprobe");
    assert("--ffprobe"@.len() == 9);
    reveal_strlit("--tmp-dir");
    assert("--tmp-dir"@.len() == 9);
    reveal_strlit("--encoder");
    assert("--encoder"@.len() == 9);
    reveal_strlit("--encoder-preference");
    assert("--encoder-preference"@.len() == 20);
    reveal_strlit("--conversion-mode");
    assert("--conversion-mode"@.len() == 17);
    reveal_strlit("--output-format");
    assert("--output-format"@.len() == 15);
    reveal_strlit("--codec");
    assert("--codec"@.len() == 7);
    reveal_strlit("--preservation");
    assert("--preservation"@.len() == 14);
    reveal_strlit("--quality-mode");
    assert("--quality-mode"@.len() == 14);
    reveal_strlit("--quality-check");
    assert("--quality-check"@.len() == 15);
    reveal_strlit("--quality");
    assert("--quality"@.len() == 9);
    reveal_strlit("--review-margin");
    assert("--review-margin"@.len() == 15);
    reveal_strlit("--quality-threads");
    assert("--quality-threads"@.len() == 17);
    reveal_strlit("--list-reviews");
    assert("--list-reviews"@.len() == 14);
    reveal_strlit("--resolve-reviews");
    assert("--resolve-reviews"@.len() == 17);
    assert("-h"@[1] != "-V"@[1]);
    assert("--version"@[2] != "--dry-run"@[2]);
    assert("--version"@[2] != "--ffprobe"@[2]);
    assert("--version"@[2] != "--tmp-dir"@[2]);
    assert("--version"@[2] != "--encoder"@[2]);
    assert("--version"@[2] != "--quality"@[2]);
    assert("--dry-run"@[2] != "--ffprobe"@[2]);
    assert("--dry-run"@[2] != "--tmp-dir"@[2]);
    assert("--dry-run"@[2] != "--encoder"@[2]);
    assert("--dry-run"@[2] != "--quality"@[2]);
    assert("--keep-original"@[2] != "--output-format"@[2]);
    assert("--keep-original"@[2] != "--quality-check"@[2]);
    assert("--keep-original"@[2] != "--review-margin"@[2]);
    assert("--count"@[4] != "--codec"@[4]);
    assert("--config"@[2] != "--ffmpeg"@[2]);
    assert("--ffprobe"@[2] != "--tmp-dir"@[2]);
    assert("--ffprobe"@[2] != "--encoder"@[2]);
    assert("--ffprobe"@[2] != "--quality"@[2]);
    assert("--tmp-dir"@[2] != "--encoder"@[2]);
    assert("--tmp-dir"@[2] != "--quality"@[2]);
    assert("--encoder"@[2] != "--quality"@[2]);
    assert("--conversion-mode"@[2] != "--quality-threads"@[2]);
    assert("--conversion-mode"@[2] != "--resolve-reviews"@[2]);
    assert("--output-format"@[2] != "--quality-check"@[2]);
    assert("--output-format"@[2] != "--review-margin"@[2]);
    assert("--preservation"@[2] != "--quality-mode"@[2]);
    assert("--preservation"@[2] != "--list-reviews"@[2]);
    assert("--quality-mode"@[2] != "--list-reviews"@[2]);
    assert("--quality-check"@[2] != "--review-margin"@[2]);
    assert("--quality-threads"@[2] != "--resolve-reviews"@[2]);
}

/// What a whole command line says.
pub open spec fn cli_text<F: Fn(String) -> Result<u32, String>, G: Fn(String) -> Result<u32, String>>(
    args: Seq<Seq<char>>,
    target: F,
    points: G,
) -> Result<CliModel, Seq<char>> {
    cli_from(blank_cli(args.len() == 0), args, 0, target, points)
}

fn value_at(args: &Vec<String>, i: usize) -> (r: &str)
    requires
        i < args.len(),
    ensures
        r@ == args@[i as int]@,
{
    args[i].as_str()
}

/// Applies the argument `args[i]` to the command line read so far. A
/// quality target or review margin is a decimal number, which this leaves
/// for the caller to read. The flag says whether the argument after it was
/// consumed as its value.
pub fn apply_cli_arg(cli: &mut CliArgs, args: &Vec<String>, i: usize) -> (r: Result<
    (LineOutcome, bool),
    String,
>)
    requires
        i < args.len(),
    ensures
        match arg_effect(old(cli).model(), views(args@), i as int) {
            Ok((m, p, took)) => r matches Ok((o, t)) && outcome_view(o) == p && t == took
                && final(cli).model() == m,
            Err(e) => r matches Err(msg) && msg@ == e,
        },
{
    let ghost vs = views(args@);
    assert(vs[i as int] == args@[i as int]@);
    let a = value_at(args, i);
    let has_value = i + 1 < args.len();
    proof {
        if has_value {
            assert(vs[i + 1] == args@[i + 1]@);
        }
    }
    if str_eq(a, "-h") || str_eq(a, "--help") {
        cli.help = true;
        return Ok((LineOutcome::Applied, false));
    }
    if str_eq(a, "-V") || str_eq(a, "--version") {
        cli.version = true;
        return Ok((LineOutcome::Applied, false));
    }
    if str_eq(a, "--dry-run") {
        cli.dry_run = Some(true);
        return Ok((LineOutcome::Applied, false));
    }
    if str_eq(a, "--no-dry-run") {
        cli.dry_run = Some(false);
        return Ok((LineOutcome::Applied, false));
    }
    if str_eq(a, "--keep-original") {
        cli.keep_original = Some(true);
        return Ok((LineOutcome::Applied, false));
    }
    if str_eq(a, "--no-keep-original") {
        cli.keep_original = Some(false);
        return Ok((LineOutcome::Applied, false));
    }
    if str_eq(a, "--count") {
        if !has_value {
            return Err(copy_str("--count requires a value"));
        }
        let raw = value_at(args, i + 1);
        return match parse_isize(raw) {
            Some(x) => {
                if x < -1 {
                    Err(copy_str("--count must be -1 or greater"))
                } else {
                    cli.count = Some(x);
                    Ok((LineOutcome::Applied, true))
                }
            },
            None => Err(join2("invalid --count value: ", raw)),
        };
    }
    if str_eq(a, "--config") {
        if !has_value {
            return Err(copy_str("--config requires a path"));
        }
        cli.config_path = Some(copy_str(value_at(args, i + 1)));
        return Ok((LineOutcome::Applied, true));
    }
    if str_eq(a, "--ffmpeg") {
        if !has_value {
            return Err(copy_str("--ffmpeg requires a path"));
        }
        cli.ffmpeg = Some(copy_str(value_at(args, i + 1)));
        return Ok((LineOutcome::Applied, true));
    }
    if str_eq(a, "--ffprobe") {
        if !has_value {
            return Err(copy_str("--ffprobe requires a path"));
        }
        cli.ffprobe = Some(copy_str(value_at(args, i + 1)));
        return Ok((LineOutcome::Applied, true));
    }
    if str_eq(a, "--tmp-dir") {
        if !has_value {
            return Err(copy_str("--tmp-dir requires a path"));
        }
        cli.tmp_dir = Some(copy_str(value_at(args, i + 1)));
        return Ok((LineOutcome::Applied, true));
    }
    if str_eq(a, "--encoder") {
        if !has_value {
            return Err(copy_str("--encoder requires a value"));
        }
        let choice = normalize_encoder_choice(value_at(args, i + 1));
        cli.encoder = Some(choice);
        return Ok((LineOutcome::Applied, true));
    }
    if str_eq(a, "--encoder-preference") || str_eq(a, "--conversion-mode") {
        if !has_value {
            return Err(join2(a, " requires a value"));
        }
        return match normalize_encoder_preference_choice(value_at(args, i + 1)) {
            Ok(p) => {
                cli.encoder_preference = Some(p);
                Ok((LineOutcome::Applied, true))
            },
            Err(e) => Err(e),
        };
    }
    if str_eq(a, "--output-format") {
        if !has_value {
            return Err(copy_str("--output-format requires a value"));
        }
        return match normalize_output_format_choice(value_at(args, i + 1)) {
            Ok(p) => {
                cli.output_format = Some(p);
                Ok((LineOutcome::Applied, true))
            },
            Err(e) => Err(e),
        };
    }
    if str_eq(a, "--codec") {
        if !has_value {
            return Err(copy_str("--codec requires a value"));
        }
        return match normalize_target_codec_choice(value_at(args, i + 1)) {
            Ok(p) => {
                cli.target_codec = Some(p);
                Ok((LineOutcome::Applied, true))
            },
            Err(e) => Err(e),
        };
    }
    if str_eq(a, "--preservation") {
        if !has_value {
            return Err(copy_str("--preservation requires a value"));
        }
        return match normalize_preservation_choice(value_at(args, i + 1)) {
            Ok(p) => {
                cli.preservation = Some(p);
                Ok((LineOutcome::Applied, true))
            },
            Err(e) => Err(e),
        };
    }
    if str_eq(a, "--quality-mode") {
        if !has_value {
            return Err(copy_str("--quality-mode requires a value"));
        }
        return match normalize_quality_mode_choice(value_at(args, i + 1)) {
            Ok(p) => {
                cli.quality_mode = Some(p);
                Ok((LineOutcome::Applied, true))
            },
            Err(e) => Err(e),
        };
    }
    if str_eq(a, "--quality-check") {
        if !has_value {
            return Err(copy_str("--quality-check requires a value"));
        }
        return match normalize_quality_check_choice(value_at(args, i + 1)) {
            Ok(p) => {
                cli.quality_check = Some(p);
                Ok((LineOutcome::Applied, true))
            },
            Err(e) => Err(e),
        };
    }
    if str_eq(a, "--quality") {
        if !has_value {
            return Err(copy_str("--quality requires a value"));
        }
        return Ok((LineOutcome::QualityTarget(copy_str(value_at(args, i + 1))), true));
    }
    if str_eq(a, "--review-margin") {
        if !has_value {
            return Err(copy_str("--review-margin requires a value"));
        }
        return Ok((LineOutcome::ReviewMargin(copy_str(value_at(args, i + 1))), true));
    }
    if str_eq(a, "--quality-threads") {
        if !has_value {
            return Err(copy_str("--quality-threads requires a value"));
        }
        let raw = value_at(args, i + 1);
        return match parse_u32(raw) {
            Some(x) => {
                cli.quality_threads = Some(x);
                Ok((LineOutcome::Applied, true))
            },
            None => Err(join2("invalid --quality-threads value: ", raw)),
        };
    }
    if str_eq(a, "--list-reviews") {
        cli.list_reviews = true;
        return Ok((LineOutcome::Applied, false));
    }
    if str_eq(a, "--resolve-reviews") {
        if !has_value {
            return Err(copy_str("--resolve-reviews requires a decision"));
        }
        cli.resolve_reviews = Some(copy_str(value_at(args, i + 1)));
        return Ok((LineOutcome::Applied, true));
    }
    if starts_with_str(a, "-") {
        return Err(join2("unknown option: ", a));
    }
    if cli.target_folder.is_some() {
        return Err(join2("unexpected extra positional argument: ", a));
    }
    cli.target_folder = Some(copy_str(a));
    Ok((LineOutcome::Applied, false))
}

/// Reads a whole command line. `parse_target` reads a quality target such as
/// `95` or `94.5` into hundredths, and `parse_points` a point value such as
/// `2` or `1.5`; each reports a user-facing error for text it cannot read.
pub fn parse_cli_args<F: Fn(String) -> Result<u32, String>, G: Fn(String) -> Result<u32, String>>(
    args: &Vec<String>,
    parse_target: F,
    parse_points: G,
) -> (r: Result<CliArgs, String>)
    requires
        reads_numbers(parse_target),
        reads_numbers(parse_points),
    ensures
        match cli_text(views(args@), parse_target, parse_points) {
            Ok(m) => r matches Ok(c) && c.model() == m,
            Err(e) => r matches Err(msg) && msg@ == e,
        },
{
    let ghost vs = views(args@);
    let mut cli = CliArgs {
        target_folder: None,
        count: None,
        keep_original: None,
        dry_run: None,
        help: false,
        version: false,
        ffmpeg: None,
        ffprobe: None,
        tmp_dir: None,
        encoder: None,
        encoder_preference: None,
        output_format: None,
        target_codec: None,
        preservation: None,
        quality_mode: None,
        quality_check: None,
        quality_target: None,
        review_margin: None,
        quality_threads: None,
        list_reviews: false,
        resolve_reviews: None,
        config_path: None,
        no_cli_args: args.len() == 0,
    };
    let mut i: usize = 0;
    while i < args.len()
        invariant
            vs == views(args@),
            i <= args.len() + 1,
            reads_numbers(parse_target),
            reads_numbers(parse_points),
            cli_from(cli.model(), vs, i as int, parse_target, parse_points) == cli_text(
                vs,
                parse_target,
                parse_points,
            ),
        decreases args.len() + 1 - i,
    {
        let (outcome, took) = match apply_cli_arg(&mut cli, args, i) {
            Ok(o) => o,
            Err(e) => {
                return Err(e);
            },
        };
        match outcome {
            LineOutcome::Applied => {},
            LineOutcome::QualityTarget(v) => {
                let ghost vv = v;
                match parse_target(v) {
                    Ok(x) => {
                        proof {
                            lemma_answer(parse_target, vv, Ok::<u32, String>(x));
                        }
                        cli.quality_target = Some(x);
                    },
                    Err(e) => {
                        proof {
                            lemma_answer(parse_target, vv, Err::<u32, String>(e));
                        }
                        return Err(e);
                    },
                }
            },
            LineOutcome::ReviewMargin(v) => {
                let ghost vv = v;
                match parse_points(v) {
                    Ok(x) => {
                        proof {
                            lemma_answer(parse_points, vv, Ok::<u32, String>(x));
                        }
                        cli.review_margin = Some(x);
                    },
                    Err(e) => {
                        proof {
                            lemma_answer(parse_points, vv, Err::<u32, String>(e));
                        }
                        return Err(e);
                    },
                }
            },
        }
        i = if took {
            i + 2
        } else {
            i + 1
        };
    }
    Ok(cli)
}

/// The text printed for `--help`.
pub const USAGE: &'static str = "Usage: myvidcomp <folder> [options]

Converts every video in a folder to a smaller file, checks how close the result
looks to the original, and never deletes anything it is not sure about.

What to produce
  --codec av1|hevc|vvc        Output codec. AV1 makes the smallest files, H.265
                              plays on the widest range of devices, H.266 is
                              experimental and very slow. Default: av1.
  --output-format mp4|mkv-fallback
                              Use MKV when a stream cannot go in an MP4.
                              Default: mp4.

How careful to be
  --preservation strict|flexible
                              strict converts only when everything is kept
                              exactly. flexible converts anyway when only
                              recoverable details would change, and keeps both
                              files so you can choose. Default: flexible.
  --quality N                 Quality target from 50 to 100. Default: 95.
  --quality-mode search|estimate
                              search encodes short samples to find the setting
                              that just reaches the target. estimate guesses
                              from the source and skips the test encodes.
                              Default: search.
  --quality-check full|sampled|off
                              How thoroughly to compare the result with the
                              original. Default: sampled.
  --review-margin N           How far below the target a result may land before
                              it is kept for review. Default: 2.

Which encoder
  --encoder-preference auto|gpu|cpu
                              auto uses a graphics card only when it can keep
                              the source exactly. gpu prefers speed. cpu makes
                              the smallest files. Default: auto.
  --encoder NAME              Use one specific encoder and no other.

Files
  --count N                   Convert at most N files. -1 means all.
  --keep-original             Rename each original to .old instead of deleting.
  --no-keep-original          Replace each original once the result is verified.
  --dry-run                   List what would be converted and stop.
  --tmp-dir PATH              Where to write working files.
  --config PATH               Read settings from this file.
  --ffmpeg PATH, --ffprobe PATH
                              Use these tools instead of the bundled ones.

Reviewing results
  --list-reviews              List conversions waiting for a decision.
  --resolve-reviews keep-new|keep-original|keep-both
                              Apply one decision to all of them.

  -h, --help                  Show this text.
  -V, --version               Show the version.";

/// The text printed for `--help`.
pub fn usage() -> (r: &'static str)
    ensures
        r@ == USAGE@,
{
    USAGE
}

/// The complaint for a run that names no folder: it points at the settings
/// file when the command line was empty.
pub open spec fn missing_target_text(config_path: Seq<char>, no_cli_args: bool) -> Seq<char> {
    if no_cli_args {
        "missing target folder: pass one on the CLI or set target_folder in "@ + config_path
            + "\n\n"@ + USAGE@
    } else {
        "missing target folder\n\n"@ + USAGE@
    }
}

/// Explains that no target folder was given.
pub fn missing_target_message(config_path: &str, no_cli_args: bool) -> (r: String)
    ensures
        r@ == missing_target_text(config_path@, no_cli_args),
{
    if no_cli_args {
        let mut out = join2(
            "missing target folder: pass one on the CLI or set target_folder in ",
            config_path,
        );
        out.append("\n\n");
        out.append(USAGE);
        out
    } else {
        join2("missing target folder\n\n", USAGE)
    }
}

/// The settings of one invocation, with the command line, the settings file
/// and the defaults applied in that order.
#[derive(Debug, Clone, PartialEq, Eq)]
pub struct Cli {
    pub target_folder: String,
    pub count: isize,
    pub keep_original: bool,
    pub dry_run: bool,
    pub help: bool,
    pub version: bool,
    pub ffmpeg: String,
    pub ffprobe: String,
    pub tmp_dir: Option<String>,
    pub encoder: Option<String>,
    pub encoder_preference: EncoderPreference,
    pub output_format: OutputFormat,
    pub target_codec: TargetCodec,
    pub preservation: Preservation,
    pub quality_mode: QualityMode,
    pub quality_check: QualityCheck,
    pub quality_target: u32,
    pub review_margin: u32,
    pub quality_threads: u32,
    pub list_reviews: bool,
    pub resolve_reviews: Option<String>,
}

/// A `Cli` with its strings read as characters.
pub struct CliView {
    pub target_folder: Seq<char>,
    pub count: isize,
    pub keep_original: bool,
    pub dry_run: bool,
    pub help: bool,
    pub version: bool,
    pub ffmpeg: Seq<char>,
    pub ffprobe: Seq<char>,
    pub tmp_dir: Option<Seq<char>>,
    pub encoder: Option<Seq<char>>,
    pub encoder_preference: EncoderPreference,
    pub output_format: OutputFormat,
    pub target_codec: TargetCodec,
    pub preservation: Preservation,
    pub quality_mode: QualityMode,
    pub quality_check: QualityCheck,
    pub quality_target: u32,
    pub review_margin: u32,
    pub quality_threads: u32,
    pub list_reviews: bool,
    pub resolve_reviews: Option<Seq<char>>,
}

impl Cli {
    pub open spec fn view(&self) -> CliView {
        CliView {
            target_folder: self.target_folder@,
            count: self.count,
            keep_original: self.keep_original,
            dry_run: self.dry_run,
            help: self.help,
            version: self.version,
            ffmpeg: self.ffmpeg@,
            ffprobe: self.ffprobe@,
            tmp_dir: opt_text(self.tmp_dir),
            encoder: opt_text(self.encoder),
            encoder_preference: self.encoder_preference,
            output_format: self.output_format,
            target_codec: self.target_codec,
            preservation: self.preservation,
            quality_mode: self.quality_mode,
            quality_check: self.quality_check,
            quality_target: self.quality_target,
            review_margin: self.review_margin,
            quality_threads: self.quality_threads,
            list_reviews: self.list_reviews,
            resolve_reviews: opt_text(self.resolve_reviews),
        }
    }
}

/// The first of two layers that sets a value.
pub open spec fn first_set<T>(a: Option<T>, b: Option<T>) -> Option<T> {
    match a {
        Some(x) => Some(x),
        None => b,
    }
}

pub open spec fn or_value<T>(a: Option<T>, d: T) -> T {
    match a {
        Some(x) => x,
        None => d,
    }
}

/// A choice from the command line when it made one (possibly "the
/// default"), else the settings file's.
pub open spec fn chosen<T>(cli: Option<Option<T>>, file: Option<T>) -> Option<T> {
    match cli {
        Some(c) => c,
        None => file,
    }
}

/// The settings that result from a command line over a settings file, for
/// the folder `target`, where `ffmpeg` and `ffprobe` name the tools to use
/// when neither layer does.
pub open spec fn layered(
    a: CliModel,
    c: ConfigModel,
    target: Seq<char>,
    ffmpeg: Seq<char>,
    ffprobe: Seq<char>,
) -> CliView {
    CliView {
        target_folder: target,
        count: or_value(first_set(a.count, c.count), -1isize),
        keep_original: or_value(first_set(a.keep_original, c.keep_original), true),
        dry_run: or_value(first_set(a.dry_run, c.dry_run), false),
        help: a.help,
        version: a.version,
        ffmpeg: or_value(first_set(a.ffmpeg, c.ffmpeg), ffmpeg),
        ffprobe: or_value(first_set(a.ffprobe, c.ffprobe), ffprobe),
        tmp_dir: first_set(a.tmp_dir, c.tmp_dir),
        encoder: chosen(a.encoder, c.encoder),
        encoder_preference: or_value(
            chosen(a.encoder_preference, c.encoder_preference),
            EncoderPreference::Auto,
        ),
        output_format: or_value(chosen(a.output_format, c.output_format), OutputFormat::Mp4),
        target_codec: or_value(chosen(a.target_codec, c.target_codec), TargetCodec::Av1),
        preservation: or_value(chosen(a.preservation, c.preservation), Preservation::Flexible),
        quality_mode: or_value(chosen(a.quality_mode, c.quality_mode), QualityMode::Search),
        quality_check: or_value(chosen(a.quality_check, c.quality_check), QualityCheck::Sampled),
        quality_target: or_value(first_set(a.quality_target, c.quality_target), DEFAULT_QUALITY_TARGET),
        review_margin: or_value(first_set(a.review_margin, c.review_margin), DEFAULT_REVIEW_MARGIN),
        quality_threads: or_value(first_set(a.quality_threads, c.quality_threads), 0u32),
        list_reviews: a.list_reviews,
        resolve_reviews: a.resolve_reviews,
    }
}

fn first_text(a: &Option<String>, b: &Option<String>) -> (r: Option<String>)
    ensures
        opt_text(r) == first_set(opt_text(*a), opt_text(*b)),
{
    match a {
        Some(x) => Some(x.clone()),
        None => match b {
            Some(y) => Some(y.clone()),
            None => None,
        },
    }
}

fn text_or(a: Option<String>, d: &str) -> (r: String)
    ensures
        r@ == or_value(opt_text(a), d@),
{
    match a {
        Some(x) => x,
        None => copy_str(d),
    }
}

fn first_value<T: Copy>(a: Option<T>, b: Option<T>) -> (r: Option<T>)
    ensures
        r == first_set(a, b),
{
    match a {
        Some(x) => Some(x),
        None => b,
    }
}

fn chosen_value<T: Copy>(a: Option<Option<T>>, b: Option<T>) -> (r: Option<T>)
    ensures
        r == chosen(a, b),
{
    match a {
        Some(c) => c,
        None => b,
    }
}

/// Combines a command line with a settings file. For `--help` or
/// `--version` the settings file plays no part and no folder is needed;
/// otherwise the folder comes from the command line, else from the file,
/// and a run without one is refused. `config_path` is the settings file
/// that was consulted, and `ffmpeg` and `ffprobe` the tools to use when
/// neither layer names one.
pub fn layer_settings(
    args: &CliArgs,
    config: &Config,
    config_path: &str,
    ffmpeg: &str,
    ffprobe: &str,
) -> (r: Result<Cli, String>)
    ensures
        args.help || args.version ==> (r matches Ok(cli) && cli.view() == layered(
            args.model(),
            crate::config::empty_model(),
            Seq::empty(),
            ffmpeg@,
            ffprobe@,
        )),
        !(args.help || args.version) ==> match first_set(
            args.model().target_folder,
            config.model().target_folder,
        ) {
            Some(t) => r matches Ok(cli) && cli.view() == layered(
                args.model(),
                config.model(),
                t,
                ffmpeg@,
                ffprobe@,
            ),
            None => r matches Err(e) && e@ == missing_target_text(config_path@, args.no_cli_args),
        },
{
    let empty = Config::default();
    let file = if args.help || args.version {
        &empty
    } else {
        config
    };
    let target = if args.help || args.version {
        String::new()
    } else {
        match first_text(&args.target_folder, &file.target_folder) {
            Some(t) => t,
            None => {
                return Err(missing_target_message(config_path, args.no_cli_args));
            },
        }
    };
    let encoder = match &args.encoder {
        Some(e) => match e {
            Some(x) => Some(x.clone()),
            None => None,
        },
        None => match &file.encoder {
            Some(x) => Some(x.clone()),
            None => None,
        },
    };
    Ok(
        Cli {
            target_folder: target,
            count: match first_value(args.count, file.count) {
                Some(x) => x,
                None => -1,
            },
            keep_original: match first_value(args.keep_original, file.keep_original) {
                Some(x) => x,
                None => true,
            },
            dry_run: match first_value(args.dry_run, file.dry_run) {
                Some(x) => x,
                None => false,
            },
            help: args.help,
            version: args.version,
            ffmpeg: text_or(first_text(&args.ffmpeg, &file.ffmpeg), ffmpeg),
            ffprobe: text_or(first_text(&args.ffprobe, &file.ffprobe), ffprobe),
            tmp_dir: first_text(&args.tmp_dir, &file.tmp_dir),
            encoder,
            encoder_preference: match chosen_value(args.encoder_preference, file.encoder_preference) {
                Some(x) => x,
                None => EncoderPreference::default(),
            },
            output_format: match chosen_value(args.output_format, file.output_format) {
                Some(x) => x,
                None => OutputFormat::default(),
            },
            target_codec: match chosen_value(args.target_codec, file.target_codec) {
                Some(x) => x,
                None => TargetCodec::default(),
            },
            preservation: match chosen_value(args.preservation, file.preservation) {
                Some(x) => x,
                None => Preservation::default(),
            },
            quality_mode: match chosen_value(args.quality_mode, file.quality_mode) {
                Some(x) => x,
                None => QualityMode::default(),
            },
            quality_check: match chosen_value(args.quality_check, file.quality_check) {
                Some(x) => x,
                None => QualityCheck::default(),
            },
            quality_target: match first_value(args.quality_target, file.quality_target) {
                Some(x) => x,
                None => DEFAULT_QUALITY_TARGET,
            },
            review_margin: match first_value(args.review_margin, file.review_margin) {
                Some(x) => x,
                None => DEFAULT_REVIEW_MARGIN,
            },
            quality_threads: match first_value(args.quality_threads, file.quality_threads) {
                Some(x) => x,
                None => 0,
            },
            list_reviews: args.list_reviews,
            resolve_reviews: match &args.resolve_reviews {
                Some(x) => Some(x.clone()),
                None => None,
            },
        },
    )
}

/// The run options an invocation asks for.
pub open spec fn options_of(cli: Cli) -> RunOptions {
    RunOptions {
        target_folder: cli.target_folder,
        count: cli.count,
        keep_original: cli.keep_original,
        dry_run: cli.dry_run,
        ffmpeg: cli.ffmpeg,
        ffprobe: cli.ffprobe,
        tmp_dir: cli.tmp_dir,
        encoder: cli.encoder,
        encoder_preference: cli.encoder_preference,
        output_format: cli.output_format,
        target_codec: cli.target_codec,
        preservation: cli.preservation,
        quality_mode: cli.quality_mode,
        quality_check: cli.quality_check,
        quality_target: cli.quality_target,
        review_margin: cli.review_margin,
        quality_threads: cli.quality_threads,
    }
}

impl From<Cli> for RunOptions {
    fn from(cli: Cli) -> (r: Self) {
        RunOptions {
            target_folder: cli.target_folder,
            count: cli.count,
            keep_original: cli.keep_original,
            dry_run: cli.dry_run,
            ffmpeg: cli.ffmpeg,
            ffprobe: cli.ffprobe,
            tmp_dir: cli.tmp_dir,
            encoder: cli.encoder,
            encoder_preference: cli.encoder_preference,
            output_format: cli.output_format,
            target_codec: cli.target_codec,
            preservation: cli.preservation,
            quality_mode: cli.quality_mode,
            quality_check: cli.quality_check,
            quality_target: cli.quality_target,
            review_margin: cli.review_margin,
            quality_threads: cli.quality_threads,
        }
    }
}

impl vstd::std_specs::convert::FromSpecImpl<Cli> for RunOptions {
    open spec fn obeys_from_spec() -> bool {
        true
    }

    open spec fn from_spec(v: Cli) -> RunOptions {
        options_of(v)
    }
}

/// Command-line values win: every setting the command line gives is the
/// setting the run uses, whatever the settings file says, and so is the
/// folder it names.
pub proof fn command_line_wins(
    a: CliModel,
    c: ConfigModel,
    ffmpeg: Seq<char>,
    ffprobe: Seq<char>,
)
    ensures
        a.target_folder is Some ==> first_set(a.target_folder, c.target_folder) == a.target_folder,
        ({
            let t = or_value(first_set(a.target_folder, c.target_folder), Seq::empty());
            let v = layered(a, c, t, ffmpeg, ffprobe);
            &&& a.count matches Some(x) ==> v.count == x
            &&& a.keep_original matches Some(x) ==> v.keep_original == x
            &&& a.dry_run matches Some(x) ==> v.dry_run == x
            &&& a.ffmpeg matches Some(x) ==> v.ffmpeg == x
            &&& a.ffprobe matches Some(x) ==> v.ffprobe == x
            &&& a.tmp_dir is Some ==> v.tmp_dir == a.tmp_dir
            &&& a.encoder matches Some(x) ==> v.encoder == x
            &&& a.encoder_preference matches Some(x) ==> v.encoder_preference == or_value(
                x,
                EncoderPreference::Auto,
            )
            &&& a.output_format matches Some(x) ==> v.output_format == or_value(x, OutputFormat::Mp4)
            &&& a.target_codec matches Some(x) ==> v.target_codec == or_value(x, TargetCodec::Av1)
            &&& a.preservation matches Some(x) ==> v.preservation == or_value(
                x,
                Preservation::Flexible,
            )
            &&& a.quality_mode matches Some(x) ==> v.quality_mode == or_value(x, QualityMode::Search)
            &&& a.quality_check matches Some(x) ==> v.quality_check == or_value(
                x,
                QualityCheck::Sampled,
            )
            &&& a.quality_target matches Some(x) ==> v.quality_target == x
            &&& a.review_margin matches Some(x) ==> v.review_margin == x
            &&& a.quality_threads matches Some(x) ==> v.quality_threads == x
        }),
{
}

/// The settings file fills in what the command line leaves out, and the
/// defaults fill in what neither gives.
pub proof fn file_fills_gaps(a: CliModel, c: ConfigModel, t: Seq<char>, ffmpeg: Seq<char>, ffprobe: Seq<char>)
    ensures
        ({
            let v = layered(a, c, t, ffmpeg, ffprobe);
            &&& a.count is None ==> v.count == or_value(c.count, -1isize)
            &&& a.keep_original is None ==> v.keep_original == or_value(c.keep_original, true)
            &&& a.dry_run is None ==> v.dry_run == or_value(c.dry_run, false)
            &&& a.ffmpeg is None ==> v.ffmpeg == or_value(c.ffmpeg, ffmpeg)
            &&& a.ffprobe is None ==> v.ffprobe == or_value(c.ffprobe, ffprobe)
            &&& a.tmp_dir is None ==> v.tmp_dir == c.tmp_dir
            &&& a.encoder is None ==> v.encoder == c.encoder
            &&& a.encoder_preference is None ==> v.encoder_preference == or_value(
                c.encoder_preference,
                EncoderPreference::Auto,
            )
            &&& a.target_codec is None ==> v.target_codec == or_value(c.target_codec, TargetCodec::Av1)
            &&& a.quality_target is None ==> v.quality_target == or_value(
                c.quality_target,
                DEFAULT_QUALITY_TARGET,
            )
            &&& a.review_margin is None ==> v.review_margin == or_value(
                c.review_margin,
                DEFAULT_REVIEW_MARGIN,
            )
        }),
{
}

} // verus!
