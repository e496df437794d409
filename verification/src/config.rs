//! The settings file: flat `key: value` YAML, one setting per line.
//!
//! Only the subset a person writes by hand is accepted: top-level keys,
//! plain, single-quoted or double-quoted scalars, and `#` comments outside
//! quotes. Every enum-valued key accepts an empty value meaning "use the
//! default", so a shipped template can list a key without committing to one.
use vstd::prelude::*;
use crate::options::{
    err_view, text_result, normalize_encoder_preference_choice, normalize_encoder_preference_spec,
    normalize_preservation_choice, normalize_preservation_spec, normalize_quality_check_choice,
    normalize_quality_check_spec, normalize_quality_mode_choice, normalize_quality_mode_spec,
    normalize_target_codec_choice, normalize_target_codec_spec, EncoderPreference, Preservation,
    QualityCheck, QualityMode, TargetCodec,
};
use crate::run::{normalize_output_format_choice, normalize_output_format_spec, OutputFormat};
use crate::text::{
    chars_of, collect_all, collect_range, copy_str, decimal, decimal_string, drop_leading,
    drop_leading_chars, eq_ignore_case, eq_ignore_case_str, first_of, join2, lines, lower, lowered,
    parse_isize, parse_u32, position_of, replace_all, replace_str, signed_text, starts_with,
    starts_with_seq, str_eq, trim, trimmed, unsigned_text,
};

verus! {

/// Where a `#` comment starts in a line, scanning from position `i` with the
/// given quoting state; the length of the line when there is none. A `#`
/// inside single or double quotes is text, and inside double quotes a
/// backslash escapes the next character.
pub open spec fn comment_cut(s: Seq<char>, i: int, single: bool, double: bool, escaped: bool) -> int
    decreases s.len() - i,
{
    if i < 0 || i >= s.len() {
        s.len() as int
    } else if escaped {
        comment_cut(s, i + 1, single, double, false)
    } else if s[i] == '\\' && double {
        comment_cut(s, i + 1, single, double, true)
    } else if s[i] == '\'' && !double {
        comment_cut(s, i + 1, !single, double, false)
    } else if s[i] == '"' && !single {
        comment_cut(s, i + 1, single, !double, false)
    } else if s[i] == '#' && !single && !double {
        i
    } else {
        comment_cut(s, i + 1, single, double, false)
    }
}

pub proof fn lemma_comment_cut_bound(s: Seq<char>, i: int, single: bool, double: bool, escaped: bool)
    requires
        0 <= i <= s.len(),
    ensures
        i <= comment_cut(s, i, single, double, escaped) <= s.len(),
    decreases s.len() - i,
{
    if i < s.len() {
        lemma_comment_cut_bound(s, i + 1, single, double, false);
        lemma_comment_cut_bound(s, i + 1, single, double, true);
        lemma_comment_cut_bound(s, i + 1, !single, double, false);
        lemma_comment_cut_bound(s, i + 1, single, !double, false);
    }
}

/// A line without its trailing comment.
pub open spec fn strip_comment(s: Seq<char>) -> Seq<char> {
    s.subrange(0, comment_cut(s, 0, false, false, false))
}

/// Removes a trailing `#` comment from one line of the settings file.
pub fn strip_yaml_comment(line: &str) -> (r: String)
    ensures
        r@ == strip_comment(line@),
{
    let v = chars_of(line);
    let mut single = false;
    let mut double = false;
    let mut escaped = false;
    let mut i: usize = 0;
    while i < v.len()
        invariant
            v@ == line@,
            i <= v.len(),
            comment_cut(v@, 0, false, false, false) == comment_cut(v@, i as int, single, double, escaped),
        decreases v.len() - i,
    {
        let ch = v[i];
        if escaped {
            escaped = false;
        } else if ch == '\\' && double {
            escaped = true;
        } else if ch == '\'' && !double {
            single = !single;
        } else if ch == '"' && !single {
            double = !double;
        } else if ch == '#' && !single && !double {
            return collect_range(&v, 0, i);
        }
        i = i + 1;
    }
    collect_all(&v)
}

/// Two backslashes, the way a doubled backslash appears in a YAML scalar.
pub open spec fn two_backslashes() -> Seq<char> {
    seq!['\\', '\\']
}

/// Undoes the escapes a double-quoted scalar may carry: `\"` and `\\`.
pub open spec fn unescape_quotes(v: Seq<char>) -> Seq<char> {
    replace_all(replace_all(v, seq!['\\', '"'], seq!['"']), two_backslashes(), seq!['\\'])
}

/// The text of a double-quoted scalar. A value that starts with exactly two
/// backslashes is a Windows UNC path written without YAML escaping, so its
/// leading backslashes are kept as the two a UNC path begins with.
pub open spec fn unescape_double(v: Seq<char>) -> Seq<char> {
    if starts_with(v, two_backslashes()) && !starts_with(v, two_backslashes() + two_backslashes()) {
        two_backslashes() + unescape_quotes(drop_leading(v, '\\'))
    } else {
        unescape_quotes(v)
    }
}

/// The value of one scalar, or why it cannot be read.
pub open spec fn yaml_scalar(v: Seq<char>) -> Result<Seq<char>, Seq<char>> {
    if v.len() == 0 {
        Err("missing value"@)
    } else if v[0] == '"' {
        let rest = v.drop_first();
        if rest.len() > 0 && rest.last() == '"' {
            Ok(unescape_double(rest.drop_last()))
        } else {
            Err("unterminated double-quoted string"@)
        }
    } else if v[0] == '\'' {
        let rest = v.drop_first();
        if rest.len() > 0 && rest.last() == '\'' {
            Ok(replace_all(rest.drop_last(), seq!['\'', '\''], seq!['\'']))
        } else {
            Err("unterminated single-quoted string"@)
        }
    } else {
        Ok(v)
    }
}

fn unescape_quotes_exec(v: &Vec<char>) -> (r: Vec<char>)
    ensures
        r@ == unescape_quotes(v@),
{
    let quote = vec!['\\', '"'];
    let plain_quote = vec!['"'];
    let two = vec!['\\', '\\'];
    let one = vec!['\\'];
    assert(two@ =~= two_backslashes());
    let a = replace_str(v, &quote, &plain_quote);
    assert(quote@ =~= seq!['\\', '"']);
    assert(plain_quote@ =~= seq!['"']);
    assert(one@ =~= seq!['\\']);
    replace_str(&a, &two, &one)
}

/// Undoes the escapes of a double-quoted scalar's contents.
pub fn unescape_double_quoted_yaml_scalar(value: &str) -> (r: String)
    ensures
        r@ == unescape_double(value@),
{
    let v = chars_of(value);
    let two = vec!['\\', '\\'];
    let four = vec!['\\', '\\', '\\', '\\'];
    assert(two@ =~= two_backslashes());
    assert(four@ =~= two_backslashes() + two_backslashes());
    if starts_with_seq(&v, &two) && !starts_with_seq(&v, &four) {
        let tail = drop_leading_chars(&v, '\\');
        let fixed = unescape_quotes_exec(&tail);
        let mut out = vec!['\\', '\\'];
        let mut i: usize = 0;
        while i < fixed.len()
            invariant
                i <= fixed.len(),
                out@ == two_backslashes() + fixed@.subrange(0, i as int),
            decreases fixed.len() - i,
        {
            out.push(fixed[i]);
            i = i + 1;
            assert(out@ =~= two_backslashes() + fixed@.subrange(0, i as int));
        }
        assert(fixed@.subrange(0, fixed@.len() as int) =~= fixed@);
        collect_all(&out)
    } else {
        let fixed = unescape_quotes_exec(&v);
        collect_all(&fixed)
    }
}

/// Reads one scalar: plain, single-quoted (where `''` stands for `'`) or
/// double-quoted.
pub fn parse_yaml_scalar(value: &str) -> (r: Result<String, String>)
    ensures
        text_result(r) == yaml_scalar(value@),
{
    let v = chars_of(value);
    let n = v.len();
    if n == 0 {
        return Err(copy_str("missing value"));
    }
    if v[0] == '"' {
        if n >= 2 && v[n - 1] == '"' {
            let inner = collect_range(&v, 1, n - 1);
            proof {
                assert(value@.drop_first().drop_last() =~= v@.subrange(1, n - 1));
            }
            return Ok(unescape_double_quoted_yaml_scalar(inner.as_str()));
        }
        return Err(copy_str("unterminated double-quoted string"));
    }
    if v[0] == '\'' {
        if n >= 2 && v[n - 1] == '\'' {
            let inner = collect_range(&v, 1, n - 1);
            let inner_chars = chars_of(inner.as_str());
            let pair = vec!['\'', '\''];
            let single = vec!['\''];
            assert(pair@ =~= seq!['\'', '\'']);
            assert(single@ =~= seq!['\'']);
            proof {
                assert(value@.drop_first().drop_last() =~= v@.subrange(1, n - 1));
            }
            let replaced = replace_str(&inner_chars, &pair, &single);
            return Ok(collect_all(&replaced));
        }
        return Err(copy_str("unterminated single-quoted string"));
    }
    Ok(copy_str(value))
}

/// The value a boolean scalar stands for, or why it cannot be read.
pub open spec fn yaml_bool(v: Seq<char>) -> Result<bool, Seq<char>> {
    let k = lower(v);
    if k == "true"@ || k == "yes"@ || k == "on"@ || k == "1"@ {
        Ok(true)
    } else if k == "false"@ || k == "no"@ || k == "off"@ || k == "0"@ {
        Ok(false)
    } else {
        Err("invalid boolean value: "@ + v)
    }
}

/// Reads a boolean scalar.
pub fn parse_yaml_bool(value: &str) -> (r: Result<bool, String>)
    ensures
        err_view(r) == yaml_bool(value@),
{
    let key = lowered(value);
    let k = key.as_str();
    if str_eq(k, "true") || str_eq(k, "yes") || str_eq(k, "on") || str_eq(k, "1") {
        Ok(true)
    } else if str_eq(k, "false") || str_eq(k, "no") || str_eq(k, "off") || str_eq(k, "0") {
        Ok(false)
    } else {
        Err(join2("invalid boolean value: ", value))
    }
}

/// An encoder setting as the run sees it: none for blank, `auto` or
/// `default`, otherwise the name lowercased. Aliases are expanded later, once
/// the codec is known.
pub open spec fn encoder_choice(v: Seq<char>) -> Option<Seq<char>> {
    let t = trim(v);
    if t.len() == 0 || eq_ignore_case(t, "auto"@) || eq_ignore_case(t, "default"@) {
        None
    } else {
        Some(lower(t))
    }
}

/// Normalizes an encoder setting.
pub fn normalize_encoder_choice(value: &str) -> (r: Option<String>)
    ensures
        match r {
            Some(s) => encoder_choice(value@) == Some(s@),
            None => encoder_choice(value@) is None,
        },
{
    let t = trimmed(value);
    let ts = t.as_str();
    if ts.unicode_len() == 0 || eq_ignore_case_str(ts, "auto") || eq_ignore_case_str(ts, "default") {
        None
    } else {
        Some(lowered(ts))
    }
}

/// `line N: `, the prefix every per-line error carries.
pub open spec fn line_prefix(n: nat) -> Seq<char> {
    "line "@ + decimal(n) + ": "@
}

fn line_error(line_number: usize, message: &str) -> (r: String)
    ensures
        r@ == line_prefix(line_number as nat) + message@,
{
    let mut out = copy_str("line ");
    let d = decimal_string(line_number as u64);
    out.append(d.as_str());
    out.append(": ");
    out.append(message);
    out
}

/// A value that may be left blank: empty, or the scalar it holds.
pub open spec fn optional_value(raw: Seq<char>, n: nat) -> Result<Seq<char>, Seq<char>> {
    if raw.len() == 0 {
        Ok(Seq::empty())
    } else {
        match yaml_scalar(raw) {
            Ok(v) => Ok(v),
            Err(e) => Err(line_prefix(n) + e),
        }
    }
}

/// Reads a config value that may be left blank.
pub fn optional_yaml_value(raw_value: &str, line_number: usize) -> (r: Result<String, String>)
    ensures
        text_result(r) == optional_value(raw_value@, line_number as nat),
{
    if raw_value.unicode_len() == 0 {
        let r = String::new();
        assert(r@ =~= Seq::<char>::empty());
        Ok(r)
    } else {
        match parse_yaml_scalar(raw_value) {
            Ok(v) => Ok(v),
            Err(e) => Err(line_error(line_number, e.as_str())),
        }
    }
}

/// The settings one file may hold, each present only when the file sets it.
#[derive(Debug, Clone, PartialEq, Eq)]
pub struct Config {
    pub target_folder: Option<String>,
    pub count: Option<isize>,
    pub keep_original: Option<bool>,
    pub dry_run: Option<bool>,
    pub ffmpeg: Option<String>,
    pub ffprobe: Option<String>,
    pub tmp_dir: Option<String>,
    pub encoder: Option<String>,
    pub encoder_preference: Option<EncoderPreference>,
    pub output_format: Option<OutputFormat>,
    pub target_codec: Option<TargetCodec>,
    pub preservation: Option<Preservation>,
    pub quality_mode: Option<QualityMode>,
    pub quality_check: Option<QualityCheck>,
    pub quality_target: Option<u32>,
    pub review_margin: Option<u32>,
    pub quality_threads: Option<u32>,
}

/// A `Config` with its strings read as characters.
pub struct ConfigModel {
    pub target_folder: Option<Seq<char>>,
    pub count: Option<isize>,
    pub keep_original: Option<bool>,
    pub dry_run: Option<bool>,
    pub ffmpeg: Option<Seq<char>>,
    pub ffprobe: Option<Seq<char>>,
    pub tmp_dir: Option<Seq<char>>,
    pub encoder: Option<Seq<char>>,
    pub encoder_preference: Option<EncoderPreference>,
    pub output_format: Option<OutputFormat>,
    pub target_codec: Option<TargetCodec>,
    pub preservation: Option<Preservation>,
    pub quality_mode: Option<QualityMode>,
    pub quality_check: Option<QualityCheck>,
    pub quality_target: Option<u32>,
    pub review_margin: Option<u32>,
    pub quality_threads: Option<u32>,
}

pub open spec fn opt_text(o: Option<String>) -> Option<Seq<char>> {
    match o {
        Some(s) => Some(s@),
        None => None,
    }
}

/// A settings file that sets nothing.
pub open spec fn empty_model() -> ConfigModel {
    ConfigModel {
        target_folder: None,
        count: None,
        keep_original: None,
        dry_run: None,
        ffmpeg: None,
        ffprobe: None,
        tmp_dir: None,
        encoder: None,
        encoder_preference: None,
        output_format: None,
        target_codec: None,
        preservation: None,
        quality_mode: None,
        quality_check: None,
        quality_target: None,
        review_margin: None,
        quality_threads: None,
    }
}

impl Config {
    pub open spec fn model(&self) -> ConfigModel {
        ConfigModel {
            target_folder: opt_text(self.target_folder),
            count: self.count,
            keep_original: self.keep_original,
            dry_run: self.dry_run,
            ffmpeg: opt_text(self.ffmpeg),
            ffprobe: opt_text(self.ffprobe),
            tmp_dir: opt_text(self.tmp_dir),
            encoder: opt_text(self.encoder),
            encoder_preference: self.encoder_preference,
            output_format: self.output_format,
            target_codec: self.target_codec,
            preservation: self.preservation,
            quality_mode: self.quality_mode,
            quality_check: self.quality_check,
            quality_target: self.quality_target,
            review_margin: self.review_margin,
            quality_threads: self.quality_threads,
        }
    }
}

impl Default for Config {
    fn default() -> (r: Self)
        ensures
            r.model() == empty_model(),
    {
        Config {
            target_folder: None,
            count: None,
            keep_original: None,
            dry_run: None,
            ffmpeg: None,
            ffprobe: None,
            tmp_dir: None,
            encoder: None,
            encoder_preference: None,
            output_format: None,
            target_codec: None,
            preservation: None,
            quality_mode: None,
            quality_check: None,
            quality_target: None,
            review_margin: None,
            quality_threads: None,
        }
    }
}

/// A value that needs a decimal quality number read from it, which one line
/// of the settings file may leave for its caller.
pub enum Pending {
    Nothing,
    QualityTarget(Seq<char>),
    ReviewMargin(Seq<char>),
}

/// What one line of the settings file does to the settings read so far,
/// before any quality number on it is read.
pub open spec fn line_effect(m: ConfigModel, raw: Seq<char>, n: nat) -> Result<
    (ConfigModel, Pending),
    Seq<char>,
> {
    let line = trim(strip_comment(raw));
    let k = first_of(line, ':');
    let key = trim(line.subrange(0, k as int));
    let raw_value = trim(line.subrange(k as int + 1, line.len() as int));
    if line.len() == 0 || line == "---"@ {
        Ok((m, Pending::Nothing))
    } else if raw.len() > 0 && (raw[0] == ' ' || raw[0] == '\t') {
        Err(line_prefix(n) + "nested YAML is not supported; use top-level key: value pairs"@)
    } else if k >= line.len() {
        Err(line_prefix(n) + "expected key: value"@)
    } else if key == "encoder"@ || key == "av1_encoder"@ {
        if raw_value.len() == 0 {
            Ok((ConfigModel { encoder: encoder_choice(Seq::empty()), ..m }, Pending::Nothing))
        } else {
            match yaml_scalar(raw_value) {
                Ok(v) => Ok((ConfigModel { encoder: encoder_choice(v), ..m }, Pending::Nothing)),
                Err(e) => Err(line_prefix(n) + e),
            }
        }
    } else if key == "encoder_preference"@ || key == "conversion_mode"@ || key == "output_format"@
        || key == "target_codec"@ || key == "codec"@ || key == "preservation"@ || key
        == "quality_mode"@ || key == "quality_check"@ || key == "quality_target"@ || key
        == "review_margin"@ || key == "quality_threads"@ {
        match optional_value(raw_value, n) {
            Err(e) => Err(e),
            Ok(v) => if key == "encoder_preference"@ || key == "conversion_mode"@ {
                match normalize_encoder_preference_spec(v) {
                    Ok(p) => Ok((ConfigModel { encoder_preference: p, ..m }, Pending::Nothing)),
                    Err(e) => Err(line_prefix(n) + e),
                }
            } else if key == "output_format"@ {
                match normalize_output_format_spec(v) {
                    Ok(p) => Ok((ConfigModel { output_format: p, ..m }, Pending::Nothing)),
                    Err(e) => Err(line_prefix(n) + e),
                }
            } else if key == "target_codec"@ || key == "codec"@ {
                match normalize_target_codec_spec(v) {
                    Ok(p) => Ok((ConfigModel { target_codec: p, ..m }, Pending::Nothing)),
                    Err(e) => Err(line_prefix(n) + e),
                }
            } else if key == "preservation"@ {
                match normalize_preservation_spec(v) {
                    Ok(p) => Ok((ConfigModel { preservation: p, ..m }, Pending::Nothing)),
                    Err(e) => Err(line_prefix(n) + e),
                }
            } else if key == "quality_mode"@ {
                match normalize_quality_mode_spec(v) {
                    Ok(p) => Ok((ConfigModel { quality_mode: p, ..m }, Pending::Nothing)),
                    Err(e) => Err(line_prefix(n) + e),
                }
            } else if key == "quality_check"@ {
                match normalize_quality_check_spec(v) {
                    Ok(p) => Ok((ConfigModel { quality_check: p, ..m }, Pending::Nothing)),
                    Err(e) => Err(line_prefix(n) + e),
                }
            } else if trim(v).len() == 0 {
                Ok((m, Pending::Nothing))
            } else if key == "quality_target"@ {
                Ok((m, Pending::QualityTarget(v)))
            } else if key == "review_margin"@ {
                Ok((m, Pending::ReviewMargin(v)))
            } else {
                match unsigned_text(trim(v)) {
                    Some(x) => if x <= u32::MAX {
                        Ok((ConfigModel { quality_threads: Some(x as u32), ..m }, Pending::Nothing))
                    } else {
                        Err(line_prefix(n) + "invalid quality_threads value: "@ + v)
                    },
                    None => Err(line_prefix(n) + "invalid quality_threads value: "@ + v),
                }
            },
        }
    } else {
        match yaml_scalar(raw_value) {
            Err(e) => Err(line_prefix(n) + e),
            Ok(v) => if key == "target_folder"@ || key == "target"@ {
                Ok((ConfigModel { target_folder: Some(v), ..m }, Pending::Nothing))
            } else if key == "count"@ {
                match signed_text(v) {
                    Some(x) => if isize::MIN <= x <= isize::MAX {
                        if x < -1 {
                            Err("count must be -1 or greater"@)
                        } else {
                            Ok((ConfigModel { count: Some(x as isize), ..m }, Pending::Nothing))
                        }
                    } else {
                        Err("invalid count value: "@ + v)
                    },
                    None => Err("invalid count value: "@ + v),
                }
            } else if key == "keep_original"@ {
                match yaml_bool(v) {
                    Ok(b) => Ok((ConfigModel { keep_original: Some(b), ..m }, Pending::Nothing)),
                    Err(e) => Err(e),
                }
            } else if key == "dry_run"@ {
                match yaml_bool(v) {
                    Ok(b) => Ok((ConfigModel { dry_run: Some(b), ..m }, Pending::Nothing)),
                    Err(e) => Err(e),
                }
            } else if key == "tmp_dir"@ || key == "temporary_dir"@ || key == "temp_dir"@ {
                Ok((ConfigModel { tmp_dir: Some(v), ..m }, Pending::Nothing))
            } else if key == "ffmpeg"@ {
                Ok((ConfigModel { ffmpeg: Some(v), ..m }, Pending::Nothing))
            } else if key == "ffprobe"@ {
                Ok((ConfigModel { ffprobe: Some(v), ..m }, Pending::Nothing))
            } else {
                Err(line_prefix(n) + "unknown key: "@ + key)
            },
        }
    }
}

/// The key a settings-file line names.
pub open spec fn line_key(raw: Seq<char>) -> Seq<char> {
    let line = trim(strip_comment(raw));
    trim(line.subrange(0, first_of(line, ':') as int))
}

/// The value a settings-file line gives its key.
pub open spec fn line_value(raw: Seq<char>) -> Seq<char> {
    let line = trim(strip_comment(raw));
    trim(line.subrange(first_of(line, ':') as int + 1, line.len() as int))
}

/// Whether a line is a top-level `key: value` pair.
pub open spec fn pair_line(raw: Seq<char>) -> bool {
    let line = trim(strip_comment(raw));
    &&& line.len() > 0
    &&& line != "---"@
    &&& !(raw.len() > 0 && (raw[0] == ' ' || raw[0] == '\t'))
    &&& first_of(line, ':') < line.len()
}

/// What each key of the settings file does: each known key, given a value
/// that reads, sets its setting from that value (the quality numbers are
/// read afterwards); none of them is ever an unknown key.
pub proof fn settings_keys_do_what_they_say(m: ConfigModel, raw: Seq<char>, n: nat)
    requires
        pair_line(raw),
    ensures
        ({
            let key = line_key(raw);
            let value = line_value(raw);
            let e = line_effect(m, raw, n);
            &&& (key == "encoder_preference"@ || key == "conversion_mode"@) ==> (optional_value(value, n) matches Ok(v) ==> e == match normalize_encoder_preference_spec(v) {
                Ok(p) => Ok::<(ConfigModel, Pending), Seq<char>>((ConfigModel { encoder_preference: p, ..m }, Pending::Nothing)),
                Err(x) => Err(line_prefix(n) + x),
            })
            &&& (key == "output_format"@) ==> (optional_value(value, n) matches Ok(v) ==> e == match normalize_output_format_spec(v) {
                Ok(p) => Ok::<(ConfigModel, Pending), Seq<char>>((ConfigModel { output_format: p, ..m }, Pending::Nothing)),
                Err(x) => Err(line_prefix(n) + x),
            })
            &&& (key == "target_codec"@ || key == "codec"@) ==> (optional_value(value, n) matches Ok(v) ==> e == match normalize_target_codec_spec(v) {
                Ok(p) => Ok::<(ConfigModel, Pending), Seq<char>>((ConfigModel { target_codec: p, ..m }, Pending::Nothing)),
                Err(x) => Err(line_prefix(n) + x),
            })
            &&& (key == "preservation"@) ==> (optional_value(value, n) matches Ok(v) ==> e == match normalize_preservation_spec(v) {
                Ok(p) => Ok::<(ConfigModel, Pending), Seq<char>>((ConfigModel { preservation: p, ..m }, Pending::Nothing)),
                Err(x) => Err(line_prefix(n) + x),
            })
            &&& (key == "quality_mode"@) ==> (optional_value(value, n) matches Ok(v) ==> e == match normalize_quality_mode_spec(v) {
                Ok(p) => Ok::<(ConfigModel, Pending), Seq<char>>((ConfigModel { quality_mode: p, ..m }, Pending::Nothing)),
                Err(x) => Err(line_prefix(n) + x),
            })
            &&& (key == "quality_check"@) ==> (optional_value(value, n) matches Ok(v) ==> e == match normalize_quality_check_spec(v) {
                Ok(p) => Ok::<(ConfigModel, Pending), Seq<char>>((ConfigModel { quality_check: p, ..m }, Pending::Nothing)),
                Err(x) => Err(line_prefix(n) + x),
            })
            &&& key == "quality_target"@ ==> (optional_value(value, n) matches Ok(v) ==> (trim(v).len() > 0 ==> e
                == Ok::<(ConfigModel, Pending), Seq<char>>((m, Pending::QualityTarget(v)))))
            &&& key == "review_margin"@ ==> (optional_value(value, n) matches Ok(v) ==> (trim(v).len() > 0 ==> e
                == Ok::<(ConfigModel, Pending), Seq<char>>((m, Pending::ReviewMargin(v)))))
            &&& (key == "encoder"@ || key == "av1_encoder"@) ==> (value.len() > 0 ==> (yaml_scalar(value) matches Ok(v)
                ==> e == Ok::<(ConfigModel, Pending), Seq<char>>((ConfigModel { encoder: encoder_choice(v), ..m }, Pending::Nothing))))
            &&& (key == "target_folder"@ || key == "target"@) ==> (yaml_scalar(value) matches Ok(v) ==> e == Ok::<(ConfigModel, Pending), Seq<char>>(
                (ConfigModel { target_folder: Some(v), ..m }, Pending::Nothing),
            ))
            &&& (key == "tmp_dir"@ || key == "temporary_dir"@ || key == "temp_dir"@) ==> (yaml_scalar(value) matches Ok(v) ==> e == Ok::<(ConfigModel, Pending), Seq<char>>(
                (ConfigModel { tmp_dir: Some(v), ..m }, Pending::Nothing),
            ))
            &&& (key == "ffmpeg"@) ==> (yaml_scalar(value) matches Ok(v) ==> e == Ok::<(ConfigModel, Pending), Seq<char>>(
                (ConfigModel { ffmpeg: Some(v), ..m }, Pending::Nothing),
            ))
            &&& (key == "ffprobe"@) ==> (yaml_scalar(value) matches Ok(v) ==> e == Ok::<(ConfigModel, Pending), Seq<char>>(
                (ConfigModel { ffprobe: Some(v), ..m }, Pending::Nothing),
            ))
            &&& key == "keep_original"@ ==> (yaml_scalar(value) matches Ok(v) ==> (yaml_bool(v) matches Ok(b) ==> e
                == Ok::<(ConfigModel, Pending), Seq<char>>((ConfigModel { keep_original: Some(b), ..m }, Pending::Nothing))))
            &&& key == "dry_run"@ ==> (yaml_scalar(value) matches Ok(v) ==> (yaml_bool(v) matches Ok(b) ==> e
                == Ok::<(ConfigModel, Pending), Seq<char>>((ConfigModel { dry_run: Some(b), ..m }, Pending::Nothing))))
            &&& key == "count"@ ==> (yaml_scalar(value) matches Ok(v) ==> (signed_text(v) is Some && -1 <= signed_text(v)->0
                <= isize::MAX ==> e == Ok::<(ConfigModel, Pending), Seq<char>>(
                (ConfigModel { count: Some(signed_text(v)->0 as isize), ..m }, Pending::Nothing),
            )))
        }),
{
    reveal_strlit("encoder");
    assert("encoder"@.len() == 7);
    reveal_strlit("av1_encoder");
    assert("av1_encoder"@.len() == 11);
    reveal_strlit("encoder_preference");
    assert("encoder_preference"@.len() == 18);
    reveal_strlit("conversion_mode");
    assert("conversion_mode"@.len() == 15);
    reveal_strlit("output_format");
    assert("output_format"@.len() == 13);
    reveal_strlit("target_codec");
    assert("target_codec"@.len() == 12);
    reveal_strlit("codec");
    assert("codec"@.len() == 5);
    reveal_strlit("preservation");
    assert("preservation"@.len() == 12);
    reveal_strlit("quality_mode");
    assert("quality_mode"@.len() == 12);
    reveal_strlit("quality_check");
    assert("quality_check"@.len() == 13);
    reveal_strlit("quality_target");
    assert("quality_target"@.len() == 14);
    reveal_strlit("review_margin");
    assert("review_margin"@.len() == 13);
    reveal_strlit("quality_threads");
    assert("quality_threads"@.len() == 15);
    reveal_strlit("target_folder");
    assert("target_folder"@.len() == 13);
    reveal_strlit("target");
    assert("target"@.len() == 6);
    reveal_strlit("count");
    assert("count"@.len() == 5);
    reveal_strlit("keep_original");
    assert("keep_original"@.len() == 13);
    reveal_strlit("dry_run");
    assert("dry_run"@.len() == 7);
    reveal_strlit("tmp_dir");
    assert("tmp_dir"@.len() == 7);
    reveal_strlit("temporary_dir");
    assert("temporary_dir"@.len() == 13);
    reveal_strlit("temp_dir");
    assert("temp_dir"@.len() == 8);
    reveal_strlit("ffmpeg");
    assert("ffmpeg"@.len() == 6);
    reveal_strlit("ffprobe");
    assert("ffprobe"@.len() == 7);
    reveal_strlit("---");
    assert("---"@.len() == 3);
    assert("encoder"@[0] != "dry_run"@[0]);
    assert("encoder"@[0] != "tmp_dir"@[0]);
    assert("encoder"@[0] != "ffprobe"@[0]);
    assert("conversion_mode"@[0] != "quality_threads"@[0]);
    assert("output_format"@[0] != "quality_check"@[0]);
    assert("output_format"@[0] != "review_margin"@[0]);
    assert("output_format"@[0] != "target_folder"@[0]);
    assert("output_format"@[0] != "keep_original"@[0]);
    assert("output_format"@[0] != "temporary_dir"@[0]);
    assert("target_codec"@[0] != "preservation"@[0]);
    assert("target_codec"@[0] != "quality_mode"@[0]);
    assert("codec"@[2] != "count"@[2]);
    assert("preservation"@[0] != "quality_mode"@[0]);
    assert("quality_check"@[0] != "review_margin"@[0]);
    assert("quality_check"@[0] != "target_folder"@[0]);
    assert("quality_check"@[0] != "keep_original"@[0]);
    assert("quality_check"@[0] != "temporary_dir"@[0]);
    assert("review_margin"@[0] != "target_folder"@[0]);
    assert("review_margin"@[0] != "keep_original"@[0]);
    assert("review_margin"@[0] != "temporary_dir"@[0]);
    assert("target_folder"@[0] != "keep_original"@[0]);
    assert("target_folder"@[1] != "temporary_dir"@[1]);
    assert("target"@[0] != "ffmpeg"@[0]);
    assert("keep_original"@[0] != "temporary_dir"@[0]);
    assert("dry_run"@[0] != "tmp_dir"@[0]);
    assert("dry_run"@[0] != "ffprobe"@[0]);
    assert("tmp_dir"@[0] != "ffprobe"@[0]);
}

/// What one line of the settings file leaves for its caller.
pub enum LineOutcome {
    /// The line is fully applied.
    Applied,
    /// The line sets the quality target, from this value.
    QualityTarget(String),
    /// The line sets the review margin, from this value.
    ReviewMargin(String),
}

pub open spec fn outcome_view(o: LineOutcome) -> Pending {
    match o {
        LineOutcome::Applied => Pending::Nothing,
        LineOutcome::QualityTarget(v) => Pending::QualityTarget(v@),
        LineOutcome::ReviewMargin(v) => Pending::ReviewMargin(v@),
    }
}

/// Applies one line of the settings file, numbered `line_number` from one.
/// A quality target or review margin is a decimal number, which this leaves
/// for the caller to read.
pub fn apply_config_line(config: &mut Config, raw_line: &str, line_number: usize) -> (r: Result<
    LineOutcome,
    String,
>)
    ensures
        match line_effect(old(config).model(), raw_line@, line_number as nat) {
            Ok((m, p)) => r matches Ok(o) && outcome_view(o) == p && final(config).model() == m,
            Err(e) => r matches Err(msg) && msg@ == e,
        },
{
    let stripped = strip_yaml_comment(raw_line);
    let line_text = trimmed(stripped.as_str());
    let line = line_text.as_str();
    let lv = chars_of(line);
    let k = position_of(&lv, ':');
    if lv.len() == 0 || str_eq(line, "---") {
        return Ok(LineOutcome::Applied);
    }
    let raw_chars = chars_of(raw_line);
    if raw_chars.len() > 0 && (raw_chars[0] == ' ' || raw_chars[0] == '\t') {
        return Err(
            line_error(
                line_number,
                "nested YAML is not supported; use top-level key: value pairs",
            ),
        );
    }
    if k >= lv.len() {
        return Err(line_error(line_number, "expected key: value"));
    }
    let key_part = collect_range(&lv, 0, k);
    let value_part = collect_range(&lv, k + 1, lv.len());
    let key_text = trimmed(key_part.as_str());
    let key = key_text.as_str();
    let raw_text = trimmed(value_part.as_str());
    let raw_value = raw_text.as_str();
    if str_eq(key, "encoder") || str_eq(key, "av1_encoder") {
        let value = if raw_value.unicode_len() == 0 {
            let e = String::new();
            assert(e@ =~= Seq::<char>::empty());
            e
        } else {
            match parse_yaml_scalar(raw_value) {
                Ok(v) => v,
                Err(e) => {
                    return Err(line_error(line_number, e.as_str()));
                },
            }
        };
        config.encoder = normalize_encoder_choice(value.as_str());
        return Ok(LineOutcome::Applied);
    }
    if str_eq(key, "encoder_preference") || str_eq(key, "conversion_mode") || str_eq(
        key,
        "output_format",
    ) || str_eq(key, "target_codec") || str_eq(key, "codec") || str_eq(key, "preservation")
        || str_eq(key, "quality_mode") || str_eq(key, "quality_check") || str_eq(
        key,
        "quality_target",
    ) || str_eq(key, "review_margin") || str_eq(key, "quality_threads") {
        let value = match optional_yaml_value(raw_value, line_number) {
            Ok(v) => v,
            Err(e) => {
                return Err(e);
            },
        };
        let v = value.as_str();
        if str_eq(key, "encoder_preference") || str_eq(key, "conversion_mode") {
            match normalize_encoder_preference_choice(v) {
                Ok(p) => {
                    config.encoder_preference = p;
                    return Ok(LineOutcome::Applied);
                },
                Err(e) => {
                    return Err(line_error(line_number, e.as_str()));
                },
            }
        }
        if str_eq(key, "output_format") {
            match normalize_output_format_choice(v) {
                Ok(p) => {
                    config.output_format = p;
                    return Ok(LineOutcome::Applied);
                },
                Err(e) => {
                    return Err(line_error(line_number, e.as_str()));
                },
            }
        }
        if str_eq(key, "target_codec") || str_eq(key, "codec") {
            match normalize_target_codec_choice(v) {
                Ok(p) => {
                    config.target_codec = p;
                    return Ok(LineOutcome::Applied);
                },
                Err(e) => {
                    return Err(line_error(line_number, e.as_str()));
                },
            }
        }
        if str_eq(key, "preservation") {
            match normalize_preservation_choice(v) {
                Ok(p) => {
                    config.preservation = p;
                    return Ok(LineOutcome::Applied);
                },
                Err(e) => {
                    return Err(line_error(line_number, e.as_str()));
                },
            }
        }
        if str_eq(key, "quality_mode") {
            match normalize_quality_mode_choice(v) {
                Ok(p) => {
                    config.quality_mode = p;
                    return Ok(LineOutcome::Applied);
                },
                Err(e) => {
                    return Err(line_error(line_number, e.as_str()));
                },
            }
        }
        if str_eq(key, "quality_check") {
            match normalize_quality_check_choice(v) {
                Ok(p) => {
                    config.quality_check = p;
                    return Ok(LineOutcome::Applied);
                },
                Err(e) => {
                    return Err(line_error(line_number, e.as_str()));
                },
            }
        }
        let tv = trimmed(v);
        if tv.as_str().unicode_len() == 0 {
            return Ok(LineOutcome::Applied);
        }
        if str_eq(key, "quality_target") {
            return Ok(LineOutcome::QualityTarget(value));
        }
        if str_eq(key, "review_margin") {
            return Ok(LineOutcome::ReviewMargin(value));
        }
        match parse_u32(tv.as_str()) {
            Some(x) => {
                config.quality_threads = Some(x);
                return Ok(LineOutcome::Applied);
            },
            None => {
                let msg = join2("invalid quality_threads value: ", v);
                return Err(line_error(line_number, msg.as_str()));
            },
        }
    }
    let value = match parse_yaml_scalar(raw_value) {
        Ok(v) => v,
        Err(e) => {
            return Err(line_error(line_number, e.as_str()));
        },
    };
    let v = value.as_str();
    if str_eq(key, "target_folder") || str_eq(key, "target") {
        config.target_folder = Some(value);
        return Ok(LineOutcome::Applied);
    }
    if str_eq(key, "count") {
        match parse_isize(v) {
            Some(x) => {
                if x < -1 {
                    return Err(copy_str("count must be -1 or greater"));
                }
                config.count = Some(x);
                return Ok(LineOutcome::Applied);
            },
            None => {
                return Err(join2("invalid count value: ", v));
            },
        }
    }
    if str_eq(key, "keep_original") {
        match parse_yaml_bool(v) {
            Ok(b) => {
                config.keep_original = Some(b);
                return Ok(LineOutcome::Applied);
            },
            Err(e) => {
                return Err(e);
            },
        }
    }
    if str_eq(key, "dry_run") {
        match parse_yaml_bool(v) {
            Ok(b) => {
                config.dry_run = Some(b);
                return Ok(LineOutcome::Applied);
            },
            Err(e) => {
                return Err(e);
            },
        }
    }
    if str_eq(key, "tmp_dir") || str_eq(key, "temporary_dir") || str_eq(key, "temp_dir") {
        config.tmp_dir = Some(value);
        return Ok(LineOutcome::Applied);
    }
    if str_eq(key, "ffmpeg") {
        config.ffmpeg = Some(value);
        return Ok(LineOutcome::Applied);
    }
    if str_eq(key, "ffprobe") {
        config.ffprobe = Some(value);
        return Ok(LineOutcome::Applied);
    }
    let msg = join2("unknown key: ", key);
    Err(line_error(line_number, msg.as_str()))
}

/// Whether `f` can read a decimal quality number from any text, giving the
/// same answer for the same characters.
pub open spec fn reads_numbers<F: Fn(String) -> Result<u32, String>>(f: F) -> bool {
    &&& forall|a: String| #[trigger] f.requires((a,))
    &&& forall|a: String, b: String, x: Result<u32, String>, y: Result<u32, String>|
        #[trigger] f.ensures((a,), x) && #[trigger] f.ensures((b,), y) && a@ == b@ ==> err_view(x)
            == err_view(y)
}

/// Whether `f` can answer `r` for some text with the characters `v`.
pub open spec fn gives<F: Fn(String) -> Result<u32, String>>(
    f: F,
    v: Seq<char>,
    r: Result<u32, String>,
) -> bool {
    exists|a: String| a@ == v && #[trigger] f.ensures((a,), r)
}

/// The answer `f` gives for the characters `v`.
pub open spec fn answer<F: Fn(String) -> Result<u32, String>>(f: F, v: Seq<char>) -> Result<
    u32,
    Seq<char>,
> {
    err_view(choose|r: Result<u32, String>| #[trigger] gives(f, v, r))
}

pub proof fn lemma_answer<F: Fn(String) -> Result<u32, String>>(f: F, a: String, x: Result<u32, String>)
    requires
        reads_numbers(f),
        f.ensures((a,), x),
    ensures
        answer(f, a@) == err_view(x),
{
    assert(gives(f, a@, x));
    let r = choose|r: Result<u32, String>| #[trigger] gives(f, a@, r);
    assert(gives(f, a@, r));
    let b = choose|b: String| b@ == a@ && #[trigger] f.ensures((b,), r);
    assert(f.ensures((b,), r));
}

/// What one line of the settings file does to the settings read so far, with
/// `target` and `points` reading its quality target or review margin.
pub open spec fn config_line<F: Fn(String) -> Result<u32, String>, G: Fn(String) -> Result<u32, String>>(
    m: ConfigModel,
    raw: Seq<char>,
    n: nat,
    target: F,
    points: G,
) -> Result<ConfigModel, Seq<char>> {
    match line_effect(m, raw, n) {
        Err(e) => Err(e),
        Ok((m2, Pending::Nothing)) => Ok(m2),
        Ok((m2, Pending::QualityTarget(v))) => match answer(target, v) {
            Ok(x) => Ok(ConfigModel { quality_target: Some(x), ..m2 }),
            Err(e) => Err(line_prefix(n) + e),
        },
        Ok((m2, Pending::ReviewMargin(v))) => match answer(points, v) {
            Ok(x) => Ok(ConfigModel { review_margin: Some(x), ..m2 }),
            Err(e) => Err(line_prefix(n) + e),
        },
    }
}

/// The settings after lines `i..` of a file, starting from `m`; the first
/// line that cannot be read ends it with its error.
pub open spec fn config_fold<F: Fn(String) -> Result<u32, String>, G: Fn(String) -> Result<u32, String>>(
    m: ConfigModel,
    ls: Seq<Seq<char>>,
    i: int,
    target: F,
    points: G,
) -> Result<ConfigModel, Seq<char>>
    decreases ls.len() - i,
{
    if i < 0 || i >= ls.len() {
        Ok(m)
    } else {
        match config_line(m, ls[i], (i + 1) as nat, target, points) {
            Ok(m2) => config_fold(m2, ls, i + 1, target, points),
            Err(e) => Err(e),
        }
    }
}

/// The settings a whole file holds, or the first reason it cannot be read.
pub open spec fn config_text<F: Fn(String) -> Result<u32, String>, G: Fn(String) -> Result<u32, String>>(
    text: Seq<char>,
    target: F,
    points: G,
) -> Result<ConfigModel, Seq<char>> {
    config_fold(empty_model(), lines(text), 0, target, points)
}

/// Parses a settings file. `parse_target` reads a quality target such as
/// `95` or `94.5` into hundredths, and `parse_points` a point value such as
/// `2` or `1.5`; each reports a user-facing error for text it cannot read.
pub fn parse_config_yaml<F: Fn(String) -> Result<u32, String>, G: Fn(String) -> Result<u32, String>>(
    text: &str,
    parse_target: F,
    parse_points: G,
) -> (r: Result<Config, String>)
    requires
        reads_numbers(parse_target),
        reads_numbers(parse_points),
    ensures
        match config_text(text@, parse_target, parse_points) {
            Ok(m) => r matches Ok(c) && c.model() == m,
            Err(e) => r matches Err(msg) && msg@ == e,
        },
{
    let all_lines = crate::text::split_lines(text);
    let ghost ls = lines(text@);
    let mut config = Config::default();
    let mut i: usize = 0;
    while i < all_lines.len()
        invariant
            all_lines@.len() == ls.len(),
            ls == lines(text@),
            forall|k: int| 0 <= k < all_lines@.len() ==> (#[trigger] all_lines@[k])@ == ls[k],
            i <= all_lines.len(),
            reads_numbers(parse_target),
            reads_numbers(parse_points),
            config_fold(config.model(), ls, i as int, parse_target, parse_points) == config_text(
                text@,
                parse_target,
                parse_points,
            ),
        decreases all_lines.len() - i,
    {
        let line_number = i + 1;
        let outcome = match apply_config_line(&mut config, all_lines[i].as_str(), line_number) {
            Ok(o) => o,
            Err(e) => {
                return Err(e);
            },
        };
        match outcome {
            LineOutcome::Applied => {},
            LineOutcome::QualityTarget(v) => {
                let ghost vv = v;
                match parse_target(v) {
                    Ok(x) => {
                        proof {
                            lemma_answer(parse_target, vv, Ok::<u32, String>(x));
                        }
                        config.quality_target = Some(x);
                    },
                    Err(e) => {
                        proof {
                            lemma_answer(parse_target, vv, Err::<u32, String>(e));
                        }
                        return Err(line_error(line_number, e.as_str()));
                    },
                }
            },
            LineOutcome::ReviewMargin(v) => {
                let ghost vv = v;
                match parse_points(v) {
                    Ok(x) => {
                        proof {
                            lemma_answer(parse_points, vv, Ok::<u32, String>(x));
                        }
                        config.review_margin = Some(x);
                    },
                    Err(e) => {
                        proof {
                            lemma_answer(parse_points, vv, Err::<u32, String>(e));
                        }
                        return Err(line_error(line_number, e.as_str()));
                    },
                }
            },
        }
        i = i + 1;
    }
    Ok(config)
}

} // verus!
