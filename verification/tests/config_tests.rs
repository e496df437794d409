use myvidcomp::config::{
    normalize_encoder_choice, parse_config_yaml, parse_yaml_bool, parse_yaml_scalar,
    strip_yaml_comment, unescape_double_quoted_yaml_scalar, Config,
};
use myvidcomp::options::{validate_quality_target, QualityMode, TargetCodec};
use myvidcomp::run::OutputFormat;

fn quality_target(value: String) -> Result<u32, String> {
    let trimmed = value.trim().to_string();
    match trimmed.parse::<f64>() {
        Ok(parsed) if parsed.is_finite() && parsed >= 0.0 => {
            validate_quality_target((parsed * 100.0).round() as u32)
        }
        _ => Err(format!("invalid quality target: {trimmed}")),
    }
}

fn quality_points(value: String) -> Result<u32, String> {
    let trimmed = value.trim().to_string();
    match trimmed.parse::<f64>() {
        Ok(parsed) if parsed.is_finite() && (0.0..=100.0).contains(&parsed) => {
            Ok((parsed * 100.0).round() as u32)
        }
        _ => Err(format!("invalid quality value: {trimmed}")),
    }
}

fn parse(text: &str) -> Result<Config, String> {
    parse_config_yaml(text, quality_target, quality_points)
}

#[test]
fn parses_flat_yaml_config_comments_and_quotes() {
    let parsed = parse(
        r#"
---
target: "/Volumes/video # archive"
count: -1
keep_original: yes
dry_run: off # preview disabled
ffmpeg: 'C:\Tools\ffmpeg.exe'
ffprobe: C:\Tools\ffprobe.exe
tmp_dir: C:\Temp\myvidcomp
encoder: amf
"#,
    )
    .unwrap();

    assert_eq!(
        parsed.target_folder,
        Some("/Volumes/video # archive".to_string())
    );
    assert_eq!(parsed.count, Some(-1));
    assert_eq!(parsed.keep_original, Some(true));
    assert_eq!(parsed.dry_run, Some(false));
    assert_eq!(parsed.ffmpeg, Some("C:\\Tools\\ffmpeg.exe".to_string()));
    assert_eq!(parsed.ffprobe, Some("C:\\Tools\\ffprobe.exe".to_string()));
    assert_eq!(parsed.tmp_dir, Some("C:\\Temp\\myvidcomp".to_string()));
    assert_eq!(parsed.encoder, Some("amf".to_string()));
}

#[test]
fn empty_config_encoder_keeps_auto_detection() {
    let parsed = parse(
        r#"
target_folder: "/videos"
encoder:
"#,
    )
    .unwrap();

    assert_eq!(parsed.encoder, None);
    assert_eq!(normalize_encoder_choice("default"), None);
    assert_eq!(normalize_encoder_choice("auto"), None);
    assert_eq!(normalize_encoder_choice("qsv"), Some("qsv".to_string()));
    assert_eq!(normalize_encoder_choice("MF"), Some("mf".to_string()));
}

#[test]
fn parses_windows_unc_config_paths() {
    let parsed = parse(
        r#"
target_folder: "\\server\share\videos"
tmp_dir: '\\server\scratch\myvidcomp'
"#,
    )
    .unwrap();

    assert_eq!(
        parsed.target_folder,
        Some("\\\\server\\share\\videos".to_string())
    );
    assert_eq!(
        parsed.tmp_dir,
        Some("\\\\server\\scratch\\myvidcomp".to_string())
    );
}

#[test]
fn parses_yaml_escaped_windows_unc_config_paths() {
    let parsed = parse(
        r#"
target_folder: "\\\\server\\share\\videos"
"#,
    )
    .unwrap();

    assert_eq!(
        parsed.target_folder,
        Some("\\\\server\\share\\videos".to_string())
    );
}

#[test]
fn reads_choices_and_quality_numbers() {
    let parsed = parse(
        "target_codec: hevc\nquality_mode: estimate\noutput_format: mkv-fallback\nquality_target: 94.5\nreview_margin: 1.5\nquality_threads: 4\n",
    )
    .unwrap();
    assert_eq!(parsed.target_codec, Some(TargetCodec::Hevc));
    assert_eq!(parsed.quality_mode, Some(QualityMode::Estimate));
    assert_eq!(parsed.output_format, Some(OutputFormat::MkvFallback));
    assert_eq!(parsed.quality_target, Some(9450));
    assert_eq!(parsed.review_margin, Some(150));
    assert_eq!(parsed.quality_threads, Some(4));
}

#[test]
fn reports_the_line_of_a_bad_value() {
    assert!(parse("count: -1\nkeep_original: maybe\n").is_err());
    let error = parse("count: -1\nshape: round\n").unwrap_err();
    assert_eq!(error, "line 2: unknown key: shape");
    let error = parse("quality_target: lots\n").unwrap_err();
    assert!(error.contains("line 1"));
    assert!(error.contains("invalid quality target: lots"));
}

#[test]
fn an_empty_file_sets_nothing() {
    assert_eq!(parse(""), Ok(Config::default()));
    assert_eq!(parse("# only a comment\n\n"), Ok(Config::default()));
}

#[test]
fn reads_yaml_scalars() {
    assert_eq!(strip_yaml_comment("a: b # c"), "a: b ");
    assert_eq!(strip_yaml_comment("a: \"b # c\""), "a: \"b # c\"");
    assert_eq!(unescape_double_quoted_yaml_scalar("a\\\"b"), "a\"b");
    assert_eq!(parse_yaml_scalar("'it''s'"), Ok("it's".to_string()));
    assert_eq!(parse_yaml_bool("On"), Ok(true));
    assert_eq!(parse_yaml_bool("no"), Ok(false));
    assert!(parse_yaml_bool("perhaps").is_err());
}
