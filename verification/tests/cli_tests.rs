use myvidcomp::cli::{layer_settings, missing_target_message, parse_cli_args, usage, Cli, CliArgs};
use myvidcomp::config::{parse_config_yaml, Config};
use myvidcomp::options::{validate_quality_target, EncoderPreference, QualityCheck, TargetCodec};
use myvidcomp::run::{OutputFormat, RunOptions};

fn quality_target(value: String) -> Result<u32, String> {
    let trimmed = value.trim().to_string();
    match trimmed.parse::<f64>() {
        Ok(parsed) if parsed.is_finite() && parsed >= 0.0 => {
            validate_quality_target((parsed * 100.0).round() as u32)
        }
        _ => Err(format!("invalid quality target: {trimmed}")),
    }
}

fn quality_points(value: String) -> Result<u32, String> {
    let trimmed = value.trim().to_string();
    match trimmed.parse::<f64>() {
        Ok(parsed) if parsed.is_finite() && (0.0..=100.0).contains(&parsed) => {
            Ok((parsed * 100.0).round() as u32)
        }
        _ => Err(format!("invalid quality value: {trimmed}")),
    }
}

fn args(items: &[&str]) -> Vec<String> {
    items.iter().map(|item| item.to_string()).collect()
}

fn parse(items: &[&str]) -> Result<CliArgs, String> {
    parse_cli_args(&args(items), quality_target, quality_points)
}

fn settle(parsed: &CliArgs, config: &Config) -> Result<Cli, String> {
    layer_settings(parsed, config, "config.yaml", "ffmpeg", "ffprobe")
}

#[test]
fn command_line_defaults_apply_without_a_settings_file() {
    let parsed = parse(&["/videos"]).unwrap();
    let cli = settle(&parsed, &Config::default()).unwrap();

    assert_eq!(cli.target_folder, "/videos");
    assert_eq!(cli.count, -1);
    assert!(cli.keep_original);
    assert!(!cli.dry_run);
    assert!(!cli.version);
    assert_eq!(cli.ffmpeg, "ffmpeg");
    assert_eq!(cli.ffprobe, "ffprobe");
    assert_eq!(cli.tmp_dir, None);
    assert_eq!(cli.encoder, None);
    assert_eq!(cli.encoder_preference, EncoderPreference::Auto);
    assert_eq!(cli.quality_target, 9500);
    assert_eq!(cli.review_margin, 200);
}

#[test]
fn reads_every_command_line_option() {
    let parsed = parse(&[
        "/videos",
        "--count",
        "3",
        "--no-keep-original",
        "--dry-run",
        "--ffmpeg",
        "/opt/ffmpeg",
        "--ffprobe",
        "/opt/ffprobe",
        "--tmp-dir",
        "/videos/tmp",
        "--encoder",
        "nvenc",
        "--codec",
        "hevc",
        "--quality",
        "93.5",
        "--review-margin",
        "1",
        "--quality-check",
        "full",
        "--quality-threads",
        "8",
    ])
    .unwrap();
    let cli = settle(&parsed, &Config::default()).unwrap();

    assert_eq!(cli.count, 3);
    assert!(!cli.keep_original);
    assert!(cli.dry_run);
    assert_eq!(cli.ffmpeg, "/opt/ffmpeg");
    assert_eq!(cli.ffprobe, "/opt/ffprobe");
    assert_eq!(cli.tmp_dir, Some("/videos/tmp".to_string()));
    assert_eq!(cli.encoder, Some("nvenc".to_string()));
    assert_eq!(cli.target_codec, TargetCodec::Hevc);
    assert_eq!(cli.quality_target, 9350);
    assert_eq!(cli.review_margin, 100);
    assert_eq!(cli.quality_check, QualityCheck::Full);
    assert_eq!(cli.quality_threads, 8);
}

#[test]
fn version_needs_no_target_folder() {
    let parsed = parse(&["--version"]).unwrap();
    let config = parse_config_yaml("count: 7\n", quality_target, quality_points).unwrap();
    let cli = settle(&parsed, &config).unwrap();

    assert!(cli.version);
    assert!(cli.target_folder.is_empty());
    // The settings file plays no part.
    assert_eq!(cli.count, -1);
}

#[test]
fn the_settings_file_fills_what_the_command_line_leaves_out() {
    let config = parse_config_yaml(
        "target_folder: \"/videos\"\ncount: 2\nkeep_original: false\ndry_run: true\nffmpeg: \"/tools/ffmpeg\"\nffprobe: \"/tools/ffprobe\"\ntmp_dir: \"/scratch\"\nencoder: av1_qsv\n",
        quality_target,
        quality_points,
    )
    .unwrap();
    let parsed = parse(&[]).unwrap();
    assert!(parsed.no_cli_args);
    let cli = settle(&parsed, &config).unwrap();

    assert_eq!(cli.target_folder, "/videos");
    assert_eq!(cli.count, 2);
    assert!(!cli.keep_original);
    assert!(cli.dry_run);
    assert_eq!(cli.ffmpeg, "/tools/ffmpeg");
    assert_eq!(cli.ffprobe, "/tools/ffprobe");
    assert_eq!(cli.tmp_dir, Some("/scratch".to_string()));
    assert_eq!(cli.encoder, Some("av1_qsv".to_string()));
}

#[test]
fn command_line_values_win_over_the_settings_file() {
    let config = parse_config_yaml(
        "target_folder: \"/from-config\"\ncount: 9\nkeep_original: false\ndry_run: true\nffmpeg: \"/config/ffmpeg\"\nffprobe: \"/config/ffprobe\"\ntmp_dir: \"/config-tmp\"\nencoder: av1_amf\noutput_format: mkv-fallback\n",
        quality_target,
        quality_points,
    )
    .unwrap();
    let parsed = parse(&[
        "/from-cli",
        "--count",
        "1",
        "--keep-original",
        "--no-dry-run",
        "--ffmpeg",
        "/cli/ffmpeg",
        "--tmp-dir",
        "/cli-tmp",
        "--encoder",
        "auto",
        "--output-format",
        "mp4",
    ])
    .unwrap();
    let cli = settle(&parsed, &config).unwrap();

    assert_eq!(cli.target_folder, "/from-cli");
    assert_eq!(cli.count, 1);
    assert!(cli.keep_original);
    assert!(!cli.dry_run);
    assert_eq!(cli.ffmpeg, "/cli/ffmpeg");
    assert_eq!(cli.ffprobe, "/config/ffprobe");
    assert_eq!(cli.tmp_dir, Some("/cli-tmp".to_string()));
    assert_eq!(cli.encoder, None);
    assert_eq!(cli.output_format, OutputFormat::Mp4);

    let plain = settle(&parse(&["/from-cli"]).unwrap(), &config).unwrap();
    assert_eq!(plain.output_format, OutputFormat::MkvFallback);
}

#[test]
fn a_run_without_a_folder_is_refused() {
    let empty = parse(&[]).unwrap();
    let error = settle(&empty, &Config::default()).unwrap_err();
    assert!(error.starts_with(
        "missing target folder: pass one on the CLI or set target_folder in config.yaml\n\nUsage: myvidcomp"
    ));
    let flags_only = parse(&["--dry-run"]).unwrap();
    let error = settle(&flags_only, &Config::default()).unwrap_err();
    assert_eq!(error, format!("missing target folder\n\n{}", usage()));
    assert_eq!(missing_target_message("x.yaml", false), error);
}

#[test]
fn reports_bad_command_lines() {
    assert_eq!(parse(&["--count"]).unwrap_err(), "--count requires a value");
    assert_eq!(parse(&["--count", "-2"]).unwrap_err(), "--count must be -1 or greater");
    assert_eq!(parse(&["--count", "many"]).unwrap_err(), "invalid --count value: many");
    assert_eq!(
        parse(&["--conversion-mode"]).unwrap_err(),
        "--conversion-mode requires a value"
    );
    assert_eq!(parse(&["--frobnicate"]).unwrap_err(), "unknown option: --frobnicate");
    assert_eq!(
        parse(&["/a", "/b"]).unwrap_err(),
        "unexpected extra positional argument: /b"
    );
    assert_eq!(
        parse(&["--quality-threads", "-1"]).unwrap_err(),
        "invalid --quality-threads value: -1"
    );
    assert_eq!(parse(&["--quality", "loud"]).unwrap_err(), "invalid quality target: loud");
    assert!(parse(&["--codec", "mpeg2"]).is_err());
}

#[test]
fn a_value_is_never_read_as_an_option() {
    let parsed = parse(&["--ffmpeg", "--help", "/videos"]).unwrap();
    assert!(!parsed.help);
    assert_eq!(parsed.ffmpeg, Some("--help".to_string()));
    assert_eq!(parsed.target_folder, Some("/videos".to_string()));
}

#[test]
fn settings_become_run_options() {
    let cli = settle(&parse(&["/videos", "--count", "4"]).unwrap(), &Config::default()).unwrap();
    let options = RunOptions::from(cli);
    assert_eq!(options.target_folder, "/videos");
    assert_eq!(options.count, 4);
    assert_eq!(options.review_threshold(), 9300);
}
