use myvidcomp::search::{build_trial_args, search_steps, SampleSet, MAX_ITERATIONS};

#[test]
fn builds_a_trial_command() {
    let args = build_trial_args(
        "/tmp/sample.mkv",
        "libvvenc",
        &vec!["-qp".to_string(), "32".to_string()],
        Some("yuv420p10le"),
        "/tmp/trial.mkv",
    );
    let joined = args.join(" ");

    assert!(joined.contains("-c:v libvvenc"));
    assert!(joined.contains("-qp 32"));
    assert!(joined.contains("-pix_fmt:v:0 yuv420p10le"));
    assert!(joined.contains("-an"));
}

#[test]
fn a_trial_without_a_forced_format_names_none() {
    let args = build_trial_args("/tmp/s.mkv", "libsvtav1", &vec!["-crf".to_string(), "30".to_string()], None, "/tmp/t.mkv");
    assert!(!args.iter().any(|arg| arg.starts_with("-pix_fmt")));
    assert_eq!(args.last().map(String::as_str), Some("/tmp/t.mkv"));
    assert_eq!(args[args.len() - 3], "-f");
}

#[test]
fn counts_search_steps() {
    assert_eq!(MAX_ITERATIONS, 6);
    let samples = SampleSet::new(vec!["/tmp/a.mkv".to_string()]);
    assert_eq!(samples.paths().len(), 1);
    assert_eq!(search_steps(3), 39);
}
