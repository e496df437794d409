use myvidcomp::diagnostics::{ffprobe_failure_is_infrastructure, probe_failure_message};

#[test]
fn unreadable_files_are_not_tool_failures() {
    assert!(!ffprobe_failure_is_infrastructure(
        Some(1),
        "clip.avi: Invalid data found when processing input\n"
    ));
    assert!(!ffprobe_failure_is_infrastructure(Some(1), "moov atom not found"));
}

#[test]
fn broken_tools_are_tool_failures() {
    assert!(ffprobe_failure_is_infrastructure(Some(1), ""));
    assert!(ffprobe_failure_is_infrastructure(Some(1), "  \n"));
    assert!(ffprobe_failure_is_infrastructure(None, "Invalid data"));
    assert!(ffprobe_failure_is_infrastructure(Some(-9), "Invalid data"));
    assert!(ffprobe_failure_is_infrastructure(
        Some(127),
        "ffprobe: error while loading shared libraries: libavdevice.so.60"
    ));
    assert!(ffprobe_failure_is_infrastructure(Some(1), "Unrecognized option 'show_entries'"));
    assert!(ffprobe_failure_is_infrastructure(Some(1), "Access is denied."));
}

#[test]
fn failure_messages_name_the_first_diagnostic() {
    assert_eq!(
        probe_failure_message(
            "ffprobe failed for",
            "/videos/clip.avi",
            "exit status: 1",
            "\n  clip.avi: Invalid data found  \nsecond line\n"
        ),
        "ffprobe failed for /videos/clip.avi with status exit status: 1: clip.avi: Invalid data found"
    );
    assert_eq!(
        probe_failure_message("ffprobe failed for", "/videos/clip.avi", "exit status: 1", " \n"),
        "ffprobe failed for /videos/clip.avi with status exit status: 1"
    );
}
