use myvidcomp::batch::{run_step, Awaiting, RunAction, RunEvent, RunState};
use myvidcomp::events::Event;
use myvidcomp::paths::CandidateItem;
use myvidcomp::run::{CandidatePreview, FileStatus, LogLevel, RunSummary};

fn scanned(count: isize, dry_run: bool, files: &[&str], skipped: usize) -> RunState {
    let candidates = files.iter().map(|f| CandidateItem::new(f.to_string())).collect();
    RunState::new(count, dry_run, "libsvtav1".to_string()).record_scan(candidates, skipped)
}

fn summary(converted: usize, skipped: usize, failed: usize, source: u64, output: u64) -> RunSummary {
    RunSummary { converted, skipped, failed, source_bytes: source, output_bytes: output }
}

#[test]
fn a_dry_run_reports_what_it_would_do_and_converts_nothing() {
    let state = scanned(5, true, &["/v/a.mkv", "/v/b.avi"], 1);
    let (state, actions) = run_step(state, RunEvent::Scanned);
    let done = summary(0, 1, 0, 0, 0);
    assert_eq!(
        actions,
        vec![
            RunAction::Emit(Event::Log {
                level: LogLevel::Info,
                message: "Info: requested 5 conversion(s), only 2 candidate video file(s) were found before probing."
                    .to_string(),
            }),
            RunAction::Emit(Event::DryRun {
                encoder: "libsvtav1".to_string(),
                limit: Some(5),
                candidates: vec![
                    CandidatePreview { input_path: "/v/a.mkv".to_string(), output_path: "/v/a.mp4".to_string() },
                    CandidatePreview { input_path: "/v/b.avi".to_string(), output_path: "/v/b.mp4".to_string() },
                ],
                skipped: 1,
            }),
            RunAction::Emit(Event::Summary { summary: done }),
            RunAction::Done(done),
        ]
    );
    assert_eq!(state.awaiting, Awaiting::Nothing);
    let (_, later) = run_step(state, RunEvent::Ready { stop_requested: false });
    assert!(later.is_empty());
}

#[test]
fn a_run_without_candidates_says_so() {
    let state = scanned(-1, false, &[], 3);
    let (_, actions) = run_step(state, RunEvent::Scanned);
    let done = summary(0, 3, 0, 0, 0);
    assert_eq!(
        actions,
        vec![
            RunAction::Emit(Event::Log {
                level: LogLevel::Info,
                message: "No candidate video files found. Skipped videos: 3.".to_string(),
            }),
            RunAction::Emit(Event::Summary { summary: done }),
            RunAction::Done(done),
        ]
    );
}

#[test]
fn a_run_converts_in_order_up_to_its_count() {
    let state = scanned(1, false, &["/v/a.mkv", "/v/b.avi"], 0);
    let (state, actions) = run_step(state, RunEvent::Scanned);
    assert_eq!(actions, vec![RunAction::SetUp]);
    let (state, actions) = run_step(state, RunEvent::Ready { stop_requested: false });
    assert_eq!(actions, vec![RunAction::Inspect { candidate: 0 }]);
    let (state, actions) = run_step(state, RunEvent::Prepared { stop_requested: false });
    assert_eq!(actions, vec![RunAction::StartFile { index: 1, candidate: 0 }]);
    let (state, actions) = run_step(
        state,
        RunEvent::Converted { source_bytes: 100, output_bytes: 40, message: "converted".to_string() },
    );
    assert_eq!(
        actions,
        vec![
            RunAction::Emit(Event::FileFinished {
                index: 1,
                input_path: "/v/a.mkv".to_string(),
                status: FileStatus::Converted,
                message: "converted".to_string(),
                source_bytes: Some(100),
                output_bytes: Some(40),
            }),
            RunAction::Next,
        ]
    );
    // The count of one is used up: the second file is never inspected.
    let (state, actions) = run_step(state, RunEvent::Ready { stop_requested: false });
    let done = summary(1, 0, 0, 100, 40);
    assert_eq!(
        actions,
        vec![RunAction::Emit(Event::Summary { summary: done }), RunAction::Done(done)]
    );
    assert_eq!(state.awaiting, Awaiting::Nothing);
}

#[test]
fn a_stop_request_ends_the_run_before_the_next_file() {
    let state = scanned(-1, false, &["/v/a.mkv", "/v/b.avi"], 0);
    let (state, _) = run_step(state, RunEvent::Scanned);
    let (state, _) = run_step(state, RunEvent::Ready { stop_requested: false });
    let (state, actions) = run_step(state, RunEvent::Prepared { stop_requested: true });
    let done = summary(0, 0, 0, 0, 0);
    assert_eq!(
        actions,
        vec![
            RunAction::Emit(Event::StopRequested),
            RunAction::Emit(Event::Summary { summary: done }),
            RunAction::Done(done),
        ]
    );
    assert!(state.stop_requested);
    let (_, later) = run_step(state, RunEvent::Prepared { stop_requested: false });
    assert!(later.is_empty());
}

#[test]
fn skips_and_failures_are_counted_and_reported() {
    let state = scanned(4, false, &["/v/a.mkv", "/v/b.avi"], 0);
    let (state, _) = run_step(state, RunEvent::Scanned);
    let (state, _) = run_step(state, RunEvent::Ready { stop_requested: false });
    let (state, actions) = run_step(state, RunEvent::Skipped { reason: "already AV1".to_string() });
    assert_eq!(
        actions,
        vec![
            RunAction::Emit(Event::FileSkipped { path: "/v/a.mkv".to_string(), reason: "already AV1".to_string() }),
            RunAction::Next,
        ]
    );
    let (state, actions) = run_step(state, RunEvent::Ready { stop_requested: false });
    assert_eq!(actions, vec![RunAction::Inspect { candidate: 1 }]);
    let (state, _) = run_step(state, RunEvent::Prepared { stop_requested: false });
    let (state, actions) = run_step(state, RunEvent::Failed { error: "encoder crashed".to_string() });
    assert_eq!(
        actions,
        vec![
            RunAction::Emit(Event::FileFinished {
                index: 1,
                input_path: "/v/b.avi".to_string(),
                status: FileStatus::Failed,
                message: "failed".to_string(),
                source_bytes: None,
                output_bytes: None,
            }),
            RunAction::Emit(Event::Log {
                level: LogLevel::Error,
                message: "failed: /v/b.avi: encoder crashed".to_string(),
            }),
            RunAction::Next,
        ]
    );
    let (_, actions) = run_step(state, RunEvent::Ready { stop_requested: false });
    let done = summary(0, 1, 1, 0, 0);
    assert_eq!(
        actions,
        vec![
            RunAction::Emit(Event::Log {
                level: LogLevel::Info,
                message: "Info: requested 4 conversion(s), only 1 eligible video(s) need conversion.".to_string(),
            }),
            RunAction::Emit(Event::Summary { summary: done }),
            RunAction::Done(done),
        ]
    );
}
