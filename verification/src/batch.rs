//! The decisions of one run over a folder's candidate videos.
//!
//! A run alternates work the library cannot do (probing a file, converting
//! it, reading whether the user asked to stop) with decisions: whether to
//! stop, whether the count is used up, which candidate comes next, and what
//! is reported. The decisions are a step function from the run's state and
//! what just happened to the next state and the actions to perform; the
//! caller performs the actions in order and reports back what came of the
//! last one.
use vstd::prelude::*;
use crate::events::Event;
use crate::paths::{path_with_extension, CandidateItem};
use crate::run::{
    conversion_limit, count_candidate_info, count_limit_info, limit_of, CandidatePreview,
    FileStatus, LogLevel, RunSummary,
};
use crate::text::{copy_str, decimal, decimal_string, join2, join3};

verus! {

/// What the run is waiting to hear about next.
#[derive(Debug, Clone, Copy, PartialEq, Eq, Structural)]
pub enum Awaiting {
    /// The folder has not been scanned yet.
    Scan,
    /// The caller is getting ready to convert, or a file is done: it reports
    /// whether a stop was asked for.
    Ready,
    /// The caller is inspecting the current candidate.
    Inspection,
    /// The caller is converting the current candidate.
    Outcome,
    /// The run is over.
    Nothing,
}

/// Where a run stands.
#[derive(Debug)]
pub struct RunState {
    /// How many conversions to attempt; negative for no limit.
    pub count: isize,
    /// Whether the run only reports what it would do.
    pub dry_run: bool,
    /// The encoder the run prefers, as the dry run reports it.
    pub encoder: String,
    /// The candidate videos, in the order the scan found them.
    pub candidates: Vec<CandidateItem>,
    /// The candidate the run is at.
    pub next: usize,
    /// Files the scan already passed over.
    pub scan_skipped: usize,
    pub summary: RunSummary,
    pub awaiting: Awaiting,
    /// Whether the run ended because the user asked it to stop.
    pub stop_requested: bool,
}

/// What happened since the last step.
#[derive(Debug, Clone, PartialEq, Eq)]
pub enum RunEvent {
    /// The scan is done; the state holds its candidates.
    Scanned,
    /// The caller is ready for the next candidate.
    Ready { stop_requested: bool },
    /// The current candidate will not be converted, for `reason`.
    Skipped { reason: String },
    /// The current candidate is ready to convert.
    Prepared { stop_requested: bool },
    /// The current candidate was converted; `message` describes the result.
    Converted { source_bytes: u64, output_bytes: u64, message: String },
    /// Converting the current candidate failed with `error`.
    Failed { error: String },
}

/// What the caller does next.
#[derive(Debug, Clone, PartialEq, Eq)]
pub enum RunAction {
    /// Get ready to convert (find out whether results can be scored, start
    /// listening for a stop request), then report `Ready`.
    SetUp,
    /// Inspect the candidate at this position, then report `Skipped` or
    /// `Prepared`.
    Inspect { candidate: usize },
    /// Convert the candidate at this position as attempt `index`, counted
    /// from one, then report `Converted` or `Failed`.
    StartFile { index: usize, candidate: usize },
    /// Report this event.
    Emit(Event),
    /// Report `Ready` again.
    Next,
    /// The run is over, with this summary.
    Done(RunSummary),
}

/// Conversions attempted so far.
pub open spec fn attempts(s: RunState) -> int {
    s.summary.converted + s.summary.failed
}

/// Whether `a` attempts use up the count.
pub open spec fn used_up(count: isize, a: int) -> bool {
    count >= 0 && a >= count
}

/// What every state of a run keeps: the counts add up to the candidates
/// passed, at most `count` conversions are attempted, a conversion only
/// runs while the count allows it and no stop was asked for, and a dry run
/// converts nothing.
pub open spec fn wf(s: RunState) -> bool {
    &&& s.next <= s.candidates@.len()
    &&& s.scan_skipped + s.candidates@.len() <= usize::MAX
    &&& s.scan_skipped <= s.summary.skipped
    &&& attempts(s) + (s.summary.skipped - s.scan_skipped) == s.next
    &&& (s.count >= 0 ==> attempts(s) <= s.count)
    &&& (s.awaiting == Awaiting::Inspection ==> s.next < s.candidates@.len() && !used_up(
        s.count,
        attempts(s),
    ))
    &&& (s.awaiting == Awaiting::Outcome ==> s.next < s.candidates@.len() && !used_up(
        s.count,
        attempts(s),
    ))
    &&& (s.stop_requested ==> s.awaiting == Awaiting::Nothing)
    &&& (s.dry_run ==> attempts(s) == 0 && (s.awaiting == Awaiting::Scan || s.awaiting
        == Awaiting::Nothing))
    &&& (s.awaiting == Awaiting::Scan ==> s.next == 0 && s.summary == RunSummary {
        converted: 0,
        skipped: s.scan_skipped,
        failed: 0,
        source_bytes: 0,
        output_bytes: 0,
    })
}

/// The parts of a run's state no step changes.
pub open spec fn same_setup(a: RunState, b: RunState) -> bool {
    &&& a.count == b.count
    &&& a.dry_run == b.dry_run
    &&& a.encoder@ == b.encoder@
    &&& a.candidates@ == b.candidates@
    &&& a.scan_skipped == b.scan_skipped
}

pub open spec fn is_log(a: RunAction, level: LogLevel, m: Seq<char>) -> bool {
    a matches RunAction::Emit(Event::Log { level: l, message }) && l == level && message@ == m
}

/// The note a run that asked for more conversions than it could make ends
/// with, when there is one.
pub open spec fn limit_note(count: isize, a: int) -> Option<Seq<char>> {
    if count >= 0 && count > a {
        Some(
            "Info: requested "@ + decimal(count as nat) + " conversion(s), only "@ + decimal(
                a as nat,
            ) + " eligible video(s) need conversion."@,
        )
    } else {
        None
    }
}

/// The actions that end a converting run in state `s`: the stop, if one was
/// asked for; the note on an unused count, if any; the summary; the end.
pub open spec fn closing(s: RunState, stop: bool, acts: Seq<RunAction>) -> bool {
    let first: int = if stop { 1 } else { 0 };
    let note = limit_note(s.count, attempts(s));
    let at: int = first + if note is Some { 1int } else { 0int };
    &&& acts.len() == at + 2
    &&& stop ==> acts[0] == RunAction::Emit(Event::StopRequested)
    &&& note matches Some(m) ==> is_log(acts[first], LogLevel::Info, m)
    &&& acts[at] == RunAction::Emit(Event::Summary { summary: s.summary })
    &&& acts[at + 1] == RunAction::Done(s.summary)
}

/// Whether `p` previews the candidates `c`, in order.
pub open spec fn previews(c: Seq<CandidateItem>, p: Seq<CandidatePreview>) -> bool {
    &&& p.len() == c.len()
    &&& forall|i: int|
        0 <= i < c.len() ==> (#[trigger] p[i]).input_path@ == c[i].input_path@
            && p[i].output_path@ == path_with_extension(c[i].input_path@, "mp4"@)
}

/// The actions of a dry run: the note on a count larger than the candidate
/// list, if any; what would be converted; a summary that converted nothing;
/// the end.
pub open spec fn dry_run_actions(s: RunState, acts: Seq<RunAction>) -> bool {
    let note = s.count >= 0 && s.count > s.candidates@.len();
    let at: int = if note { 1 } else { 0 };
    let summary = RunSummary {
        converted: 0,
        skipped: s.scan_skipped,
        failed: 0,
        source_bytes: 0,
        output_bytes: 0,
    };
    &&& acts.len() == at + 3
    &&& note ==> is_log(
        acts[0],
        LogLevel::Info,
        "Info: requested "@ + decimal(s.count as nat) + " conversion(s), only "@ + decimal(
            s.candidates@.len(),
        ) + " candidate video file(s) were found before probing."@,
    )
    &&& acts[at] matches RunAction::Emit(
        Event::DryRun { encoder, limit, candidates, skipped },
    ) && encoder@ == s.encoder@ && limit == limit_of(s.count) && previews(
        s.candidates@,
        candidates@,
    ) && skipped == s.scan_skipped
    &&& acts[at + 1] == RunAction::Emit(Event::Summary { summary })
    &&& acts[at + 2] == RunAction::Done(summary)
}

/// The actions of a run that found nothing to convert.
pub open spec fn empty_run_actions(s: RunState, acts: Seq<RunAction>) -> bool {
    &&& acts.len() == 3
    &&& is_log(
        acts[0],
        LogLevel::Info,
        "No candidate video files found. Skipped videos: "@ + decimal(s.scan_skipped as nat) + "."@,
    )
    &&& acts[1] == RunAction::Emit(Event::Summary { summary: s.summary })
    &&& acts[2] == RunAction::Done(s.summary)
}

impl RunState {
    /// A run about to scan.
    pub fn new(count: isize, dry_run: bool, encoder: String) -> (r: Self)
        ensures
            r.count == count,
            r.dry_run == dry_run,
            r.encoder@ == encoder@,
            r.candidates@.len() == 0,
            r.scan_skipped == 0,
            r.awaiting == Awaiting::Scan,
            wf(r),
    {
        RunState {
            count,
            dry_run,
            encoder,
            candidates: Vec::new(),
            next: 0,
            scan_skipped: 0,
            summary: RunSummary {
                converted: 0,
                skipped: 0,
                failed: 0,
                source_bytes: 0,
                output_bytes: 0,
            },
            awaiting: Awaiting::Scan,
            stop_requested: false,
        }
    }

    /// Records what the scan found: the candidates in the order found, and
    /// how many files it passed over. Only a run that has not scanned takes
    /// it; any other is left as it is.
    pub fn record_scan(self, candidates: Vec<CandidateItem>, skipped: usize) -> (r: Self)
        requires
            wf(self),
            skipped + candidates@.len() <= usize::MAX,
        ensures
            wf(r),
            self.awaiting == Awaiting::Scan ==> r.candidates@ == candidates@ && r.scan_skipped
                == skipped && r.summary.skipped == skipped && r.awaiting == Awaiting::Scan
                && r.count == self.count && r.dry_run == self.dry_run && r.encoder@
                == self.encoder@,
            self.awaiting != Awaiting::Scan ==> r == self,
    {
        if self.awaiting != Awaiting::Scan {
            return self;
        }
        RunState {
            count: self.count,
            dry_run: self.dry_run,
            encoder: self.encoder,
            candidates,
            next: 0,
            scan_skipped: skipped,
            summary: RunSummary {
                converted: 0,
                skipped,
                failed: 0,
                source_bytes: 0,
                output_bytes: 0,
            },
            awaiting: Awaiting::Scan,
            stop_requested: false,
        }
    }
}

fn log_action(level: LogLevel, message: String) -> (a: RunAction)
    ensures
        is_log(a, level, message@),
{
    RunAction::Emit(Event::Log { level, message })
}

/// Ends a converting run.
fn close(s: RunState, stop: bool) -> (r: (RunState, Vec<RunAction>))
    requires
        wf(s),
        !s.dry_run,
        s.awaiting == Awaiting::Ready || s.awaiting == Awaiting::Inspection,
    ensures
        wf(r.0),
        same_setup(r.0, s),
        r.0.next == s.next,
        r.0.summary == s.summary,
        r.0.awaiting == Awaiting::Nothing,
        r.0.stop_requested == stop,
        closing(s, stop, r.1@),
{
    let mut acts: Vec<RunAction> = Vec::new();
    if stop {
        acts.push(RunAction::Emit(Event::StopRequested));
    }
    let a = s.summary.converted + s.summary.failed;
    match count_limit_info(s.count, a) {
        Some(m) => {
            acts.push(log_action(LogLevel::Info, m));
        },
        None => {},
    }
    acts.push(RunAction::Emit(Event::Summary { summary: s.summary }));
    acts.push(RunAction::Done(s.summary));
    let r = RunState {
        count: s.count,
        dry_run: s.dry_run,
        encoder: s.encoder,
        candidates: s.candidates,
        next: s.next,
        scan_skipped: s.scan_skipped,
        summary: s.summary,
        awaiting: Awaiting::Nothing,
        stop_requested: stop,
    };
    (r, acts)
}

/// Moves to the candidate at `s.next`, or ends the run when a stop was asked
/// for, the count is used up, or no candidate is left.
fn advance(s: RunState, stop: bool) -> (r: (RunState, Vec<RunAction>))
    requires
        wf(s),
        !s.dry_run,
        s.awaiting == Awaiting::Ready,
    ensures
        wf(r.0),
        same_setup(r.0, s),
        r.0.next == s.next,
        r.0.summary == s.summary,
        if stop || used_up(s.count, attempts(s)) || s.next >= s.candidates@.len() {
            r.0.awaiting == Awaiting::Nothing && r.0.stop_requested == stop && closing(s, stop, r.1@)
        } else {
            r.0.awaiting == Awaiting::Inspection && !r.0.stop_requested && r.1@ == seq![
                RunAction::Inspect { candidate: s.next },
            ]
        },
{
    let a = s.summary.converted + s.summary.failed;
    let used = s.count >= 0 && a >= s.count as usize;
    if stop || used || s.next >= s.candidates.len() {
        close(s, stop)
    } else {
        let at = s.next;
        let r = RunState {
            count: s.count,
            dry_run: s.dry_run,
            encoder: s.encoder,
            candidates: s.candidates,
            next: s.next,
            scan_skipped: s.scan_skipped,
            summary: s.summary,
            awaiting: Awaiting::Inspection,
            stop_requested: false,
        };
        (r, vec![RunAction::Inspect { candidate: at }])
    }
}

/// The dry run's report.
fn dry_run_report(s: &RunState) -> (acts: Vec<RunAction>)
    requires
        wf(*s),
    ensures
        dry_run_actions(*s, acts@),
{
    let mut acts: Vec<RunAction> = Vec::new();
    match count_candidate_info(s.count, s.candidates.len()) {
        Some(m) => {
            acts.push(log_action(LogLevel::Info, m));
        },
        None => {},
    }
    let mut shown: Vec<CandidatePreview> = Vec::new();
    let mut i: usize = 0;
    while i < s.candidates.len()
        invariant
            i <= s.candidates@.len(),
            shown@.len() == i,
            forall|k: int|
                0 <= k < i ==> (#[trigger] shown@[k]).input_path@ == s.candidates@[k].input_path@
                    && shown@[k].output_path@ == path_with_extension(
                    s.candidates@[k].input_path@,
                    "mp4"@,
                ),
        decreases s.candidates.len() - i,
    {
        let c = &s.candidates[i];
        shown.push(
            CandidatePreview { input_path: copy_str(c.input_path.as_str()), output_path: c.output_path() },
        );
        i = i + 1;
    }
    let summary = RunSummary {
        converted: 0,
        skipped: s.scan_skipped,
        failed: 0,
        source_bytes: 0,
        output_bytes: 0,
    };
    acts.push(
        RunAction::Emit(
            Event::DryRun {
                encoder: copy_str(s.encoder.as_str()),
                limit: conversion_limit(s.count),
                candidates: shown,
                skipped: s.scan_skipped,
            },
        ),
    );
    acts.push(RunAction::Emit(Event::Summary { summary }));
    acts.push(RunAction::Done(summary));
    acts
}

/// One step of a run: from where it stands and what just happened, where it
/// stands next and what the caller does. An event the run is not waiting
/// for changes nothing and asks for nothing.
pub fn run_step(state: RunState, event: RunEvent) -> (r: (RunState, Vec<RunAction>))
    requires
        wf(state),
        event matches RunEvent::Converted { source_bytes, output_bytes, .. }
            ==> state.summary.source_bytes + source_bytes <= u64::MAX
            && state.summary.output_bytes + output_bytes <= u64::MAX,
    ensures
        wf(r.0),
        same_setup(r.0, state),
        // At most `count` conversions are attempted.
        state.count >= 0 ==> r.0.summary.converted + r.0.summary.failed <= state.count,
        // The candidates are taken in order, each once.
        r.0.next == state.next || r.0.next == state.next + 1,
        forall|i: int|
            0 <= i < r.1@.len() ==> (#[trigger] r.1@[i] matches RunAction::Inspect { candidate }
                ==> candidate == r.0.next),
        forall|i: int|
            0 <= i < r.1@.len() ==> (#[trigger] r.1@[i] matches RunAction::StartFile {
                index,
                candidate,
            } ==> candidate == r.0.next && index == attempts(r.0) + 1),
        // A dry run converts nothing and reports what it would do.
        state.dry_run ==> forall|i: int|
            0 <= i < r.1@.len() ==> !(#[trigger] r.1@[i] is StartFile) && !(r.1@[i] is Inspect)
                && !(r.1@[i] is SetUp),
        state.dry_run && state.awaiting == Awaiting::Scan && event == RunEvent::Scanned
            ==> dry_run_actions(state, r.1@) && r.0.awaiting == Awaiting::Nothing,
        // After a stop, no file starts.
        state.stop_requested ==> r.1@.len() == 0,
        (event matches RunEvent::Ready { stop_requested } && stop_requested)
            || (event matches RunEvent::Prepared { stop_requested } && stop_requested)
            ==> forall|i: int| 0 <= i < r.1@.len() ==> !(#[trigger] r.1@[i] is StartFile),
        // What each event leads to.
        match (state.awaiting, event) {
            (Awaiting::Scan, RunEvent::Scanned) => if state.dry_run {
                r.0.awaiting == Awaiting::Nothing && r.0.summary == state.summary
            } else if state.candidates@.len() == 0 {
                r.0.awaiting == Awaiting::Nothing && r.0.summary == state.summary
                    && empty_run_actions(state, r.1@)
            } else {
                r.0.awaiting == Awaiting::Ready && r.0.summary == state.summary && r.0.next == 0
                    && r.1@ == seq![RunAction::SetUp]
            },
            (Awaiting::Ready, RunEvent::Ready { stop_requested }) => r.0.next == state.next
                && r.0.summary == state.summary && if stop_requested || used_up(
                state.count,
                attempts(state),
            ) || state.next >= state.candidates@.len() {
                r.0.awaiting == Awaiting::Nothing && r.0.stop_requested == stop_requested
                    && closing(state, stop_requested, r.1@)
            } else {
                r.0.awaiting == Awaiting::Inspection && r.1@ == seq![
                    RunAction::Inspect { candidate: state.next },
                ]
            },
            (Awaiting::Inspection, RunEvent::Skipped { reason }) => r.0.next == state.next + 1
                && r.0.summary == (RunSummary { skipped: (state.summary.skipped + 1) as usize, ..state.summary })
                && r.0.awaiting == Awaiting::Ready && r.1@.len() == 2 && (r.1@[0] matches RunAction::Emit(
                Event::FileSkipped { path, reason: why },
            ) && path@ == state.candidates@[state.next as int].input_path@ && why@ == reason@)
                && r.1@[1] == RunAction::Next,
            (Awaiting::Inspection, RunEvent::Prepared { stop_requested }) => r.0.next == state.next
                && r.0.summary == state.summary && if stop_requested {
                r.0.awaiting == Awaiting::Nothing && r.0.stop_requested && closing(state, true, r.1@)
            } else {
                r.0.awaiting == Awaiting::Outcome && r.1@ == seq![
                    RunAction::StartFile { index: (attempts(state) + 1) as usize, candidate: state.next },
                ]
            },
            (Awaiting::Outcome, RunEvent::Converted { source_bytes, output_bytes, message }) =>
                r.0.next == state.next + 1 && r.0.summary == (RunSummary {
                converted: (state.summary.converted + 1) as usize,
                source_bytes: (state.summary.source_bytes + source_bytes) as u64,
                output_bytes: (state.summary.output_bytes + output_bytes) as u64,
                ..state.summary
            }) && r.0.awaiting == Awaiting::Ready && r.1@.len() == 2 && (r.1@[0] matches RunAction::Emit(
                Event::FileFinished { index, input_path, status, message: m, source_bytes: sb, output_bytes: ob },
            ) && index == attempts(state) + 1 && input_path@ == state.candidates@[state.next as int].input_path@
                && status == FileStatus::Converted && m@ == message@ && sb == Some(source_bytes)
                && ob == Some(output_bytes)) && r.1@[1] == RunAction::Next,
            (Awaiting::Outcome, RunEvent::Failed { error }) => r.0.next == state.next + 1
                && r.0.summary == (RunSummary { failed: (state.summary.failed + 1) as usize, ..state.summary })
                && r.0.awaiting == Awaiting::Ready && r.1@.len() == 3 && (r.1@[0] matches RunAction::Emit(
                Event::FileFinished { index, input_path, status, message, source_bytes, output_bytes },
            ) && index == attempts(state) + 1 && input_path@ == state.candidates@[state.next as int].input_path@
                && status == FileStatus::Failed && message@ == "failed"@ && source_bytes is None
                && output_bytes is None) && is_log(
                r.1@[1],
                LogLevel::Error,
                "failed: "@ + state.candidates@[state.next as int].input_path@ + ": "@ + error@,
            ) && r.1@[2] == RunAction::Next,
            _ => r.0 == state && r.1@.len() == 0,
        },
{
    match (state.awaiting, event) {
        (Awaiting::Scan, RunEvent::Scanned) => {
            if state.dry_run {
                let acts = dry_run_report(&state);
                let r = RunState { awaiting: Awaiting::Nothing, ..state };
                (r, acts)
            } else if state.candidates.len() == 0 {
                let mut message = copy_str("No candidate video files found. Skipped videos: ");
                let n = decimal_string(state.scan_skipped as u64);
                message.append(n.as_str());
                message.append(".");
                let acts = vec![
                    log_action(LogLevel::Info, message),
                    RunAction::Emit(Event::Summary { summary: state.summary }),
                    RunAction::Done(state.summary),
                ];
                let r = RunState { awaiting: Awaiting::Nothing, ..state };
                (r, acts)
            } else {
                let r = RunState { awaiting: Awaiting::Ready, ..state };
                (r, vec![RunAction::SetUp])
            }
        },
        (Awaiting::Ready, RunEvent::Ready { stop_requested }) => advance(state, stop_requested),
        (Awaiting::Inspection, RunEvent::Skipped { reason }) => {
            let path = copy_str(state.candidates[state.next].input_path.as_str());
            let summary = RunSummary { skipped: state.summary.skipped + 1, ..state.summary };
            let next = state.next + 1;
            let r = RunState { next, summary, awaiting: Awaiting::Ready, ..state };
            (r, vec![RunAction::Emit(Event::FileSkipped { path, reason }), RunAction::Next])
        },
        (Awaiting::Inspection, RunEvent::Prepared { stop_requested }) => {
            if stop_requested {
                close(state, true)
            } else {
                let index = state.summary.converted + state.summary.failed + 1;
                let candidate = state.next;
                let r = RunState { awaiting: Awaiting::Outcome, ..state };
                (r, vec![RunAction::StartFile { index, candidate }])
            }
        },
        (Awaiting::Outcome, RunEvent::Converted { source_bytes, output_bytes, message }) => {
            let index = state.summary.converted + state.summary.failed + 1;
            let input_path = copy_str(state.candidates[state.next].input_path.as_str());
            let summary = RunSummary {
                converted: state.summary.converted + 1,
                source_bytes: state.summary.source_bytes + source_bytes,
                output_bytes: state.summary.output_bytes + output_bytes,
                ..state.summary
            };
            let next = state.next + 1;
            let r = RunState { next, summary, awaiting: Awaiting::Ready, ..state };
            let finished = Event::FileFinished {
                index,
                input_path,
                status: FileStatus::Converted,
                message,
                source_bytes: Some(source_bytes),
                output_bytes: Some(output_bytes),
            };
            (r, vec![RunAction::Emit(finished), RunAction::Next])
        },
        (Awaiting::Outcome, RunEvent::Failed { error }) => {
            let index = state.summary.converted + state.summary.failed + 1;
            let path = state.candidates[state.next].input_path.as_str();
            let note = join3("failed: ", path, ": ");
            let mut text = note;
            text.append(error.as_str());
            let finished = Event::FileFinished {
                index,
                input_path: copy_str(path),
                status: FileStatus::Failed,
                message: copy_str("failed"),
                source_bytes: None,
                output_bytes: None,
            };
            let summary = RunSummary { failed: state.summary.failed + 1, ..state.summary };
            let next = state.next + 1;
            let r = RunState { next, summary, awaiting: Awaiting::Ready, ..state };
            (r, vec![RunAction::Emit(finished), log_action(LogLevel::Error, text), RunAction::Next])
        },
        (_, event) => (state, Vec::new()),
    }
}

/// A run converts at most `count` files when `count` is not negative, in
/// every state it reaches.
pub proof fn at_most_count_attempted(s: RunState)
    requires
        wf(s),
    ensures
        s.count >= 0 ==> s.summary.converted + s.summary.failed <= s.count,
        s.summary.converted + s.summary.failed <= s.candidates@.len(),
{
}

} // verus!
