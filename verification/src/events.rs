//! The events a run reports to its caller, and the one-line JSON document an
//! embedding front end receives for each.
use vstd::prelude::*;
use crate::json::{
    json_optional_string, json_optional_u32, json_optional_u64, json_optional_usize, json_quoted,
    json_string,
};
use crate::options::{EncoderPreference, Preservation, QualityCheck, QualityMode, TargetCodec};
use crate::run::{
    candidate_json, candidate_text, file_status_label, log_level_label, log_level_name,
    summary_json, summary_text, CandidatePreview, FileStatus, LogLevel, OutputFormat, RunSummary,
};
use crate::text::{copy_str, decimal, decimal_string, digit_char, push_char, views};

verus! {

/// Something a run reports while it works.
#[derive(Debug, Clone, PartialEq, Eq)]
pub enum Event {
    Log {
        level: LogLevel,
        message: String,
    },
    /// The settings this run will use, sent once before any file is touched so
    /// a front end can show what it is about to do.
    SettingsSelected {
        codec: TargetCodec,
        preservation: Preservation,
        encoder_preference: EncoderPreference,
        output_format: OutputFormat,
        quality_mode: QualityMode,
        quality_check: QualityCheck,
        /// Quality target in hundredths of a VMAF point.
        quality_target: u32,
        /// Score below which a result goes to review, in hundredths.
        review_threshold: u32,
    },
    /// A capability the run needs is missing, so it fell back to something else.
    CapabilityMissing {
        capability: String,
        detail: String,
    },
    /// One step of a quality search: a trial setting and what it scored.
    QualitySearch {
        index: usize,
        iteration: usize,
        encoder: String,
        quality: String,
        /// Measured score in hundredths, when the trial produced one.
        score: Option<u32>,
    },
    /// The finished file was compared against its source.
    QualityMeasured {
        index: usize,
        /// Measured score in hundredths.
        score: u32,
        /// Frames compared out of every group.
        subsample: u32,
        /// Score the run was aiming for, in hundredths.
        target: u32,
        /// Whether the score cleared the review threshold.
        passed: bool,
        /// Set when the score should not be trusted, for example on HDR sources.
        caveat: Option<String>,
    },
    /// A conversion finished but was kept beside its original for the user to
    /// judge, either because something changed or because it scored low.
    ReviewPending {
        index: usize,
        original_path: String,
        review_path: String,
        sidecar_path: String,
        /// Measured score in hundredths, when it could be measured.
        score: Option<u32>,
        original_bytes: u64,
        review_bytes: u64,
        /// One entry per recoverable difference, as `kind: detail`.
        deviations: Vec<String>,
    },
    EncoderCandidateEvaluated {
        encoder: String,
        advertised: bool,
        usable: bool,
        detail: Option<String>,
    },
    EncoderSelected {
        encoder: String,
    },
    ScanStarted {
        target_folder: String,
    },
    ScanFinished {
        candidates: usize,
        skipped: usize,
    },
    DryRun {
        encoder: String,
        limit: Option<usize>,
        candidates: Vec<CandidatePreview>,
        skipped: usize,
    },
    FileSkipped {
        path: String,
        reason: String,
    },
    FileStarted {
        index: usize,
        total: Option<usize>,
        input_path: String,
        output_path: String,
        encoder: String,
        quality: String,
    },
    FileAttempt {
        index: usize,
        attempt: usize,
        total_attempts: usize,
        encoder: String,
        quality: String,
        plan: String,
        target_pix_fmt: Option<String>,
        fallback_reason: Option<String>,
    },
    FileProgress {
        index: usize,
        /// How far the file is, in thousandths of a percent.
        percent_thousandths: u32,
        speed: Option<String>,
        eta_seconds: u64,
    },
    CopyProgress {
        index: usize,
        /// How far the copy is, in thousandths of a percent.
        percent_thousandths: u32,
        copied_bytes: u64,
        total_bytes: u64,
        eta_seconds: u64,
    },
    Stage {
        index: usize,
        stage: String,
    },
    FileFinished {
        index: usize,
        input_path: String,
        status: FileStatus,
        message: String,
        source_bytes: Option<u64>,
        output_bytes: Option<u64>,
    },
    StopRequested,
    Summary {
        summary: RunSummary,
    },
}

/// A percentage given in thousandths, written with three decimals.
pub open spec fn fixed3(p: nat) -> Seq<char> {
    decimal(p / 1000) + seq![
        '.',
        digit_char(((p / 100) % 10) as int),
        digit_char(((p / 10) % 10) as int),
        digit_char((p % 10) as int),
    ]
}

pub open spec fn bool_text(b: bool) -> Seq<char> {
    if b {
        "true"@
    } else {
        "false"@
    }
}

pub open spec fn opt_string_text(v: Option<String>) -> Seq<char> {
    match v {
        Some(s) => json_quoted(s@),
        None => "null"@,
    }
}

pub open spec fn opt_u32_text(v: Option<u32>) -> Seq<char> {
    match v {
        Some(n) => decimal(n as nat),
        None => "null"@,
    }
}

pub open spec fn opt_usize_text(v: Option<usize>) -> Seq<char> {
    match v {
        Some(n) => decimal(n as nat),
        None => "null"@,
    }
}

pub open spec fn opt_u64_text(v: Option<u64>) -> Seq<char> {
    match v {
        Some(n) => decimal(n as nat),
        None => "null"@,
    }
}

pub open spec fn status_name(status: FileStatus) -> Seq<char> {
    match status {
        FileStatus::Converted => "converted"@,
        FileStatus::Failed => "failed"@,
    }
}

/// Strings as JSON string literals separated by commas.
pub open spec fn quoted_list(s: Seq<Seq<char>>) -> Seq<char>
    decreases s.len(),
{
    if s.len() == 0 {
        Seq::empty()
    } else if s.len() == 1 {
        json_quoted(s[0])
    } else {
        quoted_list(s.drop_last()) + ","@ + json_quoted(s.last())
    }
}

/// Dry-run candidates as JSON objects separated by commas.
pub open spec fn candidates_text(c: Seq<CandidatePreview>) -> Seq<char>
    decreases c.len(),
{
    if c.len() == 0 {
        Seq::empty()
    } else if c.len() == 1 {
        candidate_text(c[0])
    } else {
        candidates_text(c.drop_last()) + ","@ + candidate_text(c.last())
    }
}

/// The JSON document written for an event.
pub open spec fn event_text(e: Event) -> Seq<char> {
    match e {
        Event::Log { level, message } => "{\"type\":\"log\",\"level\":"@ + json_quoted(
            log_level_name(level),
        ) + ",\"message\":"@ + json_quoted(message@) + "}"@,
        Event::SettingsSelected {
            codec,
            preservation,
            encoder_preference,
            output_format,
            quality_mode,
            quality_check,
            quality_target,
            review_threshold,
        } => "{\"type\":\"settings_selected\",\"codec\":"@ + json_quoted(codec.wire_name())
            + ",\"preservation\":"@ + json_quoted(preservation.wire_name())
            + ",\"encoder_preference\":"@ + json_quoted(encoder_preference.wire_name())
            + ",\"output_format\":"@ + json_quoted(output_format.wire_name())
            + ",\"quality_mode\":"@ + json_quoted(quality_mode.wire_name()) + ",\"quality_check\":"@
            + json_quoted(quality_check.wire_name()) + ",\"quality_target\":"@ + decimal(
            quality_target as nat,
        ) + ",\"review_threshold\":"@ + decimal(review_threshold as nat) + "}"@,
        Event::CapabilityMissing { capability, detail } =>
            "{\"type\":\"capability_missing\",\"capability\":"@ + json_quoted(capability@)
            + ",\"detail\":"@ + json_quoted(detail@) + "}"@,
        Event::QualitySearch { index, iteration, encoder, quality, score } =>
            "{\"type\":\"quality_search\",\"index\":"@ + decimal(index as nat) + ",\"iteration\":"@
            + decimal(iteration as nat) + ",\"encoder\":"@ + json_quoted(encoder@) + ",\"quality\":"@
            + json_quoted(quality@) + ",\"score\":"@ + opt_u32_text(score) + "}"@,
        Event::QualityMeasured { index, score, subsample, target, passed, caveat } =>
            "{\"type\":\"quality_measured\",\"index\":"@ + decimal(index as nat) + ",\"score\":"@
            + decimal(score as nat) + ",\"subsample\":"@ + decimal(subsample as nat) + ",\"target\":"@
            + decimal(target as nat) + ",\"passed\":"@ + bool_text(passed) + ",\"caveat\":"@
            + opt_string_text(caveat) + "}"@,
        Event::ReviewPending {
            index,
            original_path,
            review_path,
            sidecar_path,
            score,
            original_bytes,
            review_bytes,
            deviations,
        } => "{\"type\":\"review_pending\",\"index\":"@ + decimal(index as nat) + ",\"original_path\":"@
            + json_quoted(original_path@) + ",\"review_path\":"@ + json_quoted(review_path@)
            + ",\"sidecar_path\":"@ + json_quoted(sidecar_path@) + ",\"score\":"@ + opt_u32_text(score)
            + ",\"original_bytes\":"@ + decimal(original_bytes as nat) + ",\"review_bytes\":"@
            + decimal(review_bytes as nat) + ",\"deviations\":["@ + quoted_list(views(deviations@))
            + "]}"@,
        Event::EncoderCandidateEvaluated { encoder, advertised, usable, detail } =>
            "{\"type\":\"encoder_candidate_evaluated\",\"encoder\":"@ + json_quoted(encoder@)
            + ",\"advertised\":"@ + bool_text(advertised) + ",\"usable\":"@ + bool_text(usable)
            + ",\"detail\":"@ + opt_string_text(detail) + "}"@,
        Event::EncoderSelected { encoder } => "{\"type\":\"encoder_selected\",\"encoder\":"@
            + json_quoted(encoder@) + "}"@,
        Event::ScanStarted { target_folder } =>
            "{\"type\":\"scan_started\",\"target_folder\":"@ + json_quoted(target_folder@) + "}"@,
        Event::ScanFinished { candidates, skipped } =>
            "{\"type\":\"scan_finished\",\"candidates\":"@ + decimal(candidates as nat)
            + ",\"skipped\":"@ + decimal(skipped as nat) + "}"@,
        Event::DryRun { encoder, limit, candidates, skipped } =>
            "{\"type\":\"dry_run\",\"encoder\":"@ + json_quoted(encoder@) + ",\"limit\":"@
            + opt_usize_text(limit) + ",\"candidates\":["@ + candidates_text(candidates@)
            + "],\"skipped\":"@ + decimal(skipped as nat) + "}"@,
        Event::FileSkipped { path, reason } => "{\"type\":\"file_skipped\",\"path\":"@ + json_quoted(
            path@,
        ) + ",\"reason\":"@ + json_quoted(reason@) + "}"@,
        Event::FileStarted { index, total, input_path, output_path, encoder, quality } =>
            "{\"type\":\"file_started\",\"index\":"@ + decimal(index as nat) + ",\"total\":"@
            + opt_usize_text(total) + ",\"input_path\":"@ + json_quoted(input_path@)
            + ",\"output_path\":"@ + json_quoted(output_path@) + ",\"encoder\":"@ + json_quoted(
            encoder@,
        ) + ",\"quality\":"@ + json_quoted(quality@) + "}"@,
        Event::FileAttempt {
            index,
            attempt,
            total_attempts,
            encoder,
            quality,
            plan,
            target_pix_fmt,
            fallback_reason,
        } => "{\"type\":\"file_attempt\",\"index\":"@ + decimal(index as nat) + ",\"attempt\":"@
            + decimal(attempt as nat) + ",\"total_attempts\":"@ + decimal(total_attempts as nat)
            + ",\"encoder\":"@ + json_quoted(encoder@) + ",\"quality\":"@ + json_quoted(quality@)
            + ",\"plan\":"@ + json_quoted(plan@) + ",\"target_pix_fmt\":"@ + opt_string_text(
            target_pix_fmt,
        ) + ",\"fallback_reason\":"@ + opt_string_text(fallback_reason) + "}"@,
        Event::FileProgress { index, percent_thousandths, speed, eta_seconds } =>
            "{\"type\":\"file_progress\",\"index\":"@ + decimal(index as nat) + ",\"percent\":"@
            + fixed3(percent_thousandths as nat) + ",\"speed\":"@ + opt_string_text(speed)
            + ",\"eta_seconds\":"@ + decimal(eta_seconds as nat) + "}"@,
        Event::CopyProgress {
            index,
            percent_thousandths,
            copied_bytes,
            total_bytes,
            eta_seconds,
        } => "{\"type\":\"copy_progress\",\"index\":"@ + decimal(index as nat) + ",\"percent\":"@
            + fixed3(percent_thousandths as nat) + ",\"copied_bytes\":"@ + decimal(
            copied_bytes as nat,
        ) + ",\"total_bytes\":"@ + decimal(total_bytes as nat) + ",\"eta_seconds\":"@ + decimal(
            eta_seconds as nat,
        ) + "}"@,
        Event::Stage { index, stage } => "{\"type\":\"stage\",\"index\":"@ + decimal(index as nat)
            + ",\"stage\":"@ + json_quoted(stage@) + "}"@,
        Event::FileFinished { index, input_path, status, message, source_bytes, output_bytes } =>
            "{\"type\":\"file_finished\",\"index\":"@ + decimal(index as nat) + ",\"input_path\":"@
            + json_quoted(input_path@) + ",\"status\":"@ + json_quoted(status_name(status))
            + ",\"message\":"@ + json_quoted(message@) + ",\"source_bytes\":"@ + opt_u64_text(
            source_bytes,
        ) + ",\"output_bytes\":"@ + opt_u64_text(output_bytes) + "}"@,
        Event::StopRequested => "{\"type\":\"stop_requested\"}"@,
        Event::Summary { summary } => "{\"type\":\"summary\",\"summary\":"@ + summary_text(summary)
            + "}"@,
    }
}

fn add_json(out: &mut String, value: &str)
    ensures
        final(out)@ == old(out)@ + json_quoted(value@),
{
    let j = json_string(value);
    out.append(j.as_str());
}

fn add_number(out: &mut String, n: u64)
    ensures
        final(out)@ == old(out)@ + decimal(n as nat),
{
    let d = decimal_string(n);
    out.append(d.as_str());
}

fn add_bool(out: &mut String, b: bool)
    ensures
        final(out)@ == old(out)@ + bool_text(b),
{
    if b {
        out.append("true");
    } else {
        out.append("false");
    }
}

fn add_optional_string(out: &mut String, v: &Option<String>)
    ensures
        final(out)@ == old(out)@ + opt_string_text(*v),
{
    let t = match v {
        Some(s) => json_optional_string(Some(s.as_str())),
        None => json_optional_string(None),
    };
    out.append(t.as_str());
}

fn add_digit(out: &mut String, d: u32)
    requires
        d < 10,
    ensures
        final(out)@ == old(out)@.push(digit_char(d as int)),
{
    let b: u8 = d as u8;
    push_char(out, (b + 48) as char);
}

/// Writes a percentage given in thousandths with three decimals.
pub fn fixed3_string(p: u32) -> (r: String)
    ensures
        r@ == fixed3(p as nat),
{
    let mut out = decimal_string((p / 1000) as u64);
    push_char(&mut out, '.');
    add_digit(&mut out, (p / 100) % 10);
    add_digit(&mut out, (p / 10) % 10);
    add_digit(&mut out, p % 10);
    assert(out@ =~= fixed3(p as nat));
    out
}

/// Writes the strings as JSON string literals separated by commas.
pub fn quoted_list_json(items: &Vec<String>) -> (r: String)
    ensures
        r@ == quoted_list(views(items@)),
{
    let mut out = String::new();
    let mut i: usize = 0;
    assert(out@ =~= quoted_list(views(items@.subrange(0, 0))));
    while i < items.len()
        invariant
            i <= items@.len(),
            out@ == quoted_list(views(items@.subrange(0, i as int))),
        decreases items.len() - i,
    {
        let ghost prev = views(items@.subrange(0, i as int));
        let ghost next = views(items@.subrange(0, i + 1));
        assert(next.drop_last() =~= prev);
        assert(next.last() == items@[i as int]@);
        let ghost before = out@;
        if i > 0 {
            out.append(",");
        }
        add_json(&mut out, items[i].as_str());
        proof {
            if i == 0 {
                assert(out@ =~= json_quoted(next[0]));
            } else {
                assert(out@ =~= before + ","@ + json_quoted(next.last()));
            }
        }
        i = i + 1;
    }
    assert(items@.subrange(0, items@.len() as int) =~= items@);
    out
}

/// Writes dry-run candidates as JSON objects separated by commas.
pub fn candidates_json(items: &Vec<CandidatePreview>) -> (r: String)
    ensures
        r@ == candidates_text(items@),
{
    let mut out = String::new();
    let mut i: usize = 0;
    assert(out@ =~= candidates_text(items@.subrange(0, 0)));
    while i < items.len()
        invariant
            i <= items@.len(),
            out@ == candidates_text(items@.subrange(0, i as int)),
        decreases items.len() - i,
    {
        let ghost prev = items@.subrange(0, i as int);
        let ghost next = items@.subrange(0, i + 1);
        assert(next.drop_last() =~= prev);
        let ghost before = out@;
        if i > 0 {
            out.append(",");
        }
        let c = candidate_json(&items[i]);
        out.append(c.as_str());
        proof {
            if i == 0 {
                assert(out@ =~= candidate_text(next[0]));
            } else {
                assert(out@ =~= before + ","@ + candidate_text(next.last()));
            }
        }
        i = i + 1;
    }
    assert(items@.subrange(0, items@.len() as int) =~= items@);
    out
}

/// Serializes an event as one JSON document for an embedding front end.
pub fn event_json(event: &Event) -> (r: String)
    ensures
        r@ == event_text(*event),
{
    match event {
        Event::Log { level, message } => {
            let mut out = copy_str("{\"type\":\"log\",\"level\":");
            add_json(&mut out, log_level_label(*level));
            out.append(",\"message\":");
            add_json(&mut out, message.as_str());
            out.append("}");
            out
        },
        Event::SettingsSelected {
            codec,
            preservation,
            encoder_preference,
            output_format,
            quality_mode,
            quality_check,
            quality_target,
            review_threshold,
        } => {
            let mut out = copy_str("{\"type\":\"settings_selected\",\"codec\":");
            add_json(&mut out, codec.as_str());
            out.append(",\"preservation\":");
            add_json(&mut out, preservation.as_str());
            out.append(",\"encoder_preference\":");
            add_json(&mut out, encoder_preference.as_str());
            out.append(",\"output_format\":");
            add_json(&mut out, output_format.as_str());
            out.append(",\"quality_mode\":");
            add_json(&mut out, quality_mode.as_str());
            out.append(",\"quality_check\":");
            add_json(&mut out, quality_check.as_str());
            out.append(",\"quality_target\":");
            add_number(&mut out, *quality_target as u64);
            out.append(",\"review_threshold\":");
            add_number(&mut out, *review_threshold as u64);
            out.append("}");
            out
        },
        Event::CapabilityMissing { capability, detail } => {
            let mut out = copy_str("{\"type\":\"capability_missing\",\"capability\":");
            add_json(&mut out, capability.as_str());
            out.append(",\"detail\":");
            add_json(&mut out, detail.as_str());
            out.append("}");
            out
        },
        Event::QualitySearch { index, iteration, encoder, quality, score } => {
            let mut out = copy_str("{\"type\":\"quality_search\",\"index\":");
            add_number(&mut out, *index as u64);
            out.append(",\"iteration\":");
            add_number(&mut out, *iteration as u64);
            out.append(",\"encoder\":");
            add_json(&mut out, encoder.as_str());
            out.append(",\"quality\":");
            add_json(&mut out, quality.as_str());
            out.append(",\"score\":");
            let s = json_optional_u32(*score);
            out.append(s.as_str());
            out.append("}");
            out
        },
        Event::QualityMeasured { index, score, subsample, target, passed, caveat } => {
            let mut out = copy_str("{\"type\":\"quality_measured\",\"index\":");
            add_number(&mut out, *index as u64);
            out.append(",\"score\":");
            add_number(&mut out, *score as u64);
            out.append(",\"subsample\":");
            add_number(&mut out, *subsample as u64);
            out.append(",\"target\":");
            add_number(&mut out, *target as u64);
            out.append(",\"passed\":");
            add_bool(&mut out, *passed);
            out.append(",\"caveat\":");
            add_optional_string(&mut out, caveat);
            out.append("}");
            out
        },
        Event::ReviewPending {
            index,
            original_path,
            review_path,
            sidecar_path,
            score,
            original_bytes,
            review_bytes,
            deviations,
        } => {
            let mut out = copy_str("{\"type\":\"review_pending\",\"index\":");
            add_number(&mut out, *index as u64);
            out.append(",\"original_path\":");
            add_json(&mut out, original_path.as_str());
            out.append(",\"review_path\":");
            add_json(&mut out, review_path.as_str());
            out.append(",\"sidecar_path\":");
            add_json(&mut out, sidecar_path.as_str());
            out.append(",\"score\":");
            let s = json_optional_u32(*score);
            out.append(s.as_str());
            out.append(",\"original_bytes\":");
            add_number(&mut out, *original_bytes);
            out.append(",\"review_bytes\":");
            add_number(&mut out, *review_bytes);
            out.append(",\"deviations\":[");
            let list = quoted_list_json(deviations);
            out.append(list.as_str());
            out.append("]}");
            out
        },
        Event::EncoderCandidateEvaluated { encoder, advertised, usable, detail } => {
            let mut out = copy_str("{\"type\":\"encoder_candidate_evaluated\",\"encoder\":");
            add_json(&mut out, encoder.as_str());
            out.append(",\"advertised\":");
            add_bool(&mut out, *advertised);
            out.append(",\"usable\":");
            add_bool(&mut out, *usable);
            out.append(",\"detail\":");
            add_optional_string(&mut out, detail);
            out.append("}");
            out
        },
        Event::EncoderSelected { encoder } => {
            let mut out = copy_str("{\"type\":\"encoder_selected\",\"encoder\":");
            add_json(&mut out, encoder.as_str());
            out.append("}");
            out
        },
        Event::ScanStarted { target_folder } => {
            let mut out = copy_str("{\"type\":\"scan_started\",\"target_folder\":");
            add_json(&mut out, target_folder.as_str());
            out.append("}");
            out
        },
        Event::ScanFinished { candidates, skipped } => {
            let mut out = copy_str("{\"type\":\"scan_finished\",\"candidates\":");
            add_number(&mut out, *candidates as u64);
            out.append(",\"skipped\":");
            add_number(&mut out, *skipped as u64);
            out.append("}");
            out
        },
        Event::DryRun { encoder, limit, candidates, skipped } => {
            let mut out = copy_str("{\"type\":\"dry_run\",\"encoder\":");
            add_json(&mut out, encoder.as_str());
            out.append(",\"limit\":");
            let l = json_optional_usize(*limit);
            out.append(l.as_str());
            out.append(",\"candidates\":[");
            let c = candidates_json(candidates);
            out.append(c.as_str());
            out.append("],\"skipped\":");
            add_number(&mut out, *skipped as u64);
            out.append("}");
            out
        },
        Event::FileSkipped { path, reason } => {
            let mut out = copy_str("{\"type\":\"file_skipped\",\"path\":");
            add_json(&mut out, path.as_str());
            out.append(",\"reason\":");
            add_json(&mut out, reason.as_str());
            out.append("}");
            out
        },
        Event::FileStarted { index, total, input_path, output_path, encoder, quality } => {
            let mut out = copy_str("{\"type\":\"file_started\",\"index\":");
            add_number(&mut out, *index as u64);
            out.append(",\"total\":");
            let t = json_optional_usize(*total);
            out.append(t.as_str());
            out.append(",\"input_path\":");
            add_json(&mut out, input_path.as_str());
            out.append(",\"output_path\":");
            add_json(&mut out, output_path.as_str());
            out.append(",\"encoder\":");
            add_json(&mut out, encoder.as_str());
            out.append(",\"quality\":");
            add_json(&mut out, quality.as_str());
            out.append("}");
            out
        },
        Event::FileAttempt {
            index,
            attempt,
            total_attempts,
            encoder,
            quality,
            plan,
            target_pix_fmt,
            fallback_reason,
        } => {
            let mut out = copy_str("{\"type\":\"file_attempt\",\"index\":");
            add_number(&mut out, *index as u64);
            out.append(",\"attempt\":");
            add_number(&mut out, *attempt as u64);
            out.append(",\"total_attempts\":");
            add_number(&mut out, *total_attempts as u64);
            out.append(",\"encoder\":");
            add_json(&mut out, encoder.as_str());
            out.append(",\"quality\":");
            add_json(&mut out, quality.as_str());
            out.append(",\"plan\":");
            add_json(&mut out, plan.as_str());
            out.append(",\"target_pix_fmt\":");
            add_optional_string(&mut out, target_pix_fmt);
            out.append(",\"fallback_reason\":");
            add_optional_string(&mut out, fallback_reason);
            out.append("}");
            out
        },
        Event::FileProgress { index, percent_thousandths, speed, eta_seconds } => {
            let mut out = copy_str("{\"type\":\"file_progress\",\"index\":");
            add_number(&mut out, *index as u64);
            out.append(",\"percent\":");
            let p = fixed3_string(*percent_thousandths);
            out.append(p.as_str());
            out.append(",\"speed\":");
            add_optional_string(&mut out, speed);
            out.append(",\"eta_seconds\":");
            add_number(&mut out, *eta_seconds);
            out.append("}");
            out
        },
        Event::CopyProgress {
            index,
            percent_thousandths,
            copied_bytes,
            total_bytes,
            eta_seconds,
        } => {
            let mut out = copy_str("{\"type\":\"copy_progress\",\"index\":");
            add_number(&mut out, *index as u64);
            out.append(",\"percent\":");
            let p = fixed3_string(*percent_thousandths);
            out.append(p.as_str());
            out.append(",\"copied_bytes\":");
            add_number(&mut out, *copied_bytes);
            out.append(",\"total_bytes\":");
            add_number(&mut out, *total_bytes);
            out.append(",\"eta_seconds\":");
            add_number(&mut out, *eta_seconds);
            out.append("}");
            out
        },
        Event::Stage { index, stage } => {
            let mut out = copy_str("{\"type\":\"stage\",\"index\":");
            add_number(&mut out, *index as u64);
            out.append(",\"stage\":");
            add_json(&mut out, stage.as_str());
            out.append("}");
            out
        },
        Event::FileFinished { index, input_path, status, message, source_bytes, output_bytes } => {
            let mut out = copy_str("{\"type\":\"file_finished\",\"index\":");
            add_number(&mut out, *index as u64);
            out.append(",\"input_path\":");
            add_json(&mut out, input_path.as_str());
            out.append(",\"status\":");
            add_json(&mut out, file_status_label(*status));
            out.append(",\"message\":");
            add_json(&mut out, message.as_str());
            out.append(",\"source_bytes\":");
            let s = json_optional_u64(*source_bytes);
            out.append(s.as_str());
            out.append(",\"output_bytes\":");
            let o = json_optional_u64(*output_bytes);
            out.append(o.as_str());
            out.append("}");
            out
        },
        Event::StopRequested => copy_str("{\"type\":\"stop_requested\"}"),
        Event::Summary { summary } => {
            let mut out = copy_str("{\"type\":\"summary\",\"summary\":");
            let s = summary_json(summary);
            out.append(s.as_str());
            out.append("}");
            out
        },
    }
}

} // verus!
