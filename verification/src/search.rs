//! Finding the quality setting that just reaches the target.
//!
//! Encoders do not agree on what a given quality number looks like, and the
//! same number produces very different results on different footage. Rather
//! than guess, a search encodes a few short samples at trial settings,
//! measures each one, and moves towards the setting that lands just above the
//! target.
use vstd::prelude::*;
use crate::text::{append_all, copy_str, owned_all, views};

verus! {

/// The most trial encodes one search will run.
pub const MAX_ITERATIONS: usize = 6;

/// The worst-case number of ffmpeg runs a search over `samples` samples may
/// need: one extraction per sample, then an encode and a measurement per
/// sample per iteration. Most searches stop long before this, which is why
/// the phase closes early rather than counting down.
pub fn search_steps(samples: usize) -> (r: usize)
    requires
        samples * 13 <= usize::MAX,
    ensures
        r == samples * (1 + 2 * MAX_ITERATIONS),
{
    samples * (1 + 2 * MAX_ITERATIONS)
}

/// The ffmpeg arguments that encode one sample at a trial quality, video
/// only, into Matroska.
pub open spec fn trial_args(
    sample: Seq<char>,
    encoder: Seq<char>,
    quality: Seq<Seq<char>>,
    pix_fmt: Option<Seq<char>>,
    output: Seq<char>,
) -> Seq<Seq<char>> {
    seq![
        "-hide_banner"@,
        "-nostdin"@,
        "-loglevel"@,
        "error"@,
        "-y"@,
        "-i"@,
        sample,
        "-map"@,
        "0:v:0"@,
        "-an"@,
        "-c:v"@,
        encoder,
    ] + quality + match pix_fmt {
        Some(f) => seq!["-pix_fmt:v:0"@, f],
        None => Seq::empty(),
    } + seq!["-f"@, "matroska"@, output]
}

/// Builds the arguments that encode one sample at a trial quality.
pub fn build_trial_args(
    sample: &str,
    encoder: &str,
    quality_args: &Vec<String>,
    pix_fmt: Option<&str>,
    output: &str,
) -> (r: Vec<String>)
    ensures
        views(r@) == trial_args(
            sample@,
            encoder@,
            views(quality_args@),
            match pix_fmt {
                Some(f) => Some(f@),
                None => None,
            },
            output@,
        ),
{
    let mut args = owned_all(
        vec!["-hide_banner", "-nostdin", "-loglevel", "error", "-y", "-i"],
    );
    let ghost a0 = views(args@);
    args.push(copy_str(sample));
    let ghost a1 = views(args@);
    assert(a1 =~= a0.push(sample@));
    let mid = owned_all(vec!["-map", "0:v:0", "-an", "-c:v"]);
    append_all(&mut args, &mid);
    let ghost a2 = views(args@);
    args.push(copy_str(encoder));
    let ghost a3 = views(args@);
    assert(a3 =~= a2.push(encoder@));
    append_all(&mut args, quality_args);
    let ghost a4 = views(args@);
    let ghost fmt_part: Seq<Seq<char>> = match pix_fmt {
        Some(f) => seq!["-pix_fmt:v:0"@, f@],
        None => Seq::empty(),
    };
    match pix_fmt {
        Some(f) => {
            args.push(copy_str("-pix_fmt:v:0"));
            args.push(copy_str(f));
            assert(views(args@) =~= a4 + fmt_part);
        },
        None => {
            assert(views(args@) =~= a4 + fmt_part);
        },
    }
    let ghost a5 = views(args@);
    args.push(copy_str("-f"));
    args.push(copy_str("matroska"));
    args.push(copy_str(output));
    assert(views(args@) =~= a5 + seq!["-f"@, "matroska"@, output@]);
    assert(views(args@) =~= trial_args(
        sample@,
        encoder@,
        views(quality_args@),
        match pix_fmt {
            Some(f) => Some(f@),
            None => None,
        },
        output@,
    ));
    args
}

/// The sample files one search extracted.
pub struct SampleSet {
    paths: Vec<String>,
}

impl SampleSet {
    pub closed spec fn files(self) -> Seq<Seq<char>> {
        views(self.paths@)
    }

    /// A set of extracted samples.
    pub fn new(paths: Vec<String>) -> (r: Self)
        ensures
            r.files() == views(paths@),
    {
        SampleSet { paths }
    }

    /// The sample files that were extracted.
    pub fn paths(&self) -> (r: &Vec<String>)
        ensures
            views(r@) == self.files(),
    {
        &self.paths
    }
}

} // verus!
