//! How far along one run is.
//!
//! The run's count covers every candidate the run has finished with,
//! converted, failed or skipped alike. Counting conversions instead would
//! leave a progress bar stuck whenever most of a folder is skipped, which is
//! the common case for a second run over the same videos.
use vstd::prelude::*;

verus! {

/// The stages one file passes through, in order. Validating comes before
/// measuring because an output is checked for what it must contain before
/// anyone asks how good it looks.
#[derive(Debug, Clone, Copy, PartialEq, Eq, Structural)]
pub enum Phase {
    /// Test-encoding samples to find a quality setting.
    Choosing,
    /// The encode itself.
    Encoding,
    /// Checking the result is what was asked for.
    Validating,
    /// Comparing the result against the source.
    Measuring,
    /// Putting the result in place.
    Committing,
}

/// Every phase, in the order a file passes through them.
pub open spec fn phase_order() -> Seq<Phase> {
    seq![Phase::Choosing, Phase::Encoding, Phase::Validating, Phase::Measuring, Phase::Committing]
}

/// Every phase, in the order a file passes through them.
pub fn phases() -> (r: Vec<Phase>)
    ensures
        r@ == phase_order(),
{
    let r = vec![
        Phase::Choosing,
        Phase::Encoding,
        Phase::Validating,
        Phase::Measuring,
        Phase::Committing,
    ];
    assert(r@ =~= phase_order());
    r
}

impl Phase {
    /// Maps a phase to its stable wire value.
    pub fn as_str(self) -> (r: &'static str)
        ensures
            r@ == (match self {
                Phase::Choosing => "choosing"@,
                Phase::Encoding => "encoding"@,
                Phase::Measuring => "measuring"@,
                Phase::Validating => "validating"@,
                Phase::Committing => "committing"@,
            }),
    {
        match self {
            Phase::Choosing => "choosing",
            Phase::Encoding => "encoding",
            Phase::Measuring => "measuring",
            Phase::Validating => "validating",
            Phase::Committing => "committing",
        }
    }

    /// Maps a phase to the words shown beside a terminal progress bar.
    pub fn label(self) -> (r: &'static str)
        ensures
            r@ == (match self {
                Phase::Choosing => "choosing quality"@,
                Phase::Encoding => "encoding"@,
                Phase::Measuring => "measuring quality"@,
                Phase::Validating => "validating"@,
                Phase::Committing => "committing"@,
            }),
    {
        match self {
            Phase::Choosing => "choosing quality",
            Phase::Encoding => "encoding",
            Phase::Measuring => "measuring quality",
            Phase::Validating => "validating",
            Phase::Committing => "committing",
        }
    }
}

/// How thoroughly the result will be compared against the source, which is
/// the one phase whose cost changes by more than a rounding error.
#[derive(Debug, Clone, Copy, PartialEq, Eq, Structural)]
pub enum MeasurePlan {
    /// No comparison is possible, so the phase does not exist.
    Unavailable,
    /// Every few frames.
    Sampled,
    /// Every frame, which costs about as much as the encode.
    Full,
}

/// How far a whole run has got: candidates finished with, of how many.
#[derive(Debug, Clone, Copy, Default)]
pub struct RunProgress {
    processed: usize,
    total: usize,
}

impl RunProgress {
    pub closed spec fn done(self) -> nat {
        self.processed as nat
    }

    pub closed spec fn of(self) -> nat {
        self.total as nat
    }

    /// Starts tracking a run over a known number of candidates.
    pub fn new(total: usize) -> (r: Self)
        ensures
            r.done() == 0,
            r.of() == total,
    {
        RunProgress { processed: 0, total }
    }

    /// Records that the run is finished with one more candidate.
    pub fn finish_candidate(&mut self)
        requires
            old(self).done() < usize::MAX,
        ensures
            final(self).done() == old(self).done() + 1,
            final(self).of() == old(self).of(),
    {
        self.processed = self.processed + 1;
    }

    /// How many candidates are done, and how many there are.
    pub fn counts(&self) -> (r: (usize, usize))
        ensures
            r.0 == self.done(),
            r.1 == self.of(),
    {
        (self.processed, self.total)
    }
}

} // verus!
