//! The four-way verification verdict taken after every engine step.

use vstd::prelude::*;

verus! {

/// Verdict over one engine's candidate output, derived from two independent
/// observations: whether the candidate's pixels equal the baseline's, and
/// whether the candidate file is strictly smaller than the baseline.
#[derive(Clone, Copy, Debug, PartialEq, Eq, Structural)]
pub enum VerificationOutcome {
    /// Pixels identical and strictly smaller: the candidate is committed as
    /// the new baseline.
    Improved,
    /// Pixels identical but no size win: the candidate is discarded.
    NoGain,
    /// Pixels altered although the file shrank: the baseline is restored
    /// over the candidate and a data-loss event is flagged.
    Corrupted,
    /// Pixels altered and the file did not shrink: impossible for a correct
    /// engine; fatal for the task it happened in.
    Invalid,
}

/// The verdict as a function of the two observations.
pub open spec fn classify_spec(pixel_identical: bool, got_smaller: bool) -> VerificationOutcome {
    if pixel_identical {
        if got_smaller {
            VerificationOutcome::Improved
        } else {
            VerificationOutcome::NoGain
        }
    } else {
        if got_smaller {
            VerificationOutcome::Corrupted
        } else {
            VerificationOutcome::Invalid
        }
    }
}

/// Classify one engine step from the two observations.
pub fn classify(pixel_identical: bool, got_smaller: bool) -> (r: VerificationOutcome)
    ensures
        r == classify_spec(pixel_identical, got_smaller),
{
    if pixel_identical {
        if got_smaller {
            VerificationOutcome::Improved
        } else {
            VerificationOutcome::NoGain
        }
    } else {
        if got_smaller {
            VerificationOutcome::Corrupted
        } else {
            VerificationOutcome::Invalid
        }
    }
}

/// A lossless engine step can never be judged `Invalid`: whenever the
/// candidate's pixels equal the baseline's, the verdict is `Improved` or
/// `NoGain`, whatever the sizes did.
pub proof fn lemma_lossless_step_never_invalid(got_smaller: bool)
    ensures
        classify_spec(true, got_smaller) != VerificationOutcome::Invalid,
        classify_spec(true, got_smaller) != VerificationOutcome::Corrupted,
{
}

} // verus!
