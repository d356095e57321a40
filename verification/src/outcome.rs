//! Errors a step can raise and the classification of a finished step.

use vstd::prelude::*;

verus! {

/// Everything that can go wrong while one step (or one repository update)
/// runs. `RequirementMissing` and `NotApplicable` are expected, low-severity
/// conditions; `AcceptedExit` is a nonzero exit code the step declared
/// harmless; the rest are genuine failures.
#[derive(Debug)]
pub enum StepError {
    /// The external program `name` is not on the search path.
    RequirementMissing { name: String },
    /// A file or directory the step needs is absent.
    NotApplicable { path: String },
    /// The target program could not be launched at all.
    SpawnFailure { detail: String },
    /// The process ran but returned an exit code outside the accepted set.
    NonZeroExit { code: i32 },
    /// The process returned a nonzero exit code the step declared accepted.
    AcceptedExit { code: i32 },
    /// Filesystem traversal or output capture failed.
    Io { detail: String },
}

impl Clone for StepError {
    fn clone(&self) -> (r: Self)
        ensures
            r == *self,
    {
        match self {
            StepError::RequirementMissing { name } => StepError::RequirementMissing {
                name: name.clone(),
            },
            StepError::NotApplicable { path } => StepError::NotApplicable { path: path.clone() },
            StepError::SpawnFailure { detail } => StepError::SpawnFailure {
                detail: detail.clone(),
            },
            StepError::NonZeroExit { code } => StepError::NonZeroExit { code: *code },
            StepError::AcceptedExit { code } => StepError::AcceptedExit { code: *code },
            StepError::Io { detail } => StepError::Io { detail: detail.clone() },
        }
    }
}

/// The classified result of one step: every invoked step ends in exactly one
/// of these. `Ignored` records an error that does not count as a failure for
/// exit-code purposes.
#[derive(Debug)]
pub enum Outcome {
    Success,
    Skipped { reason: StepError },
    Failed { error: StepError },
    Ignored { error: StepError },
}

impl Clone for Outcome {
    fn clone(&self) -> (r: Self)
        ensures
            r == *self,
    {
        match self {
            Outcome::Success => Outcome::Success,
            Outcome::Skipped { reason } => Outcome::Skipped { reason: reason.clone() },
            Outcome::Failed { error } => Outcome::Failed { error: error.clone() },
            Outcome::Ignored { error } => Outcome::Ignored { error: error.clone() },
        }
    }
}

/// How a finished step is classified: a missing requirement or an
/// inapplicable step was skipped, an accepted exit code is ignored, every
/// other error failed the step.
pub open spec fn spec_classify(r: Result<(), StepError>) -> Outcome {
    match r {
        Ok(()) => Outcome::Success,
        Err(e) => match e {
            StepError::RequirementMissing { .. } => Outcome::Skipped { reason: e },
            StepError::NotApplicable { .. } => Outcome::Skipped { reason: e },
            StepError::AcceptedExit { .. } => Outcome::Ignored { error: e },
            StepError::SpawnFailure { .. } => Outcome::Failed { error: e },
            StepError::NonZeroExit { .. } => Outcome::Failed { error: e },
            StepError::Io { .. } => Outcome::Failed { error: e },
        },
    }
}

/// Classify the result of one step.
pub fn classify(r: Result<(), StepError>) -> (o: Outcome)
    ensures
        o == spec_classify(r),
{
    match r {
        Ok(()) => Outcome::Success,
        Err(e) => match e {
            StepError::RequirementMissing { .. } => Outcome::Skipped { reason: e },
            StepError::NotApplicable { .. } => Outcome::Skipped { reason: e },
            StepError::AcceptedExit { .. } => Outcome::Ignored { error: e },
            StepError::SpawnFailure { .. } => Outcome::Failed { error: e },
            StepError::NonZeroExit { .. } => Outcome::Failed { error: e },
            StepError::Io { .. } => Outcome::Failed { error: e },
        },
    }
}

/// A missing external program always classifies the step as skipped — never
/// as failed — and the step's result carries no command, so nothing is
/// spawned on its behalf.
pub proof fn lemma_missing_requirement_is_skipped(name: String)
    ensures
        spec_classify(Err(StepError::RequirementMissing { name })) matches Outcome::Skipped {
            reason,
        } && reason == (StepError::RequirementMissing { name }),
        !(spec_classify(Err(StepError::RequirementMissing { name })) is Failed),
{
}

} // verus!
