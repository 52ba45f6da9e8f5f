//! Staging Area Manager: decides whether extraction may proceed into the
//! target directory, from what the caller observed when it tried to create
//! that directory. A fresh directory is fine; a pre-existing one is fine only
//! when it is empty; anything else is a fatal precondition failure with its
//! own exit code.
use vstd::prelude::*;

verus! {

/// The exit code reported when the target directory pre-exists and is not
/// empty, or could not be created.
pub const TARGET_NOT_EMPTY_EXIT: i32 = 22;

/// What the caller observed when it tried to create the target directory.
#[derive(Clone, Copy, Debug, PartialEq, Eq, Structural)]
pub enum CreateOutcome {
    /// The directory was created.
    Created,
    /// The directory already existed; the field counts the entries found in
    /// it.
    AlreadyExists(usize),
    /// Creation failed for any other reason.
    OtherError,
}

/// Whether extraction proceeds into the target directory.
#[derive(Clone, Copy, Debug, PartialEq, Eq, Structural)]
pub enum StagingDecision {
    /// The directory is usable: freshly created, or pre-existing and empty.
    Proceed,
    /// Fatal precondition failure: report it and stop with
    /// [`TARGET_NOT_EMPTY_EXIT`].
    Reject,
}

/// The staging rule: proceed exactly when the directory was created, or
/// pre-existed with no entries in it.
pub open spec fn spec_staging_decision(outcome: CreateOutcome) -> StagingDecision {
    match outcome {
        CreateOutcome::Created => StagingDecision::Proceed,
        CreateOutcome::AlreadyExists(n) => if n == 0 {
            StagingDecision::Proceed
        } else {
            StagingDecision::Reject
        },
        CreateOutcome::OtherError => StagingDecision::Reject,
    }
}

/// Decides whether the target directory is usable.
pub fn staging_decision(outcome: CreateOutcome) -> (r: StagingDecision)
    ensures
        r == spec_staging_decision(outcome),
{
    match outcome {
        CreateOutcome::Created => StagingDecision::Proceed,
        CreateOutcome::AlreadyExists(n) => if n == 0 {
            StagingDecision::Proceed
        } else {
            StagingDecision::Reject
        },
        CreateOutcome::OtherError => StagingDecision::Reject,
    }
}

/// A directory is empty exactly when iterating its entries yields none.
pub fn dir_is_empty(entry_count: usize) -> (r: bool)
    ensures
        r == (entry_count == 0),
{
    entry_count == 0
}

} // verus!
