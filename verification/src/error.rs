//! What can go wrong while a repository is managed or synchronised, and
//! what the operator is told about it.

use crate::config::ValidationError;
use vstd::prelude::*;
use vstd::string::*;

verus! {

/// The kinds of failure that work outside the library reports back.
#[derive(Clone, Copy, Debug, PartialEq, Eq, Structural)]
pub enum FailureKind {
    /// The remote branch cannot be fast-forwarded onto the local one.
    MergeConflict,
    /// The remote turned the credential down.
    AuthenticationFailed,
    /// The remote could not be reached, or did not answer in time.
    NetworkUnavailable,
    /// Any other failure of the version-control tool.
    Git,
    /// A file could not be written.
    Io,
    /// The store of settings could not be read or written.
    Storage,
}

/// A failure of work done outside the library: its kind and the detail
/// that the failing tool gave.
#[derive(Debug, PartialEq, Eq)]
pub struct Failure {
    pub kind: FailureKind,
    pub detail: String,
}

/// A `Failure` as plain values.
pub struct FailureView {
    pub kind: FailureKind,
    pub detail: Seq<char>,
}

impl View for Failure {
    type V = FailureView;

    open spec fn view(&self) -> FailureView {
        FailureView { kind: self.kind, detail: self.detail@ }
    }
}

/// The outside work of which an operation is made.
#[derive(Clone, Copy, Debug, PartialEq, Eq, Structural)]
pub enum Step {
    CreateWorkingCopy,
    ListBranches,
    Checkout,
    Pull,
    Export,
    Commit,
    Push,
    RemoveWorkingCopy,
    Persist,
}

/// What the operator should do about an error.
#[derive(Clone, Copy, Debug, PartialEq, Eq, Structural)]
pub enum Remedy {
    /// Correct the request and send it again.
    FixInput,
    /// Send the same request again later.
    Retry,
    /// Remove the repository and set it up again.
    Reinitialize,
    /// Nothing the operator can do from the page.
    ContactOperator,
}

/// Why an operation on the repository did not succeed.
#[derive(Debug, PartialEq, Eq)]
pub enum SyncError {
    /// The operator's input broke a rule.
    Validation(ValidationError),
    /// A repository is configured already; there is only ever one.
    RepositoryAlreadyExists,
    /// No repository is configured.
    RepositoryNotConfigured,
    /// No branch has been chosen yet.
    BranchNotSelected,
    /// The remote has no branch of the name asked for.
    BranchNotFound,
    /// Another operation on the repository has not finished.
    SyncInProgress,
    /// An outcome arrived for work that was not under way.
    UnexpectedEvent,
    /// Work outside the library failed at `step`.
    Outside { step: Step, kind: FailureKind, message: String },
    /// A change could not be stored, and what had been done to the working
    /// copy could not be undone: working copy and record no longer match.
    OutOfStep { message: String },
}

/// A `SyncError` as plain values.
pub enum SyncErrorView {
    Validation(ValidationError),
    RepositoryAlreadyExists,
    RepositoryNotConfigured,
    BranchNotSelected,
    BranchNotFound,
    SyncInProgress,
    UnexpectedEvent,
    Outside { step: Step, kind: FailureKind, message: Seq<char> },
    OutOfStep { message: Seq<char> },
}

impl View for SyncError {
    type V = SyncErrorView;

    open spec fn view(&self) -> SyncErrorView {
        match self {
            SyncError::Validation(e) => SyncErrorView::Validation(*e),
            SyncError::RepositoryAlreadyExists => SyncErrorView::RepositoryAlreadyExists,
            SyncError::RepositoryNotConfigured => SyncErrorView::RepositoryNotConfigured,
            SyncError::BranchNotSelected => SyncErrorView::BranchNotSelected,
            SyncError::BranchNotFound => SyncErrorView::BranchNotFound,
            SyncError::SyncInProgress => SyncErrorView::SyncInProgress,
            SyncError::UnexpectedEvent => SyncErrorView::UnexpectedEvent,
            SyncError::Outside { step, kind, message } => SyncErrorView::Outside {
                step: *step,
                kind: *kind,
                message: message@,
            },
            SyncError::OutOfStep { message } => SyncErrorView::OutOfStep { message: message@ },
        }
    }
}

/// The words that introduce a failure of `step`; `branch` is the branch
/// that was being switched to, where there is one.
pub open spec fn failure_prefix(step: Step, branch: Seq<char>) -> Seq<char> {
    match step {
        Step::CreateWorkingCopy => Seq::empty(),
        Step::ListBranches => "Failed getting branches: "@,
        Step::Checkout => "Failed switch branch to "@ + branch + " since "@,
        Step::Pull => "Failed pull: "@,
        Step::Export => "Failed to export posts: "@,
        Step::Commit => "Failed to push posts to git: "@,
        Step::Push => "Failed to push posts to git: "@,
        Step::RemoveWorkingCopy => "Failed remove repository: "@,
        Step::Persist => Seq::empty(),
    }
}

/// The sentence for a failure of `step` with the given detail.
pub open spec fn failure_message(step: Step, branch: Seq<char>, detail: Seq<char>) -> Seq<char> {
    failure_prefix(step, branch) + detail
}

/// The error that a failure of `step` becomes.
pub open spec fn outside_error(step: Step, branch: Seq<char>, failure: FailureView) -> SyncErrorView {
    SyncErrorView::Outside {
        step,
        kind: failure.kind,
        message: failure_message(step, branch, failure.detail),
    }
}

/// What the operator should do about `error`: input that breaks a rule or
/// names something that is not there is to be corrected, as is a
/// credential that was turned down; a busy repository, an unreachable
/// remote and a failure of the version-control tool are worth another try;
/// a conflict calls for a fresh working copy; the rest is beyond the
/// operator's reach.
pub open spec fn remedy_for(error: SyncErrorView) -> Remedy {
    match error {
        SyncErrorView::Validation(_) => Remedy::FixInput,
        SyncErrorView::RepositoryAlreadyExists => Remedy::FixInput,
        SyncErrorView::RepositoryNotConfigured => Remedy::FixInput,
        SyncErrorView::BranchNotSelected => Remedy::FixInput,
        SyncErrorView::BranchNotFound => Remedy::FixInput,
        SyncErrorView::SyncInProgress => Remedy::Retry,
        SyncErrorView::UnexpectedEvent => Remedy::ContactOperator,
        SyncErrorView::Outside { kind, .. } => match kind {
            FailureKind::MergeConflict => Remedy::Reinitialize,
            FailureKind::AuthenticationFailed => Remedy::FixInput,
            FailureKind::NetworkUnavailable => Remedy::Retry,
            FailureKind::Git => Remedy::Retry,
            FailureKind::Io => Remedy::ContactOperator,
            FailureKind::Storage => Remedy::ContactOperator,
        },
        SyncErrorView::OutOfStep { .. } => Remedy::Reinitialize,
    }
}

/// The sentence that tells the operator of `error`.
pub open spec fn error_text(error: SyncErrorView) -> Seq<char> {
    match error {
        SyncErrorView::Validation(e) => e.message_text(),
        SyncErrorView::RepositoryAlreadyExists => "A repository is already configured."@,
        SyncErrorView::RepositoryNotConfigured => "No repository is configured."@,
        SyncErrorView::BranchNotSelected => "No branch has been selected."@,
        SyncErrorView::BranchNotFound => "The remote has no such branch."@,
        SyncErrorView::SyncInProgress => "Sync already in progress."@,
        SyncErrorView::UnexpectedEvent => "Internal error: unexpected event."@,
        SyncErrorView::Outside { message, .. } => message,
        SyncErrorView::OutOfStep { message } => message,
    }
}

/// The error for a change that could not be stored (`error`) and could not
/// be undone either, the undoing having failed with `failure`.
pub open spec fn out_of_step_error(error: SyncErrorView, failure: FailureView) -> SyncErrorView {
    SyncErrorView::OutOfStep {
        message: error_text(error) + "; the working copy could not be put back: "@
            + failure.detail,
    }
}

/// Makes the error for a failure of `step`; `branch` is the branch that
/// was being switched to, and is left empty for the other steps.
pub fn outside(step: Step, branch: &str, failure: Failure) -> (e: SyncError)
    ensures
        e@ == outside_error(step, branch@, failure@),
{
    let mut message = match step {
        Step::CreateWorkingCopy => String::new(),
        Step::ListBranches => String::from_str("Failed getting branches: "),
        Step::Checkout => {
            let mut m = String::from_str("Failed switch branch to ");
            m.append(branch);
            m.append(" since ");
            m
        },
        Step::Pull => String::from_str("Failed pull: "),
        Step::Export => String::from_str("Failed to export posts: "),
        Step::Commit => String::from_str("Failed to push posts to git: "),
        Step::Push => String::from_str("Failed to push posts to git: "),
        Step::RemoveWorkingCopy => String::from_str("Failed remove repository: "),
        Step::Persist => String::new(),
    };
    assert(message@ == failure_prefix(step, branch@));
    message.append(failure.detail.as_str());
    SyncError::Outside { step, kind: failure.kind, message }
}

impl SyncError {
    /// What the operator should do about this error.
    pub fn remedy(&self) -> (r: Remedy)
        ensures
            r == remedy_for(self@),
    {
        match self {
            SyncError::Validation(_) => Remedy::FixInput,
            SyncError::RepositoryAlreadyExists => Remedy::FixInput,
            SyncError::RepositoryNotConfigured => Remedy::FixInput,
            SyncError::BranchNotSelected => Remedy::FixInput,
            SyncError::BranchNotFound => Remedy::FixInput,
            SyncError::SyncInProgress => Remedy::Retry,
            SyncError::UnexpectedEvent => Remedy::ContactOperator,
            SyncError::Outside { kind, .. } => match kind {
                FailureKind::MergeConflict => Remedy::Reinitialize,
                FailureKind::AuthenticationFailed => Remedy::FixInput,
                FailureKind::NetworkUnavailable => Remedy::Retry,
                FailureKind::Git => Remedy::Retry,
                FailureKind::Io => Remedy::ContactOperator,
                FailureKind::Storage => Remedy::ContactOperator,
            },
            SyncError::OutOfStep { .. } => Remedy::Reinitialize,
        }
    }

    /// The sentence that tells the operator of this error.
    pub fn message(&self) -> (r: String)
        ensures
            r@ == error_text(self@),
    {
        match self {
            SyncError::Validation(e) => e.message(),
            SyncError::RepositoryAlreadyExists => String::from_str(
                "A repository is already configured.",
            ),
            SyncError::RepositoryNotConfigured => String::from_str("No repository is configured."),
            SyncError::BranchNotSelected => String::from_str("No branch has been selected."),
            SyncError::BranchNotFound => String::from_str("The remote has no such branch."),
            SyncError::SyncInProgress => String::from_str("Sync already in progress."),
            SyncError::UnexpectedEvent => String::from_str("Internal error: unexpected event."),
            SyncError::Outside { message, .. } => message.clone(),
            SyncError::OutOfStep { message } => message.clone(),
        }
    }
}

/// Makes the error for a change that could not be stored (`error`) and
/// could not be undone either, the undoing having failed with `failure`.
pub fn out_of_step(error: &SyncError, failure: Failure) -> (e: SyncError)
    ensures
        e@ == out_of_step_error(error@, failure@),
{
    let mut message = error.message();
    message.append("; the working copy could not be put back: ");
    message.append(failure.detail.as_str());
    SyncError::OutOfStep { message }
}

} // verus!
