//! The life of the one repository, as a state machine.
//!
//! The machine holds the stored configuration record and the operation that
//! is under way. It never does outside work itself: `step` takes an event (a
//! request from the operator, or the outcome of outside work) and answers
//! with the next thing to do. Whoever drives the machine performs that
//! action and hands the outcome back as the next event.
//!
//! The record changes only when a new one has been stored. A change to the
//! working copy that was made for a record that then cannot be stored is
//! undone before the failure is reported: a working copy that was made is
//! deleted, one that was deleted is made again, one that was switched to
//! another branch is switched back. So the working copy and the record go
//! together whenever the machine is at rest, unless the undoing fails too,
//! which is reported as `SyncError::OutOfStep`.
//!
//! The recorded time of the last export never goes back: a push that
//! succeeded moves it to the time of the push, or leaves it where that
//! time is the earlier one.

use crate::config::{
    fresh_view, valid_config, with_branch_view, with_epoch_view, RepositoryConfig,
    RepositoryConfigView,
};
use crate::error::{
    out_of_step, out_of_step_error, outside, outside_error, Failure, FailureView, Step, SyncError,
    SyncErrorView,
};
use crate::text::{decimal, decimal_string};
use vstd::prelude::*;
use vstd::string::*;

verus! {

/// Where the repository stands.
#[derive(Clone, Copy, Debug, PartialEq, Eq, Structural)]
pub enum RepoState {
    /// No repository is configured.
    Absent,
    /// A repository is configured; no branch has been chosen.
    Initialized,
    /// A repository is configured and a branch is checked out.
    BranchSelected,
}

/// The state that a stored record stands for.
pub open spec fn state_of(record: Option<RepositoryConfigView>) -> RepoState {
    match record {
        None => RepoState::Absent,
        Some(c) => if c.active_branch is Some {
            RepoState::BranchSelected
        } else {
            RepoState::Initialized
        },
    }
}

/// The name of a commit.
#[derive(Debug, PartialEq, Eq)]
pub struct CommitId {
    pub id: String,
}

impl View for CommitId {
    type V = Seq<char>;

    open spec fn view(&self) -> Seq<char> {
        self.id@
    }
}

/// How an operation ended.
#[derive(Debug, PartialEq, Eq)]
pub enum Report {
    /// The repository was set up and its record stored.
    Created,
    /// The branches that the remote has.
    Branches(Vec<String>),
    /// The branch was checked out and recorded.
    BranchSelected,
    /// Posts were exported and pushed; `commit` is `None` when there was
    /// nothing to commit, and `epoch` is the recorded time of this export.
    Synced { commit: Option<CommitId>, epoch: i64 },
    /// The working copy and the record are gone.
    Removed,
    /// The operation failed and the stored record is as it was.
    Failed(SyncError),
}

/// A `Report` as plain values.
pub enum ReportView {
    Created,
    Branches(Seq<Seq<char>>),
    BranchSelected,
    Synced { commit: Option<Seq<char>>, epoch: int },
    Removed,
    Failed(SyncErrorView),
}

/// The text of an optional commit name.
pub open spec fn optional_commit(c: Option<CommitId>) -> Option<Seq<char>> {
    match c {
        Some(id) => Some(id@),
        None => None,
    }
}

/// The view of an optional record.
pub open spec fn optional_config(c: Option<RepositoryConfig>) -> Option<RepositoryConfigView> {
    match c {
        Some(config) => Some(config@),
        None => None,
    }
}

impl View for Report {
    type V = ReportView;

    open spec fn view(&self) -> ReportView {
        match self {
            Report::Created => ReportView::Created,
            Report::Branches(names) => ReportView::Branches(names.deep_view()),
            Report::BranchSelected => ReportView::BranchSelected,
            Report::Synced { commit, epoch } => ReportView::Synced {
                commit: optional_commit(*commit),
                epoch: *epoch as int,
            },
            Report::Removed => ReportView::Removed,
            Report::Failed(e) => ReportView::Failed(e@),
        }
    }
}

/// What the driver of the machine is to do next.
#[derive(Debug, PartialEq, Eq)]
pub enum Action {
    /// Clone the remote, or initialise an empty working copy for it.
    CreateWorkingCopy(RepositoryConfig),
    /// Ask the remote for its branches.
    QueryBranches,
    /// Check the branch out, creating a local tracking branch if needed.
    Checkout(String),
    /// Fetch and fast-forward the active branch.
    Pull,
    /// Write the posts created or updated at or after `cutoff` into the
    /// working copy.
    Export { cutoff: i64 },
    /// Stage every change and commit it under `message`.
    CommitAll { message: String },
    /// Push the active branch, presenting `credential`.
    Push { credential: String },
    /// Delete the working copy of this record; one that is partly gone is
    /// no failure.
    RemoveWorkingCopy(RepositoryConfig),
    /// Store this record (`None`: delete the stored record).
    Persist(Option<RepositoryConfig>),
    /// Nothing more to do: tell the caller how the operation ended.
    Report(Report),
}

/// An `Action` as plain values.
pub enum ActionView {
    CreateWorkingCopy(RepositoryConfigView),
    QueryBranches,
    Checkout(Seq<char>),
    Pull,
    Export { cutoff: int },
    CommitAll { message: Seq<char> },
    Push { credential: Seq<char> },
    RemoveWorkingCopy(RepositoryConfigView),
    Persist(Option<RepositoryConfigView>),
    Report(ReportView),
}

impl View for Action {
    type V = ActionView;

    open spec fn view(&self) -> ActionView {
        match self {
            Action::CreateWorkingCopy(c) => ActionView::CreateWorkingCopy(c@),
            Action::QueryBranches => ActionView::QueryBranches,
            Action::Checkout(b) => ActionView::Checkout(b@),
            Action::Pull => ActionView::Pull,
            Action::Export { cutoff } => ActionView::Export { cutoff: *cutoff as int },
            Action::CommitAll { message } => ActionView::CommitAll { message: message@ },
            Action::Push { credential } => ActionView::Push { credential: credential@ },
            Action::RemoveWorkingCopy(c) => ActionView::RemoveWorkingCopy(c@),
            Action::Persist(c) => ActionView::Persist(optional_config(*c)),
            Action::Report(r) => ActionView::Report(r@),
        }
    }
}

/// What the machine is told: the first five are requests, the others the
/// outcomes of actions.
#[derive(Debug, PartialEq, Eq)]
pub enum Event {
    /// Set up a repository with this record.
    Create(RepositoryConfig),
    /// List the remote's branches.
    ListBranches,
    /// Publish this branch from now on.
    SelectBranch(String),
    /// Export what is new and push it, presenting this credential once.
    Push(String),
    /// Forget the repository.
    Remove,
    /// Outcome of `Action::CreateWorkingCopy`.
    WorkingCopyCreated(Result<(), Failure>),
    /// Outcome of `Action::QueryBranches`.
    BranchesListed(Result<Vec<String>, Failure>),
    /// Outcome of `Action::Checkout`.
    CheckedOut(Result<(), Failure>),
    /// Outcome of `Action::Pull`.
    Pulled(Result<(), Failure>),
    /// Outcome of `Action::Export`.
    Exported(Result<(), Failure>),
    /// Outcome of `Action::CommitAll`; `Ok(None)`: nothing to commit.
    Committed(Result<Option<CommitId>, Failure>),
    /// Outcome of `Action::Push`; `Ok` holds the time at which the push
    /// was seen to succeed, in seconds.
    Pushed(Result<i64, Failure>),
    /// Outcome of `Action::RemoveWorkingCopy`.
    WorkingCopyRemoved(Result<(), Failure>),
    /// Outcome of `Action::Persist`.
    Persisted(Result<(), Failure>),
}

/// An `Event` as plain values.
pub enum EventView {
    Create(RepositoryConfigView),
    ListBranches,
    SelectBranch(Seq<char>),
    Push(Seq<char>),
    Remove,
    WorkingCopyCreated(Result<(), FailureView>),
    BranchesListed(Result<Seq<Seq<char>>, FailureView>),
    CheckedOut(Result<(), FailureView>),
    Pulled(Result<(), FailureView>),
    Exported(Result<(), FailureView>),
    Committed(Result<Option<Seq<char>>, FailureView>),
    Pushed(Result<int, FailureView>),
    WorkingCopyRemoved(Result<(), FailureView>),
    Persisted(Result<(), FailureView>),
}

/// The view of an outcome without a value.
pub open spec fn plain_outcome(r: Result<(), Failure>) -> Result<(), FailureView> {
    match r {
        Ok(_) => Ok(()),
        Err(f) => Err(f@),
    }
}

impl View for Event {
    type V = EventView;

    open spec fn view(&self) -> EventView {
        match self {
            Event::Create(c) => EventView::Create(c@),
            Event::ListBranches => EventView::ListBranches,
            Event::SelectBranch(b) => EventView::SelectBranch(b@),
            Event::Push(c) => EventView::Push(c@),
            Event::Remove => EventView::Remove,
            Event::WorkingCopyCreated(r) => EventView::WorkingCopyCreated(plain_outcome(*r)),
            Event::BranchesListed(r) => EventView::BranchesListed(
                match r {
                    Ok(names) => Ok(names.deep_view()),
                    Err(f) => Err(f@),
                },
            ),
            Event::CheckedOut(r) => EventView::CheckedOut(plain_outcome(*r)),
            Event::Pulled(r) => EventView::Pulled(plain_outcome(*r)),
            Event::Exported(r) => EventView::Exported(plain_outcome(*r)),
            Event::Committed(r) => EventView::Committed(
                match r {
                    Ok(c) => Ok(optional_commit(*c)),
                    Err(f) => Err(f@),
                },
            ),
            Event::Pushed(r) => EventView::Pushed(
                match r {
                    Ok(at) => Ok(*at as int),
                    Err(f) => Err(f@),
                },
            ),
            Event::WorkingCopyRemoved(r) => EventView::WorkingCopyRemoved(plain_outcome(*r)),
            Event::Persisted(r) => EventView::Persisted(plain_outcome(*r)),
        }
    }
}

/// The operation under way, named by the outcome that is awaited.
#[derive(Debug, PartialEq, Eq)]
pub enum Stage {
    /// Nothing is under way.
    Idle,
    /// A working copy is being made for this record.
    Creating(RepositoryConfig),
    /// The branches are being listed for the caller.
    Listing,
    /// The branches are being listed to see whether this one is there.
    Resolving(String),
    /// This branch is being checked out.
    CheckingOut(String),
    /// A push has begun: the remote state is being pulled.
    Pulling { credential: String },
    /// Posts are being written into the working copy.
    Exporting { credential: String },
    /// The changes are being committed.
    Committing { credential: String },
    /// The branch is being pushed.
    Pushing { commit: Option<CommitId> },
    /// The working copy is being deleted.
    Removing,
    /// `candidate` is being stored; once that succeeds it is the record,
    /// and `report` goes to the caller.
    Persisting { candidate: Option<RepositoryConfig>, report: Report },
    /// The record of a new repository could not be stored: the working
    /// copy that was made for it is being deleted again. `error` is
    /// reported after that.
    Discarding { error: SyncError },
    /// A change could not be stored: the working copy is being put back on
    /// `branch`, the branch on record. `error` is reported after that.
    Restoring { branch: String, error: SyncError },
    /// The removal of the record could not be stored: the working copy
    /// that was deleted is being made again. `error` is reported after
    /// that, and after the branch on record has been checked out.
    Recreating { error: SyncError },
}

/// A `Stage` as plain values.
pub enum StageView {
    Idle,
    Creating(RepositoryConfigView),
    Listing,
    Resolving(Seq<char>),
    CheckingOut(Seq<char>),
    Pulling { credential: Seq<char> },
    Exporting { credential: Seq<char> },
    Committing { credential: Seq<char> },
    Pushing { commit: Option<Seq<char>> },
    Removing,
    Persisting { candidate: Option<RepositoryConfigView>, report: ReportView },
    Discarding { error: SyncErrorView },
    Restoring { branch: Seq<char>, error: SyncErrorView },
    Recreating { error: SyncErrorView },
}

impl View for Stage {
    type V = StageView;

    open spec fn view(&self) -> StageView {
        match self {
            Stage::Idle => StageView::Idle,
            Stage::Creating(c) => StageView::Creating(c@),
            Stage::Listing => StageView::Listing,
            Stage::Resolving(b) => StageView::Resolving(b@),
            Stage::CheckingOut(b) => StageView::CheckingOut(b@),
            Stage::Pulling { credential } => StageView::Pulling { credential: credential@ },
            Stage::Exporting { credential } => StageView::Exporting { credential: credential@ },
            Stage::Committing { credential } => StageView::Committing { credential: credential@ },
            Stage::Pushing { commit } => StageView::Pushing { commit: optional_commit(*commit) },
            Stage::Removing => StageView::Removing,
            Stage::Persisting { candidate, report } => StageView::Persisting {
                candidate: optional_config(*candidate),
                report: report@,
            },
            Stage::Discarding { error } => StageView::Discarding { error: error@ },
            Stage::Restoring { branch, error } => StageView::Restoring {
                branch: branch@,
                error: error@,
            },
            Stage::Recreating { error } => StageView::Recreating { error: error@ },
        }
    }
}

/// The machine as plain values: the stored record and the operation under
/// way.
pub struct ManagerView {
    pub record: Option<RepositoryConfigView>,
    pub stage: StageView,
}

/// Whether `e` is a request (as opposed to the outcome of an action).
pub open spec fn is_request(e: EventView) -> bool {
    e is Create || e is ListBranches || e is SelectBranch || e is Push || e is Remove
}

/// The message under which an export is committed.
pub open spec fn commit_message(cutoff: int) -> Seq<char> {
    "Export posts updated since "@ + decimal(cutoff)
}

/// The machine at rest with the same record, and the report of `error`.
pub open spec fn abandoned(m: ManagerView, error: SyncErrorView) -> (ManagerView, ActionView) {
    (
        ManagerView { record: m.record, stage: StageView::Idle },
        ActionView::Report(ReportView::Failed(error)),
    )
}

/// The machine as it was, and the report of `error`.
pub open spec fn refused(m: ManagerView, error: SyncErrorView) -> (ManagerView, ActionView) {
    (m, ActionView::Report(ReportView::Failed(error)))
}

/// The machine awaiting `stage` with the same record, and `action`.
pub open spec fn proceed(m: ManagerView, stage: StageView, action: ActionView) -> (
    ManagerView,
    ActionView,
) {
    (ManagerView { record: m.record, stage }, action)
}

/// The machine storing `candidate`, to report `report` once that is done.
pub open spec fn persist(
    m: ManagerView,
    candidate: Option<RepositoryConfigView>,
    report: ReportView,
) -> (ManagerView, ActionView) {
    proceed(m, StageView::Persisting { candidate, report }, ActionView::Persist(candidate))
}

/// What a request does to a machine at rest.
pub open spec fn on_request(m: ManagerView, e: EventView) -> (ManagerView, ActionView) {
    match e {
        EventView::Create(c) => match m.record {
            Some(_) => refused(m, SyncErrorView::RepositoryAlreadyExists),
            None => proceed(
                m,
                StageView::Creating(fresh_view(c)),
                ActionView::CreateWorkingCopy(fresh_view(c)),
            ),
        },
        EventView::ListBranches => match m.record {
            None => refused(m, SyncErrorView::RepositoryNotConfigured),
            Some(_) => proceed(m, StageView::Listing, ActionView::QueryBranches),
        },
        EventView::SelectBranch(b) => match m.record {
            None => refused(m, SyncErrorView::RepositoryNotConfigured),
            Some(_) => proceed(m, StageView::Resolving(b), ActionView::QueryBranches),
        },
        EventView::Push(credential) => match m.record {
            None => refused(m, SyncErrorView::RepositoryNotConfigured),
            Some(c) => if c.active_branch is None {
                refused(m, SyncErrorView::BranchNotSelected)
            } else {
                proceed(m, StageView::Pulling { credential }, ActionView::Pull)
            },
        },
        EventView::Remove => match m.record {
            None => refused(m, SyncErrorView::RepositoryNotConfigured),
            Some(c) => proceed(m, StageView::Removing, ActionView::RemoveWorkingCopy(c)),
        },
        _ => refused(m, SyncErrorView::UnexpectedEvent),
    }
}

/// The record with `branch` as its published branch.
pub open spec fn record_with_branch(
    record: Option<RepositoryConfigView>,
    branch: Seq<char>,
) -> Option<RepositoryConfigView> {
    match record {
        Some(c) => Some(with_branch_view(c, branch)),
        None => None,
    }
}

/// The record with `epoch` as the time of its last export.
pub open spec fn record_with_epoch(
    record: Option<RepositoryConfigView>,
    epoch: int,
) -> Option<RepositoryConfigView> {
    match record {
        Some(c) => Some(with_epoch_view(c, epoch)),
        None => None,
    }
}

/// The time of the record's last export; 0 where there is no record.
pub open spec fn epoch_of(record: Option<RepositoryConfigView>) -> int {
    match record {
        Some(c) => c.last_export_epoch,
        None => 0,
    }
}

/// The later of two times.
pub open spec fn later(a: int, b: int) -> int {
    if a >= b {
        a
    } else {
        b
    }
}

/// The machine putting the working copy back on the branch on record, to
/// report `error` after that; where the record names no branch, the
/// machine at rest and the report of `error`.
pub open spec fn restored(m: ManagerView, error: SyncErrorView) -> (ManagerView, ActionView) {
    match m.record {
        Some(c) => match c.active_branch {
            Some(branch) => proceed(
                m,
                StageView::Restoring { branch, error },
                ActionView::Checkout(branch),
            ),
            None => abandoned(m, error),
        },
        None => abandoned(m, error),
    }
}

/// What is done about a change that could not be stored. The record stays
/// as it was, so what the change did to the working copy is undone: a
/// working copy made for a new repository is deleted, one that was put on
/// another branch is put back on the branch on record, one that was
/// deleted is made again. `report` tells which change it was, and `error`
/// is what the caller is told in the end.
pub open spec fn unstored(
    m: ManagerView,
    candidate: Option<RepositoryConfigView>,
    report: ReportView,
    error: SyncErrorView,
) -> (ManagerView, ActionView) {
    match report {
        ReportView::Created => match (m.record, candidate) {
            (None, Some(c)) => proceed(
                m,
                StageView::Discarding { error },
                ActionView::RemoveWorkingCopy(c),
            ),
            _ => abandoned(m, error),
        },
        ReportView::BranchSelected => restored(m, error),
        ReportView::Removed => match m.record {
            Some(c) => proceed(m, StageView::Recreating { error }, ActionView::CreateWorkingCopy(c)),
            None => abandoned(m, error),
        },
        _ => abandoned(m, error),
    }
}

/// What the outcome of an action does to the machine that awaits it. An
/// outcome that is not the awaited one is refused and changes nothing.
pub open spec fn on_outcome(m: ManagerView, e: EventView) -> (ManagerView, ActionView) {
    match (m.stage, e) {
        (StageView::Creating(c), EventView::WorkingCopyCreated(r)) => match r {
            Ok(_) => persist(m, Some(c), ReportView::Created),
            Err(f) => abandoned(m, outside_error(Step::CreateWorkingCopy, Seq::empty(), f)),
        },
        (StageView::Listing, EventView::BranchesListed(r)) => match r {
            Ok(names) => proceed(
                m,
                StageView::Idle,
                ActionView::Report(ReportView::Branches(names)),
            ),
            Err(f) => abandoned(m, outside_error(Step::ListBranches, Seq::empty(), f)),
        },
        (StageView::Resolving(b), EventView::BranchesListed(r)) => match r {
            Ok(names) => if names.contains(b) {
                proceed(m, StageView::CheckingOut(b), ActionView::Checkout(b))
            } else {
                abandoned(m, SyncErrorView::BranchNotFound)
            },
            Err(f) => abandoned(m, outside_error(Step::ListBranches, Seq::empty(), f)),
        },
        (StageView::CheckingOut(b), EventView::CheckedOut(r)) => match r {
            Ok(_) => persist(m, record_with_branch(m.record, b), ReportView::BranchSelected),
            Err(f) => abandoned(m, outside_error(Step::Checkout, b, f)),
        },
        (StageView::Pulling { credential }, EventView::Pulled(r)) => match r {
            Ok(_) => proceed(
                m,
                StageView::Exporting { credential },
                ActionView::Export { cutoff: epoch_of(m.record) },
            ),
            Err(f) => abandoned(m, outside_error(Step::Pull, Seq::empty(), f)),
        },
        (StageView::Exporting { credential }, EventView::Exported(r)) => match r {
            Ok(_) => proceed(
                m,
                StageView::Committing { credential },
                ActionView::CommitAll { message: commit_message(epoch_of(m.record)) },
            ),
            Err(f) => abandoned(m, outside_error(Step::Export, Seq::empty(), f)),
        },
        (StageView::Committing { credential }, EventView::Committed(r)) => match r {
            Ok(commit) => proceed(
                m,
                StageView::Pushing { commit },
                ActionView::Push { credential },
            ),
            Err(f) => abandoned(m, outside_error(Step::Commit, Seq::empty(), f)),
        },
        (StageView::Pushing { commit }, EventView::Pushed(r)) => match r {
            Ok(at) => persist(
                m,
                record_with_epoch(m.record, later(at, epoch_of(m.record))),
                ReportView::Synced { commit, epoch: later(at, epoch_of(m.record)) },
            ),
            Err(f) => abandoned(m, outside_error(Step::Push, Seq::empty(), f)),
        },
        (StageView::Removing, EventView::WorkingCopyRemoved(r)) => match r {
            Ok(_) => persist(m, None, ReportView::Removed),
            Err(f) => abandoned(m, outside_error(Step::RemoveWorkingCopy, Seq::empty(), f)),
        },
        (StageView::Persisting { candidate, report }, EventView::Persisted(r)) => match r {
            Ok(_) => (
                ManagerView { record: candidate, stage: StageView::Idle },
                ActionView::Report(report),
            ),
            Err(f) => unstored(
                m,
                candidate,
                report,
                outside_error(Step::Persist, Seq::empty(), f),
            ),
        },
        (StageView::Discarding { error }, EventView::WorkingCopyRemoved(r)) => match r {
            Ok(_) => abandoned(m, error),
            Err(f) => abandoned(m, out_of_step_error(error, f)),
        },
        (StageView::Restoring { branch, error }, EventView::CheckedOut(r)) => match r {
            Ok(_) => abandoned(m, error),
            Err(f) => abandoned(m, out_of_step_error(error, f)),
        },
        (StageView::Recreating { error }, EventView::WorkingCopyCreated(r)) => match r {
            Ok(_) => restored(m, error),
            Err(f) => abandoned(m, out_of_step_error(error, f)),
        },
        _ => refused(m, SyncErrorView::UnexpectedEvent),
    }
}

/// The machine's one rule: what `e` makes of `m`, and what is to be done
/// next. A request is taken up only at rest; while an operation is under
/// way it is refused and changes nothing.
pub open spec fn next(m: ManagerView, e: EventView) -> (ManagerView, ActionView) {
    if is_request(e) {
        if m.stage is Idle {
            on_request(m, e)
        } else {
            refused(m, SyncErrorView::SyncInProgress)
        }
    } else {
        on_outcome(m, e)
    }
}

/// What holds of every machine: the records it holds are valid, and the
/// operation under way fits the stored record.
pub open spec fn consistent(m: ManagerView) -> bool {
    &&& m.record matches Some(c) ==> valid_config(c)
    &&& match m.stage {
        StageView::Idle => true,
        StageView::Creating(c) => m.record is None && valid_config(c) && c.active_branch is None,
        StageView::Listing => m.record is Some,
        StageView::Resolving(_) => m.record is Some,
        StageView::CheckingOut(_) => m.record is Some,
        StageView::Pulling { .. } => state_of(m.record) == RepoState::BranchSelected,
        StageView::Exporting { .. } => state_of(m.record) == RepoState::BranchSelected,
        StageView::Committing { .. } => state_of(m.record) == RepoState::BranchSelected,
        StageView::Pushing { .. } => state_of(m.record) == RepoState::BranchSelected,
        StageView::Removing => m.record is Some,
        StageView::Persisting { candidate, report } => {
            &&& candidate matches Some(c) ==> valid_config(c)
            &&& !(report is Failed)
        },
        StageView::Discarding { .. } => m.record is None,
        StageView::Restoring { branch, .. } => m.record matches Some(c) && c.active_branch == Some(
            branch,
        ),
        StageView::Recreating { .. } => m.record is Some,
    }
}

/// Tells whether the remote's branches include `branch`.
pub fn has_branch(names: &Vec<String>, branch: &String) -> (b: bool)
    ensures
        b == names.deep_view().contains(branch@),
{
    let mut i: usize = 0;
    while i < names.len()
        invariant
            i <= names.len(),
            forall|k: int| 0 <= k < i ==> names.deep_view()[k] != branch@,
        decreases names.len() - i,
    {
        if names[i] == *branch {
            assert(names.deep_view()[i as int] == branch@);
            return true;
        }
        i = i + 1;
    }
    false
}

/// Writes the message under which an export from `cutoff` is committed.
pub fn make_commit_message(cutoff: i64) -> (message: String)
    ensures
        message@ == commit_message(cutoff as int),
{
    let mut message = String::from_str("Export posts updated since ");
    let number = decimal_string(cutoff);
    message.append(number.as_str());
    message
}

fn duplicate_record(record: &Option<RepositoryConfig>) -> (r: Option<RepositoryConfig>)
    ensures
        optional_config(r) == optional_config(*record),
{
    match record {
        Some(c) => Some(c.duplicate()),
        None => None,
    }
}

/// The repository's state machine: the stored record and the operation
/// under way.
#[derive(Debug, PartialEq, Eq)]
pub struct Manager {
    record: Option<RepositoryConfig>,
    stage: Stage,
}

impl View for Manager {
    type V = ManagerView;

    closed spec fn view(&self) -> ManagerView {
        ManagerView { record: optional_config(self.record), stage: self.stage@ }
    }
}

impl Manager {
    #[verifier::type_invariant]
    spec fn well_formed(&self) -> bool {
        consistent(self@)
    }

    /// A machine at rest that holds `record`, the stored record as it was
    /// read (`None`: no repository is configured).
    pub fn new(record: Option<RepositoryConfig>) -> (m: Manager)
        ensures
            m@.record == optional_config(record),
            m@.stage is Idle,
            consistent(m@),
    {
        proof {
            match &record {
                Some(c) => {
                    use_type_invariant(c);
                },
                None => {},
            }
        }
        Manager { record, stage: Stage::Idle }
    }

    /// The stored record.
    pub fn record(&self) -> (r: &Option<RepositoryConfig>)
        ensures
            optional_config(*r) == self@.record,
            consistent(self@),
    {
        proof {
            use_type_invariant(self);
        }
        &self.record
    }

    /// The operation under way.
    pub fn stage(&self) -> (r: &Stage)
        ensures
            r@ == self@.stage,
    {
        &self.stage
    }

    /// Where the repository stands.
    pub fn state(&self) -> (s: RepoState)
        ensures
            s == state_of(self@.record),
    {
        match &self.record {
            None => RepoState::Absent,
            Some(c) => match c.active_branch() {
                Some(_) => RepoState::BranchSelected,
                None => RepoState::Initialized,
            },
        }
    }

    /// Tells whether no operation is under way.
    pub fn is_idle(&self) -> (b: bool)
        ensures
            b == (self@.stage is Idle),
    {
        match &self.stage {
            Stage::Idle => true,
            _ => false,
        }
    }

    /// Takes `event` and answers with the machine that results and the
    /// next thing to do, as `next` lays down.
    pub fn step(self, event: Event) -> (r: (Manager, Action))
        ensures
            (r.0@, r.1@) == next(self@, event@),
            consistent(r.0@),
    {
        proof {
            use_type_invariant(&self);
        }
        let idle = self.is_idle();
        let Manager { record, stage } = self;
        match event {
            Event::Create(c) => {
                proof {
                    use_type_invariant(&c);
                }
                if !idle {
                    refuse(record, stage, SyncError::SyncInProgress)
                } else if record.is_some() {
                    refuse(record, stage, SyncError::RepositoryAlreadyExists)
                } else {
                    let fresh = c.fresh();
                    let action = Action::CreateWorkingCopy(fresh.duplicate());
                    (Manager { record, stage: Stage::Creating(fresh) }, action)
                }
            },
            Event::ListBranches => {
                if !idle {
                    refuse(record, stage, SyncError::SyncInProgress)
                } else if record.is_none() {
                    refuse(record, stage, SyncError::RepositoryNotConfigured)
                } else {
                    (Manager { record, stage: Stage::Listing }, Action::QueryBranches)
                }
            },
            Event::SelectBranch(branch) => {
                if !idle {
                    refuse(record, stage, SyncError::SyncInProgress)
                } else if record.is_none() {
                    refuse(record, stage, SyncError::RepositoryNotConfigured)
                } else {
                    (Manager { record, stage: Stage::Resolving(branch) }, Action::QueryBranches)
                }
            },
            Event::Push(credential) => {
                if !idle {
                    return refuse(record, stage, SyncError::SyncInProgress);
                }
                let selected = match &record {
                    None => {
                        return refuse(record, stage, SyncError::RepositoryNotConfigured);
                    },
                    Some(c) => c.active_branch().is_some(),
                };
                if !selected {
                    refuse(record, stage, SyncError::BranchNotSelected)
                } else {
                    (Manager { record, stage: Stage::Pulling { credential } }, Action::Pull)
                }
            },
            Event::Remove => {
                if !idle {
                    refuse(record, stage, SyncError::SyncInProgress)
                } else {
                    match duplicate_record(&record) {
                        None => refuse(record, stage, SyncError::RepositoryNotConfigured),
                        Some(c) => (
                            Manager { record, stage: Stage::Removing },
                            Action::RemoveWorkingCopy(c),
                        ),
                    }
                }
            },
            outcome => settle(record, stage, outcome),
        }
    }
}

fn refuse(record: Option<RepositoryConfig>, stage: Stage, error: SyncError) -> (r: (
    Manager,
    Action,
))
    requires
        consistent(ManagerView { record: optional_config(record), stage: stage@ }),
    ensures
        (r.0@, r.1@) == refused(
            ManagerView { record: optional_config(record), stage: stage@ },
            error@,
        ),
        consistent(r.0@),
{
    (Manager { record, stage }, Action::Report(Report::Failed(error)))
}

fn abandon(record: Option<RepositoryConfig>, error: SyncError) -> (r: (Manager, Action))
    requires
        record matches Some(c) ==> valid_config(c@),
    ensures
        r.0@ == (ManagerView { record: optional_config(record), stage: StageView::Idle }),
        r.1@ == ActionView::Report(ReportView::Failed(error@)),
        consistent(r.0@),
{
    (Manager { record, stage: Stage::Idle }, Action::Report(Report::Failed(error)))
}

fn store(record: Option<RepositoryConfig>, candidate: Option<RepositoryConfig>, report: Report) -> (r:
    (Manager, Action))
    requires
        record matches Some(c) ==> valid_config(c@),
        candidate matches Some(c) ==> valid_config(c@),
        !(report is Failed),
    ensures
        r.0@ == (ManagerView {
            record: optional_config(record),
            stage: StageView::Persisting { candidate: optional_config(candidate), report: report@ },
        }),
        r.1@ == ActionView::Persist(optional_config(candidate)),
        consistent(r.0@),
{
    let action = Action::Persist(duplicate_record(&candidate));
    (Manager { record, stage: Stage::Persisting { candidate, report } }, action)
}

fn restore(record: Option<RepositoryConfig>, error: SyncError) -> (r: (Manager, Action))
    requires
        record matches Some(c) ==> valid_config(c@),
    ensures
        (r.0@, r.1@) == restored(
            ManagerView { record: optional_config(record), stage: StageView::Idle },
            error@,
        ),
        consistent(r.0@),
{
    let on_record = match &record {
        Some(c) => match c.active_branch() {
            Some(b) => Some(b.clone()),
            None => None,
        },
        None => None,
    };
    match on_record {
        Some(branch) => {
            let action = Action::Checkout(branch.clone());
            (Manager { record, stage: Stage::Restoring { branch, error } }, action)
        },
        None => abandon(record, error),
    }
}

fn undo(
    record: Option<RepositoryConfig>,
    candidate: Option<RepositoryConfig>,
    report: Report,
    error: SyncError,
) -> (r: (Manager, Action))
    requires
        record matches Some(c) ==> valid_config(c@),
    ensures
        (r.0@, r.1@) == unstored(
            ManagerView { record: optional_config(record), stage: StageView::Idle },
            optional_config(candidate),
            report@,
            error@,
        ),
        consistent(r.0@),
{
    match report {
        Report::Created => match candidate {
            Some(c) => {
                if record.is_none() {
                    (
                        Manager { record, stage: Stage::Discarding { error } },
                        Action::RemoveWorkingCopy(c),
                    )
                } else {
                    abandon(record, error)
                }
            },
            None => abandon(record, error),
        },
        Report::BranchSelected => restore(record, error),
        Report::Removed => {
            let again = duplicate_record(&record);
            match again {
                Some(c) => (
                    Manager { record, stage: Stage::Recreating { error } },
                    Action::CreateWorkingCopy(c),
                ),
                None => abandon(record, error),
            }
        },
        _ => abandon(record, error),
    }
}

fn settle(record: Option<RepositoryConfig>, stage: Stage, event: Event) -> (r: (Manager, Action))
    requires
        consistent(ManagerView { record: optional_config(record), stage: stage@ }),
        !is_request(event@),
    ensures
        (r.0@, r.1@) == on_outcome(
            ManagerView { record: optional_config(record), stage: stage@ },
            event@,
        ),
        consistent(r.0@),
{
    match (stage, event) {
        (Stage::Creating(c), Event::WorkingCopyCreated(r)) => match r {
            Ok(_) => store(record, Some(c), Report::Created),
            Err(f) => abandon(record, outside(Step::CreateWorkingCopy, "", f)),
        },
        (Stage::Listing, Event::BranchesListed(r)) => match r {
            Ok(names) => (
                Manager { record, stage: Stage::Idle },
                Action::Report(Report::Branches(names)),
            ),
            Err(f) => abandon(record, outside(Step::ListBranches, "", f)),
        },
        (Stage::Resolving(branch), Event::BranchesListed(r)) => match r {
            Ok(names) => {
                if has_branch(&names, &branch) {
                    let action = Action::Checkout(branch.clone());
                    (Manager { record, stage: Stage::CheckingOut(branch) }, action)
                } else {
                    abandon(record, SyncError::BranchNotFound)
                }
            },
            Err(f) => abandon(record, outside(Step::ListBranches, "", f)),
        },
        (Stage::CheckingOut(branch), Event::CheckedOut(r)) => match r {
            Ok(_) => {
                let candidate = match &record {
                    Some(c) => Some(c.duplicate().with_branch(branch)),
                    None => None,
                };
                store(record, candidate, Report::BranchSelected)
            },
            Err(f) => abandon(record, outside(Step::Checkout, branch.as_str(), f)),
        },
        (Stage::Pulling { credential }, Event::Pulled(r)) => match r {
            Ok(_) => {
                let cutoff = last_export(&record);
                (Manager { record, stage: Stage::Exporting { credential } }, Action::Export { cutoff })
            },
            Err(f) => abandon(record, outside(Step::Pull, "", f)),
        },
        (Stage::Exporting { credential }, Event::Exported(r)) => match r {
            Ok(_) => {
                let message = make_commit_message(last_export(&record));
                (
                    Manager { record, stage: Stage::Committing { credential } },
                    Action::CommitAll { message },
                )
            },
            Err(f) => abandon(record, outside(Step::Export, "", f)),
        },
        (Stage::Committing { credential }, Event::Committed(r)) => match r {
            Ok(commit) => (
                Manager { record, stage: Stage::Pushing { commit } },
                Action::Push { credential },
            ),
            Err(f) => abandon(record, outside(Step::Commit, "", f)),
        },
        (Stage::Pushing { commit }, Event::Pushed(r)) => match r {
            Ok(at) => {
                let on_record = last_export(&record);
                let epoch = if at >= on_record {
                    at
                } else {
                    on_record
                };
                let candidate = match &record {
                    Some(c) => Some(c.duplicate().with_epoch(epoch)),
                    None => None,
                };
                store(record, candidate, Report::Synced { commit, epoch })
            },
            Err(f) => abandon(record, outside(Step::Push, "", f)),
        },
        (Stage::Removing, Event::WorkingCopyRemoved(r)) => match r {
            Ok(_) => store(record, None, Report::Removed),
            Err(f) => abandon(record, outside(Step::RemoveWorkingCopy, "", f)),
        },
        (Stage::Persisting { candidate, report }, Event::Persisted(r)) => match r {
            Ok(_) => (Manager { record: candidate, stage: Stage::Idle }, Action::Report(report)),
            Err(f) => undo(record, candidate, report, outside(Step::Persist, "", f)),
        },
        (Stage::Discarding { error }, Event::WorkingCopyRemoved(r)) => match r {
            Ok(_) => abandon(record, error),
            Err(f) => abandon(record, out_of_step(&error, f)),
        },
        (Stage::Restoring { branch, error }, Event::CheckedOut(r)) => match r {
            Ok(_) => abandon(record, error),
            Err(f) => abandon(record, out_of_step(&error, f)),
        },
        (Stage::Recreating { error }, Event::WorkingCopyCreated(r)) => match r {
            Ok(_) => restore(record, error),
            Err(f) => abandon(record, out_of_step(&error, f)),
        },
        (stage, _) => refuse(record, stage, SyncError::UnexpectedEvent),
    }
}

fn last_export(record: &Option<RepositoryConfig>) -> (epoch: i64)
    ensures
        epoch == epoch_of(optional_config(*record)),
{
    match record {
        Some(c) => c.last_export_epoch(),
        None => 0,
    }
}

} // verus!
