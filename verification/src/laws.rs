//! What holds of the repository's state machine over whole sequences of
//! events, and of the working copy that its actions change.

use crate::config::{fresh_view, valid_config, RepositoryConfigView};
use crate::error::{outside_error, FailureView, Step, SyncErrorView};
use crate::export::{due_posts, file_for, is_due, lemma_due_posts_are_exported, planned_files};
use crate::manager::{
    consistent, epoch_of, is_request, later, next, state_of, ActionView, EventView, ManagerView,
    RepoState, ReportView, StageView,
};
use crate::post::PostView;
use vstd::prelude::*;

verus! {

/// The machine after `events`, taken one after the other from `m`.
pub open spec fn run(m: ManagerView, events: Seq<EventView>) -> ManagerView
    decreases events.len(),
{
    if events.len() == 0 {
        m
    } else {
        next(run(m, events.drop_last()), events.last()).0
    }
}

/// `StageView::Persisting` is the only stage in which the stored record
/// changes, and a confirmed write the only event that changes it.
pub proof fn lemma_record_changes_only_when_stored(m: ManagerView, e: EventView)
    ensures
        next(m, e).0.record != m.record ==> m.stage is Persisting && (e matches EventView::Persisted(
            Ok(_),
        )),
        m.stage matches StageView::Persisting { candidate, .. } ==> ((e matches EventView::Persisted(
            Ok(_),
        )) ==> next(m, e).0.record == candidate),
{
}

/// While an operation is under way every request is refused with
/// `SyncInProgress`, and neither the record nor the operation is touched:
/// no second export can begin before the first has ended.
pub proof fn lemma_requests_wait_their_turn(m: ManagerView, e: EventView)
    requires
        is_request(e),
        !(m.stage is Idle),
    ensures
        next(m, e) == (m, ActionView::Report(ReportView::Failed(SyncErrorView::SyncInProgress))),
{
}

/// Whatever event arrives, a consistent machine stays consistent, as long
/// as a record that comes with a request to create a repository is valid:
/// the records it holds stay valid, pull, export, commit and push are
/// under way only with a branch checked out, and a working copy is made
/// only where there is no repository yet.
pub proof fn lemma_next_keeps_consistency(m: ManagerView, e: EventView)
    requires
        consistent(m),
        e matches EventView::Create(c) ==> valid_config(c),
    ensures
        consistent(next(m, e).0),
{
}

/// The working copy as far as the machine's actions change it: whether
/// there is one, and the branch that was last checked out in it (`None`
/// for one that was just made).
pub struct WorkingCopyView {
    pub exists: bool,
    pub branch: Option<Seq<char>>,
}

/// What the outcome `e` of the action that `m` awaits tells of the working
/// copy `w`. An action that succeeded did its work: a working copy was
/// made, a branch checked out, the working copy deleted. An action that
/// failed, and any other event, left the working copy as it was.
pub open spec fn working_copy_after(m: ManagerView, w: WorkingCopyView, e: EventView) -> WorkingCopyView {
    match (m.stage, e) {
        (StageView::Creating(_), EventView::WorkingCopyCreated(Ok(_))) => WorkingCopyView {
            exists: true,
            branch: None,
        },
        (StageView::Recreating { .. }, EventView::WorkingCopyCreated(Ok(_))) => WorkingCopyView {
            exists: true,
            branch: None,
        },
        (StageView::CheckingOut(b), EventView::CheckedOut(Ok(_))) => WorkingCopyView {
            exists: w.exists,
            branch: Some(b),
        },
        (StageView::Restoring { branch, .. }, EventView::CheckedOut(Ok(_))) => WorkingCopyView {
            exists: w.exists,
            branch: Some(branch),
        },
        (StageView::Removing, EventView::WorkingCopyRemoved(Ok(_))) => WorkingCopyView {
            exists: false,
            branch: None,
        },
        (StageView::Discarding { .. }, EventView::WorkingCopyRemoved(Ok(_))) => WorkingCopyView {
            exists: false,
            branch: None,
        },
        _ => w,
    }
}

/// Whether working copy and record go together: there is a working copy
/// if and only if there is a record, and where the record names a branch
/// the working copy is on it.
pub open spec fn in_keeping(record: Option<RepositoryConfigView>, w: WorkingCopyView) -> bool {
    match record {
        None => !w.exists,
        Some(c) => w.exists && match c.active_branch {
            Some(b) => w.branch == Some(b),
            None => true,
        },
    }
}

/// Whether the working copy is where the machine takes it to be. At rest,
/// and while nothing has been changed yet, it goes with the record. While a
/// change is being stored it goes with the record that is to be. While a
/// change is being undone it is on its way back.
pub open spec fn in_step(m: ManagerView, w: WorkingCopyView) -> bool {
    match m.stage {
        StageView::Persisting { candidate, report } => in_keeping(candidate, w) && match report {
            ReportView::Created => m.record is None,
            ReportView::BranchSelected => m.record is Some && candidate is Some,
            ReportView::Removed => m.record is Some,
            _ => in_keeping(m.record, w),
        },
        StageView::Discarding { .. } => true,
        StageView::Restoring { .. } => w.exists,
        StageView::Recreating { .. } => true,
        _ => in_keeping(m.record, w),
    }
}

/// At rest, a working copy that is in step goes with the record: one
/// exists if and only if the other does, and the branch on record is the
/// branch of the working copy.
pub proof fn lemma_in_step_at_rest(m: ManagerView, w: WorkingCopyView)
    requires
        m.stage is Idle,
        in_step(m, w),
    ensures
        w.exists <==> m.record is Some,
        m.record matches Some(c) ==> (c.active_branch is Some ==> w.branch == c.active_branch),
{
}

/// The working copy stays in step with the machine through every event,
/// on success and on failure, whether a change is stored or not. The one
/// way out is an undoing that fails itself: nothing more can be done
/// then, and the `OutOfStep` error that is reported says so.
pub proof fn lemma_next_keeps_in_step(m: ManagerView, w: WorkingCopyView, e: EventView)
    requires
        consistent(m),
        in_step(m, w),
        e matches EventView::Create(c) ==> valid_config(c),
    ensures
        in_step(next(m, e).0, working_copy_after(m, w, e)) || (next(m, e).1 matches ActionView::Report(
            ReportView::Failed(SyncErrorView::OutOfStep { .. }),
        )),
{
}

/// A change of branch that succeeds: the record is not touched until the
/// new one is stored, and then names the branch that was checked out.
pub proof fn lemma_branch_follows_checkout(m: ManagerView, branch: Seq<char>)
    requires
        m.record is Some,
        m.stage == StageView::CheckingOut(branch),
    ensures
        ({
            let storing = next(m, EventView::CheckedOut(Ok(())));
            let stored = next(storing.0, EventView::Persisted(Ok(())));
            &&& storing.0.record == m.record
            &&& stored.0.record matches Some(c) && c.active_branch == Some(branch)
            &&& stored.1 == ActionView::Report(ReportView::BranchSelected)
        }),
{
}

/// A change of branch that cannot be stored is undone. From a record on
/// one branch, a switch to another whose checkout succeeds and whose
/// storing fails is answered with a checkout of the branch on record; once
/// that has succeeded the machine is as it was before the request, the
/// working copy is on the branch on record again, and the failure to store
/// is reported.
pub proof fn lemma_failed_store_restores_branch(
    m: ManagerView,
    w: WorkingCopyView,
    on_record: Seq<char>,
    other: Seq<char>,
    names: Seq<Seq<char>>,
    failure: FailureView,
)
    requires
        consistent(m),
        m.stage is Idle,
        m.record matches Some(c) && c.active_branch == Some(on_record),
        in_step(m, w),
        names.contains(other),
    ensures
        ({
            let asked = next(m, EventView::SelectBranch(other));
            let found = next(asked.0, EventView::BranchesListed(Ok(names)));
            let switched = next(found.0, EventView::CheckedOut(Ok(())));
            let unstored = next(switched.0, EventView::Persisted(Err(failure)));
            let back = next(unstored.0, EventView::CheckedOut(Ok(())));
            let w1 = working_copy_after(found.0, w, EventView::CheckedOut(Ok(())));
            let w2 = working_copy_after(unstored.0, w1, EventView::CheckedOut(Ok(())));
            &&& found.1 == ActionView::Checkout(other)
            &&& w1.branch == Some(other)
            &&& unstored.0.record == m.record
            &&& unstored.1 == ActionView::Checkout(on_record)
            &&& back.0 == m
            &&& back.1 == ActionView::Report(
                ReportView::Failed(outside_error(Step::Persist, Seq::empty(), failure)),
            )
            &&& w2.branch == Some(on_record)
            &&& in_keeping(back.0.record, w2)
        }),
{
}

/// The record of a new repository that cannot be stored leaves no working
/// copy behind: the one that was made is deleted again before the failure
/// is reported.
pub proof fn lemma_failed_store_undoes_creation(first: RepositoryConfigView, failure: FailureView)
    ensures
        ({
            let absent = ManagerView { record: None, stage: StageView::Idle };
            let nothing = WorkingCopyView { exists: false, branch: None };
            let making = next(absent, EventView::Create(first));
            let made = next(making.0, EventView::WorkingCopyCreated(Ok(())));
            let unstored = next(made.0, EventView::Persisted(Err(failure)));
            let gone = next(unstored.0, EventView::WorkingCopyRemoved(Ok(())));
            let w1 = working_copy_after(making.0, nothing, EventView::WorkingCopyCreated(Ok(())));
            let w2 = working_copy_after(unstored.0, w1, EventView::WorkingCopyRemoved(Ok(())));
            &&& w1.exists
            &&& unstored.1 == ActionView::RemoveWorkingCopy(fresh_view(first))
            &&& gone.0 == absent
            &&& gone.1 == ActionView::Report(
                ReportView::Failed(outside_error(Step::Persist, Seq::empty(), failure)),
            )
            &&& !w2.exists
        }),
{
}

/// A removal that cannot be stored leaves the repository as it was: the
/// working copy that was deleted is made again and put on the branch on
/// record before the failure is reported.
pub proof fn lemma_failed_store_undoes_removal(
    m: ManagerView,
    w: WorkingCopyView,
    on_record: Seq<char>,
    failure: FailureView,
)
    requires
        consistent(m),
        m.stage is Idle,
        m.record matches Some(c) && c.active_branch == Some(on_record),
        in_step(m, w),
    ensures
        ({
            let removing = next(m, EventView::Remove);
            let removed = next(removing.0, EventView::WorkingCopyRemoved(Ok(())));
            let unstored = next(removed.0, EventView::Persisted(Err(failure)));
            let remade = next(unstored.0, EventView::WorkingCopyCreated(Ok(())));
            let back = next(remade.0, EventView::CheckedOut(Ok(())));
            let w1 = working_copy_after(removing.0, w, EventView::WorkingCopyRemoved(Ok(())));
            let w2 = working_copy_after(unstored.0, w1, EventView::WorkingCopyCreated(Ok(())));
            let w3 = working_copy_after(remade.0, w2, EventView::CheckedOut(Ok(())));
            &&& !w1.exists
            &&& unstored.1 == ActionView::CreateWorkingCopy(m.record->0)
            &&& remade.1 == ActionView::Checkout(on_record)
            &&& back.0 == m
            &&& back.1 == ActionView::Report(
                ReportView::Failed(outside_error(Step::Persist, Seq::empty(), failure)),
            )
            &&& in_keeping(back.0.record, w3)
        }),
{
}

/// Whether the machine holds a repository and is not about to give it up.
pub open spec fn keeps_repository(m: ManagerView) -> bool {
    &&& m.record is Some
    &&& !(m.stage is Removing)
    &&& m.stage matches StageView::Persisting { candidate, .. } ==> candidate is Some
}

/// As long as no removal is requested, a machine that holds a repository
/// goes on holding one.
pub proof fn lemma_repository_stays(m: ManagerView, events: Seq<EventView>)
    requires
        keeps_repository(m),
        forall|i: int| 0 <= i < events.len() ==> !(#[trigger] events[i] is Remove),
    ensures
        keeps_repository(run(m, events)),
    decreases events.len(),
{
    if events.len() > 0 {
        assert forall|i: int| 0 <= i < events.drop_last().len() implies !(
        #[trigger] events.drop_last()[i] is Remove) by {
            assert(events.drop_last()[i] == events[i]);
        }
        lemma_repository_stays(m, events.drop_last());
        assert(!(events[events.len() - 1] is Remove));
    }
}

/// There is one repository at most: once a machine holds one, and
/// whatever happens next short of a removal, a request to create another
/// is turned down, with `RepositoryAlreadyExists` when the machine is at
/// rest, and the stored record is not overwritten.
pub proof fn lemma_single_repository(
    m: ManagerView,
    events: Seq<EventView>,
    second: RepositoryConfigView,
)
    requires
        keeps_repository(m),
        forall|i: int| 0 <= i < events.len() ==> !(#[trigger] events[i] is Remove),
    ensures
        next(run(m, events), EventView::Create(second)).0 == run(m, events),
        run(m, events).record is Some,
        run(m, events).stage is Idle ==> next(run(m, events), EventView::Create(second)).1
            == ActionView::Report(ReportView::Failed(SyncErrorView::RepositoryAlreadyExists)),
        !(run(m, events).stage is Idle) ==> next(run(m, events), EventView::Create(second)).1
            == ActionView::Report(ReportView::Failed(SyncErrorView::SyncInProgress)),
{
    lemma_repository_stays(m, events);
}

/// Setting a repository up and then asking for a second one: the first
/// request ends with the record stored, the second with
/// `RepositoryAlreadyExists` and the first record still in place.
pub proof fn lemma_second_creation_is_refused(
    first: RepositoryConfigView,
    second: RepositoryConfigView,
)
    ensures
        ({
            let absent = ManagerView { record: None, stage: StageView::Idle };
            let made = next(absent, EventView::Create(first)).0;
            let stored = next(made, EventView::WorkingCopyCreated(Ok(()))).0;
            let settled = next(stored, EventView::Persisted(Ok(())));
            &&& settled.0 == ManagerView { record: Some(fresh_view(first)), stage: StageView::Idle }
            &&& settled.1 == ActionView::Report(ReportView::Created)
            &&& next(settled.0, EventView::Create(second)) == (
                settled.0,
                ActionView::Report(ReportView::Failed(SyncErrorView::RepositoryAlreadyExists)),
            )
        }),
{
}

/// The events of which pushes are made: the request and the outcomes of
/// its five actions.
pub open spec fn is_push_event(e: EventView) -> bool {
    e is Push || e is Pulled || e is Exported || e is Committed || e is Pushed || e is Persisted
}

/// Whether the machine holds a repository and is at rest or in the middle
/// of a push.
pub open spec fn between_pushes(m: ManagerView) -> bool {
    &&& m.record is Some
    &&& match m.stage {
        StageView::Idle => true,
        StageView::Pulling { .. } => true,
        StageView::Exporting { .. } => true,
        StageView::Committing { .. } => true,
        StageView::Pushing { .. } => true,
        StageView::Persisting { candidate, report } => candidate is Some && report is Synced
            && epoch_of(candidate) >= epoch_of(m.record),
        _ => false,
    }
}

/// Over any sequence of pushes the recorded export time never goes back,
/// whatever times the pushes are dated with.
pub proof fn lemma_epoch_never_decreases(m: ManagerView, events: Seq<EventView>)
    requires
        between_pushes(m),
        forall|i: int| 0 <= i < events.len() ==> is_push_event(#[trigger] events[i]),
    ensures
        between_pushes(run(m, events)),
        epoch_of(run(m, events).record) >= epoch_of(m.record),
    decreases events.len(),
{
    if events.len() > 0 {
        let earlier = events.drop_last();
        assert forall|i: int| 0 <= i < earlier.len() implies is_push_event(
            #[trigger] earlier[i],
        ) by {
            assert(earlier[i] == events[i]);
        }
        lemma_epoch_never_decreases(m, earlier);
        assert(is_push_event(events[events.len() - 1]));
    }
}

/// Whether one of `events` reports a push that succeeded.
pub open spec fn push_succeeded(events: Seq<EventView>) -> bool {
    exists|i: int| 0 <= i < events.len() && (#[trigger] events[i] matches EventView::Pushed(Ok(_)))
}

/// Whether the record, and any record waiting to be stored, still carry
/// the export time `epoch`.
pub open spec fn epoch_untouched(m: ManagerView, epoch: int) -> bool {
    &&& epoch_of(m.record) == epoch
    &&& m.stage matches StageView::Persisting { candidate, .. } ==> epoch_of(candidate) == epoch
}

/// Over any sequence of pushes from rest, the recorded export time moves
/// only if a push was seen to succeed.
pub proof fn lemma_epoch_moves_only_after_a_push(m: ManagerView, events: Seq<EventView>)
    requires
        m.record is Some,
        m.stage is Idle,
        forall|i: int| 0 <= i < events.len() ==> is_push_event(#[trigger] events[i]),
    ensures
        push_succeeded(events) || epoch_untouched(run(m, events), epoch_of(m.record)),
        between_pushes(run(m, events)),
    decreases events.len(),
{
    if events.len() > 0 {
        let earlier = events.drop_last();
        assert forall|i: int| 0 <= i < earlier.len() implies is_push_event(
            #[trigger] earlier[i],
        ) by {
            assert(earlier[i] == events[i]);
        }
        lemma_epoch_moves_only_after_a_push(m, earlier);
        let last = events.len() - 1;
        assert(is_push_event(events[last]));
        if push_succeeded(earlier) {
            let i = choose|i: int|
                0 <= i < earlier.len() && (#[trigger] earlier[i] matches EventView::Pushed(Ok(_)));
            assert(earlier[i] == events[i]);
        } else if events[last] matches EventView::Pushed(Ok(_)) {
        } else {
        }
    }
}

/// A push that fails, at whichever of its steps, leaves the machine as it
/// was before the push was asked for: at rest, with the same record and so
/// the same export time.
pub proof fn lemma_failed_push_changes_nothing(
    m: ManagerView,
    credential: Seq<char>,
    commit: Option<Seq<char>>,
    failure: FailureView,
)
    requires
        m.stage is Idle,
        state_of(m.record) == RepoState::BranchSelected,
    ensures
        ({
            let pulling = next(m, EventView::Push(credential)).0;
            let exporting = next(pulling, EventView::Pulled(Ok(()))).0;
            let committing = next(exporting, EventView::Exported(Ok(()))).0;
            let pushing = next(committing, EventView::Committed(Ok(commit))).0;
            &&& next(pulling, EventView::Pulled(Err(failure))).0 == m
            &&& next(exporting, EventView::Exported(Err(failure))).0 == m
            &&& next(committing, EventView::Committed(Err(failure))).0 == m
            &&& next(pushing, EventView::Pushed(Err(failure))).0 == m
            &&& next(pushing, EventView::Pushed(Err(failure))).1 is Report
        }),
{
}

/// A push that succeeds, step by step: pull, export from the recorded
/// time, commit (also when there is nothing to commit), push with the
/// credential it was given, store the record with the new time, report.
/// The new time is the time of the push, or the time on record where that
/// is the later one.
pub proof fn lemma_successful_push(
    m: ManagerView,
    credential: Seq<char>,
    commit: Option<Seq<char>>,
    at: int,
)
    requires
        m.stage is Idle,
        m.record is Some,
        state_of(m.record) == RepoState::BranchSelected,
    ensures
        ({
            let pulling = next(m, EventView::Push(credential));
            let exporting = next(pulling.0, EventView::Pulled(Ok(())));
            let committing = next(exporting.0, EventView::Exported(Ok(())));
            let pushing = next(committing.0, EventView::Committed(Ok(commit)));
            let storing = next(pushing.0, EventView::Pushed(Ok(at)));
            let done = next(storing.0, EventView::Persisted(Ok(())));
            let epoch = later(at, epoch_of(m.record));
            &&& pulling.1 == ActionView::Pull
            &&& exporting.1 == ActionView::Export { cutoff: epoch_of(m.record) }
            &&& committing.1 is CommitAll
            &&& pushing.1 == ActionView::Push { credential }
            &&& storing.0.record == m.record
            &&& storing.1 is Persist
            &&& done.0.stage is Idle
            &&& epoch_of(done.0.record) == epoch
            &&& at >= epoch_of(m.record) ==> epoch == at
            &&& done.1 == ActionView::Report(ReportView::Synced { commit, epoch })
        }),
{
}

/// After a push that failed at the remote, the next push exports from the
/// export time that was on record before the failure, and so writes every
/// post that was created or updated since then.
pub proof fn lemma_retry_covers_the_failed_push(
    m: ManagerView,
    credential: Seq<char>,
    commit: Option<Seq<char>>,
    failure: FailureView,
    retry_credential: Seq<char>,
    posts: Seq<PostView>,
    i: int,
)
    requires
        m.stage is Idle,
        state_of(m.record) == RepoState::BranchSelected,
        0 <= i < posts.len(),
        is_due(posts[i], epoch_of(m.record)),
    ensures
        ({
            let pulling = next(m, EventView::Push(credential)).0;
            let exporting = next(pulling, EventView::Pulled(Ok(()))).0;
            let committing = next(exporting, EventView::Exported(Ok(()))).0;
            let pushing = next(committing, EventView::Committed(Ok(commit))).0;
            let failed = next(pushing, EventView::Pushed(Err(failure))).0;
            let retried = next(failed, EventView::Push(retry_credential)).0;
            let cutoff = epoch_of(m.record);
            &&& epoch_of(failed.record) == cutoff
            &&& next(retried, EventView::Pulled(Ok(()))).1 == ActionView::Export { cutoff }
            &&& planned_files(due_posts(posts, cutoff)).contains(file_for(posts[i]))
        }),
{
    lemma_due_posts_are_exported(posts, epoch_of(m.record), i);
}

} // verus!
