//! The order of the steps of `tsk done` on an issue with a branch: stash,
//! make sure a pull request exists, merge it, clean up the branches, record
//! the issue, commit, sync and regenerate the views; after a failure, go
//! back to the original branch and give the stash back. Each step is done
//! by the caller, which reports what came of it.

use crate::done::is_branch_not_found_error;
use crate::error::RiptskError;
use crate::text::{contains, unicode_lowercase};
use vstd::prelude::*;

verus! {

/// Where `tsk done` stands.
#[derive(Debug, Clone, Copy, PartialEq, Eq, Structural)]
pub enum DoneStage {
    /// Waiting to hear whether the working tree has changes.
    Prepare,
    Stashing,
    EnsuringPr,
    Merging,
    CheckingIssue,
    FetchingDefault,
    SwitchingToDefault,
    Pulling,
    DeletingRemote,
    CheckingLocal,
    DeletingLocal,
    Recording,
    Committing,
    Syncing,
    Regenerating,
    /// After a failure: going back to the branch the command started on.
    Restoring,
    Unstashing,
    Finished,
}

/// The state of `tsk done`.
#[derive(Debug, Clone, PartialEq, Eq)]
pub struct DoneFlow {
    pub stage: DoneStage,
    /// Uncommitted changes were stashed and are to be given back.
    pub stashed: bool,
    /// The remote issue was found closed after the merge.
    pub closed_remotely: bool,
    /// The failure that ends the command, once one happened.
    pub failure: Option<RiptskError>,
}

/// What came of the step last asked for.
#[derive(Debug, Clone, PartialEq, Eq)]
pub enum DoneEvent {
    /// The working tree has uncommitted changes (`true`) or not.
    TreeChecked(bool),
    /// The stash was made: whether anything was stashed.
    Stashed(bool),
    /// The pull request to merge (found, or created and found).
    PrNumber(u64),
    /// The merge finished; `true` when the user declined it.
    Merged(bool),
    /// Whether the remote issue is closed (`false` when it has no remote
    /// number or could not be fetched).
    IssueClosed(bool),
    /// The repository's default branch.
    DefaultBranch(String),
    /// Whether the issue branch exists locally.
    LocalBranchExists(bool),
    /// The step succeeded.
    Completed,
    /// The step failed.
    Failed(RiptskError),
}

/// The next step for the caller.
#[derive(Debug, Clone, PartialEq, Eq)]
pub enum DoneAction {
    CheckWorkingTree,
    /// Stash the uncommitted changes (message: `auto_stash_message`).
    Stash,
    /// Find the pull request for the issue, creating it if there is none.
    EnsurePr,
    Merge(u64),
    FetchIssueStatus,
    FetchDefaultBranch,
    Checkout(String),
    Pull,
    DeleteRemoteBranch,
    CheckLocalBranch,
    /// Delete the local issue branch; a failure is only a warning.
    DeleteLocalBranch,
    /// Save the issue without its branch: from the closed remote record
    /// (`true`) or marked done locally (`false`).
    RecordIssue(bool),
    AutoCommit,
    Sync,
    RegenerateViews,
    /// Check out the original branch if it is not the current one
    /// (`branch_to_restore`); a failure is only a warning.
    RestoreOriginalBranch,
    /// Give the stash back; a failure is only a warning.
    PopStash,
    /// The command ends, with the failure the state holds, if any.
    Finish,
}

/// Whether `event` answers the step asked for at `stage`; a failure answers
/// any step.
pub open spec fn event_fits(stage: DoneStage, event: DoneEvent) -> bool {
    match event {
        DoneEvent::Failed(_) => stage != DoneStage::Finished,
        DoneEvent::TreeChecked(_) => stage == DoneStage::Prepare,
        DoneEvent::Stashed(_) => stage == DoneStage::Stashing,
        DoneEvent::PrNumber(_) => stage == DoneStage::EnsuringPr,
        DoneEvent::Merged(_) => stage == DoneStage::Merging,
        DoneEvent::IssueClosed(_) => stage == DoneStage::CheckingIssue,
        DoneEvent::DefaultBranch(_) => stage == DoneStage::FetchingDefault,
        DoneEvent::LocalBranchExists(_) => stage == DoneStage::CheckingLocal,
        DoneEvent::Completed => {
            ||| stage == DoneStage::SwitchingToDefault
            ||| stage == DoneStage::Pulling
            ||| stage == DoneStage::DeletingRemote
            ||| stage == DoneStage::DeletingLocal
            ||| stage == DoneStage::Recording
            ||| stage == DoneStage::Committing
            ||| stage == DoneStage::Syncing
            ||| stage == DoneStage::Regenerating
            ||| stage == DoneStage::Restoring
            ||| stage == DoneStage::Unstashing
        },
    }
}

/// A deletion error that means the remote branch is already gone.
pub open spec fn branch_gone(e: RiptskError) -> bool {
    contains(unicode_lowercase(e.message()), "404"@) || contains(
        unicode_lowercase(e.message()),
        "not found"@,
    )
}

/// The flow moved to `stage`.
pub open spec fn at(f: DoneFlow, stage: DoneStage) -> DoneFlow {
    DoneFlow { stage, ..f }
}

/// The end of the command: the stash is given back first when there is one.
pub open spec fn wind_up(f: DoneFlow) -> (DoneFlow, DoneAction) {
    if f.stashed {
        (at(f, DoneStage::Unstashing), DoneAction::PopStash)
    } else {
        (at(f, DoneStage::Finished), DoneAction::Finish)
    }
}

/// A failure inside the workflow: it is kept, and the original branch is
/// restored.
pub open spec fn fail(f: DoneFlow, e: RiptskError) -> (DoneFlow, DoneAction) {
    (DoneFlow { stage: DoneStage::Restoring, failure: Some(e), ..f }, DoneAction::RestoreOriginalBranch)
}

/// One step of `tsk done`: the state after `event` and the next action.
/// Before the stash is made, a failure ends the command at once. Once it
/// is made, a failure goes through restoring the original branch and giving
/// the stash back; a declined merge ends the command without cleanup; a
/// remote branch that is already gone, a local branch that cannot be
/// deleted and an issue whose status cannot be fetched do not stop it.
pub open spec fn done_next(f: DoneFlow, event: DoneEvent) -> (DoneFlow, DoneAction) {
    match f.stage {
        DoneStage::Prepare => match event {
            DoneEvent::TreeChecked(true) => (at(f, DoneStage::Stashing), DoneAction::Stash),
            DoneEvent::Failed(e) => (
                DoneFlow { stage: DoneStage::Finished, failure: Some(e), ..f },
                DoneAction::Finish,
            ),
            _ => (at(f, DoneStage::EnsuringPr), DoneAction::EnsurePr),
        },
        DoneStage::Stashing => match event {
            DoneEvent::Stashed(s) => (
                DoneFlow { stage: DoneStage::EnsuringPr, stashed: s, ..f },
                DoneAction::EnsurePr,
            ),
            DoneEvent::Failed(e) => (
                DoneFlow { stage: DoneStage::Finished, failure: Some(e), ..f },
                DoneAction::Finish,
            ),
            _ => (f, DoneAction::Stash),
        },
        DoneStage::EnsuringPr => match event {
            DoneEvent::PrNumber(n) => (at(f, DoneStage::Merging), DoneAction::Merge(n)),
            DoneEvent::Failed(e) => fail(f, e),
            _ => (f, DoneAction::EnsurePr),
        },
        DoneStage::Merging => match event {
            DoneEvent::Merged(true) => wind_up(f),
            DoneEvent::Failed(e) => fail(f, e),
            _ => (at(f, DoneStage::CheckingIssue), DoneAction::FetchIssueStatus),
        },
        DoneStage::CheckingIssue => match event {
            DoneEvent::IssueClosed(c) => (
                DoneFlow { stage: DoneStage::FetchingDefault, closed_remotely: c, ..f },
                DoneAction::FetchDefaultBranch,
            ),
            _ => (
                DoneFlow { stage: DoneStage::FetchingDefault, closed_remotely: false, ..f },
                DoneAction::FetchDefaultBranch,
            ),
        },
        DoneStage::FetchingDefault => match event {
            DoneEvent::DefaultBranch(d) => (
                at(f, DoneStage::SwitchingToDefault),
                DoneAction::Checkout(d),
            ),
            DoneEvent::Failed(e) => fail(f, e),
            _ => (f, DoneAction::FetchDefaultBranch),
        },
        DoneStage::SwitchingToDefault => match event {
            DoneEvent::Failed(e) => fail(f, e),
            _ => (at(f, DoneStage::Pulling), DoneAction::Pull),
        },
        DoneStage::Pulling => match event {
            DoneEvent::Failed(e) => fail(f, e),
            _ => (at(f, DoneStage::DeletingRemote), DoneAction::DeleteRemoteBranch),
        },
        DoneStage::DeletingRemote => match event {
            DoneEvent::Failed(e) => if branch_gone(e) {
                (at(f, DoneStage::CheckingLocal), DoneAction::CheckLocalBranch)
            } else {
                fail(f, e)
            },
            _ => (at(f, DoneStage::CheckingLocal), DoneAction::CheckLocalBranch),
        },
        DoneStage::CheckingLocal => match event {
            DoneEvent::LocalBranchExists(true) => (
                at(f, DoneStage::DeletingLocal),
                DoneAction::DeleteLocalBranch,
            ),
            DoneEvent::Failed(e) => fail(f, e),
            _ => (at(f, DoneStage::Recording), DoneAction::RecordIssue(f.closed_remotely)),
        },
        DoneStage::DeletingLocal => (
            at(f, DoneStage::Recording),
            DoneAction::RecordIssue(f.closed_remotely),
        ),
        DoneStage::Recording => match event {
            DoneEvent::Failed(e) => fail(f, e),
            _ => (at(f, DoneStage::Committing), DoneAction::AutoCommit),
        },
        DoneStage::Committing => match event {
            DoneEvent::Failed(e) => fail(f, e),
            _ => (at(f, DoneStage::Syncing), DoneAction::Sync),
        },
        DoneStage::Syncing => match event {
            DoneEvent::Failed(e) => fail(f, e),
            _ => (at(f, DoneStage::Regenerating), DoneAction::RegenerateViews),
        },
        DoneStage::Regenerating => match event {
            DoneEvent::Failed(e) => fail(f, e),
            _ => wind_up(f),
        },
        DoneStage::Restoring => wind_up(f),
        DoneStage::Unstashing => (at(f, DoneStage::Finished), DoneAction::Finish),
        DoneStage::Finished => (f, DoneAction::Finish),
    }
}

/// The first state and action of `tsk done` on an issue with a branch.
pub fn done_start() -> (r: (DoneFlow, DoneAction))
    ensures
        r.0 == (DoneFlow {
            stage: DoneStage::Prepare,
            stashed: false,
            closed_remotely: false,
            failure: None,
        }),
        r.1 == DoneAction::CheckWorkingTree,
{
    (
        DoneFlow {
            stage: DoneStage::Prepare,
            stashed: false,
            closed_remotely: false,
            failure: None,
        },
        DoneAction::CheckWorkingTree,
    )
}

/// Whether `event` answers the step asked for at `stage`.
pub fn done_event_fits(stage: DoneStage, event: &DoneEvent) -> (r: bool)
    ensures
        r == event_fits(stage, *event),
{
    match event {
        DoneEvent::Failed(_) => !matches!(stage, DoneStage::Finished),
        DoneEvent::TreeChecked(_) => matches!(stage, DoneStage::Prepare),
        DoneEvent::Stashed(_) => matches!(stage, DoneStage::Stashing),
        DoneEvent::PrNumber(_) => matches!(stage, DoneStage::EnsuringPr),
        DoneEvent::Merged(_) => matches!(stage, DoneStage::Merging),
        DoneEvent::IssueClosed(_) => matches!(stage, DoneStage::CheckingIssue),
        DoneEvent::DefaultBranch(_) => matches!(stage, DoneStage::FetchingDefault),
        DoneEvent::LocalBranchExists(_) => matches!(stage, DoneStage::CheckingLocal),
        DoneEvent::Completed => matches!(
            stage,
            DoneStage::SwitchingToDefault | DoneStage::Pulling | DoneStage::DeletingRemote
                | DoneStage::DeletingLocal | DoneStage::Recording | DoneStage::Committing
                | DoneStage::Syncing | DoneStage::Regenerating | DoneStage::Restoring
                | DoneStage::Unstashing
        ),
    }
}

/// The end of the command.
fn wind_up_exec(f: DoneFlow) -> (r: (DoneFlow, DoneAction))
    ensures
        r == wind_up(f),
{
    if f.stashed {
        (DoneFlow { stage: DoneStage::Unstashing, ..f }, DoneAction::PopStash)
    } else {
        (DoneFlow { stage: DoneStage::Finished, ..f }, DoneAction::Finish)
    }
}

/// One step of `tsk done`: from the state and what came of the last step,
/// the next state and the next step.
pub fn done_step(flow: DoneFlow, event: DoneEvent) -> (r: (DoneFlow, DoneAction))
    requires
        event_fits(flow.stage, event),
    ensures
        r == done_next(flow, event),
{
    let f = flow;
    match f.stage {
        DoneStage::Prepare => match event {
            DoneEvent::TreeChecked(true) => (DoneFlow { stage: DoneStage::Stashing, ..f }, DoneAction::Stash),
            DoneEvent::Failed(e) => {
                (DoneFlow { stage: DoneStage::Finished, failure: Some(e), ..f }, DoneAction::Finish)
            },
            _ => (DoneFlow { stage: DoneStage::EnsuringPr, ..f }, DoneAction::EnsurePr),
        },
        DoneStage::Stashing => match event {
            DoneEvent::Stashed(s) => (
                DoneFlow { stage: DoneStage::EnsuringPr, stashed: s, ..f },
                DoneAction::EnsurePr,
            ),
            DoneEvent::Failed(e) => {
                (DoneFlow { stage: DoneStage::Finished, failure: Some(e), ..f }, DoneAction::Finish)
            },
            _ => (f, DoneAction::Stash),
        },
        DoneStage::EnsuringPr => match event {
            DoneEvent::PrNumber(n) => (DoneFlow { stage: DoneStage::Merging, ..f }, DoneAction::Merge(n)),
            DoneEvent::Failed(e) => fail_exec(f, e),
            _ => (f, DoneAction::EnsurePr),
        },
        DoneStage::Merging => match event {
            DoneEvent::Merged(true) => wind_up_exec(f),
            DoneEvent::Failed(e) => fail_exec(f, e),
            _ => (DoneFlow { stage: DoneStage::CheckingIssue, ..f }, DoneAction::FetchIssueStatus),
        },
        DoneStage::CheckingIssue => {
            let c = match event {
                DoneEvent::IssueClosed(c) => c,
                _ => false,
            };
            (
                DoneFlow { stage: DoneStage::FetchingDefault, closed_remotely: c, ..f },
                DoneAction::FetchDefaultBranch,
            )
        },
        DoneStage::FetchingDefault => match event {
            DoneEvent::DefaultBranch(d) => (
                DoneFlow { stage: DoneStage::SwitchingToDefault, ..f },
                DoneAction::Checkout(d),
            ),
            DoneEvent::Failed(e) => fail_exec(f, e),
            _ => (f, DoneAction::FetchDefaultBranch),
        },
        DoneStage::SwitchingToDefault => match event {
            DoneEvent::Failed(e) => fail_exec(f, e),
            _ => (DoneFlow { stage: DoneStage::Pulling, ..f }, DoneAction::Pull),
        },
        DoneStage::Pulling => match event {
            DoneEvent::Failed(e) => fail_exec(f, e),
            _ => (DoneFlow { stage: DoneStage::DeletingRemote, ..f }, DoneAction::DeleteRemoteBranch),
        },
        DoneStage::DeletingRemote => match event {
            DoneEvent::Failed(e) => if is_branch_not_found_error(&e) {
                (DoneFlow { stage: DoneStage::CheckingLocal, ..f }, DoneAction::CheckLocalBranch)
            } else {
                fail_exec(f, e)
            },
            _ => (DoneFlow { stage: DoneStage::CheckingLocal, ..f }, DoneAction::CheckLocalBranch),
        },
        DoneStage::CheckingLocal => match event {
            DoneEvent::LocalBranchExists(true) => (
                DoneFlow { stage: DoneStage::DeletingLocal, ..f },
                DoneAction::DeleteLocalBranch,
            ),
            DoneEvent::Failed(e) => fail_exec(f, e),
            _ => {
                let closed = f.closed_remotely;
                (DoneFlow { stage: DoneStage::Recording, ..f }, DoneAction::RecordIssue(closed))
            },
        },
        DoneStage::DeletingLocal => {
            let closed = f.closed_remotely;
            (DoneFlow { stage: DoneStage::Recording, ..f }, DoneAction::RecordIssue(closed))
        },
        DoneStage::Recording => match event {
            DoneEvent::Failed(e) => fail_exec(f, e),
            _ => (DoneFlow { stage: DoneStage::Committing, ..f }, DoneAction::AutoCommit),
        },
        DoneStage::Committing => match event {
            DoneEvent::Failed(e) => fail_exec(f, e),
            _ => (DoneFlow { stage: DoneStage::Syncing, ..f }, DoneAction::Sync),
        },
        DoneStage::Syncing => match event {
            DoneEvent::Failed(e) => fail_exec(f, e),
            _ => (DoneFlow { stage: DoneStage::Regenerating, ..f }, DoneAction::RegenerateViews),
        },
        DoneStage::Regenerating => match event {
            DoneEvent::Failed(e) => fail_exec(f, e),
            _ => wind_up_exec(f),
        },
        DoneStage::Restoring => wind_up_exec(f),
        DoneStage::Unstashing => {
            (DoneFlow { stage: DoneStage::Finished, ..f }, DoneAction::Finish)
        },
        DoneStage::Finished => {
            (f, DoneAction::Finish)
        },
    }
}

/// A failure inside the workflow.
fn fail_exec(f: DoneFlow, e: RiptskError) -> (r: (DoneFlow, DoneAction))
    ensures
        r == fail(f, e),
{
    (DoneFlow { stage: DoneStage::Restoring, failure: Some(e), ..f }, DoneAction::RestoreOriginalBranch)
}

/// The stages between making the stash and giving it back.
pub open spec fn in_workflow(stage: DoneStage) -> bool {
    ||| stage == DoneStage::EnsuringPr
    ||| stage == DoneStage::Merging
    ||| stage == DoneStage::FetchingDefault
    ||| stage == DoneStage::SwitchingToDefault
    ||| stage == DoneStage::Pulling
    ||| stage == DoneStage::DeletingRemote
    ||| stage == DoneStage::CheckingLocal
    ||| stage == DoneStage::Recording
    ||| stage == DoneStage::Committing
    ||| stage == DoneStage::Syncing
    ||| stage == DoneStage::Regenerating
}

/// A failure once the stash is made ends the command with that failure,
/// after going back to the original branch and then giving the stash back
/// (when one was made), whatever came of those two steps. A failure to
/// delete the remote branch because it is already gone is no failure.
pub proof fn lemma_failure_restores_then_unstashes(
    f: DoneFlow,
    e: RiptskError,
    restored: DoneEvent,
    popped: DoneEvent,
)
    requires
        in_workflow(f.stage),
        f.stage == DoneStage::DeletingRemote ==> !branch_gone(e),
        event_fits(DoneStage::Restoring, restored),
        event_fits(DoneStage::Unstashing, popped),
    ensures
        ({
            let (f1, a1) = done_next(f, DoneEvent::Failed(e));
            let (f2, a2) = done_next(f1, restored);
            let (f3, a3) = done_next(f2, popped);
            &&& a1 == DoneAction::RestoreOriginalBranch
            &&& f1.failure == Some(e)
            &&& (f.stashed ==> a2 == DoneAction::PopStash && a3 == DoneAction::Finish
                && f3.stage == DoneStage::Finished && f3.failure == Some(e))
            &&& (!f.stashed ==> a2 == DoneAction::Finish && f2.stage == DoneStage::Finished
                && f2.failure == Some(e))
        }),
{
}

/// A merge the user declines ends the command without failure and without
/// any cleanup: the stash, if any, is given back and nothing else is done.
pub proof fn lemma_declined_merge_ends_cleanly(f: DoneFlow, popped: DoneEvent)
    requires
        f.stage == DoneStage::Merging,
        f.failure is None,
        event_fits(DoneStage::Unstashing, popped),
    ensures
        ({
            let (f1, a1) = done_next(f, DoneEvent::Merged(true));
            &&& (f.stashed ==> a1 == DoneAction::PopStash && done_next(f1, popped).1
                == DoneAction::Finish && done_next(f1, popped).0.failure is None)
            &&& (!f.stashed ==> a1 == DoneAction::Finish && f1.failure is None)
        }),
{
}

/// A remote branch that is already gone does not stop the command: the
/// local cleanup comes next and no failure is kept.
pub proof fn lemma_missing_remote_branch_continues(f: DoneFlow, e: RiptskError)
    requires
        f.stage == DoneStage::DeletingRemote,
        branch_gone(e),
    ensures
        done_next(f, DoneEvent::Failed(e)).1 == DoneAction::CheckLocalBranch,
        done_next(f, DoneEvent::Failed(e)).0.failure == f.failure,
{
}

/// A failure before anything is stashed ends the command at once, with
/// nothing to restore or give back.
pub proof fn lemma_early_failure_ends_at_once(f: DoneFlow, e: RiptskError)
    requires
        f.stage == DoneStage::Prepare || f.stage == DoneStage::Stashing,
    ensures
        done_next(f, DoneEvent::Failed(e)).1 == DoneAction::Finish,
        done_next(f, DoneEvent::Failed(e)).0.stage == DoneStage::Finished,
        done_next(f, DoneEvent::Failed(e)).0.failure == Some(e),
{
}


/// The issue is recorded from the remote issue exactly when the status
/// step reported it closed: what `IssueClosed(c)` reports after the merge
/// is what the record step carries, through fetching the default branch,
/// switching to it, pulling, deleting the remote branch (done, or already
/// gone) and the local cleanup (with or without a local branch to delete,
/// whatever came of deleting it). An open remote issue is marked done
/// locally.
pub proof fn lemma_record_follows_remote_status(
    f: DoneFlow,
    c: bool,
    default_branch: String,
    deleted: DoneEvent,
    local_exists: bool,
    local_deleted: DoneEvent,
)
    requires
        f.stage == DoneStage::CheckingIssue,
        event_fits(DoneStage::DeletingRemote, deleted),
        deleted matches DoneEvent::Failed(e) ==> branch_gone(e),
        event_fits(DoneStage::DeletingLocal, local_deleted),
    ensures
        ({
            let (f1, _a1) = done_next(f, DoneEvent::IssueClosed(c));
            let (f2, _a2) = done_next(f1, DoneEvent::DefaultBranch(default_branch));
            let (f3, _a3) = done_next(f2, DoneEvent::Completed);
            let (f4, _a4) = done_next(f3, DoneEvent::Completed);
            let (f5, a5) = done_next(f4, deleted);
            let (f6, a6) = done_next(f5, DoneEvent::LocalBranchExists(local_exists));
            let (_f7, a7) = done_next(f6, local_deleted);
            &&& f1.closed_remotely == c
            &&& a5 == DoneAction::CheckLocalBranch
            &&& (!local_exists ==> a6 == DoneAction::RecordIssue(c))
            &&& (local_exists ==> a6 == DoneAction::DeleteLocalBranch && a7
                == DoneAction::RecordIssue(c))
        }),
{
}

/// When the issue status cannot be had (no remote number, or fetching it
/// failed) the issue is taken as not closed, and is marked done locally.
pub proof fn lemma_unknown_remote_status_is_open(f: DoneFlow, e: RiptskError)
    requires
        f.stage == DoneStage::CheckingIssue,
    ensures
        !done_next(f, DoneEvent::Failed(e)).0.closed_remotely,
        !done_next(f, DoneEvent::IssueClosed(false)).0.closed_remotely,
{
}


/// A failed deletion of the remote branch is taken as the branch being
/// already gone exactly when the error's message, lowercased, mentions
/// `404` or `not found`; only then does the command carry on.
pub proof fn lemma_gone_branch_words(f: DoneFlow, e: RiptskError)
    requires
        f.stage == DoneStage::DeletingRemote,
    ensures
        (done_next(f, DoneEvent::Failed(e)).1 == DoneAction::CheckLocalBranch) <==> (contains(
            unicode_lowercase(e.message()),
            "404"@,
        ) || contains(unicode_lowercase(e.message()), "not found"@)),
{
}

} // verus!
