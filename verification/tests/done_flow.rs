use riptsk::done_flow::{done_event_fits, done_start, done_step, DoneAction, DoneEvent, DoneFlow, DoneStage};
use riptsk::error::RiptskError;

fn run(events: Vec<DoneEvent>) -> (DoneFlow, Vec<DoneAction>) {
    let (mut flow, first) = done_start();
    let mut actions = vec![first];
    for event in events {
        assert!(done_event_fits(flow.stage, &event), "{event:?} does not fit {:?}", flow.stage);
        let (next, action) = done_step(flow, event);
        flow = next;
        actions.push(action);
    }
    (flow, actions)
}

#[test]
fn done_flow_happy_path_with_stash() {
    let (flow, actions) = run(vec![
        DoneEvent::TreeChecked(true),
        DoneEvent::Stashed(true),
        DoneEvent::PrNumber(7),
        DoneEvent::Merged(false),
        DoneEvent::IssueClosed(true),
        DoneEvent::DefaultBranch("main".to_string()),
        DoneEvent::Completed,
        DoneEvent::Completed,
        DoneEvent::Completed,
        DoneEvent::LocalBranchExists(true),
        DoneEvent::Completed,
        DoneEvent::Completed,
        DoneEvent::Completed,
        DoneEvent::Completed,
        DoneEvent::Completed,
        DoneEvent::Completed,
    ]);
    assert_eq!(
        actions,
        vec![
            DoneAction::CheckWorkingTree,
            DoneAction::Stash,
            DoneAction::EnsurePr,
            DoneAction::Merge(7),
            DoneAction::FetchIssueStatus,
            DoneAction::FetchDefaultBranch,
            DoneAction::Checkout("main".to_string()),
            DoneAction::Pull,
            DoneAction::DeleteRemoteBranch,
            DoneAction::CheckLocalBranch,
            DoneAction::DeleteLocalBranch,
            DoneAction::RecordIssue(true),
            DoneAction::AutoCommit,
            DoneAction::Sync,
            DoneAction::RegenerateViews,
            DoneAction::PopStash,
            DoneAction::Finish,
        ]
    );
    assert_eq!(flow.stage, DoneStage::Finished);
    assert_eq!(flow.failure, None);
}

#[test]
fn done_flow_failure_restores_then_pops() {
    let err = RiptskError::Unreachable("HTTP 500".to_string());
    let (flow, actions) = run(vec![
        DoneEvent::TreeChecked(true),
        DoneEvent::Stashed(true),
        DoneEvent::PrNumber(3),
        DoneEvent::Failed(err.clone()),
        DoneEvent::Completed,
        DoneEvent::Completed,
    ]);
    assert_eq!(
        actions[4..].to_vec(),
        vec![DoneAction::RestoreOriginalBranch, DoneAction::PopStash, DoneAction::Finish]
    );
    assert_eq!(flow.failure, Some(err));
}

#[test]
fn done_flow_declined_merge_skips_cleanup() {
    let (flow, actions) = run(vec![
        DoneEvent::TreeChecked(false),
        DoneEvent::PrNumber(3),
        DoneEvent::Merged(true),
    ]);
    assert_eq!(
        actions,
        vec![DoneAction::CheckWorkingTree, DoneAction::EnsurePr, DoneAction::Merge(3), DoneAction::Finish]
    );
    assert_eq!(flow.failure, None);
}

#[test]
fn done_flow_missing_remote_branch_and_unfetched_issue() {
    let (flow, actions) = run(vec![
        DoneEvent::TreeChecked(false),
        DoneEvent::PrNumber(1),
        DoneEvent::Merged(false),
        DoneEvent::Failed(RiptskError::Unreachable("boom".to_string())),
        DoneEvent::DefaultBranch("trunk".to_string()),
        DoneEvent::Completed,
        DoneEvent::Completed,
        DoneEvent::Failed(RiptskError::NotFound("Branch Not Found".to_string())),
        DoneEvent::LocalBranchExists(false),
    ]);
    assert_eq!(
        actions[5..].to_vec(),
        vec![
            DoneAction::Checkout("trunk".to_string()),
            DoneAction::Pull,
            DoneAction::DeleteRemoteBranch,
            DoneAction::CheckLocalBranch,
            DoneAction::RecordIssue(false),
        ]
    );
    assert_eq!(flow.failure, None);
    let (_, next) = done_step(flow, DoneEvent::Failed(RiptskError::Io("disk".to_string())));
    assert_eq!(next, DoneAction::RestoreOriginalBranch);
}

#[test]
fn done_flow_stash_failure_ends_at_once() {
    let err = RiptskError::Other("stash failed".to_string());
    let (flow, actions) = run(vec![DoneEvent::TreeChecked(true), DoneEvent::Failed(err.clone())]);
    assert_eq!(actions, vec![DoneAction::CheckWorkingTree, DoneAction::Stash, DoneAction::Finish]);
    assert_eq!(flow.failure, Some(err));
    assert!(!done_event_fits(flow.stage, &DoneEvent::Completed));
}
