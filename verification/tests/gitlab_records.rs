use riptsk::backend::PrChecksStatus;
use riptsk::error::RiptskError;
use riptsk::backend::BackendIssueUpsert;
use riptsk::backend::MergeMethod;
use riptsk::gitlab::{
    create_issue_fields, edit_issue_fields, find_user_id, gitlab_merge_plan, rebase_poll_step,
    GitlabAssignees, GitlabMergePlan, RebaseStep,
};
use riptsk::gitlab::{
    ci_presence, is_weight_error, map_issue, map_merge_request, merge_request_checks_status,
    normalize_timestamp, parse_gitlab_issue_state_event, GitlabIssue, GitlabMergeRequest,
    GitlabMilestone, GitlabPipeline, GitlabProvider, GitlabUser, IssueStateEvent,
};

#[test]
fn provider_keeps_settings() {
    let p = GitlabProvider::new("https://gitlab.example.com", "tok").expect("new");
    assert_eq!(p.host(), "https://gitlab.example.com");
    assert_eq!(p.token(), "tok");
}

#[test]
fn timestamps_normalize() {
    assert_eq!(
        normalize_timestamp("2024-03-28T09:15:42.123Z"),
        "2024-03-28T09:15:42Z"
    );
    assert_eq!(normalize_timestamp("not a time"), "not a time");
}

#[test]
fn issue_mapping() {
    let issue = GitlabIssue {
        iid: 7,
        title: "T".into(),
        description: Some("D".into()),
        state: "opened".into(),
        labels: vec!["bug".into()],
        assignees: vec![GitlabUser {
            id: 1,
            username: "ann".into(),
        }],
        milestone: Some(GitlabMilestone {
            id: 9,
            title: "M1".into(),
        }),
        web_url: "https://g/i/7".into(),
        updated_at: "2024-03-28T09:15:42.123Z".into(),
        due_date: None,
        weight: Some(3),
        confidential: Some(false),
        discussion_locked: None,
        issue_type: Some("issue".into()),
    };
    let r = map_issue(&issue);
    assert_eq!(r.state, "open");
    let mut closed = issue.clone();
    closed.state = "closed".into();
    assert_eq!(map_issue(&closed).state, "closed");
    assert_eq!(r.issue_id, 7);
    assert_eq!(r.assignees, vec!["ann"]);
    assert_eq!(r.milestone.as_deref(), Some("M1"));
    assert_eq!(r.milestone_id, Some(9));
    assert_eq!(r.updated_at, "2024-03-28T09:15:42Z");
    assert_eq!(r.weight, Some(3));
    assert!(r.node_id.is_none());
}

fn mr(state: &str, pipeline: Option<&str>) -> GitlabMergeRequest {
    GitlabMergeRequest {
        iid: 3,
        title: "MR".into(),
        description: None,
        state: state.into(),
        source_branch: "feat".into(),
        target_branch: "main".into(),
        sha: Some("abc".into()),
        head_pipeline: pipeline.map(|s| GitlabPipeline { status: s.into() }),
        rebase_in_progress: None,
        merge_error: None,
        updated_at: "bad".into(),
        web_url: "https://g/mr/3".into(),
    }
}

#[test]
fn merge_request_mapping_and_checks() {
    let r = map_merge_request(&mr("merged", None));
    assert!(r.merged);
    assert_eq!(r.body, "");
    assert_eq!(r.head, "feat");
    assert!(!map_merge_request(&mr("opened", None)).merged);
    assert_eq!(
        merge_request_checks_status(&mr("opened", Some("success"))),
        PrChecksStatus::Passed
    );
    assert_eq!(
        merge_request_checks_status(&mr("opened", Some("canceled"))),
        PrChecksStatus::Failed
    );
    assert_eq!(
        merge_request_checks_status(&mr("opened", Some("manual"))),
        PrChecksStatus::Pending
    );
    assert_eq!(
        merge_request_checks_status(&mr("opened", Some("skipped"))),
        PrChecksStatus::NoChecks
    );
    assert_eq!(
        merge_request_checks_status(&mr("opened", None)),
        PrChecksStatus::NoChecks
    );
    assert_eq!(ci_presence(true).remote_workflow_names, vec!["pipeline"]);
    assert!(ci_presence(false).remote_workflow_names.is_empty());
}

#[test]
fn state_events_and_weight_errors() {
    assert_eq!(
        parse_gitlab_issue_state_event("opened"),
        Ok(IssueStateEvent::Reopen)
    );
    assert_eq!(
        parse_gitlab_issue_state_event("closed"),
        Ok(IssueStateEvent::Close)
    );
    assert_eq!(
        parse_gitlab_issue_state_event("locked"),
        Err(RiptskError::Config(
            "unsupported gitlab issue state: locked".into()
        ))
    );
    assert!(is_weight_error(&RiptskError::Config(
        "Weight is not available".into()
    )));
    assert!(!is_weight_error(&RiptskError::General("weight".into())));
}

fn upsert() -> BackendIssueUpsert {
    BackendIssueUpsert {
        title: "Fix".into(),
        body: "Body".into(),
        labels: vec![],
        weight: Some(3),
        milestone_id: Some(9),
        due_date: Some("2025-05-01".into()),
        ..Default::default()
    }
}

#[test]
fn create_request_fields() {
    let f = create_issue_fields(&upsert(), &vec![], true).unwrap();
    assert_eq!(f.title, "Fix");
    assert_eq!(f.description, "Body");
    assert_eq!(f.labels, None);
    assert_eq!(f.weight, Some(3));
    assert_eq!(f.milestone_id, Some(9));
    assert_eq!(f.due_date.as_deref(), Some("2025-05-01"));
    assert_eq!(f.assignees, GitlabAssignees::Unchanged);
    let without_weight = create_issue_fields(&upsert(), &vec![4, 5], false).unwrap();
    assert_eq!(without_weight.weight, None);
    assert_eq!(without_weight.assignees, GitlabAssignees::Assign(vec![4, 5]));
    let mut bad = upsert();
    bad.due_date = Some("01/05/2025".into());
    assert!(matches!(create_issue_fields(&bad, &vec![], true), Err(RiptskError::Config(_))));
}

#[test]
fn edit_request_fields() {
    let mut u = upsert();
    u.state = Some("closed".into());
    u.discussion_locked = Some(true);
    let f = edit_issue_fields(&u, &vec![], true).unwrap();
    assert_eq!(f.labels, Some(vec![]));
    assert_eq!(f.state_event, Some(IssueStateEvent::Close));
    assert_eq!(f.discussion_locked, Some(true));
    assert_eq!(f.assignees, GitlabAssignees::Unassign);
    u.state = Some("opened".into());
    assert_eq!(edit_issue_fields(&u, &vec![1], true).unwrap().state_event, Some(IssueStateEvent::Reopen));
    u.state = Some("merged".into());
    match edit_issue_fields(&u, &vec![], true) {
        Err(RiptskError::Config(m)) => assert_eq!(m, "unsupported gitlab issue state: merged"),
        other => panic!("unexpected {other:?}"),
    }
}

#[test]
fn user_lookup_takes_exact_name() {
    let users = vec![("alice2".to_string(), 7), ("alice".to_string(), 3)];
    assert_eq!(find_user_id(&users, "alice").unwrap(), 3);
    match find_user_id(&users, "bob") {
        Err(RiptskError::Unreachable(m)) => assert_eq!(m, "GitLab user not found: bob"),
        other => panic!("unexpected {other:?}"),
    }
}

#[test]
fn rebase_polling() {
    assert_eq!(rebase_poll_step(12, None, Some(true), 30), RebaseStep::Wait);
    assert_eq!(rebase_poll_step(12, Some(""), Some(false), 30), RebaseStep::Done);
    assert_eq!(rebase_poll_step(12, None, None, 30), RebaseStep::Done);
    assert_eq!(
        rebase_poll_step(12, Some("conflict"), Some(true), 30),
        RebaseStep::Failed("rebase failed for MR !12: conflict".into())
    );
    assert_eq!(
        rebase_poll_step(12, None, Some(true), 600),
        RebaseStep::Failed("timed out waiting for rebase of MR !12".into())
    );
}

#[test]
fn gitlab_merge_plans() {
    assert_eq!(
        gitlab_merge_plan(MergeMethod::Rebase),
        GitlabMergePlan { rebase_first: true, squash: false }
    );
    assert_eq!(
        gitlab_merge_plan(MergeMethod::Squash),
        GitlabMergePlan { rebase_first: false, squash: true }
    );
    assert_eq!(
        gitlab_merge_plan(MergeMethod::Merge),
        GitlabMergePlan { rebase_first: false, squash: false }
    );
}
