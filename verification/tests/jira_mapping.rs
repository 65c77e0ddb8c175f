use riptsk::domain::IssueState;
use riptsk::jira::{
    find_transition, jira_issue_to_record, jira_resolution_to_state_reason,
    jira_status_to_backend_state, jira_status_to_label, normalize_jira_timestamp,
    state_reason_to_jira_resolution, JiraComment, JiraCommentPage, JiraFields, JiraIssue,
    JiraIssueType, JiraPriority, JiraResolution, JiraStatus, JiraStatusCategory, JiraTransition,
    JiraTransitionTarget, JiraUser, JiraVersion,
};

#[test]
fn jira_status_category_mapping() {
    assert_eq!(jira_status_to_backend_state("new"), "open");
    assert_eq!(jira_status_to_backend_state("indeterminate"), "open");
    assert_eq!(jira_status_to_backend_state("done"), "closed");
    assert_eq!(jira_status_to_backend_state("undefined"), "open");
}

#[test]
fn jira_status_label_mapping() {
    assert_eq!(jira_status_to_label("new", "Backlog"), "status::backlog");
    assert_eq!(jira_status_to_label("new", "To Do"), "status::todo");
    assert_eq!(jira_status_to_label("new", "Open"), "status::todo");
    assert_eq!(
        jira_status_to_label("indeterminate", "In Progress"),
        "status::in-progress"
    );
    assert_eq!(
        jira_status_to_label("indeterminate", "In Review"),
        "status::review"
    );
    assert_eq!(
        jira_status_to_label("indeterminate", "Code Review"),
        "status::review"
    );
    assert_eq!(
        jira_status_to_label("indeterminate", "In QA"),
        "status::review"
    );
    assert_eq!(jira_status_to_label("done", "Done"), "status::done");
    assert_eq!(jira_status_to_label("done", "Closed"), "status::done");
    assert_eq!(
        jira_status_to_label("undefined", "Unknown"),
        "status::backlog"
    );
}

#[test]
fn resolution_mapping() {
    assert_eq!(
        jira_resolution_to_state_reason(Some("Done")),
        Some("completed".into())
    );
    assert_eq!(
        jira_resolution_to_state_reason(Some("Won't Do")),
        Some("not_planned".into())
    );
    assert_eq!(
        jira_resolution_to_state_reason(Some("Duplicate")),
        Some("duplicate".into())
    );
    assert_eq!(
        jira_resolution_to_state_reason(Some("Cannot Reproduce")),
        Some("completed".into())
    );
    assert_eq!(jira_resolution_to_state_reason(None), None);
}

#[test]
fn state_reason_to_resolution_mapping() {
    assert_eq!(
        state_reason_to_jira_resolution(Some("not_planned")),
        "Won't Do"
    );
    assert_eq!(
        state_reason_to_jira_resolution(Some("duplicate")),
        "Duplicate"
    );
    assert_eq!(state_reason_to_jira_resolution(Some("completed")), "Done");
    assert_eq!(state_reason_to_jira_resolution(None), "Done");
}

#[test]
fn resolution_round_trips_through_state_reason() {
    for resolution in ["Won't Do", "Duplicate", "Done"] {
        let reason = jira_resolution_to_state_reason(Some(resolution)).expect("reason");
        assert_eq!(state_reason_to_jira_resolution(Some(reason.as_str())), resolution);
    }
}

fn transition(id: &str, name: &str, target: &str, category: &str) -> JiraTransition {
    JiraTransition {
        id: id.into(),
        name: name.into(),
        to: JiraTransitionTarget {
            name: target.into(),
            status_category: JiraStatusCategory {
                key: category.into(),
                name: "In Progress".into(),
            },
        },
        has_screen: false,
        is_available: true,
        fields: None,
    }
}

#[test]
fn find_transition_prefers_exact_name_match() {
    let transitions = vec![
        transition("1", "Start Progress", "In Development", "indeterminate"),
        transition("2", "Submit for Review", "In Review", "indeterminate"),
    ];
    let result = find_transition(&transitions, &IssueState::Review).unwrap();
    assert_eq!(transitions[result].id, "2");
}

#[test]
fn find_transition_falls_back_to_first_in_category() {
    let transitions = vec![transition("31", "Close", "Closed", "done")];
    let result = find_transition(&transitions, &IssueState::Done).unwrap();
    assert_eq!(transitions[result].id, "31");
}

#[test]
fn find_transition_errors_when_no_match() {
    let transitions = vec![transition("1", "Start", "In Progress", "indeterminate")];
    let result = find_transition(&transitions, &IssueState::Done);
    assert!(result.is_err());
}

#[test]
fn find_transition_skips_screens_with_required_fields() {
    let mut needs_screen = transition("5", "Resolve", "Done", "done");
    needs_screen.fields = Some(vec![("customfield_1".into(), true)]);
    let mut resolution_only = transition("6", "Close", "Closed", "done");
    resolution_only.fields = Some(vec![("resolution".into(), true)]);
    let transitions = vec![needs_screen, resolution_only];
    let result = find_transition(&transitions, &IssueState::Done).unwrap();
    assert_eq!(transitions[result].id, "6");
    let only_screen = vec![{
        let mut t = transition("7", "Resolve", "Done", "done");
        t.fields = Some(vec![("customfield_1".into(), true)]);
        t
    }];
    assert_eq!(find_transition(&only_screen, &IssueState::Done).unwrap(), 0);
    let err = find_transition(&Vec::new(), &IssueState::Todo).unwrap_err();
    assert_eq!(err.to_string(), "no available transition to new category");
}

#[test]
fn normalize_jira_timestamp_converts_format() {
    let jira_ts = "2024-03-28T09:15:42.123+0000";
    let result = normalize_jira_timestamp(jira_ts);
    assert!(result.contains("+00:00"), "got: {result}");
}

#[test]
fn normalize_jira_timestamp_preserves_valid_rfc3339() {
    let ts = "2024-03-28T09:15:42+00:00";
    let result = normalize_jira_timestamp(ts);
    assert!(result.contains("+00:00"));
}

#[test]
fn jira_issue_to_record_basic() {
    let issue = JiraIssue {
        id: "10042".into(),
        key: "PROJ-123".into(),
        fields: JiraFields {
            summary: "Fix the bug".into(),
            description: Some("A detailed description".into()),
            status: JiraStatus {
                name: "In Progress".into(),
                status_category: JiraStatusCategory {
                    key: "indeterminate".into(),
                    name: "In Progress".into(),
                },
            },
            resolution: None,
            labels: vec!["bug".into()],
            assignee: Some(JiraUser {
                display_name: "Alice".into(),
                account_id: Some("abc123".into()),
                name: None,
            }),
            fix_versions: vec![JiraVersion {
                id: "10001".into(),
                name: "1.0".into(),
            }],
            issue_type: JiraIssueType {
                name: "Bug".into(),
                subtask: false,
            },
            priority: Some(JiraPriority {
                name: "High".into(),
            }),
            duedate: Some("2024-04-01".into()),
            security: None,
            comment: Some(JiraCommentPage {
                comments: vec![JiraComment {
                    body: "Working on it".into(),
                }],
            }),
            updated: "2024-03-28T09:15:42.123+0000".into(),
            created: "2024-03-20T10:00:00.000+0000".into(),
        },
    };

    let record = jira_issue_to_record(&issue, "https://myteam.atlassian.net");

    assert_eq!(record.issue_id, 10042);
    assert_eq!(record.title, "Fix the bug");
    assert_eq!(record.state, "open");
    assert_eq!(record.state_reason, None);
    assert!(record.labels.contains(&"bug".to_string()));
    assert!(record.labels.contains(&"status::in-progress".to_string()));
    assert_eq!(record.assignees, vec!["Alice"]);
    assert_eq!(record.milestone, Some("1.0".into()));
    assert_eq!(record.milestone_id, Some(10001));
    assert_eq!(record.body, Some("A detailed description".into()));
    assert_eq!(record.url, "https://myteam.atlassian.net/browse/PROJ-123");
    assert_eq!(record.due_date, Some("2024-04-01".into()));
    assert_eq!(record.issue_type, Some("Bug".into()));
    assert_eq!(record.comments, vec!["Working on it"]);
    assert_eq!(record.confidential, None);
    assert_eq!(record.assignee_account_id, Some("abc123".into()));
    assert_eq!(record.assignee_name, None);
}

#[test]
fn jira_issue_to_record_closed_with_resolution() {
    let issue = JiraIssue {
        id: "10043".into(),
        key: "PROJ-124".into(),
        fields: JiraFields {
            summary: "Old issue".into(),
            description: None,
            status: JiraStatus {
                name: "Done".into(),
                status_category: JiraStatusCategory {
                    key: "done".into(),
                    name: "Done".into(),
                },
            },
            resolution: Some(JiraResolution {
                name: "Won't Do".into(),
            }),
            labels: vec![],
            assignee: None,
            fix_versions: vec![],
            issue_type: JiraIssueType {
                name: "Task".into(),
                subtask: false,
            },
            priority: None,
            duedate: None,
            security: None,
            comment: None,
            updated: "2024-03-28T09:15:42.123+0000".into(),
            created: "2024-03-20T10:00:00.000+0000".into(),
        },
    };

    let record = jira_issue_to_record(&issue, "https://example.atlassian.net");

    assert_eq!(record.state, "closed");
    assert_eq!(record.state_reason, Some("not_planned".into()));
    assert!(record.assignees.is_empty());
    assert_eq!(record.milestone, None);
}

#[test]
fn record_replaces_stale_status_labels_and_trims_host_slashes() {
    let issue = JiraIssue {
        id: "x".into(),
        key: "K-1".into(),
        fields: JiraFields {
            summary: "s".into(),
            description: None,
            status: JiraStatus {
                name: "Backlog".into(),
                status_category: JiraStatusCategory { key: "new".into(), name: "To Do".into() },
            },
            resolution: None,
            labels: vec!["status::done".into(), "ui".into()],
            assignee: None,
            fix_versions: vec![JiraVersion { id: "v1".into(), name: "1.0".into() }],
            issue_type: JiraIssueType { name: "Task".into(), subtask: false },
            priority: None,
            duedate: None,
            security: Some(riptsk::jira::JiraSecurityLevel { name: "secret".into() }),
            comment: None,
            updated: "not a time".into(),
            created: "c".into(),
        },
    };
    let record = jira_issue_to_record(&issue, "https://h.example//");
    assert_eq!(record.issue_id, 0);
    assert_eq!(record.labels, vec!["ui".to_string(), "status::backlog".to_string()]);
    assert_eq!(record.url, "https://h.example/browse/K-1");
    assert_eq!(record.milestone_id, None);
    assert_eq!(record.confidential, Some(true));
    assert_eq!(record.updated_at, "not a time");
}
