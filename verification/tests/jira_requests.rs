use riptsk::backend::BackendIssueUpsert;
use riptsk::error::RiptskError;
use riptsk::jira::{JiraAuth, JiraIssueType, JiraUser};
use riptsk::jira_api::{
    assignee_from_users, assignee_payload, assignee_plan, creatable_issue_types, delete_step,
    falls_back_to_legacy_search, legacy_next_start, list_issues_jql, resolve_issue_type,
    transition_payload, upsert_to_jira_create, upsert_to_jira_update, AssigneePlan,
    AssigneeTarget, DeleteStep, JiraProvider,
};

fn upsert(title: &str, body: &str) -> BackendIssueUpsert {
    BackendIssueUpsert {
        title: title.into(),
        body: body.into(),
        state: Some("open".into()),
        state_reason: None,
        labels: vec![],
        assignees: vec![],
        milestone_id: None,
        due_date: None,
        weight: None,
        confidential: None,
        discussion_locked: None,
        assignee_account_id: None,
        assignee_name: None,
    }
}

fn parse(text: &str) -> serde_json::Value {
    serde_json::from_str(text).expect("valid JSON")
}

#[test]
fn upsert_to_jira_create_generates_valid_json() {
    let upsert = BackendIssueUpsert {
        title: "New task".into(),
        body: "Description here".into(),
        state: Some("open".into()),
        state_reason: None,
        labels: vec!["feature".into(), "status::todo".into()],
        assignees: vec![],
        milestone_id: Some(10001),
        due_date: Some("2024-04-01".into()),
        weight: None,
        confidential: None,
        discussion_locked: None,
        assignee_account_id: None,
        assignee_name: None,
    };

    let json = parse(&upsert_to_jira_create(&upsert, "PROJ", "Task"));

    assert_eq!(json["fields"]["project"]["key"], "PROJ");
    assert_eq!(json["fields"]["summary"], "New task");
    assert_eq!(json["fields"]["issuetype"]["name"], "Task");
    assert_eq!(json["fields"]["description"], "Description here");
    assert_eq!(json["fields"]["duedate"], "2024-04-01");
}

#[test]
fn upsert_to_jira_update_generates_valid_json() {
    let upsert = BackendIssueUpsert {
        title: "Updated title".into(),
        body: String::new(),
        state: Some("open".into()),
        state_reason: None,
        labels: vec!["status::in-progress".into()],
        assignees: vec![],
        milestone_id: None,
        due_date: None,
        weight: None,
        confidential: None,
        discussion_locked: None,
        assignee_account_id: None,
        assignee_name: None,
    };

    let json = parse(&upsert_to_jira_update(&upsert));

    assert_eq!(json["fields"]["summary"], "Updated title");
    assert!(json["fields"]["description"].is_null());
    assert!(json["fields"]["fixVersions"].as_array().unwrap().is_empty());
    assert!(json["fields"]["duedate"].is_null());
}

#[test]
fn create_body_exact_text_and_optional_fields() {
    let mut u = upsert("Fix \"quoted\" bug", "");
    u.labels = vec!["bug".into(), "ui".into()];
    u.milestone_id = Some(42);
    let text = upsert_to_jira_create(&u, "AB", "Bug");
    assert_eq!(
        text,
        "{\"fields\":{\"fixVersions\":[{\"id\":\"42\"}],\"issuetype\":{\"name\":\"Bug\"},\
         \"labels\":[\"bug\",\"ui\"],\"project\":{\"key\":\"AB\"},\
         \"summary\":\"Fix \\\"quoted\\\" bug\"}}"
    );
    let json = parse(&text);
    assert_eq!(json["fields"]["summary"], "Fix \"quoted\" bug");
    assert!(json["fields"].get("description").is_none());
    assert!(json["fields"].get("duedate").is_none());
    assert_eq!(json["fields"]["fixVersions"][0]["id"], "42");
    assert_eq!(json["fields"]["labels"][1], "ui");
}

#[test]
fn update_body_sends_every_field() {
    let mut u = upsert("T", "line1\nline2");
    u.milestone_id = Some(7);
    u.due_date = Some("2025-01-02".into());
    let text = upsert_to_jira_update(&u);
    assert_eq!(
        text,
        "{\"fields\":{\"description\":\"line1\\nline2\",\"duedate\":\"2025-01-02\",\
         \"fixVersions\":[{\"id\":\"7\"}],\"labels\":[],\"summary\":\"T\"}}"
    );
    let json = parse(&text);
    assert_eq!(json["fields"]["description"], "line1\nline2");
    assert!(json["fields"]["labels"].as_array().unwrap().is_empty());
}

#[test]
fn project_key_extraction() {
    assert_eq!(JiraProvider::project_key("myteam/PROJ"), "PROJ");
    assert_eq!(JiraProvider::project_key("PROJ"), "PROJ");
    assert_eq!(JiraProvider::project_key("org/sub/PROJ"), "PROJ");
}

#[test]
fn provider_builds_auth_header_and_urls() {
    let basic = JiraProvider::new(
        "https://example.atlassian.net//",
        JiraAuth::Basic { email: "a@b".into(), token: "tok".into() },
    );
    assert_eq!(basic.host(), "https://example.atlassian.net");
    assert_eq!(basic.auth_header(), "Basic YUBiOnRvaw==");
    assert_eq!(basic.configured_issue_type(), None);
    assert_eq!(
        basic.api_url("/issue/1"),
        "https://example.atlassian.net/rest/api/2/issue/1"
    );

    let pat = JiraProvider::with_issue_type(
        "https://jira.local",
        JiraAuth::Pat("secret".into()),
        Some("Story".into()),
    );
    assert_eq!(pat.auth_header(), "Bearer secret");
    assert_eq!(pat.configured_issue_type(), Some("Story".to_string()));
}

#[test]
fn jql_and_search_fallback() {
    assert_eq!(list_issues_jql("PROJ"), "project = PROJ ORDER BY updated DESC");
    assert!(falls_back_to_legacy_search("Jira API returned 404 Not Found"));
    assert!(!falls_back_to_legacy_search("Jira API returned 500"));
}

#[test]
fn legacy_pagination_stops_at_total() {
    assert_eq!(legacy_next_start(0, 100, 250), Some(100));
    assert_eq!(legacy_next_start(200, 50, 250), None);
    assert_eq!(legacy_next_start(0, 0, 10), Some(0));
    assert_eq!(legacy_next_start(u64::MAX, 1, 5), None);
}

#[test]
fn creatable_issue_types_skip_subtasks() {
    let types = vec![
        JiraIssueType { name: "Sub-task".into(), subtask: true },
        JiraIssueType { name: "Story".into(), subtask: false },
        JiraIssueType { name: "Task".into(), subtask: false },
    ];
    assert_eq!(creatable_issue_types(&types), vec!["Story".to_string(), "Task".to_string()]);
}

#[test]
fn resolve_issue_type_prefers_config_then_task_then_first() {
    let offered = vec!["Story".to_string(), "Task".to_string()];
    assert_eq!(resolve_issue_type("P", Some("Bug"), &offered).unwrap(), "Bug");
    assert_eq!(resolve_issue_type("P", None, &offered).unwrap(), "Task");
    let no_task = vec!["Story".to_string(), "Epic".to_string()];
    assert_eq!(resolve_issue_type("P", None, &no_task).unwrap(), "Story");
    assert_eq!(resolve_issue_type("P", None, &Vec::new()).unwrap(), "Task");
}

#[test]
fn assignee_plan_order() {
    let mut u = upsert("t", "");
    assert_eq!(assignee_plan(&u), AssigneePlan::Send(AssigneeTarget::Clear));
    u.assignees = vec!["Alice".into()];
    assert_eq!(assignee_plan(&u), AssigneePlan::Search("Alice".into()));
    u.assignee_name = Some("alice".into());
    assert_eq!(assignee_plan(&u), AssigneePlan::Send(AssigneeTarget::Name("alice".into())));
    u.assignee_account_id = Some("abc".into());
    assert_eq!(assignee_plan(&u), AssigneePlan::Send(AssigneeTarget::AccountId("abc".into())));
}

#[test]
fn assignee_from_search_results() {
    assert_eq!(assignee_from_users(&Vec::new()).unwrap(), None);
    let users = vec![JiraUser {
        display_name: "Alice".into(),
        account_id: None,
        name: Some("alice".into()),
    }];
    assert_eq!(
        assignee_from_users(&users).unwrap(),
        Some(AssigneeTarget::Name("alice".into()))
    );
    let nobody = vec![JiraUser { display_name: "Ghost".into(), account_id: None, name: None }];
    match assignee_from_users(&nobody) {
        Err(RiptskError::General(m)) => {
            assert_eq!(m, "assignable user 'Ghost' has no accountId or name")
        }
        other => panic!("unexpected {other:?}"),
    }
}

#[test]
fn assignee_and_transition_bodies() {
    assert_eq!(assignee_payload(&AssigneeTarget::Clear), "{\"accountId\":null}");
    assert_eq!(
        assignee_payload(&AssigneeTarget::AccountId("abc".into())),
        "{\"accountId\":\"abc\"}"
    );
    assert_eq!(assignee_payload(&AssigneeTarget::Name("bob".into())), "{\"name\":\"bob\"}");
    assert_eq!(transition_payload("31", None), "{\"transition\":{\"id\":\"31\"}}");
    let with_resolution = transition_payload("31", Some("Won't Do"));
    let json = parse(&with_resolution);
    assert_eq!(json["transition"]["id"], "31");
    assert_eq!(json["fields"]["resolution"]["name"], "Won't Do");
}

#[test]
fn delete_answers() {
    assert_eq!(delete_step(204), DeleteStep::Deleted);
    assert_eq!(delete_step(403), DeleteStep::CloseInstead);
    assert_eq!(delete_step(500), DeleteStep::Failed);
    assert_eq!(delete_step(300), DeleteStep::Failed);
}

#[test]
fn create_body_escapes_control_characters() {
    let u = upsert("a\\b\tc\u{1}\u{1f}é", "");
    let text = upsert_to_jira_create(&u, "AB", "Task");
    assert!(text.ends_with("\"summary\":\"a\\\\b\\tc\\u0001\\u001fé\"}}"), "{text}");
    assert_eq!(parse(&text)["fields"]["summary"], "a\\b\tc\u{1}\u{1f}é");
}

#[test]
fn auth_header_encodes_utf8_bytes_with_padding() {
    let multi = JiraProvider::new("https://j", JiraAuth::Basic { email: "é@x".into(), token: "tö".into() });
    assert_eq!(multi.auth_header(), "Basic w6lAeDp0w7Y=");
    let short = JiraProvider::new("https://j", JiraAuth::Basic { email: "ab".into(), token: "c".into() });
    assert_eq!(short.auth_header(), "Basic YWI6Yw==");
}
