use riptsk::backend::BackendIssueRecord;
use riptsk::domain::{BackendKind, IssueState, Priority, ProjectBackend, RepoProject};
use riptsk::error::RiptskError;
use riptsk::issue_create::{
    backend_issue_document, content_plan, creates_remotely, generation_failed_message,
    hosted_issue_repo, issue_body, new_issue_upsert, store_commit_message, with_project_label,
    ContentPlan, IssueDraft,
};

fn backend(kind: BackendKind, repo: Option<&str>, jira: Option<&str>) -> ProjectBackend {
    ProjectBackend {
        kind,
        host: None,
        repo: repo.map(str::to_string),
        jira_project: jira.map(str::to_string),
        path: None,
    }
}

fn project(tasks: ProjectBackend) -> RepoProject {
    RepoProject {
        name: "app".into(),
        key: None,
        repo_project_label: None,
        tasks_backend: tasks,
        vc_backend: backend(BackendKind::Local, None, None),
    }
}

fn draft() -> IssueDraft {
    IssueDraft {
        title: "Fix login".into(),
        body: "Steps".into(),
        status: IssueState::Todo,
        board: "work".into(),
        project: "app".into(),
        org: Some("acme".into()),
        priority: Priority::High,
        labels: vec!["bug".into()],
        assignee: Some("alice".into()),
        order: 4,
        tasks_backend_kind: Some(BackendKind::Jira),
    }
}

fn record() -> BackendIssueRecord {
    BackendIssueRecord {
        issue_id: 10042,
        title: "Fix login".into(),
        state: "open".into(),
        url: "https://acme.atlassian.net/browse/APP-7".into(),
        updated_at: "2025-02-01T10:00:00+00:00".into(),
        issue_type: Some("Bug".into()),
        due_date: Some("2025-03-01".into()),
        ..Default::default()
    }
}

#[test]
fn content_plan_follows_title_description_and_ai() {
    assert_eq!(content_plan(&None, &None, false), ContentPlan::GenerateAll);
    assert_eq!(content_plan(&Some("t".into()), &None, true), ContentPlan::GenerateBody);
    assert_eq!(content_plan(&Some("t".into()), &None, false), ContentPlan::Keep);
    assert_eq!(content_plan(&Some("t".into()), &Some("d".into()), true), ContentPlan::Keep);
}

#[test]
fn body_prefers_description_then_generated_then_template() {
    assert_eq!(issue_body(Some("d".into()), Some("g".into()), "t".into()), "d");
    assert_eq!(issue_body(None, Some("g".into()), "t".into()), "g");
    assert_eq!(issue_body(None, None, "t".into()), "t");
    assert_eq!(
        generation_failed_message("boom"),
        "AI issue generation failed and no --title provided\nboom"
    );
}

#[test]
fn only_hosted_trackers_create_remotely() {
    assert!(creates_remotely(Some(BackendKind::Github)));
    assert!(creates_remotely(Some(BackendKind::Jira)));
    assert!(!creates_remotely(Some(BackendKind::Local)));
    assert!(!creates_remotely(None));
}

#[test]
fn hosted_repo_of_each_tracker() {
    let gh = project(backend(BackendKind::Github, Some("acme/app"), None));
    assert_eq!(hosted_issue_repo(&gh).unwrap(), "acme/app");
    let jira = project(backend(BackendKind::Jira, None, Some("acme/APP")));
    assert_eq!(hosted_issue_repo(&jira).unwrap(), "acme/APP");
    let missing = project(backend(BackendKind::Gitlab, None, None));
    match hosted_issue_repo(&missing) {
        Err(RiptskError::Config(m)) => assert_eq!(m, "RepoProject app is missing TasksBackend repo"),
        other => panic!("unexpected {other:?}"),
    }
    let local = project(backend(BackendKind::Local, None, None));
    match hosted_issue_repo(&local) {
        Err(RiptskError::Config(m)) => {
            assert_eq!(m, "RepoProject app does not have a hosted TasksBackend")
        }
        other => panic!("unexpected {other:?}"),
    }
    let no_jira = project(backend(BackendKind::Jira, Some("x"), None));
    match hosted_issue_repo(&no_jira) {
        Err(RiptskError::Config(m)) => assert_eq!(m, "RepoProject app is missing JiraProject"),
        other => panic!("unexpected {other:?}"),
    }
}

#[test]
fn project_label_is_added_once() {
    let labels = vec!["bug".to_string()];
    assert_eq!(with_project_label(labels.clone(), None), labels);
    assert_eq!(
        with_project_label(labels.clone(), Some("proj::app")),
        vec!["bug".to_string(), "proj::app".to_string()]
    );
    assert_eq!(with_project_label(labels.clone(), Some("bug")), labels);
}

#[test]
fn upsert_carries_title_body_labels_and_assignee() {
    let u = new_issue_upsert("T", "B", vec!["x".into()], &Some("bob".into()));
    assert_eq!(u.title, "T");
    assert_eq!(u.body, "B");
    assert_eq!(u.labels, vec!["x".to_string()]);
    assert_eq!(u.assignees, vec!["bob".to_string()]);
    assert_eq!(u.milestone_id, None);
    let none = new_issue_upsert("T", "", Vec::new(), &None);
    assert!(none.assignees.is_empty());
}

#[test]
fn created_jira_issue_records_its_link() {
    let doc = backend_issue_document(
        &draft(),
        BackendKind::Jira,
        "acme/APP",
        &record(),
        "APP-10042".into(),
        "APP-10042-fix-login".into(),
    );
    let fm = &doc.frontmatter;
    assert_eq!(fm.id, "APP-10042");
    assert_eq!(fm.priority, Some(Priority::High));
    assert_eq!(fm.assignees, vec!["alice".to_string()]);
    assert_eq!(fm.order, Some(4));
    assert!(fm.github.is_none() && fm.gitlab.is_none());
    let jira = fm.jira.as_ref().unwrap();
    assert_eq!(jira.project_key, "APP");
    assert_eq!(jira.issue_key.as_deref(), Some("APP-7"));
    assert_eq!(jira.issue_id, Some(10042));
    assert_eq!(jira.last_pushed_state, Some(IssueState::Todo));
    assert_eq!(jira.issue_type.as_deref(), Some("Bug"));
    assert_eq!(fm.due.as_deref(), Some("2025-03-01"));
    assert_eq!(fm.local_updated_at, "2025-02-01T10:00:00+00:00");
    assert_eq!(fm.id_slug.as_deref(), Some("APP-10042-fix-login"));
    assert_eq!(doc.body, "Steps");
}

#[test]
fn created_github_issue_records_its_link() {
    let doc = backend_issue_document(
        &draft(),
        BackendKind::Github,
        "acme/app",
        &record(),
        "APP-1".into(),
        "slug".into(),
    );
    let gh = doc.frontmatter.github.as_ref().unwrap();
    assert_eq!(gh.repo, "acme/app");
    assert_eq!(gh.url.as_deref(), Some("https://acme.atlassian.net/browse/APP-7"));
    assert!(doc.frontmatter.jira.is_none());
}

#[test]
fn store_commit_messages() {
    assert_eq!(store_commit_message("new", "T-1", "Fix"), "riptsk: new T-1 - Fix");
    assert_eq!(store_commit_message("rm", "T-2", "Old"), "riptsk: rm T-2 - Old");
}
