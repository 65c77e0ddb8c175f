use riptsk::cli::{IdArgs, ScopeArgs};
use riptsk::domain::{
    BackendKind, Config, GithubIssueMeta, GitlabIssueMeta, IssueDocument, IssueFrontmatter,
    IssueState, JiraIssueMeta, ProjectBackend, RepoProject,
};
use riptsk::error::RiptskError;
use riptsk::issues::{
    backend_delete_target, close, display_label, issue_remote_url, load_issue_or_conflict_error, provider_name,
    reopen, resolve_project_repo_path, IssueLoad,
};

fn base_frontmatter() -> IssueFrontmatter {
    IssueFrontmatter {
        id: "T-1".to_string(),
        title: "Test".to_string(),
        status: IssueState::Todo,
        board: "personal".to_string(),
        project: "test".to_string(),
        org: None,
        priority: None,
        labels: Vec::new(),
        assignees: Vec::new(),
        milestone: None,
        state_reason: None,
        cycle: None,
        order: None,
        gitlab: None,
        github: None,
        jira: None,
        local_updated_at: "2025-01-01T00:00:00Z".to_string(),
        due: None,
        weight: None,
        confidential: None,
        discussion_locked: None,
        issue_type: None,
        locked: None,
        lock_reason: None,
        recurring: None,
        remote_deleted: false,
        id_slug: None,
        branch: None,
        pr_url: None,
        pr_number: None,
    }
}

fn doc(fm: IssueFrontmatter) -> IssueDocument {
    IssueDocument {
        frontmatter: fm,
        body: String::new(),
        remote_section: None,
    }
}

#[test]
fn issue_remote_url_prefers_github() {
    let mut fm = base_frontmatter();
    fm.github = Some(GithubIssueMeta {
        repo: "o/r".into(),
        issue_id: Some(1),
        node_id: None,
        milestone_id: None,
        url: Some("https://github.com/o/r/issues/1".into()),
        updated_at: "2025-01-01T00:00:00Z".into(),
        last_pushed_state: None,
    });
    fm.gitlab = Some(GitlabIssueMeta {
        repo: "o/r".into(),
        issue_id: Some(2),
        milestone_id: None,
        url: Some("https://gitlab.com/o/r/-/issues/2".into()),
        updated_at: "2025-01-01T00:00:00Z".into(),
        last_pushed_state: None,
    });
    assert_eq!(
        issue_remote_url(&doc(fm)),
        Some("https://github.com/o/r/issues/1")
    );
}

#[test]
fn issue_remote_url_falls_back_to_gitlab() {
    let mut fm = base_frontmatter();
    fm.gitlab = Some(GitlabIssueMeta {
        repo: "o/r".into(),
        issue_id: Some(2),
        milestone_id: None,
        url: Some("https://gitlab.com/o/r/-/issues/2".into()),
        updated_at: "2025-01-01T00:00:00Z".into(),
        last_pushed_state: None,
    });
    assert_eq!(
        issue_remote_url(&doc(fm)),
        Some("https://gitlab.com/o/r/-/issues/2")
    );
}

#[test]
fn issue_remote_url_falls_back_to_jira() {
    let mut fm = base_frontmatter();
    fm.jira = Some(JiraIssueMeta {
        project_key: "PROJ".into(),
        issue_key: Some("PROJ-1".into()),
        issue_id: Some(1),
        url: Some("https://example.atlassian.net/browse/PROJ-1".into()),
        updated_at: "2025-01-01T00:00:00Z".into(),
        last_pushed_state: None,
        issue_type: None,
        assignee_account_id: None,
        assignee_name: None,
    });
    assert_eq!(
        issue_remote_url(&doc(fm)),
        Some("https://example.atlassian.net/browse/PROJ-1")
    );
}

#[test]
fn issue_remote_url_returns_none_for_local() {
    assert_eq!(issue_remote_url(&doc(base_frontmatter())), None);
}

#[test]
fn issue_remote_url_ignores_backend_with_no_url() {
    let mut fm = base_frontmatter();
    fm.github = Some(GithubIssueMeta {
        repo: "o/r".into(),
        issue_id: Some(1),
        node_id: None,
        milestone_id: None,
        url: None,
        updated_at: "2025-01-01T00:00:00Z".into(),
        last_pushed_state: None,
    });
    fm.gitlab = Some(GitlabIssueMeta {
        repo: "o/r".into(),
        issue_id: Some(2),
        milestone_id: None,
        url: Some("https://gitlab.com/o/r/-/issues/2".into()),
        updated_at: "2025-01-01T00:00:00Z".into(),
        last_pushed_state: None,
    });
    assert_eq!(
        issue_remote_url(&doc(fm)),
        Some("https://gitlab.com/o/r/-/issues/2")
    );
}

#[test]
fn delete_target_uses_first_backend() {
    let mut fm = base_frontmatter();
    assert_eq!(backend_delete_target(&doc(fm.clone())), None);
    fm.jira = Some(JiraIssueMeta {
        project_key: "PROJ".into(),
        issue_key: Some("PROJ-1".into()),
        issue_id: Some(9),
        url: None,
        updated_at: String::new(),
        last_pushed_state: None,
        issue_type: None,
        assignee_account_id: None,
        assignee_name: None,
    });
    assert_eq!(
        backend_delete_target(&doc(fm.clone())),
        Some(("jira", "PROJ".to_string(), 9))
    );
    fm.github = Some(GithubIssueMeta {
        repo: "o/r".into(),
        issue_id: None,
        node_id: None,
        milestone_id: None,
        url: None,
        updated_at: String::new(),
        last_pushed_state: None,
    });
    assert_eq!(backend_delete_target(&doc(fm)), None);
}

#[test]
fn load_maps_conflicts_and_failures() {
    let loaded = load_issue_or_conflict_error(IssueLoad::Loaded(doc(base_frontmatter())), "T-1")
        .expect("loaded");
    assert_eq!(loaded.frontmatter.id, "T-1");
    match load_issue_or_conflict_error(IssueLoad::Conflict, "T-1") {
        Err(RiptskError::Conflict(m)) => {
            assert!(m.starts_with("issue T-1 has unresolved sync conflicts"));
            assert!(m.contains("tsk sync resolve T-1 --take-local"));
            assert!(m.ends_with("tsk sync resolve T-1 --take-remote"));
        }
        other => panic!("unexpected {other:?}"),
    }
    match load_issue_or_conflict_error(IssueLoad::Failed("bad yaml".into()), "T-1") {
        Err(RiptskError::Other(m)) => assert_eq!(m, "bad yaml"),
        other => panic!("unexpected {other:?}"),
    }
}

#[test]
fn close_and_reopen_target_statuses() {
    let args = IdArgs {
        scope: ScopeArgs::default(),
        pick: true,
        id: Some("T-1".into()),
    };
    let closed = close(args.clone());
    assert_eq!(closed.status.as_deref(), Some("done"));
    assert!(closed.pick);
    assert_eq!(closed.id.as_deref(), Some("T-1"));
    assert_eq!(reopen(args).status.as_deref(), Some("todo"));
}

fn project(name: &str, vc_path: Option<&str>, tasks_path: Option<&str>) -> RepoProject {
    RepoProject {
        name: name.into(),
        key: None,
        repo_project_label: None,
        tasks_backend: ProjectBackend {
            kind: BackendKind::Jira,
            host: None,
            repo: None,
            jira_project: Some("org/PROJ".into()),
            path: tasks_path.map(|p| p.to_string()),
        },
        vc_backend: ProjectBackend {
            kind: BackendKind::Github,
            host: None,
            repo: Some("o/r".into()),
            jira_project: None,
            path: vc_path.map(|p| p.to_string()),
        },
    }
}

#[test]
fn repo_path_resolution() {
    let config = Config {
        projects: vec![
            project("a", Some("/src/a"), Some("/t/a")),
            project("b", None, Some("/t/b")),
            project("c", None, None),
        ],
        ..Config::default()
    };
    assert_eq!(resolve_project_repo_path(&config, Some("a"), "/cwd"), "/src/a");
    assert_eq!(resolve_project_repo_path(&config, Some("b"), "/cwd"), "/t/b");
    assert_eq!(resolve_project_repo_path(&config, Some("c"), "/cwd"), "/cwd");
    assert_eq!(resolve_project_repo_path(&config, Some("z"), "/cwd"), "/cwd");
    assert_eq!(resolve_project_repo_path(&config, None, "/cwd"), "/cwd");
    assert_eq!(provider_name(&config.projects[0]), "jira");
}

#[test]
fn display_labels_capitalize_words() {
    assert_eq!(display_label("in-progress"), "In Progress");
    assert_eq!(display_label("todo"), "Todo");
    assert_eq!(display_label("--a--b-"), "A B");
    assert_eq!(display_label(""), "");
    assert_eq!(display_label("ß-x"), "SS X");
}
