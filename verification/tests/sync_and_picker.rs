use riptsk::cli::{IdArgs, ResolveArgs, ScopeArgs, SyncArgs, SyncPullPushArgs, SyncSubcommand};
use riptsk::domain::{BackendKind, BoardConfig, Config, IssueDocument, IssueFrontmatter, IssueState, Priority, ProjectBackend, RepoProject};
use riptsk::error::RiptskError;
use riptsk::github_records::{
    decode_workflow_content, disabled_workflow_paths, github_state_reason_to_string,
    is_workflow_file, map_issue, map_pull_request, parse_github_issue_state,
    parse_github_state_reason, parse_lock_reason, GithubIssueInfo, GithubIssueState,
    GithubPullInfo, IssueStateReason, LockReason,
};
use riptsk::backend::DeleteOutcome;
use riptsk::github_records::{
    create_ref_request, delete_issue_answer, delete_issue_request, linked_branch_request,
    split_owner_repo, DeleteAnswer, CREATE_REF_MUTATION, DELETE_ISSUE_MUTATION,
    LINKED_BRANCH_MUTATION,
};
use riptsk::picker::{
    extract_hidden_id, format_issue_plain, fzf_issue_args, fzf_selection, sanitize_control,
    selected_ids, truncate_title, IssueDisplayMode,
};
use riptsk::sync::{session, SessionAction};
use riptsk::cli::{SessionArgs, SessionStartArgs, SessionSubcommand};
use riptsk::sync::{
    check_active_session, check_no_active_session, deleted_key_matches_project_scope,
    detected_sync_project, manual_commit_message, parse_backend_state_key, resolve_mode,
    resolve_sync_projects, session_branch, sync_plan, sync_repo, ResolveMode, SyncStep,
};
use riptsk::views::{
    display_mode, reorder_board, reorder_down, reorder_up, tree_child_prefix, tree_entry_line,
    ShiftDirection,
};

fn backend(kind: BackendKind, repo: Option<&str>, jira: Option<&str>) -> ProjectBackend {
    ProjectBackend {
        kind,
        host: None,
        repo: repo.map(|s| s.to_string()),
        jira_project: jira.map(|s| s.to_string()),
        path: None,
    }
}

fn project(name: &str, kind: BackendKind) -> RepoProject {
    RepoProject {
        name: name.into(),
        key: None,
        repo_project_label: None,
        tasks_backend: backend(kind, Some("o/r"), Some("org/PROJ")),
        vc_backend: backend(BackendKind::Github, Some("o/r"), None),
    }
}

fn config() -> Config {
    Config {
        projects: vec![
            project("gh", BackendKind::Github),
            project("local", BackendKind::Local),
            project("jira", BackendKind::Jira),
        ],
        ..Config::default()
    }
}

#[test]
fn sync_targets() {
    let config = config();
    let all = SyncArgs {
        scope: ScopeArgs {
            projects: Vec::new(),
            all_projects: true,
        },
        ..SyncArgs::default()
    };
    let names: Vec<String> = resolve_sync_projects(&all, &config)
        .unwrap()
        .unwrap()
        .iter()
        .map(|p| p.name.clone())
        .collect();
    assert_eq!(names, vec!["gh", "jira"]);
    let by_backend = SyncArgs {
        backend: Some("jira".into()),
        ..SyncArgs::default()
    };
    assert_eq!(
        resolve_sync_projects(&by_backend, &config).unwrap().unwrap().len(),
        1
    );
    let named = SyncArgs {
        scope: ScopeArgs {
            projects: vec!["jira".into(), "gh".into()],
            all_projects: false,
        },
        ..SyncArgs::default()
    };
    let names: Vec<String> = resolve_sync_projects(&named, &config)
        .unwrap()
        .unwrap()
        .iter()
        .map(|p| p.name.clone())
        .collect();
    assert_eq!(names, vec!["jira", "gh"]);
    let bad = SyncArgs {
        scope: ScopeArgs {
            projects: vec!["gh".into(), "local".into(), "zzz".into()],
            all_projects: false,
        },
        ..SyncArgs::default()
    };
    assert_eq!(
        resolve_sync_projects(&bad, &config).err(),
        Some(RiptskError::Config(
            "sync target must be github, gitlab, or jira: local".into()
        ))
    );
    let missing = SyncArgs {
        scope: ScopeArgs {
            projects: vec!["zzz".into()],
            all_projects: false,
        },
        ..SyncArgs::default()
    };
    assert_eq!(
        resolve_sync_projects(&missing, &config).err(),
        Some(RiptskError::Unregistered("zzz".into()))
    );
    assert!(resolve_sync_projects(&SyncArgs::default(), &config)
        .unwrap()
        .is_none());
    assert_eq!(
        detected_sync_project(&config, Some("gh")).map(|p| p.name.clone()),
        Ok("gh".into())
    );
    assert!(detected_sync_project(&config, Some("local")).is_err());
    assert!(detected_sync_project(&config, None).is_err());
}

#[test]
fn sync_plans() {
    let plan = sync_plan(&SyncArgs::default());
    assert_eq!(plan.len(), 2);
    assert!(matches!(plan[0], SyncStep::Pull(_)));
    assert!(matches!(plan[1], SyncStep::Push(_)));
    let pull = SyncArgs {
        subcommand: Some(SyncSubcommand::Pull(SyncPullPushArgs {
            ids: vec!["1".into()],
        })),
        ..SyncArgs::default()
    };
    match &sync_plan(&pull)[..] {
        [SyncStep::Pull(a)] => assert_eq!(a.ids, vec!["1"]),
        other => panic!("unexpected {other:?}"),
    }
}

#[test]
fn backend_state_keys() {
    assert_eq!(
        parse_backend_state_key("github:o/r:12"),
        Some(("github".to_string(), "o/r".to_string(), 12))
    );
    assert_eq!(
        parse_backend_state_key("jira:org:PROJ:7"),
        Some(("jira".to_string(), "org:PROJ".to_string(), 7))
    );
    assert_eq!(parse_backend_state_key("github:o/r"), None);
    assert_eq!(parse_backend_state_key("github:o/r:x"), None);
    assert_eq!(parse_backend_state_key("nocolon"), None);
    let config = config();
    let projects: Vec<&RepoProject> = config.projects.iter().collect();
    assert!(deleted_key_matches_project_scope("github:o/r:1", &projects));
    assert!(deleted_key_matches_project_scope("jira:org/PROJ:1", &projects));
    assert!(!deleted_key_matches_project_scope("gitlab:o/r:1", &projects));
    assert_eq!(sync_repo(&config.projects[2]).as_deref(), Some("org/PROJ"));
    assert_eq!(sync_repo(&config.projects[1]), None);
}

#[test]
fn resolve_and_session_checks() {
    let both = ResolveArgs {
        id: "1".into(),
        take_remote: true,
        take_local: true,
    };
    assert!(resolve_mode(&both).is_err());
    let remote = ResolveArgs {
        take_local: false,
        ..both.clone()
    };
    assert_eq!(resolve_mode(&remote), Ok(ResolveMode::TakeRemote));
    let edited = ResolveArgs {
        id: "1".into(),
        take_remote: false,
        take_local: false,
    };
    assert_eq!(resolve_mode(&edited), Ok(ResolveMode::Edited));
    assert_eq!(
        check_no_active_session(true),
        Err(RiptskError::Conflict("session already active".into()))
    );
    assert_eq!(
        check_active_session(false),
        Err(RiptskError::NotFound("no active session".into()))
    );
    assert_eq!(session_branch(Some("1-x"), "gen"), "1-x");
    assert_eq!(session_branch(None, "gen"), "gen");
    assert_eq!(manual_commit_message("now"), "riptask: manual commit now");
}

#[test]
fn views_decisions() {
    let args = IdArgs {
        scope: ScopeArgs::default(),
        pick: false,
        id: Some("T-1".into()),
    };
    assert_eq!(reorder_up(args.clone()).direction, ShiftDirection::Up);
    assert_eq!(reorder_down(args).direction, ShiftDirection::Down);
    let mut config = Config::default();
    assert_eq!(reorder_board(None, &config), "personal");
    config.boards.push(BoardConfig {
        name: "work".into(),
        statuses: Vec::new(),
    });
    assert_eq!(reorder_board(None, &config), "work");
    assert_eq!(reorder_board(Some("x"), &config), "x");
    assert_eq!(display_mode(true), IssueDisplayMode::AllProjects);
}

fn issue(title: &str) -> IssueDocument {
    IssueDocument {
        frontmatter: IssueFrontmatter {
            id: "T-1".into(),
            title: title.into(),
            status: IssueState::InProgress,
            board: "b".into(),
            project: "p\x07".into(),
            org: None,
            priority: Some(Priority::High),
            labels: Vec::new(),
            assignees: Vec::new(),
            milestone: None,
            state_reason: None,
            cycle: None,
            order: None,
            gitlab: None,
            github: None,
            jira: None,
            local_updated_at: String::new(),
            due: None,
            weight: None,
            confidential: None,
            discussion_locked: None,
            issue_type: None,
            locked: None,
            lock_reason: None,
            recurring: None,
            remote_deleted: false,
            id_slug: None,
            branch: None,
            pr_url: None,
            pr_number: None,
        },
        body: String::new(),
        remote_section: None,
    }
}

#[test]
fn picker_text() {
    assert_eq!(sanitize_control("a\tb\u{85}c"), "a b c");
    assert_eq!(truncate_title("short", 50), "short");
    assert_eq!(truncate_title("abcdef", 4), "abc\u{2026}");
    assert_eq!(truncate_title("ab\ncd", 5), "ab cd");
    assert_eq!(extract_hidden_id("#42  Title\tKEY--42 "), "KEY--42");
    assert_eq!(
        format_issue_plain(&issue("Fix\rit")),
        "T-1\thigh\tin-progress\tp \tFix it"
    );
    assert_eq!(
        selected_ids("a\tX-1\nb\t \nc\tX-3\n"),
        vec!["X-1", "X-3"]
    );
    assert_eq!(fzf_selection(true, "  line \n"), Some("line".into()));
    assert_eq!(fzf_selection(true, " \n"), None);
    assert_eq!(fzf_selection(false, "x"), None);
    let args = fzf_issue_args(Some("/d'ir"), &["--multi"]);
    assert_eq!(args.len(), 10);
    assert_eq!(
        args[7],
        "--preview=cat '/d'\\''ir/'{2}'.md' 2>/dev/null || echo 'No preview available'"
    );
    assert_eq!(args[9], "--multi");
    assert_eq!(fzf_issue_args(None, &[]).len(), 7);
}

#[test]
fn github_words() {
    assert_eq!(
        github_state_reason_to_string(IssueStateReason::NotPlanned),
        "not_planned"
    );
    assert_eq!(
        github_state_reason_to_string(IssueStateReason::Other),
        "completed"
    );
    assert_eq!(parse_github_issue_state("open"), Ok(GithubIssueState::Open));
    assert!(parse_github_issue_state("merged").is_err());
    assert_eq!(
        parse_github_state_reason("duplicate"),
        Ok(IssueStateReason::Duplicate)
    );
    assert_eq!(
        parse_github_state_reason("x"),
        Err(RiptskError::Config(
            "unsupported github issue state reason: x".into()
        ))
    );
    assert_eq!(parse_lock_reason("too heated"), Some(LockReason::TooHeated));
    assert_eq!(parse_lock_reason("nope"), None);
}

#[test]
fn github_mapping() {
    let info = GithubIssueInfo {
        number: 5,
        node_id: "N".into(),
        title: "T".into(),
        state: GithubIssueState::Closed,
        state_reason: Some(IssueStateReason::NotPlanned),
        labels: vec!["a".into()],
        assignees: vec!["me".into()],
        milestone: Some(("M".into(), -1)),
        body: None,
        html_url: "https://gh/5".into(),
        updated_at: "2024-01-01T00:00:00Z".into(),
        locked: true,
        active_lock_reason: Some("spam".into()),
    };
    let r = map_issue(&info);
    assert_eq!(r.state, "closed");
    assert_eq!(r.state_reason.as_deref(), Some("not_planned"));
    assert_eq!(r.milestone_id, None);
    assert_eq!(r.locked, Some(true));
    let pull = GithubPullInfo {
        number: 9,
        title: None,
        body: Some("b".into()),
        html_url: Some("https://gh/pull/9".into()),
        state: Some(GithubIssueState::Closed),
        merged: None,
        merged_at: Some("t".into()),
        head_ref: "feat".into(),
        head_sha: "abc".into(),
        base_ref: "main".into(),
        node_id: None,
        updated_at: None,
    };
    let pr = map_pull_request(&pull, "o/r").expect("pr");
    assert_eq!(pr.state, "merged");
    assert!(pr.merged);
    assert_eq!(pr.title, "");
    let no_url = GithubPullInfo {
        html_url: None,
        ..pull
    };
    assert_eq!(
        map_pull_request(&no_url, "o/r").err(),
        Some(RiptskError::Unreachable("missing PR url for o/r".into()))
    );
}

#[test]
fn workflow_files() {
    let wf = vec![
        ("a.yml".to_string(), "active".to_string()),
        ("b.yml".to_string(), "disabled_manually".to_string()),
        ("c.yml".to_string(), "disabled_inactivity".to_string()),
    ];
    assert_eq!(disabled_workflow_paths(&wf), vec!["b.yml", "c.yml"]);
    assert!(is_workflow_file("file", "ci.yaml"));
    assert!(!is_workflow_file("dir", "ci.yml"));
    assert!(!is_workflow_file("file", "README.md"));
    assert_eq!(
        decode_workflow_content(Some("bmFtZTog\nQ0kK"), Some("base64")).as_deref(),
        Some("name: CI\n")
    );
    assert_eq!(decode_workflow_content(Some("bmFtZQ=="), None), None);
    assert_eq!(decode_workflow_content(None, Some("base64")), None);
    assert_eq!(decode_workflow_content(Some("!!"), Some("base64")), None);
    assert_eq!(decode_workflow_content(Some("bmFtZR=="), Some("base64")), None);
    assert_eq!(decode_workflow_content(Some("bmFtZQ"), Some("base64")), None);
    assert_eq!(decode_workflow_content(Some("bmFtZQ=="), Some("base64")).as_deref(), Some("name"));
}

#[test]
fn board_tree_lines() {
    assert_eq!(tree_entry_line("", false, "todo", true), "├── todo/");
    assert_eq!(tree_entry_line("│   ", true, "T-1.md", false), "│   └── T-1.md");
    assert_eq!(tree_child_prefix("", true), "    ");
    assert_eq!(tree_child_prefix("    ", false), "    │   ");
}

#[test]
fn github_repo_is_split_at_the_first_slash() {
    assert_eq!(
        split_owner_repo("acme/app").unwrap(),
        ("acme".to_string(), "app".to_string())
    );
    assert_eq!(
        split_owner_repo("acme/app/extra").unwrap(),
        ("acme".to_string(), "app/extra".to_string())
    );
    match split_owner_repo("noslash") {
        Err(RiptskError::Config(m)) => assert_eq!(m, "invalid github repo: noslash"),
        other => panic!("unexpected {other:?}"),
    }
}

#[test]
fn branch_creation_graphql_bodies() {
    let linked: serde_json::Value =
        serde_json::from_str(&linked_branch_request("I_123", "abc", "7-fix")).unwrap();
    assert_eq!(linked["query"], LINKED_BRANCH_MUTATION);
    assert_eq!(linked["variables"]["issueId"], "I_123");
    assert_eq!(linked["variables"]["oid"], "abc");
    assert_eq!(linked["variables"]["name"], "7-fix");
    let plain: serde_json::Value =
        serde_json::from_str(&create_ref_request("R_9", "def", "topic")).unwrap();
    assert_eq!(plain["query"], CREATE_REF_MUTATION);
    assert_eq!(plain["variables"]["repoId"], "R_9");
    assert_eq!(plain["variables"]["name"], "refs/heads/topic");
    assert_eq!(plain["variables"]["oid"], "def");
}

#[test]
fn github_issue_deletion() {
    let body: serde_json::Value = serde_json::from_str(&delete_issue_request("I_7")).unwrap();
    assert_eq!(body["query"], DELETE_ISSUE_MUTATION);
    assert_eq!(body["variables"]["issueId"], "I_7");
    assert_eq!(delete_issue_answer(None), DeleteAnswer::Outcome(DeleteOutcome::HardDeleted));
    assert_eq!(
        delete_issue_answer(Some("[{\"message\":\"FORBIDDEN: must be admin\"}]")),
        DeleteAnswer::Outcome(DeleteOutcome::SoftClosed)
    );
    assert_eq!(
        delete_issue_answer(Some("status 403")),
        DeleteAnswer::Outcome(DeleteOutcome::SoftClosed)
    );
    assert_eq!(
        delete_issue_answer(Some("boom")),
        DeleteAnswer::Failed("deleteIssue failed: boom".into())
    );
}

#[test]
fn one_session_at_a_time() {
    let start = || SessionArgs {
        subcommand: SessionSubcommand::Start(SessionStartArgs { id: Some("7".into()), ..Default::default() }),
    };
    let end = || SessionArgs { subcommand: SessionSubcommand::End };
    let (r, active) = session(start(), false);
    assert!(matches!(r, Ok(SessionAction::Start(_))) && active);
    let (r, active) = session(start(), true);
    assert!(matches!(r, Err(RiptskError::Conflict(ref m)) if m == "session already active") && active);
    let (r, active) = session(end(), true);
    assert!(matches!(r, Ok(SessionAction::End)) && !active);
    let (r, active) = session(end(), false);
    assert!(matches!(r, Err(RiptskError::NotFound(ref m)) if m == "no active session") && !active);
}
