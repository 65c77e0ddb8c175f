use riptsk::ai_commands::{ask_context, backend, body_generation_input, optional_backend, summary_context};
use riptsk::branch::{
    backend_issue_number, branch_project, check_named_target, delete_target, is_protected_branch,
    issue_branch_for_delete, remote_branch_exists, remote_branch_missing, safe_delete_check,
    vc_issue_id, DeleteTarget,
};
use riptsk::cli::{CommitArgs, ConfigScope, ScopeFlags, StartArgs, SummarizeArgs};
use riptsk::commit::{
    commit_plan, confirm_choice, format_backend_cell, generated_commit, require_staged_changes,
    CommitPlan, ConfirmChoice, GeneratedCommit,
};
use riptsk::config_cmd::{
    config_set_scope, doctor_config_dump, doctor_env_line, doctor_layer_line, edit_target,
    pad_right, EditTarget,
};
use riptsk::domain::{
    AiConfig, BackendKind, Config, GithubIssueMeta, IssueDocument, IssueFrontmatter, IssueState,
    ProjectBackend, RepoProject,
};
use riptsk::done::{
    auto_stash_message, branch_to_restore, clear_branch_link, done_commit_message, done_route,
    is_branch_not_found_error, is_closed_state, mark_done_locally, DoneRoute,
};
use riptsk::error::RiptskError;
use riptsk::start::{branch_ready_message, opens_pr_now, should_auto_create_from_changes, start_mode, StartMode};
use riptsk::templates::{embedded_templates, template_file_name, template_name_required, validate_template_name};
use riptsk::work_clone::{check_clone_target, hook_action, unclone_check, work_clone_dir_name, HookAction, WorkCloneMarker};
use riptsk::cli::HooksSubcommand;

fn fm(id: &str, title: &str, project: &str) -> IssueFrontmatter {
    IssueFrontmatter {
        id: id.into(),
        title: title.into(),
        status: IssueState::Todo,
        board: "personal".into(),
        project: project.into(),
        org: None,
        priority: None,
        labels: Vec::new(),
        assignees: Vec::new(),
        milestone: None,
        state_reason: None,
        cycle: None,
        order: None,
        gitlab: None,
        github: None,
        jira: None,
        local_updated_at: "2025-01-01T00:00:00Z".into(),
        due: None,
        weight: None,
        confidential: None,
        discussion_locked: None,
        issue_type: None,
        locked: None,
        lock_reason: None,
        recurring: None,
        remote_deleted: false,
        id_slug: Some("1-x".into()),
        branch: Some("1-x".into()),
        pr_url: None,
        pr_number: None,
    }
}

fn doc(f: IssueFrontmatter) -> IssueDocument {
    IssueDocument {
        frontmatter: f,
        body: "body".into(),
        remote_section: None,
    }
}

fn backend_of(kind: BackendKind) -> ProjectBackend {
    ProjectBackend {
        kind,
        host: None,
        repo: Some("o/r".into()),
        jira_project: None,
        path: None,
    }
}

fn project(name: &str, tasks: BackendKind, vc: BackendKind) -> RepoProject {
    RepoProject {
        name: name.into(),
        key: None,
        repo_project_label: None,
        tasks_backend: backend_of(tasks),
        vc_backend: backend_of(vc),
    }
}

#[test]
fn done_routes() {
    let config = Config {
        projects: vec![
            project("hosted", BackendKind::Github, BackendKind::Github),
            project("local", BackendKind::Jira, BackendKind::Local),
        ],
        ..Config::default()
    };
    assert_eq!(
        done_route(&config, &doc(fm("T-1", "x", "hosted"))),
        Ok(DoneRoute::MergeBranch {
            branch: "1-x".into()
        })
    );
    assert_eq!(
        done_route(&config, &doc(fm("T-1", "x", "local"))),
        Ok(DoneRoute::IssueOnly)
    );
    let mut no_branch = fm("T-1", "x", "hosted");
    no_branch.branch = None;
    assert_eq!(done_route(&config, &doc(no_branch)), Ok(DoneRoute::IssueOnly));
    assert_eq!(
        done_route(&config, &doc(fm("T-1", "x", "nope"))),
        Err(RiptskError::Unregistered("nope".into()))
    );
}

#[test]
fn done_records() {
    let mut f = fm("T-1", "x", "p");
    mark_done_locally(&mut f, "2025-02-02T00:00:00Z");
    assert_eq!(f.status, IssueState::Done);
    assert_eq!(f.local_updated_at, "2025-02-02T00:00:00Z");
    assert!(f.branch.is_none() && f.id_slug.is_none());
    let mut g = fm("T-1", "x", "p");
    clear_branch_link(&mut g);
    assert!(g.branch.is_none() && g.id_slug.is_none());
    assert_eq!(g.status, IssueState::Todo);
    assert!(is_closed_state("CLOSED"));
    assert!(is_closed_state("closed"));
    assert!(!is_closed_state("open"));
    assert!(is_branch_not_found_error(&RiptskError::Unreachable(
        "HTTP 404".into()
    )));
    assert!(is_branch_not_found_error(&RiptskError::General(
        "Branch Not Found".into()
    )));
    assert!(!is_branch_not_found_error(&RiptskError::General("boom".into())));
    assert_eq!(done_commit_message("T-1", "Fix"), "riptask: done T-1 - Fix");
    assert_eq!(
        auto_stash_message("tsk done", "T-1", "feat", "now"),
        "tsk done: auto-stash (T-1 on feat) [now]"
    );
    assert_eq!(
        branch_to_restore(true, Some("feat"), Some("main")),
        Some("feat".to_string())
    );
    assert_eq!(branch_to_restore(true, Some("feat"), Some("feat")), None);
    assert_eq!(branch_to_restore(false, Some("feat"), Some("main")), None);
    assert_eq!(branch_to_restore(true, None, Some("main")), None);
}

#[test]
fn branch_decisions() {
    assert!(is_protected_branch("main"));
    assert!(is_protected_branch("trunk"));
    assert!(!is_protected_branch("feature"));
    assert_eq!(
        delete_target("main", None),
        DeleteTarget::RefuseCurrent("refusing to delete protected branch: main".into())
    );
    assert_eq!(
        delete_target("feat", None),
        DeleteTarget::Current("feat".into())
    );
    assert_eq!(
        delete_target("feat", Some("42")),
        DeleteTarget::IssueBranch("42".into())
    );
    assert_eq!(
        delete_target("feat", Some("KEY--42")),
        DeleteTarget::IssueBranch("KEY--42".into())
    );
    assert_eq!(
        delete_target("feat", Some("other")),
        DeleteTarget::Named("other".into())
    );
    assert!(check_named_target("develop").is_err());
    assert!(check_named_target("x").is_ok());
    assert_eq!(
        issue_branch_for_delete("T-1", None),
        Err(RiptskError::General("issue T-1 has no associated branch".into()))
    );
    assert!(safe_delete_check("b", "main", true, true).is_ok());
    assert_eq!(
        safe_delete_check("b", "main", true, false),
        Err(RiptskError::General(
            "branch 'b' is not fully merged into 'main'; use -D to force".into()
        ))
    );
    assert!(safe_delete_check("b", "main", false, true).is_err());
    assert!(remote_branch_missing(&RiptskError::General("HTTP 404".into())));
    assert!(remote_branch_exists(&RiptskError::General(
        "Reference Already Exists".into()
    )));
    assert_eq!(vc_issue_id(BackendKind::Jira, 5), None);
    assert_eq!(vc_issue_id(BackendKind::Github, 5), Some(5));
}

#[test]
fn branch_numbers_and_projects() {
    let mut f = fm("T-1", "x", "hosted");
    let hosted = project("hosted", BackendKind::Github, BackendKind::Github);
    assert_eq!(
        backend_issue_number(&hosted, &doc(f.clone())),
        Err(RiptskError::Config(
            "issue T-1 is missing backend metadata".into()
        ))
    );
    f.github = Some(GithubIssueMeta {
        repo: "o/r".into(),
        issue_id: Some(12),
        node_id: None,
        milestone_id: None,
        url: None,
        updated_at: String::new(),
        last_pushed_state: None,
    });
    assert_eq!(backend_issue_number(&hosted, &doc(f.clone())), Ok(12));
    let config = Config {
        projects: vec![
            hosted.clone(),
            project("loc", BackendKind::Local, BackendKind::Local),
        ],
        ..Config::default()
    };
    assert_eq!(branch_project(&config, &doc(f)).map(|p| p.name.clone()), Ok("hosted".into()));
    assert_eq!(
        branch_project(&config, &doc(fm("T", "x", "loc"))).map(|p| p.name.clone()),
        Err(RiptskError::Config(
            "cannot create remote branch for local-only project".into()
        ))
    );
}

#[test]
fn start_decisions() {
    let numeric = StartArgs {
        title_pos: Some("42".into()),
        ..StartArgs::default()
    };
    assert_eq!(
        start_mode(&numeric),
        StartMode::ExistingIssue {
            id_input: Some("42".into()),
            pick: false
        }
    );
    let titled = StartArgs {
        title_pos: Some("Fix login".into()),
        title: Some("ignored".into()),
        ..StartArgs::default()
    };
    assert_eq!(
        start_mode(&titled),
        StartMode::NewIssue {
            title: Some("Fix login".into())
        }
    );
    assert_eq!(
        start_mode(&StartArgs::default()),
        StartMode::ExistingIssue {
            id_input: None,
            pick: false
        }
    );
    let bare = StartArgs::default();
    assert!(should_auto_create_from_changes(&bare, false, true, "main", "main", true));
    assert!(!should_auto_create_from_changes(&bare, false, true, "HEAD", "HEAD", true));
    assert!(!should_auto_create_from_changes(&titled, false, true, "main", "main", true));
    assert!(!should_auto_create_from_changes(&bare, true, true, "main", "main", true));
    assert!(opens_pr_now(true, "feat", "main", 2));
    assert!(!opens_pr_now(true, "feat", "main", 0));
    assert!(!opens_pr_now(false, "feat", "main", 2));
    assert_eq!(
        branch_ready_message("1-x"),
        "Issue branch `1-x` ready. Commit your work, then run `tsk pr` to open the PR."
    );
}

#[test]
fn commit_decisions() {
    assert!(require_staged_changes(true).is_ok());
    assert_eq!(
        require_staged_changes(false),
        Err(RiptskError::General("no staged changes to commit".into()))
    );
    let given = CommitArgs {
        message: Some("m".into()),
        edit: true,
        ..CommitArgs::default()
    };
    assert_eq!(
        commit_plan(&given, true, true, true),
        CommitPlan::Given {
            message: "m".into(),
            edit: true
        }
    );
    assert_eq!(
        commit_plan(&CommitArgs::default(), true, true, true),
        CommitPlan::Generate
    );
    assert_eq!(
        commit_plan(&CommitArgs::default(), true, false, true),
        CommitPlan::Editor {
            seed: String::new()
        }
    );
    assert_eq!(
        generated_commit(&Ok("  feat: x \n".into())),
        GeneratedCommit::Message("feat: x".into())
    );
    assert_eq!(
        generated_commit(&Ok("  ".into())),
        GeneratedCommit::Fallback("AI returned an empty commit message; opening editor".into())
    );
    assert_eq!(confirm_choice(false, None), ConfirmChoice::Accept);
    assert_eq!(confirm_choice(true, Some(1)), ConfirmChoice::Edit);
    assert_eq!(confirm_choice(true, None), ConfirmChoice::Cancel);
}

#[test]
fn backend_cells() {
    assert_eq!(format_backend_cell("github", None, None, Some("/p")), "github@/p");
    assert_eq!(
        format_backend_cell("gitlab", Some("g.example"), Some("a/b"), None),
        "gitlab@g.example/a/b"
    );
    assert_eq!(format_backend_cell("github", None, Some("a/b"), None), "github@a/b");
    assert_eq!(format_backend_cell("jira", Some("h"), None, None), "jira@h");
    assert_eq!(format_backend_cell("local", None, None, None), "local");
}

#[test]
fn ai_contexts() {
    let config = Config {
        ai: AiConfig {
            command: Some("llm".into()),
            ..AiConfig::default()
        },
        ..Config::default()
    };
    assert_eq!(
        optional_backend(&config).map(|b| b.command_template),
        Some("llm".into())
    );
    assert!(backend(&Config::default()).is_err());
    let mut a = fm("A-1", "First", "p1");
    a.cycle = Some("c1".into());
    let b = fm("B-2", "Second", "p2");
    let issues = vec![doc(a), doc(b)];
    let all = SummarizeArgs::default();
    assert_eq!(summary_context(&issues, &all), "A-1 First\nB-2 Second\n");
    let only = SummarizeArgs {
        cycle: Some("c1".into()),
        ..SummarizeArgs::default()
    };
    assert_eq!(summary_context(&issues, &only), "A-1 First\n");
    assert_eq!(
        ask_context(&issues[..1]),
        "A-1 First\nbody\n\n"
    );
    assert_eq!(
        body_generation_input("T", "proj"),
        "Title: T\n\nContext:\nproj"
    );
}

#[test]
fn config_layers() {
    assert_eq!(
        config_set_scope(&ScopeFlags::default(), true),
        ConfigScope::Local
    );
    assert_eq!(
        config_set_scope(&ScopeFlags::default(), false),
        ConfigScope::User
    );
    let sys = ScopeFlags {
        system: true,
        ..ScopeFlags::default()
    };
    assert_eq!(config_set_scope(&sys, true), ConfigScope::System);
    assert_eq!(edit_target(&Vec::new()), EditTarget::NewLocal);
    assert_eq!(
        edit_target(&vec!["/a".into()]),
        EditTarget::Only("/a".into())
    );
    assert_eq!(
        edit_target(&vec!["/a".into(), "/b".into()]),
        EditTarget::Pick("/a\n/b".into())
    );
    assert_eq!(pad_right("user", 7), "user   ");
    assert_eq!(pad_right("toolong", 3), "toolong");
    assert_eq!(
        doctor_layer_line(ConfigScope::User, Some("/u.yaml"), true),
        "  [x] user    /u.yaml\n"
    );
    assert_eq!(
        doctor_layer_line(ConfigScope::System, Some("/s.yaml"), false),
        "  [ ] system  /s.yaml  (missing)\n"
    );
    assert_eq!(
        doctor_layer_line(ConfigScope::Local, None, false),
        "  [ ] local   (no path \u{2014} not inside a riptask project)\n"
    );
}

#[test]
fn templates_and_names() {
    let t = embedded_templates();
    assert_eq!(t[0].0, "task.md");
    assert_eq!(t[3].0, "weekly-review.md");
    assert!(t.iter().all(|(_, body)| !body.is_empty()));
    assert!(validate_template_name("bug").is_ok());
    for bad in ["", "a/b", "a\\b", "..", "x..y"] {
        assert_eq!(
            validate_template_name(bad),
            Err(RiptskError::General(format!("invalid template name: {bad}")))
        );
    }
    assert_eq!(template_file_name("bug"), "bug.md");
    assert!(template_name_required(None).is_err());
}

#[test]
fn work_clones_and_hooks() {
    assert_eq!(work_clone_dir_name("repo", "1-x"), "repo.1-x");
    assert!(check_clone_target("/t", false).is_ok());
    assert!(check_clone_target("/t", true).is_err());
    let marker = WorkCloneMarker {
        main_repo_path: "/main".into(),
        branch: "1-x".into(),
        issue_id: "T-1".into(),
        remote_url: "git@x".into(),
    };
    assert_eq!(
        unclone_check(None, true, false, false),
        Err(RiptskError::General("not a work-clone".into()))
    );
    assert_eq!(
        unclone_check(Some(&marker), false, false, false),
        Err(RiptskError::General("main repo path does not exist: /main".into()))
    );
    assert!(unclone_check(Some(&marker), true, false, true).is_err());
    assert!(unclone_check(Some(&marker), true, true, true).is_ok());
    assert_eq!(
        hook_action(Some(HooksSubcommand::Install { force: false }), false),
        HookAction::Write
    );
    assert_eq!(hook_action(None, true), HookAction::ReportInstalled);
    assert_eq!(
        hook_action(None, false),
        HookAction::NotInstalled(RiptskError::General("hook not installed".into()))
    );
    assert_eq!(
        hook_action(Some(HooksSubcommand::Uninstall { force: false }), false),
        HookAction::Nothing
    );
}

#[test]
fn doctor_env_and_config_lines() {
    assert_eq!(doctor_env_line("HOME", Some("/home/a")), "  HOME             = /home/a\n");
    assert_eq!(doctor_env_line("EDITOR", None), "  EDITOR           = (unset)\n");
    assert_eq!(doctor_config_dump("a: 1\nb:\n  - x\n"), "  a: 1\n  b:\n    - x\n");
    assert_eq!(doctor_config_dump(""), "");
}
