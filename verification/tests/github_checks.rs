use riptsk::backend::{PrCheckItem, PrChecksStatus};
use riptsk::text::text_lt;
use riptsk::github_checks::{
    build_checks_report, collect_github_check_items, collect_registered_names,
    github_pattern_matches, is_fail_state, is_fork_pr, is_pass_state, is_pending_state,
    merge_expected_names, merge_pr_check_item, merge_pr_check_states, rollup_report_status,
    workflow_matches_pr, BranchFilter, CheckRunInfo, ChecksInputs, CommitStatusInfo,
    CommitStatusState, OnTriggers, WorkflowRunInfo, WorkflowSpec, WorkflowTriggerMap,
};

#[test]
fn workflow_dispatch_only_is_not_expected() {
    let spec = WorkflowSpec {
        name: Some("dispatch".into()),
        path: ".github/workflows/dispatch.yml".into(),
        on: OnTriggers::Mapping(WorkflowTriggerMap {
            workflow_dispatch: true,
            ..WorkflowTriggerMap::default()
        }),
    };
    assert!(!workflow_matches_pr(&spec, "main", "feature"));
}

#[test]
fn pull_request_trigger_matches_base_branch() {
    let spec = WorkflowSpec {
        name: Some("ci".into()),
        path: ".github/workflows/ci.yml".into(),
        on: OnTriggers::Mapping(WorkflowTriggerMap {
            pull_request: Some(BranchFilter {
                branches: vec!["main".into()],
                branches_ignore: Vec::new(),
            }),
            ..WorkflowTriggerMap::default()
        }),
    };
    assert!(workflow_matches_pr(&spec, "main", "feature"));
    assert!(!workflow_matches_pr(&spec, "release", "feature"));
}

#[test]
fn rollup_prefers_failed_over_passed() {
    let items = vec![
        PrCheckItem {
            name: "ci".into(),
            state: PrChecksStatus::Passed,
            url: None,
        },
        PrCheckItem {
            name: "lint".into(),
            state: PrChecksStatus::Failed,
            url: None,
        },
    ];
    let expected = vec!["ci".to_string(), "lint".to_string()];
    let registered = expected.clone();
    assert_eq!(
        rollup_report_status(&expected, &registered, &items, false),
        PrChecksStatus::Failed
    );
    assert_eq!(
        merge_pr_check_states(PrChecksStatus::Passed, PrChecksStatus::Failed),
        PrChecksStatus::Failed
    );
}

#[test]
fn glob_patterns_follow_github_rules() {
    assert!(github_pattern_matches("main", "main"));
    assert!(!github_pattern_matches("main", "main2"));
    assert!(github_pattern_matches("release/*", "release/1.0"));
    assert!(!github_pattern_matches("release/*", "release/1/2"));
    assert!(github_pattern_matches("release/**", "release/1/2"));
    assert!(github_pattern_matches("feature-?", "feature-x"));
    assert!(!github_pattern_matches("feature-?", "feature-xy"));
    assert!(github_pattern_matches("v1.0", "v1.0"));
    assert!(!github_pattern_matches("v1.0", "v1x0"));
    assert!(github_pattern_matches("a+b", "a+b"));
}

#[test]
fn branch_filter_ignores_and_defaults_to_all() {
    let any = BranchFilter::default();
    assert!(any.matches("whatever"));
    let filter = BranchFilter {
        branches: vec!["**".into()],
        branches_ignore: vec!["docs/*".into()],
    };
    assert!(filter.matches("feature/x"));
    assert!(!filter.matches("docs/readme"));
}

#[test]
fn single_and_list_triggers() {
    let single = WorkflowSpec {
        name: None,
        path: "w.yml".into(),
        on: OnTriggers::Single("push".into()),
    };
    assert!(workflow_matches_pr(&single, "main", "x"));
    let schedule = WorkflowSpec {
        name: None,
        path: "w.yml".into(),
        on: OnTriggers::Single("schedule".into()),
    };
    assert!(!workflow_matches_pr(&schedule, "main", "x"));
    let list = WorkflowSpec {
        name: None,
        path: "w.yml".into(),
        on: OnTriggers::List(vec!["schedule".into(), "pull_request_target".into()]),
    };
    assert!(workflow_matches_pr(&list, "main", "x"));
    let absent = WorkflowSpec {
        name: None,
        path: "w.yml".into(),
        on: OnTriggers::default(),
    };
    assert!(!workflow_matches_pr(&absent, "main", "x"));
}

#[test]
fn push_filter_applies_to_head_branch() {
    let spec = WorkflowSpec {
        name: None,
        path: "w.yml".into(),
        on: OnTriggers::Mapping(WorkflowTriggerMap {
            push: Some(BranchFilter {
                branches: vec!["feat/*".into()],
                branches_ignore: Vec::new(),
            }),
            ..WorkflowTriggerMap::default()
        }),
    };
    assert!(workflow_matches_pr(&spec, "main", "feat/a"));
    assert!(!workflow_matches_pr(&spec, "feat/a", "main"));
}

#[test]
fn conservative_default_and_resolved_name() {
    let spec = WorkflowSpec::conservative_default(".github/workflows/x.yml".into());
    assert_eq!(spec.resolved_name(), ".github/workflows/x.yml");
    assert!(workflow_matches_pr(&spec, "anything", "else"));
    let unnamed = WorkflowSpec {
        name: None,
        path: "p.yml".into(),
        on: OnTriggers::Absent,
    };
    assert_eq!(unnamed.resolved_name(), "p.yml");
    let map = WorkflowTriggerMap::pull_request_any();
    assert!(map.pull_request.is_some());
    assert!(map.push.is_none());
}

#[test]
fn merge_states_is_a_lattice() {
    let all = [
        PrChecksStatus::NoChecks,
        PrChecksStatus::Passed,
        PrChecksStatus::Pending,
        PrChecksStatus::Failed,
    ];
    for a in all {
        assert_eq!(merge_pr_check_states(a, a), a);
        assert_eq!(merge_pr_check_states(PrChecksStatus::NoChecks, a), a);
        for b in all {
            assert_eq!(merge_pr_check_states(a, b), merge_pr_check_states(b, a));
            for c in all {
                assert_eq!(
                    merge_pr_check_states(merge_pr_check_states(a, b), c),
                    merge_pr_check_states(a, merge_pr_check_states(b, c))
                );
            }
        }
    }
    assert_eq!(
        merge_pr_check_states(PrChecksStatus::Pending, PrChecksStatus::Passed),
        PrChecksStatus::Pending
    );
    assert_eq!(
        merge_pr_check_states(PrChecksStatus::Passed, PrChecksStatus::NoChecks),
        PrChecksStatus::Passed
    );
}

#[test]
fn state_words() {
    assert!(is_pass_state("success"));
    assert!(is_pass_state("neutral"));
    assert!(!is_pass_state("failure"));
    assert!(is_fail_state("timed_out"));
    assert!(is_fail_state("stale"));
    assert!(!is_fail_state("success"));
    assert!(is_pending_state("queued"));
    assert!(!is_pending_state("completed"));
}

#[test]
fn rollup_cases() {
    let none: Vec<String> = Vec::new();
    assert_eq!(
        rollup_report_status(&none, &none, &[], false),
        PrChecksStatus::NoChecks
    );
    assert_eq!(
        rollup_report_status(&none, &none, &[], true),
        PrChecksStatus::Pending
    );
    let expected = vec!["ci".to_string()];
    let items = vec![PrCheckItem {
        name: "ci".into(),
        state: PrChecksStatus::Passed,
        url: None,
    }];
    assert_eq!(
        rollup_report_status(&expected, &expected, &items, false),
        PrChecksStatus::Passed
    );
    // expected but not registered yet: still pending
    assert_eq!(
        rollup_report_status(&expected, &none, &items, false),
        PrChecksStatus::Pending
    );
    // a failure of an unrelated check does not count
    let other = vec![PrCheckItem {
        name: "other".into(),
        state: PrChecksStatus::Failed,
        url: None,
    }];
    assert_eq!(
        rollup_report_status(&expected, &expected, &other, false),
        PrChecksStatus::Passed
    );
}

#[test]
fn expected_names_are_sorted_and_unique() {
    let names = merge_expected_names([
        vec!["lint".to_string(), "ci".to_string()],
        vec!["ci".to_string(), "build".to_string()],
        vec!["test".to_string()],
    ]);
    assert_eq!(names, vec!["build", "ci", "lint", "test"]);
    assert!(text_lt("ab", "b"));
    assert!(text_lt("a", "ab"));
    assert!(!text_lt("b", "ab"));
    assert!(!text_lt("a", "a"));
}

fn run(name: &str, conclusion: Option<&str>, details: Option<&str>) -> CheckRunInfo {
    CheckRunInfo {
        name: name.into(),
        conclusion: conclusion.map(|c| c.to_string()),
        details_url: details.map(|c| c.to_string()),
        html_url: Some(format!("https://h/{name}")),
    }
}

#[test]
fn check_items_merge_by_name() {
    let runs = vec![
        run("ci", Some("success"), None),
        run("ci", None, Some("https://d/ci")),
        run("audit", Some("failure"), Some("https://d/audit")),
    ];
    let wf = vec![WorkflowRunInfo {
        name: "build".into(),
        status: "completed".into(),
        conclusion: Some("skipped".into()),
        html_url: "https://w/build".into(),
    }];
    let statuses = vec![
        CommitStatusInfo {
            context: Some("ci".into()),
            state: CommitStatusState::Error,
            target_url: None,
        },
        CommitStatusInfo {
            context: None,
            state: CommitStatusState::Success,
            target_url: None,
        },
    ];
    let items = collect_github_check_items(&runs, &wf, &statuses);
    let names: Vec<&str> = items.iter().map(|i| i.name.as_str()).collect();
    assert_eq!(names, vec!["audit", "build", "ci"]);
    assert_eq!(items[0].state, PrChecksStatus::Failed);
    assert_eq!(items[1].state, PrChecksStatus::Passed);
    assert_eq!(items[1].url.as_deref(), Some("https://w/build"));
    assert_eq!(items[2].state, PrChecksStatus::Failed);
    assert_eq!(items[2].url.as_deref(), Some("https://h/ci"));
    let registered = collect_registered_names(&runs, &wf, &statuses);
    assert_eq!(registered, vec!["audit", "build", "ci"]);
}

#[test]
fn merge_item_keeps_first_link() {
    let mut items = Vec::new();
    merge_pr_check_item(&mut items, "ci".into(), PrChecksStatus::Passed, None);
    merge_pr_check_item(
        &mut items,
        "ci".into(),
        PrChecksStatus::Pending,
        Some("u1".into()),
    );
    merge_pr_check_item(
        &mut items,
        "ci".into(),
        PrChecksStatus::Passed,
        Some("u2".into()),
    );
    merge_pr_check_item(&mut items, "a".into(), PrChecksStatus::NoChecks, None);
    assert_eq!(items.len(), 2);
    assert_eq!(items[0].name, "a");
    assert_eq!(items[1].state, PrChecksStatus::Pending);
    assert_eq!(items[1].url.as_deref(), Some("u1"));
}

#[test]
fn fork_detection() {
    assert!(is_fork_pr(Some("me/repo"), None, "owner/repo"));
    assert!(!is_fork_pr(Some("owner/repo"), Some(true), "owner/repo"));
    assert!(is_fork_pr(None, Some(true), "owner/repo"));
    assert!(!is_fork_pr(None, None, "owner/repo"));
}

#[test]
fn report_from_fetched_facts() {
    let inputs = ChecksInputs {
        head_sha: "abc".into(),
        base_ref: "main".into(),
        head_ref: "feat".into(),
        is_fork: false,
        suite_statuses: vec![Some("queued".into())],
        check_runs: vec![run("CI", Some("success"), None)],
        workflow_runs: Vec::new(),
        statuses: Vec::new(),
        ruleset_contexts: vec!["lint".into()],
        classic_contexts: Vec::new(),
        workflow_specs: vec![
            WorkflowSpec {
                name: Some("CI".into()),
                path: "ci.yml".into(),
                on: OnTriggers::Single("pull_request".into()),
            },
            WorkflowSpec {
                name: Some("Old".into()),
                path: "old.yml".into(),
                on: OnTriggers::Single("pull_request".into()),
            },
        ],
        disabled_workflow_paths: vec!["old.yml".into()],
        fetch_warnings: vec!["w1".into()],
        workflow_warnings: vec!["w2".into()],
    };
    let report = build_checks_report(&inputs);
    assert_eq!(report.head_sha, "abc");
    assert_eq!(report.expected, vec!["CI", "lint"]);
    assert_eq!(report.registered, vec!["CI"]);
    assert_eq!(report.status, PrChecksStatus::Pending);
    assert_eq!(report.warnings, vec!["w1", "w2"]);

    let mut fork = inputs.clone();
    fork.is_fork = true;
    fork.ruleset_contexts = Vec::new();
    let report = build_checks_report(&fork);
    assert!(report.expected.is_empty());
    assert_eq!(report.status, PrChecksStatus::Pending);
    assert_eq!(
        report.warnings,
        vec![
            "w1",
            "fork PR: workflow-derived expectations may not run for first-time contributors",
            "w2"
        ]
    );
}
