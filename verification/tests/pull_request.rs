use riptsk::backend::{MergeMethod, PrChecksStatus};
use riptsk::domain::BackendKind;
use riptsk::pull_request::{
    create_branch_guard, create_uses_ai, empty_branch_step, pr_branch_guard, pr_edit_draft,
    pr_edit_plan, EmptyBranchStep, PrEditDraft, PrEditPlan, EMPTY_BRANCH_COMMIT_MESSAGE,
};
use riptsk::done::{pr_number_plan, PrNumberPlan};
use riptsk::backend::BackendPrRecord;
use riptsk::error::RiptskError as GuardError;
use riptsk::pull_request::{
    body_with_description, checks_poll_step, ci_decision, create_ai_context, default_body,
    default_title, has_local_ci, head_update_step, jira_pr_title_and_body, merge_method_label,
    merge_prompt, parse_editor_buffer, parse_pr_number_from_url, pr_checks_status_label,
    pr_head_matches, render_editor_buffer, update_ai_context, ChecksPoll, CiDecision, HeadPoll,
};

#[test]
fn parses_github_pr_number_from_url() {
    assert_eq!(
        parse_pr_number_from_url("https://github.com/owner/repo/pull/123"),
        Some(123)
    );
}

#[test]
fn parses_gitlab_mr_number_from_url() {
    assert_eq!(
        parse_pr_number_from_url("https://gitlab.com/group/project/-/merge_requests/456"),
        Some(456)
    );
}

#[test]
fn builds_default_title_and_body() {
    assert_eq!(
        default_title(42, "Implement feature"),
        "Solves issue \"#42 Implement feature\""
    );
    assert_eq!(default_body(42), "Closes #42");
}

#[test]
fn parses_editor_buffer_with_body() {
    let parsed =
        parse_editor_buffer("PR Title\n\nLine one\nLine two").expect("parse editor buffer");
    assert_eq!(parsed.0, "PR Title");
    assert_eq!(parsed.1, "Line one\nLine two");
}

#[test]
fn parses_editor_buffer_without_body() {
    let parsed = parse_editor_buffer("PR Title\n").expect("parse editor buffer");
    assert_eq!(parsed.0, "PR Title");
    assert!(parsed.1.is_empty());
}

#[test]
fn pr_head_matches_github_format() {
    assert!(pr_head_matches("owner:42-fix-bug", "42-fix-bug"));
    assert!(!pr_head_matches("owner:42-fix-bug", "fix-bug"));
}

#[test]
fn pr_head_matches_gitlab_format() {
    assert!(pr_head_matches("42-fix-bug", "42-fix-bug"));
    assert!(!pr_head_matches("42-fix-bug", "fix-bug"));
}

#[test]
fn labels_merge_method_values() {
    assert_eq!(merge_method_label(MergeMethod::Merge), "merge");
    assert_eq!(merge_method_label(MergeMethod::Squash), "squash");
    assert_eq!(merge_method_label(MergeMethod::Rebase), "rebase");
}

#[test]
fn labels_check_status_values() {
    assert_eq!(pr_checks_status_label(PrChecksStatus::NoChecks), "none");
    assert_eq!(pr_checks_status_label(PrChecksStatus::Pending), "pending");
    assert_eq!(pr_checks_status_label(PrChecksStatus::Passed), "passed");
    assert_eq!(pr_checks_status_label(PrChecksStatus::Failed), "failed");
}

#[test]
fn pr_url_edge_cases() {
    assert_eq!(parse_pr_number_from_url("https://x/pull/7/"), Some(7));
    assert_eq!(parse_pr_number_from_url("https://x/pull/seven"), None);
    assert_eq!(parse_pr_number_from_url("12"), Some(12));
    assert_eq!(parse_pr_number_from_url(""), None);
}

#[test]
fn editor_buffer_errors_and_round_trip() {
    let err = parse_editor_buffer("  \nbody").expect_err("empty title");
    assert_eq!(err.to_string(), "PR title cannot be empty");
    let err = parse_editor_buffer("Title\nbody").expect_err("no blank line");
    assert_eq!(
        err.to_string(),
        "expected a blank line between title and body"
    );
    let parsed = parse_editor_buffer("Title\r\n\r\nBody\r\nmore").expect("crlf");
    assert_eq!(parsed.0, "Title");
    assert_eq!(parsed.1, "Body\nmore");
    let parsed = parse_editor_buffer("Only").expect("no newline");
    assert_eq!(parsed, ("Only".to_string(), String::new()));
    for (t, b) in [("T", ""), ("A title", "line\n\nmore\n"), ("X", "\nstarts blank")] {
        let text = render_editor_buffer(t, b);
        assert_eq!(
            parse_editor_buffer(&text).expect("round trip"),
            (t.to_string(), b.to_string())
        );
    }
    assert_eq!(render_editor_buffer("T", ""), "T\n");
    assert_eq!(render_editor_buffer("T", "B"), "T\n\nB");
}

#[test]
fn checks_wait_steps() {
    // no checks ever: once the time is up, proceed with none
    assert_eq!(
        checks_poll_step(false, PrChecksStatus::NoChecks, true, 42, 600),
        ChecksPoll::Finished(PrChecksStatus::NoChecks)
    );
    // checks registering late, then passing
    let mut saw = false;
    for status in [
        PrChecksStatus::NoChecks,
        PrChecksStatus::NoChecks,
        PrChecksStatus::Pending,
    ] {
        match checks_poll_step(saw, status, false, 42, 600) {
            ChecksPoll::KeepWaiting { saw_checks, .. } => saw = saw_checks,
            other => panic!("unexpected {other:?}"),
        }
    }
    assert!(saw);
    assert_eq!(
        checks_poll_step(saw, PrChecksStatus::Passed, false, 42, 600),
        ChecksPoll::Finished(PrChecksStatus::Passed)
    );
    // checks seen, then gone, then time up: error
    match checks_poll_step(true, PrChecksStatus::NoChecks, true, 42, 600) {
        ChecksPoll::Failed(e) => {
            assert!(e.to_string().contains("timed out"));
            assert_eq!(
                e.to_string(),
                "timed out after 600s waiting for checks on PR #42"
            );
        }
        other => panic!("unexpected {other:?}"),
    }
    match checks_poll_step(false, PrChecksStatus::Failed, false, 7, 600) {
        ChecksPoll::Failed(e) => assert_eq!(e.to_string(), "checks failed for PR #7"),
        other => panic!("unexpected {other:?}"),
    }
    match checks_poll_step(true, PrChecksStatus::NoChecks, false, 7, 600) {
        ChecksPoll::KeepWaiting { message, .. } => {
            assert_eq!(message, "checks: waiting for checks to reappear")
        }
        other => panic!("unexpected {other:?}"),
    }
}

#[test]
fn head_update_steps() {
    assert_eq!(
        head_update_step(Some("expected-sha"), "expected-sha", false, 42),
        HeadPoll::Updated
    );
    assert_eq!(
        head_update_step(Some("old-sha"), "expected-sha", false, 42),
        HeadPoll::KeepWaiting
    );
    match head_update_step(Some("old-sha"), "expected-sha", true, 42) {
        HeadPoll::TimedOut(e) => assert!(e
            .to_string()
            .contains("timed out waiting for PR #42 head to update after force push")),
        other => panic!("unexpected {other:?}"),
    }
}

#[test]
fn ci_decisions() {
    assert_eq!(ci_decision(false, false, false), CiDecision::Proceed);
    assert_eq!(ci_decision(true, false, false), CiDecision::WaitForChecks);
    assert_eq!(ci_decision(true, true, false), CiDecision::WaitForChecks);
    assert_eq!(ci_decision(false, true, false), CiDecision::AskWhetherToWait);
    assert_eq!(ci_decision(false, true, true), CiDecision::WaitForChecks);
    assert!(has_local_ci(BackendKind::Github, true, false));
    assert!(!has_local_ci(BackendKind::Github, false, true));
    assert!(has_local_ci(BackendKind::Gitlab, false, true));
    assert!(!has_local_ci(BackendKind::Jira, true, true));
}

#[test]
fn pr_texts() {
    assert_eq!(
        jira_pr_title_and_body("PROJ-1", "Fix"),
        ("PROJ-1: Fix".to_string(), "Jira: PROJ-1".to_string())
    );
    assert_eq!(body_with_description("Closes #1", "  \n"), "Closes #1");
    assert_eq!(
        body_with_description("Closes #1", " Adds X.\n"),
        "Closes #1\n\nAdds X."
    );
    assert_eq!(
        merge_prompt("My PR", MergeMethod::Squash),
        "merge 'My PR' via squash?"
    );
    assert_eq!(
        create_ai_context("T-1", "Title", "Body", "c1", "d1"),
        "Issue: T-1 Title\n\nIssue body:\nBody\n\nCommits:\nc1\n\nDiff:\nd1"
    );
    assert_eq!(
        update_ai_context("Title", "Body", "c", "d"),
        "Current PR title: Title\n\nCurrent PR body:\nBody\n\nCommits:\nc\n\nDiff:\nd"
    );
}

fn general(r: Result<String, GuardError>) -> String {
    match r {
        Err(GuardError::General(m)) => m,
        other => panic!("unexpected {other:?}"),
    }
}

#[test]
fn pr_create_needs_the_issue_branch_checked_out() {
    assert_eq!(general(create_branch_guard(None, "x")), "run `tsk branch` first");
    assert_eq!(
        general(create_branch_guard(Some("7-fix"), "main")),
        "current branch does not match issue branch"
    );
    assert_eq!(create_branch_guard(Some("7-fix"), "7-fix").unwrap(), "7-fix");
}

#[test]
fn pr_guards_in_order() {
    assert_eq!(general(pr_branch_guard("main", "T-1", true, None)), "protected branch: main");
    assert_eq!(general(pr_branch_guard("7-fix", "T-1", true, None)), "PR already exists for T-1");
    assert_eq!(
        general(pr_branch_guard("7-fix", "T-1", false, Some("8-other"))),
        "current branch does not match issue branch"
    );
    assert_eq!(pr_branch_guard("7-fix", "T-1", false, None).unwrap(), "7-fix");
    assert_eq!(pr_branch_guard("7-fix", "T-1", false, Some("7-fix")).unwrap(), "7-fix");
}

#[test]
fn empty_branch_decision() {
    assert_eq!(empty_branch_step(true, 2, true), EmptyBranchStep::Proceed);
    assert_eq!(empty_branch_step(false, 0, true), EmptyBranchStep::Proceed);
    assert_eq!(empty_branch_step(true, 0, false), EmptyBranchStep::EmptyCommit);
    assert_eq!(
        empty_branch_step(true, 0, true),
        EmptyBranchStep::Refuse(GuardError::General(
            "branch has no commits but has staged changes; commit or unstage them first".into()
        ))
    );
    assert!(EMPTY_BRANCH_COMMIT_MESSAGE.starts_with("chore: initialize branch for PR\n\n"));
}

#[test]
fn done_reuses_or_creates_the_pull_request() {
    let rec = BackendPrRecord {
        number: 17,
        head: "owner:7-fix".into(),
        base: "main".into(),
        ..Default::default()
    };
    assert_eq!(pr_number_plan(Some("7-fix"), "main", Some(&rec), Some(99)), PrNumberPlan::Reuse(17));
    assert_eq!(pr_number_plan(Some("7-fix"), "develop", Some(&rec), Some(99)), PrNumberPlan::Reuse(99));
    assert_eq!(pr_number_plan(Some("7-fix"), "develop", Some(&rec), None), PrNumberPlan::Create);
    assert_eq!(pr_number_plan(None, "main", Some(&rec), Some(99)), PrNumberPlan::Create);
    assert_eq!(pr_number_plan(Some("7-fix"), "main", None, Some(5)), PrNumberPlan::Reuse(5));
}

fn plan_update(title: &str, body: &str) -> PrEditPlan {
    PrEditPlan::Update { title: title.into(), body: body.into() }
}

#[test]
fn pr_edit_plan_cases() {
    assert_eq!(pr_edit_plan(Some("New"), None, "Old", "Body", true, false), plan_update("New", "Body"));
    assert_eq!(pr_edit_plan(None, Some("D"), "Old", "Body", false, true), plan_update("Old", "D"));
    assert_eq!(pr_edit_plan(Some("T"), Some("D"), "Old", "Body", true, false), plan_update("T", "D"));
    assert_eq!(
        pr_edit_plan(None, None, "Old", "Body", false, false),
        PrEditPlan::Editor { title: "Old".into(), body: "Body".into() }
    );
    assert_eq!(
        pr_edit_plan(None, None, "Old", "Body", true, true),
        PrEditPlan::Editor { title: "Old".into(), body: "Body".into() }
    );
    assert_eq!(pr_edit_plan(None, None, "Old", "Body", true, false), PrEditPlan::Generate);
}

#[test]
fn pr_edit_draft_cases() {
    assert_eq!(
        pr_edit_draft("T", "B", "", true),
        PrEditDraft::Editor { title: "T".into(), body: "B".into() }
    );
    assert_eq!(
        pr_edit_draft("T", "B", "  new body\n", true),
        PrEditDraft::Accept { title: "T".into(), body: "new body".into() }
    );
    assert_eq!(
        pr_edit_draft("T", "B", "  new body\n", false),
        PrEditDraft::Editor { title: "T".into(), body: "new body".into() }
    );
    assert_eq!(
        pr_edit_draft("T", "B", "   ", true),
        PrEditDraft::Accept { title: "T".into(), body: "".into() }
    );
}

#[test]
fn create_ai_gate() {
    assert!(create_uses_ai(true, false, false));
    assert!(!create_uses_ai(false, false, false));
    assert!(!create_uses_ai(true, true, false));
    assert!(!create_uses_ai(true, false, true));
}
