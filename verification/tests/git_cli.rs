use riptsk::error::RiptskError;
use riptsk::git::{
    base_range, build_askpass_script, delete_branch_flag, find_commit_by_subject,
    git_failure_message, lists_any_ref, require_clean_working_tree, staged_changes_from_exit,
    staged_diff_base, stash_pop_outcome, stash_push_outcome, truncate_diff, try_stash_pop, CliGit,
    GitHttpAuth, StashPopNotice, MAX_DIFF_CHARS,
};

#[test]
fn builds_askpass_script_with_shell_escaped_token() {
    let script = build_askpass_script("glpat-token'with-quote");

    assert_eq!(
        script,
        "#!/bin/sh\ncase \"$1\" in\n  Username*) echo \"oauth2\" ;;\n  *) echo 'glpat-token'\\''with-quote' ;;\nesac\n"
    );
}

#[test]
fn askpass_keeps_safe_tokens_bare() {
    assert!(build_askpass_script("abc123").contains("*) echo abc123 ;;"));
}

#[test]
fn client_settings() {
    assert!(CliGit::new().auth().is_none());
    assert!(CliGit::default().auth().is_none());
    let git = CliGit::with_auth(Some(GitHttpAuth {
        token: "t".into(),
    }));
    assert_eq!(git.auth().as_ref().map(|a| a.token.as_str()), Some("t"));
}

#[test]
fn dirty_tree_refusal_names_command() {
    assert!(require_clean_working_tree(false, "tsk done").is_ok());
    match require_clean_working_tree(true, "tsk pr merge") {
        Err(RiptskError::General(m)) => {
            assert!(m.contains("tsk pr merge"), "message names command: {m}");
            assert!(m.contains("git status"), "message hints recovery: {m}");
        }
        other => panic!("unexpected {other:?}"),
    }
}

#[test]
fn stash_outcomes() {
    assert_eq!(stash_pop_outcome(true, ""), Ok(true));
    assert_eq!(
        stash_pop_outcome(false, "error: could not restore untracked files from stash"),
        Ok(false)
    );
    assert_eq!(stash_pop_outcome(false, "CONFLICT (content)"), Ok(false));
    assert_eq!(
        stash_pop_outcome(false, "  fatal: bad  \n"),
        Err(RiptskError::General("git stash pop failed: fatal: bad".into()))
    );
    assert!(stash_push_outcome("Saved working directory"));
    assert!(!stash_push_outcome("No local changes to save\n"));
    assert_eq!(
        try_stash_pop(&Ok(true)),
        StashPopNotice::Restored("restored auto-stashed changes".into())
    );
    match try_stash_pop(&Err(RiptskError::General("boom".into()))) {
        StashPopNotice::Kept(m) => assert!(m.starts_with("failed to restore stashed changes: boom;")),
        other => panic!("unexpected {other:?}"),
    }
}

#[test]
fn failure_messages() {
    assert_eq!(
        git_failure_message(&["push", "origin"], " denied \n", "exit status: 1"),
        "`git push origin` failed: denied"
    );
    assert_eq!(
        git_failure_message(&["fetch"], "", "exit status: 128"),
        "`git fetch` failed (exit exit status: 128)"
    );
}

#[test]
fn finds_commit_by_subject() {
    let log = "aaa\nfirst\nbbb\nchore: initialize branch for PR\nccc\nlast\n";
    assert_eq!(
        find_commit_by_subject(log, "chore: initialize branch for PR"),
        Some("bbb".to_string())
    );
    assert_eq!(find_commit_by_subject(log, "missing"), None);
    assert_eq!(find_commit_by_subject("aaa", "aaa"), None);
}

#[test]
fn diff_is_cut_at_char_boundary() {
    let short = "small diff".to_string();
    assert_eq!(truncate_diff(short.clone()), short);
    let long = "é".repeat(5000);
    let cut = truncate_diff(long);
    assert!(cut.len() <= MAX_DIFF_CHARS);
    assert_eq!(cut.len(), 8000);
    let odd = format!("a{}", "é".repeat(5000));
    let cut = truncate_diff(odd);
    assert_eq!(cut.len(), 7999);
}

#[test]
fn small_git_words() {
    assert_eq!(delete_branch_flag(true), "-D");
    assert_eq!(delete_branch_flag(false), "-d");
    assert_eq!(base_range("main", "feat"), "origin/main..feat");
    assert_eq!(staged_diff_base(true), "HEAD");
    assert_eq!(
        staged_diff_base(false),
        "4b825dc642cb6eb9a060e54bf8d69288fbee4904"
    );
    assert_eq!(staged_changes_from_exit(Some(0)), Some(false));
    assert_eq!(staged_changes_from_exit(Some(1)), Some(true));
    assert_eq!(staged_changes_from_exit(Some(2)), None);
    assert!(!lists_any_ref(b" \n\t"));
    assert!(lists_any_ref(b"abc\trefs/heads/main\n"));
}
