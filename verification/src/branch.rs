//! `tsk branch`: which branch is meant, which may be deleted and when, and
//! which remote issue number a branch is made for.

use crate::cli::BranchArgs;
use crate::domain::{BackendKind, Config, IssueDocument, RepoProject};
use crate::error::RiptskError;
use crate::pull_request::find_project;
use crate::text::{
    chars_of, concat2, concat3, contains, is_digit, str_contains, str_eq, to_lowercase,
    unicode_lowercase,
};
use vstd::prelude::*;

verus! {

/// Branches that are never deleted.
pub open spec fn protected_branch(branch: Seq<char>) -> bool {
    branch == "main"@ || branch == "master"@ || branch == "develop"@ || branch == "devel"@
        || branch == "dev"@ || branch == "trunk"@
}

/// Exactly `main`, `master`, `develop`, `devel`, `dev` and `trunk` are
/// protected: naming any of them for deletion is refused, and none of them
/// is deleted as the current branch; any other branch may be.
pub proof fn lemma_protected_branch_names(branch: Seq<char>)
    ensures
        protected_branch(branch) <==> (branch == "main"@ || branch == "master"@ || branch
            == "develop"@ || branch == "devel"@ || branch == "dev"@ || branch == "trunk"@),
{
}

/// Whether a branch is protected from deletion.
pub fn is_protected_branch(branch: &str) -> (r: bool)
    ensures
        r == protected_branch(branch@),
{
    str_eq(branch, "main") || str_eq(branch, "master") || str_eq(branch, "develop") || str_eq(
        branch,
        "devel",
    ) || str_eq(branch, "dev") || str_eq(branch, "trunk")
}

/// The issue number on a project's tracker that an issue records.
pub open spec fn recorded_issue_number(p: RepoProject, issue: IssueDocument) -> Option<u64> {
    let fm = issue.frontmatter;
    match p.tasks_backend.kind {
        BackendKind::Github => match fm.github {
            Some(m) => m.issue_id,
            None => None,
        },
        BackendKind::Gitlab => match fm.gitlab {
            Some(m) => m.issue_id,
            None => None,
        },
        BackendKind::Jira => match fm.jira {
            Some(m) => m.issue_id,
            None => None,
        },
        BackendKind::Local => None,
    }
}

/// The issue's number on its project's tracker, or a `Config` error when
/// the issue does not record one.
pub fn backend_issue_number(repo_project: &RepoProject, issue: &IssueDocument) -> (r: Result<
    u64,
    RiptskError,
>)
    ensures
        match recorded_issue_number(*repo_project, *issue) {
            Some(n) => r == Ok::<u64, RiptskError>(n),
            None => r matches Err(RiptskError::Config(m)) && m@ == "issue "@ + issue.frontmatter.id@
                + " is missing backend metadata"@,
        },
{
    let number = match repo_project.tasks_backend.kind {
        BackendKind::Github => match &issue.frontmatter.github {
            Some(m) => m.issue_id,
            None => None,
        },
        BackendKind::Gitlab => match &issue.frontmatter.gitlab {
            Some(m) => m.issue_id,
            None => None,
        },
        BackendKind::Jira => match &issue.frontmatter.jira {
            Some(m) => m.issue_id,
            None => None,
        },
        BackendKind::Local => None,
    };
    match number {
        Some(n) => Ok(n),
        None => Err(
            RiptskError::Config(
                concat3("issue ", issue.frontmatter.id.as_str(), " is missing backend metadata"),
            ),
        ),
    }
}

/// Whether `tsk branch` deletes (with `-d` or `-D`) rather than creates.
pub fn branch_deletes(args: &BranchArgs) -> (r: bool)
    ensures
        r == (args.delete || args.force_delete),
{
    args.delete || args.force_delete
}

/// The project an issue's branch is made in: registered, and with hosted
/// version control.
pub fn branch_project<'a>(config: &'a Config, issue: &IssueDocument) -> (r: Result<
    &'a RepoProject,
    RiptskError,
>)
    ensures
        match r {
            Ok(p) => exists|i: int|
                0 <= i < config.projects@.len() && config.projects@[i] == *p && p.name@
                    == issue.frontmatter.project@ && p.vc_backend.kind != BackendKind::Local
                    && forall|k: int|
                    0 <= k < i ==> #[trigger] config.projects@[k].name@
                        != issue.frontmatter.project@,
            Err(e) => match e {
                RiptskError::Unregistered(m) => m@ == issue.frontmatter.project@ && forall|k: int|
                    0 <= k < config.projects@.len() ==> #[trigger] config.projects@[k].name@
                        != issue.frontmatter.project@,
                RiptskError::Config(m) => m@
                    == "cannot create remote branch for local-only project"@ && exists|i: int|
                    0 <= i < config.projects@.len() && config.projects@[i].name@
                        == issue.frontmatter.project@
                        && config.projects@[i].vc_backend.kind == BackendKind::Local && forall|
                        k: int,
                    |
                        0 <= k < i ==> #[trigger] config.projects@[k].name@
                            != issue.frontmatter.project@,
                _ => false,
            },
        },
{
    match find_project(config, issue.frontmatter.project.as_str()) {
        None => Err(RiptskError::Unregistered(issue.frontmatter.project.clone())),
        Some(i) => {
            let p = &config.projects[i];
            if p.vc_backend.kind == BackendKind::Local {
                Err(
                    RiptskError::Config(
                        String::from_str("cannot create remote branch for local-only project"),
                    ),
                )
            } else {
                Ok(p)
            }
        },
    }
}

/// The issue number given to the version-control host when the branch is
/// made: none for Jira trackers, whose numbers mean nothing there.
pub fn vc_issue_id(tasks_kind: BackendKind, issue_number: u64) -> (r: Option<u64>)
    ensures
        r == if tasks_kind == BackendKind::Jira {
            None
        } else {
            Some(issue_number)
        },
{
    if tasks_kind == BackendKind::Jira {
        None
    } else {
        Some(issue_number)
    }
}

/// An input that names an issue rather than a branch: all ASCII digits, or
/// holding `--`.
pub open spec fn names_issue(input: Seq<char>) -> bool {
    (forall|i: int| 0 <= i < input.len() ==> is_digit(#[trigger] input[i])) || contains(
        input,
        "--"@,
    )
}

fn all_digits(s: &str) -> (r: bool)
    ensures
        r == forall|i: int| 0 <= i < s@.len() ==> is_digit(#[trigger] s@[i]),
{
    let v = chars_of(s);
    let mut i: usize = 0;
    while i < v.len()
        invariant
            v@ == s@,
            i <= v@.len(),
            forall|k: int| 0 <= k < i ==> is_digit(#[trigger] v@[k]),
        decreases v@.len() - i,
    {
        if !('0' <= v[i] && v[i] <= '9') {
            assert(!is_digit(v@[i as int]));
            return false;
        }
        i += 1;
    }
    true
}

/// Which branch `tsk branch -d` deletes.
#[derive(Debug, Clone, PartialEq, Eq)]
pub enum DeleteTarget {
    /// The branch of the issue with this id.
    IssueBranch(String),
    /// This branch, named on the command line.
    Named(String),
    /// The current branch.
    Current(String),
    /// The current branch is protected: warn and do nothing.
    RefuseCurrent(String),
}

/// The target of a branch deletion: the named issue's branch or the named
/// branch when one is given, else the current branch unless it is
/// protected.
pub fn delete_target(current: &str, input: Option<&str>) -> (r: DeleteTarget)
    ensures
        match input {
            Some(i) => if names_issue(i@) {
                r matches DeleteTarget::IssueBranch(s) && s@ == i@
            } else {
                r matches DeleteTarget::Named(s) && s@ == i@
            },
            None => if protected_branch(current@) {
                r matches DeleteTarget::RefuseCurrent(m) && m@
                    == "refusing to delete protected branch: "@ + current@
            } else {
                r matches DeleteTarget::Current(s) && s@ == current@
            },
        },
{
    match input {
        Some(i) => {
            if all_digits(i) || str_contains(i, "--") {
                DeleteTarget::IssueBranch(String::from_str(i))
            } else {
                DeleteTarget::Named(String::from_str(i))
            }
        },
        None => {
            if is_protected_branch(current) {
                DeleteTarget::RefuseCurrent(
                    concat2("refusing to delete protected branch: ", current),
                )
            } else {
                DeleteTarget::Current(String::from_str(current))
            }
        },
    }
}

/// A branch named on the command line (directly or through its issue) may
/// not be a protected one.
pub fn check_named_target(target: &str) -> (r: Result<(), RiptskError>)
    ensures
        !protected_branch(target@) ==> r is Ok,
        protected_branch(target@) ==> (r matches Err(RiptskError::General(m)) && m@
            == "cannot delete protected branch: "@ + target@),
{
    if is_protected_branch(target) {
        Err(RiptskError::General(concat2("cannot delete protected branch: ", target)))
    } else {
        Ok(())
    }
}

/// The branch of the issue named for deletion, which must have one.
pub fn issue_branch_for_delete(id: &str, branch: Option<String>) -> (r: Result<String, RiptskError>)
    ensures
        match branch {
            Some(b) => r matches Ok(s) && s@ == b@,
            None => r matches Err(RiptskError::General(m)) && m@ == "issue "@ + id@
                + " has no associated branch"@,
        },
{
    match branch {
        Some(b) => Ok(b),
        None => Err(RiptskError::General(concat3("issue ", id, " has no associated branch"))),
    }
}

/// Before a safe delete (`-d`): the branch must exist locally and be fully
/// merged into the remote default branch.
pub fn safe_delete_check(target: &str, default_branch: &str, local_exists: bool, merged: bool) -> (r:
    Result<(), RiptskError>)
    ensures
        !local_exists ==> (r matches Err(RiptskError::General(m)) && m@ == "branch '"@ + target@
            + "' not found locally; cannot verify merge status for safe delete. Use -D to force"@),
        local_exists && !merged ==> (r matches Err(RiptskError::General(m)) && m@ == "branch '"@
            + target@ + "' is not fully merged into '"@ + default_branch@ + "'; use -D to force"@),
        local_exists && merged ==> r is Ok,
{
    if !local_exists {
        return Err(
            RiptskError::General(
                concat3(
                    "branch '",
                    target,
                    "' not found locally; cannot verify merge status for safe delete. Use -D to force",
                ),
            ),
        );
    }
    if !merged {
        let mut m = concat3("branch '", target, "' is not fully merged into '");
        m.append(default_branch);
        m.append("'; use -D to force");
        return Err(RiptskError::General(m));
    }
    Ok(())
}

/// The question asked before deleting the current branch.
pub fn delete_current_prompt(target: &str, default_branch: &str) -> (r: String)
    ensures
        r@ == "Delete current branch '"@ + target@ + "' and switch to '"@ + default_branch@ + "'?"@,
{
    let mut r = concat3("Delete current branch '", target, "' and switch to '");
    r.append(default_branch);
    r.append("'?");
    r
}

/// The error when the remote branch is gone but switching away from it
/// failed, with the command that recovers.
pub fn switch_failed_message(default_branch: &str, error: &RiptskError) -> (r: String)
    ensures
        r@ == "remote branch deleted but failed to switch to '"@ + default_branch@ + "': "@
            + error.message() + ". Recover with: git checkout -b "@ + default_branch@ + " origin/"@
            + default_branch@,
{
    let e = error.to_string();
    let mut r = concat3(
        "remote branch deleted but failed to switch to '",
        default_branch,
        "': ",
    );
    r.append(e.as_str());
    r.append(". Recover with: git checkout -b ");
    r.append(default_branch);
    r.append(" origin/");
    r.append(default_branch);
    r
}

/// A failure to delete a remote branch that is already gone: the message
/// mentions `404`, or, lowercased, `not found`.
pub fn remote_branch_missing(error: &RiptskError) -> (r: bool)
    ensures
        r == (contains(error.message(), "404"@) || contains(
            unicode_lowercase(error.message()),
            "not found"@,
        )),
{
    let m = error.to_string();
    let lower = to_lowercase(m.as_str());
    str_contains(m.as_str(), "404") || str_contains(lower.as_str(), "not found")
}

/// A failure to create a remote branch that exists already: the message,
/// lowercased, mentions `already exists`.
pub fn remote_branch_exists(error: &RiptskError) -> (r: bool)
    ensures
        r == contains(unicode_lowercase(error.message()), "already exists"@),
{
    let m = error.to_string();
    let lower = to_lowercase(m.as_str());
    str_contains(lower.as_str(), "already exists")
}

} // verus!
