//! `tsk done`: the decisions that complete an issue — which route it takes,
//! what it records on the issue, and how it recovers from a failure.

use crate::backend::BackendPrRecord;
use crate::domain::{BackendKind, Config, IssueDocument, IssueFrontmatter, IssueState};
use crate::error::RiptskError;
use crate::pull_request::{find_project, head_branch, pr_head_matches};
use crate::text::{
    ascii_lower, chars_of, concat2, concat3, contains, opt_view, str_contains, str_eq,
    to_ascii_lower, to_lowercase, unicode_lowercase,
};
use vstd::prelude::*;

verus! {

/// How `tsk done` completes an issue.
#[derive(Debug, Clone, PartialEq, Eq)]
pub enum DoneRoute {
    /// No version control or no branch: mark the issue done and sync.
    IssueOnly,
    /// Merge the pull request of this branch, delete the branch, close the
    /// issue.
    MergeBranch { branch: String },
}

/// The route of `tsk done` for an issue: its project must be registered;
/// an issue without a branch, or of a project whose version control is
/// local, is only marked done.
pub fn done_route(config: &Config, issue: &IssueDocument) -> (r: Result<DoneRoute, RiptskError>)
    ensures
        match r {
            Ok(DoneRoute::IssueOnly) => exists|i: int|
                0 <= i < config.projects@.len() && config.projects@[i].name@
                    == issue.frontmatter.project@ && (forall|k: int|
                    0 <= k < i ==> #[trigger] config.projects@[k].name@
                        != issue.frontmatter.project@) && (config.projects@[i].vc_backend.kind
                    == BackendKind::Local || issue.frontmatter.branch.is_none()),
            Ok(DoneRoute::MergeBranch { branch }) => exists|i: int|
                0 <= i < config.projects@.len() && config.projects@[i].name@
                    == issue.frontmatter.project@ && (forall|k: int|
                    0 <= k < i ==> #[trigger] config.projects@[k].name@
                        != issue.frontmatter.project@) && config.projects@[i].vc_backend.kind
                    != BackendKind::Local && opt_view(issue.frontmatter.branch) == Some(branch@),
            Err(e) => e matches RiptskError::Unregistered(m) && m@ == issue.frontmatter.project@
                && forall|k: int|
                0 <= k < config.projects@.len() ==> #[trigger] config.projects@[k].name@
                    != issue.frontmatter.project@,
        },
{
    match find_project(config, issue.frontmatter.project.as_str()) {
        None => Err(RiptskError::Unregistered(issue.frontmatter.project.clone())),
        Some(i) => {
            let has_vc = config.projects[i].vc_backend.kind != BackendKind::Local;
            match &issue.frontmatter.branch {
                Some(branch) if has_vc => Ok(DoneRoute::MergeBranch { branch: branch.clone() }),
                _ => Ok(DoneRoute::IssueOnly),
            }
        },
    }
}

/// Unlink an issue from its branch.
pub fn clear_branch_link(frontmatter: &mut IssueFrontmatter)
    ensures
        final(frontmatter).branch.is_none(),
        final(frontmatter).id_slug.is_none(),
        final(frontmatter).status == old(frontmatter).status,
        final(frontmatter).local_updated_at == old(frontmatter).local_updated_at,
        final(frontmatter).id == old(frontmatter).id,
        final(frontmatter).pr_url == old(frontmatter).pr_url,
        final(frontmatter).pr_number == old(frontmatter).pr_number,
{
    frontmatter.branch = None;
    frontmatter.id_slug = None;
}

/// Mark an issue done locally at `now`, unlinked from its branch.
pub fn mark_done_locally(frontmatter: &mut IssueFrontmatter, now: &str)
    ensures
        final(frontmatter).status == IssueState::Done,
        final(frontmatter).local_updated_at@ == now@,
        final(frontmatter).branch.is_none(),
        final(frontmatter).id_slug.is_none(),
        final(frontmatter).id == old(frontmatter).id,
        final(frontmatter).title == old(frontmatter).title,
        final(frontmatter).pr_url == old(frontmatter).pr_url,
        final(frontmatter).pr_number == old(frontmatter).pr_number,
{
    frontmatter.status = IssueState::Done;
    frontmatter.local_updated_at = String::from_str(now);
    frontmatter.branch = None;
    frontmatter.id_slug = None;
}

/// A remote issue state reads as closed, in any ASCII case.
pub fn is_closed_state(state: &str) -> (r: bool)
    ensures
        r == (ascii_lower(state@) == "closed"@),
{
    let lower = to_ascii_lower(&chars_of(state));
    let closed = chars_of("closed");
    proof {
        reveal_strlit("closed");
        assert(ascii_lower("closed"@) =~= "closed"@);
    }
    if lower.len() != closed.len() {
        return false;
    }
    let mut i: usize = 0;
    while i < lower.len()
        invariant
            lower@ == ascii_lower(state@),
            closed@ == "closed"@,
            lower@.len() == closed@.len(),
            i <= lower@.len(),
            forall|k: int| 0 <= k < i ==> lower@[k] == closed@[k],
        decreases lower@.len() - i,
    {
        if lower[i] != closed[i] {
            return false;
        }
        i += 1;
    }
    assert(lower@ =~= closed@);
    true
}

/// An error means that a branch is already gone: its message, lowercased,
/// mentions `404` or `not found`.
pub fn is_branch_not_found_error(error: &RiptskError) -> (r: bool)
    ensures
        r == (contains(unicode_lowercase(error.message()), "404"@) || contains(
            unicode_lowercase(error.message()),
            "not found"@,
        )),
{
    let message = error.to_string();
    let lower = to_lowercase(message.as_str());
    str_contains(lower.as_str(), "404") || str_contains(lower.as_str(), "not found")
}

/// The store commit message of `tsk done`.
pub fn done_commit_message(id: &str, title: &str) -> (r: String)
    ensures
        r@ == "riptask: done "@ + id@ + " - "@ + title@,
{
    let mut r = concat3("riptask: done ", id, " - ");
    r.append(title);
    r
}

/// The message of the stash that a command makes of uncommitted changes:
/// `<command>: auto-stash (<id> on <branch>) [<now>]`.
pub fn auto_stash_message(command: &str, id: &str, branch: &str, now: &str) -> (r: String)
    ensures
        r@ == command@ + ": auto-stash ("@ + id@ + " on "@ + branch@ + ") ["@ + now@ + "]"@,
{
    let mut r = concat3(command, ": auto-stash (", id);
    r.append(" on ");
    r.append(branch);
    r.append(") [");
    r.append(now);
    r.append("]");
    r
}

/// After a failure, the branch to go back to: the one the command started
/// on, when known and not the current one.
pub open spec fn restore_target(failed: bool, original: Option<Seq<char>>, current: Option<
    Seq<char>,
>) -> Option<Seq<char>> {
    if failed && original is Some && current != original {
        original
    } else {
        None
    }
}

/// The branch to restore after a failure, if any.
pub fn branch_to_restore(failed: bool, original: Option<&str>, current: Option<&str>) -> (r: Option<String>)
    ensures
        opt_view(r) == restore_target(
            failed,
            match original {
                Some(o) => Some(o@),
                None => None,
            },
            match current {
                Some(c) => Some(c@),
                None => None,
            },
        ),
{
    if !failed {
        return None;
    }
    match original {
        Some(o) => {
            let same = match current {
                Some(c) => str_eq(c, o),
                None => false,
            };
            if same {
                None
            } else {
                Some(String::from_str(o))
            }
        },
        None => None,
    }
}

/// A pull request recorded on an issue still belongs to it: its head is
/// the issue's branch and its base the default branch.
pub fn recorded_pr_still_valid(record: &BackendPrRecord, branch: &str, base: &str) -> (r: bool)
    ensures
        r == (head_branch(record.head@) == branch@ && record.base@ == base@),
{
    pr_head_matches(record.head.as_str(), branch) && str_eq(record.base.as_str(), base)
}

/// Whether `tsk done` merges a pull request that exists or creates one.
#[derive(Debug, Clone, Copy, PartialEq, Eq, Structural)]
pub enum PrNumberPlan {
    /// Merge the pull request with this number.
    Reuse(u64),
    /// No pull request exists for the issue's branch: create one first.
    Create,
}

/// Whether `tsk done` reuses a pull request or creates one, from the issue's
/// branch, the default branch `base`, the pull request recorded on the issue
/// as fetched from the remote (`None` when none is recorded or fetching it
/// failed), and the number of the open pull request found for the branch (a
/// search made only when the recorded one is not confirmed). A recorded pull
/// request counts only when its head is the issue's branch and its base is
/// `base`; an issue without a branch has none.
pub fn pr_number_plan(
    branch: Option<&str>,
    base: &str,
    recorded: Option<&BackendPrRecord>,
    found_by_branch: Option<u64>,
) -> (r: PrNumberPlan)
    ensures
        r == (match branch {
            None => PrNumberPlan::Create,
            Some(b) => if recorded matches Some(rec) && head_branch(rec.head@) == b@ && rec.base@
                == base@ {
                PrNumberPlan::Reuse(recorded->Some_0.number)
            } else {
                match found_by_branch {
                    Some(n) => PrNumberPlan::Reuse(n),
                    None => PrNumberPlan::Create,
                }
            },
        }),
{
    let b = match branch {
        None => {
            return PrNumberPlan::Create;
        },
        Some(b) => b,
    };
    if let Some(rec) = recorded {
        if recorded_pr_still_valid(rec, b, base) {
            return PrNumberPlan::Reuse(rec.number);
        }
    }
    match found_by_branch {
        Some(n) => PrNumberPlan::Reuse(n),
        None => PrNumberPlan::Create,
    }
}

} // verus!
