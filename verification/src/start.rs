//! `tsk start`: whether work starts on an existing issue or a new one, and
//! whether a pull request is opened right away.

use crate::cli::StartArgs;
use crate::text::{chars_of, concat3, is_digit, str_eq};
use vstd::prelude::*;

verus! {

/// How `tsk start` finds its issue.
#[derive(Debug, Clone, PartialEq, Eq)]
pub enum StartMode {
    /// An existing issue: by this id, by picking, or from the branch.
    ExistingIssue { id_input: Option<String>, pick: bool },
    /// A new issue with this title.
    NewIssue { title: Option<String> },
}

/// All characters are ASCII digits (true of the empty text).
pub open spec fn all_digits(s: Seq<char>) -> bool {
    forall|i: int| 0 <= i < s.len() ==> is_digit(#[trigger] s[i])
}

fn is_all_digits(s: &str) -> (r: bool)
    ensures
        r == all_digits(s@),
{
    let v = chars_of(s);
    let mut i: usize = 0;
    while i < v.len()
        invariant
            v@ == s@,
            i <= v@.len(),
            forall|k: int| 0 <= k < i ==> is_digit(#[trigger] v@[k]),
        decreases v@.len() - i,
    {
        if !('0' <= v[i] && v[i] <= '9') {
            assert(!is_digit(v@[i as int]));
            return false;
        }
        i += 1;
    }
    true
}

/// The mode of `tsk start`: a numeric positional argument, `--pick`, or no
/// title at all mean an existing issue (by that number when given); any
/// other title, positional first, makes a new issue.
pub fn start_mode(args: &StartArgs) -> (r: StartMode)
    ensures
        ({
            let numeric = args.title_pos matches Some(t) && all_digits(t@);
            if numeric || args.pick || (args.title_pos.is_none() && args.title.is_none()) {
                r matches StartMode::ExistingIssue { id_input, pick } && pick == args.pick && (
                if numeric {
                    id_input matches Some(i) && i@ == args.title_pos->0@
                } else {
                    id_input.is_none()
                })
            } else {
                r matches StartMode::NewIssue { title } && title matches Some(t) && t@ == (
                if args.title_pos is Some {
                    args.title_pos->0@
                } else {
                    args.title->0@
                })
            }
        }),
{
    let numeric = match &args.title_pos {
        Some(t) => is_all_digits(t.as_str()),
        None => false,
    };
    if numeric || args.pick || (args.title_pos.is_none() && args.title.is_none()) {
        let id_input = if numeric {
            match &args.title_pos {
                Some(t) => Some(t.clone()),
                None => None,
            }
        } else {
            None
        };
        StartMode::ExistingIssue { id_input, pick: args.pick }
    } else {
        let title = match &args.title_pos {
            Some(t) => Some(t.clone()),
            None => match &args.title {
                Some(t) => Some(t.clone()),
                None => None,
            },
        };
        StartMode::NewIssue { title }
    }
}

/// Whether uncommitted work on the default branch becomes a new issue
/// first: `tsk start` was given no title and no `--pick`, the project has
/// hosted version control, the repository has a commit, and it is on its
/// default branch (not detached) with uncommitted changes.
pub fn should_auto_create_from_changes(
    args: &StartArgs,
    vc_is_local: bool,
    has_head_commit: bool,
    current_branch: &str,
    default_branch: &str,
    has_uncommitted_changes: bool,
) -> (r: bool)
    ensures
        r == (args.title_pos.is_none() && args.title.is_none() && !args.pick && !vc_is_local
            && has_head_commit && current_branch@ != "HEAD"@ && current_branch@ == default_branch@
            && has_uncommitted_changes),
{
    if !(args.title_pos.is_none() && args.title.is_none() && !args.pick) {
        return false;
    }
    if vc_is_local || !has_head_commit {
        return false;
    }
    if str_eq(current_branch, "HEAD") {
        return false;
    }
    if !str_eq(current_branch, default_branch) {
        return false;
    }
    has_uncommitted_changes
}

/// Whether `tsk start` opens the pull request at once: the remote has
/// refs, and the branch is the default branch or has commits beyond it.
pub fn opens_pr_now(remote_has_refs: bool, branch: &str, default_branch: &str, commits_ahead: u64) -> (r: bool)
    ensures
        r == (remote_has_refs && (branch@ == default_branch@ || commits_ahead != 0)),
{
    remote_has_refs && (str_eq(branch, default_branch) || commits_ahead != 0)
}

/// What `tsk start` says when it leaves the pull request for later.
pub fn branch_ready_message(slug: &str) -> (r: String)
    ensures
        r@ == "Issue branch `"@ + slug@ + "` ready. Commit your work, then run `tsk pr` to open the PR."@,
{
    concat3(
        "Issue branch `",
        slug,
        "` ready. Commit your work, then run `tsk pr` to open the PR.",
    )
}

} // verus!
