//! Git through its command line: the client's settings, and what is made of
//! the commands' output — which commit carries a subject, whether a stash
//! came back, how a failure reads, how much of a diff is kept.

use crate::error::RiptskError;
use crate::shell_quote::{shell_escape, shell_escaped};
use crate::text::{
    ascii_lower, chars_of, concat2, concat3, contains, join, lines, lines_of, seqs_of,
    str_contains, str_eq, string_of, to_ascii_lower, trim, trim_str,
};
use vstd::prelude::*;

verus! {

/// Credentials for git over HTTPS: the token answered to password prompts.
#[derive(Debug, Clone)]
pub struct GitHttpAuth {
    pub token: String,
}

/// The git command-line client, with optional HTTPS credentials for the
/// commands that reach the remote.
#[derive(Debug, Clone)]
pub struct CliGit {
    auth: Option<GitHttpAuth>,
}

impl CliGit {
    /// The credentials this client passes to git.
    pub closed spec fn spec_auth(&self) -> Option<GitHttpAuth> {
        self.auth
    }

    /// A client without credentials.
    pub fn new() -> (r: Self)
        ensures
            r.spec_auth().is_none(),
    {
        CliGit { auth: None }
    }

    /// A client with the given credentials.
    pub fn with_auth(auth: Option<GitHttpAuth>) -> (r: Self)
        ensures
            r.spec_auth() == auth,
    {
        CliGit { auth }
    }

    /// The client's credentials.
    pub fn auth(&self) -> (r: &Option<GitHttpAuth>)
        ensures
            *r == self.spec_auth(),
    {
        &self.auth
    }
}

impl Default for CliGit {
    /// A client without credentials, as `CliGit::new`.
    fn default() -> (r: Self)
        ensures
            r.spec_auth().is_none(),
    {
        CliGit { auth: None }
    }
}

/// A client is its credentials: two clients with the same credentials are
/// the same, so `CliGit::new()`, `CliGit::default()` and
/// `CliGit::with_auth(None)` give one and the same client.
pub proof fn lemma_client_is_its_auth(a: CliGit, b: CliGit)
    requires
        a.spec_auth() == b.spec_auth(),
    ensures
        a == b,
{
}

/// The refusal of a command run with uncommitted changes, naming the
/// command and the ways out.
pub open spec fn dirty_tree_message(command: Seq<char>) -> Seq<char> {
    "`"@ + command
        + "` refuses to run with uncommitted changes in the working tree. Inspect with `git status`, then choose one: `git commit` to keep them, `git stash push --include-untracked` to set them aside, or `git reset --hard && git clean -fd` to discard everything (destructive: drops staged, unstaged, and untracked changes)."@
}

/// Refuse to go on when the working tree has uncommitted changes.
pub fn require_clean_working_tree(has_changes: bool, command: &str) -> (r: Result<(), RiptskError>)
    ensures
        !has_changes ==> r is Ok,
        has_changes ==> (r matches Err(RiptskError::General(m)) && m@ == dirty_tree_message(
            command@,
        )),
{
    if has_changes {
        return Err(
            RiptskError::General(
                concat3(
                    "`",
                    command,
                    "` refuses to run with uncommitted changes in the working tree. Inspect with `git status`, then choose one: `git commit` to keep them, `git stash push --include-untracked` to set them aside, or `git reset --hard && git clean -fd` to discard everything (destructive: drops staged, unstaged, and untracked changes).",
                ),
            ),
        );
    }
    Ok(())
}

/// What popping an auto-stash came to, for the user.
#[derive(Debug, Clone, PartialEq, Eq)]
pub enum StashPopNotice {
    /// Restored; the success message.
    Restored(String),
    /// Kept in the stash; the warning.
    Kept(String),
}

/// The message shown after trying to pop an auto-stash: restored, kept
/// because it did not apply cleanly, or kept because popping failed.
pub fn try_stash_pop(result: &Result<bool, RiptskError>) -> (r: StashPopNotice)
    ensures
        match result {
            Ok(true) => r matches StashPopNotice::Restored(m) && m@
                == "restored auto-stashed changes"@,
            Ok(false) => r matches StashPopNotice::Kept(m) && m@
                == "auto-stashed changes were not restored; inspect with `git stash list` and recover with `git stash pop` after resolving any conflicts"@,
            Err(e) => r matches StashPopNotice::Kept(m) && m@ == "failed to restore stashed changes: "@
                + e.message() + "; inspect with `git stash list` and recover with `git stash pop`"@,
        },
{
    match result {
        Ok(true) => StashPopNotice::Restored(String::from_str("restored auto-stashed changes")),
        Ok(false) => StashPopNotice::Kept(
            String::from_str(
                "auto-stashed changes were not restored; inspect with `git stash list` and recover with `git stash pop` after resolving any conflicts",
            ),
        ),
        Err(e) => {
            let message = e.to_string();
            StashPopNotice::Kept(
                concat3(
                    "failed to restore stashed changes: ",
                    message.as_str(),
                    "; inspect with `git stash list` and recover with `git stash pop`",
                ),
            )
        },
    }
}

/// A failed `git stash pop` that kept the stash: its error output, in
/// lowercase ASCII, speaks of a conflict or of what could not be applied
/// or restored.
pub open spec fn recoverable_pop_failure(stderr: Seq<char>) -> bool {
    let lower = ascii_lower(stderr);
    contains(lower, "conflict"@) || contains(lower, "could not apply"@) || contains(
        lower,
        "could not restore"@,
    )
}

/// What `git stash pop` came to: restored, kept (a recoverable failure),
/// or an error.
pub fn stash_pop_outcome(success: bool, stderr: &str) -> (r: Result<bool, RiptskError>)
    ensures
        success ==> r == Ok::<bool, RiptskError>(true),
        !success && recoverable_pop_failure(stderr@) ==> r == Ok::<bool, RiptskError>(false),
        !success && !recoverable_pop_failure(stderr@) ==> (r matches Err(RiptskError::General(m))
            && m@ == "git stash pop failed: "@ + trim(stderr@)),
{
    if success {
        return Ok(true);
    }
    let lower = string_of(&to_ascii_lower(&chars_of(stderr)));
    if str_contains(lower.as_str(), "conflict") || str_contains(lower.as_str(), "could not apply")
        || str_contains(lower.as_str(), "could not restore") {
        return Ok(false);
    }
    let trimmed = trim_str(stderr);
    Err(RiptskError::General(concat2("git stash pop failed: ", trimmed.as_str())))
}

/// Whether `git stash push` stashed anything, from its output.
pub fn stash_push_outcome(stdout: &str) -> (r: bool)
    ensures
        r == !contains(stdout@, "No local changes to save"@),
{
    !str_contains(stdout, "No local changes to save")
}

/// The arguments of a git command, joined by spaces.
pub open spec fn joined_args(args: Seq<&str>) -> Seq<char> {
    join(args.map_values(|a: &str| a@), " "@)
}

fn join_args(args: &[&str]) -> (r: String)
    ensures
        r@ == joined_args(args@),
{
    let mut r = String::new();
    let mut i: usize = 0;
    let ghost views = args@.map_values(|a: &str| a@);
    assert(views.take(0) =~= Seq::<Seq<char>>::empty());
    while i < args.len()
        invariant
            views == args@.map_values(|a: &str| a@),
            i <= args@.len(),
            r@ == join(views.take(i as int), " "@),
        decreases args@.len() - i,
    {
        let ghost next = views.take(i as int + 1);
        assert(next.drop_last() =~= views.take(i as int));
        assert(next.last() == args@[i as int]@);
        if i > 0 {
            r.append(" ");
        }
        r.append(args[i]);
        i += 1;
        assert(r@ =~= join(next, " "@));
    }
    assert(views.take(args@.len() as int) =~= views);
    r
}

/// The message of a failed git command: its trimmed error output, or its
/// exit status when it printed none.
pub fn git_failure_message(args: &[&str], stderr: &str, exit_status: &str) -> (r: String)
    ensures
        r@ == if trim(stderr@).len() == 0 {
            "`git "@ + joined_args(args@) + "` failed (exit "@ + exit_status@ + ")"@
        } else {
            "`git "@ + joined_args(args@) + "` failed: "@ + trim(stderr@)
        },
{
    let cmd = join_args(args);
    let trimmed = trim_str(stderr);
    let mut r = concat2("`git ", cmd.as_str());
    if trimmed.unicode_len() == 0 {
        r.append("` failed (exit ");
        r.append(exit_status);
        r.append(")");
    } else {
        r.append("` failed: ");
        r.append(trimmed.as_str());
    }
    r
}

/// The commit whose subject is `subject`, from `git log --format=%H%n%s`
/// output read as lines in pairs of hash and subject; the first match.
pub open spec fn sha_with_subject(ls: Seq<Seq<char>>, subject: Seq<char>) -> Option<Seq<char>>
    decreases ls.len(),
{
    if ls.len() < 2 {
        None
    } else if ls[1] == subject {
        Some(ls[0])
    } else {
        sha_with_subject(ls.skip(2), subject)
    }
}

/// The hash of the first commit with the given subject in a log listing.
pub fn find_commit_by_subject(log_output: &str, subject: &str) -> (r: Option<String>)
    ensures
        match r {
            Some(sha) => sha_with_subject(lines(log_output@), subject@) == Some(sha@),
            None => sha_with_subject(lines(log_output@), subject@).is_none(),
        },
{
    let ls = lines_of(&chars_of(log_output));
    let subject_chars = chars_of(subject);
    let ghost all = seqs_of(ls@);
    let mut i: usize = 0;
    assert(all.skip(0) =~= all);
    while i < ls.len() && ls.len() - i > 1
        invariant
            all == seqs_of(ls@),
            all == lines(log_output@),
            subject_chars@ == subject@,
            i <= ls@.len(),
            sha_with_subject(all, subject@) == sha_with_subject(all.skip(i as int), subject@),
        decreases ls@.len() - i,
    {
        let ghost rest = all.skip(i as int);
        assert(rest[1] == ls@[i + 1]@);
        assert(rest[0] == ls@[i as int]@);
        if crate::text::chars_eq(&ls[i + 1], &subject_chars) {
            return Some(string_of(&ls[i]));
        }
        assert(rest.skip(2) =~= all.skip(i + 2));
        i += 2;
    }
    None
}

/// The number of bytes that UTF-8 takes for a character.
pub open spec fn utf8_width(c: char) -> nat {
    if (c as u32) < 0x80 {
        1
    } else if (c as u32) < 0x800 {
        2
    } else if (c as u32) < 0x10000 {
        3
    } else {
        4
    }
}

/// The UTF-8 length of a text, in bytes.
pub open spec fn utf8_len(s: Seq<char>) -> nat
    decreases s.len(),
{
    if s.len() == 0 {
        0
    } else {
        utf8_len(s.drop_last()) + utf8_width(s.last())
    }
}

/// The most bytes of a diff handed to the AI.
pub const MAX_DIFF_CHARS: usize = 8000;

proof fn lemma_utf8_len_take(s: Seq<char>, k: int)
    requires
        0 <= k < s.len(),
    ensures
        utf8_len(s.take(k + 1)) == utf8_len(s.take(k)) + utf8_width(s[k]),
{
    assert(s.take(k + 1).drop_last() =~= s.take(k));
}

/// A diff cut to at most `MAX_DIFF_CHARS` bytes, at a character boundary:
/// the longest prefix of whole characters that fits.
pub fn truncate_diff(diff: String) -> (r: String)
    ensures
        r@ == diff@.take(r@.len() as int),
        utf8_len(r@) <= MAX_DIFF_CHARS,
        r@.len() < diff@.len() ==> utf8_len(diff@.take(r@.len() as int + 1)) > MAX_DIFF_CHARS,
{
    let v = chars_of(diff.as_str());
    let mut k: usize = 0;
    let mut bytes: usize = 0;
    assert(v@.take(0) =~= Seq::<char>::empty());
    while k < v.len()
        invariant
            v@ == diff@,
            k <= v@.len(),
            bytes == utf8_len(v@.take(k as int)),
            bytes <= MAX_DIFF_CHARS,
        ensures
            k <= v@.len(),
            bytes == utf8_len(v@.take(k as int)),
            bytes <= MAX_DIFF_CHARS,
            k < v@.len() ==> utf8_len(v@.take(k as int + 1)) > MAX_DIFF_CHARS,
        decreases v@.len() - k,
    {
        let u = v[k] as u32;
        let w: usize = if u < 0x80 {
            1
        } else if u < 0x800 {
            2
        } else if u < 0x10000 {
            3
        } else {
            4
        };
        proof {
            lemma_utf8_len_take(v@, k as int);
        }
        if bytes + w > MAX_DIFF_CHARS {
            break;
        }
        bytes = bytes + w;
        k += 1;
    }
    let r = crate::text::string_of_range(&v, 0, k);
    assert(r@ =~= v@.take(k as int));
    r
}

/// The script given to git as `GIT_ASKPASS`: `oauth2` for the user name,
/// the token (shell-quoted) for anything else.
pub open spec fn askpass_script(token: Seq<char>) -> Seq<char> {
    "#!/bin/sh\ncase \"$1\" in\n  Username*) echo \"oauth2\" ;;\n  *) echo "@ + shell_escaped(token)
        + " ;;\nesac\n"@
}

/// The askpass script for a token.
pub fn build_askpass_script(token: &str) -> (r: String)
    ensures
        r@ == askpass_script(token@),
{
    let escaped = shell_escape(token);
    concat3(
        "#!/bin/sh\ncase \"$1\" in\n  Username*) echo \"oauth2\" ;;\n  *) echo ",
        escaped.as_str(),
        " ;;\nesac\n",
    )
}

/// The flag of `git branch` that deletes a branch: `-D` when forced.
pub fn delete_branch_flag(force: bool) -> (r: &'static str)
    ensures
        r@ == if force {
            "-D"@
        } else {
            "-d"@
        },
{
    if force {
        "-D"
    } else {
        "-d"
    }
}

/// The revision range of a branch's commits beyond the remote base:
/// `origin/<base>..<branch>`.
pub fn base_range(base: &str, branch: &str) -> (r: String)
    ensures
        r@ == "origin/"@ + base@ + ".."@ + branch@,
{
    let mut r = concat3("origin/", base, "..");
    r.append(branch);
    r
}

/// The tree that staged changes are compared with: `HEAD`, or the empty
/// tree before the first commit.
pub fn staged_diff_base(has_head: bool) -> (r: &'static str)
    ensures
        r@ == if has_head {
            "HEAD"@
        } else {
            "4b825dc642cb6eb9a060e54bf8d69288fbee4904"@
        },
{
    if has_head {
        "HEAD"
    } else {
        "4b825dc642cb6eb9a060e54bf8d69288fbee4904"
    }
}

/// What the exit code of `git diff-index --cached --quiet` says: `0` no
/// staged changes, `1` some, anything else a failure.
pub fn staged_changes_from_exit(code: Option<i32>) -> (r: Option<bool>)
    ensures
        r == match code {
            Some(0) => Some(false),
            Some(1) => Some(true),
            _ => None::<bool>,
        },
{
    match code {
        Some(0) => Some(false),
        Some(1) => Some(true),
        _ => None,
    }
}

/// ASCII whitespace as `u8::is_ascii_whitespace` has it.
pub open spec fn ascii_space(b: u8) -> bool {
    b == 0x20 || b == 0x09 || b == 0x0a || b == 0x0c || b == 0x0d
}

/// Whether `git ls-remote --heads` printed any ref: not all of its output
/// is ASCII whitespace.
pub fn lists_any_ref(stdout: &[u8]) -> (r: bool)
    ensures
        r == exists|i: int| 0 <= i < stdout@.len() && !ascii_space(#[trigger] stdout@[i]),
{
    let mut i: usize = 0;
    while i < stdout.len()
        invariant
            i <= stdout@.len(),
            forall|k: int| 0 <= k < i ==> ascii_space(#[trigger] stdout@[k]),
        decreases stdout@.len() - i,
    {
        let b = stdout[i];
        if !(b == 0x20 || b == 0x09 || b == 0x0a || b == 0x0c || b == 0x0d) {
            assert(!ascii_space(stdout@[i as int]));
            return true;
        }
        i += 1;
    }
    false
}

} // verus!
