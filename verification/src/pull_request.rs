//! Pull and merge requests: their default texts, the editor buffer, how a
//! request is recognised, and the decisions taken while waiting for checks.

use crate::backend::{MergeMethod, PrChecksStatus};
use crate::domain::{BackendKind, Config, IssueDocument, IssueFrontmatter, RepoProject};
use crate::error::RiptskError;
use crate::text::{
    after_first, after_last, after_last_char, before_first, chars_of, concat2, concat3, crlf_normalized,
    decimal, first_index_of, is_ws, lemma_crlf_normalized_identity, lemma_first_split, no_crlf,
    normalize_crlf, opt_view, parse_u64, str_eq, str_parse_u64, string_of_range, trim, trim_bounds,
    trim_end, trim_end_char, trim_end_matches_char, trim_start, trim_str, u64_to_decimal,
};
use vstd::prelude::*;

verus! {

/// The name of a merge method as the command line writes it.
pub open spec fn merge_method_name(method: MergeMethod) -> Seq<char> {
    match method {
        MergeMethod::Merge => "merge"@,
        MergeMethod::Squash => "squash"@,
        MergeMethod::Rebase => "rebase"@,
    }
}

/// The name of a merge method.
pub fn merge_method_label(method: MergeMethod) -> (r: &'static str)
    ensures
        r@ == merge_method_name(method),
{
    match method {
        MergeMethod::Merge => "merge",
        MergeMethod::Squash => "squash",
        MergeMethod::Rebase => "rebase",
    }
}

/// The name of a checks roll-up as it is shown.
pub open spec fn checks_status_name(status: PrChecksStatus) -> Seq<char> {
    match status {
        PrChecksStatus::NoChecks => "none"@,
        PrChecksStatus::Pending => "pending"@,
        PrChecksStatus::Passed => "passed"@,
        PrChecksStatus::Failed => "failed"@,
    }
}

/// The name of a checks roll-up.
pub fn pr_checks_status_label(status: PrChecksStatus) -> (r: &'static str)
    ensures
        r@ == checks_status_name(status),
{
    match status {
        PrChecksStatus::NoChecks => "none",
        PrChecksStatus::Pending => "pending",
        PrChecksStatus::Passed => "passed",
        PrChecksStatus::Failed => "failed",
    }
}

/// `Solves issue "#<number> <title>"`.
pub open spec fn default_title_text(issue_number: nat, issue_title: Seq<char>) -> Seq<char> {
    "Solves issue \"#"@ + decimal(issue_number) + seq![' '] + issue_title + seq!['"']
}

/// The title proposed for the pull request of an issue.
pub fn default_title(issue_number: u64, issue_title: &str) -> (r: String)
    ensures
        r@ == default_title_text(issue_number as nat, issue_title@),
{
    let number = u64_to_decimal(issue_number);
    let mut r = concat3("Solves issue \"#", number.as_str(), " ");
    r.append(issue_title);
    r.append("\"");
    proof {
        reveal_strlit(" ");
        reveal_strlit("\"");
    }
    assert(r@ =~= default_title_text(issue_number as nat, issue_title@));
    r
}

/// `Closes #<number>`.
pub open spec fn default_body_text(issue_number: nat) -> Seq<char> {
    "Closes #"@ + decimal(issue_number)
}

/// The body proposed for the pull request of an issue.
pub fn default_body(issue_number: u64) -> (r: String)
    ensures
        r@ == default_body_text(issue_number as nat),
{
    let number = u64_to_decimal(issue_number);
    concat2("Closes #", number.as_str())
}

/// The head branch of a pull request's head ref: GitHub writes
/// `owner:branch`, GitLab the bare branch.
pub open spec fn head_branch(head: Seq<char>) -> Seq<char> {
    match after_first(head, ':') {
        Some(rest) => rest,
        None => head,
    }
}

/// Whether a pull request's head ref names `branch`.
pub fn pr_head_matches(head: &str, branch: &str) -> (r: bool)
    ensures
        r == (head_branch(head@) == branch@),
{
    let v = chars_of(head);
    let i = first_index_of(&v, ':');
    if i < v.len() {
        let rest = string_of_range(&v, i + 1, v.len());
        assert(rest@ =~= v@.skip(i + 1));
        str_eq(rest.as_str(), branch)
    } else {
        str_eq(head, branch)
    }
}

/// The number at the end of a pull or merge request URL: the last
/// `/`-separated segment, trailing slashes dropped, read as a number.
pub open spec fn pr_number_of_url(url: Seq<char>) -> Option<u64> {
    parse_u64(after_last(trim_end_char(url, '/'), '/'))
}

/// The request number in a pull or merge request URL.
pub fn parse_pr_number_from_url(url: &str) -> (r: Option<u64>)
    ensures
        r == pr_number_of_url(url@),
{
    let trimmed = trim_end_matches_char(url, '/');
    let segment = after_last_char(trimmed.as_str(), '/');
    str_parse_u64(segment.as_str())
}

/// The request number an issue records: its number, else the one in its
/// URL.
pub open spec fn recorded_pr_number(pr_number: Option<u64>, pr_url: Option<Seq<char>>) -> Option<
    u64,
> {
    match pr_number {
        Some(n) => Some(n),
        None => match pr_url {
            Some(u) => pr_number_of_url(u),
            None => None,
        },
    }
}

/// The request number an issue records, if any.
pub fn local_pr_number(frontmatter: &IssueFrontmatter) -> (r: Option<u64>)
    ensures
        r == recorded_pr_number(frontmatter.pr_number, opt_view(frontmatter.pr_url)),
{
    match frontmatter.pr_number {
        Some(n) => Some(n),
        None => match &frontmatter.pr_url {
            Some(u) => parse_pr_number_from_url(u.as_str()),
            None => None,
        },
    }
}

/// The position of the first project named `name`.
pub fn find_project(config: &Config, name: &str) -> (r: Option<usize>)
    ensures
        match r {
            Some(i) => i < config.projects@.len() && config.projects@[i as int].name@ == name@
                && forall|k: int| 0 <= k < i ==> config.projects@[k].name@ != name@,
            None => forall|k: int|
                0 <= k < config.projects@.len() ==> config.projects@[k].name@ != name@,
        },
{
    let mut i: usize = 0;
    while i < config.projects.len()
        invariant
            i <= config.projects@.len(),
            forall|k: int| 0 <= k < i ==> config.projects@[k].name@ != name@,
        decreases config.projects@.len() - i,
    {
        if str_eq(config.projects[i].name.as_str(), name) {
            return Some(i);
        }
        i += 1;
    }
    None
}

/// The registered project of an issue, which must have a hosted version
/// control backend: `Unregistered` when none is named as the issue's
/// project, `Config` when the first so named is local.
pub fn resolve_hosted_repo_project<'a>(config: &'a Config, issue: &IssueDocument) -> (r: Result<
    &'a RepoProject,
    RiptskError,
>)
    ensures
        match r {
            Ok(p) => exists|i: int|
                0 <= i < config.projects@.len() && config.projects@[i] == *p && p.name@
                    == issue.frontmatter.project@ && p.vc_backend.kind != BackendKind::Local
                    && forall|k: int|
                    0 <= k < i ==> #[trigger] config.projects@[k].name@
                        != issue.frontmatter.project@,
            Err(e) => match e {
                RiptskError::Unregistered(m) => m@ == issue.frontmatter.project@ && forall|k: int|
                    0 <= k < config.projects@.len() ==> #[trigger] config.projects@[k].name@
                        != issue.frontmatter.project@,
                RiptskError::Config(m) => exists|i: int|
                    0 <= i < config.projects@.len() && config.projects@[i].name@
                        == issue.frontmatter.project@
                        && config.projects@[i].vc_backend.kind == BackendKind::Local && (forall|
                        k: int,
                    |
                        0 <= k < i ==> #[trigger] config.projects@[k].name@
                            != issue.frontmatter.project@) && m@ == "project "@
                        + issue.frontmatter.project@ + " does not have a hosted backend"@,
                _ => false,
            },
        },
{
    match find_project(config, issue.frontmatter.project.as_str()) {
        None => Err(RiptskError::Unregistered(issue.frontmatter.project.clone())),
        Some(i) => {
            let project = &config.projects[i];
            if project.vc_backend.kind == BackendKind::Local {
                Err(
                    RiptskError::Config(
                        concat3(
                            "project ",
                            project.name.as_str(),
                            " does not have a hosted backend",
                        ),
                    ),
                )
            } else {
                Ok(project)
            }
        },
    }
}

/// What the editor is given: the title, then a blank line and the body
/// when there is one.
pub open spec fn editor_buffer_text(title: Seq<char>, body: Seq<char>) -> Seq<char> {
    if body.len() == 0 {
        title + seq!['\n']
    } else {
        title + seq!['\n', '\n'] + body
    }
}

/// The text put in the editor for a pull request's title and body.
pub fn render_editor_buffer(title: &str, body: &str) -> (r: String)
    ensures
        r@ == editor_buffer_text(title@, body@),
{
    if body.unicode_len() == 0 {
        let r = concat2(title, "\n");
        proof {
            reveal_strlit("\n");
        }
        assert(r@ =~= editor_buffer_text(title@, body@));
        r
    } else {
        let r = concat3(title, "\n\n", body);
        proof {
            reveal_strlit("\n\n");
        }
        assert(r@ =~= editor_buffer_text(title@, body@));
        r
    }
}

/// What an edited buffer gives: after CR-LF pairs become line feeds, the
/// trimmed first line is the title, which must not be empty; after it
/// comes nothing (no body), or a blank line and then the body.
pub open spec fn editor_buffer_parsed(content: Seq<char>) -> Result<
    (Seq<char>, Seq<char>),
    Seq<char>,
> {
    let normalized = crlf_normalized(content);
    let title = trim(before_first(normalized, '\n'));
    let rest = match after_first(normalized, '\n') {
        Some(r) => r,
        None => Seq::empty(),
    };
    if title.len() == 0 {
        Err("PR title cannot be empty"@)
    } else if rest.len() == 0 {
        Ok((title, Seq::empty()))
    } else if rest[0] == '\n' {
        Ok((title, rest.skip(1)))
    } else {
        Err("expected a blank line between title and body"@)
    }
}

/// Read the title and body back from an edited buffer.
pub fn parse_editor_buffer(content: &str) -> (r: Result<(String, String), RiptskError>)
    ensures
        match r {
            Ok((t, b)) => editor_buffer_parsed(content@) == Ok::<
                (Seq<char>, Seq<char>),
                Seq<char>,
            >((t@, b@)),
            Err(e) => e is General && editor_buffer_parsed(content@) == Err::<
                (Seq<char>, Seq<char>),
                Seq<char>,
            >(e.message()),
        },
{
    let v = chars_of(content);
    let normalized = normalize_crlf(&v);
    let i = first_index_of(&normalized, '\n');
    let (a, b) = trim_bounds(&normalized, 0, i);
    assert(normalized@.subrange(0, i as int) =~= normalized@.take(i as int));
    let title = string_of_range(&normalized, a, b);
    if a == b {
        return Err(RiptskError::General(String::from_str("PR title cannot be empty")));
    }
    let rest_start = if i < normalized.len() {
        i + 1
    } else {
        normalized.len()
    };
    let ghost rest = normalized@.subrange(rest_start as int, normalized@.len() as int);
    assert(rest =~= match after_first(normalized@, '\n') {
        Some(r) => r,
        None => Seq::empty(),
    });
    if rest_start == normalized.len() {
        return Ok((title, String::new()));
    }
    if normalized[rest_start] == '\n' {
        let body = string_of_range(&normalized, rest_start + 1, normalized.len());
        assert(body@ =~= rest.skip(1));
        Ok((title, body))
    } else {
        Err(RiptskError::General(String::from_str("expected a blank line between title and body")))
    }
}

proof fn lemma_trim_start_suffix(s: Seq<char>) -> (k: int)
    ensures
        0 <= k <= s.len(),
        trim_start(s) == s.skip(k),
    decreases s.len(),
{
    if s.len() > 0 && is_ws(s[0]) {
        let k = lemma_trim_start_suffix(s.drop_first());
        assert(s.drop_first().skip(k) =~= s.skip(k + 1));
        k + 1
    } else {
        assert(s.skip(0) =~= s);
        0
    }
}

proof fn lemma_trim_end_shorter(s: Seq<char>)
    ensures
        trim_end(s).len() <= s.len(),
        s.len() > 0 && is_ws(s.last()) ==> trim_end(s).len() < s.len(),
    decreases s.len(),
{
    if s.len() > 0 && is_ws(s.last()) {
        lemma_trim_end_shorter(s.drop_last());
    }
}

proof fn lemma_trimmed_last(t: Seq<char>)
    requires
        trim(t) == t,
        t.len() > 0,
    ensures
        !is_ws(t.last()),
{
    let k = lemma_trim_start_suffix(t);
    lemma_trim_end_shorter(t.skip(k));
    if k > 0 {
        assert(false);
    }
    assert(t.skip(0) =~= t);
}

/// Editing without changes gives back what was rendered: for a trimmed,
/// one-line, non-empty title and a body without CR-LF pairs, the rendered
/// buffer parses to the same title and body.
pub proof fn lemma_editor_buffer_round_trip(title: Seq<char>, body: Seq<char>)
    requires
        trim(title) == title,
        title.len() > 0,
        !title.contains('\n'),
        no_crlf(body),
    ensures
        editor_buffer_parsed(editor_buffer_text(title, body)) == Ok::<
            (Seq<char>, Seq<char>),
            Seq<char>,
        >((title, body)),
{
    let text = editor_buffer_text(title, body);
    lemma_trimmed_last(title);
    assert(title.last() != '\r');
    assert(no_crlf(text)) by {
        assert forall|i: int| 0 <= i < text.len() - 1 implies !(#[trigger] text[i] == '\r'
            && text[i + 1] == '\n') by {
            if i < title.len() - 1 {
                assert(text[i + 1] == title[i + 1]);
                assert(title[i + 1] != '\n') by {
                    if title[i + 1] == '\n' {
                        assert(title.contains('\n'));
                    }
                }
            } else if i == title.len() - 1 {
                assert(text[i] == title.last());
            } else if i <= title.len() + 1 {
                assert(text[i] == '\n');
            } else {
                assert(text[i] == body[i - title.len() - 2]);
                assert(text[i + 1] == body[i - title.len() - 1]);
            }
        }
    }
    lemma_crlf_normalized_identity(text);
    assert forall|k: int| 0 <= k < title.len() implies text[k] != '\n' by {
        assert(text[k] == title[k]);
        if title[k] == '\n' {
            assert(title.contains('\n'));
        }
    }
    lemma_first_split(text, '\n', title.len() as int);
    assert(text.take(title.len() as int) =~= title);
    assert(before_first(crlf_normalized(text), '\n') == title);
    if body.len() == 0 {
        assert(text.skip(title.len() as int + 1) =~= Seq::<char>::empty());
        assert(after_first(crlf_normalized(text), '\n') == Some(Seq::<char>::empty()));
        assert(body =~= Seq::<char>::empty());
    } else {
        assert(text.skip(title.len() as int + 1) =~= seq!['\n'] + body);
        assert((seq!['\n'] + body).skip(1) =~= body);
        assert(after_first(crlf_normalized(text), '\n') == Some(seq!['\n'] + body));
        let rest = seq!['\n'] + body;
        assert(rest.len() > 0 && rest[0] == '\n');
    }
}

/// Whether a repository has CI of its own for a backend: workflow files
/// for GitHub, a `.gitlab-ci.yml` for GitLab, none for the others.
pub fn has_local_ci(backend_kind: BackendKind, has_github_workflows: bool, has_gitlab_ci_file: bool) -> (r: bool)
    ensures
        r == match backend_kind {
            BackendKind::Github => has_github_workflows,
            BackendKind::Gitlab => has_gitlab_ci_file,
            _ => false,
        },
{
    match backend_kind {
        BackendKind::Github => has_github_workflows,
        BackendKind::Gitlab => has_gitlab_ci_file,
        BackendKind::Jira => false,
        BackendKind::Local => false,
    }
}

/// What to do about CI before merging.
#[derive(Debug, Clone, Copy, PartialEq, Eq, Structural)]
pub enum CiDecision {
    /// No CI to wait for: merge at once.
    Proceed,
    /// Wait for the checks.
    WaitForChecks,
    /// Remote CI without local CI: ask whether to wait.
    AskWhetherToWait,
}

/// The CI decision: no CI anywhere proceeds; local CI waits; remote CI
/// alone waits when confirmation is skipped, else asks.
pub fn ci_decision(has_local: bool, has_remote: bool, yes: bool) -> (r: CiDecision)
    ensures
        r == if !has_local && !has_remote {
            CiDecision::Proceed
        } else if has_local || yes {
            CiDecision::WaitForChecks
        } else {
            CiDecision::AskWhetherToWait
        },
{
    if !has_local && !has_remote {
        CiDecision::Proceed
    } else if has_local || yes {
        CiDecision::WaitForChecks
    } else {
        CiDecision::AskWhetherToWait
    }
}

/// What one poll of a pull request's checks leads to.
#[derive(Debug, Clone, PartialEq, Eq)]
pub enum ChecksPoll {
    /// Stop waiting with this roll-up.
    Finished(PrChecksStatus),
    /// Stop waiting with this error.
    Failed(RiptskError),
    /// Poll again later; checks have been seen so far or not, and this is
    /// what to show meanwhile.
    KeepWaiting { saw_checks: bool, message: String },
}

/// `checks failed for PR #<n>`.
pub open spec fn checks_failed_text(pr_number: nat) -> Seq<char> {
    "checks failed for PR #"@ + decimal(pr_number)
}

/// `timed out after <s>s waiting for checks on PR #<n>`.
pub open spec fn checks_timeout_text(timeout_secs: nat, pr_number: nat) -> Seq<char> {
    "timed out after "@ + decimal(timeout_secs) + "s waiting for checks on PR #"@ + decimal(
        pr_number,
    )
}

/// The decision after one poll while waiting for checks: passed finishes,
/// failed fails; otherwise, once the time is up, an absence of checks
/// finishes with none unless checks were seen earlier, which is a timeout;
/// else waiting goes on, remembering that checks were seen.
pub open spec fn checks_poll_outcome(
    saw_checks: bool,
    status: PrChecksStatus,
    timed_out: bool,
    pr_number: nat,
    timeout_secs: nat,
) -> (bool, Option<Result<PrChecksStatus, Seq<char>>>) {
    let saw = saw_checks || status == PrChecksStatus::Pending;
    if status == PrChecksStatus::Passed {
        (saw, Some(Ok(PrChecksStatus::Passed)))
    } else if status == PrChecksStatus::Failed {
        (saw, Some(Err(checks_failed_text(pr_number))))
    } else if timed_out {
        if saw {
            (saw, Some(Err(checks_timeout_text(timeout_secs, pr_number))))
        } else {
            (saw, Some(Ok(PrChecksStatus::NoChecks)))
        }
    } else {
        (saw, None)
    }
}

/// One step of waiting for a pull request's checks, given the roll-up just
/// polled and whether the time is up.
pub fn checks_poll_step(
    saw_checks: bool,
    status: PrChecksStatus,
    timed_out: bool,
    pr_number: u64,
    timeout_secs: u64,
) -> (r: ChecksPoll)
    ensures
        match checks_poll_outcome(
            saw_checks,
            status,
            timed_out,
            pr_number as nat,
            timeout_secs as nat,
        ) {
            (_, Some(Ok(s))) => r == ChecksPoll::Finished(s),
            (_, Some(Err(m))) => r matches ChecksPoll::Failed(e) && e is General && e.message()
                == m,
            (saw, None) => r matches ChecksPoll::KeepWaiting { saw_checks: s, message: msg }
                && s == saw && msg@ == if status == PrChecksStatus::Pending {
                    "checks: pending"@
                } else if saw {
                    "checks: waiting for checks to reappear"@
                } else {
                    "checks: waiting for checks to register"@
                },
        },
{
    match status {
        PrChecksStatus::Passed => {
            return ChecksPoll::Finished(PrChecksStatus::Passed);
        },
        PrChecksStatus::Failed => {
            let number = u64_to_decimal(pr_number);
            return ChecksPoll::Failed(
                RiptskError::General(concat2("checks failed for PR #", number.as_str())),
            );
        },
        _ => {},
    }
    let saw = saw_checks || status == PrChecksStatus::Pending;
    if timed_out {
        if saw {
            let secs = u64_to_decimal(timeout_secs);
            let number = u64_to_decimal(pr_number);
            let mut m = concat3("timed out after ", secs.as_str(), "s waiting for checks on PR #");
            m.append(number.as_str());
            return ChecksPoll::Failed(RiptskError::General(m));
        }
        return ChecksPoll::Finished(PrChecksStatus::NoChecks);
    }
    let message = if status == PrChecksStatus::Pending {
        String::from_str("checks: pending")
    } else if saw {
        String::from_str("checks: waiting for checks to reappear")
    } else {
        String::from_str("checks: waiting for checks to register")
    };
    ChecksPoll::KeepWaiting { saw_checks: saw, message }
}

/// Checks seen once stay seen: a pull request whose checks disappear after
/// being seen times out with an error, never a silent pass.
pub proof fn lemma_seen_checks_never_pass_silently(
    status: PrChecksStatus,
    pr_number: nat,
    timeout_secs: nat,
)
    requires
        status != PrChecksStatus::Passed,
    ensures
        checks_poll_outcome(true, status, true, pr_number, timeout_secs).1 matches Some(Err(_)),
        checks_poll_outcome(true, status, false, pr_number, timeout_secs).0,
{
}

/// What one poll of a pull request's head leads to, after a force push.
#[derive(Debug, Clone, PartialEq, Eq)]
pub enum HeadPoll {
    Updated,
    TimedOut(RiptskError),
    KeepWaiting,
}

/// `timed out waiting for PR #<n> head to update after force push`.
pub open spec fn head_timeout_text(pr_number: nat) -> Seq<char> {
    "timed out waiting for PR #"@ + decimal(pr_number) + " head to update after force push"@
}

/// One step of waiting for a pull request's head to reach `expected_sha`.
pub fn head_update_step(head_sha: Option<&str>, expected_sha: &str, timed_out: bool, pr_number: u64) -> (r: HeadPoll)
    ensures
        match head_sha {
            Some(h) if h@ == expected_sha@ => r == HeadPoll::Updated,
            _ => if timed_out {
                r matches HeadPoll::TimedOut(e) && e is General && e.message() == head_timeout_text(
                    pr_number as nat,
                )
            } else {
                r == HeadPoll::KeepWaiting
            },
        },
{
    match head_sha {
        Some(h) => {
            if str_eq(h, expected_sha) {
                return HeadPoll::Updated;
            }
        },
        None => {},
    }
    if timed_out {
        let number = u64_to_decimal(pr_number);
        HeadPoll::TimedOut(
            RiptskError::General(
                concat3(
                    "timed out waiting for PR #",
                    number.as_str(),
                    " head to update after force push",
                ),
            ),
        )
    } else {
        HeadPoll::KeepWaiting
    }
}

/// Record a pull request's URL and number on an issue; whether anything
/// changed (and the issue must be saved).
pub fn record_pr_metadata(frontmatter: &mut IssueFrontmatter, url: &str, number: u64) -> (changed: bool)
    ensures
        opt_view(final(frontmatter).pr_url) == Some(url@),
        final(frontmatter).pr_number == Some(number),
        changed == (opt_view(old(frontmatter).pr_url) != Some(url@) || old(frontmatter).pr_number
            != Some(number)),
        final(frontmatter).id == old(frontmatter).id,
        final(frontmatter).title == old(frontmatter).title,
        final(frontmatter).status == old(frontmatter).status,
        final(frontmatter).branch == old(frontmatter).branch,
        final(frontmatter).local_updated_at == old(frontmatter).local_updated_at,
{
    let mut changed = false;
    let same_url = match &frontmatter.pr_url {
        Some(u) => str_eq(u.as_str(), url),
        None => false,
    };
    if !same_url {
        frontmatter.pr_url = Some(String::from_str(url));
        changed = true;
    }
    if frontmatter.pr_number != Some(number) {
        frontmatter.pr_number = Some(number);
        changed = true;
    }
    changed
}

/// Record a newly created pull request on its issue: URL and number, and
/// an issue still in the backlog or to do moves to in progress, stamped
/// with `now`.
pub fn record_created_pr(frontmatter: &mut IssueFrontmatter, url: &str, number: u64, now: &str)
    ensures
        opt_view(final(frontmatter).pr_url) == Some(url@),
        final(frontmatter).pr_number == Some(number),
        final(frontmatter).status == if old(frontmatter).status
            == crate::domain::IssueState::Backlog || old(frontmatter).status
            == crate::domain::IssueState::Todo {
            crate::domain::IssueState::InProgress
        } else {
            old(frontmatter).status
        },
        final(frontmatter).local_updated_at@ == if old(frontmatter).status
            == crate::domain::IssueState::Backlog || old(frontmatter).status
            == crate::domain::IssueState::Todo {
            now@
        } else {
            old(frontmatter).local_updated_at@
        },
        final(frontmatter).id == old(frontmatter).id,
        final(frontmatter).title == old(frontmatter).title,
        final(frontmatter).branch == old(frontmatter).branch,
{
    frontmatter.pr_url = Some(String::from_str(url));
    frontmatter.pr_number = Some(number);
    match frontmatter.status {
        crate::domain::IssueState::Backlog | crate::domain::IssueState::Todo => {
            frontmatter.status = crate::domain::IssueState::InProgress;
            frontmatter.local_updated_at = String::from_str(now);
        },
        _ => {},
    }
}

/// The title and body of the pull request of a Jira issue:
/// `<key>: <title>` and `Jira: <key>`.
pub fn jira_pr_title_and_body(key: &str, title: &str) -> (r: (String, String))
    ensures
        r.0@ == key@ + ": "@ + title@,
        r.1@ == "Jira: "@ + key@,
{
    (concat3(key, ": ", title), concat2("Jira: ", key))
}

/// A body with an AI-written description added after a blank line, when
/// the description is not blank.
pub fn body_with_description(body: &str, description: &str) -> (r: String)
    ensures
        r@ == if trim(description@).len() == 0 {
            body@
        } else {
            body@ + "\n\n"@ + trim(description@)
        },
{
    let trimmed = crate::text::trim_str(description);
    if trimmed.unicode_len() == 0 {
        String::from_str(body)
    } else {
        let mut r = concat2(body, "\n\n");
        r.append(trimmed.as_str());
        r
    }
}

/// The question asked before merging: `merge '<title>' via <method>?`.
pub fn merge_prompt(title: &str, method: MergeMethod) -> (r: String)
    ensures
        r@ == "merge '"@ + title@ + "' via "@ + merge_method_name(method) + "?"@,
{
    let mut r = concat3("merge '", title, "' via ");
    r.append(merge_method_label(method));
    r.append("?");
    r
}

/// A pull request that needs no merging any more.
pub fn pr_already_merged(pr: &crate::backend::BackendPrRecord) -> (r: bool)
    ensures
        r == (pr.merged || pr.state@ == "merged"@),
{
    pr.merged || str_eq(pr.state.as_str(), "merged")
}

/// The context given to the AI for a new pull request's description.
pub fn create_ai_context(id: &str, title: &str, body: &str, commits: &str, diff: &str) -> (r: String)
    ensures
        r@ == "Issue: "@ + id@ + " "@ + title@ + "\n\nIssue body:\n"@ + body@ + "\n\nCommits:\n"@
            + commits@ + "\n\nDiff:\n"@ + diff@,
{
    let mut r = concat3("Issue: ", id, " ");
    r.append(title);
    r.append("\n\nIssue body:\n");
    r.append(body);
    r.append("\n\nCommits:\n");
    r.append(commits);
    r.append("\n\nDiff:\n");
    r.append(diff);
    r
}

/// The context given to the AI to update a pull request's description.
pub fn update_ai_context(title: &str, body: &str, commits: &str, diff: &str) -> (r: String)
    ensures
        r@ == "Current PR title: "@ + title@ + "\n\nCurrent PR body:\n"@ + body@
            + "\n\nCommits:\n"@ + commits@ + "\n\nDiff:\n"@ + diff@,
{
    let mut r = concat2("Current PR title: ", title);
    r.append("\n\nCurrent PR body:\n");
    r.append(body);
    r.append("\n\nCommits:\n");
    r.append(commits);
    r.append("\n\nDiff:\n");
    r.append(diff);
    r
}

/// What `tsk pr` does.
#[derive(Debug, Clone)]
pub enum PrAction {
    Create(crate::cli::PrCreateArgs),
    Edit(crate::cli::PrEditArgs),
    Show(crate::cli::PrShowArgs),
    Merge(crate::cli::PrMergeArgs),
}

/// The action of `tsk pr`: its subcommand; without one it creates, with
/// the scope, id and `--no-ai` given to `tsk pr` itself.
pub fn run(args: crate::cli::PrArgs) -> (r: PrAction)
    ensures
        match args.subcommand {
            Some(crate::cli::PrSubcommand::Create(a)) => r matches PrAction::Create(b) && b == a,
            Some(crate::cli::PrSubcommand::Edit(a)) => r matches PrAction::Edit(b) && b == a,
            Some(crate::cli::PrSubcommand::Show(a)) => r matches PrAction::Show(b) && b == a,
            Some(crate::cli::PrSubcommand::Merge(a)) => r matches PrAction::Merge(b) && b == a,
            None => r matches PrAction::Create(b) && b.scope == args.scope && b.id == args.id
                && b.no_ai == args.no_ai,
        },
{
    match args.subcommand {
        Some(crate::cli::PrSubcommand::Create(a)) => PrAction::Create(a),
        Some(crate::cli::PrSubcommand::Edit(a)) => PrAction::Edit(a),
        Some(crate::cli::PrSubcommand::Show(a)) => PrAction::Show(a),
        Some(crate::cli::PrSubcommand::Merge(a)) => PrAction::Merge(a),
        None => PrAction::Create(
            crate::cli::PrCreateArgs { scope: args.scope, id: args.id, no_ai: args.no_ai },
        ),
    }
}

/// How a pull request is merged.
#[derive(Debug, Clone, Copy, PartialEq, Eq, Structural)]
pub struct MergeOptions {
    pub merge_method: MergeMethod,
    pub auto_merge: bool,
    pub yes: bool,
    pub timeout: u64,
    pub force_push: bool,
}

/// The merge options of `tsk pr merge` (and `tsk done`): rebase unless a
/// method is named.
pub fn merge_options(
    merge_method: Option<MergeMethod>,
    auto_merge: bool,
    yes: bool,
    timeout: u64,
    force_push: bool,
) -> (r: MergeOptions)
    ensures
        r.merge_method == match merge_method {
            Some(m) => m,
            None => MergeMethod::Rebase,
        },
        r.auto_merge == auto_merge,
        r.yes == yes,
        r.timeout == timeout,
        r.force_push == force_push,
{
    let method = match merge_method {
        Some(m) => m,
        None => MergeMethod::default(),
    };
    MergeOptions { merge_method: method, auto_merge, yes, timeout, force_push }
}

/// The title and body proposed for an issue's pull request: with Jira
/// metadata, by the Jira key (else the issue id); otherwise by the issue's
/// number on its tracker, which it must record.
pub fn create_pr_texts(repo_project: &RepoProject, issue: &IssueDocument) -> (r: Result<
    (String, String),
    RiptskError,
>)
    ensures
        match issue.frontmatter.jira {
            Some(meta) => {
                let key = match meta.issue_key {
                    Some(k) => k@,
                    None => issue.frontmatter.id@,
                };
                r matches Ok((t, b)) && t@ == key + ": "@ + issue.frontmatter.title@ && b@ == "Jira: "@
                    + key
            },
            None => match crate::branch::recorded_issue_number(*repo_project, *issue) {
                Some(n) => r matches Ok((t, b)) && t@ == default_title_text(
                    n as nat,
                    issue.frontmatter.title@,
                ) && b@ == default_body_text(n as nat),
                None => r matches Err(RiptskError::Config(_)),
            },
        },
{
    match &issue.frontmatter.jira {
        Some(meta) => {
            let key = match &meta.issue_key {
                Some(k) => k.as_str(),
                None => issue.frontmatter.id.as_str(),
            };
            Ok(jira_pr_title_and_body(key, issue.frontmatter.title.as_str()))
        },
        None => {
            let number = crate::branch::backend_issue_number(repo_project, issue)?;
            Ok((default_title(number, issue.frontmatter.title.as_str()), default_body(number)))
        },
    }
}

/// The branch `tsk pr create` opens a pull request from: the issue's
/// branch, which must be the checked-out branch.
pub fn create_branch_guard(issue_branch: Option<&str>, current_branch: &str) -> (r: Result<String, RiptskError>)
    ensures
        match issue_branch {
            None => r matches Err(RiptskError::General(m)) && m@ == "run `tsk branch` first"@,
            Some(b) => if b@ == current_branch@ {
                r matches Ok(x) && x@ == b@
            } else {
                r matches Err(RiptskError::General(m)) && m@
                    == "current branch does not match issue branch"@
            },
        },
{
    match issue_branch {
        None => Err(RiptskError::General(String::from_str("run `tsk branch` first"))),
        Some(b) => {
            if str_eq(b, current_branch) {
                Ok(String::from_str(b))
            } else {
                Err(
                    RiptskError::General(
                        String::from_str("current branch does not match issue branch"),
                    ),
                )
            }
        },
    }
}

/// The branch a pull request is opened from when `tsk pr` is run on an
/// issue: never a protected branch; refused when the issue already has a
/// pull request; the issue's branch when it has one, which must be the
/// checked-out branch, else the checked-out branch. The checks run in this
/// order.
pub fn pr_branch_guard(current_branch: &str, issue_id: &str, has_pr_url: bool, issue_branch: Option<&str>) -> (r: Result<String, RiptskError>)
    ensures
        crate::branch::protected_branch(current_branch@) ==> (r matches Err(RiptskError::General(m)) && m@
            == "protected branch: "@ + current_branch@),
        !crate::branch::protected_branch(current_branch@) && has_pr_url ==> (r matches Err(
            RiptskError::General(m),
        ) && m@ == "PR already exists for "@ + issue_id@),
        !crate::branch::protected_branch(current_branch@) && !has_pr_url ==> match issue_branch {
            None => r matches Ok(x) && x@ == current_branch@,
            Some(b) => if b@ == current_branch@ {
                r matches Ok(x) && x@ == current_branch@
            } else {
                r matches Err(RiptskError::General(m)) && m@
                    == "current branch does not match issue branch"@
            },
        },
{
    if crate::branch::is_protected_branch(current_branch) {
        return Err(RiptskError::General(concat2("protected branch: ", current_branch)));
    }
    if has_pr_url {
        return Err(RiptskError::General(concat2("PR already exists for ", issue_id)));
    }
    match issue_branch {
        Some(b) => if !str_eq(b, current_branch) {
            return Err(
                RiptskError::General(
                    String::from_str("current branch does not match issue branch"),
                ),
            );
        },
        None => {},
    }
    Ok(String::from_str(current_branch))
}

/// The message of the empty commit that lets a pull request be opened on a
/// branch with no commits.
pub const EMPTY_BRANCH_COMMIT_MESSAGE: &'static str = "chore: initialize branch for PR\n\nEmpty commit to allow PR creation on a branch with no changes yet.";

/// What `tsk pr create` does about a branch with no commits ahead of the
/// default branch.
#[derive(Debug, Clone, PartialEq, Eq)]
pub enum EmptyBranchStep {
    /// The branch has commits (or the backend is not GitHub): go on, with AI
    /// allowed.
    Proceed,
    /// Make an empty commit, push again, and write no AI description.
    EmptyCommit,
    /// Refuse: staged changes would be left out of the empty commit.
    Refuse(RiptskError),
}

/// The step for a branch `commits_ahead` commits ahead of the default
/// branch: only on GitHub does a branch with none need an empty commit,
/// refused while changes are staged.
pub fn empty_branch_step(is_github: bool, commits_ahead: u64, has_staged_changes: bool) -> (r: EmptyBranchStep)
    ensures
        !(is_github && commits_ahead == 0) ==> r == EmptyBranchStep::Proceed,
        is_github && commits_ahead == 0 && has_staged_changes ==> (r matches EmptyBranchStep::Refuse(
            RiptskError::General(m),
        ) && m@ == "branch has no commits but has staged changes; commit or unstage them first"@),
        is_github && commits_ahead == 0 && !has_staged_changes ==> r == EmptyBranchStep::EmptyCommit,
{
    if is_github && commits_ahead == 0 {
        if has_staged_changes {
            EmptyBranchStep::Refuse(
                RiptskError::General(
                    String::from_str(
                        "branch has no commits but has staged changes; commit or unstage them first",
                    ),
                ),
            )
        } else {
            EmptyBranchStep::EmptyCommit
        }
    } else {
        EmptyBranchStep::Proceed
    }
}


/// Whether `tsk pr create` asks the AI for a description: AI enabled, not
/// turned off with `--no-ai`, and not skipped for an empty branch.
pub fn create_uses_ai(ai_enabled: bool, no_ai: bool, skip_ai: bool) -> (r: bool)
    ensures
        r == (ai_enabled && !no_ai && !skip_ai),
{
    ai_enabled && !no_ai && !skip_ai
}

/// What `tsk pr edit` does first.
#[derive(Debug, Clone, PartialEq, Eq)]
pub enum PrEditPlan {
    /// Update the pull request with this title and body.
    Update { title: String, body: String },
    /// Open the editor on this title and body.
    Editor { title: String, body: String },
    /// Ask the AI for an updated description.
    Generate,
}

/// The plan of `tsk pr edit` from the `--title` and `--description` given,
/// the pull request's current title and body, whether AI is enabled and
/// `--no-ai`: a given title or description updates at once, each missing
/// one kept from the pull request; else without AI the editor opens on the
/// current text; else the AI drafts.
pub fn pr_edit_plan(
    title: Option<&str>,
    description: Option<&str>,
    current_title: &str,
    current_body: &str,
    ai_enabled: bool,
    no_ai: bool,
) -> (r: PrEditPlan)
    ensures
        (title is Some || description is Some) ==> (r matches PrEditPlan::Update { title: t, body: b }
            && t@ == (match title {
            Some(x) => x@,
            None => current_title@,
        }) && b@ == (match description {
            Some(x) => x@,
            None => current_body@,
        })),
        (title is None && description is None && (!ai_enabled || no_ai)) ==> (r matches PrEditPlan::Editor {
            title: t,
            body: b,
        } && t@ == current_title@ && b@ == current_body@),
        (title is None && description is None && ai_enabled && !no_ai) ==> r == PrEditPlan::Generate,
{
    if title.is_some() || description.is_some() {
        let t = match title {
            Some(x) => String::from_str(x),
            None => String::from_str(current_title),
        };
        let b = match description {
            Some(x) => String::from_str(x),
            None => String::from_str(current_body),
        };
        PrEditPlan::Update { title: t, body: b }
    } else if !ai_enabled || no_ai {
        PrEditPlan::Editor { title: String::from_str(current_title), body: String::from_str(current_body) }
    } else {
        PrEditPlan::Generate
    }
}

/// What `tsk pr edit` does with the AI's draft.
#[derive(Debug, Clone, PartialEq, Eq)]
pub enum PrEditDraft {
    /// Update the pull request with this title and body, no editor.
    Accept { title: String, body: String },
    /// Open the editor on this title and body.
    Editor { title: String, body: String },
}

/// The step after the AI drafted `draft_body` (empty when no draft could
/// be had): an empty draft opens the editor on the current text; with `-y`
/// the current title and the trimmed draft are used as they are; else the
/// editor opens on the current title and the trimmed draft.
pub fn pr_edit_draft(current_title: &str, current_body: &str, draft_body: &str, yes: bool) -> (r: PrEditDraft)
    ensures
        draft_body@.len() == 0 ==> (r matches PrEditDraft::Editor { title: t, body: b } && t@
            == current_title@ && b@ == current_body@),
        (draft_body@.len() != 0 && yes) ==> (r matches PrEditDraft::Accept { title: t, body: b } && t@
            == current_title@ && b@ == trim(draft_body@)),
        (draft_body@.len() != 0 && !yes) ==> (r matches PrEditDraft::Editor { title: t, body: b } && t@
            == current_title@ && b@ == trim(draft_body@)),
{
    if chars_of(draft_body).len() == 0 {
        PrEditDraft::Editor { title: String::from_str(current_title), body: String::from_str(current_body) }
    } else if yes {
        PrEditDraft::Accept { title: String::from_str(current_title), body: trim_str(draft_body) }
    } else {
        PrEditDraft::Editor { title: String::from_str(current_title), body: trim_str(draft_body) }
    }
}

} // verus!
