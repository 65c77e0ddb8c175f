//! GitHub issues and pull requests as the tracker's records, the words the
//! GitHub API uses for states and lock reasons, and the workflow files
//! fetched from a repository.

use base64::Engine as _;
use crate::backend::{BackendIssueRecord, BackendPrRecord, DeleteOutcome};
use crate::base64_form::base64_of;
use crate::error::RiptskError;
use crate::json_text::{json_quoted, json_string_text};
use crate::text::{
    after_first, before_first, chars_of, clone_opt_string, clone_strings, concat2, first_index_of,
    contains, has_suffix, join, lines, lines_of, opt_view, seqs_of, str_contains, str_ends_with,
    str_eq, string_of, string_of_range, string_views, to_lowercase, unicode_lowercase,
};
use vstd::prelude::*;

verus! {

/// The state of a GitHub issue or pull request.
#[derive(Debug, Clone, Copy, PartialEq, Eq, Structural)]
pub enum GithubIssueState {
    Open,
    Closed,
    /// A state this library does not know.
    Other,
}

/// Why a GitHub issue was closed (or reopened).
#[derive(Debug, Clone, Copy, PartialEq, Eq, Structural)]
pub enum IssueStateReason {
    Completed,
    NotPlanned,
    Reopened,
    Duplicate,
    /// A reason this library does not know.
    Other,
}

/// Why a GitHub issue was locked.
#[derive(Debug, Clone, Copy, PartialEq, Eq, Structural)]
pub enum LockReason {
    OffTopic,
    TooHeated,
    Resolved,
    Spam,
}

/// What the tracker reads of a GitHub issue.
#[derive(Debug, Clone)]
pub struct GithubIssueInfo {
    pub number: u64,
    pub node_id: String,
    pub title: String,
    pub state: GithubIssueState,
    pub state_reason: Option<IssueStateReason>,
    pub labels: Vec<String>,
    /// Logins of the assignees.
    pub assignees: Vec<String>,
    /// Title and number of the milestone.
    pub milestone: Option<(String, i64)>,
    pub body: Option<String>,
    pub html_url: String,
    /// Last update, RFC 3339 at second precision.
    pub updated_at: String,
    pub locked: bool,
    pub active_lock_reason: Option<String>,
}

/// What the tracker reads of a GitHub pull request.
#[derive(Debug, Clone)]
pub struct GithubPullInfo {
    pub number: u64,
    pub title: Option<String>,
    pub body: Option<String>,
    pub html_url: Option<String>,
    pub state: Option<GithubIssueState>,
    pub merged: Option<bool>,
    pub merged_at: Option<String>,
    pub head_ref: String,
    pub head_sha: String,
    pub base_ref: String,
    pub node_id: Option<String>,
    /// Last update, RFC 3339 at second precision.
    pub updated_at: Option<String>,
}

/// The tracker's word for a close reason (an unknown one reads as
/// completed).
pub open spec fn reason_word(reason: IssueStateReason) -> Seq<char> {
    match reason {
        IssueStateReason::NotPlanned => "not_planned"@,
        IssueStateReason::Reopened => "reopened"@,
        IssueStateReason::Duplicate => "duplicate"@,
        _ => "completed"@,
    }
}

/// A close reason as the tracker writes it.
pub fn github_state_reason_to_string(reason: IssueStateReason) -> (r: String)
    ensures
        r@ == reason_word(reason),
{
    match reason {
        IssueStateReason::Completed => String::from_str("completed"),
        IssueStateReason::NotPlanned => String::from_str("not_planned"),
        IssueStateReason::Reopened => String::from_str("reopened"),
        IssueStateReason::Duplicate => String::from_str("duplicate"),
        IssueStateReason::Other => String::from_str("completed"),
    }
}

/// The GitHub state for a record state; any other is a `Config` error.
pub fn parse_github_issue_state(state: &str) -> (r: Result<GithubIssueState, RiptskError>)
    ensures
        state@ == "open"@ ==> r == Ok::<GithubIssueState, RiptskError>(GithubIssueState::Open),
        state@ == "closed"@ ==> r == Ok::<GithubIssueState, RiptskError>(GithubIssueState::Closed),
        state@ != "open"@ && state@ != "closed"@ ==> (r matches Err(RiptskError::Config(m)) && m@
            == "unsupported github issue state: "@ + state@),
{
    proof {
        reveal_strlit("open");
        reveal_strlit("closed");
        assert("open"@.len() != "closed"@.len());
    }
    if str_eq(state, "open") {
        Ok(GithubIssueState::Open)
    } else if str_eq(state, "closed") {
        Ok(GithubIssueState::Closed)
    } else {
        Err(RiptskError::Config(concat2("unsupported github issue state: ", state)))
    }
}

/// The GitHub close reason for a tracker word; any other is a `Config`
/// error.
pub fn parse_github_state_reason(state_reason: &str) -> (r: Result<IssueStateReason, RiptskError>)
    ensures
        match r {
            Ok(reason) => reason != IssueStateReason::Other && reason_word(reason) == state_reason@,
            Err(e) => state_reason@ != "completed"@ && state_reason@ != "not_planned"@
                && state_reason@ != "reopened"@ && state_reason@ != "duplicate"@ && (e matches RiptskError::Config(m)
                && m@ == "unsupported github issue state reason: "@ + state_reason@),
        },
{
    if str_eq(state_reason, "completed") {
        Ok(IssueStateReason::Completed)
    } else if str_eq(state_reason, "not_planned") {
        Ok(IssueStateReason::NotPlanned)
    } else if str_eq(state_reason, "reopened") {
        Ok(IssueStateReason::Reopened)
    } else if str_eq(state_reason, "duplicate") {
        Ok(IssueStateReason::Duplicate)
    } else {
        Err(RiptskError::Config(concat2("unsupported github issue state reason: ", state_reason)))
    }
}

/// The GitHub lock reason for the tracker's words; none for others.
pub fn parse_lock_reason(reason: &str) -> (r: Option<LockReason>)
    ensures
        r == if reason@ == "off-topic"@ {
            Some(LockReason::OffTopic)
        } else if reason@ == "too heated"@ {
            Some(LockReason::TooHeated)
        } else if reason@ == "resolved"@ {
            Some(LockReason::Resolved)
        } else if reason@ == "spam"@ {
            Some(LockReason::Spam)
        } else {
            None
        },
{
    if str_eq(reason, "off-topic") {
        Some(LockReason::OffTopic)
    } else if str_eq(reason, "too heated") {
        Some(LockReason::TooHeated)
    } else if str_eq(reason, "resolved") {
        Some(LockReason::Resolved)
    } else if str_eq(reason, "spam") {
        Some(LockReason::Spam)
    } else {
        None
    }
}

/// The record state of a GitHub state: closed, else open.
pub open spec fn state_word(state: GithubIssueState) -> Seq<char> {
    if state == GithubIssueState::Closed {
        "closed"@
    } else {
        "open"@
    }
}

/// A GitHub issue as a tracker record: its number, node id, texts, labels
/// and assignees; the milestone by title and (non-negative) number; the
/// lock; no Jira or GitLab fields, comments or linked requests.
pub fn map_issue(issue: &GithubIssueInfo) -> (r: BackendIssueRecord)
    ensures
        r.issue_id == issue.number,
        opt_view(r.node_id) == Some(issue.node_id@),
        r.title@ == issue.title@,
        r.state@ == state_word(issue.state),
        opt_view(r.state_reason) == match issue.state_reason {
            Some(reason) => Some(reason_word(reason)),
            None => None,
        },
        string_views(r.labels@) == string_views(issue.labels@),
        string_views(r.assignees@) == string_views(issue.assignees@),
        opt_view(r.milestone) == match issue.milestone {
            Some(m) => Some(m.0@),
            None => None,
        },
        r.milestone_id == match issue.milestone {
            Some(m) => if m.1 >= 0 {
                Some(m.1 as u64)
            } else {
                None
            },
            None => None,
        },
        opt_view(r.body) == opt_view(issue.body),
        r.url@ == issue.html_url@,
        r.updated_at@ == issue.updated_at@,
        r.due_date.is_none() && r.weight.is_none() && r.confidential.is_none()
            && r.discussion_locked.is_none() && r.issue_type.is_none(),
        r.locked == Some(issue.locked),
        opt_view(r.lock_reason) == opt_view(issue.active_lock_reason),
        r.comments@.len() == 0 && r.linked_mrs@.len() == 0,
        r.assignee_account_id.is_none() && r.assignee_name.is_none(),
{
    let (milestone, milestone_id) = match &issue.milestone {
        Some((title, number)) => (Some(title.clone()), if *number >= 0 {
            Some(*number as u64)
        } else {
            None
        }),
        None => (None, None),
    };
    let state = if issue.state == GithubIssueState::Closed {
        String::from_str("closed")
    } else {
        String::from_str("open")
    };
    BackendIssueRecord {
        issue_id: issue.number,
        node_id: Some(issue.node_id.clone()),
        title: issue.title.clone(),
        state,
        state_reason: match issue.state_reason {
            Some(reason) => Some(github_state_reason_to_string(reason)),
            None => None,
        },
        labels: clone_strings(&issue.labels),
        assignees: clone_strings(&issue.assignees),
        milestone,
        milestone_id,
        body: clone_opt_string(&issue.body),
        url: issue.html_url.clone(),
        updated_at: issue.updated_at.clone(),
        due_date: None,
        weight: None,
        confidential: None,
        discussion_locked: None,
        issue_type: None,
        locked: Some(issue.locked),
        lock_reason: clone_opt_string(&issue.active_lock_reason),
        comments: Vec::new(),
        linked_mrs: Vec::new(),
        assignee_account_id: None,
        assignee_name: None,
    }
}

/// The record state of a pull request: merged once it has a merge time,
/// else by its state (open when unknown).
pub open spec fn pull_state_word(pull: GithubPullInfo) -> Seq<char> {
    if pull.merged_at is Some {
        "merged"@
    } else {
        match pull.state {
            Some(GithubIssueState::Closed) => "closed"@,
            _ => "open"@,
        }
    }
}

/// A GitHub pull request as a record; one without a URL is an
/// `Unreachable` error naming the repository.
pub fn map_pull_request(pull: &GithubPullInfo, repo: &str) -> (r: Result<BackendPrRecord, RiptskError>)
    ensures
        match pull.html_url {
            None => r matches Err(RiptskError::Unreachable(m)) && m@ == "missing PR url for "@ + repo@,
            Some(url) => r matches Ok(pr) && pr.number == pull.number && pr.title@ == (match pull.title {
                Some(t) => t@,
                None => Seq::empty(),
            }) && pr.body@ == (match pull.body {
                Some(b) => b@,
                None => Seq::empty(),
            }) && pr.url@ == url@ && pr.state@ == pull_state_word(*pull) && pr.head@
                == pull.head_ref@ && opt_view(pr.head_sha) == Some(pull.head_sha@) && pr.base@
                == pull.base_ref@ && opt_view(pr.node_id) == opt_view(pull.node_id) && pr.merged
                == (pull.merged == Some(true) || pull.merged_at is Some) && pr.updated_at@ == (
            match pull.updated_at {
                Some(u) => u@,
                None => Seq::empty(),
            }),
        },
{
    let url = match &pull.html_url {
        Some(u) => u.clone(),
        None => {
            return Err(RiptskError::Unreachable(concat2("missing PR url for ", repo)));
        },
    };
    let state = if pull.merged_at.is_some() {
        String::from_str("merged")
    } else {
        match pull.state {
            Some(GithubIssueState::Closed) => String::from_str("closed"),
            _ => String::from_str("open"),
        }
    };
    let merged = match pull.merged {
        Some(m) => m,
        None => false,
    } || pull.merged_at.is_some();
    Ok(
        BackendPrRecord {
            number: pull.number,
            title: match &pull.title {
                Some(t) => t.clone(),
                None => String::new(),
            },
            body: match &pull.body {
                Some(b) => b.clone(),
                None => String::new(),
            },
            url,
            state,
            head: pull.head_ref.clone(),
            head_sha: Some(pull.head_sha.clone()),
            base: pull.base_ref.clone(),
            node_id: clone_opt_string(&pull.node_id),
            merged,
            updated_at: match &pull.updated_at {
                Some(u) => u.clone(),
                None => String::new(),
            },
        },
    )
}

/// A workflow that is disabled, by hand or for inactivity.
pub open spec fn disabled_state(state: Seq<char>) -> bool {
    state == "disabled_manually"@ || state == "disabled_inactivity"@
}

/// The paths of the disabled workflows, in order.
pub open spec fn disabled_paths(workflows: Seq<(String, String)>) -> Seq<Seq<char>>
    decreases workflows.len(),
{
    if workflows.len() == 0 {
        Seq::empty()
    } else {
        let before = disabled_paths(workflows.drop_last());
        if disabled_state(workflows.last().1@) {
            before.push(workflows.last().0@)
        } else {
            before
        }
    }
}

/// The paths of the disabled workflows among `(path, state)` pairs.
pub fn disabled_workflow_paths(workflows: &[(String, String)]) -> (r: Vec<String>)
    ensures
        string_views(r@) == disabled_paths(workflows@),
{
    let mut r: Vec<String> = Vec::new();
    let mut i: usize = 0;
    assert(workflows@.take(0) =~= Seq::<(String, String)>::empty());
    assert(string_views(r@) =~= Seq::<Seq<char>>::empty());
    while i < workflows.len()
        invariant
            i <= workflows@.len(),
            string_views(r@) == disabled_paths(workflows@.take(i as int)),
        decreases workflows@.len() - i,
    {
        assert(workflows@.take(i + 1).drop_last() =~= workflows@.take(i as int));
        assert(workflows@.take(i + 1).last() == workflows@[i as int]);
        let (path, state) = &workflows[i];
        if str_eq(state.as_str(), "disabled_manually") || str_eq(
            state.as_str(),
            "disabled_inactivity",
        ) {
            let ghost before = r@;
            let p = path.clone();
            let ghost pv = p@;
            r.push(p);
            assert(string_views(r@) =~= string_views(before).push(pv));
        }
        i += 1;
    }
    assert(workflows@.take(workflows@.len() as int) =~= workflows@);
    r
}

/// A directory entry of `.github/workflows` that is a workflow file: a
/// file ending in `.yml` or `.yaml`.
pub fn is_workflow_file(item_type: &str, path: &str) -> (r: bool)
    ensures
        r == (item_type@ == "file"@ && (has_suffix(path@, ".yml"@) || has_suffix(
            path@,
            ".yaml"@,
        ))),
{
    str_eq(item_type, "file") && (str_ends_with(path, ".yml") || str_ends_with(path, ".yaml"))
}

/// What the standard base64 alphabet (with padding) decodes `input` to;
/// `None` when it is not valid base64.
pub uninterp spec fn base64_standard_decoded(input: Seq<char>) -> Option<Seq<u8>>;

/// `base64::engine::general_purpose::STANDARD.decode`. The contract names
/// the result `base64_standard_decoded` and says what it is: the engine
/// requires canonical padding and no trailing bits, so a text decodes
/// exactly when it is the standard base64 form of some bytes, and then to
/// those bytes.
#[verifier::external_body]
fn base64_decode(input: &str) -> (r: Option<Vec<u8>>)
    ensures
        match r {
            Some(bytes) => base64_standard_decoded(input@) == Some(bytes@) && base64_of(bytes@)
                == input@,
            None => base64_standard_decoded(input@).is_none() && forall|b: Seq<u8>|
                base64_of(b) != input@,
        },
{
    base64::engine::general_purpose::STANDARD.decode(input).ok()
}

/// `String::from_utf8_lossy`: the text of the bytes, each invalid sequence
/// replaced by U+FFFD.
pub uninterp spec fn utf8_lossy(bytes: Seq<u8>) -> Seq<char>;

/// `String::from_utf8_lossy` (std). The contract ties the text to the
/// bytes through `utf8_lossy`, and states what the documentation says of
/// valid UTF-8: it is decoded as it is. Where each replacement character
/// goes in invalid input is left to the name.
#[verifier::external_body]
fn from_utf8_lossy(bytes: &[u8]) -> (r: String)
    ensures
        r@ == utf8_lossy(bytes@),
        vstd::utf8::valid_utf8(bytes@) ==> r@ == vstd::utf8::decode_utf8(bytes@),
{
    String::from_utf8_lossy(bytes).into_owned()
}

/// The lines of a text run together, line breaks dropped.
pub open spec fn lines_joined(s: Seq<char>) -> Seq<char> {
    join(lines(s), Seq::empty())
}

/// The text of a workflow file from the contents API: its `content` when
/// the `encoding` is `base64`, with line breaks dropped, decoded and read
/// as UTF-8 (lossily); none otherwise.
pub open spec fn workflow_text(content: Option<Seq<char>>, encoding: Option<Seq<char>>) -> Option<
    Seq<char>,
> {
    match content {
        None => None,
        Some(c) => if encoding != Some("base64"@) {
            None
        } else {
            match base64_standard_decoded(lines_joined(c)) {
                Some(bytes) => Some(utf8_lossy(bytes)),
                None => None,
            }
        },
    }
}

/// Decode a workflow file from the contents API.
pub fn decode_workflow_content(content: Option<&str>, encoding: Option<&str>) -> (r: Option<String>)
    ensures
        opt_view(r) == workflow_text(
            match content {
                Some(c) => Some(c@),
                None => None,
            },
            match encoding {
                Some(e) => Some(e@),
                None => None,
            },
        ),
{
    let content = match content {
        Some(c) => c,
        None => {
            return None;
        },
    };
    let is_base64 = match encoding {
        Some(e) => str_eq(e, "base64"),
        None => false,
    };
    if !is_base64 {
        return None;
    }
    let ls = lines_of(&chars_of(content));
    let ghost all = seqs_of(ls@);
    let mut compact = String::new();
    let mut i: usize = 0;
    assert(all.take(0) =~= Seq::<Seq<char>>::empty());
    while i < ls.len()
        invariant
            all == seqs_of(ls@),
            all == lines(content@),
            i <= ls@.len(),
            compact@ == join(all.take(i as int), Seq::empty()),
        decreases ls@.len() - i,
    {
        let ghost next = all.take(i + 1);
        assert(next.drop_last() =~= all.take(i as int));
        assert(next.last() == ls@[i as int]@);
        let line = string_of(&ls[i]);
        compact.append(line.as_str());
        i += 1;
        assert(compact@ =~= join(next, Seq::empty()));
    }
    assert(all.take(ls@.len() as int) =~= all);
    match base64_decode(compact.as_str()) {
        Some(bytes) => Some(from_utf8_lossy(bytes.as_slice())),
        None => None,
    }
}

/// The owner and name of a GitHub repository `owner/name`: the parts
/// before and after the first `/`.
pub open spec fn owner_repo_of(repo: Seq<char>) -> Option<(Seq<char>, Seq<char>)> {
    match after_first(repo, '/') {
        Some(name) => Some((before_first(repo, '/'), name)),
        None => None,
    }
}

/// The owner and name of a GitHub repository; a `Config` error when `repo`
/// has no `/`.
pub fn split_owner_repo(repo: &str) -> (r: Result<(String, String), RiptskError>)
    ensures
        match owner_repo_of(repo@) {
            Some((owner, name)) => r matches Ok((o, n)) && o@ == owner && n@ == name,
            None => r matches Err(RiptskError::Config(m)) && m@ == "invalid github repo: "@ + repo@,
        },
{
    let v = chars_of(repo);
    let i = first_index_of(&v, '/');
    if i < v.len() {
        let owner = string_of_range(&v, 0, i);
        let name = string_of_range(&v, i + 1, v.len());
        assert(owner@ =~= v@.take(i as int));
        assert(name@ =~= v@.skip(i + 1));
        Ok((owner, name))
    } else {
        Err(RiptskError::Config(concat2("invalid github repo: ", repo)))
    }
}

/// The GraphQL mutation that creates a branch linked to an issue.
pub const LINKED_BRANCH_MUTATION: &'static str = "mutation($issueId: ID!, $oid: GitObjectID!, $name: String) {\n                createLinkedBranch(input: {issueId: $issueId, oid: $oid, name: $name}) {\n                    linkedBranch { ref { name } }\n                }\n            }";

/// The GraphQL mutation that creates a plain branch.
pub const CREATE_REF_MUTATION: &'static str = "mutation($repoId: ID!, $name: String!, $oid: GitObjectID!) {\n                createRef(input: {repositoryId: $repoId, name: $name, oid: $oid}) {\n                    ref { name }\n                }\n            }";

/// The GraphQL request that creates `branch` at commit `sha`, linked to the
/// issue with node id `issue_node_id`.
pub open spec fn linked_branch_body(issue_node_id: Seq<char>, sha: Seq<char>, branch: Seq<char>) -> Seq<char> {
    "{\"query\":"@ + json_string_text(LINKED_BRANCH_MUTATION@) + ",\"variables\":{\"issueId\":"@
        + json_string_text(issue_node_id) + ",\"name\":"@ + json_string_text(branch)
        + ",\"oid\":"@ + json_string_text(sha) + "}}"@
}

/// The GraphQL request that creates `refs/heads/{branch}` at commit `sha`
/// in the repository with node id `repo_node_id`.
pub open spec fn create_ref_body(repo_node_id: Seq<char>, sha: Seq<char>, branch: Seq<char>) -> Seq<char> {
    "{\"query\":"@ + json_string_text(CREATE_REF_MUTATION@) + ",\"variables\":{\"name\":"@
        + json_string_text("refs/heads/"@ + branch) + ",\"oid\":"@ + json_string_text(sha)
        + ",\"repoId\":"@ + json_string_text(repo_node_id) + "}}"@
}

/// The body of the GraphQL request that creates an issue's linked branch.
pub fn linked_branch_request(issue_node_id: &str, sha: &str, branch: &str) -> (r: String)
    ensures
        r@ == linked_branch_body(issue_node_id@, sha@, branch@),
{
    let mut r = String::from_str("{\"query\":");
    let q = json_quoted(LINKED_BRANCH_MUTATION);
    r.append(q.as_str());
    r.append(",\"variables\":{\"issueId\":");
    let qi = json_quoted(issue_node_id);
    r.append(qi.as_str());
    r.append(",\"name\":");
    let qb = json_quoted(branch);
    r.append(qb.as_str());
    r.append(",\"oid\":");
    let qs = json_quoted(sha);
    r.append(qs.as_str());
    r.append("}}");
    r
}

/// The body of the GraphQL request that creates a branch not linked to an
/// issue.
pub fn create_ref_request(repo_node_id: &str, sha: &str, branch: &str) -> (r: String)
    ensures
        r@ == create_ref_body(repo_node_id@, sha@, branch@),
{
    let mut r = String::from_str("{\"query\":");
    let q = json_quoted(CREATE_REF_MUTATION);
    r.append(q.as_str());
    r.append(",\"variables\":{\"name\":");
    let full = concat2("refs/heads/", branch);
    let qb = json_quoted(full.as_str());
    r.append(qb.as_str());
    r.append(",\"oid\":");
    let qs = json_quoted(sha);
    r.append(qs.as_str());
    r.append(",\"repoId\":");
    let qi = json_quoted(repo_node_id);
    r.append(qi.as_str());
    r.append("}}");
    r
}

/// The GraphQL mutation that deletes an issue.
pub const DELETE_ISSUE_MUTATION: &'static str = "mutation($issueId: ID!) {\n            deleteIssue(input: {issueId: $issueId}) {\n                clientMutationId\n            }\n        }";

/// The GraphQL request that deletes the issue with node id `issue_node_id`.
pub open spec fn delete_issue_body(issue_node_id: Seq<char>) -> Seq<char> {
    "{\"query\":"@ + json_string_text(DELETE_ISSUE_MUTATION@) + ",\"variables\":{\"issueId\":"@
        + json_string_text(issue_node_id) + "}}"@
}

/// The body of the GraphQL request that deletes an issue.
pub fn delete_issue_request(issue_node_id: &str) -> (r: String)
    ensures
        r@ == delete_issue_body(issue_node_id@),
{
    let mut r = String::from_str("{\"query\":");
    let q = json_quoted(DELETE_ISSUE_MUTATION);
    r.append(q.as_str());
    r.append(",\"variables\":{\"issueId\":");
    let qi = json_quoted(issue_node_id);
    r.append(qi.as_str());
    r.append("}}");
    r
}

/// Whether GraphQL errors say that deleting is not permitted.
pub open spec fn is_permission_denial(errors: Seq<char>) -> bool {
    let lower = unicode_lowercase(errors);
    contains(lower, "forbidden"@) || contains(lower, "insufficient"@) || contains(
        lower,
        "not allowed"@,
    ) || contains(errors, "403"@)
}

/// What a delete request's answer leads to.
#[derive(Debug, Clone, PartialEq, Eq)]
pub enum DeleteAnswer {
    /// The issue is gone, or is to be closed instead.
    Outcome(DeleteOutcome),
    /// Deleting failed with this message.
    Failed(String),
}

/// What the answer to a `deleteIssue` request leads to, given the text of
/// its `errors` member when it has one: no errors, deleted; a permission
/// denial, closed instead; any other error, a failure.
pub fn delete_issue_answer(errors: Option<&str>) -> (r: DeleteAnswer)
    ensures
        match errors {
            None => r == DeleteAnswer::Outcome(DeleteOutcome::HardDeleted),
            Some(e) => if is_permission_denial(e@) {
                r == DeleteAnswer::Outcome(DeleteOutcome::SoftClosed)
            } else {
                r matches DeleteAnswer::Failed(m) && m@ == "deleteIssue failed: "@ + e@
            },
        },
{
    match errors {
        None => DeleteAnswer::Outcome(DeleteOutcome::HardDeleted),
        Some(e) => {
            let lower = to_lowercase(e);
            if str_contains(lower.as_str(), "forbidden") || str_contains(lower.as_str(), "insufficient")
                || str_contains(lower.as_str(), "not allowed") || str_contains(e, "403") {
                DeleteAnswer::Outcome(DeleteOutcome::SoftClosed)
            } else {
                DeleteAnswer::Failed(concat2("deleteIssue failed: ", e))
            }
        },
    }
}

} // verus!
