//! GitLab: the issue and merge-request records its API returns, and how
//! they map to the tracker's records and states.

use crate::backend::{
    BackendIssueRecord, BackendIssueUpsert, BackendPrRecord, CiPresence, MergeMethod,
    PrChecksStatus,
};
use crate::error::RiptskError;
use crate::text::{
    clone_opt_string, clone_strings, concat2, contains, decimal, opt_view, str_contains, str_eq,
    string_views, to_lowercase, u64_to_decimal, unicode_lowercase,
};
use crate::timestamps::{rfc3339_in_seconds, rfc3339_to_seconds};
use vstd::prelude::*;

verus! {

/// A GitLab API client's settings: the instance and the token.
#[derive(Debug, Clone)]
pub struct GitlabProvider {
    host: String,
    token: String,
}

impl GitlabProvider {
    pub closed spec fn spec_host(&self) -> Seq<char> {
        self.host@
    }

    pub closed spec fn spec_token(&self) -> Seq<char> {
        self.token@
    }

    /// A client for `host` with `token`; building one cannot fail.
    pub fn new(host: &str, token: &str) -> (r: Result<Self, RiptskError>)
        ensures
            r matches Ok(p) && p.spec_host() == host@ && p.spec_token() == token@,
    {
        Ok(GitlabProvider { host: String::from_str(host), token: String::from_str(token) })
    }

    /// The instance.
    pub fn host(&self) -> (r: &str)
        ensures
            r@ == self.spec_host(),
    {
        self.host.as_str()
    }

    /// The token.
    pub fn token(&self) -> (r: &str)
        ensures
            r@ == self.spec_token(),
    {
        self.token.as_str()
    }
}

/// A user as GitLab returns it.
#[derive(Debug, Clone)]
pub struct GitlabUser {
    pub id: u64,
    pub username: String,
}

/// A milestone as GitLab returns it.
#[derive(Debug, Clone)]
pub struct GitlabMilestone {
    pub id: u64,
    pub title: String,
}

/// An issue as GitLab returns it.
#[derive(Debug, Clone)]
pub struct GitlabIssue {
    pub iid: u64,
    pub title: String,
    pub description: Option<String>,
    pub state: String,
    pub labels: Vec<String>,
    pub assignees: Vec<GitlabUser>,
    pub milestone: Option<GitlabMilestone>,
    pub web_url: String,
    pub updated_at: String,
    pub due_date: Option<String>,
    pub weight: Option<u32>,
    pub confidential: Option<bool>,
    pub discussion_locked: Option<bool>,
    pub issue_type: Option<String>,
}

/// A merge request as GitLab returns it.
#[derive(Debug, Clone)]
pub struct GitlabMergeRequest {
    pub iid: u64,
    pub title: String,
    pub description: Option<String>,
    pub state: String,
    pub source_branch: String,
    pub target_branch: String,
    pub sha: Option<String>,
    pub head_pipeline: Option<GitlabPipeline>,
    pub rebase_in_progress: Option<bool>,
    pub merge_error: Option<String>,
    pub updated_at: String,
    pub web_url: String,
}

/// A pipeline's status.
#[derive(Debug, Clone)]
pub struct GitlabPipeline {
    pub status: String,
}

/// A timestamp at second precision when it is RFC 3339, else as given.
pub open spec fn normalized_time(ts: Seq<char>) -> Seq<char> {
    match rfc3339_in_seconds(ts) {
        Some(t) => t,
        None => ts,
    }
}

/// A GitLab timestamp, normalized.
pub fn normalize_timestamp(ts: &str) -> (r: String)
    ensures
        r@ == normalized_time(ts@),
{
    match rfc3339_to_seconds(ts) {
        Some(t) => t,
        None => String::from_str(ts),
    }
}

/// The user names of a list of users.
pub open spec fn usernames(users: Seq<GitlabUser>) -> Seq<Seq<char>> {
    users.map_values(|u: GitlabUser| u.username@)
}

fn collect_usernames(users: &Vec<GitlabUser>) -> (r: Vec<String>)
    ensures
        string_views(r@) == usernames(users@),
{
    let mut r: Vec<String> = Vec::new();
    let mut i: usize = 0;
    while i < users.len()
        invariant
            i <= users@.len(),
            string_views(r@) == usernames(users@).take(i as int),
        decreases users@.len() - i,
    {
        let ghost before = r@;
        let name = users[i].username.clone();
        assert(name@ == users@[i as int].username@);
        r.push(name);
        assert(string_views(r@) =~= string_views(before).push(name@));
        i += 1;
        assert(string_views(r@) =~= usernames(users@).take(i as int));
    }
    assert(usernames(users@).take(users@.len() as int) =~= usernames(users@));
    r
}

/// A GitLab issue as a tracker record: the state normalized to `closed`
/// (for GitLab's `closed`) or `open` (anything else, such as `opened`);
/// number, texts and links carried over, assignees by user name, the milestone by title and id, the update
/// time normalized; no node id, close reason, lock or comments.
pub fn map_issue(issue: &GitlabIssue) -> (r: BackendIssueRecord)
    ensures
        r.issue_id == issue.iid,
        r.node_id.is_none(),
        r.title@ == issue.title@,
        r.state@ == (if issue.state@ == "closed"@ {
            "closed"@
        } else {
            "open"@
        }),
        r.state_reason.is_none(),
        string_views(r.labels@) == string_views(issue.labels@),
        string_views(r.assignees@) == usernames(issue.assignees@),
        opt_view(r.milestone) == match issue.milestone {
            Some(m) => Some(m.title@),
            None => None,
        },
        r.milestone_id == match issue.milestone {
            Some(m) => Some(m.id),
            None => None,
        },
        opt_view(r.body) == opt_view(issue.description),
        r.url@ == issue.web_url@,
        r.updated_at@ == normalized_time(issue.updated_at@),
        opt_view(r.due_date) == opt_view(issue.due_date),
        r.weight == issue.weight,
        r.confidential == issue.confidential,
        r.discussion_locked == issue.discussion_locked,
        opt_view(r.issue_type) == opt_view(issue.issue_type),
        r.locked.is_none(),
        r.lock_reason.is_none(),
        r.comments@.len() == 0,
        r.linked_mrs@.len() == 0,
        r.assignee_account_id.is_none(),
        r.assignee_name.is_none(),
{
    let (milestone, milestone_id) = match &issue.milestone {
        Some(m) => (Some(m.title.clone()), Some(m.id)),
        None => (None, None),
    };
    let state = if str_eq(issue.state.as_str(), "closed") {
        String::from_str("closed")
    } else {
        String::from_str("open")
    };
    BackendIssueRecord {
        issue_id: issue.iid,
        node_id: None,
        title: issue.title.clone(),
        state,
        state_reason: None,
        labels: clone_strings(&issue.labels),
        assignees: collect_usernames(&issue.assignees),
        milestone,
        milestone_id,
        body: clone_opt_string(&issue.description),
        url: issue.web_url.clone(),
        updated_at: normalize_timestamp(issue.updated_at.as_str()),
        due_date: clone_opt_string(&issue.due_date),
        weight: issue.weight,
        confidential: issue.confidential,
        discussion_locked: issue.discussion_locked,
        issue_type: clone_opt_string(&issue.issue_type),
        locked: None,
        lock_reason: None,
        comments: Vec::new(),
        linked_mrs: Vec::new(),
        assignee_account_id: None,
        assignee_name: None,
    }
}

/// A merge request as a pull-request record: merged exactly when its state
/// is `merged`, an empty body when it has no description, the update time
/// normalized.
pub fn map_merge_request(merge_request: &GitlabMergeRequest) -> (r: BackendPrRecord)
    ensures
        r.number == merge_request.iid,
        r.title@ == merge_request.title@,
        r.body@ == match merge_request.description {
            Some(d) => d@,
            None => Seq::empty(),
        },
        r.url@ == merge_request.web_url@,
        r.state@ == merge_request.state@,
        r.head@ == merge_request.source_branch@,
        opt_view(r.head_sha) == opt_view(merge_request.sha),
        r.base@ == merge_request.target_branch@,
        r.node_id.is_none(),
        r.merged == (merge_request.state@ == "merged"@),
        r.updated_at@ == normalized_time(merge_request.updated_at@),
{
    let merged = str_eq(merge_request.state.as_str(), "merged");
    BackendPrRecord {
        number: merge_request.iid,
        title: merge_request.title.clone(),
        body: match &merge_request.description {
            Some(d) => d.clone(),
            None => String::new(),
        },
        url: merge_request.web_url.clone(),
        state: merge_request.state.clone(),
        head: merge_request.source_branch.clone(),
        head_sha: clone_opt_string(&merge_request.sha),
        base: merge_request.target_branch.clone(),
        node_id: None,
        merged,
        updated_at: normalize_timestamp(merge_request.updated_at.as_str()),
    }
}

/// The checks state of a merge request from its head pipeline's status.
pub open spec fn pipeline_state(status: Option<Seq<char>>) -> PrChecksStatus {
    match status {
        Some(s) => if s == "success"@ {
            PrChecksStatus::Passed
        } else if s == "failed"@ || s == "canceled"@ {
            PrChecksStatus::Failed
        } else if s == "running"@ || s == "pending"@ || s == "created"@ || s
            == "waiting_for_resource"@ || s == "preparing"@ || s == "manual"@ || s
            == "scheduled"@ {
            PrChecksStatus::Pending
        } else {
            PrChecksStatus::NoChecks
        },
        None => PrChecksStatus::NoChecks,
    }
}

/// The checks state of a merge request.
pub fn merge_request_checks_status(merge_request: &GitlabMergeRequest) -> (r: PrChecksStatus)
    ensures
        r == pipeline_state(
            match merge_request.head_pipeline {
                Some(p) => Some(p.status@),
                None => None,
            },
        ),
{
    match &merge_request.head_pipeline {
        Some(pipeline) => {
            let s = pipeline.status.as_str();
            if str_eq(s, "success") {
                PrChecksStatus::Passed
            } else if str_eq(s, "failed") || str_eq(s, "canceled") {
                PrChecksStatus::Failed
            } else if str_eq(s, "running") || str_eq(s, "pending") || str_eq(s, "created")
                || str_eq(s, "waiting_for_resource") || str_eq(s, "preparing") || str_eq(
                s,
                "manual",
            ) || str_eq(s, "scheduled") {
                PrChecksStatus::Pending
            } else {
                PrChecksStatus::NoChecks
            }
        },
        None => PrChecksStatus::NoChecks,
    }
}

/// Whether a project has CI, from whether it has any pipeline.
pub fn ci_presence(has_pipelines: bool) -> (r: CiPresence)
    ensures
        r.has_remote_ci == has_pipelines,
        string_views(r.remote_workflow_names@) == if has_pipelines {
            seq!["pipeline"@]
        } else {
            Seq::<Seq<char>>::empty()
        },
{
    if has_pipelines {
        let names = vec![String::from_str("pipeline")];
        assert(string_views(names@) =~= seq!["pipeline"@]);
        CiPresence { has_remote_ci: true, remote_workflow_names: names }
    } else {
        let names: Vec<String> = Vec::new();
        assert(string_views(names@) =~= Seq::<Seq<char>>::empty());
        CiPresence { has_remote_ci: false, remote_workflow_names: names }
    }
}

/// The state event that moves a GitLab issue to a state.
#[derive(Debug, Clone, Copy, PartialEq, Eq, Structural)]
pub enum IssueStateEvent {
    Reopen,
    Close,
}

/// The state event for a record state: `open`/`opened` reopen, `closed`
/// closes, anything else is a `Config` error.
pub fn parse_gitlab_issue_state_event(state: &str) -> (r: Result<IssueStateEvent, RiptskError>)
    ensures
        state@ == "open"@ || state@ == "opened"@ ==> r == Ok::<IssueStateEvent, RiptskError>(
            IssueStateEvent::Reopen,
        ),
        state@ == "closed"@ ==> r == Ok::<IssueStateEvent, RiptskError>(IssueStateEvent::Close),
        !(state@ == "open"@ || state@ == "opened"@ || state@ == "closed"@) ==> (r matches Err(
            RiptskError::Config(m),
        ) && m@ == "unsupported gitlab issue state: "@ + state@),
{
    proof {
        reveal_strlit("open");
        reveal_strlit("opened");
        reveal_strlit("closed");
        assert("closed"@[0] != "open"@[0]);
        assert("closed"@[0] != "opened"@[0]);
    }
    if str_eq(state, "open") || str_eq(state, "opened") {
        Ok(IssueStateEvent::Reopen)
    } else if str_eq(state, "closed") {
        Ok(IssueStateEvent::Close)
    } else {
        Err(RiptskError::Config(concat2("unsupported gitlab issue state: ", state)))
    }
}

/// An error that GitLab raised about the weight field (which not every
/// edition supports): an unreachable or configuration error whose message,
/// lowercased, mentions `weight`.
pub fn is_weight_error(error: &RiptskError) -> (r: bool)
    ensures
        r == match error {
            RiptskError::Unreachable(m) => contains(unicode_lowercase(m@), "weight"@),
            RiptskError::Config(m) => contains(unicode_lowercase(m@), "weight"@),
            _ => false,
        },
{
    match error {
        RiptskError::Unreachable(m) | RiptskError::Config(m) => {
            let lower = to_lowercase(m.as_str());
            str_contains(lower.as_str(), "weight")
        },
        _ => false,
    }
}

/// Why `s` is not a `YYYY-MM-DD` date as `chrono` reads one; `None` when it
/// is one.
pub uninterp spec fn ymd_date_parse_error(s: Seq<char>) -> Option<Seq<char>>;

/// `chrono::NaiveDate::parse_from_str(s, "%Y-%m-%d")`, keeping only the
/// error's message. The contract ties the outcome to `s` through
/// `ymd_date_parse_error`; which texts are dates is the crate's.
#[verifier::external_body]
fn ymd_date_error(s: &str) -> (r: Option<String>)
    ensures
        opt_view(r) == ymd_date_parse_error(s@),
{
    match chrono::NaiveDate::parse_from_str(s, "%Y-%m-%d") {
        Ok(_) => None,
        Err(e) => Some(e.to_string()),
    }
}

/// Who a GitLab issue request assigns the issue to.
#[derive(Debug, Clone, PartialEq, Eq)]
pub enum GitlabAssignees {
    /// The request leaves the assignees alone.
    Unchanged,
    /// These user ids.
    Assign(Vec<u64>),
    /// Nobody.
    Unassign,
}

/// The fields a GitLab issue create or edit request sets.
#[derive(Debug, Clone, PartialEq, Eq)]
pub struct GitlabIssueFields {
    pub title: String,
    pub description: String,
    /// `None`: the labels are not sent.
    pub labels: Option<Vec<String>>,
    pub confidential: Option<bool>,
    pub milestone_id: Option<u64>,
    /// A `YYYY-MM-DD` date.
    pub due_date: Option<String>,
    pub weight: Option<u64>,
    pub discussion_locked: Option<bool>,
    pub state_event: Option<IssueStateEvent>,
    pub assignees: GitlabAssignees,
}

/// The weight sent, when weights are sent at all.
pub open spec fn weight_sent(weight: Option<u32>, include_weight: bool) -> Option<u64> {
    if include_weight {
        match weight {
            Some(w) => Some(w as u64),
            None => None,
        }
    } else {
        None
    }
}

/// The error when the due date of `issue` is not a date, if it is not.
pub open spec fn due_date_error(issue: BackendIssueUpsert) -> Option<Seq<char>> {
    match issue.due_date {
        Some(d) => ymd_date_parse_error(d@),
        None => None,
    }
}

/// The fields shared by create and edit requests: title, description,
/// confidentiality, milestone, due date and (when included) weight.
pub open spec fn common_fields_match(f: GitlabIssueFields, issue: BackendIssueUpsert, include_weight: bool) -> bool {
    &&& f.title@ == issue.title@
    &&& f.description@ == issue.body@
    &&& f.confidential == issue.confidential
    &&& f.milestone_id == issue.milestone_id
    &&& opt_view(f.due_date) == opt_view(issue.due_date)
    &&& f.weight == weight_sent(issue.weight, include_weight)
}

/// The fields of a create request for `issue`: the shared ones, labels
/// only when there are some, the given assignees only when there are some.
pub open spec fn create_fields_match(
    f: GitlabIssueFields,
    issue: BackendIssueUpsert,
    assignee_ids: Seq<u64>,
    include_weight: bool,
) -> bool {
    &&& common_fields_match(f, issue, include_weight)
    &&& (if issue.labels@.len() > 0 {
        f.labels matches Some(ls) && string_views(ls@) == string_views(issue.labels@)
    } else {
        f.labels is None
    })
    &&& f.discussion_locked is None
    &&& f.state_event is None
    &&& (if assignee_ids.len() > 0 {
        f.assignees matches GitlabAssignees::Assign(v) && v@ == assignee_ids
    } else {
        f.assignees == GitlabAssignees::Unchanged
    })
}

/// The fields of an edit request for `issue`: the shared ones, the labels
/// always, the discussion lock, the state event, and the given assignees or
/// nobody.
pub open spec fn edit_fields_match(
    f: GitlabIssueFields,
    issue: BackendIssueUpsert,
    assignee_ids: Seq<u64>,
    include_weight: bool,
    event: Option<IssueStateEvent>,
) -> bool {
    &&& common_fields_match(f, issue, include_weight)
    &&& f.labels matches Some(ls) && string_views(ls@) == string_views(issue.labels@)
    &&& f.discussion_locked == issue.discussion_locked
    &&& f.state_event == event
    &&& (if assignee_ids.len() > 0 {
        f.assignees matches GitlabAssignees::Assign(v) && v@ == assignee_ids
    } else {
        f.assignees == GitlabAssignees::Unassign
    })
}

/// A copy of the ids.
fn copy_ids(ids: &Vec<u64>) -> (r: Vec<u64>)
    ensures
        r@ == ids@,
{
    let mut r: Vec<u64> = Vec::new();
    let mut i: usize = 0;
    while i < ids.len()
        invariant
            i <= ids@.len(),
            r@ == ids@.take(i as int),
        decreases ids@.len() - i,
    {
        r.push(ids[i]);
        i += 1;
        assert(r@ =~= ids@.take(i as int));
    }
    assert(ids@.take(ids@.len() as int) =~= ids@);
    r
}

/// Checks the due date of `issue`; a `Config` error with the parser's
/// message when it is not a `YYYY-MM-DD` date.
fn check_due_date(issue: &BackendIssueUpsert) -> (r: Result<(), RiptskError>)
    ensures
        match due_date_error(*issue) {
            Some(m) => r matches Err(RiptskError::Config(e)) && e@ == m,
            None => r is Ok,
        },
{
    match &issue.due_date {
        Some(d) => match ymd_date_error(d.as_str()) {
            Some(e) => Err(RiptskError::Config(e)),
            None => Ok(()),
        },
        None => Ok(()),
    }
}

/// The fields shared by create and edit requests.
fn common_fields(issue: &BackendIssueUpsert, include_weight: bool) -> (r: GitlabIssueFields)
    ensures
        common_fields_match(r, *issue, include_weight),
        r.labels is None,
        r.discussion_locked is None,
        r.state_event is None,
        r.assignees == GitlabAssignees::Unchanged,
{
    let weight = if include_weight {
        match issue.weight {
            Some(w) => Some(w as u64),
            None => None,
        }
    } else {
        None
    };
    GitlabIssueFields {
        title: issue.title.clone(),
        description: issue.body.clone(),
        labels: None,
        confidential: issue.confidential,
        milestone_id: issue.milestone_id,
        due_date: clone_opt_string(&issue.due_date),
        weight,
        discussion_locked: None,
        state_event: None,
        assignees: GitlabAssignees::Unchanged,
    }
}

/// The fields of the request that creates `issue`: labels only when there
/// are some, the given assignees only when there are some, the weight only
/// when `include_weight`. A due date that is not a date is a `Config` error.
pub fn create_issue_fields(issue: &BackendIssueUpsert, assignee_ids: &Vec<u64>, include_weight: bool) -> (r:
    Result<GitlabIssueFields, RiptskError>)
    ensures
        match due_date_error(*issue) {
            Some(m) => r matches Err(RiptskError::Config(e)) && e@ == m,
            None => r matches Ok(f) && create_fields_match(f, *issue, assignee_ids@, include_weight),
        },
{
    check_due_date(issue)?;
    let mut f = common_fields(issue, include_weight);
    if issue.labels.len() > 0 {
        f.labels = Some(clone_strings(&issue.labels));
    }
    if assignee_ids.len() > 0 {
        let ids = copy_ids(assignee_ids);
        f.assignees = GitlabAssignees::Assign(ids);
    }
    Ok(f)
}

/// The fields of the request that writes `issue` over an existing issue:
/// the labels always, the discussion lock when set, the state event of the
/// state when set, and the given assignees, or nobody when there are none.
/// A due date that is not a date, then a state GitLab has no event for, is a
/// `Config` error.
pub fn edit_issue_fields(issue: &BackendIssueUpsert, assignee_ids: &Vec<u64>, include_weight: bool) -> (r:
    Result<GitlabIssueFields, RiptskError>)
    ensures
        match due_date_error(*issue) {
            Some(m) => r matches Err(RiptskError::Config(e)) && e@ == m,
            None => match issue.state {
                Some(st) => if !(st@ == "open"@ || st@ == "opened"@ || st@ == "closed"@) {
                    r matches Err(RiptskError::Config(e)) && e@ == "unsupported gitlab issue state: "@
                        + st@
                } else {
                    r matches Ok(f) && edit_fields_match(
                        f,
                        *issue,
                        assignee_ids@,
                        include_weight,
                        Some(
                            if st@ == "closed"@ {
                                IssueStateEvent::Close
                            } else {
                                IssueStateEvent::Reopen
                            },
                        ),
                    )
                },
                None => r matches Ok(f) && edit_fields_match(
                    f,
                    *issue,
                    assignee_ids@,
                    include_weight,
                    None,
                ),
            },
        },
{
    check_due_date(issue)?;
    let mut f = common_fields(issue, include_weight);
    f.labels = Some(clone_strings(&issue.labels));
    f.discussion_locked = issue.discussion_locked;
    if let Some(st) = &issue.state {
        proof {
            reveal_strlit("open");
            reveal_strlit("opened");
            reveal_strlit("closed");
            assert("closed"@[0] != "open"@[0]);
            assert("closed"@[0] != "opened"@[0]);
        }
        let event = parse_gitlab_issue_state_event(st.as_str())?;
        f.state_event = Some(event);
    }
    if assignee_ids.len() > 0 {
        let ids = copy_ids(assignee_ids);
        f.assignees = GitlabAssignees::Assign(ids);
    } else {
        f.assignees = GitlabAssignees::Unassign;
    }
    Ok(f)
}

/// The id of the user named `username` among the users a lookup returned
/// (as `(username, id)`): the first with exactly that name.
pub open spec fn user_id_of(users: Seq<(Seq<char>, u64)>, username: Seq<char>) -> Option<u64>
    decreases users.len(),
{
    if users.len() == 0 {
        None
    } else if users[0].0 == username {
        Some(users[0].1)
    } else {
        user_id_of(users.drop_first(), username)
    }
}

/// The characters of looked-up users.
pub open spec fn users_view(users: Seq<(String, u64)>) -> Seq<(Seq<char>, u64)> {
    users.map_values(|u: (String, u64)| (u.0@, u.1))
}

/// The id of `username` among the users a lookup returned; an
/// `Unreachable` error when none has exactly that name.
pub fn find_user_id(users: &Vec<(String, u64)>, username: &str) -> (r: Result<u64, RiptskError>)
    ensures
        match user_id_of(users_view(users@), username@) {
            Some(id) => r == Ok::<u64, RiptskError>(id),
            None => r matches Err(RiptskError::Unreachable(m)) && m@ == "GitLab user not found: "@
                + username@,
        },
{
    let ghost uv = users_view(users@);
    let mut i: usize = 0;
    assert(uv.skip(0) =~= uv);
    while i < users.len()
        invariant
            i <= users@.len(),
            uv == users_view(users@),
            user_id_of(uv, username@) == user_id_of(uv.skip(i as int), username@),
        decreases users@.len() - i,
    {
        assert(uv.skip(i as int).drop_first() =~= uv.skip(i as int + 1));
        if str_eq(users[i].0.as_str(), username) {
            return Ok(users[i].1);
        }
        i += 1;
    }
    Err(RiptskError::Unreachable(concat2("GitLab user not found: ", username)))
}

/// What follows one poll of a merge request being rebased.
#[derive(Debug, Clone, PartialEq, Eq)]
pub enum RebaseStep {
    /// The rebase is over.
    Done,
    /// Poll again.
    Wait,
    /// Give up with this message.
    Failed(String),
}

/// The step after a poll of merge request `number`, `elapsed_secs` after the
/// rebase was triggered: a merge error fails; a finished rebase is done;
/// after ten minutes the wait fails; otherwise poll again.
pub fn rebase_poll_step(number: u64, merge_error: Option<&str>, rebase_in_progress: Option<bool>, elapsed_secs: u64) -> (r: RebaseStep)
    ensures
        r == (if merge_error matches Some(e) && e@.len() > 0 {
            RebaseStep::Failed(r->Failed_0)
        } else if rebase_in_progress != Some(true) {
            RebaseStep::Done
        } else if elapsed_secs >= 600 {
            RebaseStep::Failed(r->Failed_0)
        } else {
            RebaseStep::Wait
        }),
        merge_error matches Some(e) && e@.len() > 0 ==> (r matches RebaseStep::Failed(m) && m@
            == "rebase failed for MR !"@ + decimal(number as nat) + ": "@ + merge_error->Some_0@),
        !(merge_error matches Some(e) && e@.len() > 0) && rebase_in_progress == Some(true)
            && elapsed_secs >= 600 ==> (r matches RebaseStep::Failed(m) && m@
            == "timed out waiting for rebase of MR !"@ + decimal(number as nat)),
{
    if let Some(e) = merge_error {
        if e.unicode_len() > 0 {
            let mut m = String::from_str("rebase failed for MR !");
            let n = u64_to_decimal(number);
            m.append(n.as_str());
            m.append(": ");
            m.append(e);
            return RebaseStep::Failed(m);
        }
    }
    if rebase_in_progress != Some(true) {
        return RebaseStep::Done;
    }
    if elapsed_secs >= 600 {
        let mut m = String::from_str("timed out waiting for rebase of MR !");
        let n = u64_to_decimal(number);
        m.append(n.as_str());
        return RebaseStep::Failed(m);
    }
    RebaseStep::Wait
}

/// How a merge request is merged by a merge method: a rebase merge rebases
/// the request and waits for the rebase first, a squash merge squashes.
#[derive(Debug, Clone, Copy, PartialEq, Eq, Structural)]
pub struct GitlabMergePlan {
    pub rebase_first: bool,
    pub squash: bool,
}

/// The GitLab merge plan of a merge method.
pub fn gitlab_merge_plan(method: MergeMethod) -> (r: GitlabMergePlan)
    ensures
        r.rebase_first == (method == MergeMethod::Rebase),
        r.squash == (method == MergeMethod::Squash),
{
    GitlabMergePlan {
        rebase_first: method == MergeMethod::Rebase,
        squash: method == MergeMethod::Squash,
    }
}

} // verus!
