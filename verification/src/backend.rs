//! The exchange records between the local issue store and the hosted
//! backends (GitHub, GitLab, Jira), and the check-status vocabulary.

use vstd::prelude::*;

verus! {

/// Outcome of a delete attempt: backends that forbid hard deletion may close
/// the issue instead.
#[derive(Debug, Clone, Copy, PartialEq, Eq, Structural)]
pub enum DeleteOutcome {
    HardDeleted,
    SoftClosed,
}

impl Default for DeleteOutcome {
    fn default() -> (r: Self)
        ensures
            r == DeleteOutcome::HardDeleted,
    {
        DeleteOutcome::HardDeleted
    }
}

/// A remote issue in the form shared by every backend. Fields that do not
/// apply to a backend are `None` or empty.
#[derive(Debug, Clone, PartialEq, Eq, Default)]
pub struct BackendIssueRecord {
    pub issue_id: u64,
    /// GitHub GraphQL node id.
    pub node_id: Option<String>,
    pub title: String,
    /// `"open"` or `"closed"`.
    pub state: String,
    /// `"completed"`, `"not_planned"` or `"duplicate"`.
    pub state_reason: Option<String>,
    /// Includes `status::` labels for the fine-grained state.
    pub labels: Vec<String>,
    pub assignees: Vec<String>,
    pub milestone: Option<String>,
    pub milestone_id: Option<u64>,
    pub body: Option<String>,
    /// Browse URL.
    pub url: String,
    /// RFC 3339 time of the last remote update.
    pub updated_at: String,
    pub due_date: Option<String>,
    pub weight: Option<u32>,
    pub confidential: Option<bool>,
    pub discussion_locked: Option<bool>,
    /// Jira issue type name.
    pub issue_type: Option<String>,
    pub locked: Option<bool>,
    pub lock_reason: Option<String>,
    pub comments: Vec<String>,
    pub linked_mrs: Vec<String>,
    /// Jira Cloud account id of the assignee.
    pub assignee_account_id: Option<String>,
    /// Jira Server/DC user name of the assignee.
    pub assignee_name: Option<String>,
}

/// What is sent to a backend to create or update an issue.
#[derive(Debug, Clone, PartialEq, Eq, Default)]
pub struct BackendIssueUpsert {
    pub title: String,
    pub body: String,
    pub state: Option<String>,
    pub state_reason: Option<String>,
    pub labels: Vec<String>,
    pub assignees: Vec<String>,
    pub milestone_id: Option<u64>,
    pub due_date: Option<String>,
    pub weight: Option<u32>,
    pub confidential: Option<bool>,
    pub discussion_locked: Option<bool>,
    pub assignee_account_id: Option<String>,
    pub assignee_name: Option<String>,
}

/// A pull (or merge) request.
#[derive(Debug, Clone, PartialEq, Eq, Default)]
pub struct BackendPrRecord {
    pub number: u64,
    pub title: String,
    pub body: String,
    pub url: String,
    pub state: String,
    pub head: String,
    pub head_sha: Option<String>,
    pub base: String,
    pub node_id: Option<String>,
    pub merged: bool,
    pub updated_at: String,
}

/// How a pull request is merged.
#[derive(Debug, Clone, Copy, PartialEq, Eq, Structural)]
pub enum MergeMethod {
    Merge,
    Squash,
    Rebase,
}

impl Default for MergeMethod {
    fn default() -> (r: Self)
        ensures
            r == MergeMethod::Rebase,
    {
        MergeMethod::Rebase
    }
}

/// Roll-up state of the checks on a pull request.
#[derive(Debug, Clone, Copy, PartialEq, Eq, Structural)]
pub enum PrChecksStatus {
    /// No checks at all (named `None` in the command's vocabulary).
    NoChecks,
    Pending,
    Passed,
    Failed,
}

impl Default for PrChecksStatus {
    fn default() -> (r: Self)
        ensures
            r == PrChecksStatus::NoChecks,
    {
        PrChecksStatus::NoChecks
    }
}

/// Checks on a pull request head: which were expected, which registered,
/// each one's state, and the roll-up.
#[derive(Debug, Clone, Default)]
pub struct PrChecksReport {
    pub head_sha: String,
    pub expected: Vec<String>,
    pub registered: Vec<String>,
    pub items: Vec<PrCheckItem>,
    pub status: PrChecksStatus,
    pub warnings: Vec<String>,
}

/// One named check and its state.
#[derive(Debug, Clone, PartialEq, Eq)]
pub struct PrCheckItem {
    pub name: String,
    pub state: PrChecksStatus,
    pub url: Option<String>,
}

/// Whether CI exists remotely for a repository, and its workflow names.
#[derive(Debug, Clone, PartialEq, Eq, Default)]
pub struct CiPresence {
    pub has_remote_ci: bool,
    pub remote_workflow_names: Vec<String>,
}

} // verus!
