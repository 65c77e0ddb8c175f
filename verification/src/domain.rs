//! The issue document kept in the local store and the project configuration
//! that the commands consult.

use crate::text::str_eq;
use vstd::prelude::*;

verus! {

/// Workflow state of an issue.
#[derive(Debug, Clone, Copy, PartialEq, Eq, Structural)]
pub enum IssueState {
    Backlog,
    Todo,
    InProgress,
    Review,
    Done,
}

impl IssueState {
    pub open spec fn spec_name(&self) -> Seq<char> {
        match self {
            IssueState::Backlog => "backlog"@,
            IssueState::Todo => "todo"@,
            IssueState::InProgress => "in-progress"@,
            IssueState::Review => "review"@,
            IssueState::Done => "done"@,
        }
    }

    /// The state's name as written in issue files.
    pub fn as_str(&self) -> (r: &'static str)
        ensures
            r@ == self.spec_name(),
    {
        match self {
            IssueState::Backlog => "backlog",
            IssueState::Todo => "todo",
            IssueState::InProgress => "in-progress",
            IssueState::Review => "review",
            IssueState::Done => "done",
        }
    }
}

/// The state whose name is `name`, if any.
pub open spec fn state_named(name: Seq<char>) -> Option<IssueState> {
    if name == "backlog"@ {
        Some(IssueState::Backlog)
    } else if name == "todo"@ {
        Some(IssueState::Todo)
    } else if name == "in-progress"@ {
        Some(IssueState::InProgress)
    } else if name == "review"@ {
        Some(IssueState::Review)
    } else if name == "done"@ {
        Some(IssueState::Done)
    } else {
        None
    }
}

impl IssueState {
    /// The state written as `name` in issue files, if any.
    pub fn from_name(name: &str) -> (r: Option<IssueState>)
        ensures
            r == state_named(name@),
    {
        if str_eq(name, "backlog") {
            Some(IssueState::Backlog)
        } else if str_eq(name, "todo") {
            Some(IssueState::Todo)
        } else if str_eq(name, "in-progress") {
            Some(IssueState::InProgress)
        } else if str_eq(name, "review") {
            Some(IssueState::Review)
        } else if str_eq(name, "done") {
            Some(IssueState::Done)
        } else {
            None
        }
    }
}

/// Reading back the name a state is written as gives that state.
pub proof fn lemma_state_name_round_trip(s: IssueState)
    ensures
        state_named(s.spec_name()) == Some(s),
{
    reveal_strlit("backlog");
    reveal_strlit("todo");
    reveal_strlit("in-progress");
    reveal_strlit("review");
    reveal_strlit("done");
    assert("backlog"@.len() == 7);
    assert("todo"@.len() == 4);
    assert("in-progress"@.len() == 11);
    assert("review"@.len() == 6);
    assert("done"@.len() == 4);
    assert("todo"@[0] != "done"@[0]);
    assert("todo"@ != "done"@);
}

/// A name read as a state is the name that state is written as.
pub proof fn lemma_state_named_is_name(name: Seq<char>)
    ensures
        state_named(name) matches Some(s) ==> s.spec_name() == name,
{
}

/// Priority of an issue.
#[derive(Debug, Clone, Copy, PartialEq, Eq, Structural)]
pub enum Priority {
    Low,
    Medium,
    High,
    Urgent,
}

impl Priority {
    pub open spec fn spec_name(&self) -> Seq<char> {
        match self {
            Priority::Low => "low"@,
            Priority::Medium => "medium"@,
            Priority::High => "high"@,
            Priority::Urgent => "urgent"@,
        }
    }

    /// The priority's name as written in issue files.
    pub fn as_str(&self) -> (r: &'static str)
        ensures
            r@ == self.spec_name(),
    {
        match self {
            Priority::Low => "low",
            Priority::Medium => "medium",
            Priority::High => "high",
            Priority::Urgent => "urgent",
        }
    }
}

/// The priority whose name is `name`, if any.
pub open spec fn priority_named(name: Seq<char>) -> Option<Priority> {
    if name == "low"@ {
        Some(Priority::Low)
    } else if name == "medium"@ {
        Some(Priority::Medium)
    } else if name == "high"@ {
        Some(Priority::High)
    } else if name == "urgent"@ {
        Some(Priority::Urgent)
    } else {
        None
    }
}

impl Priority {
    /// The priority written as `name` in issue files, if any.
    pub fn from_name(name: &str) -> (r: Option<Priority>)
        ensures
            r == priority_named(name@),
    {
        if str_eq(name, "low") {
            Some(Priority::Low)
        } else if str_eq(name, "medium") {
            Some(Priority::Medium)
        } else if str_eq(name, "high") {
            Some(Priority::High)
        } else if str_eq(name, "urgent") {
            Some(Priority::Urgent)
        } else {
            None
        }
    }
}

/// Reading back the name a priority is written as gives that priority.
pub proof fn lemma_priority_name_round_trip(p: Priority)
    ensures
        priority_named(p.spec_name()) == Some(p),
{
    reveal_strlit("low");
    reveal_strlit("medium");
    reveal_strlit("high");
    reveal_strlit("urgent");
    assert("low"@.len() == 3);
    assert("medium"@.len() == 6);
    assert("high"@.len() == 4);
    assert("urgent"@.len() == 6);
    assert("medium"@[0] != "urgent"@[0]);
    assert("medium"@ != "urgent"@);
}

/// A name read as a priority is the name that priority is written as.
pub proof fn lemma_priority_named_is_name(name: Seq<char>)
    ensures
        priority_named(name) matches Some(p) ==> p.spec_name() == name,
{
}

/// Link of an issue to a GitHub issue.
#[derive(Debug, Clone, PartialEq, Eq)]
pub struct GithubIssueMeta {
    pub repo: String,
    pub issue_id: Option<u64>,
    pub node_id: Option<String>,
    pub milestone_id: Option<u64>,
    pub url: Option<String>,
    pub updated_at: String,
    pub last_pushed_state: Option<IssueState>,
}

/// Link of an issue to a GitLab issue.
#[derive(Debug, Clone, PartialEq, Eq)]
pub struct GitlabIssueMeta {
    pub repo: String,
    pub issue_id: Option<u64>,
    pub milestone_id: Option<u64>,
    pub url: Option<String>,
    pub updated_at: String,
    pub last_pushed_state: Option<IssueState>,
}

/// Link of an issue to a Jira issue.
#[derive(Debug, Clone, PartialEq, Eq)]
pub struct JiraIssueMeta {
    pub project_key: String,
    pub issue_key: Option<String>,
    pub issue_id: Option<u64>,
    pub url: Option<String>,
    pub updated_at: String,
    pub last_pushed_state: Option<IssueState>,
    pub issue_type: Option<String>,
    pub assignee_account_id: Option<String>,
    pub assignee_name: Option<String>,
}

/// The YAML frontmatter of an issue file.
#[derive(Debug, Clone, PartialEq, Eq)]
pub struct IssueFrontmatter {
    pub id: String,
    pub title: String,
    pub status: IssueState,
    pub board: String,
    pub project: String,
    pub org: Option<String>,
    pub priority: Option<Priority>,
    pub labels: Vec<String>,
    pub assignees: Vec<String>,
    pub milestone: Option<String>,
    pub state_reason: Option<String>,
    pub cycle: Option<String>,
    pub order: Option<i64>,
    pub gitlab: Option<GitlabIssueMeta>,
    pub github: Option<GithubIssueMeta>,
    pub jira: Option<JiraIssueMeta>,
    pub local_updated_at: String,
    pub due: Option<String>,
    pub weight: Option<u32>,
    pub confidential: Option<bool>,
    pub discussion_locked: Option<bool>,
    pub issue_type: Option<String>,
    pub locked: Option<bool>,
    pub lock_reason: Option<String>,
    pub recurring: Option<String>,
    pub remote_deleted: bool,
    pub id_slug: Option<String>,
    pub branch: Option<String>,
    pub pr_url: Option<String>,
    pub pr_number: Option<u64>,
}

/// An issue file: frontmatter, Markdown body, and the remote section kept
/// during a sync conflict.
#[derive(Debug, Clone, PartialEq, Eq)]
pub struct IssueDocument {
    pub frontmatter: IssueFrontmatter,
    pub body: String,
    pub remote_section: Option<String>,
}

/// Kind of backend a project uses.
#[derive(Debug, Clone, Copy, PartialEq, Eq, Structural)]
pub enum BackendKind {
    Github,
    Gitlab,
    Jira,
    Local,
}

impl BackendKind {
    pub open spec fn spec_name(&self) -> Seq<char> {
        match self {
            BackendKind::Github => "github"@,
            BackendKind::Gitlab => "gitlab"@,
            BackendKind::Jira => "jira"@,
            BackendKind::Local => "local"@,
        }
    }

    /// The kind's name as written in the configuration.
    pub fn as_str(&self) -> (r: &'static str)
        ensures
            r@ == self.spec_name(),
    {
        match self {
            BackendKind::Github => "github",
            BackendKind::Gitlab => "gitlab",
            BackendKind::Jira => "jira",
            BackendKind::Local => "local",
        }
    }
}

/// Where a project's issues (or its code) live.
#[derive(Debug, Clone, PartialEq, Eq)]
pub struct ProjectBackend {
    pub kind: BackendKind,
    pub host: Option<String>,
    /// `owner/repo` or `group/project` on GitHub and GitLab.
    pub repo: Option<String>,
    /// `org/PROJECT_KEY` on Jira.
    pub jira_project: Option<String>,
    /// The local checkout of the repository.
    pub path: Option<String>,
}

/// A registered project: its issue tracker and its version control.
#[derive(Debug, Clone, PartialEq, Eq)]
pub struct RepoProject {
    pub name: String,
    pub key: Option<String>,
    /// Label that marks this project's issues in a shared tracker.
    pub repo_project_label: Option<String>,
    pub tasks_backend: ProjectBackend,
    pub vc_backend: ProjectBackend,
}

/// The AI section of the configuration.
#[derive(Debug, Clone, PartialEq, Eq, Default)]
pub struct AiConfig {
    /// Whether AI assistance is on at all.
    pub enabled: bool,
    /// Shell command template run for AI tasks.
    pub command: Option<String>,
    pub features: AiFeatures,
}

/// Which AI-assisted features are on.
#[derive(Debug, Clone, PartialEq, Eq, Default)]
pub struct AiFeatures {
    pub summarize: bool,
    pub ask: bool,
    pub commit: bool,
    pub new_body_gen: bool,
}

/// A board and its statuses.
#[derive(Debug, Clone, PartialEq, Eq, Default)]
pub struct BoardConfig {
    pub name: String,
    pub statuses: Vec<String>,
}

/// The effective configuration that the commands consult.
#[derive(Debug, Clone, PartialEq, Eq, Default)]
pub struct Config {
    pub projects: Vec<RepoProject>,
    pub boards: Vec<BoardConfig>,
    pub ai: AiConfig,
    pub auto_commit: bool,
}

} // verus!
