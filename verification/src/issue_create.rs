//! Creating an issue: where its title and body come from, which tracker it
//! goes to, what is sent there, and the issue file recorded for it.

use crate::backend::{BackendIssueRecord, BackendIssueUpsert};
use crate::domain::{
    BackendKind, GithubIssueMeta, GitlabIssueMeta, IssueDocument, IssueFrontmatter, IssueState,
    JiraIssueMeta, Priority, RepoProject,
};
use crate::error::RiptskError;
use crate::jira::project_key_of;
use crate::jira_api::JiraProvider;
use crate::text::{
    after_last, after_last_char, clone_opt_string, clone_strings, opt_view, str_eq, string_views,
};
use vstd::prelude::*;

verus! {

/// Where the content of a new issue comes from.
#[derive(Debug, Clone, Copy, PartialEq, Eq, Structural)]
pub enum ContentPlan {
    /// No title was given: the AI writes title and body.
    GenerateAll,
    /// A title but no description, and AI asked for: the AI writes the body.
    GenerateBody,
    /// Use what was given, the template filling in a missing body.
    Keep,
}

/// Where the content of a new issue comes from.
pub fn content_plan(title: &Option<String>, description: &Option<String>, ai: bool) -> (r: ContentPlan)
    ensures
        title is None ==> r == ContentPlan::GenerateAll,
        title is Some && description is None && ai ==> r == ContentPlan::GenerateBody,
        title is Some && !(description is None && ai) ==> r == ContentPlan::Keep,
{
    if title.is_none() {
        ContentPlan::GenerateAll
    } else if description.is_none() && ai {
        ContentPlan::GenerateBody
    } else {
        ContentPlan::Keep
    }
}

/// The body of a new issue: the description given, else the body the AI
/// wrote, else the template's.
pub fn issue_body(description: Option<String>, generated: Option<String>, template_body: String) -> (r:
    String)
    ensures
        r == (match description {
            Some(d) => d,
            None => match generated {
                Some(g) => g,
                None => template_body,
            },
        }),
{
    match description {
        Some(d) => d,
        None => match generated {
            Some(g) => g,
            None => template_body,
        },
    }
}

/// The error when the AI could not write an issue and no title was given.
pub fn generation_failed_message(error: &str) -> (r: String)
    ensures
        r@ == "AI issue generation failed and no --title provided\n"@ + error@,
{
    let mut r = String::from_str("AI issue generation failed and no --title provided\n");
    r.append(error);
    r
}

/// Whether issues of a tracker kind are created remotely.
pub open spec fn is_hosted(kind: Option<BackendKind>) -> bool {
    kind matches Some(k) && k != BackendKind::Local
}

/// Whether a draft bound to a tracker of `kind` is created remotely (GitHub,
/// GitLab, Jira) rather than only in the local store.
pub fn creates_remotely(kind: Option<BackendKind>) -> (r: bool)
    ensures
        r == is_hosted(kind),
{
    match kind {
        Some(BackendKind::Local) => false,
        Some(_) => true,
        None => false,
    }
}

/// The repository an issue is created in: the tasks backend's repo on
/// GitHub and GitLab, its project on Jira; a local project has none.
pub open spec fn hosted_repo_of(p: RepoProject) -> Result<Seq<char>, Seq<char>> {
    match p.tasks_backend.kind {
        BackendKind::Github | BackendKind::Gitlab => match p.tasks_backend.repo {
            Some(r) => Ok(r@),
            None => Err("RepoProject "@ + p.name@ + " is missing TasksBackend repo"@),
        },
        BackendKind::Jira => match p.tasks_backend.jira_project {
            Some(j) => Ok(j@),
            None => Err("RepoProject "@ + p.name@ + " is missing JiraProject"@),
        },
        BackendKind::Local => Err("RepoProject "@ + p.name@ + " does not have a hosted TasksBackend"@),
    }
}

/// The repository (or Jira project) a project's issues are created in; a
/// `Config` error when the project does not name one.
pub fn hosted_issue_repo(repo_project: &RepoProject) -> (r: Result<String, RiptskError>)
    ensures
        match hosted_repo_of(*repo_project) {
            Ok(x) => r matches Ok(y) && y@ == x,
            Err(m) => r matches Err(RiptskError::Config(e)) && e@ == m,
        },
{
    let name = repo_project.name.as_str();
    match repo_project.tasks_backend.kind {
        BackendKind::Github | BackendKind::Gitlab => match &repo_project.tasks_backend.repo {
            Some(r) => Ok(r.clone()),
            None => Err(RiptskError::Config(project_message(name, " is missing TasksBackend repo"))),
        },
        BackendKind::Jira => match &repo_project.tasks_backend.jira_project {
            Some(j) => Ok(j.clone()),
            None => Err(RiptskError::Config(project_message(name, " is missing JiraProject"))),
        },
        BackendKind::Local => Err(
            RiptskError::Config(project_message(name, " does not have a hosted TasksBackend")),
        ),
    }
}

/// `RepoProject {name}` followed by `what`.
fn project_message(name: &str, what: &str) -> (r: String)
    ensures
        r@ == "RepoProject "@ + name@ + what@,
{
    let mut r = String::from_str("RepoProject ");
    r.append(name);
    r.append(what);
    r
}

/// The labels sent for a new issue: its labels, then the project's label
/// when that is not among them yet.
pub fn with_project_label(labels: Vec<String>, project_label: Option<&str>) -> (r: Vec<String>)
    ensures
        string_views(r@) == (match project_label {
            Some(l) => if string_views(labels@).contains(l@) {
                string_views(labels@)
            } else {
                string_views(labels@).push(l@)
            },
            None => string_views(labels@),
        }),
{
    match project_label {
        None => labels,
        Some(l) => {
            let ghost views = string_views(labels@);
            let mut i: usize = 0;
            while i < labels.len()
                invariant
                    i <= labels@.len(),
                    views == string_views(labels@),
                    project_label == Some(l),
                    forall|j: int| 0 <= j < i ==> views[j] != l@,
                decreases labels@.len() - i,
            {
                if str_eq(labels[i].as_str(), l) {
                    assert(views[i as int] == l@);
                    assert(views.contains(l@));
                    return labels;
                }
                i += 1;
            }
            let mut out = labels;
            out.push(String::from_str(l));
            assert(string_views(out@) =~= views.push(l@));
            out
        },
    }
}

/// What is sent to create an issue: title, body, labels and assignee; the
/// other fields are left to the tracker.
pub fn new_issue_upsert(title: &str, body: &str, labels: Vec<String>, assignee: &Option<String>) -> (r:
    BackendIssueUpsert)
    ensures
        r.title@ == title@,
        r.body@ == body@,
        r.labels == labels,
        string_views(r.assignees@) == (match assignee {
            Some(a) => seq![a@],
            None => Seq::<Seq<char>>::empty(),
        }),
        r.state is None && r.state_reason is None && r.milestone_id is None && r.due_date is None,
        r.weight is None && r.confidential is None && r.discussion_locked is None,
        r.assignee_account_id is None && r.assignee_name is None,
{
    let mut assignees: Vec<String> = Vec::new();
    if let Some(a) = assignee {
        assignees.push(a.clone());
    }
    proof {
        if let Some(a) = assignee {
            assert(string_views(assignees@) =~= seq![a@]);
        } else {
            assert(string_views(assignees@) =~= Seq::<Seq<char>>::empty());
        }
    }
    BackendIssueUpsert {
        title: String::from_str(title),
        body: String::from_str(body),
        state: None,
        state_reason: None,
        labels,
        assignees,
        milestone_id: None,
        due_date: None,
        weight: None,
        confidential: None,
        discussion_locked: None,
        assignee_account_id: None,
        assignee_name: None,
    }
}

/// What a new issue was prepared with, before it is created.
#[derive(Debug, Clone, PartialEq, Eq)]
pub struct IssueDraft {
    pub title: String,
    pub body: String,
    pub status: IssueState,
    pub board: String,
    pub project: String,
    pub org: Option<String>,
    pub priority: Priority,
    pub labels: Vec<String>,
    pub assignee: Option<String>,
    pub order: i64,
    /// The tracker kind of the draft's project, when it has one.
    pub tasks_backend_kind: Option<BackendKind>,
}

/// The link to the created GitLab issue, recorded in the issue file.
pub fn gitlab_link(repo: &str, record: &BackendIssueRecord, status: IssueState) -> (r: GitlabIssueMeta)
    ensures
        r.repo@ == repo@,
        r.issue_id == Some(record.issue_id),
        r.milestone_id == record.milestone_id,
        opt_view(r.url) == Some(record.url@),
        r.updated_at@ == record.updated_at@,
        r.last_pushed_state == Some(status),
{
    GitlabIssueMeta {
        repo: String::from_str(repo),
        issue_id: Some(record.issue_id),
        milestone_id: record.milestone_id,
        url: Some(record.url.clone()),
        updated_at: record.updated_at.clone(),
        last_pushed_state: Some(status),
    }
}

/// The link to the created GitHub issue, recorded in the issue file.
pub fn github_link(repo: &str, record: &BackendIssueRecord, status: IssueState) -> (r: GithubIssueMeta)
    ensures
        r.repo@ == repo@,
        r.issue_id == Some(record.issue_id),
        opt_view(r.node_id) == opt_view(record.node_id),
        r.milestone_id == record.milestone_id,
        opt_view(r.url) == Some(record.url@),
        r.updated_at@ == record.updated_at@,
        r.last_pushed_state == Some(status),
{
    GithubIssueMeta {
        repo: String::from_str(repo),
        issue_id: Some(record.issue_id),
        node_id: clone_opt_string(&record.node_id),
        milestone_id: record.milestone_id,
        url: Some(record.url.clone()),
        updated_at: record.updated_at.clone(),
        last_pushed_state: Some(status),
    }
}

/// The link to the created Jira issue, recorded in the issue file: the
/// project key of `repo` and the issue key, the last segment of its URL.
pub fn jira_link(repo: &str, record: &BackendIssueRecord, status: IssueState) -> (r: JiraIssueMeta)
    ensures
        r.project_key@ == project_key_of(repo@),
        opt_view(r.issue_key) == Some(after_last(record.url@, '/')),
        r.issue_id == Some(record.issue_id),
        opt_view(r.url) == Some(record.url@),
        r.updated_at@ == record.updated_at@,
        r.last_pushed_state == Some(status),
        opt_view(r.issue_type) == opt_view(record.issue_type),
        opt_view(r.assignee_account_id) == opt_view(record.assignee_account_id),
        opt_view(r.assignee_name) == opt_view(record.assignee_name),
{
    JiraIssueMeta {
        project_key: JiraProvider::project_key(repo),
        issue_key: Some(after_last_char(record.url.as_str(), '/')),
        issue_id: Some(record.issue_id),
        url: Some(record.url.clone()),
        updated_at: record.updated_at.clone(),
        last_pushed_state: Some(status),
        issue_type: clone_opt_string(&record.issue_type),
        assignee_account_id: clone_opt_string(&record.assignee_account_id),
        assignee_name: clone_opt_string(&record.assignee_name),
    }
}

/// The issue file recorded for an issue created remotely on a tracker of
/// `kind` in `repo`: the draft's fields, the link to the remote issue for
/// that tracker only, and the remote fields of `record`. `id` and `id_slug`
/// are the issue's local id and slug.
pub fn backend_issue_document(
    draft: &IssueDraft,
    kind: BackendKind,
    repo: &str,
    record: &BackendIssueRecord,
    id: String,
    id_slug: String,
) -> (r: IssueDocument)
    ensures
        r.frontmatter.id == id,
        r.frontmatter.title@ == draft.title@,
        r.frontmatter.status == draft.status,
        r.frontmatter.board@ == draft.board@,
        r.frontmatter.project@ == draft.project@,
        opt_view(r.frontmatter.org) == opt_view(draft.org),
        r.frontmatter.priority == Some(draft.priority),
        string_views(r.frontmatter.labels@) == string_views(draft.labels@),
        string_views(r.frontmatter.assignees@) == (match draft.assignee {
            Some(a) => seq![a@],
            None => Seq::<Seq<char>>::empty(),
        }),
        opt_view(r.frontmatter.milestone) == opt_view(record.milestone),
        opt_view(r.frontmatter.state_reason) == opt_view(record.state_reason),
        r.frontmatter.cycle is None,
        r.frontmatter.order == Some(draft.order),
        (kind == BackendKind::Gitlab) == r.frontmatter.gitlab is Some,
        (kind == BackendKind::Github) == r.frontmatter.github is Some,
        (kind == BackendKind::Jira) == r.frontmatter.jira is Some,
        r.frontmatter.gitlab matches Some(m) ==> m.repo@ == repo@ && m.issue_id == Some(
            record.issue_id,
        ) && opt_view(m.url) == Some(record.url@) && m.last_pushed_state == Some(draft.status),
        r.frontmatter.github matches Some(m) ==> m.repo@ == repo@ && m.issue_id == Some(
            record.issue_id,
        ) && opt_view(m.url) == Some(record.url@) && m.last_pushed_state == Some(draft.status),
        r.frontmatter.jira matches Some(m) ==> m.project_key@ == project_key_of(repo@)
            && opt_view(m.issue_key) == Some(after_last(record.url@, '/')) && m.issue_id == Some(
            record.issue_id,
        ) && m.last_pushed_state == Some(draft.status),
        r.frontmatter.local_updated_at@ == record.updated_at@,
        opt_view(r.frontmatter.due) == opt_view(record.due_date),
        r.frontmatter.weight == record.weight,
        r.frontmatter.confidential == record.confidential,
        r.frontmatter.discussion_locked == record.discussion_locked,
        opt_view(r.frontmatter.issue_type) == opt_view(record.issue_type),
        r.frontmatter.locked == record.locked,
        opt_view(r.frontmatter.lock_reason) == opt_view(record.lock_reason),
        r.frontmatter.recurring is None,
        !r.frontmatter.remote_deleted,
        r.frontmatter.id_slug == Some(id_slug),
        r.frontmatter.branch is None && r.frontmatter.pr_url is None && r.frontmatter.pr_number is None,
        r.body@ == draft.body@,
        r.remote_section is None,
{
    let status = draft.status;
    let mut assignees: Vec<String> = Vec::new();
    if let Some(a) = &draft.assignee {
        assignees.push(a.clone());
    }
    proof {
        if let Some(a) = &draft.assignee {
            assert(string_views(assignees@) =~= seq![a@]);
        } else {
            assert(string_views(assignees@) =~= Seq::<Seq<char>>::empty());
        }
    }
    let gitlab = if kind == BackendKind::Gitlab {
        Some(gitlab_link(repo, record, status))
    } else {
        None
    };
    let github = if kind == BackendKind::Github {
        Some(github_link(repo, record, status))
    } else {
        None
    };
    let jira = if kind == BackendKind::Jira {
        Some(jira_link(repo, record, status))
    } else {
        None
    };
    let frontmatter = IssueFrontmatter {
        id,
        title: draft.title.clone(),
        status,
        board: draft.board.clone(),
        project: draft.project.clone(),
        org: clone_opt_string(&draft.org),
        priority: Some(draft.priority),
        labels: clone_strings(&draft.labels),
        assignees,
        milestone: clone_opt_string(&record.milestone),
        state_reason: clone_opt_string(&record.state_reason),
        cycle: None,
        order: Some(draft.order),
        gitlab,
        github,
        jira,
        local_updated_at: record.updated_at.clone(),
        due: clone_opt_string(&record.due_date),
        weight: record.weight,
        confidential: record.confidential,
        discussion_locked: record.discussion_locked,
        issue_type: clone_opt_string(&record.issue_type),
        locked: record.locked,
        lock_reason: clone_opt_string(&record.lock_reason),
        recurring: None,
        remote_deleted: false,
        id_slug: Some(id_slug),
        branch: None,
        pr_url: None,
        pr_number: None,
    };
    IssueDocument { frontmatter, body: draft.body.clone(), remote_section: None }
}

/// The commit message recorded in the issue store after `action` (`new`,
/// `edit`, `status`, `rm`) on the issue `id` titled `title`.
pub fn store_commit_message(action: &str, id: &str, title: &str) -> (r: String)
    ensures
        r@ == "riptsk: "@ + action@ + " "@ + id@ + " - "@ + title@,
{
    let mut r = String::from_str("riptsk: ");
    r.append(action);
    r.append(" ");
    r.append(id);
    r.append(" - ");
    r.append(title);
    r
}

} // verus!
