//! Issue commands: where an issue lives remotely, how its fields are
//! shown, and the decisions of close, reopen, remove and load.

use crate::cli::{IdArgs, StatusArgs};
use crate::domain::{BackendKind, Config, IssueDocument, RepoProject};
use crate::error::RiptskError;
use crate::text::{
    chars_of, concat2, join, opt_view, seqs_of, split_chars, split_on, str_eq,
    string_of_range, string_views,
};
use vstd::prelude::*;

verus! {

/// The first remote URL of an issue, GitHub before GitLab before Jira; a
/// backend without a URL is passed over.
pub open spec fn remote_url_of(issue: IssueDocument) -> Option<Seq<char>> {
    let fm = issue.frontmatter;
    if fm.github matches Some(m) && m.url is Some {
        opt_view(fm.github->0.url)
    } else if fm.gitlab matches Some(m) && m.url is Some {
        opt_view(fm.gitlab->0.url)
    } else if fm.jira matches Some(m) && m.url is Some {
        opt_view(fm.jira->0.url)
    } else {
        None
    }
}

/// The first available remote URL of an issue; none for a local issue.
pub fn issue_remote_url(issue: &IssueDocument) -> (r: Option<&str>)
    ensures
        match r {
            Some(u) => remote_url_of(*issue) == Some(u@),
            None => remote_url_of(*issue).is_none(),
        },
{
    match &issue.frontmatter.github {
        Some(meta) => match &meta.url {
            Some(url) => {
                return Some(url.as_str());
            },
            None => {},
        },
        None => {},
    }
    match &issue.frontmatter.gitlab {
        Some(meta) => match &meta.url {
            Some(url) => {
                return Some(url.as_str());
            },
            None => {},
        },
        None => {},
    }
    match &issue.frontmatter.jira {
        Some(meta) => match &meta.url {
            Some(url) => {
                return Some(url.as_str());
            },
            None => {},
        },
        None => {},
    }
    None
}

/// The name under which a project's tracker keeps its state.
pub open spec fn provider_name_of(kind: BackendKind) -> Seq<char> {
    match kind {
        BackendKind::Github => "github"@,
        BackendKind::Gitlab => "gitlab"@,
        BackendKind::Jira => "jira"@,
        BackendKind::Local => "local"@,
    }
}

/// The name of a project's issue tracker.
pub fn provider_name(repo_project: &RepoProject) -> (r: &'static str)
    ensures
        r@ == provider_name_of(repo_project.tasks_backend.kind),
{
    match repo_project.tasks_backend.kind {
        BackendKind::Github => "github",
        BackendKind::Gitlab => "gitlab",
        BackendKind::Jira => "jira",
        BackendKind::Local => "local",
    }
}

/// What a removed issue is remembered by remotely: its first backend
/// (GitHub, GitLab, Jira), that backend's repository (or Jira project key),
/// and its remote number; nothing when the first backend has no number.
pub open spec fn delete_target_of(issue: IssueDocument) -> Option<(Seq<char>, Seq<char>, u64)> {
    let fm = issue.frontmatter;
    if fm.github is Some {
        let m = fm.github->0;
        match m.issue_id {
            Some(n) => Some(("github"@, m.repo@, n)),
            None => None,
        }
    } else if fm.gitlab is Some {
        let m = fm.gitlab->0;
        match m.issue_id {
            Some(n) => Some(("gitlab"@, m.repo@, n)),
            None => None,
        }
    } else if fm.jira is Some {
        let m = fm.jira->0;
        match m.issue_id {
            Some(n) => Some(("jira"@, m.project_key@, n)),
            None => None,
        }
    } else {
        None
    }
}

/// The remote identity of an issue being removed, if it has one.
pub fn backend_delete_target(issue: &IssueDocument) -> (r: Option<(&'static str, String, u64)>)
    ensures
        match r {
            Some((p, repo, n)) => delete_target_of(*issue) == Some((p@, repo@, n)),
            None => delete_target_of(*issue).is_none(),
        },
{
    match &issue.frontmatter.github {
        Some(meta) => {
            return match meta.issue_id {
                Some(n) => Some(("github", meta.repo.clone(), n)),
                None => None,
            };
        },
        None => {},
    }
    match &issue.frontmatter.gitlab {
        Some(meta) => {
            return match meta.issue_id {
                Some(n) => Some(("gitlab", meta.repo.clone(), n)),
                None => None,
            };
        },
        None => {},
    }
    match &issue.frontmatter.jira {
        Some(meta) => {
            return match meta.issue_id {
                Some(n) => Some(("jira", meta.project_key.clone(), n)),
                None => None,
            };
        },
        None => {},
    }
    None
}

/// The status change that `close` asks for: to done.
pub fn close(args: IdArgs) -> (r: StatusArgs)
    ensures
        r.scope == args.scope,
        r.pick == args.pick,
        r.id == args.id,
        r.status matches Some(s) && s@ == "done"@,
{
    StatusArgs {
        scope: args.scope,
        pick: args.pick,
        id: args.id,
        status: Some(String::from_str("done")),
    }
}

/// The status change that `reopen` asks for: to todo.
pub fn reopen(args: IdArgs) -> (r: StatusArgs)
    ensures
        r.scope == args.scope,
        r.pick == args.pick,
        r.id == args.id,
        r.status matches Some(s) && s@ == "todo"@,
{
    StatusArgs {
        scope: args.scope,
        pick: args.pick,
        id: args.id,
        status: Some(String::from_str("todo")),
    }
}

/// What reading an issue file gave.
#[derive(Debug, Clone)]
pub enum IssueLoad {
    Loaded(IssueDocument),
    /// The file holds conflict markers of an unfinished sync.
    Conflict,
    /// The file could not be read or parsed; why.
    Failed(String),
}

/// The message for an issue with unresolved sync conflicts, naming the
/// commands that resolve them.
pub open spec fn conflict_message(id: Seq<char>) -> Seq<char> {
    "issue "@ + id + " has unresolved sync conflicts\n\n  Edit the file to resolve:\n    tsk edit "@
        + id + "\n\n  Then mark resolved:\n    tsk sync resolve "@ + id
        + "\n\n  Or take one side:\n    tsk sync resolve "@ + id + " --take-local\n    tsk sync resolve "@
        + id + " --take-remote"@
}

/// The issue read from its file, or the error: a conflict names the way
/// out, a failure passes its reason on.
pub fn load_issue_or_conflict_error(load: IssueLoad, id: &str) -> (r: Result<IssueDocument, RiptskError>)
    ensures
        match load {
            IssueLoad::Loaded(doc) => r == Ok::<IssueDocument, RiptskError>(doc),
            IssueLoad::Conflict => r matches Err(RiptskError::Conflict(m)) && m@ == conflict_message(
                id@,
            ),
            IssueLoad::Failed(why) => r matches Err(RiptskError::Other(m)) && m@ == why@,
        },
{
    match load {
        IssueLoad::Loaded(doc) => Ok(doc),
        IssueLoad::Conflict => {
            let mut m = concat2("issue ", id);
            m.append(" has unresolved sync conflicts\n\n  Edit the file to resolve:\n    tsk edit ");
            m.append(id);
            m.append("\n\n  Then mark resolved:\n    tsk sync resolve ");
            m.append(id);
            m.append("\n\n  Or take one side:\n    tsk sync resolve ");
            m.append(id);
            m.append(" --take-local\n    tsk sync resolve ");
            m.append(id);
            m.append(" --take-remote");
            Err(RiptskError::Conflict(m))
        },
        IssueLoad::Failed(why) => Err(RiptskError::Other(why)),
    }
}

/// The repository checkout to read changes from: the named project's
/// version-control path, else its tracker path, else the working
/// directory.
pub open spec fn project_repo_path(projects: Seq<RepoProject>, project: Option<Seq<char>>, cwd: Seq<
    char,
>) -> Seq<char> {
    match project {
        Some(name) => if exists|i: int| 0 <= i < projects.len() && #[trigger] projects[i].name@ == name {
            let i = choose|i: int|
                0 <= i < projects.len() && #[trigger] projects[i].name@ == name && forall|k: int|
                    0 <= k < i ==> projects[k].name@ != name;
            let p = projects[i];
            if p.vc_backend.path is Some {
                opt_view(p.vc_backend.path)->0
            } else if p.tasks_backend.path is Some {
                opt_view(p.tasks_backend.path)->0
            } else {
                cwd
            }
        } else {
            cwd
        },
        None => cwd,
    }
}

/// Where the repository of a project is checked out.
pub fn resolve_project_repo_path(config: &Config, project: Option<&str>, cwd: &str) -> (r: String)
    ensures
        r@ == project_repo_path(
            config.projects@,
            match project {
                Some(p) => Some(p@),
                None => None,
            },
            cwd@,
        ),
{
    match project {
        Some(name) => {
            match crate::pull_request::find_project(config, name) {
                Some(i) => {
                    let p = &config.projects[i];
                    let ghost projects = config.projects@;
                    assert(exists|j: int|
                        0 <= j < projects.len() && #[trigger] projects[j].name@ == name@);
                    let ghost chosen = choose|j: int|
                        0 <= j < projects.len() && #[trigger] projects[j].name@ == name@ && forall|
                            k: int,
                        |
                            0 <= k < j ==> projects[k].name@ != name@;
                    assert(0 <= i < projects.len() && projects[i as int].name@ == name@ && forall|
                        k: int,
                    |
                        0 <= k < i ==> projects[k].name@ != name@);
                    assert(chosen == i) by {
                        if chosen < i {
                            assert(projects[chosen].name@ != name@);
                        } else if chosen > i {
                            assert(projects[i as int].name@ != name@);
                        }
                    }
                    match &p.vc_backend.path {
                        Some(path) => path.clone(),
                        None => match &p.tasks_backend.path {
                            Some(path) => path.clone(),
                            None => String::from_str(cwd),
                        },
                    }
                },
                None => String::from_str(cwd),
            }
        },
        None => String::from_str(cwd),
    }
}

/// What `char::to_uppercase` gives for `c` (one or more characters).
pub uninterp spec fn char_uppercase(c: char) -> Seq<char>;

/// `c.to_uppercase()` (std), collected into a string. The contract ties the
/// result to `c` through `char_uppercase`; the mapping is Unicode's.
#[verifier::external_body]
fn uppercase_of(c: char) -> (r: String)
    ensures
        r@ == char_uppercase(c),
{
    c.to_uppercase().to_string()
}

/// A word with its first character upper-cased.
pub open spec fn capitalized(w: Seq<char>) -> Seq<char> {
    if w.len() == 0 {
        w
    } else {
        char_uppercase(w[0]) + w.drop_first()
    }
}

/// The non-empty pieces, capitalized.
pub open spec fn label_words(pieces: Seq<Seq<char>>) -> Seq<Seq<char>>
    decreases pieces.len(),
{
    if pieces.len() == 0 {
        Seq::empty()
    } else if pieces.last().len() == 0 {
        label_words(pieces.drop_last())
    } else {
        label_words(pieces.drop_last()).push(capitalized(pieces.last()))
    }
}

/// How a state or priority name is shown: the words between `-`, each
/// capitalized, joined by spaces (`in-progress` is shown `In Progress`).
pub open spec fn display_label_of(value: Seq<char>) -> Seq<char> {
    join(label_words(split_on(value, '-')), " "@)
}

/// The display form of a state or priority name.
pub fn display_label(value: &str) -> (r: String)
    ensures
        r@ == display_label_of(value@),
{
    let v = chars_of(value);
    let (parts, last) = split_chars(&v, '-');
    let ghost pieces = seqs_of(parts@).push(last@);
    let mut words: Vec<String> = Vec::new();
    let mut k: usize = 0;
    while k < parts.len()
        invariant
            k <= parts@.len(),
            pieces == seqs_of(parts@).push(last@),
            string_views(words@) == label_words(pieces.take(k as int)),
        decreases parts@.len() - k,
    {
        assert(pieces.take(k as int + 1).drop_last() =~= pieces.take(k as int));
        push_word(&mut words, &parts[k]);
        k += 1;
    }
    assert(pieces.take(k as int + 1).drop_last() =~= pieces.take(k as int));
    push_word(&mut words, &last);
    assert(pieces.take(k as int + 1) =~= pieces);
    join_strings_views(&words)
}

/// Adds the capitalized piece, when it is not empty.
fn push_word(words: &mut Vec<String>, piece: &Vec<char>)
    ensures
        string_views(final(words)@) == (if piece@.len() > 0 {
            string_views(old(words)@).push(capitalized(piece@))
        } else {
            string_views(old(words)@)
        }),
{
    if piece.len() > 0 {
        let mut word = uppercase_of(piece[0]);
        let rest = string_of_range(piece, 1, piece.len());
        word.append(rest.as_str());
        assert(rest@ =~= piece@.drop_first());
        words.push(word);
        assert(string_views(words@) =~= string_views(old(words)@).push(capitalized(piece@)));
    }
}

/// The words joined by single spaces.
fn join_strings_views(words: &Vec<String>) -> (r: String)
    ensures
        r@ == join(string_views(words@), " "@),
{
    crate::text::join_strings(words, " ")
}


/// No status given, and the lone argument names a state.
pub open spec fn lone_state(id: Option<String>, status: Option<String>) -> bool {
    status is None && match id {
        Some(v) => crate::domain::state_named(v@) is Some,
        None => false,
    }
}

/// `tsk status <state>` without an id: when no status is given and the lone
/// argument names a state, that argument is the status and the id is to be
/// resolved (or picked); otherwise id and status are as given.
pub fn status_id_and_state(id: Option<String>, status: Option<String>) -> (r: (Option<String>, Option<String>))
    ensures
        lone_state(id, status) ==> r == (None::<String>, id),
        !lone_state(id, status) ==> r == (id, status),
{
    let swap = match (&id, &status) {
        (Some(v), None) => crate::domain::IssueState::from_name(v.as_str()).is_some(),
        _ => false,
    };
    if swap {
        (None, id)
    } else {
        (id, status)
    }
}

/// The status to move an issue to; an error when none was given.
pub fn required_status(status: Option<String>) -> (r: Result<String, RiptskError>)
    ensures
        match status {
            Some(s) => r == Ok::<String, RiptskError>(s),
            None => r matches Err(RiptskError::General(m)) && m@ == "<status> required"@,
        },
{
    match status {
        Some(s) => Ok(s),
        None => Err(RiptskError::General(String::from_str("<status> required"))),
    }
}

/// The line `tsk ls --conflicts` prints for a conflicted issue when the
/// output is not a terminal.
pub fn conflict_plain_line(id: &str) -> (r: String)
    ensures
        r@ == "!\t"@ + id@ + "\t\tCONFLICT\t\tUnresolved conflict"@,
{
    let mut r = concat2("!\t", id);
    r.append("\t\tCONFLICT\t\tUnresolved conflict");
    r
}

/// The note `tsk ls` prints on a terminal after the table when `count`
/// issues have unresolved conflicts.
pub fn conflict_count_note(count: u64) -> (r: String)
    ensures
        r@ == "\n"@ + crate::text::decimal(count as nat) + " issues have unresolved conflicts (tsk ls --conflicts)"@,
{
    let n = crate::text::u64_to_decimal(count);
    let mut r = concat2("\n", n.as_str());
    r.append(" issues have unresolved conflicts (tsk ls --conflicts)");
    r
}

} // verus!
