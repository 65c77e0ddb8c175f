//! `tsk commit` and `tsk register`: how a commit message is arrived at, and
//! how registered projects are listed.

use crate::cli::CommitArgs;
use crate::domain::{ProjectBackend, RepoProject};
use crate::error::RiptskError;
use crate::text::{concat2, concat3, opt_view, trim, trim_str};
use vstd::prelude::*;

verus! {

/// A commit needs something staged.
pub fn require_staged_changes(has_staged: bool) -> (r: Result<(), RiptskError>)
    ensures
        has_staged ==> r is Ok,
        !has_staged ==> (r matches Err(RiptskError::General(m)) && m@
            == "no staged changes to commit"@),
{
    if has_staged {
        Ok(())
    } else {
        Err(RiptskError::General(String::from_str("no staged changes to commit")))
    }
}

/// How `tsk commit` gets its message.
#[derive(Debug, Clone, PartialEq, Eq)]
pub enum CommitPlan {
    /// Commit with this message (in the editor first when asked).
    Given { message: String, edit: bool },
    /// Write the message in the editor, seeded with this text.
    Editor { seed: String },
    /// Have the AI write it from the staged diff.
    Generate,
}

/// The plan of `tsk commit`: a given message wins; without AI (disabled,
/// its commit feature off, `--no-ai`, or no command configured) the editor
/// opens empty; otherwise the AI writes it.
pub fn commit_plan(args: &CommitArgs, ai_enabled: bool, ai_commit_feature: bool, backend_configured: bool) -> (r: CommitPlan)
    ensures
        match args.message {
            Some(m) => r matches CommitPlan::Given { message, edit } && message@ == m@ && edit
                == args.edit,
            None => if ai_enabled && ai_commit_feature && !args.no_ai && backend_configured {
                r is Generate
            } else {
                r matches CommitPlan::Editor { seed } && seed@.len() == 0
            },
        },
{
    match &args.message {
        Some(m) => CommitPlan::Given { message: m.clone(), edit: args.edit },
        None => {
            if ai_enabled && ai_commit_feature && !args.no_ai && backend_configured {
                CommitPlan::Generate
            } else {
                CommitPlan::Editor { seed: String::new() }
            }
        },
    }
}

/// What comes of the AI's commit message.
#[derive(Debug, Clone, PartialEq, Eq)]
pub enum GeneratedCommit {
    /// Use this (trimmed) message.
    Message(String),
    /// Fall back to the editor, after this warning.
    Fallback(String),
}

/// The AI's commit message trimmed, or a fallback to the editor when it is
/// blank or the AI failed.
pub fn generated_commit(result: &Result<String, RiptskError>) -> (r: GeneratedCommit)
    ensures
        match result {
            Ok(m) => if trim(m@).len() == 0 {
                r matches GeneratedCommit::Fallback(w) && w@
                    == "AI returned an empty commit message; opening editor"@
            } else {
                r matches GeneratedCommit::Message(t) && t@ == trim(m@)
            },
            Err(e) => r matches GeneratedCommit::Fallback(w) && w@
                == "AI commit message unavailable: "@ + e.message(),
        },
{
    match result {
        Ok(m) => {
            let trimmed = trim_str(m.as_str());
            if trimmed.unicode_len() == 0 {
                GeneratedCommit::Fallback(
                    String::from_str("AI returned an empty commit message; opening editor"),
                )
            } else {
                GeneratedCommit::Message(trimmed)
            }
        },
        Err(e) => {
            let m = e.to_string();
            GeneratedCommit::Fallback(concat2("AI commit message unavailable: ", m.as_str()))
        },
    }
}

/// What the user chose for a generated message.
#[derive(Debug, Clone, Copy, PartialEq, Eq, Structural)]
pub enum ConfirmChoice {
    Accept,
    Edit,
    Cancel,
}

/// The choice of the `Accept / Edit / Cancel` menu: without a terminal the
/// message is accepted; a failed or unknown selection cancels.
pub fn confirm_choice(interactive: bool, selection: Option<usize>) -> (r: ConfirmChoice)
    ensures
        r == if !interactive {
            ConfirmChoice::Accept
        } else {
            match selection {
                Some(0) => ConfirmChoice::Accept,
                Some(1) => ConfirmChoice::Edit,
                _ => ConfirmChoice::Cancel,
            }
        },
{
    if !interactive {
        return ConfirmChoice::Accept;
    }
    match selection {
        Some(0) => ConfirmChoice::Accept,
        Some(1) => ConfirmChoice::Edit,
        _ => ConfirmChoice::Cancel,
    }
}

/// How a backend is shown in the project list: `kind@path`, else
/// `kind@host/repo` or `kind@repo`, else `kind@host`, else the kind.
pub open spec fn backend_cell(kind: Seq<char>, host: Option<Seq<char>>, repo: Option<Seq<char>>, path: Option<Seq<char>>) -> Seq<char> {
    match path {
        Some(p) => kind + "@"@ + p,
        None => match repo {
            Some(r) => match host {
                Some(h) => kind + "@"@ + h + "/"@ + r,
                None => kind + "@"@ + r,
            },
            None => match host {
                Some(h) => kind + "@"@ + h,
                None => kind,
            },
        },
    }
}

/// A backend as shown in the project list.
pub fn format_backend_cell(kind: &str, host: Option<&str>, repo: Option<&str>, path: Option<&str>) -> (r: String)
    ensures
        r@ == backend_cell(
            kind@,
            match host {
                Some(h) => Some(h@),
                None => None,
            },
            match repo {
                Some(x) => Some(x@),
                None => None,
            },
            match path {
                Some(p) => Some(p@),
                None => None,
            },
        ),
{
    match path {
        Some(p) => concat3(kind, "@", p),
        None => match repo {
            Some(r) => match host {
                Some(h) => {
                    let mut s = concat3(kind, "@", h);
                    s.append("/");
                    s.append(r);
                    s
                },
                None => concat3(kind, "@", r),
            },
            None => match host {
                Some(h) => concat3(kind, "@", h),
                None => String::from_str(kind),
            },
        },
    }
}

fn opt_str(o: &Option<String>) -> (r: Option<&str>)
    ensures
        match r {
            Some(s) => opt_view(*o) == Some(s@),
            None => o.is_none(),
        },
{
    match o {
        Some(s) => Some(s.as_str()),
        None => None,
    }
}

/// A backend's cell.
pub fn backend_cell_of(backend: &ProjectBackend) -> (r: String)
    ensures
        r@ == backend_cell(
            backend.kind.spec_name(),
            opt_view(backend.host),
            opt_view(backend.repo),
            opt_view(backend.path),
        ),
{
    format_backend_cell(
        backend.kind.as_str(),
        opt_str(&backend.host),
        opt_str(&backend.repo),
        opt_str(&backend.path),
    )
}

/// A registered project as a line of piped output: name, version control,
/// tracker, Jira project and label, tab-separated.
pub fn project_list_line(p: &RepoProject) -> (r: String)
    ensures
        r@ == p.name@ + "\t"@ + backend_cell(
            p.vc_backend.kind.spec_name(),
            opt_view(p.vc_backend.host),
            opt_view(p.vc_backend.repo),
            opt_view(p.vc_backend.path),
        ) + "\t"@ + backend_cell(
            p.tasks_backend.kind.spec_name(),
            opt_view(p.tasks_backend.host),
            opt_view(p.tasks_backend.repo),
            opt_view(p.tasks_backend.path),
        ) + "\t"@ + (match p.tasks_backend.jira_project {
            Some(j) => j@,
            None => Seq::empty(),
        }) + "\t"@ + (match p.repo_project_label {
            Some(l) => l@,
            None => Seq::empty(),
        }),
{
    let vc = backend_cell_of(&p.vc_backend);
    let tasks = backend_cell_of(&p.tasks_backend);
    let mut r = concat3(p.name.as_str(), "\t", vc.as_str());
    r.append("\t");
    r.append(tasks.as_str());
    r.append("\t");
    match &p.tasks_backend.jira_project {
        Some(j) => r.append(j.as_str()),
        None => {},
    }
    r.append("\t");
    match &p.repo_project_label {
        Some(l) => r.append(l.as_str()),
        None => {},
    }
    proof {
        assert(Seq::<char>::empty() + Seq::<char>::empty() =~= Seq::<char>::empty());
    }
    assert(r@ =~= p.name@ + "\t"@ + backend_cell(
        p.vc_backend.kind.spec_name(),
        opt_view(p.vc_backend.host),
        opt_view(p.vc_backend.repo),
        opt_view(p.vc_backend.path),
    ) + "\t"@ + backend_cell(
        p.tasks_backend.kind.spec_name(),
        opt_view(p.tasks_backend.host),
        opt_view(p.tasks_backend.repo),
        opt_view(p.tasks_backend.path),
    ) + "\t"@ + (match p.tasks_backend.jira_project {
        Some(j) => j@,
        None => Seq::empty(),
    }) + "\t"@ + (match p.repo_project_label {
        Some(l) => l@,
        None => Seq::empty(),
    }));
    r
}

/// What is printed after registering a project.
pub fn registered_message(p: &RepoProject) -> (r: String)
    ensures
        r@ == "registered "@ + p.name@ + " (vc: "@ + p.vc_backend.kind.spec_name() + ", tasks: "@
            + p.tasks_backend.kind.spec_name() + ")"@,
{
    let mut r = concat3("registered ", p.name.as_str(), " (vc: ");
    r.append(p.vc_backend.kind.as_str());
    r.append(", tasks: ");
    r.append(p.tasks_backend.kind.as_str());
    r.append(")");
    r
}

} // verus!
