//! `tsk summarize`, `tsk ask` and the AI helpers of `tsk new`: which AI
//! backend is used, and the context it is given.

use crate::ai::TemplateAiBackend;
use crate::cli::SummarizeArgs;
use crate::domain::{Config, IssueDocument};
use crate::error::RiptskError;
use crate::text::{concat2, concat3, opt_view, str_eq};
use vstd::prelude::*;

verus! {

/// The error when no AI command is configured.
pub const AI_BACKEND_MISSING: &'static str = "ai.command is not configured";

/// The AI backend of the configuration: its command, when one is set.
pub fn optional_backend(config: &Config) -> (r: Option<TemplateAiBackend>)
    ensures
        match r {
            Some(b) => opt_view(config.ai.command) == Some(b.command_template@),
            None => config.ai.command.is_none(),
        },
{
    match &config.ai.command {
        Some(cmd) => Some(TemplateAiBackend { command_template: cmd.clone() }),
        None => None,
    }
}

/// The AI backend, required.
pub fn backend(config: &Config) -> (r: Result<TemplateAiBackend, RiptskError>)
    ensures
        match r {
            Ok(b) => opt_view(config.ai.command) == Some(b.command_template@),
            Err(e) => config.ai.command.is_none() && (e matches RiptskError::Config(m) && m@
                == AI_BACKEND_MISSING@),
        },
{
    match optional_backend(config) {
        Some(b) => Ok(b),
        None => Err(RiptskError::Config(String::from_str(AI_BACKEND_MISSING))),
    }
}

/// An issue is summarized under the filters: each given filter (project,
/// board, cycle) matches.
pub open spec fn summarized(issue: IssueDocument, args: SummarizeArgs) -> bool {
    (match args.project {
        Some(p) => issue.frontmatter.project@ == p@,
        None => true,
    }) && (match args.board {
        Some(b) => issue.frontmatter.board@ == b@,
        None => true,
    }) && (match args.cycle {
        Some(c) => opt_view(issue.frontmatter.cycle) == Some(c@),
        None => true,
    })
}

/// The summary context: `<id> <title>` of each summarized issue, one per
/// line, in order.
pub open spec fn summary_text(issues: Seq<IssueDocument>, args: SummarizeArgs) -> Seq<char>
    decreases issues.len(),
{
    if issues.len() == 0 {
        Seq::empty()
    } else {
        let before = summary_text(issues.drop_last(), args);
        let last = issues.last();
        if summarized(last, args) {
            before + last.frontmatter.id@ + " "@ + last.frontmatter.title@ + "\n"@
        } else {
            before
        }
    }
}

fn cycle_matches(cycle: &Option<String>, wanted: &str) -> (r: bool)
    ensures
        r == (opt_view(*cycle) == Some(wanted@)),
{
    match cycle {
        Some(c) => str_eq(c.as_str(), wanted),
        None => false,
    }
}

/// The context of `tsk summarize`.
pub fn summary_context(issues: &[IssueDocument], args: &SummarizeArgs) -> (r: String)
    ensures
        r@ == summary_text(issues@, *args),
{
    let mut context = String::new();
    let mut i: usize = 0;
    assert(issues@.take(0) =~= Seq::<IssueDocument>::empty());
    while i < issues.len()
        invariant
            i <= issues@.len(),
            context@ == summary_text(issues@.take(i as int), *args),
        decreases issues@.len() - i,
    {
        let issue = &issues[i];
        assert(issues@.take(i + 1).drop_last() =~= issues@.take(i as int));
        assert(issues@.take(i + 1).last() == *issue);
        let project_ok = match &args.project {
            Some(p) => str_eq(issue.frontmatter.project.as_str(), p.as_str()),
            None => true,
        };
        let board_ok = match &args.board {
            Some(b) => str_eq(issue.frontmatter.board.as_str(), b.as_str()),
            None => true,
        };
        let cycle_ok = match &args.cycle {
            Some(c) => cycle_matches(&issue.frontmatter.cycle, c.as_str()),
            None => true,
        };
        if project_ok && board_ok && cycle_ok {
            let ghost before = context@;
            context.append(issue.frontmatter.id.as_str());
            context.append(" ");
            context.append(issue.frontmatter.title.as_str());
            context.append("\n");
            assert(context@ =~= before + issue.frontmatter.id@ + " "@ + issue.frontmatter.title@
                + "\n"@);
        }
        i += 1;
    }
    assert(issues@.take(issues@.len() as int) =~= issues@);
    context
}

/// The context of `tsk ask`: each issue's id, title and body.
pub open spec fn ask_text(issues: Seq<IssueDocument>) -> Seq<char>
    decreases issues.len(),
{
    if issues.len() == 0 {
        Seq::empty()
    } else {
        let last = issues.last();
        ask_text(issues.drop_last()) + last.frontmatter.id@ + " "@ + last.frontmatter.title@
            + "\n"@ + last.body@ + "\n\n"@
    }
}

/// The context of `tsk ask`.
pub fn ask_context(issues: &[IssueDocument]) -> (r: String)
    ensures
        r@ == ask_text(issues@),
{
    let mut context = String::new();
    let mut i: usize = 0;
    assert(issues@.take(0) =~= Seq::<IssueDocument>::empty());
    while i < issues.len()
        invariant
            i <= issues@.len(),
            context@ == ask_text(issues@.take(i as int)),
        decreases issues@.len() - i,
    {
        let issue = &issues[i];
        assert(issues@.take(i + 1).drop_last() =~= issues@.take(i as int));
        assert(issues@.take(i + 1).last() == *issue);
        let ghost before = context@;
        context.append(issue.frontmatter.id.as_str());
        context.append(" ");
        context.append(issue.frontmatter.title.as_str());
        context.append("\n");
        context.append(issue.body.as_str());
        context.append("\n\n");
        assert(context@ =~= before + issue.frontmatter.id@ + " "@ + issue.frontmatter.title@ + "\n"@
            + issue.body@ + "\n\n"@);
        i += 1;
    }
    assert(issues@.take(issues@.len() as int) =~= issues@);
    context
}

/// The input of body generation: `Title: <title>`, then the context.
pub fn body_generation_input(title: &str, project: &str) -> (r: String)
    ensures
        r@ == "Title: "@ + title@ + "\n\nContext:\n"@ + project@,
{
    let mut r = concat3("Title: ", title, "\n\nContext:\n");
    r.append(project);
    r
}

} // verus!
