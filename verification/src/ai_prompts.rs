//! System prompts handed to the AI command. Every task prompt is preceded by
//! the shared house rules on output discipline.

use vstd::prelude::*;

verus! {

/// Output discipline shared by every task.
pub const HOUSE_RULES: &'static str = "# Output discipline\n\nYou are a tool inside a command-line issue tracker. Your output is consumed by a program, not read in a chat.\n\n- Output only the requested artifact. No preamble, no sign-off.\n- Never open with phrases such as \"Looking at\", \"Here's\", \"I'll\", \"Let me\", \"Sure\" or \"Based on the context\".\n- Never close with follow-up offers such as \"Would you like me to ...?\", \"Let me know if ...\", \"Want me to ...?\" or \"Should I ...?\".\n- Do not wrap the output in code fences unless the task asks for them.\n- Do not ask questions; make a reasonable choice and produce the artifact.";

/// Title and body of a new issue, as a JSON object.
pub const GENERATE_ISSUE_CONTENT: &'static str = "# Task: generate issue content\n\nFrom the context, write a new issue. Respond with exactly one raw JSON object with the string keys \"title\" and \"body\" and no other keys. The title is a single line of at most 120 characters, an imperative statement, not a question. The body is Markdown starting with a \"## Description\" section, optionally followed by a checklist.";

/// Markdown body of an issue.
pub const GENERATE_BODY: &'static str = "# Task: generate an issue body\n\nFrom the context, write the Markdown body of an issue. Start with a \"## Description\" section; add a short task checklist when useful.";

/// A short project key.
pub const SUGGEST_PROJECT_KEY: &'static str = "# Task: suggest a project key\n\nSuggest a short uppercase project key (2 to 6 letters) for the repository described in the input. Output the key alone.";

/// Description of a new pull request.
pub const GENERATE_PR_DESCRIPTION: &'static str = "# Task: write a pull request description\n\nFrom the issue, the commits and the diff, write a Markdown pull request description: a summary paragraph, then a list of the notable changes.";

/// Status, priority and labels for an issue, as JSON.
pub const TRIAGE: &'static str = "# Task: triage an issue\n\nRespond with one raw JSON object with the keys \"status\" (one of backlog, todo, in-progress, review, done), \"priority\" (one of low, medium, high, urgent) and \"labels\" (an array of strings).";

/// Summary of a list of issues.
pub const SUMMARIZE: &'static str = "# Task: summarize issues\n\nSummarize the issues given in the input: group them by theme, name the most urgent ones, and keep it short.";

/// Answer to a question about issues.
pub const ASK: &'static str = "# Task: answer a question\n\nAnswer the question using only the issues given in the input. Cite issue ids where relevant. If the issues do not answer it, say so in one sentence.";

/// Revised description of an existing pull request.
pub const UPDATE_PR_DESCRIPTION: &'static str = "# Task: update a pull request description\n\nRevise the current pull request description so that it matches the commits and the diff. Keep what is still accurate; output the full new description.";

/// A conventional-commits message for a diff.
pub const GENERATE_COMMIT_MESSAGE: &'static str = "# Task: write a commit message\n\nWrite a commit message for the diff in the conventional commits format: a subject line `type(scope): summary` of at most 72 characters with no trailing period, a blank line, then an optional body wrapped at 72 characters.";

/// The system prompt for a task: the house rules, a blank line, the task.
pub open spec fn composed(task: Seq<char>) -> Seq<char> {
    HOUSE_RULES@ + "\n\n"@ + task
}

fn compose(task: &str) -> (r: String)
    ensures
        r@ == composed(task@),
{
    let mut r = String::from_str(HOUSE_RULES);
    r.append("\n\n");
    r.append(task);
    r
}

/// A composed prompt begins with the house rules.
pub proof fn lemma_composed_starts_with_house_rules(task: Seq<char>)
    ensures
        composed(task).len() >= HOUSE_RULES@.len(),
        composed(task).subrange(0, HOUSE_RULES@.len() as int) == HOUSE_RULES@,
{
    assert(composed(task).subrange(0, HOUSE_RULES@.len() as int) =~= HOUSE_RULES@);
}

pub fn generate_issue_content_system() -> (r: String)
    ensures
        r@ == composed(GENERATE_ISSUE_CONTENT@),
{
    compose(GENERATE_ISSUE_CONTENT)
}

pub fn generate_body_system() -> (r: String)
    ensures
        r@ == composed(GENERATE_BODY@),
{
    compose(GENERATE_BODY)
}

pub fn suggest_project_key_system() -> (r: String)
    ensures
        r@ == composed(SUGGEST_PROJECT_KEY@),
{
    compose(SUGGEST_PROJECT_KEY)
}

pub fn generate_pr_description_system() -> (r: String)
    ensures
        r@ == composed(GENERATE_PR_DESCRIPTION@),
{
    compose(GENERATE_PR_DESCRIPTION)
}

pub fn triage_system() -> (r: String)
    ensures
        r@ == composed(TRIAGE@),
{
    compose(TRIAGE)
}

pub fn summarize_system() -> (r: String)
    ensures
        r@ == composed(SUMMARIZE@),
{
    compose(SUMMARIZE)
}

pub fn ask_system() -> (r: String)
    ensures
        r@ == composed(ASK@),
{
    compose(ASK)
}

pub fn update_pr_description_system() -> (r: String)
    ensures
        r@ == composed(UPDATE_PR_DESCRIPTION@),
{
    compose(UPDATE_PR_DESCRIPTION)
}

pub fn generate_commit_message_system() -> (r: String)
    ensures
        r@ == composed(GENERATE_COMMIT_MESSAGE@),
{
    compose(GENERATE_COMMIT_MESSAGE)
}

/// The shared house rules.
pub fn house_rules() -> (r: &'static str)
    ensures
        r@ == HOUSE_RULES@,
{
    HOUSE_RULES
}

} // verus!
