//! Issue templates: the ones shipped with the tool, and which template
//! names are acceptable.

use crate::error::RiptskError;
use crate::text::{concat2, contains, str_contains};
use vstd::prelude::*;

verus! {

/// The template of a plain task.
pub const TASK_TEMPLATE: &'static str = "## Description\n\n\n## Acceptance criteria\n\n- [ ] \n";

/// The template of a bug report.
pub const BUG_TEMPLATE: &'static str = "## What happened\n\n\n## Steps to reproduce\n\n1. \n\n## Expected behaviour\n\n\n## Environment\n\n";

/// The template of a feature request.
pub const FEATURE_TEMPLATE: &'static str = "## Problem\n\n\n## Proposed solution\n\n\n## Alternatives considered\n\n";

/// The template of a weekly review.
pub const WEEKLY_REVIEW_TEMPLATE: &'static str = "## Done this week\n\n- \n\n## In progress\n\n- \n\n## Blocked\n\n- \n\n## Next week\n\n- \n";

/// The templates shipped with the tool, by file name.
pub fn embedded_templates() -> (r: [(&'static str, &'static str); 4])
    ensures
        r@[0].0@ == "task.md"@ && r@[0].1@ == TASK_TEMPLATE@,
        r@[1].0@ == "bug.md"@ && r@[1].1@ == BUG_TEMPLATE@,
        r@[2].0@ == "feature.md"@ && r@[2].1@ == FEATURE_TEMPLATE@,
        r@[3].0@ == "weekly-review.md"@ && r@[3].1@ == WEEKLY_REVIEW_TEMPLATE@,
{
    [
        ("task.md", TASK_TEMPLATE),
        ("bug.md", BUG_TEMPLATE),
        ("feature.md", FEATURE_TEMPLATE),
        ("weekly-review.md", WEEKLY_REVIEW_TEMPLATE),
    ]
}

/// A template name that could leave the templates directory or name
/// nothing: it holds `/`, `\` or `..`, or is empty.
pub open spec fn bad_template_name(name: Seq<char>) -> bool {
    name.contains('/') || name.contains('\\') || contains(name, ".."@) || name.len() == 0
}

/// Refuse template names that are empty or could leave the templates
/// directory.
pub fn validate_template_name(name: &str) -> (r: Result<(), RiptskError>)
    ensures
        !bad_template_name(name@) ==> r is Ok,
        bad_template_name(name@) ==> (r matches Err(RiptskError::General(m)) && m@
            == "invalid template name: "@ + name@),
{
    let slash = str_contains(name, "/");
    let backslash = str_contains(name, "\\");
    let dots = str_contains(name, "..");
    proof {
        reveal_strlit("/");
        reveal_strlit("\\");
        assert("/"@ =~= seq!['/']);
        assert("\\"@ =~= seq!['\\']);
        lemma_contains_one(name@, '/');
        lemma_contains_one(name@, '\\');
    }
    if slash || backslash || dots || name.unicode_len() == 0 {
        return Err(RiptskError::General(concat2("invalid template name: ", name)));
    }
    Ok(())
}

proof fn lemma_contains_one(s: Seq<char>, c: char)
    ensures
        contains(s, seq![c]) == s.contains(c),
{
    if s.contains(c) {
        let i = choose|i: int| 0 <= i < s.len() && s[i] == c;
        assert(s.subrange(i, i + 1) =~= seq![c]);
        assert(crate::text::occurs_at(s, seq![c], i));
    }
    if contains(s, seq![c]) {
        let i = choose|i: int| crate::text::occurs_at(s, seq![c], i);
        assert(s.subrange(i, i + 1)[0] == s[i]);
    }
}

/// The name a template command needs, or an error when none was given.
pub fn template_name_required(name: Option<String>) -> (r: Result<String, RiptskError>)
    ensures
        match name {
            Some(n) => r matches Ok(m) && m@ == n@,
            None => r matches Err(RiptskError::General(m)) && m@ == "template name required"@,
        },
{
    match name {
        Some(n) => Ok(n),
        None => Err(RiptskError::General(String::from_str("template name required"))),
    }
}

/// The file name of a template: its name with `.md`.
pub fn template_file_name(name: &str) -> (r: String)
    ensures
        r@ == name@ + ".md"@,
{
    concat2(name, ".md")
}

} // verus!
