//! Checks on what the AI command prints: the issue-content JSON, issue
//! bodies (conversational preface and follow-up offers stripped), commit
//! messages; and the report of a failed AI command.

use crate::command_template::{render_command_template, render_view, rendered_template, TemplateError};
use crate::error::RiptskError;
use crate::json_read::{json_object_members, json_object_members_of, json_read_view, JsonMember, JsonMemberView};
use crate::regex_match::{regex_match, regex_match_result};
use crate::shell_quote::{shell_escape, shell_escaped};
use crate::text::{
    ascii_lower, concat2, concat3, debug_form, debug_quoted, i32_to_decimal, join_strings, signed_decimal,
    string_views, to_ascii_lower, trim_end_bound,
    chars_of, contains, contains_vec, decimal, ends_with_vec, has_prefix, has_suffix, join, join_range, lines, lines_of,
    seqs_of, starts_with_vec, str_eq, string_of, string_of_range, trim, trim_bounds, trim_end, trim_str,
};
use vstd::prelude::*;

verus! {

/// Status, priority and labels suggested for an issue.
#[derive(Debug, Clone, PartialEq, Eq)]
pub struct TriageSuggestion {
    pub state: Option<String>,
    pub priority: Option<String>,
    pub labels: Vec<String>,
}

/// Title and Markdown body of a generated issue.
#[derive(Debug, Clone, PartialEq, Eq)]
pub struct GeneratedIssueContent {
    pub title: String,
    pub body: String,
}

/// The configured AI command: a template rendered with `system`, `input`
/// and `input_file`, then run through `sh -c`.
#[derive(Debug, Clone)]
pub struct TemplateAiBackend {
    pub command_template: String,
}

/// Longest accepted generated title, in characters.
pub const TITLE_MAX_LEN: usize = 120;

/// Conversational openers.
pub const PREFACE_PATTERN: &'static str = r"(?i)^(I'?ll|I will|I'?m going to|Let me|Here'?s|Here is|Based on (the )?(context|the above|your)|Looking at|Reviewing|Sure[,!]?|Certainly[,!]?|Of course[,!]?)\b.*";

/// Follow-up offers that close a reply.
pub const FOLLOWUP_WOULD_YOU: &'static str = r"(?is)^Would you like (me )?to .*\?\s*$";
pub const FOLLOWUP_LET_ME_KNOW: &'static str = r"(?is)^Let me know (if|whether) .*\.?\s*$";
pub const FOLLOWUP_WANT_ME: &'static str = r"(?is)^Want me to .*\?\s*$";
pub const FOLLOWUP_SHOULD_I: &'static str = r"(?is)^Should I .*\?\s*$";
pub const FOLLOWUP_DO_YOU_WANT: &'static str = r"(?is)^Do you want .*\?\s*$";

/// Conventional-commits subject line.
pub const COMMIT_SUBJECT_PATTERN: &'static str = r"^(feat|fix|refactor|docs|test|chore|ci|style|perf|build)(\([a-z0-9_./-]+\))?: \S.*";

/// `text` matches the regular expression `pattern`.
pub open spec fn matches_pattern(pattern: Seq<char>, text: Seq<char>) -> bool {
    regex_match_result(pattern, text) == Some(true)
}

fn pattern_matches(pattern: &str, text: &str) -> (r: bool)
    ensures
        r == matches_pattern(pattern@, text@),
{
    match regex_match(pattern, text) {
        Some(b) => b,
        None => false,
    }
}

/// Smart apostrophes (U+2019) replaced by ASCII ones.
pub open spec fn normalized_apostrophes(s: Seq<char>) -> Seq<char> {
    s.map_values(|c: char| if c == '\u{2019}' { '\'' } else { c })
}

pub fn normalize_apostrophes(text: &str) -> (r: String)
    ensures
        r@ == normalized_apostrophes(text@),
{
    let v = chars_of(text);
    let mut out: Vec<char> = Vec::new();
    let mut i: usize = 0;
    while i < v.len()
        invariant
            i <= v@.len(),
            out@ == normalized_apostrophes(v@.take(i as int)),
        decreases v@.len() - i,
    {
        let c = if v[i] == '\u{2019}' {
            '\''
        } else {
            v[i]
        };
        out.push(c);
        i += 1;
        assert(out@ =~= normalized_apostrophes(v@.take(i as int)));
    }
    assert(v@.take(v@.len() as int) =~= v@);
    string_of(&out)
}

/// A conversational opener such as "Here's" or "I'll", smart apostrophes
/// counted as ASCII ones.
pub open spec fn is_preface(line: Seq<char>) -> bool {
    matches_pattern(PREFACE_PATTERN@, normalized_apostrophes(trim(line)))
}

pub fn is_preface_line(line: &str) -> (r: bool)
    ensures
        r == is_preface(line@),
{
    let t = trim_str(line);
    let n = normalize_apostrophes(t.as_str());
    pattern_matches(PREFACE_PATTERN, n.as_str())
}

/// Ends in `?` or the full-width `？`.
pub open spec fn ends_with_question(text: Seq<char>) -> bool {
    text.len() > 0 && (text.last() == '?' || text.last() == '\u{FF1F}')
}

pub fn ends_with_question_mark(text: &str) -> (r: bool)
    ensures
        r == ends_with_question(text@),
{
    let v = chars_of(text);
    v.len() > 0 && (v[v.len() - 1] == '?' || v[v.len() - 1] == '\u{FF1F}')
}

/// A follow-up offer such as "Would you like me to ...?".
pub open spec fn is_followup(paragraph: Seq<char>) -> bool {
    let t = trim(paragraph);
    matches_pattern(FOLLOWUP_WOULD_YOU@, t) || matches_pattern(FOLLOWUP_LET_ME_KNOW@, t)
        || matches_pattern(FOLLOWUP_WANT_ME@, t) || matches_pattern(FOLLOWUP_SHOULD_I@, t)
        || matches_pattern(FOLLOWUP_DO_YOU_WANT@, t)
}

pub fn is_followup_paragraph(paragraph: &str) -> (r: bool)
    ensures
        r == is_followup(paragraph@),
{
    let t = trim_str(paragraph);
    let t = t.as_str();
    pattern_matches(FOLLOWUP_WOULD_YOU, t) || pattern_matches(FOLLOWUP_LET_ME_KNOW, t)
        || pattern_matches(FOLLOWUP_WANT_ME, t) || pattern_matches(FOLLOWUP_SHOULD_I, t)
        || pattern_matches(FOLLOWUP_DO_YOU_WANT, t)
}

/// A line of only whitespace.
pub open spec fn blank(l: Seq<char>) -> bool {
    trim(l).len() == 0
}

fn is_blank(l: &Vec<char>) -> (r: bool)
    ensures
        r == blank(l@),
{
    let (a, b) = trim_bounds(l, 0, l.len());
    assert(l@.subrange(0, l@.len() as int) =~= l@);
    a == b
}

/// A Markdown horizontal rule `---`.
pub open spec fn is_rule(l: Seq<char>) -> bool {
    trim(l) == "---"@
}

pub fn is_horizontal_rule(line: &str) -> (r: bool)
    ensures
        r == is_rule(line@),
{
    let t = trim_str(line);
    str_eq(t.as_str(), "---")
}

fn is_rule_vec(l: &Vec<char>) -> (r: bool)
    ensures
        r == is_rule(l@),
{
    is_horizontal_rule(string_of(l).as_str())
}

fn is_preface_vec(l: &Vec<char>) -> (r: bool)
    ensures
        r == is_preface(l@),
{
    is_preface_line(string_of(l).as_str())
}

/// First index at or after `i` that is not a preface line.
pub open spec fn skip_prefaces(ls: Seq<Seq<char>>, i: int) -> int
    decreases ls.len() - i,
{
    if 0 <= i < ls.len() && is_preface(ls[i]) {
        skip_prefaces(ls, i + 1)
    } else {
        i
    }
}

/// First index at or after `i` that is not a blank line.
pub open spec fn skip_blanks_forward(ls: Seq<Seq<char>>, i: int) -> int
    decreases ls.len() - i,
{
    if 0 <= i < ls.len() && blank(ls[i]) {
        skip_blanks_forward(ls, i + 1)
    } else {
        i
    }
}

/// `e` moved back over blank lines, not below `lo`.
pub open spec fn skip_blanks_back(ls: Seq<Seq<char>>, lo: int, e: int) -> int
    decreases e - lo,
{
    if lo < e && e <= ls.len() && blank(ls[e - 1]) {
        skip_blanks_back(ls, lo, e - 1)
    } else {
        e
    }
}

/// Start of the paragraph that ends just before `k`, not below `lo`.
pub open spec fn paragraph_start(ls: Seq<Seq<char>>, lo: int, k: int) -> int
    decreases k - lo,
{
    if lo < k && k <= ls.len() && !blank(ls[k - 1]) {
        paragraph_start(ls, lo, k - 1)
    } else {
        k
    }
}

/// The last paragraph of `ls[lo..hi]`: its start relative to `lo`, and its
/// lines joined; `None` when the range holds only blank lines.
pub open spec fn last_paragraph(ls: Seq<Seq<char>>, lo: int, hi: int) -> Option<(int, Seq<char>)> {
    let e = skip_blanks_back(ls, lo, hi);
    if e <= lo {
        None
    } else {
        let s = paragraph_start(ls, lo, e - 1);
        Some((s - lo, join(ls.subrange(s, e), "\n"@)))
    }
}

/// Where the body starts: after any preface lines, and then after blank
/// lines and one horizontal rule that follow them.
pub open spec fn body_start(ls: Seq<Seq<char>>) -> int {
    let s1 = skip_prefaces(ls, 0);
    if s1 == 0 {
        0
    } else {
        let s2 = skip_blanks_forward(ls, s1);
        if s2 < ls.len() && is_rule(ls[s2]) {
            skip_blanks_forward(ls, s2 + 1)
        } else {
            s2
        }
    }
}

/// Where the body ends: before trailing blank lines, and before a closing
/// follow-up paragraph with the blank lines and horizontal rule above it.
pub open spec fn body_end(ls: Seq<Seq<char>>, st: int) -> int {
    let e1 = skip_blanks_back(ls, st, ls.len() as int);
    match last_paragraph(ls, st, e1) {
        Some((ps, p)) => if is_followup(p) {
            let e2 = skip_blanks_back(ls, st, st + ps);
            if e2 > st && is_rule(ls[e2 - 1]) {
                skip_blanks_back(ls, st, e2 - 1)
            } else {
                e2
            }
        } else {
            e1
        },
        None => e1,
    }
}

/// An issue body with a conversational preface and a closing follow-up
/// offer removed, trimmed.
pub open spec fn sanitized_body(raw: Seq<char>) -> Seq<char> {
    let ls = lines(trim(raw));
    let st = body_start(ls);
    let en = body_end(ls, st);
    trim(join(ls.subrange(st, en), "\n"@))
}

proof fn lemma_skip_blanks_back_bounds(ls: Seq<Seq<char>>, lo: int, e: int)
    requires
        lo <= e,
    ensures
        lo <= skip_blanks_back(ls, lo, e) <= e,
    decreases e - lo,
{
    if lo < e && e <= ls.len() && blank(ls[e - 1]) {
        lemma_skip_blanks_back_bounds(ls, lo, e - 1);
    }
}

proof fn lemma_paragraph_start_bounds(ls: Seq<Seq<char>>, lo: int, k: int)
    requires
        lo <= k,
    ensures
        lo <= paragraph_start(ls, lo, k) <= k,
    decreases k - lo,
{
    if lo < k && k <= ls.len() && !blank(ls[k - 1]) {
        lemma_paragraph_start_bounds(ls, lo, k - 1);
    }
}

/// The last paragraph of `ls[lo..hi]`, as `last_paragraph` describes it.
fn trailing_paragraph(ls: &Vec<Vec<char>>, lo: usize, hi: usize) -> (r: Option<(usize, Vec<char>)>)
    requires
        lo <= hi <= ls@.len(),
    ensures
        match r {
            Some((ps, p)) => last_paragraph(seqs_of(ls@), lo as int, hi as int) == Some(
                (ps as int, p@),
            ),
            None => last_paragraph(seqs_of(ls@), lo as int, hi as int).is_none(),
        },
{
    let ghost l = seqs_of(ls@);
    let mut end = hi;
    while end > lo && is_blank(&ls[end - 1])
        invariant
            lo <= end <= hi <= ls@.len(),
            l == seqs_of(ls@),
            skip_blanks_back(l, lo as int, hi as int) == skip_blanks_back(l, lo as int, end as int),
        decreases end - lo,
    {
        assert(l[end - 1] == ls@[end - 1]@);
        end -= 1;
    }
    assert(end > lo ==> l[end - 1] == ls@[end - 1]@);
    if end == lo {
        return None;
    }
    let mut start = end - 1;
    while start > lo && !is_blank(&ls[start - 1])
        invariant
            lo <= start < end <= hi <= ls@.len(),
            l == seqs_of(ls@),
            paragraph_start(l, lo as int, end - 1) == paragraph_start(l, lo as int, start as int),
        decreases start - lo,
    {
        assert(l[start - 1] == ls@[start - 1]@);
        start -= 1;
    }
    assert(start > lo ==> l[start - 1] == ls@[start - 1]@);
    let p = join_range(ls, start, end, &chars_of("\n"));
    Some((start - lo, p))
}

/// `raw` with a conversational preface and a closing follow-up offer
/// removed, trimmed; an error when nothing is left.
pub fn sanitize_issue_body(raw: &str) -> (r: Result<String, RiptskError>)
    ensures
        match r {
            Ok(s) => s@ == sanitized_body(raw@) && s@.len() > 0,
            Err(e) => sanitized_body(raw@).len() == 0 && e is General && e.message()
                == "AI body sanitization removed all content"@,
        },
{
    let t = trim_str(raw);
    let tv = chars_of(t.as_str());
    let ls = lines_of(&tv);
    let ghost l = seqs_of(ls@);
    let n = ls.len();
    let mut start: usize = 0;
    while start < n && is_preface_vec(&ls[start])
        invariant
            n == ls@.len(),
            start <= n,
            l == seqs_of(ls@),
            skip_prefaces(l, 0) == skip_prefaces(l, start as int),
        decreases n - start,
    {
        assert(l[start as int] == ls@[start as int]@);
        start += 1;
    }
    assert(start < n ==> l[start as int] == ls@[start as int]@);
    assert(start == skip_prefaces(l, 0));
    if start > 0 {
        while start < n && is_blank(&ls[start])
            invariant
                n == ls@.len(),
                start <= n,
                l == seqs_of(ls@),
                skip_blanks_forward(l, skip_prefaces(l, 0)) == skip_blanks_forward(
                    l,
                    start as int,
                ),
            decreases n - start,
        {
            assert(l[start as int] == ls@[start as int]@);
            start += 1;
        }
        assert(start < n ==> l[start as int] == ls@[start as int]@);
        if start < n && is_rule_vec(&ls[start]) {
            start += 1;
            let ghost s2p = start as int;
            while start < n && is_blank(&ls[start])
                invariant
                    n == ls@.len(),
                    start <= n,
                    l == seqs_of(ls@),
                    skip_blanks_forward(l, s2p) == skip_blanks_forward(l, start as int),
                decreases n - start,
            {
                assert(l[start as int] == ls@[start as int]@);
                start += 1;
            }
            assert(start < n ==> l[start as int] == ls@[start as int]@);
        }
    }
    assert(start == body_start(l));
    let mut end = n;
    while end > start && is_blank(&ls[end - 1])
        invariant
            start <= end <= n == ls@.len(),
            l == seqs_of(ls@),
            skip_blanks_back(l, start as int, n as int) == skip_blanks_back(
                l,
                start as int,
                end as int,
            ),
        decreases end - start,
    {
        assert(l[end - 1] == ls@[end - 1]@);
        end -= 1;
    }
    assert(end > start ==> l[end - 1] == ls@[end - 1]@);
    let ghost e1 = end as int;
    assert(e1 == skip_blanks_back(l, start as int, n as int));
    proof {
        lemma_skip_blanks_back_bounds(l, start as int, e1);
    }
    assert(skip_blanks_back(l, start as int, e1) == e1);
    match trailing_paragraph(&ls, start, end) {
        Some((ps, p)) => {
            if is_followup_paragraph(string_of(&p).as_str()) {
                proof {
                    lemma_paragraph_start_bounds(l, start as int, e1 - 1);
                }
                end = start + ps;
                let ghost e0 = end as int;
                while end > start && is_blank(&ls[end - 1])
                    invariant
                        start <= end <= e0 <= n == ls@.len(),
                        l == seqs_of(ls@),
                        skip_blanks_back(l, start as int, e0) == skip_blanks_back(
                            l,
                            start as int,
                            end as int,
                        ),
                    decreases end - start,
                {
                    assert(l[end - 1] == ls@[end - 1]@);
                    end -= 1;
                }
                assert(end > start ==> l[end - 1] == ls@[end - 1]@);
                if end > start && is_rule_vec(&ls[end - 1]) {
                    end -= 1;
                    let ghost e3 = end as int;
                    while end > start && is_blank(&ls[end - 1])
                        invariant
                            start <= end <= e3 <= n == ls@.len(),
                            l == seqs_of(ls@),
                            skip_blanks_back(l, start as int, e3) == skip_blanks_back(
                                l,
                                start as int,
                                end as int,
                            ),
                        decreases end - start,
                    {
                        assert(l[end - 1] == ls@[end - 1]@);
                        end -= 1;
                    }
                    assert(end > start ==> l[end - 1] == ls@[end - 1]@);
                }
            }
        },
        None => {},
    }
    assert(end == body_end(l, start as int));
    let joined = join_range(&ls, start, end, &chars_of("\n"));
    let (a, b) = trim_bounds(&joined, 0, joined.len());
    assert(joined@.subrange(0, joined@.len() as int) =~= joined@);
    if a == b {
        return Err(RiptskError::General(String::from_str("AI body sanitization removed all content")));
    }
    Ok(string_of_range(&joined, a, b))
}

/// The title and body of a two-member object whose members are the strings
/// `title` and `body`.
pub open spec fn title_and_body(ms: Seq<(Seq<char>, JsonMemberView)>) -> Option<(Seq<char>, Seq<char>)> {
    if ms.len() == 2 {
        match (ms[0].1, ms[1].1) {
            (JsonMemberView::Text(v0), JsonMemberView::Text(v1)) => if ms[0].0 == "title"@
                && ms[1].0 == "body"@ {
                Some((v0, v1))
            } else if ms[0].0 == "body"@ && ms[1].0 == "title"@ {
                Some((v1, v0))
            } else {
                None
            },
            _ => None,
        }
    } else {
        None
    }
}

/// What becomes of the AI output for issue generation: the title and the
/// sanitized body, or the error message.
pub open spec fn issue_content_verdict(output: Seq<char>) -> Result<(Seq<char>, Seq<char>), Seq<char>> {
    let t = trim(output);
    if t.len() == 0 {
        Err("AI returned empty output for issue generation"@)
    } else if has_prefix(t, "```"@) {
        Err("AI returned fenced output for issue generation; expected a raw JSON object"@)
    } else {
        match json_object_members_of(t) {
            Err(m) => Err("AI returned malformed JSON for issue generation: "@ + m),
            Ok(None) => Err("AI returned malformed JSON for issue generation: "@ + "expected a JSON object"@),
            Ok(Some(ms)) => match title_and_body(ms) {
                None => Err("AI returned malformed JSON for issue generation: "@
                    + "expected exactly the string fields title and body"@),
                Some((title_raw, body_raw)) => {
                    let title = trim(title_raw);
                    if title.len() == 0 {
                        Err("AI issue generation returned an empty title"@)
                    } else if title.contains('\n') || title.contains('\r') {
                        Err("AI issue generation returned a multiline title"@)
                    } else if title.len() > TITLE_MAX_LEN {
                        Err("AI issue generation title exceeds 120 chars"@)
                    } else if is_preface(title) {
                        Err("AI issue generation returned a conversational title"@)
                    } else if ends_with_question(title) {
                        Err("AI issue generation returned a question title"@)
                    } else if sanitized_body(body_raw).len() == 0 {
                        Err("AI body sanitization removed all content"@)
                    } else {
                        Ok((title, sanitized_body(body_raw)))
                    }
                },
            },
        }
    }
}

fn member_text(m: &JsonMember) -> (r: Option<String>)
    ensures
        match m@ {
            JsonMemberView::Text(v) => r matches Some(s) && s@ == v,
            _ => r.is_none(),
        },
{
    match m {
        JsonMember::Text(s) => Some(s.clone()),
        _ => None,
    }
}

fn find_title_and_body(ms: &Vec<(String, JsonMember)>) -> (r: Option<(String, String)>)
    ensures
        match r {
            Some((t, b)) => title_and_body(crate::json_read::members_view(ms@)) == Some((t@, b@)),
            None => title_and_body(crate::json_read::members_view(ms@)).is_none(),
        },
{
    let ghost mv = crate::json_read::members_view(ms@);
    if ms.len() != 2 {
        return None;
    }
    assert(mv[0] == (ms@[0].0@, ms@[0].1@));
    assert(mv[1] == (ms@[1].0@, ms@[1].1@));
    let v0 = member_text(&ms[0].1);
    let v1 = member_text(&ms[1].1);
    match (v0, v1) {
        (Some(a), Some(b)) => {
            if str_eq(ms[0].0.as_str(), "title") && str_eq(ms[1].0.as_str(), "body") {
                Some((a, b))
            } else if str_eq(ms[0].0.as_str(), "body") && str_eq(ms[1].0.as_str(), "title") {
                Some((b, a))
            } else {
                None
            }
        },
        _ => None,
    }
}

fn has_line_break(v: &Vec<char>) -> (r: bool)
    ensures
        r == (v@.contains('\n') || v@.contains('\r')),
{
    let mut i: usize = 0;
    while i < v.len()
        invariant
            i <= v@.len(),
            forall|k: int| 0 <= k < i ==> v@[k] != '\n' && v@[k] != '\r',
        decreases v@.len() - i,
    {
        if v[i] == '\n' || v[i] == '\r' {
            assert(v@[i as int] == v[i as int]);
            return true;
        }
        i += 1;
    }
    false
}

/// The issue title and body in the AI output: one raw JSON object with the
/// string members `title` and `body` and nothing else; the title a single
/// line of at most 120 characters, neither conversational nor a question;
/// the body sanitized.
pub fn parse_issue_content_output(output: &str) -> (r: Result<GeneratedIssueContent, RiptskError>)
    ensures
        match r {
            Ok(c) => issue_content_verdict(output@) == Ok::<(Seq<char>, Seq<char>), Seq<char>>(
                (c.title@, c.body@),
            ),
            Err(e) => e is General && issue_content_verdict(output@) == Err::<
                (Seq<char>, Seq<char>),
                Seq<char>,
            >(e.message()),
        },
{
    let t = trim_str(output);
    let tv = chars_of(t.as_str());
    if tv.len() == 0 {
        return Err(RiptskError::General(String::from_str("AI returned empty output for issue generation")));
    }
    if starts_with_vec(&tv, &chars_of("```")) {
        return Err(
            RiptskError::General(
                String::from_str("AI returned fenced output for issue generation; expected a raw JSON object"),
            ),
        );
    }
    let read = json_object_members(t.as_str());
    let ms = match read {
        Err(m) => {
            return Err(RiptskError::General(concat2("AI returned malformed JSON for issue generation: ", m.as_str())));
        },
        Ok(None) => {
            return Err(
                RiptskError::General(
                    concat2("AI returned malformed JSON for issue generation: ", "expected a JSON object"),
                ),
            );
        },
        Ok(Some(ms)) => ms,
    };
    let (title_raw, body_raw) = match find_title_and_body(&ms) {
        None => {
            return Err(
                RiptskError::General(
                    concat2(
                        "AI returned malformed JSON for issue generation: ",
                        "expected exactly the string fields title and body",
                    ),
                ),
            );
        },
        Some(pair) => pair,
    };
    let title = trim_str(title_raw.as_str());
    let title_chars = chars_of(title.as_str());
    if title_chars.len() == 0 {
        return Err(RiptskError::General(String::from_str("AI issue generation returned an empty title")));
    }
    if has_line_break(&title_chars) {
        return Err(RiptskError::General(String::from_str("AI issue generation returned a multiline title")));
    }
    if title_chars.len() > TITLE_MAX_LEN {
        return Err(RiptskError::General(String::from_str("AI issue generation title exceeds 120 chars")));
    }
    if is_preface_line(title.as_str()) {
        return Err(RiptskError::General(String::from_str("AI issue generation returned a conversational title")));
    }
    if ends_with_question_mark(title.as_str()) {
        return Err(RiptskError::General(String::from_str("AI issue generation returned a question title")));
    }
    let body = sanitize_issue_body(body_raw.as_str())?;
    Ok(GeneratedIssueContent { title, body })
}

/// Index of the first line at or after `i` longer than 72 characters.
pub open spec fn first_long_line(ls: Seq<Seq<char>>, i: int) -> Option<int>
    decreases ls.len() - i,
{
    if 0 <= i < ls.len() {
        if ls[i].len() > 72 {
            Some(i)
        } else {
            first_long_line(ls, i + 1)
        }
    } else {
        None
    }
}

/// What becomes of an AI commit message: the trimmed message, or the error
/// message.
pub open spec fn commit_message_verdict(raw: Seq<char>) -> Result<Seq<char>, Seq<char>> {
    let t = trim(raw);
    if t.len() == 0 {
        Err("AI returned empty commit message"@)
    } else if has_prefix(t, "```"@) || contains(t, "\n```"@) {
        Err("AI returned fenced commit message; expected raw text"@)
    } else {
        let ls = lines(t);
        let subject = if ls.len() > 0 {
            trim_end(ls[0])
        } else {
            Seq::empty()
        };
        if subject.len() > 72 {
            Err("AI commit subject exceeds 72 chars ("@ + decimal(subject.len()) + " chars)"@)
        } else if has_suffix(subject, "."@) {
            Err("AI commit subject ends with a period"@)
        } else if !matches_pattern(COMMIT_SUBJECT_PATTERN@, subject) {
            Err("AI commit subject does not match conventional commits: "@ + debug_form(subject))
        } else if is_preface(subject) {
            Err("AI commit subject is a conversational opener"@)
        } else if ls.len() > 1 && !blank(ls[1]) {
            Err("AI commit message missing blank line after subject"@)
        } else {
            match first_long_line(ls, 2) {
                Some(k) => Err("AI commit body line exceeds 72 chars: "@ + debug_form(ls[k])),
                None => Ok(t),
            }
        }
    }
}

/// A conventional-commits message: subject of at most 72 characters, no
/// trailing period, not conversational, a blank line before the body, body
/// lines of at most 72 characters, no code fences.
pub fn validate_commit_message_output(raw: &str) -> (r: Result<String, RiptskError>)
    ensures
        match r {
            Ok(s) => commit_message_verdict(raw@) == Ok::<Seq<char>, Seq<char>>(s@),
            Err(e) => e is General && commit_message_verdict(raw@) == Err::<Seq<char>, Seq<char>>(
                e.message(),
            ),
        },
{
    let t = trim_str(raw);
    let tv = chars_of(t.as_str());
    if tv.len() == 0 {
        return Err(RiptskError::General(String::from_str("AI returned empty commit message")));
    }
    if starts_with_vec(&tv, &chars_of("```")) || contains_vec(&tv, &chars_of("\n```")) {
        return Err(RiptskError::General(String::from_str("AI returned fenced commit message; expected raw text")));
    }
    let ls = lines_of(&tv);
    let ghost l = seqs_of(ls@);
    let subject_chars: Vec<char> = if ls.len() > 0 {
        assert(l[0] == ls@[0]@);
        let e = trim_end_bound(&ls[0], 0, ls[0].len());
        assert(ls@[0]@.subrange(0, ls@[0]@.len() as int) =~= ls@[0]@);
        let mut sv: Vec<char> = Vec::new();
        let mut k: usize = 0;
        while k < e
            invariant
                0 < ls@.len(),
                e <= ls@[0]@.len(),
                k <= e,
                sv@ == ls@[0]@.subrange(0, k as int),
            decreases e - k,
        {
            sv.push(ls[0][k]);
            k += 1;
            assert(sv@ =~= ls@[0]@.subrange(0, k as int));
        }
        sv
    } else {
        Vec::new()
    };
    assert(subject_chars@ =~= (if l.len() > 0 {
        trim_end(l[0])
    } else {
        Seq::empty()
    }));
    let subject = string_of(&subject_chars);
    let count = subject_chars.len();
    if count > 72 {
        let n = crate::text::u64_to_decimal(count as u64);
        return Err(RiptskError::General(concat3("AI commit subject exceeds 72 chars (", n.as_str(), " chars)")));
    }
    if ends_with_vec(&subject_chars, &chars_of(".")) {
        return Err(RiptskError::General(String::from_str("AI commit subject ends with a period")));
    }
    if !pattern_matches(COMMIT_SUBJECT_PATTERN, subject.as_str()) {
        let q = debug_quoted(subject.as_str());
        return Err(
            RiptskError::General(concat2("AI commit subject does not match conventional commits: ", q.as_str())),
        );
    }
    if is_preface_line(subject.as_str()) {
        return Err(RiptskError::General(String::from_str("AI commit subject is a conversational opener")));
    }
    if ls.len() > 1 {
        assert(l[1] == ls@[1]@);
        if !is_blank(&ls[1]) {
            return Err(RiptskError::General(String::from_str("AI commit message missing blank line after subject")));
        }
    }
    match first_long_line_index(&ls, 2) {
        Some(i) => {
            assert(l[i as int] == ls@[i as int]@);
            let line = string_of(&ls[i]);
            let q = debug_quoted(line.as_str());
            Err(RiptskError::General(concat2("AI commit body line exceeds 72 chars: ", q.as_str())))
        },
        None => Ok(t),
    }
}

fn first_long_line_index(ls: &Vec<Vec<char>>, from: usize) -> (r: Option<usize>)
    ensures
        match r {
            Some(i) => first_long_line(seqs_of(ls@), from as int) == Some(i as int) && i < ls@.len(),
            None => first_long_line(seqs_of(ls@), from as int).is_none(),
        },
{
    let ghost l = seqs_of(ls@);
    let mut i: usize = from;
    while i < ls.len()
        invariant
            from <= i,
            l == seqs_of(ls@),
            first_long_line(l, from as int) == first_long_line(l, i as int),
        decreases ls@.len() - i,
    {
        assert(l[i as int] == ls@[i as int]@);
        if ls[i].len() > 72 {
            return Some(i);
        }
        i += 1;
    }
    None
}

/// A command preview cut to 200 characters.
pub open spec fn truncated_preview(p: Seq<char>) -> Seq<char> {
    if p.len() <= 200 {
        p
    } else {
        p.take(197) + "..."@
    }
}

pub fn truncate_preview(preview: &str) -> (r: String)
    ensures
        r@ == truncated_preview(preview@),
{
    let v = chars_of(preview);
    if v.len() <= 200 {
        string_of(&v)
    } else {
        let head = string_of_range(&v, 0, 197);
        concat2(head.as_str(), "...")
    }
}

/// The first five lines, each indented by four spaces; `<empty>` for none.
pub open spec fn indented_lines(s: Seq<char>) -> Seq<char> {
    let ls = lines(s);
    if ls.len() == 0 {
        "    <empty>"@
    } else {
        let k = if ls.len() < 5 {
            ls.len() as int
        } else {
            5
        };
        join(ls.take(k).map_values(|l: Seq<char>| "    "@ + l), "\n"@)
    }
}

pub fn format_stderr_lines(stderr: &str) -> (r: String)
    ensures
        r@ == indented_lines(stderr@),
{
    let v = chars_of(stderr);
    let ls = lines_of(&v);
    let ghost l = seqs_of(ls@);
    if ls.len() == 0 {
        return String::from_str("    <empty>");
    }
    let k: usize = if ls.len() < 5 {
        ls.len()
    } else {
        5
    };
    let indent = chars_of("    ");
    let mut out: Vec<Vec<char>> = Vec::new();
    let mut i: usize = 0;
    while i < k
        invariant
            k <= ls@.len(),
            i <= k,
            l == seqs_of(ls@),
            indent@ == "    "@,
            seqs_of(out@) == l.take(i as int).map_values(|x: Seq<char>| "    "@ + x),
        decreases k - i,
    {
        let mut line = indent.clone();
        crate::text::append_vec(&mut line, &ls[i]);
        assert(l[i as int] == ls@[i as int]@);
        let ghost before = out@;
        assert(seqs_of(before).len() == before.len());
        out.push(line);
        i += 1;
        let ghost want = l.take(i as int).map_values(|x: Seq<char>| "    "@ + x);
        let ghost had = l.take(i as int - 1).map_values(|x: Seq<char>| "    "@ + x);
        assert forall|j: int| 0 <= j < i implies seqs_of(out@)[j] == want[j] by {
            if j < i - 1 {
                assert(out@[j] == before[j]);
                assert(seqs_of(before)[j] == had[j]);
            }
        }
        assert(seqs_of(out@) =~= want);
    }
    let joined = join_range(&out, 0, out.len(), &chars_of("\n"));
    assert(seqs_of(out@).subrange(0, out@.len() as int) =~= seqs_of(out@));
    string_of(&joined)
}

/// Kind of failure of the AI command.
#[derive(Debug, Clone, Copy, PartialEq, Eq, Structural)]
pub enum AiErrorKind {
    Auth,
    Config,
    Network,
    Execution,
}

/// How a failure reads: by markers in its (lower-cased) output and the exit
/// code.
pub open spec fn ai_error_kind(output: Seq<char>, exit_code: Seq<char>) -> AiErrorKind {
    let low = ascii_lower(output);
    if contains(low, "unauthorized"@) || contains(low, "authentication failed"@) || contains(
        low,
        "invalid token"@,
    ) || contains(low, "invalid api key"@) || contains(low, "invalid api token"@) || contains(
        low,
        "api key"@,
    ) || contains(low, "api_key"@) || contains(low, "invalid key"@) || contains(
        low,
        "token expired"@,
    ) || contains(low, "credentials"@) || contains(low, "401 "@) || contains(low, "http 401"@)
        || contains(low, "403 forbidden"@) || contains(low, "http 403"@) {
        AiErrorKind::Auth
    } else if contains(low, "command not found"@) || contains(low, "no such file or directory"@)
        || contains(low, "permission denied"@) || (exit_code == "127"@ && contains(
        low,
        "not found"@,
    )) {
        AiErrorKind::Config
    } else if contains(low, "timeout"@) || contains(low, "timed out"@) || contains(
        low,
        "connection refused"@,
    ) || contains(low, "could not resolve"@) || contains(low, "dns"@) || contains(
        low,
        "rate limit"@,
    ) || contains(low, "429"@) || contains(low, "503"@) {
        AiErrorKind::Network
    } else {
        AiErrorKind::Execution
    }
}

/// The hint shown for each kind of failure.
pub open spec fn ai_error_hint(kind: AiErrorKind) -> Seq<char> {
    match kind {
        AiErrorKind::Auth => "check the API token or key used by ai.command"@,
        AiErrorKind::Config => "check the ai.command executable path and any referenced files or directories"@,
        AiErrorKind::Network => "check network connectivity, provider availability, and retry"@,
        AiErrorKind::Execution => "run the rendered command directly to inspect the full failure"@,
    }
}

fn has(low: &Vec<char>, marker: &str) -> (r: bool)
    ensures
        r == contains(low@, marker@),
{
    contains_vec(low, &chars_of(marker))
}

/// Kind and hint for a failed AI command's output and exit code.
pub fn classify_and_hint(stderr: &str, exit_code: &str) -> (r: (AiErrorKind, &'static str))
    ensures
        r.0 == ai_error_kind(stderr@, exit_code@),
        r.1@ == ai_error_hint(r.0),
{
    let low = to_ascii_lower(&chars_of(stderr));
    if has(&low, "unauthorized") || has(&low, "authentication failed") || has(&low, "invalid token")
        || has(&low, "invalid api key") || has(&low, "invalid api token") || has(&low, "api key")
        || has(&low, "api_key") || has(&low, "invalid key") || has(&low, "token expired") || has(
        &low,
        "credentials",
    ) || has(&low, "401 ") || has(&low, "http 401") || has(&low, "403 forbidden") || has(
        &low,
        "http 403",
    ) {
        return (AiErrorKind::Auth, "check the API token or key used by ai.command");
    }
    if has(&low, "command not found") || has(&low, "no such file or directory") || has(
        &low,
        "permission denied",
    ) || (str_eq(exit_code, "127") && has(&low, "not found")) {
        return (
            AiErrorKind::Config,
            "check the ai.command executable path and any referenced files or directories",
        );
    }
    if has(&low, "timeout") || has(&low, "timed out") || has(&low, "connection refused") || has(
        &low,
        "could not resolve",
    ) || has(&low, "dns") || has(&low, "rate limit") || has(&low, "429") || has(&low, "503") {
        return (AiErrorKind::Network, "check network connectivity, provider availability, and retry");
    }
    (AiErrorKind::Execution, "run the rendered command directly to inspect the full failure")
}

/// The command as it would run, with the system prompt and the input
/// redacted, cut to 200 characters.
pub open spec fn command_preview(template: Seq<char>) -> Seq<char> {
    let red = shell_escaped("<redacted>"@);
    match rendered_template(template, red, red, "<redacted>"@) {
        Ok(p) => truncated_preview(trim(p)),
        Err(_) => "<unable to render command preview>"@,
    }
}

pub fn render_command_preview(template: &str) -> (r: String)
    ensures
        r@ == command_preview(template@),
{
    let red = shell_escape("<redacted>");
    match render_command_template(template, red.as_str(), red.as_str(), "<redacted>") {
        Ok(p) => {
            let t = trim_str(p.as_str());
            truncate_preview(t.as_str())
        },
        Err(_) => String::from_str("<unable to render command preview>"),
    }
}

/// The shell command for an AI task: the template rendered with the
/// shell-quoted system prompt and input and the path of the input file; or
/// the configuration error.
pub open spec fn ai_command_verdict(
    template: Seq<char>,
    system: Seq<char>,
    input: Seq<char>,
    input_file: Seq<char>,
) -> Result<Seq<char>, Seq<char>> {
    match rendered_template(template, shell_escaped(system), shell_escaped(input), input_file) {
        Ok(s) => Ok(s),
        Err((true, m)) => Err("invalid ai.command template: "@ + m
            + "\n  hint: check ai.command syntax in config.yaml"@),
        Err((false, m)) => Err("failed to render ai.command template: "@ + m
            + "\n  hint: check ai.command syntax in config.yaml"@),
    }
}

pub fn render_ai_command(template: &str, system: &str, input: &str, input_file: &str) -> (r: Result<
    String,
    RiptskError,
>)
    ensures
        match r {
            Ok(s) => ai_command_verdict(template@, system@, input@, input_file@) == Ok::<
                Seq<char>,
                Seq<char>,
            >(s@),
            Err(e) => e is Config && ai_command_verdict(template@, system@, input@, input_file@)
                == Err::<Seq<char>, Seq<char>>(e.message()),
        },
{
    let system_escaped = shell_escape(system);
    let input_escaped = shell_escape(input);
    let rendered = render_command_template(template, system_escaped.as_str(), input_escaped.as_str(), input_file);
    match rendered {
        Ok(s) => Ok(s),
        Err(TemplateError::Invalid(m)) => Err(
            RiptskError::Config(
                concat3("invalid ai.command template: ", m.as_str(), "\n  hint: check ai.command syntax in config.yaml"),
            ),
        ),
        Err(TemplateError::Render(m)) => Err(
            RiptskError::Config(
                concat3(
                    "failed to render ai.command template: ",
                    m.as_str(),
                    "\n  hint: check ai.command syntax in config.yaml",
                ),
            ),
        ),
    }
}

/// The exit code as shown, `unknown` when the command died by a signal.
pub open spec fn exit_code_text(code: Option<i32>) -> Seq<char> {
    match code {
        Some(c) => signed_decimal(c as int),
        None => "unknown"@,
    }
}

/// The output classified: stdout when stderr is empty and stdout is not.
pub open spec fn failure_output(stdout: Seq<char>, stderr: Seq<char>) -> Seq<char> {
    if stderr.len() == 0 && stdout.len() != 0 {
        stdout
    } else {
        stderr
    }
}

/// The report of a failed AI command.
pub open spec fn failure_detail(template: Seq<char>, code: Option<i32>, stdout: Seq<char>, stderr: Seq<char>) -> Seq<char> {
    let out = trim(stdout);
    let err = trim(stderr);
    let code_text = exit_code_text(code);
    let head = "ai.command failed (exit status "@ + code_text + ")\n  command: "@ + command_preview(
        template,
    ) + "\n  stderr:\n"@ + indented_lines(err);
    let with_out = if out.len() != 0 {
        head + "\n  stdout:\n"@ + indented_lines(out)
    } else {
        head
    };
    with_out + "\n  hint: "@ + ai_error_hint(ai_error_kind(failure_output(out, err), code_text))
}

/// The error for an AI command that exited unsuccessfully: its kind read
/// from the output and exit code, its message the exit status, the redacted
/// command, the first lines of stderr and stdout, and a hint.
pub fn ai_command_failure(template: &str, code: Option<i32>, stdout: &str, stderr: &str) -> (e: RiptskError)
    ensures
        e.message() == failure_detail(template@, code, stdout@, stderr@),
        ({
            let kind = ai_error_kind(
                failure_output(trim(stdout@), trim(stderr@)),
                exit_code_text(code),
            );
            &&& kind == AiErrorKind::Auth ==> e is Auth
            &&& kind == AiErrorKind::Config ==> e is Config
            &&& kind == AiErrorKind::Network ==> e is Unreachable
            &&& kind == AiErrorKind::Execution ==> e is General
        }),
{
    let out = trim_str(stdout);
    let err = trim_str(stderr);
    let code_text = match code {
        Some(c) => i32_to_decimal(c),
        None => String::from_str("unknown"),
    };
    let preview = render_command_preview(template);
    let out_empty = out.as_str().is_empty();
    let combined = if err.as_str().is_empty() && !out_empty {
        out.as_str()
    } else {
        err.as_str()
    };
    let (kind, hint) = classify_and_hint(combined, code_text.as_str());
    let mut detail = concat3("ai.command failed (exit status ", code_text.as_str(), ")\n  command: ");
    detail.append(preview.as_str());
    detail.append("\n  stderr:\n");
    detail.append(format_stderr_lines(err.as_str()).as_str());
    if !out_empty {
        detail.append("\n  stdout:\n");
        detail.append(format_stderr_lines(out.as_str()).as_str());
    }
    detail.append("\n  hint: ");
    detail.append(hint);
    match kind {
        AiErrorKind::Auth => RiptskError::Auth(detail),
        AiErrorKind::Config => RiptskError::Config(detail),
        AiErrorKind::Network => RiptskError::Unreachable(detail),
        AiErrorKind::Execution => RiptskError::General(detail),
    }
}

/// The value of the first member named `key`.
pub open spec fn member_named(ms: Seq<(Seq<char>, JsonMemberView)>, key: Seq<char>, i: int) -> Option<JsonMemberView>
    decreases ms.len() - i,
{
    if 0 <= i < ms.len() {
        if ms[i].0 == key {
            Some(ms[i].1)
        } else {
            member_named(ms, key, i + 1)
        }
    } else {
        None
    }
}

/// The string value of member `key`, if it is a string.
pub open spec fn text_member(ms: Seq<(Seq<char>, JsonMemberView)>, key: Seq<char>) -> Option<Seq<char>> {
    match member_named(ms, key, 0) {
        Some(JsonMemberView::Text(v)) => Some(v),
        _ => None,
    }
}

/// The string elements of a list, in order.
pub open spec fn string_elements(xs: Seq<Option<Seq<char>>>) -> Seq<Seq<char>>
    decreases xs.len(),
{
    if xs.len() == 0 {
        Seq::empty()
    } else {
        let rest = string_elements(xs.drop_last());
        match xs.last() {
            Some(v) => rest.push(v),
            None => rest,
        }
    }
}

/// The string elements of member `key`, if it is a list.
pub open spec fn list_member(ms: Seq<(Seq<char>, JsonMemberView)>, key: Seq<char>) -> Seq<Seq<char>> {
    match member_named(ms, key, 0) {
        Some(JsonMemberView::List(xs)) => string_elements(xs),
        _ => Seq::empty(),
    }
}

fn find_member(ms: &Vec<(String, JsonMember)>, key: &str) -> (r: Option<usize>)
    ensures
        match r {
            Some(i) => i < ms@.len() && member_named(crate::json_read::members_view(ms@), key@, 0)
                == Some(ms@[i as int].1@),
            None => member_named(crate::json_read::members_view(ms@), key@, 0).is_none(),
        },
{
    let ghost mv = crate::json_read::members_view(ms@);
    let mut i: usize = 0;
    while i < ms.len()
        invariant
            mv == crate::json_read::members_view(ms@),
            member_named(mv, key@, 0) == member_named(mv, key@, i as int),
        decreases ms@.len() - i,
    {
        assert(mv[i as int] == (ms@[i as int].0@, ms@[i as int].1@));
        if str_eq(ms[i].0.as_str(), key) {
            return Some(i);
        }
        i += 1;
    }
    None
}

fn strings_of_list(xs: &Vec<Option<String>>) -> (r: Vec<String>)
    ensures
        string_views(r@) == string_elements(xs@.map_values(|o: Option<String>| crate::json_read::opt_string_view(o))),
{
    let ghost xv = xs@.map_values(|o: Option<String>| crate::json_read::opt_string_view(o));
    let mut r: Vec<String> = Vec::new();
    let mut i: usize = 0;
    assert(xv.take(0) =~= Seq::<Option<Seq<char>>>::empty());
    assert(string_views(r@) =~= string_elements(xv.take(0)));
    while i < xs.len()
        invariant
            i <= xs@.len(),
            xv == xs@.map_values(|o: Option<String>| crate::json_read::opt_string_view(o)),
            string_views(r@) == string_elements(xv.take(i as int)),
        decreases xs@.len() - i,
    {
        assert(xv.take(i as int + 1).drop_last() =~= xv.take(i as int));
        match &xs[i] {
            Some(v) => {
                let ghost before = r@;
                r.push(v.clone());
                assert(string_views(r@) =~= string_views(before).push(v@));
            },
            None => {},
        }
        i += 1;
    }
    assert(xv.take(xs@.len() as int) =~= xv);
    r
}

/// What becomes of the AI output for triage: status, priority and label
/// members of a JSON object, or the parser's error.
pub open spec fn triage_verdict(output: Seq<char>) -> Result<(Option<Seq<char>>, Option<Seq<char>>, Seq<Seq<char>>), Seq<char>> {
    match json_object_members_of(output) {
        Err(m) => Err("invalid AI triage response: "@ + m),
        Ok(None) => Ok((None, None, Seq::empty())),
        Ok(Some(ms)) => Ok((text_member(ms, "status"@), text_member(ms, "priority"@), list_member(ms, "labels"@))),
    }
}

fn text_member_of(ms: &Vec<(String, JsonMember)>, key: &str) -> (r: Option<String>)
    ensures
        crate::json_read::opt_string_view(r) == text_member(crate::json_read::members_view(ms@), key@),
{
    match find_member(ms, key) {
        Some(i) => match &ms[i].1 {
            JsonMember::Text(v) => Some(v.clone()),
            _ => None,
        },
        None => None,
    }
}

/// The triage suggestion in the AI output.
pub fn parse_triage_output(output: &str) -> (r: Result<TriageSuggestion, RiptskError>)
    ensures
        match r {
            Ok(t) => triage_verdict(output@) == Ok::<
                (Option<Seq<char>>, Option<Seq<char>>, Seq<Seq<char>>),
                Seq<char>,
            >(
                (
                    crate::json_read::opt_string_view(t.state),
                    crate::json_read::opt_string_view(t.priority),
                    string_views(t.labels@),
                ),
            ),
            Err(e) => e is General && triage_verdict(output@) == Err::<
                (Option<Seq<char>>, Option<Seq<char>>, Seq<Seq<char>>),
                Seq<char>,
            >(e.message()),
        },
{
    match json_object_members(output) {
        Err(m) => Err(RiptskError::General(concat2("invalid AI triage response: ", m.as_str()))),
        Ok(None) => {
            let labels: Vec<String> = Vec::new();
            assert(string_views(labels@) =~= Seq::<Seq<char>>::empty());
            Ok(TriageSuggestion { state: None, priority: None, labels })
        },
        Ok(Some(ms)) => {
            let state = text_member_of(&ms, "status");
            let priority = text_member_of(&ms, "priority");
            let labels = match find_member(&ms, "labels") {
                Some(i) => match &ms[i].1 {
                    JsonMember::List(xs) => strings_of_list(xs),
                    _ => {
                        let e: Vec<String> = Vec::new();
                        assert(string_views(e@) =~= Seq::<Seq<char>>::empty());
                        e
                    },
                },
                None => {
                    let e: Vec<String> = Vec::new();
                    assert(string_views(e@) =~= Seq::<Seq<char>>::empty());
                    e
                },
            };
            Ok(TriageSuggestion { state, priority, labels })
        },
    }
}

/// System prompt and input for a project-key suggestion: the keys already
/// taken are listed after the task prompt.
pub fn project_key_request(repo_name: &str, backend_type: &str, existing_keys: &Vec<String>) -> (r: (String, String))
    ensures
        r.0@ == crate::ai_prompts::composed(crate::ai_prompts::SUGGEST_PROJECT_KEY@)
            + "\n\nAlready-taken keys to avoid: "@ + join(string_views(existing_keys@), ", "@),
        r.1@ == "repo: "@ + repo_name@ + "\nbackend: "@ + backend_type@ + "\n"@,
{
    let mut system = crate::ai_prompts::suggest_project_key_system();
    system.append("\n\nAlready-taken keys to avoid: ");
    system.append(join_strings(existing_keys, ", ").as_str());
    let mut input = concat3("repo: ", repo_name, "\nbackend: ");
    input.append(backend_type);
    input.append("\n");
    (system, input)
}

/// Input for a question about issues.
pub fn ask_input(question: &str, context: &str) -> (r: String)
    ensures
        r@ == "Question: "@ + question@ + "\n\nIssues:\n"@ + context@,
{
    let mut r = concat3("Question: ", question, "\n\nIssues:\n");
    r.append(context);
    r
}

} // verus!
