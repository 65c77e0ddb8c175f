//! Picking issues with `fzf`: the lines it is given, the arguments it is
//! run with, and how its selection is read back.

use crate::domain::IssueDocument;
use crate::text::{
    after_last, after_last_char, chars_of, concat2, concat3, join, join_strings, lines, lines_of,
    push_char, seqs_of, string_of, string_views, trim, trim_str,
};
use vstd::prelude::*;

verus! {

/// Widest title shown in a picker line.
pub const TITLE_MAX_WIDTH: usize = 50;

/// Whether picker lines name the project too.
#[derive(Debug, Clone, Copy, PartialEq, Eq, Structural)]
pub enum IssueDisplayMode {
    PerProject,
    AllProjects,
}

/// The `fzf` picker, with extra options from the configuration.
#[derive(Debug, Clone, Default)]
pub struct FzfPicker {
    pub fzf_opts: Option<String>,
}

/// `char::is_control`: the Unicode `Cc` category.
pub open spec fn is_control(c: char) -> bool {
    (c as u32) <= 0x1f || (0x7f <= (c as u32) && (c as u32) <= 0x9f)
}

/// Control characters replaced by spaces.
pub open spec fn without_controls(s: Seq<char>) -> Seq<char> {
    s.map_values(|c: char| if is_control(c) { ' ' } else { c })
}

/// A text with its control characters replaced by spaces.
pub fn sanitize_control(s: &str) -> (r: String)
    ensures
        r@ == without_controls(s@),
{
    let v = chars_of(s);
    let mut r = String::new();
    let mut i: usize = 0;
    while i < v.len()
        invariant
            v@ == s@,
            i <= v@.len(),
            r@ == without_controls(v@.take(i as int)),
        decreases v@.len() - i,
    {
        let c = v[i];
        let u = c as u32;
        let shown = if u <= 0x1f || (0x7f <= u && u <= 0x9f) {
            ' '
        } else {
            c
        };
        push_char(&mut r, shown);
        i += 1;
        assert(r@ =~= without_controls(v@.take(i as int)));
    }
    assert(v@.take(v@.len() as int) =~= v@);
    r
}

/// A title cut to `max` characters: controls become spaces, and a longer
/// title keeps `max - 1` characters and an ellipsis.
pub open spec fn truncated_title(title: Seq<char>, max: nat) -> Seq<char> {
    let clean = without_controls(title);
    if clean.len() <= max {
        clean
    } else {
        clean.take(max - 1).push('\u{2026}')
    }
}

/// A title fitted to `max` characters.
pub fn truncate_title(title: &str, max: usize) -> (r: String)
    requires
        max > 0 || title@.len() == 0,
    ensures
        r@ == truncated_title(title@, max as nat),
{
    let clean = sanitize_control(title);
    let v = chars_of(clean.as_str());
    if v.len() <= max {
        clean
    } else {
        let mut r = crate::text::string_of_range(&v, 0, max - 1);
        push_char(&mut r, '\u{2026}');
        assert(v@.subrange(0, max - 1) =~= v@.take(max - 1));
        r
    }
}

/// The full id hidden at the end of a picker line: the part after its
/// last tab, trimmed.
pub open spec fn hidden_id_of(line: Seq<char>) -> Seq<char> {
    trim(after_last(line, '\t'))
}

/// The full id in a selected picker line.
pub fn extract_hidden_id(line: &str) -> (r: String)
    ensures
        r@ == hidden_id_of(line@),
{
    let last = after_last_char(line, '\t');
    trim_str(last.as_str())
}

/// `id`, priority, state, project and title of an issue, tab-separated,
/// with control characters of project and title replaced.
pub open spec fn plain_issue_line(issue: IssueDocument) -> Seq<char> {
    let fm = issue.frontmatter;
    fm.id@ + seq!['\t'] + (match fm.priority {
        Some(p) => p.spec_name(),
        None => Seq::empty(),
    }) + seq!['\t'] + fm.status.spec_name() + seq!['\t'] + without_controls(fm.project@) + seq![
        '\t',
    ] + without_controls(fm.title@)
}

/// An issue as one line for piped output.
pub fn format_issue_plain(issue: &IssueDocument) -> (r: String)
    ensures
        r@ == plain_issue_line(*issue),
{
    let fm = &issue.frontmatter;
    let priority = match &fm.priority {
        Some(p) => p.as_str(),
        None => "",
    };
    let project = sanitize_control(fm.project.as_str());
    let title = sanitize_control(fm.title.as_str());
    let mut r = concat3(fm.id.as_str(), "\t", priority);
    r.append("\t");
    r.append(fm.status.as_str());
    r.append("\t");
    r.append(project.as_str());
    r.append("\t");
    r.append(title.as_str());
    proof {
        reveal_strlit("\t");
        reveal_strlit("");
    }
    assert(r@ =~= plain_issue_line(*issue));
    r
}

/// The ids of a multiple selection: one per line, empty ones dropped.
pub open spec fn selected_ids_of(ls: Seq<Seq<char>>) -> Seq<Seq<char>>
    decreases ls.len(),
{
    if ls.len() == 0 {
        Seq::empty()
    } else {
        let before = selected_ids_of(ls.drop_last());
        let id = hidden_id_of(ls.last());
        if id.len() == 0 {
            before
        } else {
            before.push(id)
        }
    }
}

/// The ids picked in a multiple selection.
pub fn selected_ids(selection: &str) -> (r: Vec<String>)
    ensures
        string_views(r@) == selected_ids_of(lines(selection@)),
{
    let ls = lines_of(&chars_of(selection));
    let ghost all = seqs_of(ls@);
    let mut r: Vec<String> = Vec::new();
    let mut i: usize = 0;
    assert(all.take(0) =~= Seq::<Seq<char>>::empty());
    while i < ls.len()
        invariant
            all == seqs_of(ls@),
            i <= ls@.len(),
            string_views(r@) == selected_ids_of(all.take(i as int)),
        decreases ls@.len() - i,
    {
        assert(all.take(i + 1).drop_last() =~= all.take(i as int));
        assert(all.take(i + 1).last() == ls@[i as int]@);
        let line = string_of(&ls[i]);
        let id = extract_hidden_id(line.as_str());
        let ghost before = r@;
        if id.unicode_len() > 0 {
            let ghost idv = id@;
            r.push(id);
            assert(string_views(r@) =~= string_views(before).push(idv));
        }
        i += 1;
    }
    assert(all.take(ls@.len() as int) =~= all);
    r
}

/// What `fzf` selected: its trimmed output when it succeeded and printed
/// something.
pub fn fzf_selection(success: bool, stdout: &str) -> (r: Option<String>)
    ensures
        match r {
            Some(s) => success && s@ == trim(stdout@) && s@.len() > 0,
            None => !success || trim(stdout@).len() == 0,
        },
{
    if !success {
        return None;
    }
    let selection = trim_str(stdout);
    if selection.unicode_len() == 0 {
        None
    } else {
        Some(selection)
    }
}

/// A text inside single quotes for the shell, each `'` closed, escaped and
/// reopened.
pub open spec fn quote_escaped(s: Seq<char>) -> Seq<char>
    decreases s.len(),
{
    if s.len() == 0 {
        Seq::empty()
    } else {
        quote_escaped(s.drop_last()) + if s.last() == '\'' {
            seq!['\'', '\\', '\'', '\'']
        } else {
            seq![s.last()]
        }
    }
}

fn escape_quotes(s: &str) -> (r: String)
    ensures
        r@ == quote_escaped(s@),
{
    let v = chars_of(s);
    let mut r = String::new();
    let mut i: usize = 0;
    assert(v@.take(0) =~= Seq::<char>::empty());
    while i < v.len()
        invariant
            v@ == s@,
            i <= v@.len(),
            r@ == quote_escaped(v@.take(i as int)),
        decreases v@.len() - i,
    {
        assert(v@.take(i + 1).drop_last() =~= v@.take(i as int));
        if v[i] == '\'' {
            push_char(&mut r, '\'');
            push_char(&mut r, '\\');
            push_char(&mut r, '\'');
            push_char(&mut r, '\'');
        } else {
            push_char(&mut r, v[i]);
        }
        i += 1;
        assert(r@ =~= quote_escaped(v@.take(i as int)));
    }
    assert(v@.take(v@.len() as int) =~= v@);
    r
}

/// The `--preview` argument that shows an issue file from `dir`.
pub open spec fn preview_arg(dir: Seq<char>) -> Seq<char> {
    "--preview=cat '"@ + quote_escaped(dir) + "/'{2}'.md' 2>/dev/null || echo 'No preview available'"@
}

/// The arguments `fzf` gets for picking issues: full screen, the hidden id
/// column, preview scrolling, then a preview of the issue file when the
/// issues' directory is known, then `extra`.
pub open spec fn issue_picker_args(issues_dir: Option<Seq<char>>, extra: Seq<Seq<char>>) -> Seq<
    Seq<char>,
> {
    seq![
        "--height=100%"@,
        "--layout=reverse"@,
        "--ansi"@,
        "--delimiter=\t"@,
        "--with-nth=1"@,
        "--bind=alt-j:preview-down,alt-k:preview-up"@,
        "--header=Alt-J/K: scroll preview"@,
    ] + (match issues_dir {
        Some(d) => seq![preview_arg(d), "--preview-window=right:60%:wrap"@],
        None => Seq::empty(),
    }) + extra
}

/// The arguments for an issue picker.
pub fn fzf_issue_args(issues_dir: Option<&str>, extra: &[&str]) -> (r: Vec<String>)
    ensures
        string_views(r@) == issue_picker_args(
            match issues_dir {
                Some(d) => Some(d@),
                None => None,
            },
            extra@.map_values(|a: &str| a@),
        ),
{
    let mut args: Vec<String> = Vec::new();
    args.push(String::from_str("--height=100%"));
    args.push(String::from_str("--layout=reverse"));
    args.push(String::from_str("--ansi"));
    args.push(String::from_str("--delimiter=\t"));
    args.push(String::from_str("--with-nth=1"));
    args.push(String::from_str("--bind=alt-j:preview-down,alt-k:preview-up"));
    args.push(String::from_str("--header=Alt-J/K: scroll preview"));
    let ghost base = string_views(args@);
    match issues_dir {
        Some(dir) => {
            let escaped = escape_quotes(dir);
            let mut preview = concat2("--preview=cat '", escaped.as_str());
            preview.append("/'{2}'.md' 2>/dev/null || echo 'No preview available'");
            args.push(preview);
            args.push(String::from_str("--preview-window=right:60%:wrap"));
        },
        None => {},
    }
    let ghost head = string_views(args@);
    let mut i: usize = 0;
    let ghost extra_views = extra@.map_values(|a: &str| a@);
    assert(head + extra_views.take(0) =~= head);
    while i < extra.len()
        invariant
            extra_views == extra@.map_values(|a: &str| a@),
            i <= extra@.len(),
            string_views(args@) == head + extra_views.take(i as int),
        decreases extra@.len() - i,
    {
        let ghost before = args@;
        args.push(String::from_str(extra[i]));
        assert(string_views(args@) =~= string_views(before).push(extra@[i as int]@));
        i += 1;
        assert(string_views(args@) =~= head + extra_views.take(i as int));
    }
    assert(extra_views.take(extra@.len() as int) =~= extra_views);
    args
}

} // verus!
