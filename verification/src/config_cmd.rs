//! `tsk config` and `tsk doctor`: which configuration layer is written or
//! edited, and how the layers are reported.

use crate::cli::{concat_all, ConfigScope, ScopeFlags};
use crate::text::{
    chars_of, concat2, concat3, join, lines, lines_of, push_char, seqs_of, string_of, string_views,
};
use vstd::prelude::*;

verus! {

/// The layer `tsk config set` writes: the one the flags name, else the
/// project's local layer when there is one, else the user layer.
pub fn config_set_scope(flags: &ScopeFlags, has_local_layer: bool) -> (r: ConfigScope)
    ensures
        r == match flags.scope_spec() {
            Some(s) => s,
            None => if has_local_layer {
                ConfigScope::Local
            } else {
                ConfigScope::User
            },
        },
{
    match flags.scope() {
        Some(s) => s,
        None => {
            if has_local_layer {
                ConfigScope::Local
            } else {
                ConfigScope::User
            }
        },
    }
}

/// Which file `tsk config edit` opens without a scope flag.
#[derive(Debug, Clone, PartialEq, Eq)]
pub enum EditTarget {
    /// No layer exists: create the local one and open it.
    NewLocal,
    /// Exactly one layer exists: open it.
    Only(String),
    /// Several exist: let the user pick, from these lines.
    Pick(String),
}

/// The file to edit, from the paths of the layers that exist.
pub fn edit_target(existing: &Vec<String>) -> (r: EditTarget)
    ensures
        existing@.len() == 0 ==> r is NewLocal,
        existing@.len() == 1 ==> (r matches EditTarget::Only(p) && p@ == existing@[0]@),
        existing@.len() > 1 ==> (r matches EditTarget::Pick(input) && input@ == join(
            string_views(existing@),
            "\n"@,
        )),
{
    if existing.len() == 0 {
        EditTarget::NewLocal
    } else if existing.len() == 1 {
        EditTarget::Only(existing[0].clone())
    } else {
        EditTarget::Pick(crate::text::join_strings(existing, "\n"))
    }
}

/// `s` padded with spaces on the right to `width` characters (`{:<width}`).
pub open spec fn padded(s: Seq<char>, width: nat) -> Seq<char> {
    if s.len() >= width {
        s
    } else {
        s + Seq::new((width - s.len()) as nat, |i: int| ' ')
    }
}

/// A text padded on the right to a width.
pub fn pad_right(s: &str, width: usize) -> (r: String)
    ensures
        r@ == padded(s@, width as nat),
{
    let mut r = String::from_str(s);
    let n = s.unicode_len();
    let mut k = n;
    while k < width
        invariant
            n == s@.len(),
            n <= k <= width || (k == n && n >= width),
            r@ == s@ + Seq::new((k - n) as nat, |i: int| ' '),
        decreases width - k,
    {
        push_char(&mut r, ' ');
        k += 1;
        assert(r@ =~= s@ + Seq::new((k - n) as nat, |i: int| ' '));
    }
    if n >= width {
        assert(r@ =~= s@);
    } else {
        assert(r@ =~= s@ + Seq::new((width - n) as nat, |i: int| ' '));
    }
    r
}

/// How `tsk doctor` lists one configuration layer: checked when its file
/// exists, with `(missing)` when not, and a note when there is no path.
pub open spec fn layer_line(scope: ConfigScope, path: Option<Seq<char>>, exists: bool) -> Seq<char> {
    match path {
        Some(p) => if exists {
            "  [x] "@ + padded(scope.spec_label(), 7) + " "@ + p + "\n"@
        } else {
            "  [ ] "@ + padded(scope.spec_label(), 7) + " "@ + p + "  (missing)\n"@
        },
        None => "  [ ] "@ + padded(scope.spec_label(), 7)
            + " (no path \u{2014} not inside a riptask project)\n"@,
    }
}

/// One layer's line of the doctor report.
pub fn doctor_layer_line(scope: ConfigScope, path: Option<&str>, exists: bool) -> (r: String)
    ensures
        r@ == layer_line(
            scope,
            match path {
                Some(p) => Some(p@),
                None => None,
            },
            exists,
        ),
{
    let label = pad_right(scope.label(), 7);
    let mut r = concat2("  ", match path {
        Some(_) => if exists {
            "[x] "
        } else {
            "[ ] "
        },
        None => "[ ] ",
    });
    proof {
        reveal_strlit("  ");
        reveal_strlit("[x] ");
        reveal_strlit("[ ] ");
        reveal_strlit("  [x] ");
        reveal_strlit("  [ ] ");
    }
    r.append(label.as_str());
    match path {
        Some(p) => {
            r.append(" ");
            r.append(p);
            if exists {
                r.append("\n");
            } else {
                r.append("  (missing)\n");
            }
        },
        None => {
            r.append(" (no path \u{2014} not inside a riptask project)\n");
        },
    }
    r
}

/// An environment variable's line of the doctor report: the name padded
/// to 16 columns, then its value or `(unset)`.
pub open spec fn env_line(var: Seq<char>, value: Option<Seq<char>>) -> Seq<char> {
    "  "@ + padded(var, 16) + " = "@ + (match value {
        Some(v) => v,
        None => "(unset)"@,
    }) + "\n"@
}

/// The doctor report's line for an environment variable.
pub fn doctor_env_line(var: &str, value: Option<&str>) -> (r: String)
    ensures
        r@ == env_line(
            var@,
            match value {
                Some(v) => Some(v@),
                None => None,
            },
        ),
{
    let mut r = String::from_str("  ");
    let name = pad_right(var, 16);
    r.append(name.as_str());
    r.append(" = ");
    match value {
        Some(v) => r.append(v),
        None => r.append("(unset)"),
    }
    r.append("\n");
    r
}

/// The lines, each indented by two spaces and ended by a newline.
pub open spec fn indented_block(ls: Seq<Seq<char>>) -> Seq<char> {
    concat_all(ls.map_values(|l: Seq<char>| "  "@ + l + "\n"@))
}

/// The effective configuration as the doctor report shows it: each line of
/// the YAML dump indented by two spaces.
pub fn doctor_config_dump(yaml: &str) -> (r: String)
    ensures
        r@ == indented_block(lines(yaml@)),
{
    let v = chars_of(yaml);
    let ls = lines_of(&v);
    let ghost views = seqs_of(ls@);
    let ghost pieces = views.map_values(|l: Seq<char>| "  "@ + l + "\n"@);
    let mut r = String::new();
    let mut i: usize = 0;
    while i < ls.len()
        invariant
            i <= ls@.len(),
            views == seqs_of(ls@),
            pieces == views.map_values(|l: Seq<char>| "  "@ + l + "\n"@),
            r@ == concat_all(pieces.take(i as int)),
        decreases ls@.len() - i,
    {
        assert(pieces.take(i as int + 1).drop_last() =~= pieces.take(i as int));
        let line = string_of(&ls[i]);
        r.append("  ");
        r.append(line.as_str());
        r.append("\n");
        assert(views[i as int] == ls@[i as int]@);
        assert(r@ =~= concat_all(pieces.take(i as int + 1)));
        i += 1;
    }
    assert(pieces.take(ls@.len() as int) =~= pieces);
    r
}

} // verus!
