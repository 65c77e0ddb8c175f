//! Boards and lane order: which board a reorder applies to, how issues are
//! shown in the picker, and which way a single issue moves.

use crate::cli::{IdArgs, ScopeArgs};
use crate::domain::Config;
use crate::picker::IssueDisplayMode;
use crate::text::opt_view;
use vstd::prelude::*;

verus! {

/// Which way an issue moves within its lane.
#[derive(Debug, Clone, Copy, PartialEq, Eq, Structural)]
pub enum ShiftDirection {
    Up,
    Down,
}

/// A request to move one issue within its lane.
#[derive(Debug, Clone)]
pub struct ShiftRequest {
    pub scope: ScopeArgs,
    pub id: Option<String>,
    pub direction: ShiftDirection,
}

/// `tsk reorder-up`: move the issue one place up.
pub fn reorder_up(args: IdArgs) -> (r: ShiftRequest)
    ensures
        r.scope == args.scope,
        r.id == args.id,
        r.direction == ShiftDirection::Up,
{
    ShiftRequest { scope: args.scope, id: args.id, direction: ShiftDirection::Up }
}

/// `tsk reorder-down`: move the issue one place down.
pub fn reorder_down(args: IdArgs) -> (r: ShiftRequest)
    ensures
        r.scope == args.scope,
        r.id == args.id,
        r.direction == ShiftDirection::Down,
{
    ShiftRequest { scope: args.scope, id: args.id, direction: ShiftDirection::Down }
}

/// The board a reorder applies to: the one named, else the first
/// configured board, else `personal`.
pub fn reorder_board(board: Option<&str>, config: &Config) -> (r: String)
    ensures
        r@ == match board {
            Some(b) => b@,
            None => if config.boards@.len() > 0 {
                config.boards@[0].name@
            } else {
                "personal"@
            },
        },
{
    match board {
        Some(b) => String::from_str(b),
        None => {
            if config.boards.len() > 0 {
                config.boards[0].name.clone()
            } else {
                String::from_str("personal")
            }
        },
    }
}

/// Issues of all projects are shown with their project.
pub fn display_mode(all_projects: bool) -> (r: IssueDisplayMode)
    ensures
        r == if all_projects {
            IssueDisplayMode::AllProjects
        } else {
            IssueDisplayMode::PerProject
        },
{
    if all_projects {
        IssueDisplayMode::AllProjects
    } else {
        IssueDisplayMode::PerProject
    }
}

/// The line of the board tree for an entry named `name`: the indentation
/// `prefix`, a branch (`└── ` for the last entry of its directory, `├── `
/// otherwise), the name, and `/` after a directory's name.
pub open spec fn tree_line(prefix: Seq<char>, is_last: bool, name: Seq<char>, is_dir: bool) -> Seq<char> {
    prefix + (if is_last {
        "└── "@
    } else {
        "├── "@
    }) + name + (if is_dir {
        "/"@
    } else {
        Seq::empty()
    })
}

/// The line of the board tree for an entry.
pub fn tree_entry_line(prefix: &str, is_last: bool, name: &str, is_dir: bool) -> (r: String)
    ensures
        r@ == tree_line(prefix@, is_last, name@, is_dir),
{
    let mut r = String::from_str(prefix);
    if is_last {
        r.append("└── ");
    } else {
        r.append("├── ");
    }
    r.append(name);
    if is_dir {
        r.append("/");
    }
    r
}

/// The indentation of a directory's entries: its own, then blank under a
/// last entry and a vertical bar under any other.
pub fn tree_child_prefix(prefix: &str, is_last: bool) -> (r: String)
    ensures
        r@ == prefix@ + (if is_last {
            "    "@
        } else {
            "│   "@
        }),
{
    let mut r = String::from_str(prefix);
    if is_last {
        r.append("    ");
    } else {
        r.append("│   ");
    }
    r
}

} // verus!
