//! Work clones (`tsk clone`, `tsk unclone`) and the store's git hook
//! (`tsk store hooks`): where a clone goes, when it may be removed, and
//! what each hook command does.

use crate::cli::HooksSubcommand;
use crate::error::RiptskError;
use crate::text::{concat2, concat3};
use vstd::prelude::*;

verus! {

/// What a work clone records of itself.
#[derive(Debug, Clone, PartialEq, Eq)]
pub struct WorkCloneMarker {
    pub main_repo_path: String,
    pub branch: String,
    pub issue_id: String,
    pub remote_url: String,
}

/// The directory name of a work clone: the repository's, a dot, the
/// branch.
pub fn work_clone_dir_name(repo_dir_name: &str, slug: &str) -> (r: String)
    ensures
        r@ == repo_dir_name@ + "."@ + slug@,
{
    concat3(repo_dir_name, ".", slug)
}

/// A work clone is not made over an existing directory.
pub fn check_clone_target(target: &str, exists: bool) -> (r: Result<(), RiptskError>)
    ensures
        !exists ==> r is Ok,
        exists ==> (r matches Err(RiptskError::General(m)) && m@
            == "work-clone target already exists: "@ + target@),
{
    if exists {
        Err(RiptskError::General(concat2("work-clone target already exists: ", target)))
    } else {
        Ok(())
    }
}

/// Whether a work clone may be pushed and removed: it must be one, its
/// main repository must still exist, and, unless forced, it must hold no
/// uncommitted changes.
pub fn unclone_check(marker: Option<&WorkCloneMarker>, main_repo_exists: bool, force: bool, dirty: bool) -> (r: Result<(), RiptskError>)
    ensures
        marker.is_none() ==> (r matches Err(RiptskError::General(m)) && m@ == "not a work-clone"@),
        marker is Some && !main_repo_exists ==> (r matches Err(RiptskError::General(m)) && m@
            == "main repo path does not exist: "@ + marker->0.main_repo_path@),
        marker is Some && main_repo_exists && !force && dirty ==> (r matches Err(
            RiptskError::General(m),
        ) && m@
            == "working tree is dirty; commit or stash changes before running `tsk unclone`, or use --force to discard them"@),
        marker is Some && main_repo_exists && (force || !dirty) ==> r is Ok,
{
    match marker {
        None => Err(RiptskError::General(String::from_str("not a work-clone"))),
        Some(mk) => {
            if !main_repo_exists {
                return Err(
                    RiptskError::General(
                        concat2("main repo path does not exist: ", mk.main_repo_path.as_str()),
                    ),
                );
            }
            if !force && dirty {
                return Err(
                    RiptskError::General(
                        String::from_str(
                            "working tree is dirty; commit or stash changes before running `tsk unclone`, or use --force to discard them",
                        ),
                    ),
                );
            }
            Ok(())
        },
    }
}

/// What a hook command does to the hook file.
#[derive(Debug, Clone, PartialEq, Eq)]
pub enum HookAction {
    /// Write the hook (creating its directory).
    Write,
    /// Report it installed.
    ReportInstalled,
    /// Remove the file.
    Remove,
    /// Nothing to do.
    Nothing,
    /// Fail: the hook is not installed.
    NotInstalled(RiptskError),
}

/// The action of `tsk store hooks`: install writes; status reports, and is
/// an error when the hook is missing; update rewrites an installed hook;
/// uninstall removes it if present. No subcommand means status.
pub fn hook_action(subcommand: Option<HooksSubcommand>, hook_exists: bool) -> (r: HookAction)
    ensures
        match subcommand {
            Some(HooksSubcommand::Install { .. }) => r == HookAction::Write,
            Some(HooksSubcommand::Update { .. }) => if hook_exists {
                r == HookAction::Write
            } else {
                r matches HookAction::NotInstalled(RiptskError::General(m)) && m@
                    == "hook not installed"@
            },
            Some(HooksSubcommand::Uninstall { .. }) => if hook_exists {
                r == HookAction::Remove
            } else {
                r == HookAction::Nothing
            },
            _ => if hook_exists {
                r == HookAction::ReportInstalled
            } else {
                r matches HookAction::NotInstalled(RiptskError::General(m)) && m@
                    == "hook not installed"@
            },
        },
{
    match subcommand {
        Some(HooksSubcommand::Install { .. }) => HookAction::Write,
        Some(HooksSubcommand::Update { .. }) => {
            if hook_exists {
                HookAction::Write
            } else {
                HookAction::NotInstalled(RiptskError::General(String::from_str("hook not installed")))
            }
        },
        Some(HooksSubcommand::Uninstall { .. }) => {
            if hook_exists {
                HookAction::Remove
            } else {
                HookAction::Nothing
            }
        },
        _ => {
            if hook_exists {
                HookAction::ReportInstalled
            } else {
                HookAction::NotInstalled(RiptskError::General(String::from_str("hook not installed")))
            }
        },
    }
}

} // verus!
