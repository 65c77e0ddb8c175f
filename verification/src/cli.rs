//! The command line of `tsk`: its commands and their arguments, as plain
//! values.

use crate::backend::MergeMethod;
use crate::text::{lemma_text_less_total, lemma_text_less_transitive, string_views, text_less, text_lt};
use vstd::prelude::*;

verus! {

/// A configuration layer.
#[derive(Debug, Clone, Copy, PartialEq, Eq, Structural)]
pub enum ConfigScope {
    System,
    User,
    Local,
}

#[derive(Debug)]
pub struct Cli {
    pub command: Option<Commands>,
}

#[derive(Debug, Clone, Default)]
pub struct ScopeArgs {
    /// Limit to specific RepoProjects
    pub projects: Vec<String>,
    /// Run across all registered RepoProjects
    pub all_projects: bool,
}

#[derive(Debug, Clone, Default)]
pub struct IdArgs {
    pub scope: ScopeArgs,
    pub pick: bool,
    /// Issue ID (or pick interactively if omitted)
    pub id: Option<String>,
}

#[derive(Debug)]
pub enum Commands {
    /// Close an issue
    Close(IdArgs),
    /// Edit an existing issue in your editor
    Edit(IdArgs),
    /// List issues with optional filters
    Ls(LsArgs),
    /// Create a new issue
    New(NewArgs),
    /// Print the issue id associated with the current git branch
    Id,
    /// Print the file path of an issue
    Path(IdArgs),
    /// Manage recurring issue schedules
    Recur(RecurArgs),
    /// Reopen a closed issue
    Reopen(IdArgs),
    /// Remove an issue permanently
    Rm(IdArgs),
    /// Display issue details
    Show(IdArgs),
    /// Change the status of an issue
    Status(StatusArgs),
    /// Create, switch to, adopt, or delete an issue branch
    ///
    /// Default (no flag): creates (or checks out) the canonical branch for
    /// the given issue on the remote, then stamps frontmatter.branch and
    /// id_slug on the issue.
    ///
    /// --adopt: link the currently checked-out git branch to an issue
    /// without touching the remote. Use this when a branch was created
    /// outside of `tsk` (e.g. `git checkout -b`) and you want bare
    /// commands like `tsk edit` or `tsk show` to auto-resolve to this
    /// issue while on that branch.
    ///
    /// `tsk branch --adopt` infers the issue id from the leading
    /// `<number>-` in the current branch name.
    ///
    /// `tsk branch --adopt <id>` links to the given issue.
    ///
    /// Refuses protected branches (main/master/develop/…); refuses
    /// branches already linked to another issue; prompts before
    /// overwriting an existing link on the target issue (use -y to
    /// skip).
    ///
    /// -d / -D: delete the branch (safe / force).
    Branch(BranchArgs),
    /// Create a work-clone for an issue
    Clone(CloneArgs),
    /// Create an AI-assisted git commit
    Commit(CommitArgs),
    /// Complete an issue: merge PR, delete branch, close issue
    Done(DoneArgs),
    /// Create, edit, or show a pull/merge request
    Pr(PrArgs),
    /// Start or end a work session
    Session(SessionArgs),
    /// Start work on an issue (creates branch and draft PR)
    Start(StartArgs),
    /// Push changes and remove the current work-clone
    Unclone(UncloneArgs),
    /// Show or manage boards
    Board(BoardArgs),
    /// Set the order of issues by status
    Reorder(ReorderArgs),
    /// Move an issue one position down in its status
    ReorderDown(IdArgs),
    /// Move an issue one position up in its status
    ReorderUp(IdArgs),
    /// Regenerate board views
    View,
    /// Register a backend project (GitHub/GitLab)
    Register(RegisterArgs),
    /// Manage the task store (commits, hooks)
    Store(StoreArgs),
    /// Sync issues with a remote backend (GitHub/GitLab)
    Sync(SyncArgs),
    /// Ask an AI question about your issues
    Ask(AskArgs),
    /// Generate an AI summary of issues
    Summarize(SummarizeArgs),
    /// View or update tsk configuration
    Config(ConfigArgs),
    /// Print diagnostics: paths, config layers, and effective config
    Doctor,
    /// Generate shell completions
    Completions {
        /// Target shell
        shell: CompletionShell,
    },
    /// Show help for a command
    Help {
        /// Command name
        command: Option<String>,
    },
    /// Initialize a config layer. Does not register a project; run `tsk register` after init.
    Init(InitArgs),
    /// Manage issue templates
    Template(TemplateArgs),
    /// Print version information
    Version,
}

#[derive(Debug, Clone, Default)]
pub struct BranchArgs {
    pub scope: ScopeArgs,

    pub pick: bool,

    /// Target branch name or issue ID
    pub id: Option<String>,

    /// Delete branch (safe — must be fully merged)
    pub delete: bool,

    /// Force-delete branch (even if not merged)
    pub force_delete: bool,

    /// Link the currently checked-out git branch to an issue without
    /// touching the remote. If [ID] is omitted, the issue number is
    /// inferred from the leading `<number>-` of the branch name. Refuses
    /// protected branches and branches already linked to another issue;
    /// prompts before overwriting an existing link (use -y to skip).
    pub adopt: bool,

    /// Skip confirmation prompts (for -d/-D and --adopt overwrite)
    pub yes: bool,
}

#[derive(Debug, Clone, Default)]
pub struct InitArgs {
    pub scope: ScopeFlags,
    /// Overwrite an existing complete config at the chosen scope
    pub force: bool,
}

#[derive(Debug, Clone, Default)]
pub struct CloneArgs {
    pub scope: ScopeArgs,
    pub pick: bool,
    /// Issue ID
    pub id: Option<String>,
}

#[derive(Debug, Clone, Default)]
pub struct UncloneArgs {
    /// Discard uncommitted changes before pushing
    pub force: bool,
}

#[derive(Debug, Clone, Default)]
pub struct PrArgs {
    pub subcommand: Option<PrSubcommand>,
    pub scope: ScopeArgs,
    /// Issue ID (shorthand for `tsk pr create [ID]`)
    pub id: Option<String>,
    /// Disable AI-assisted description generation
    pub no_ai: bool,
}

#[derive(Debug, Clone, Default)]
pub struct DoneArgs {
    pub scope: ScopeArgs,
    pub pick: bool,
    /// Issue ID (or pick interactively)
    pub id: Option<String>,
    /// Merge method (merge, squash, rebase)
    pub merge_method: Option<MergeMethod>,
    /// Skip waiting for CI checks before merging
    pub auto_merge: bool,
    /// Skip confirmation prompts
    pub yes: bool,
    /// Timeout in seconds for waiting (default 600)
    pub timeout: u64,
    /// Use --force instead of --force-with-lease when pushing rebased branches
    pub force_push: bool,
}

#[derive(Debug, Clone, Default)]
pub struct StartArgs {
    pub scope: ScopeArgs,

    /// Pick an existing issue interactively
    pub pick: bool,

    /// Issue title OR numeric issue ID (positional)
    pub title_pos: Option<String>,
    /// Issue title (or enter interactively)
    pub title: Option<String>,
    /// Board to assign (new issues only)
    pub board: Option<String>,
    /// Initial status (new issues only)
    pub status: Option<String>,
    /// Priority level (new issues only)
    pub priority: Option<String>,
    /// Template to use (new issues only)
    pub template: Option<String>,
    /// Open in $EDITOR after creation (new issues only)
    pub edit: bool,
}

#[derive(Debug, Clone)]
pub enum PrSubcommand {
    /// Create a pull/merge request for an issue
    Create(PrCreateArgs),
    /// Edit an existing pull/merge request
    Edit(PrEditArgs),
    /// Show pull/merge request details
    Show(PrShowArgs),
    /// Merge a pull/merge request
    Merge(PrMergeArgs),
}

#[derive(Debug, Clone, Default)]
pub struct PrCreateArgs {
    pub scope: ScopeArgs,
    pub id: Option<String>,
    /// Skip AI-assisted description generation
    pub no_ai: bool,
}

#[derive(Debug, Clone, Default)]
pub struct PrEditArgs {
    pub scope: ScopeArgs,
    pub id: Option<String>,
    /// Set PR title directly
    pub title: Option<String>,
    /// Set PR description directly
    pub description: Option<String>,
    /// Accept AI-generated update without editor review
    pub yes: bool,
    /// Edit manually without AI assistance
    pub no_ai: bool,
}

#[derive(Debug, Clone, Default)]
pub struct PrShowArgs {
    pub scope: ScopeArgs,
    pub id: Option<String>,
    /// Output in JSON format
    pub json: bool,
}

#[derive(Debug, Clone, Default)]
pub struct PrMergeArgs {
    pub scope: ScopeArgs,
    pub id: Option<String>,
    /// Merge method (merge, squash, rebase)
    pub merge_method: Option<MergeMethod>,
    /// Skip waiting for CI checks before merging
    pub auto_merge: bool,
    /// Skip confirmation prompts
    pub yes: bool,
    /// Timeout in seconds for waiting (default 600)
    pub timeout: u64,
    /// Use --force instead of --force-with-lease when pushing rebased branches
    pub force_push: bool,
}

#[derive(Debug, Clone, Default)]
pub struct NewArgs {
    /// Issue title (skip AI title generation)
    pub title: Option<String>,
    /// Issue description (skip AI body generation)
    pub description: Option<String>,
    /// Force AI helper to fill missing fields (e.g. description) when --title is set
    pub ai: bool,
    /// Target RepoProject
    pub project: Option<String>,
    /// Board to assign
    pub board: Option<String>,
    /// Initial status
    pub status: Option<String>,
    /// Priority level
    pub priority: Option<String>,
    /// Template to use
    pub template: Option<String>,
    /// Open in $EDITOR after creation
    pub edit: bool,
}

#[derive(Debug, Clone, Default)]
pub struct StatusArgs {
    pub scope: ScopeArgs,
    pub pick: bool,
    /// Issue ID
    pub id: Option<String>,
    /// Target status
    pub status: Option<String>,
}

#[derive(Debug, Clone, Default)]
pub struct LsArgs {
    pub scope: ScopeArgs,
    /// Filter by status
    pub status: Option<String>,
    /// Filter by priority
    pub priority: Option<String>,
    /// Filter by board
    pub board: Option<String>,
    /// Filter by cycle
    pub cycle: Option<String>,
    /// Filter by assignee
    pub assignee: Option<String>,
    /// Include closed/done issues
    pub include_done: bool,
    /// Show only issues with sync conflicts
    pub conflicts: bool,
}

#[derive(Debug, Clone, Default)]
pub struct BoardArgs {
    pub scope: ScopeArgs,
    /// Show all boards including inactive
    pub all: bool,
    /// Target a specific board
    pub board: Option<String>,
    /// Open the board in the default viewer
    pub open: bool,
    /// Print the board file path
    pub path: bool,
}

#[derive(Debug, Clone, Default)]
pub struct ReorderArgs {
    pub scope: ScopeArgs,
    /// Board to reorder within
    pub board: Option<String>,
    /// Status column to reorder
    pub status: String,
    /// Issue IDs in desired order
    pub ids: Vec<String>,
}

#[derive(Debug, Clone, Default)]
pub struct SyncArgs {
    pub subcommand: Option<SyncSubcommand>,
    pub scope: ScopeArgs,
    /// Sync all projects
    pub all: bool,
    /// Target a specific backend by name
    pub backend: Option<String>,
    /// Overwrite remote state on conflicts
    pub force: bool,
    /// Show triage prompt for new remote issues
    pub triage: bool,
    /// Automatically triage new remote issues
    pub auto_triage: bool,
    /// Issue IDs to force-pull (skip conflict detection). Not exposed as CLI flag.
    pub force_pull_ids: Vec<String>,
}

#[derive(Debug, Clone)]
pub enum SyncSubcommand {
    /// Pull issues from the remote backend
    Pull(SyncPullPushArgs),
    /// Push local changes to the remote backend
    Push(SyncPullPushArgs),
    /// Show sync status
    Status,
    /// Resolve a sync conflict
    Resolve(ResolveArgs),
}

#[derive(Debug, Clone, Default)]
pub struct SyncPullPushArgs {
    /// Issue IDs to sync (omit for all)
    pub ids: Vec<String>,
}

#[derive(Debug, Clone, Default)]
pub struct ResolveArgs {
    /// Issue ID with the conflict
    pub id: String,
    /// Keep the remote version
    pub take_remote: bool,
    /// Keep the local version
    pub take_local: bool,
}

#[derive(Debug, Clone)]
pub struct SessionArgs {
    pub subcommand: SessionSubcommand,
}

#[derive(Debug, Clone, Default)]
pub struct SessionStartArgs {
    pub scope: ScopeArgs,
    /// Issue ID to focus the session on
    pub id: Option<String>,
}

#[derive(Debug, Clone)]
pub enum SessionSubcommand {
    /// Start a work session
    Start(SessionStartArgs),
    /// End the active work session
    End,
}

#[derive(Debug, Clone, Copy)]
pub enum CompletionShell {
    Bash,
    Zsh,
    Fish,
}

#[derive(Debug, Clone, Default)]
pub struct CommitArgs {
    /// Disable AI message generation
    pub no_ai: bool,
    /// Open commit message in editor before committing
    pub edit: bool,
    /// Provide commit message directly (skip AI)
    pub message: Option<String>,
    /// Accept AI-generated commit message without confirmation
    pub yes: bool,
    /// Stage all changes before committing (like git commit -a)
    pub all: bool,
}

#[derive(Debug, Clone)]
pub struct StoreArgs {
    pub subcommand: StoreSubcommand,
}

#[derive(Debug, Clone)]
pub enum StoreSubcommand {
    /// Commit tsk issue changes to the task store
    Commit(StoreCommitArgs),
    /// Manage git hooks for the task store
    Hooks(HooksArgs),
}

#[derive(Debug, Clone, Default)]
pub struct StoreCommitArgs {
    /// Open the commit message in an editor
    pub edit: bool,
}

#[derive(Debug, Clone, Default)]
pub struct RecurArgs {
    pub subcommand: Option<RecurSubcommand>,
}

#[derive(Debug, Clone)]
pub enum RecurSubcommand {
    /// List recurring definitions
    List,
    /// Create a new recurring definition
    New(Box<RecurNewArgs>),
    /// Run pending recurrences
    Run {
        /// Date to generate for (defaults to today)
        date: Option<String>,
    },
    /// Skip the next occurrence
    Skip {
        /// Recurring definition ID to skip
        recur_id: Option<String>,
    },
}

#[derive(Debug, Clone, Default)]
pub struct RecurNewArgs {
    pub scope: ScopeFlags,
    /// Unique ID for this recurring definition
    pub id: String,
    /// Template to use for generated issues
    pub template: Option<String>,
    /// Title pattern (supports date placeholders)
    pub title_pattern: String,
    /// Recurrence frequency (daily, weekly, monthly)
    pub frequency: String,
    /// Board for generated issues
    pub board: Option<String>,
    /// Project for generated issues
    pub project: Option<String>,
    /// Organization for generated issues
    pub org: Option<String>,
    /// Initial status for generated issues
    pub status: Option<String>,
    /// Priority for generated issues
    pub priority: Option<String>,
    /// Assignee for generated issues
    pub assignee: Option<String>,
    /// Labels for generated issues
    pub labels: Vec<String>,
    /// Day of week for weekly recurrences
    pub day_of_week: Option<String>,
    /// Day of month for monthly recurrences
    pub day_of_month: Option<u32>,
    /// Start date for the recurrence schedule
    pub start: Option<String>,
    /// End date for the recurrence schedule
    pub end: Option<String>,
}

#[derive(Debug, Clone, Default)]
pub struct TemplateArgs {
    pub subcommand: Option<TemplateSubcommand>,
}

#[derive(Debug, Clone)]
pub enum TemplateSubcommand {
    /// List available templates
    List,
    /// Show a template's contents
    Show {
        /// Template name
        name: Option<String>,
    },
    /// Create a new template
    New {
        /// Template name
        name: Option<String>,
    },
    /// Edit an existing template
    Edit {
        /// Template name
        name: Option<String>,
    },
    /// Remove a template
    Rm {
        /// Template name
        name: Option<String>,
    },
    /// Validate a template
    Validate {
        /// Template name
        name: Option<String>,
    },
}

#[derive(Debug, Clone, Default)]
pub struct RegisterArgs {
    pub scope: ScopeFlags,
    /// List registered RepoProjects
    pub list: bool,
    /// Override the auto-derived repo-project label (used to partition a shared Jira project)
    pub repo_project_label: Option<String>,
}

#[derive(Debug, Clone, Default)]
pub struct SummarizeArgs {
    /// Limit summary to a specific cycle
    pub cycle: Option<String>,
    /// Limit summary to a specific board
    pub board: Option<String>,
    /// Limit summary to a specific RepoProject
    pub project: Option<String>,
}

#[derive(Debug, Clone, Default)]
pub struct AskArgs {
    /// Natural-language question about your issues
    pub question: String,
}

#[derive(Debug, Clone, Default)]
pub struct ConfigArgs {
    pub subcommand: Option<ConfigSubcommand>,
}

#[derive(Debug, Clone)]
pub enum ConfigSubcommand {
    /// Set a configuration value
    SetValue {
        /// Configuration key
        key: String,
        /// Value to set
        value: String,
        scope: ScopeFlags,
    },
    /// Edit a configuration layer
    Edit {
        scope: ScopeFlags,
    },
}

#[derive(Debug, Clone, Default)]
pub struct ScopeFlags {
    pub system: bool,
    pub user: bool,
    pub local: bool,
}

impl ScopeFlags {
    pub open spec fn scope_spec(&self) -> Option<ConfigScope> {
        if self.system {
            Some(ConfigScope::System)
        } else if self.user {
            Some(ConfigScope::User)
        } else if self.local {
            Some(ConfigScope::Local)
        } else {
            None
        }
    }

    /// The configuration layer the flags choose: system, then user, then
    /// local, in that order of precedence; none when no flag is set.
    pub fn scope(&self) -> (r: Option<ConfigScope>)
        ensures
            r == self.scope_spec(),
    {
        if self.system {
            Some(ConfigScope::System)
        } else if self.user {
            Some(ConfigScope::User)
        } else if self.local {
            Some(ConfigScope::Local)
        } else {
            None
        }
    }
}

#[derive(Debug, Clone, Default)]
pub struct HooksArgs {
    pub subcommand: Option<HooksSubcommand>,
}

#[derive(Debug, Clone)]
pub enum HooksSubcommand {
    /// Install git hooks for auto-commit
    Install {
        /// Overwrite existing hooks
        force: bool,
    },
    /// Update installed hooks to the latest version
    Update {
        /// Overwrite even if already up to date
        force: bool,
    },
    /// Show hook installation status
    Status,
    /// Remove installed git hooks
    Uninstall {
        /// Remove without confirmation
        force: bool,
    },
}

/// Texts in ascending order, equal ones side by side.
pub open spec fn sorted(v: Seq<Seq<char>>) -> bool {
    forall|i: int, j: int| 0 <= i < j < v.len() ==> !text_less(#[trigger] v[j], #[trigger] v[i])
}

/// The names in ascending order (as `sort_unstable` orders strings): the
/// same names, each as often.
pub fn sorted_names(names: &Vec<String>) -> (r: Vec<String>)
    ensures
        sorted(string_views(r@)),
        string_views(r@).to_multiset() == string_views(names@).to_multiset(),
{
    let mut out: Vec<String> = Vec::new();
    let mut i: usize = 0;
    assert(string_views(out@) =~= string_views(names@).take(0));
    while i < names.len()
        invariant
            i <= names@.len(),
            sorted(string_views(out@)),
            string_views(out@).to_multiset() == string_views(names@).take(i as int).to_multiset(),
        decreases names@.len() - i,
    {
        let ghost before = string_views(out@);
        let x = names[i].clone();
        let mut p: usize = 0;
        while p < out.len() && !text_lt(x.as_str(), out[p].as_str())
            invariant
                p <= out@.len(),
                before == string_views(out@),
                forall|k: int| 0 <= k < p ==> !text_less(x@, #[trigger] before[k]),
            decreases out@.len() - p,
        {
            p += 1;
        }
        proof {
            assert forall|k: int| p <= k < before.len() implies text_less(x@, #[trigger] before[k]) by {
                assert(text_less(x@, before[p as int]));
                if k > p {
                    assert(!text_less(before[k], before[p as int]));
                    lemma_text_less_total(before[k], before[p as int]);
                    if before[k] != before[p as int] {
                        lemma_text_less_transitive(x@, before[p as int], before[k]);
                    }
                }
            }
        }
        out.insert(p, x);
        let ghost after = string_views(out@);
        assert(after =~= before.insert(p as int, x@));
        assert forall|a: int, b: int| 0 <= a < b < after.len() implies !text_less(
            #[trigger] after[b],
            #[trigger] after[a],
        ) by {
            if a < p && b == p {
                lemma_text_less_total(x@, before[a]);
            } else if a == p && b > p {
                lemma_text_less_total(x@, before[b - 1]);
            } else if a < p && b > p {
                assert(!text_less(before[b - 1], before[a]));
            } else if b < p {
                assert(!text_less(before[b], before[a]));
            } else {
                assert(!text_less(before[b - 1], before[a - 1]));
            }
        }
        assert(x@ == string_views(names@)[i as int]);
        assert(string_views(names@).take(i as int + 1) =~= string_views(names@).take(
            i as int,
        ).push(x@));
        proof {
            vstd::seq_lib::to_multiset_insert(before, p as int, x@);
            vstd::seq_lib::to_multiset_build(string_views(names@).take(i as int), x@);
        }
        i += 1;
    }
    assert(string_views(names@).take(names@.len() as int) =~= string_views(names@));
    out
}

/// `n` spaces.
pub open spec fn spaces(n: nat) -> Seq<char> {
    Seq::new(n, |i: int| ' ')
}

/// The pieces one after another.
pub open spec fn concat_all(pieces: Seq<Seq<char>>) -> Seq<char>
    decreases pieces.len(),
{
    if pieces.len() == 0 {
        Seq::empty()
    } else {
        concat_all(pieces.drop_last()) + pieces.last()
    }
}

/// One command's line of the root help: the name in a column `pad` wide,
/// then what it does.
pub open spec fn help_line(name: Seq<char>, about: Seq<char>, pad: nat) -> Seq<char> {
    "  "@ + name + spaces((pad - name.len()) as nat) + about + "\n"@
}

/// The characters of a help group's commands.
pub open spec fn entries_view(es: Seq<(String, String)>) -> Seq<(Seq<char>, Seq<char>)> {
    es.map_values(|e: (String, String)| (e.0@, e.1@))
}

/// A section of the root help: its heading, then one line per command.
pub open spec fn help_section(heading: Seq<char>, entries: Seq<(Seq<char>, Seq<char>)>, pad: nat) -> Seq<
    char,
> {
    heading + ":\n"@ + concat_all(
        entries.map_values(|e: (Seq<char>, Seq<char>)| help_line(e.0, e.1, pad)),
    ) + "\n"@
}

/// The characters of the help groups.
pub open spec fn groups_view(gs: Seq<(String, Vec<(String, String)>)>) -> Seq<
    (Seq<char>, Seq<(Seq<char>, Seq<char>)>),
> {
    gs.map_values(|g: (String, Vec<(String, String)>)| (g.0@, entries_view(g.1@)))
}

/// The longest command name of the groups.
pub open spec fn longest_name(gs: Seq<(Seq<char>, Seq<(Seq<char>, Seq<char>)>)>) -> nat
    decreases gs.len(),
{
    if gs.len() == 0 {
        0
    } else {
        let rest = longest_name(gs.drop_last());
        let here = longest_entry(gs.last().1);
        if here > rest {
            here
        } else {
            rest
        }
    }
}

/// The longest command name of a group.
pub open spec fn longest_entry(es: Seq<(Seq<char>, Seq<char>)>) -> nat
    decreases es.len(),
{
    if es.len() == 0 {
        0
    } else {
        let rest = longest_entry(es.drop_last());
        if es.last().0.len() > rest {
            es.last().0.len()
        } else {
            rest
        }
    }
}

/// The root help template: the about text and usage, each group's section
/// (names in a column two wider than the longest name), then the options.
pub open spec fn root_help_text(gs: Seq<(Seq<char>, Seq<(Seq<char>, Seq<char>)>)>) -> Seq<char> {
    let pad = longest_name(gs) + 2;
    "{about-with-newline}Usage: {usage}\n\n"@ + concat_all(
        gs.map_values(
            |g: (Seq<char>, Seq<(Seq<char>, Seq<char>)>)| help_section(g.0, g.1, pad as nat),
        ),
    ) + "Options:\n{options}\n"@
}

/// No name of a group is longer than its longest.
proof fn lemma_longest_entry_bound(es: Seq<(Seq<char>, Seq<char>)>, i: int)
    requires
        0 <= i < es.len(),
    ensures
        es[i].0.len() <= longest_entry(es),
    decreases es.len(),
{
    if i < es.len() - 1 {
        lemma_longest_entry_bound(es.drop_last(), i);
    }
}

/// No group's longest name is longer than the longest of all.
proof fn lemma_longest_name_bound(gs: Seq<(Seq<char>, Seq<(Seq<char>, Seq<char>)>)>, g: int)
    requires
        0 <= g < gs.len(),
    ensures
        longest_entry(gs[g].1) <= longest_name(gs),
    decreases gs.len(),
{
    if g < gs.len() - 1 {
        lemma_longest_name_bound(gs.drop_last(), g);
    }
}

/// The longest name of a group's entries.
fn longest_in(entries: &Vec<(String, String)>) -> (r: usize)
    ensures
        r == longest_entry(entries_view(entries@)),
{
    let mut best: usize = 0;
    let mut i: usize = 0;
    while i < entries.len()
        invariant
            i <= entries@.len(),
            best == longest_entry(entries_view(entries@).take(i as int)),
        decreases entries@.len() - i,
    {
        assert(entries_view(entries@).take(i as int + 1).drop_last() =~= entries_view(entries@).take(
            i as int,
        ));
        let n = entries[i].0.as_str().unicode_len();
        if n > best {
            best = n;
        }
        i += 1;
    }
    assert(entries_view(entries@).take(entries@.len() as int) =~= entries_view(entries@));
    best
}

/// The root help template of `tsk`, from its command groups: each group's
/// heading and its commands (name and what it does) in the order shown.
pub fn root_help_template(groups: &Vec<(String, Vec<(String, String)>)>) -> (r: String)
    requires
        longest_name(groups_view(groups@)) + 2 <= usize::MAX,
    ensures
        r@ == root_help_text(groups_view(groups@)),
{
    let ghost gv = groups_view(groups@);
    let mut longest: usize = 0;
    let mut g: usize = 0;
    while g < groups.len()
        invariant
            g <= groups@.len(),
            gv == groups_view(groups@),
            longest == longest_name(gv.take(g as int)),
        decreases groups@.len() - g,
    {
        assert(gv.take(g as int + 1).drop_last() =~= gv.take(g as int));
        assert(entries_view(groups@[g as int].1@) == gv[g as int].1);
        let here = longest_in(&groups[g].1);
        if here > longest {
            longest = here;
        }
        g += 1;
    }
    assert(gv.take(groups@.len() as int) =~= gv);
    let pad: usize = longest + 2;
    let ghost sections = gv.map_values(
        |x: (Seq<char>, Seq<(Seq<char>, Seq<char>)>)| help_section(x.0, x.1, pad as nat),
    );
    let mut body = String::from_str("{about-with-newline}Usage: {usage}\n\n");
    let ghost head = body@;
    let mut k: usize = 0;
    while k < groups.len()
        invariant
            k <= groups@.len(),
            gv == groups_view(groups@),
            sections == gv.map_values(
                |x: (Seq<char>, Seq<(Seq<char>, Seq<char>)>)| help_section(x.0, x.1, pad as nat),
            ),
            pad as nat == longest_name(gv) + 2,
            body@ == head + concat_all(sections.take(k as int)),
        decreases groups@.len() - k,
    {
        assert(sections.take(k as int + 1).drop_last() =~= sections.take(k as int));
        proof {
            lemma_longest_name_bound(gv, k as int);
            assert(entries_view(groups@[k as int].1@) == gv[k as int].1);
            assert forall|i: int| 0 <= i < groups@[k as int].1@.len() implies #[trigger] groups@[k as int].1@[i].0@.len() <= pad by {
                lemma_longest_entry_bound(gv[k as int].1, i);
                assert(gv[k as int].1[i].0 == groups@[k as int].1@[i].0@);
            }
        }
        let section = help_section_text(&groups[k].0, &groups[k].1, pad);
        body.append(section.as_str());
        assert(sections[k as int] == section@);
        assert(body@ =~= head + concat_all(sections.take(k as int + 1)));
        k += 1;
    }
    assert(sections.take(groups@.len() as int) =~= sections);
    body.append("Options:\n{options}\n");
    body
}

/// One section of the root help.
fn help_section_text(heading: &String, entries: &Vec<(String, String)>, pad: usize) -> (r: String)
    requires
        forall|i: int| 0 <= i < entries@.len() ==> #[trigger] entries@[i].0@.len() <= pad,
    ensures
        r@ == help_section(heading@, entries_view(entries@), pad as nat),
{
    let ghost ev = entries_view(entries@);
    let ghost lines = ev.map_values(|e: (Seq<char>, Seq<char>)| help_line(e.0, e.1, pad as nat));
    let mut r = heading.clone();
    r.append(":\n");
    let ghost head = r@;
    let mut i: usize = 0;
    while i < entries.len()
        invariant
            i <= entries@.len(),
            ev == entries_view(entries@),
            lines == ev.map_values(|e: (Seq<char>, Seq<char>)| help_line(e.0, e.1, pad as nat)),
            forall|j: int| 0 <= j < entries@.len() ==> #[trigger] entries@[j].0@.len() <= pad,
            r@ == head + concat_all(lines.take(i as int)),
        decreases entries@.len() - i,
    {
        assert(lines.take(i as int + 1).drop_last() =~= lines.take(i as int));
        let name = entries[i].0.as_str();
        r.append("  ");
        r.append(name);
        let n = name.unicode_len();
        let mut s: usize = n;
        let ghost before_spaces = r@;
        while s < pad
            invariant
                n <= s <= pad,
                r@ == before_spaces + spaces((s - n) as nat),
            decreases pad - s,
        {
            r.append(" ");
            proof {
                reveal_strlit(" ");
            }
            assert(spaces((s + 1 - n) as nat) =~= spaces((s - n) as nat).push(' '));
            s += 1;
        }
        assert(entries@[i as int].0@.len() <= pad);
        r.append(entries[i].1.as_str());
        r.append("\n");
        assert(lines[i as int] == help_line(ev[i as int].0, ev[i as int].1, pad as nat));
        assert(r@ =~= head + concat_all(lines.take(i as int + 1)));
        i += 1;
    }
    assert(lines.take(entries@.len() as int) =~= lines);
    r.append("\n");
    r
}

} // verus!
