//! `tsk init`: what each configuration layer holds, and whether a layer may
//! be initialized.

use crate::cli::ConfigScope;
use crate::domain::{BoardConfig, RepoProject};
use crate::error::RiptskError;
use crate::text::{concat2, concat3, join, opt_view, str_eq, trim, trim_str};
use vstd::prelude::*;

verus! {

/// The `defaults:` section of a layer.
#[derive(Debug, Clone, Default)]
pub struct PartialDefaults {
    pub board: Option<String>,
    pub status: Option<String>,
    pub priority: Option<String>,
}

/// The `ui:` section of a layer.
#[derive(Debug, Clone, Default)]
pub struct PartialUi {
    pub color: Option<bool>,
}

/// The `ai:` section of a layer.
#[derive(Debug, Clone, Default)]
pub struct PartialAi {
    pub enabled: Option<bool>,
    pub command: Option<String>,
}

/// The `sync:` section of a layer.
#[derive(Debug, Clone, Default)]
pub struct PartialSync {
    pub auto_sync: Option<bool>,
}

/// One configuration layer as read from its file: every section optional.
#[derive(Debug, Clone, Default)]
pub struct PartialConfig {
    pub defaults: Option<PartialDefaults>,
    pub boards: Vec<BoardConfig>,
    pub ui: Option<PartialUi>,
    pub ai: Option<PartialAi>,
    pub sync: Option<PartialSync>,
    pub auto_commit: Option<bool>,
    pub projects: Vec<RepoProject>,
    /// Ids of the recurring issue definitions of the layer.
    pub recurring: Vec<String>,
}

/// What a configuration layer holds.
#[derive(Debug, Clone)]
pub enum LayerStatus {
    /// No file.
    Missing,
    /// A file without settings.
    Empty,
    /// Some of the five sections, named in order.
    Partial { sections: Vec<&'static str> },
    /// All five sections.
    Complete,
    /// A file that cannot be read; why.
    Invalid { error: String },
    /// A local layer outside any project.
    NoProjectRoot,
}

/// The sections a layer sets, in the order defaults, boards, ui, ai, sync.
pub open spec fn present_sections(p: PartialConfig) -> Seq<Seq<char>> {
    (if p.defaults is Some {
        seq!["defaults"@]
    } else {
        Seq::empty()
    }) + (if p.boards@.len() > 0 {
        seq!["boards"@]
    } else {
        Seq::empty()
    }) + (if p.ui is Some {
        seq!["ui"@]
    } else {
        Seq::empty()
    }) + (if p.ai is Some {
        seq!["ai"@]
    } else {
        Seq::empty()
    }) + (if p.sync is Some {
        seq!["sync"@]
    } else {
        Seq::empty()
    })
}

/// The names of a `Partial` status's sections.
pub open spec fn section_names(sections: Seq<&'static str>) -> Seq<Seq<char>> {
    sections.map_values(|s: &'static str| s@)
}

/// Classify a layer: empty when it sets nothing at all (no section, no
/// auto-commit, no project, no recurring definition), complete when it
/// has all five sections, else partial with the sections it has.
pub fn classify_partial(partial: PartialConfig) -> (r: LayerStatus)
    ensures
        present_sections(partial).len() == 0 && partial.auto_commit.is_none()
            && partial.projects@.len() == 0 && partial.recurring@.len() == 0 ==> r is Empty,
        !(present_sections(partial).len() == 0 && partial.auto_commit.is_none()
            && partial.projects@.len() == 0 && partial.recurring@.len() == 0)
            && present_sections(partial).len() == 5 ==> r is Complete,
        !(present_sections(partial).len() == 0 && partial.auto_commit.is_none()
            && partial.projects@.len() == 0 && partial.recurring@.len() == 0)
            && present_sections(partial).len() != 5 ==> (r matches LayerStatus::Partial { sections }
            && section_names(sections@) == present_sections(partial)),
{
    let mut sections: Vec<&'static str> = Vec::new();
    let ghost expected = present_sections(partial);
    if partial.defaults.is_some() {
        sections.push("defaults");
    }
    if partial.boards.len() > 0 {
        sections.push("boards");
    }
    if partial.ui.is_some() {
        sections.push("ui");
    }
    if partial.ai.is_some() {
        sections.push("ai");
    }
    if partial.sync.is_some() {
        sections.push("sync");
    }
    assert(section_names(sections@) =~= expected);
    if sections.len() == 0 && partial.auto_commit.is_none() && partial.projects.len() == 0
        && partial.recurring.len() == 0 {
        LayerStatus::Empty
    } else if sections.len() == 5 {
        LayerStatus::Complete
    } else {
        LayerStatus::Partial { sections }
    }
}

impl ConfigScope {
    pub open spec fn spec_label(&self) -> Seq<char> {
        match self {
            ConfigScope::System => "system"@,
            ConfigScope::User => "user"@,
            ConfigScope::Local => "local"@,
        }
    }

    /// The layer's name, as the flags and prompts write it.
    pub fn label(&self) -> (r: &'static str)
        ensures
            r@ == self.spec_label(),
    {
        match self {
            ConfigScope::System => "system",
            ConfigScope::User => "user",
            ConfigScope::Local => "local",
        }
    }
}

impl LayerStatus {
    /// The status as the inventory shows it; a partial layer lists its
    /// sections.
    pub open spec fn spec_label(&self) -> Seq<char> {
        match self {
            LayerStatus::Missing => "Missing"@,
            LayerStatus::Empty => "Empty"@,
            LayerStatus::Partial { sections } => if sections@.len() == 0 {
                "Partial"@
            } else {
                "Partial("@ + join(section_names(sections@), ","@) + ")"@
            },
            LayerStatus::Complete => "Complete"@,
            LayerStatus::Invalid { .. } => "Invalid"@,
            LayerStatus::NoProjectRoot => "NoProjectRoot"@,
        }
    }

    /// The status's label.
    pub fn label(&self) -> (r: String)
        ensures
            r@ == self.spec_label(),
    {
        match self {
            LayerStatus::Missing => String::from_str("Missing"),
            LayerStatus::Empty => String::from_str("Empty"),
            LayerStatus::Partial { sections } => {
                if sections.len() == 0 {
                    String::from_str("Partial")
                } else {
                    let mut r = String::from_str("Partial(");
                    let mut i: usize = 0;
                    assert(section_names(sections@).take(0) =~= Seq::<Seq<char>>::empty());
                    while i < sections.len()
                        invariant
                            i <= sections@.len(),
                            r@ == "Partial("@ + join(
                                section_names(sections@).take(i as int),
                                ","@,
                            ),
                        decreases sections@.len() - i,
                    {
                        let ghost next = section_names(sections@).take(i as int + 1);
                        assert(next.drop_last() =~= section_names(sections@).take(i as int));
                        assert(next.last() == sections@[i as int]@);
                        let ghost before = r@;
                        if i > 0 {
                            r.append(",");
                        }
                        r.append(sections[i]);
                        i += 1;
                        assert(r@ =~= "Partial("@ + join(next, ","@));
                    }
                    assert(section_names(sections@).take(sections@.len() as int) =~= section_names(
                        sections@,
                    ));
                    r.append(")");
                    r
                }
            },
            LayerStatus::Complete => String::from_str("Complete"),
            LayerStatus::Invalid { .. } => String::from_str("Invalid"),
            LayerStatus::NoProjectRoot => String::from_str("NoProjectRoot"),
        }
    }
}

/// One probed layer: which, where, and what it holds.
#[derive(Debug, Clone)]
pub struct LayerProbe {
    pub scope: ConfigScope,
    pub path: Option<String>,
    pub status: LayerStatus,
}

/// The three layers, probed.
#[derive(Debug, Clone)]
pub struct LayerInventory {
    pub system: LayerProbe,
    pub user: LayerProbe,
    pub local: LayerProbe,
}

impl LayerInventory {
    pub open spec fn spec_probe(&self, scope: ConfigScope) -> LayerProbe {
        match scope {
            ConfigScope::System => self.system,
            ConfigScope::User => self.user,
            ConfigScope::Local => self.local,
        }
    }

    /// The probe of one layer.
    pub fn probe(&self, scope: ConfigScope) -> (r: &LayerProbe)
        ensures
            *r == self.spec_probe(scope),
    {
        match scope {
            ConfigScope::System => &self.system,
            ConfigScope::User => &self.user,
            ConfigScope::Local => &self.local,
        }
    }
}

/// A layer's path as shown, or `(no path)`.
pub open spec fn shown_path(path: Option<String>) -> Seq<char> {
    match path {
        Some(p) => p@,
        None => "(no path)"@,
    }
}

/// The note printed for another layer that is complete too.
pub open spec fn other_complete_note(scope: ConfigScope, path: Seq<char>) -> Seq<char> {
    "note: a complete config also exists at "@ + scope.spec_label() + " ("@ + path
        + "). Both layers will be merged on load; higher precedence wins for overlapping keys. precedence (low to high): system < user < local."@
}

/// Whether a layer may be initialized, and the notes to print first: an
/// invalid chosen layer is a `Config` error, a complete one a `General`
/// error unless forced; otherwise every other complete layer with a path
/// gets a note, in the order system, user, local.
pub fn init_preflight(inventory: &LayerInventory, scope: ConfigScope, force: bool) -> (r: Result<
    Vec<String>,
    RiptskError,
>)
    ensures
        inventory.spec_probe(scope).status matches LayerStatus::Invalid { error } ==> (r matches Err(
            RiptskError::Config(m),
        ) && m@ == scope.spec_label() + " config at "@ + shown_path(
            inventory.spec_probe(scope).path,
        ) + " is invalid: "@ + error@ + ". Fix or remove it before initializing."@),
        inventory.spec_probe(scope).status is Complete && !force ==> (r matches Err(
            RiptskError::General(m),
        ) && m@ == scope.spec_label() + " config is already complete at "@ + shown_path(
            inventory.spec_probe(scope).path,
        ) + ". Use --force to overwrite."@),
        !(inventory.spec_probe(scope).status is Invalid) && !(inventory.spec_probe(scope).status is Complete
            && !force) ==> (r matches Ok(notes) && notes@.map_values(|n: String| n@) == (if inventory.system.scope
            != scope && inventory.system.status is Complete
            && inventory.system.path is Some {
            seq![other_complete_note(inventory.system.scope, opt_view(inventory.system.path)->0)]
        } else {
            Seq::empty()
        }) + (if inventory.user.scope != scope && inventory.user.status is Complete
            && inventory.user.path is Some {
            seq![other_complete_note(inventory.user.scope, opt_view(inventory.user.path)->0)]
        } else {
            Seq::empty()
        }) + (if inventory.local.scope != scope && inventory.local.status is Complete
            && inventory.local.path is Some {
            seq![other_complete_note(inventory.local.scope, opt_view(inventory.local.path)->0)]
        } else {
            Seq::empty()
        })),
{
    let chosen = inventory.probe(scope);
    let path_text = match &chosen.path {
        Some(p) => p.clone(),
        None => String::from_str("(no path)"),
    };
    match &chosen.status {
        LayerStatus::Invalid { error } => {
            let mut m = concat3(scope.label(), " config at ", path_text.as_str());
            m.append(" is invalid: ");
            m.append(error.as_str());
            m.append(". Fix or remove it before initializing.");
            return Err(RiptskError::Config(m));
        },
        LayerStatus::Complete => {
            if !force {
                let mut m = concat3(
                    scope.label(),
                    " config is already complete at ",
                    path_text.as_str(),
                );
                m.append(". Use --force to overwrite.");
                return Err(RiptskError::General(m));
            }
        },
        _ => {},
    }
    let mut notes: Vec<String> = Vec::new();
    let ghost empty = notes@.map_values(|n: String| n@);
    assert(empty =~= Seq::<Seq<char>>::empty());
    note_if_complete(&mut notes, &inventory.system, scope);
    note_if_complete(&mut notes, &inventory.user, scope);
    note_if_complete(&mut notes, &inventory.local, scope);
    assert(forall|a: Seq<Seq<char>>, b: Seq<Seq<char>>, c: Seq<Seq<char>>|
        Seq::<Seq<char>>::empty() + a + b + c =~= a + b + c);
    Ok(notes)
}

fn note_if_complete(notes: &mut Vec<String>, probe: &LayerProbe, scope: ConfigScope)
    ensures
        final(notes)@.map_values(|n: String| n@) == old(notes)@.map_values(|n: String| n@) + (
        if probe.scope != scope && probe.status is Complete && probe.path is Some {
            seq![other_complete_note(probe.scope, opt_view(probe.path)->0)]
        } else {
            Seq::empty()
        }),
{
    let ghost before = notes@.map_values(|n: String| n@);
    if probe.scope != scope {
        match (&probe.status, &probe.path) {
            (LayerStatus::Complete, Some(path)) => {
                let mut m = concat3(
                    "note: a complete config also exists at ",
                    probe.scope.label(),
                    " (",
                );
                m.append(path.as_str());
                m.append(
                    "). Both layers will be merged on load; higher precedence wins for overlapping keys. precedence (low to high): system < user < local.",
                );
                let ghost mv = m@;
                notes.push(m);
                assert(notes@.map_values(|n: String| n@) =~= before.push(mv));
                return ;
            },
            _ => {},
        }
    }
    assert(notes@.map_values(|n: String| n@) =~= before + Seq::<Seq<char>>::empty());
}

/// The error of a failed `git init`: its trimmed standard error, if any.
pub fn git_init_failure_message(stderr: &str) -> (r: String)
    ensures
        r@ == if trim(stderr@).len() == 0 {
            "git init failed"@
        } else {
            "git init failed: "@ + trim(stderr@)
        },
{
    let trimmed = trim_str(stderr);
    if trimmed.unicode_len() == 0 {
        String::from_str("git init failed")
    } else {
        concat2("git init failed: ", trimmed.as_str())
    }
}

/// The layer picked in the interactive prompt; `abort` (or anything else)
/// picks none.
pub fn scope_from_choice(choice: &str) -> (r: Option<ConfigScope>)
    ensures
        r == if choice@ == "system"@ {
            Some(ConfigScope::System)
        } else if choice@ == "user"@ {
            Some(ConfigScope::User)
        } else if choice@ == "local"@ {
            Some(ConfigScope::Local)
        } else {
            None
        },
{
    if str_eq(choice, "system") {
        Some(ConfigScope::System)
    } else if str_eq(choice, "user") {
        Some(ConfigScope::User)
    } else if str_eq(choice, "local") {
        Some(ConfigScope::Local)
    } else {
        None
    }
}

} // verus!
