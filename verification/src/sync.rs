//! `tsk sync`, `tsk session` and `tsk store`: which projects a sync
//! targets, what a sync does in which order, how remembered remote keys are
//! read, and the checks before a session or a conflict resolution.

use crate::cli::{
    ResolveArgs, SessionArgs, SessionStartArgs, SessionSubcommand, StoreArgs, StoreCommitArgs,
    StoreSubcommand, SyncArgs, SyncPullPushArgs, SyncSubcommand, HooksArgs,
};
use crate::domain::{BackendKind, Config, RepoProject};
use crate::error::RiptskError;
use crate::issues::{provider_name, provider_name_of};
use crate::pull_request::find_project;
use crate::text::{
    after_first, after_last, chars_of, concat2, concat3, opt_view, parse_u64, str_eq,
    string_of_range, string_views,
};
use vstd::prelude::*;

verus! {

/// A tracker that syncs: GitHub, GitLab or Jira.
pub open spec fn hosted_kind(kind: BackendKind) -> bool {
    kind == BackendKind::Github || kind == BackendKind::Gitlab || kind == BackendKind::Jira
}

/// The projects whose tracker syncs, in order.
pub open spec fn hosted_of(projects: Seq<RepoProject>) -> Seq<RepoProject>
    decreases projects.len(),
{
    if projects.len() == 0 {
        Seq::empty()
    } else {
        let before = hosted_of(projects.drop_last());
        if hosted_kind(projects.last().tasks_backend.kind) {
            before.push(projects.last())
        } else {
            before
        }
    }
}

/// The projects whose tracker syncs, named `name`, in order.
pub open spec fn hosted_named(projects: Seq<RepoProject>, name: Seq<char>) -> Seq<RepoProject>
    decreases projects.len(),
{
    if projects.len() == 0 {
        Seq::empty()
    } else {
        let before = hosted_named(projects.drop_last(), name);
        if hosted_kind(projects.last().tasks_backend.kind) && projects.last().name@ == name {
            before.push(projects.last())
        } else {
            before
        }
    }
}

/// References seen as the values they point to.
pub open spec fn derefs(v: Seq<&RepoProject>) -> Seq<RepoProject> {
    v.map_values(|p: &RepoProject| *p)
}

/// The projects of the configuration whose tracker syncs, optionally only
/// those named `name`.
pub fn hosted_projects_named<'a>(config: &'a Config, name: Option<&str>) -> (r: Vec<
    &'a RepoProject,
>)
    ensures
        derefs(r@) == match name {
            Some(n) => hosted_named(config.projects@, n@),
            None => hosted_of(config.projects@),
        },
{
    let mut r: Vec<&'a RepoProject> = Vec::new();
    let mut i: usize = 0;
    let ghost want = |ps: Seq<RepoProject>|
        match name {
            Some(n) => hosted_named(ps, n@),
            None => hosted_of(ps),
        };
    assert(config.projects@.take(0) =~= Seq::<RepoProject>::empty());
    assert(derefs(r@) =~= Seq::<RepoProject>::empty());
    while i < config.projects.len()
        invariant
            i <= config.projects@.len(),
            derefs(r@) == match name {
                Some(n) => hosted_named(config.projects@.take(i as int), n@),
                None => hosted_of(config.projects@.take(i as int)),
            },
        decreases config.projects@.len() - i,
    {
        let p = &config.projects[i];
        assert(config.projects@.take(i + 1).drop_last() =~= config.projects@.take(i as int));
        assert(config.projects@.take(i + 1).last() == *p);
        let ghost before = r@;
        let hosted = match p.tasks_backend.kind {
            BackendKind::Github | BackendKind::Gitlab | BackendKind::Jira => true,
            BackendKind::Local => false,
        };
        let named = match name {
            Some(n) => str_eq(p.name.as_str(), n),
            None => true,
        };
        if hosted && named {
            r.push(p);
            assert(derefs(r@) =~= derefs(before).push(*p));
        }
        i += 1;
    }
    assert(config.projects@.take(config.projects@.len() as int) =~= config.projects@);
    r
}

/// The projects of a sync with explicit `-p` names: each name must be a
/// registered project (else `Unregistered`, for the first that is not) with
/// a syncing tracker (else `Config`); stops at the first failing name.
pub open spec fn named_sync_targets(projects: Seq<RepoProject>, names: Seq<Seq<char>>) -> Result<
    Seq<RepoProject>,
    (int, Seq<char>),
>
    decreases names.len(),
{
    if names.len() == 0 {
        Ok(Seq::empty())
    } else {
        match named_sync_targets(projects, names.drop_last()) {
            Err(e) => Err(e),
            Ok(found) => {
                let name = names.last();
                if exists|i: int| 0 <= i < projects.len() && #[trigger] projects[i].name@ == name {
                    let i = choose|i: int|
                        0 <= i < projects.len() && #[trigger] projects[i].name@ == name && forall|
                            k: int,
                        |
                            0 <= k < i ==> projects[k].name@ != name;
                    if hosted_kind(projects[i].tasks_backend.kind) {
                        Ok(found.push(projects[i]))
                    } else {
                        Err((1, "sync target must be github, gitlab, or jira: "@ + projects[i].name@))
                    }
                } else {
                    Err((6, name))
                }
            },
        }
    }
}

/// An error as its kind (numbered in declaration order) and message.
pub open spec fn error_view(e: RiptskError) -> (int, Seq<char>) {
    match e {
        RiptskError::General(m) => (0, m@),
        RiptskError::Config(m) => (1, m@),
        RiptskError::Auth(m) => (2, m@),
        RiptskError::Unreachable(m) => (3, m@),
        RiptskError::NotFound(m) => (4, m@),
        RiptskError::Conflict(m) => (5, m@),
        RiptskError::Unregistered(m) => (6, m@),
        RiptskError::Io(m) => (7, m@),
        RiptskError::Other(m) => (8, m@),
    }
}

/// The projects a sync targets when the arguments name them: by backend
/// name (the syncing projects of that name), all syncing projects, or the
/// `-p` projects; `None` when the project must be detected from the
/// working directory.
pub fn resolve_sync_projects<'a>(args: &SyncArgs, config: &'a Config) -> (r: Result<
    Option<Vec<&'a RepoProject>>,
    RiptskError,
>)
    ensures
        args.backend is Some ==> (r matches Ok(Some(v)) && derefs(v@) == hosted_named(
            config.projects@,
            opt_view(args.backend)->0,
        )),
        args.backend is None && args.scope.all_projects ==> (r matches Ok(Some(v)) && derefs(v@)
            == hosted_of(config.projects@)),
        args.backend is None && !args.scope.all_projects && args.scope.projects@.len() > 0 ==> (
        match named_sync_targets(config.projects@, string_views(args.scope.projects@)) {
            Ok(found) => r matches Ok(Some(v)) && derefs(v@) == found,
            Err(e) => r matches Err(e2) && error_view(e2) == e,
        }),
        args.backend is None && !args.scope.all_projects && args.scope.projects@.len() == 0 ==> r
            matches Ok(None),
{
    match &args.backend {
        Some(name) => {
            return Ok(Some(hosted_projects_named(config, Some(name.as_str()))));
        },
        None => {},
    }
    if args.scope.all_projects {
        return Ok(Some(hosted_projects_named(config, None)));
    }
    if args.scope.projects.len() == 0 {
        return Ok(None);
    }
    let names = &args.scope.projects;
    let mut found: Vec<&'a RepoProject> = Vec::new();
    let mut i: usize = 0;
    assert(string_views(names@).take(0) =~= Seq::<Seq<char>>::empty());
    assert(derefs(found@) =~= Seq::<RepoProject>::empty());
    while i < names.len()
        invariant
            args.backend is None,
            !args.scope.all_projects,
            names@ == args.scope.projects@,
            i <= names@.len(),
            named_sync_targets(config.projects@, string_views(names@).take(i as int)) matches Ok(
                f,
            ) && derefs(found@) == f,
        decreases names@.len() - i,
    {
        let ghost prefix = string_views(names@).take(i as int + 1);
        assert(prefix.drop_last() =~= string_views(names@).take(i as int));
        assert(prefix.last() == names@[i as int]@);
        let ghost before = found@;
        let name = names[i].as_str();
        match find_project(config, name) {
            None => {
                let ghost projects = config.projects@;
                assert(!exists|j: int|
                    0 <= j < projects.len() && #[trigger] projects[j].name@ == name@);
                assert(named_sync_targets(config.projects@, prefix) == Err::<
                    Seq<RepoProject>,
                    (int, Seq<char>),
                >((6, name@)));
                proof {
                    lemma_named_targets_stop(config.projects@, string_views(names@), i as int + 1);
                }
                return Err(RiptskError::Unregistered(names[i].clone()));
            },
            Some(j) => {
                let p = &config.projects[j];
                let ghost projects = config.projects@;
                let ghost chosen = choose|k: int|
                    0 <= k < projects.len() && #[trigger] projects[k].name@ == name@ && forall|
                        m: int,
                    |
                        0 <= m < k ==> projects[m].name@ != name@;
                assert(0 <= j < projects.len() && projects[j as int].name@ == name@ && forall|
                    m: int,
                |
                    0 <= m < j ==> projects[m].name@ != name@);
                assert(chosen == j) by {
                    if chosen < j {
                        assert(projects[chosen].name@ != name@);
                    } else if chosen > j {
                        assert(projects[j as int].name@ != name@);
                    }
                }
                match p.tasks_backend.kind {
                    BackendKind::Github | BackendKind::Gitlab | BackendKind::Jira => {
                        found.push(p);
                        assert(derefs(found@) =~= derefs(before).push(*p));
                    },
                    BackendKind::Local => {
                        proof {
                            lemma_named_targets_stop(
                                config.projects@,
                                string_views(names@),
                                i as int + 1,
                            );
                        }
                        return Err(
                            RiptskError::Config(
                                concat2(
                                    "sync target must be github, gitlab, or jira: ",
                                    p.name.as_str(),
                                ),
                            ),
                        );
                    },
                }
            },
        }
        i += 1;
    }
    assert(string_views(names@).take(names@.len() as int) =~= string_views(names@));
    Ok(Some(found))
}

proof fn lemma_named_targets_stop(projects: Seq<RepoProject>, names: Seq<Seq<char>>, k: int)
    requires
        0 <= k <= names.len(),
        named_sync_targets(projects, names.take(k)) is Err,
    ensures
        named_sync_targets(projects, names) == named_sync_targets(projects, names.take(k)),
    decreases names.len() - k,
{
    if k < names.len() {
        assert(names.take(k + 1).drop_last() =~= names.take(k));
        lemma_named_targets_stop(projects, names, k + 1);
    } else {
        assert(names.take(k) =~= names);
    }
}

/// The project detected from the working directory, which must be a
/// registered project with a syncing tracker.
pub fn detected_sync_project<'a>(config: &'a Config, detected: Option<&str>) -> (r: Result<
    &'a RepoProject,
    RiptskError,
>)
    ensures
        match r {
            Ok(p) => detected matches Some(n) && p.name@ == n@ && hosted_kind(p.tasks_backend.kind)
                && *p == hosted_named(config.projects@, n@)[0],
            Err(e) => e matches RiptskError::Config(m) && m@
                == "could not detect project from current directory; use -p <project>, --backend <name>, or -a to target all projects"@,
        },
{
    match detected {
        Some(name) => {
            let candidates = hosted_projects_named(config, Some(name));
            if candidates.len() > 0 {
                let p = candidates[0];
                proof {
                    lemma_hosted_named_members(config.projects@, name@);
                    assert(derefs(candidates@)[0] == *p);
                    assert(hosted_named(config.projects@, name@)[0] == *p);
                    assert(hosted_named(config.projects@, name@)[0].name@ == name@);
                }
                return Ok(p);
            }
        },
        None => {},
    }
    Err(
        RiptskError::Config(
            String::from_str(
                "could not detect project from current directory; use -p <project>, --backend <name>, or -a to target all projects",
            ),
        ),
    )
}

proof fn lemma_hosted_named_members(projects: Seq<RepoProject>, name: Seq<char>)
    ensures
        forall|k: int|
            0 <= k < hosted_named(projects, name).len() ==> #[trigger] hosted_named(
                projects,
                name,
            )[k].name@ == name && hosted_kind(hosted_named(projects, name)[k].tasks_backend.kind),
    decreases projects.len(),
{
    if projects.len() > 0 {
        lemma_hosted_named_members(projects.drop_last(), name);
    }
}

/// One step of a sync.
#[derive(Debug, Clone)]
pub enum SyncStep {
    Pull(SyncPullPushArgs),
    Push(SyncPullPushArgs),
    Status,
    Resolve(ResolveArgs),
}

/// What `tsk sync` does: its subcommand, or a pull of everything followed
/// by a push of everything.
pub fn sync_plan(args: &SyncArgs) -> (r: Vec<SyncStep>)
    ensures
        match args.subcommand {
            Some(SyncSubcommand::Pull(a)) => r@.len() == 1 && (r@[0] matches SyncStep::Pull(b)
                && string_views(b.ids@) == string_views(a.ids@)),
            Some(SyncSubcommand::Push(a)) => r@.len() == 1 && (r@[0] matches SyncStep::Push(b)
                && string_views(b.ids@) == string_views(a.ids@)),
            Some(SyncSubcommand::Status) => r@.len() == 1 && r@[0] is Status,
            Some(SyncSubcommand::Resolve(a)) => r@.len() == 1 && (r@[0] matches SyncStep::Resolve(
                b,
            ) && b.id@ == a.id@ && b.take_remote == a.take_remote && b.take_local == a.take_local),
            None => r@.len() == 2 && (r@[0] matches SyncStep::Pull(p) && p.ids@.len() == 0) && (
            r@[1] matches SyncStep::Push(q) && q.ids@.len() == 0),
        },
{
    match &args.subcommand {
        Some(SyncSubcommand::Pull(a)) => vec![
            SyncStep::Pull(SyncPullPushArgs { ids: crate::text::clone_strings(&a.ids) }),
        ],
        Some(SyncSubcommand::Push(a)) => vec![
            SyncStep::Push(SyncPullPushArgs { ids: crate::text::clone_strings(&a.ids) }),
        ],
        Some(SyncSubcommand::Status) => vec![SyncStep::Status],
        Some(SyncSubcommand::Resolve(a)) => vec![
            SyncStep::Resolve(
                ResolveArgs {
                    id: a.id.clone(),
                    take_remote: a.take_remote,
                    take_local: a.take_local,
                },
            ),
        ],
        None => vec![
            SyncStep::Pull(SyncPullPushArgs { ids: Vec::new() }),
            SyncStep::Push(SyncPullPushArgs { ids: Vec::new() }),
        ],
    }
}

/// A remembered remote key `provider:repo:number` read back: the provider
/// before the first `:`, the number after the last, the repository (which
/// may hold `:`) between.
pub open spec fn backend_state_key_parts(key: Seq<char>) -> Option<(Seq<char>, Seq<char>, u64)> {
    match after_first(key, ':') {
        None => None,
        Some(rest) => {
            let provider = crate::text::before_first(key, ':');
            let number_text = after_last(rest, ':');
            if number_text.len() == rest.len() {
                None
            } else {
                match parse_u64(number_text) {
                    Some(n) => Some(
                        (provider, rest.take(rest.len() - number_text.len() - 1), n),
                    ),
                    None => None,
                }
            }
        },
    }
}

/// Read a remembered remote key.
pub fn parse_backend_state_key(key: &str) -> (r: Option<(String, String, u64)>)
    ensures
        match r {
            Some((p, repo, n)) => backend_state_key_parts(key@) == Some((p@, repo@, n)),
            None => backend_state_key_parts(key@).is_none(),
        },
{
    let v = chars_of(key);
    let i = crate::text::first_index_of(&v, ':');
    if i == v.len() {
        return None;
    }
    let provider = string_of_range(&v, 0, i);
    let rest = string_of_range(&v, i + 1, v.len());
    assert(rest@ =~= v@.skip(i + 1));
    let rv = chars_of(rest.as_str());
    let number_text = crate::text::after_last_char(rest.as_str(), ':');
    let nlen = number_text.unicode_len();
    if nlen == rv.len() {
        return None;
    }
    proof {
        crate::text::lemma_after_last_len(rv@, ':');
    }
    match crate::text::str_parse_u64(number_text.as_str()) {
        Some(n) => {
            let repo = string_of_range(&rv, 0, rv.len() - nlen - 1);
            assert(repo@ =~= rv@.take(rv@.len() - nlen - 1));
            Some((provider, repo, n))
        },
        None => None,
    }
}

/// The remote key a project's tracker files its issues under: the
/// repository on GitHub and GitLab, the project on Jira.
pub open spec fn sync_repo_of(p: RepoProject) -> Option<Seq<char>> {
    match p.tasks_backend.kind {
        BackendKind::Github | BackendKind::Gitlab => opt_view(p.tasks_backend.repo),
        BackendKind::Jira => opt_view(p.tasks_backend.jira_project),
        BackendKind::Local => None,
    }
}

/// The repository (or Jira project) a project syncs with.
pub fn sync_repo(repo_project: &RepoProject) -> (r: Option<String>)
    ensures
        opt_view(r) == sync_repo_of(*repo_project),
{
    match repo_project.tasks_backend.kind {
        BackendKind::Github | BackendKind::Gitlab => crate::text::clone_opt_string(
            &repo_project.tasks_backend.repo,
        ),
        BackendKind::Jira => crate::text::clone_opt_string(&repo_project.tasks_backend.jira_project),
        BackendKind::Local => None,
    }
}

/// A deleted issue's key belongs to one of the projects: it parses, and
/// its provider and repository are those of one of them.
pub open spec fn key_in_scope(key: Seq<char>, projects: Seq<&RepoProject>) -> bool {
    match backend_state_key_parts(key) {
        None => false,
        Some((provider, repo, _)) => exists|i: int|
            0 <= i < projects.len() && provider_name_of(projects[i].tasks_backend.kind) == provider
                && #[trigger] sync_repo_of(*projects[i]) == Some(repo),
    }
}

/// Whether a deleted issue's key belongs to the projects being synced.
pub fn deleted_key_matches_project_scope(key: &str, repo_projects: &[&RepoProject]) -> (r: bool)
    ensures
        r == key_in_scope(key@, repo_projects@),
{
    match parse_backend_state_key(key) {
        None => false,
        Some((provider, repo, _)) => {
            let mut i: usize = 0;
            while i < repo_projects.len()
                invariant
                    backend_state_key_parts(key@) matches Some((pv, rv, _)) && pv == provider@
                        && rv == repo@,
                    i <= repo_projects@.len(),
                    forall|k: int|
                        0 <= k < i ==> !(provider_name_of(repo_projects@[k].tasks_backend.kind)
                            == provider@ && #[trigger] sync_repo_of(*repo_projects@[k]) == Some(
                            repo@,
                        )),
                decreases repo_projects@.len() - i,
            {
                let p = repo_projects[i];
                let same_provider = str_eq(provider_name(p), provider.as_str());
                let same_repo = match sync_repo(p) {
                    Some(r) => str_eq(r.as_str(), repo.as_str()),
                    None => false,
                };
                if same_provider && same_repo {
                    assert(sync_repo_of(*repo_projects@[i as int]) == Some(repo@));
                    return true;
                }
                i += 1;
            }
            false
        },
    }
}

/// How a sync conflict is resolved.
#[derive(Debug, Clone, Copy, PartialEq, Eq, Structural)]
pub enum ResolveMode {
    /// Keep the remote version.
    TakeRemote,
    /// Keep the local version.
    TakeLocal,
    /// The file was edited by hand; check and accept it.
    Edited,
}

/// The way to resolve a conflict; asking for both sides is an error.
pub fn resolve_mode(args: &ResolveArgs) -> (r: Result<ResolveMode, RiptskError>)
    ensures
        args.take_remote && args.take_local ==> (r matches Err(RiptskError::General(m)) && m@
            == "cannot specify both --take-remote and --take-local"@),
        args.take_remote && !args.take_local ==> r == Ok::<ResolveMode, RiptskError>(
            ResolveMode::TakeRemote,
        ),
        !args.take_remote && args.take_local ==> r == Ok::<ResolveMode, RiptskError>(
            ResolveMode::TakeLocal,
        ),
        !args.take_remote && !args.take_local ==> r == Ok::<ResolveMode, RiptskError>(
            ResolveMode::Edited,
        ),
{
    if args.take_remote && args.take_local {
        Err(
            RiptskError::General(
                String::from_str("cannot specify both --take-remote and --take-local"),
            ),
        )
    } else if args.take_remote {
        Ok(ResolveMode::TakeRemote)
    } else if args.take_local {
        Ok(ResolveMode::TakeLocal)
    } else {
        Ok(ResolveMode::Edited)
    }
}

/// What a session command does.
#[derive(Debug, Clone)]
pub enum SessionAction {
    Start(SessionStartArgs),
    End,
}

/// A session may start only when none is active.
pub fn check_no_active_session(active: bool) -> (r: Result<(), RiptskError>)
    ensures
        !active ==> r is Ok,
        active ==> (r matches Err(RiptskError::Conflict(m)) && m@ == "session already active"@),
{
    if active {
        Err(RiptskError::Conflict(String::from_str("session already active")))
    } else {
        Ok(())
    }
}

/// A session may end only when one is active.
pub fn check_active_session(active: bool) -> (r: Result<(), RiptskError>)
    ensures
        active ==> r is Ok,
        !active ==> (r matches Err(RiptskError::NotFound(m)) && m@ == "no active session"@),
{
    if active {
        Ok(())
    } else {
        Err(RiptskError::NotFound(String::from_str("no active session")))
    }
}

/// Whether a session command may run, `active` telling whether a session
/// is saved: a start needs none, an end needs one.
pub open spec fn session_permitted(active: bool, start: bool) -> bool {
    if start {
        !active
    } else {
        active
    }
}

/// `tsk session` against the saved session state (`active`: whether a
/// session is saved): its action when
/// permitted, else the refusal (`Conflict("session already active")` for a
/// start, `NotFound("no active session")` for an end); and whether a session
/// is active afterwards (a refused command changes nothing).
pub fn session(args: SessionArgs, active: bool) -> (r: (Result<SessionAction, RiptskError>, bool))
    ensures
        r.0 is Ok <==> session_permitted(active, args.subcommand is Start),
        r.1 == (args.subcommand is Start),
        match args.subcommand {
            SessionSubcommand::Start(a) => if active {
                (r.0 matches Err(RiptskError::Conflict(m)) && m@ == "session already active"@)
                    && r.1
            } else {
                (r.0 matches Ok(SessionAction::Start(b)) && b == a) && r.1
            },
            SessionSubcommand::End => if active {
                (r.0 matches Ok(SessionAction::End)) && !r.1
            } else {
                (r.0 matches Err(RiptskError::NotFound(m)) && m@ == "no active session"@) && !r.1
            },
        },
{
    match args.subcommand {
        SessionSubcommand::Start(a) => match check_no_active_session(active) {
            Ok(()) => (Ok(SessionAction::Start(a)), true),
            Err(e) => (Err(e), true),
        },
        SessionSubcommand::End => match check_active_session(active) {
            Ok(()) => (Ok(SessionAction::End), false),
            Err(e) => (Err(e), false),
        },
    }
}

/// At most one session is active: a start runs only when no session is
/// active and leaves exactly one active; an end runs only when one is active
/// and leaves none; a refused command leaves the state as it was.
pub proof fn lemma_one_session_at_a_time(active: bool, start: bool)
    ensures
        start && session_permitted(active, start) ==> !active,
        !start && session_permitted(active, start) ==> active,
        !session_permitted(active, start) ==> (start == active),
{
}

/// The branch of a session: the issue's slug, else one made for it.
pub fn session_branch(id_slug: Option<&str>, generated: &str) -> (r: String)
    ensures
        r@ == match id_slug {
            Some(s) => s@,
            None => generated@,
        },
{
    match id_slug {
        Some(s) => String::from_str(s),
        None => String::from_str(generated),
    }
}

/// The message of a manual store commit.
pub fn manual_commit_message(now: &str) -> (r: String)
    ensures
        r@ == "riptask: manual commit "@ + now@,
{
    concat2("riptask: manual commit ", now)
}

/// What a store command does.
#[derive(Debug, Clone)]
pub enum StoreAction {
    Commit(StoreCommitArgs),
    Hooks(HooksArgs),
}

/// The action of `tsk store`.
pub fn run(args: StoreArgs) -> (r: StoreAction)
    ensures
        match args.subcommand {
            StoreSubcommand::Commit(a) => r matches StoreAction::Commit(b) && b == a,
            StoreSubcommand::Hooks(a) => r matches StoreAction::Hooks(b) && b == a,
        },
{
    match args.subcommand {
        StoreSubcommand::Commit(a) => StoreAction::Commit(a),
        StoreSubcommand::Hooks(a) => StoreAction::Hooks(a),
    }
}

} // verus!
