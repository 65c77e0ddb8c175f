//! GitHub pull-request checks: which workflows a pull request sets off, and
//! how the states of its checks roll up into one.

use crate::backend::{PrCheckItem, PrChecksStatus};
use crate::regex_match::{regex_escape, regex_escaped, regex_match, regex_match_result};
use crate::text::{
    chars_of, lemma_text_less_total, lemma_text_less_transitive, opt_view, push_char, str_eq,
    string_views, text_less, text_lt,
};
use vstd::prelude::*;

verus! {

/// A workflow file: its `name:` (if any), its path, and its `on:` triggers.
#[derive(Debug, Clone)]
pub struct WorkflowSpec {
    pub name: Option<String>,
    pub path: String,
    pub on: OnTriggers,
}

/// The `on:` key of a workflow, in each of the three shapes YAML allows.
#[derive(Debug, Clone)]
pub enum OnTriggers {
    /// No `on:` key, or one of another shape.
    Absent,
    Single(String),
    List(Vec<String>),
    Mapping(WorkflowTriggerMap),
}

impl Default for OnTriggers {
    fn default() -> (r: Self)
        ensures
            r is Absent,
    {
        OnTriggers::Absent
    }
}

/// The events of an `on:` map that matter here.
#[derive(Debug, Clone)]
pub struct WorkflowTriggerMap {
    pub pull_request: Option<BranchFilter>,
    pub pull_request_target: Option<BranchFilter>,
    pub push: Option<BranchFilter>,
    pub workflow_dispatch: bool,
    pub schedule: bool,
    pub repository_dispatch: bool,
}

impl Default for WorkflowTriggerMap {
    fn default() -> (r: Self)
        ensures
            r.pull_request.is_none(),
            r.pull_request_target.is_none(),
            r.push.is_none(),
            !r.workflow_dispatch,
            !r.schedule,
            !r.repository_dispatch,
    {
        WorkflowTriggerMap {
            pull_request: None,
            pull_request_target: None,
            push: None,
            workflow_dispatch: false,
            schedule: false,
            repository_dispatch: false,
        }
    }
}

/// `branches:` and `branches-ignore:` of an event.
#[derive(Debug, Clone)]
pub struct BranchFilter {
    pub branches: Vec<String>,
    pub branches_ignore: Vec<String>,
}

impl Default for BranchFilter {
    fn default() -> (r: Self)
        ensures
            r.branches@.len() == 0,
            r.branches_ignore@.len() == 0,
    {
        BranchFilter { branches: Vec::new(), branches_ignore: Vec::new() }
    }
}

/// The single-event triggers that run on a pull request.
pub open spec fn supported_trigger(t: Seq<char>) -> bool {
    t == "pull_request"@ || t == "pull_request_target"@ || t == "push"@
}

/// The regular expression that a branch glob stands for, without anchors:
/// `**` is any text, `*` any text without `/`, `?` one character, and every
/// other character itself (escaped).
pub open spec fn glob_regex(p: Seq<char>) -> Seq<char>
    decreases p.len(),
{
    if p.len() == 0 {
        Seq::empty()
    } else if p[0] == '*' && p.len() > 1 && p[1] == '*' {
        seq!['.', '*'] + glob_regex(p.skip(2))
    } else if p[0] == '*' {
        seq!['[', '^', '/', ']', '*'] + glob_regex(p.skip(1))
    } else if p[0] == '?' {
        seq!['.'] + glob_regex(p.skip(1))
    } else {
        regex_escaped(seq![p[0]]) + glob_regex(p.skip(1))
    }
}

/// The anchored regular expression for a branch glob.
pub open spec fn pattern_regex(p: Seq<char>) -> Seq<char> {
    seq!['^'] + glob_regex(p) + seq!['$']
}

/// A branch glob matches a name: its regular expression compiles and
/// matches the name.
pub open spec fn pattern_matches(p: Seq<char>, v: Seq<char>) -> bool {
    regex_match_result(pattern_regex(p), v) == Some(true)
}

/// Some glob of a list matches a name.
pub open spec fn any_pattern_matches(ps: Seq<Seq<char>>, v: Seq<char>) -> bool {
    exists|i: int| 0 <= i < ps.len() && #[trigger] pattern_matches(ps[i], v)
}

impl BranchFilter {
    /// The filter admits a branch: the branch list is empty or a glob of it
    /// matches, and no ignore glob matches.
    pub open spec fn admits(self, branch: Seq<char>) -> bool {
        (self.branches@.len() == 0 || any_pattern_matches(string_views(self.branches@), branch))
            && !any_pattern_matches(string_views(self.branches_ignore@), branch)
    }

    /// Whether the filter admits `branch`.
    pub fn matches(&self, branch: &str) -> (r: bool)
        ensures
            r == self.admits(branch@),
    {
        let branches_match = if self.branches.len() == 0 {
            true
        } else {
            any_matches(&self.branches, branch)
        };
        let ignored = any_matches(&self.branches_ignore, branch);
        branches_match && !ignored
    }
}

/// Whether some glob of `patterns` matches `value`.
fn any_matches(patterns: &Vec<String>, value: &str) -> (r: bool)
    ensures
        r == any_pattern_matches(string_views(patterns@), value@),
{
    let mut i: usize = 0;
    while i < patterns.len()
        invariant
            i <= patterns@.len(),
            forall|k: int|
                0 <= k < i ==> !#[trigger] pattern_matches(string_views(patterns@)[k], value@),
        decreases patterns@.len() - i,
    {
        if github_pattern_matches(patterns[i].as_str(), value) {
            assert(pattern_matches(string_views(patterns@)[i as int], value@));
            return true;
        }
        i += 1;
    }
    false
}

/// Whether a GitHub branch glob matches `value`: the glob is turned into an
/// anchored regular expression and matched with the `regex` crate; a glob
/// whose expression does not compile matches nothing.
pub fn github_pattern_matches(pattern: &str, value: &str) -> (r: bool)
    ensures
        r == pattern_matches(pattern@, value@),
{
    let p = chars_of(pattern);
    let mut regex = String::new();
    push_char(&mut regex, '^');
    let mut i: usize = 0;
    assert(p@.skip(0) =~= p@);
    while i < p.len()
        invariant
            p@ == pattern@,
            i <= p@.len(),
            regex@ + glob_regex(p@.skip(i as int)) == seq!['^'] + glob_regex(p@),
        decreases p@.len() - i,
    {
        let ghost rest = p@.skip(i as int);
        let ghost before = regex@;
        let ch = p[i];
        if ch == '*' && i + 1 < p.len() && p[i + 1] == '*' {
            assert(rest.skip(2) =~= p@.skip(i + 2));
            push_char(&mut regex, '.');
            push_char(&mut regex, '*');
            assert(regex@ =~= before + seq!['.', '*']);
            i += 2;
        } else {
            assert(rest.skip(1) =~= p@.skip(i + 1));
            if ch == '*' {
                push_char(&mut regex, '[');
                push_char(&mut regex, '^');
                push_char(&mut regex, '/');
                push_char(&mut regex, ']');
                push_char(&mut regex, '*');
                assert(regex@ =~= before + seq!['[', '^', '/', ']', '*']);
            } else if ch == '?' {
                push_char(&mut regex, '.');
                assert(regex@ =~= before + seq!['.']);
            } else {
                let mut one = String::new();
                push_char(&mut one, ch);
                assert(one@ =~= seq![ch]);
                let escaped = regex_escape(one.as_str());
                regex.append(escaped.as_str());
            }
            i += 1;
        }
        assert(regex@ + glob_regex(p@.skip(i as int)) =~= seq!['^'] + glob_regex(p@));
    }
    assert(p@.skip(i as int) =~= Seq::<char>::empty());
    push_char(&mut regex, '$');
    assert(regex@ =~= pattern_regex(pattern@));
    match regex_match(regex.as_str(), value) {
        Some(found) => found,
        None => false,
    }
}

/// Whether `trigger` is one of the single-event triggers that run on a pull
/// request.
pub fn is_supported_single_trigger(trigger: &str) -> (r: bool)
    ensures
        r == supported_trigger(trigger@),
{
    str_eq(trigger, "pull_request") || str_eq(trigger, "pull_request_target") || str_eq(
        trigger,
        "push",
    )
}

/// An optional filter admits a branch (a missing event admits nothing).
pub open spec fn event_admits(filter: Option<BranchFilter>, branch: Seq<char>) -> bool {
    match filter {
        Some(f) => f.admits(branch),
        None => false,
    }
}

/// A workflow runs for a pull request from `head` into `base`: a single or
/// listed trigger is a pull-request event, or the map's `pull_request` or
/// `pull_request_target` filter admits the base, or its `push` filter admits
/// the head.
pub open spec fn workflow_runs_for(on: OnTriggers, base: Seq<char>, head: Seq<char>) -> bool {
    match on {
        OnTriggers::Single(t) => supported_trigger(t@),
        OnTriggers::List(ts) => some_supported(string_views(ts@)),
        OnTriggers::Mapping(m) => event_admits(m.pull_request, base) || event_admits(
            m.pull_request_target,
            base,
        ) || event_admits(m.push, head),
        OnTriggers::Absent => false,
    }
}

/// Some trigger of the list is a pull-request event.
pub open spec fn some_supported(ts: Seq<Seq<char>>) -> bool {
    exists|i: int| 0 <= i < ts.len() && #[trigger] supported_trigger(ts[i])
}

fn any_supported_trigger(triggers: &Vec<String>) -> (r: bool)
    ensures
        r == some_supported(string_views(triggers@)),
{
    let mut i: usize = 0;
    while i < triggers.len()
        invariant
            i <= triggers@.len(),
            forall|k: int| 0 <= k < i ==> !#[trigger] supported_trigger(string_views(triggers@)[k]),
        decreases triggers@.len() - i,
    {
        if is_supported_single_trigger(triggers[i].as_str()) {
            assert(supported_trigger(string_views(triggers@)[i as int]));
            return true;
        }
        i += 1;
    }
    false
}

fn event_matches(filter: &Option<BranchFilter>, branch: &str) -> (r: bool)
    ensures
        r == event_admits(*filter, branch@),
{
    match filter {
        Some(f) => f.matches(branch),
        None => false,
    }
}

/// Whether the workflow `spec` runs for a pull request from `head_ref` into
/// `base_ref`.
pub fn workflow_matches_pr(spec: &WorkflowSpec, base_ref: &str, head_ref: &str) -> (r: bool)
    ensures
        r == workflow_runs_for(spec.on, base_ref@, head_ref@),
{
    match &spec.on {
        OnTriggers::Single(trigger) => is_supported_single_trigger(trigger.as_str()),
        OnTriggers::List(triggers) => any_supported_trigger(triggers),
        OnTriggers::Mapping(triggers) => {
            let pull_matches = event_matches(&triggers.pull_request, base_ref);
            let target_matches = event_matches(&triggers.pull_request_target, base_ref);
            let push_matches = event_matches(&triggers.push, head_ref);
            pull_matches || target_matches || push_matches
        },
        OnTriggers::Absent => false,
    }
}

impl WorkflowTriggerMap {
    /// A map with only `pull_request`, on every branch.
    pub fn pull_request_any() -> (r: Self)
        ensures
            r.pull_request matches Some(f) && f.branches@.len() == 0
                && f.branches_ignore@.len() == 0,
            r.pull_request_target.is_none(),
            r.push.is_none(),
            !r.workflow_dispatch,
            !r.schedule,
            !r.repository_dispatch,
    {
        WorkflowTriggerMap {
            pull_request: Some(BranchFilter::default()),
            pull_request_target: None,
            push: None,
            workflow_dispatch: false,
            schedule: false,
            repository_dispatch: false,
        }
    }
}

impl WorkflowSpec {
    /// What is assumed of a workflow file that could not be read: named by
    /// its path, and run on every pull request.
    pub fn conservative_default(path: String) -> (r: Self)
        ensures
            r.name matches Some(n) && n@ == path@,
            r.path@ == path@,
            r.on matches OnTriggers::Mapping(m) && m.pull_request matches Some(f)
                && f.branches@.len() == 0 && f.branches_ignore@.len() == 0
                && m.pull_request_target.is_none() && m.push.is_none() && !m.workflow_dispatch
                && !m.schedule && !m.repository_dispatch,
    {
        let name = path.clone();
        WorkflowSpec {
            name: Some(name),
            path,
            on: OnTriggers::Mapping(WorkflowTriggerMap::pull_request_any()),
        }
    }

    /// The name under which the workflow's checks register: its `name:`,
    /// else its path.
    pub fn resolved_name(&self) -> (r: String)
        ensures
            r@ == match self.name {
                Some(n) => n@,
                None => self.path@,
            },
    {
        match &self.name {
            Some(n) => n.clone(),
            None => self.path.clone(),
        }
    }
}

/// How strongly a state weighs when two reports of one check are merged:
/// failed over pending over passed over none.
pub open spec fn state_weight(s: PrChecksStatus) -> int {
    match s {
        PrChecksStatus::NoChecks => 0,
        PrChecksStatus::Passed => 1,
        PrChecksStatus::Pending => 2,
        PrChecksStatus::Failed => 3,
    }
}

/// Two reports of one check merged: the heavier state.
pub open spec fn merged_state(a: PrChecksStatus, b: PrChecksStatus) -> PrChecksStatus {
    if state_weight(a) >= state_weight(b) {
        a
    } else {
        b
    }
}

/// Merge two reports of one check: failed wins, then pending, then passed.
pub fn merge_pr_check_states(current: PrChecksStatus, next: PrChecksStatus) -> (r:
    PrChecksStatus)
    ensures
        r == merged_state(current, next),
{
    match (current, next) {
        (PrChecksStatus::Failed, _) | (_, PrChecksStatus::Failed) => PrChecksStatus::Failed,
        (PrChecksStatus::Pending, _) | (_, PrChecksStatus::Pending) => PrChecksStatus::Pending,
        (PrChecksStatus::Passed, _) | (_, PrChecksStatus::Passed) => PrChecksStatus::Passed,
        _ => PrChecksStatus::NoChecks,
    }
}

/// Merging reports does not depend on their order.
pub proof fn lemma_merge_commutative(a: PrChecksStatus, b: PrChecksStatus)
    ensures
        merged_state(a, b) == merged_state(b, a),
{
}

/// Merging reports does not depend on how they are grouped.
pub proof fn lemma_merge_associative(a: PrChecksStatus, b: PrChecksStatus, c: PrChecksStatus)
    ensures
        merged_state(merged_state(a, b), c) == merged_state(a, merged_state(b, c)),
{
}

/// A report merged with itself is unchanged, a report of no checks changes
/// nothing, and a failure is never outweighed.
pub proof fn lemma_merge_identities(a: PrChecksStatus)
    ensures
        merged_state(a, a) == a,
        merged_state(PrChecksStatus::NoChecks, a) == a,
        merged_state(a, PrChecksStatus::Failed) == PrChecksStatus::Failed,
{
}

/// Check conclusions that count as passed.
pub open spec fn pass_state(s: Seq<char>) -> bool {
    s == "success"@ || s == "skipped"@ || s == "neutral"@
}

/// Check conclusions that count as failed.
pub open spec fn fail_state(s: Seq<char>) -> bool {
    s == "failure"@ || s == "error"@ || s == "cancelled"@ || s == "timed_out"@ || s
        == "action_required"@ || s == "startup_failure"@ || s == "stale"@
}

/// Check statuses that count as still running.
pub open spec fn pending_state(s: Seq<char>) -> bool {
    s == "pending"@ || s == "in_progress"@ || s == "queued"@ || s == "requested"@ || s
        == "waiting"@
}

/// Whether a conclusion counts as passed.
pub fn is_pass_state(state: &str) -> (r: bool)
    ensures
        r == pass_state(state@),
{
    str_eq(state, "success") || str_eq(state, "skipped") || str_eq(state, "neutral")
}

/// Whether a conclusion counts as failed.
pub fn is_fail_state(state: &str) -> (r: bool)
    ensures
        r == fail_state(state@),
{
    str_eq(state, "failure") || str_eq(state, "error") || str_eq(state, "cancelled") || str_eq(
        state,
        "timed_out",
    ) || str_eq(state, "action_required") || str_eq(state, "startup_failure") || str_eq(
        state,
        "stale",
    )
}

/// Whether a status counts as still running.
pub fn is_pending_state(state: &str) -> (r: bool)
    ensures
        r == pending_state(state@),
{
    str_eq(state, "pending") || str_eq(state, "in_progress") || str_eq(state, "queued")
        || str_eq(state, "requested") || str_eq(state, "waiting")
}

/// The state of a check from its conclusion (none yet: pending).
pub open spec fn conclusion_state(conclusion: Option<Seq<char>>) -> PrChecksStatus {
    match conclusion {
        Some(c) => if fail_state(c) {
            PrChecksStatus::Failed
        } else if pass_state(c) {
            PrChecksStatus::Passed
        } else {
            PrChecksStatus::Pending
        },
        None => PrChecksStatus::Pending,
    }
}

/// What a check's conclusion means, word by word: `failure`, `error`,
/// `cancelled`, `timed_out`, `action_required`, `startup_failure` and
/// `stale` are failures and nothing else is; `success`, `skipped` and
/// `neutral` are passes; a check with no conclusion yet is pending. So a
/// cancelled run fails the roll-up instead of keeping it waiting.
pub proof fn lemma_conclusion_words(c: Seq<char>)
    ensures
        (conclusion_state(Some(c)) == PrChecksStatus::Failed) <==> (c == "failure"@ || c
            == "error"@ || c == "cancelled"@ || c == "timed_out"@ || c == "action_required"@ || c
            == "startup_failure"@ || c == "stale"@),
        (c == "success"@ || c == "skipped"@ || c == "neutral"@) ==> conclusion_state(Some(c))
            == PrChecksStatus::Passed,
        conclusion_state(None) == PrChecksStatus::Pending,
{
    reveal_strlit("failure");
    reveal_strlit("error");
    reveal_strlit("cancelled");
    reveal_strlit("timed_out");
    reveal_strlit("action_required");
    reveal_strlit("startup_failure");
    reveal_strlit("stale");
    reveal_strlit("success");
    reveal_strlit("skipped");
    reveal_strlit("neutral");
    if c == "success"@ || c == "skipped"@ || c == "neutral"@ {
        assert(c.len() == 7 && c[0] != 'f');
        assert("failure"@.len() == 7 && "failure"@[0] == 'f');
        assert("error"@.len() == 5 && "stale"@.len() == 5);
        assert("cancelled"@.len() == 9 && "timed_out"@.len() == 9);
        assert("action_required"@.len() == 15 && "startup_failure"@.len() == 15);
        assert(!fail_state(c));
    }
}

/// A counted check that failed fails the whole roll-up, whatever the other
/// checks say, once anything was expected, registered or started.
pub proof fn lemma_failed_check_fails_rollup(
    expected: Seq<Seq<char>>,
    registered: Seq<Seq<char>>,
    items: Seq<PrCheckItem>,
    suite_activity: bool,
    i: int,
)
    requires
        0 <= i < items.len(),
        expected.contains(items[i].name@) || registered.contains(items[i].name@),
        items[i].state == PrChecksStatus::Failed,
    ensures
        rollup_status(expected, registered, items, suite_activity) == PrChecksStatus::Failed,
{
    if expected.contains(items[i].name@) {
        assert(expected.len() > 0);
    } else {
        assert(registered.len() > 0);
    }
    assert(item_counts(expected, registered, items[i]));
}

fn state_of_conclusion(conclusion: &Option<String>) -> (r: PrChecksStatus)
    ensures
        r == conclusion_state(
            match conclusion {
                Some(c) => Some(c@),
                None => None,
            },
        ),
{
    match conclusion {
        Some(c) => {
            if is_fail_state(c.as_str()) {
                PrChecksStatus::Failed
            } else if is_pass_state(c.as_str()) {
                PrChecksStatus::Passed
            } else {
                PrChecksStatus::Pending
            }
        },
        None => PrChecksStatus::Pending,
    }
}

/// What a check run of the checks API says of itself.
#[derive(Debug, Clone)]
pub struct CheckRunInfo {
    pub name: String,
    pub conclusion: Option<String>,
    pub details_url: Option<String>,
    pub html_url: Option<String>,
}

/// What a workflow run of the actions API says of itself.
#[derive(Debug, Clone)]
pub struct WorkflowRunInfo {
    pub name: String,
    pub status: String,
    pub conclusion: Option<String>,
    pub html_url: String,
}

/// The state of a commit status.
#[derive(Debug, Clone, Copy, PartialEq, Eq, Structural)]
pub enum CommitStatusState {
    Success,
    Failure,
    Error,
    Pending,
    /// A state this library does not know.
    Other,
}

/// A commit status of the statuses API.
#[derive(Debug, Clone)]
pub struct CommitStatusInfo {
    pub context: Option<String>,
    pub state: CommitStatusState,
    pub target_url: Option<String>,
}

/// The state of a check run: by its conclusion, pending while it has none.
pub fn check_run_state(run: &CheckRunInfo) -> (r: PrChecksStatus)
    ensures
        r == conclusion_state(
            match run.conclusion {
                Some(c) => Some(c@),
                None => None,
            },
        ),
{
    state_of_conclusion(&run.conclusion)
}

/// The state of a workflow run: pending until completed, then by its
/// conclusion.
pub fn workflow_run_state(run: &WorkflowRunInfo) -> (r: PrChecksStatus)
    ensures
        r == if run.status@ != "completed"@ {
            PrChecksStatus::Pending
        } else {
            conclusion_state(
                match run.conclusion {
                    Some(c) => Some(c@),
                    None => None,
                },
            )
        },
{
    if !str_eq(run.status.as_str(), "completed") {
        return PrChecksStatus::Pending;
    }
    state_of_conclusion(&run.conclusion)
}

/// The state of a commit status.
pub fn commit_status_state(status: &CommitStatusInfo) -> (r: PrChecksStatus)
    ensures
        r == match status.state {
            CommitStatusState::Success => PrChecksStatus::Passed,
            CommitStatusState::Failure | CommitStatusState::Error => PrChecksStatus::Failed,
            CommitStatusState::Pending => PrChecksStatus::Pending,
            CommitStatusState::Other => PrChecksStatus::NoChecks,
        },
{
    match status.state {
        CommitStatusState::Success => PrChecksStatus::Passed,
        CommitStatusState::Failure | CommitStatusState::Error => PrChecksStatus::Failed,
        CommitStatusState::Pending => PrChecksStatus::Pending,
        CommitStatusState::Other => PrChecksStatus::NoChecks,
    }
}

/// An item counts for the roll-up when its name was expected or registered.
pub open spec fn item_counts(
    expected: Seq<Seq<char>>,
    registered: Seq<Seq<char>>,
    item: PrCheckItem,
) -> bool {
    expected.contains(item.name@) || registered.contains(item.name@)
}

/// The roll-up of a pull request's checks: none when nothing was expected,
/// registered or started; failed when a counted item failed; passed when
/// something was expected, every expected name registered, and every
/// expected item passed; else pending.
pub open spec fn rollup_status(
    expected: Seq<Seq<char>>,
    registered: Seq<Seq<char>>,
    items: Seq<PrCheckItem>,
    suite_activity: bool,
) -> PrChecksStatus {
    if expected.len() == 0 && registered.len() == 0 && !suite_activity {
        PrChecksStatus::NoChecks
    } else if exists|i: int|
        0 <= i < items.len() && item_counts(expected, registered, items[i])
            && #[trigger] items[i].state == PrChecksStatus::Failed {
        PrChecksStatus::Failed
    } else if expected.len() > 0 && (forall|j: int|
        0 <= j < expected.len() ==> registered.contains(#[trigger] expected[j])) && (forall|
        i: int,
    |
        0 <= i < items.len() && expected.contains(#[trigger] items[i].name@) ==> items[i].state
            == PrChecksStatus::Passed) {
        PrChecksStatus::Passed
    } else {
        PrChecksStatus::Pending
    }
}

/// Whether `name` is one of `names`.
fn has_name(names: &[String], name: &str) -> (r: bool)
    ensures
        r == string_views(names@).contains(name@),
{
    let mut j: usize = 0;
    while j < names.len()
        invariant
            j <= names@.len(),
            forall|k: int| 0 <= k < j ==> string_views(names@)[k] != name@,
        decreases names@.len() - j,
    {
        if str_eq(names[j].as_str(), name) {
            assert(string_views(names@)[j as int] == name@);
            return true;
        }
        j += 1;
    }
    false
}

/// Roll the states of a pull request's checks up into one.
pub fn rollup_report_status(
    expected: &[String],
    registered: &[String],
    items: &[PrCheckItem],
    suite_activity: bool,
) -> (r: PrChecksStatus)
    ensures
        r == rollup_status(
            string_views(expected@),
            string_views(registered@),
            items@,
            suite_activity,
        ),
{
    let ghost ex = string_views(expected@);
    let ghost re = string_views(registered@);
    if expected.len() == 0 && registered.len() == 0 && !suite_activity {
        return PrChecksStatus::NoChecks;
    }
    let mut any_failed = false;
    let mut all_expected_passed = expected.len() > 0;
    let mut i: usize = 0;
    while i < items.len()
        invariant
            ex == string_views(expected@),
            re == string_views(registered@),
            i <= items@.len(),
            any_failed == exists|k: int|
                0 <= k < i && item_counts(ex, re, items@[k]) && #[trigger] items@[k].state
                    == PrChecksStatus::Failed,
            !any_failed ==> (all_expected_passed == (expected@.len() > 0 && forall|k: int|
                0 <= k < i && ex.contains(#[trigger] items@[k].name@) ==> items@[k].state
                    == PrChecksStatus::Passed)),
        decreases items@.len() - i,
    {
        let item = &items[i];
        let in_expected = has_name(expected, item.name.as_str());
        let counted = in_expected || has_name(registered, item.name.as_str());
        if counted {
            match item.state {
                PrChecksStatus::Failed => {
                    any_failed = true;
                },
                PrChecksStatus::Passed => {},
                _ => {
                    if in_expected {
                        all_expected_passed = false;
                    }
                },
            }
        }
        i += 1;
    }
    if any_failed {
        return PrChecksStatus::Failed;
    }
    let mut subset = true;
    let mut j: usize = 0;
    while j < expected.len()
        invariant
            ex == string_views(expected@),
            re == string_views(registered@),
            j <= expected@.len(),
            subset == forall|k: int| 0 <= k < j ==> re.contains(#[trigger] ex[k]),
        decreases expected@.len() - j,
    {
        assert(ex[j as int] == expected@[j as int]@);
        if !has_name(registered, expected[j].as_str()) {
            subset = false;
        }
        j += 1;
    }
    if expected.len() > 0 && subset && all_expected_passed {
        return PrChecksStatus::Passed;
    }
    PrChecksStatus::Pending
}

/// Texts in strictly ascending order (hence without repeats).
pub open spec fn ascending(v: Seq<Seq<char>>) -> bool {
    forall|i: int, j: int| 0 <= i < j < v.len() ==> text_less(#[trigger] v[i], #[trigger] v[j])
}

/// Puts `name` into the ascending list `names`, unless it is there already.
pub fn insert_name(names: &mut Vec<String>, name: &str)
    requires
        ascending(string_views(old(names)@)),
    ensures
        ascending(string_views(final(names)@)),
        forall|n: Seq<char>|
            #![trigger string_views(final(names)@).contains(n)]
            string_views(final(names)@).contains(n) <==> (string_views(old(names)@).contains(n)
                || n == name@),
{
    let ghost old_views = string_views(names@);
    let mut p: usize = 0;
    while p < names.len() && text_lt(names[p].as_str(), name)
        invariant
            old_views == string_views(names@),
            p <= names@.len(),
            forall|k: int| 0 <= k < p ==> text_less(#[trigger] old_views[k], name@),
        decreases names@.len() - p,
    {
        p += 1;
    }
    if p < names.len() && str_eq(names[p].as_str(), name) {
        assert(old_views[p as int] == name@);
        assert(forall|n: Seq<char>| n == name@ ==> old_views.contains(n));
        return;
    }
    if p < names.len() {
        proof {
            lemma_text_less_total(old_views[p as int], name@);
        }
    }
    names.insert(p, String::from_str(name));
    let ghost new_views = string_views(names@);
    assert(new_views =~= old_views.insert(p as int, name@));
    assert forall|i: int, j: int| 0 <= i < j < new_views.len() implies text_less(
        #[trigger] new_views[i],
        #[trigger] new_views[j],
    ) by {
        if i < p && j == p {
        } else if i < p && j > p {
            assert(old_views[j - 1] == new_views[j]);
            if j - 1 == p {
                lemma_text_less_transitive(old_views[i], name@, old_views[p as int]);
            } else {
                assert(text_less(old_views[i], old_views[j - 1]));
            }
        } else if i == p {
            if j - 1 > p {
                assert(text_less(old_views[p as int], old_views[j - 1]));
                lemma_text_less_transitive(name@, old_views[p as int], old_views[j - 1]);
            }
        } else if i > p {
            assert(text_less(old_views[i - 1], old_views[j - 1]));
        } else {
            assert(text_less(old_views[i], old_views[j]));
        }
    }
    assert forall|n: Seq<char>|
        #![trigger new_views.contains(n)]
        new_views.contains(n) <==> (old_views.contains(n) || n == name@) by {
        if new_views.contains(n) {
            let k = choose|k: int| 0 <= k < new_views.len() && new_views[k] == n;
            if k < p {
                assert(old_views[k] == n);
            } else if k > p {
                assert(old_views[k - 1] == n);
            }
        }
        if old_views.contains(n) {
            let k = choose|k: int| 0 <= k < old_views.len() && old_views[k] == n;
            if k < p {
                assert(new_views[k] == n);
            } else {
                assert(new_views[k + 1] == n);
            }
        }
        if n == name@ {
            assert(new_views[p as int] == n);
        }
    }
}

/// Puts every name of `more` into the ascending list `names`.
pub fn insert_names(names: &mut Vec<String>, more: &Vec<String>)
    requires
        ascending(string_views(old(names)@)),
    ensures
        ascending(string_views(final(names)@)),
        forall|n: Seq<char>|
            #![trigger string_views(final(names)@).contains(n)]
            string_views(final(names)@).contains(n) <==> (string_views(old(names)@).contains(n)
                || string_views(more@).contains(n)),
{
    let ghost start = string_views(names@);
    let mut i: usize = 0;
    while i < more.len()
        invariant
            i <= more@.len(),
            ascending(string_views(names@)),
            forall|n: Seq<char>|
                #![trigger string_views(names@).contains(n)]
                string_views(names@).contains(n) <==> (start.contains(n) || exists|k: int|
                    0 <= k < i && string_views(more@)[k] == n),
        decreases more@.len() - i,
    {
        let ghost before = string_views(names@);
        insert_name(names, more[i].as_str());
        assert(string_views(more@)[i as int] == more@[i as int]@);
        assert forall|n: Seq<char>|
            #![trigger string_views(names@).contains(n)]
            string_views(names@).contains(n) <==> (start.contains(n) || exists|k: int|
                0 <= k < i + 1 && string_views(more@)[k] == n) by {
            assert(string_views(names@).contains(n) <==> (before.contains(n) || n
                == more@[i as int]@));
            assert(before.contains(n) <==> (start.contains(n) || exists|k: int|
                0 <= k < i && string_views(more@)[k] == n));
        }
        i += 1;
    }
}

/// The names of three groups, each once, in ascending order.
pub fn merge_expected_names(groups: [Vec<String>; 3]) -> (r: Vec<String>)
    ensures
        ascending(string_views(r@)),
        forall|n: Seq<char>|
            #![trigger string_views(r@).contains(n)]
            string_views(r@).contains(n) <==> (string_views(groups@[0]@).contains(n)
                || string_views(groups@[1]@).contains(n) || string_views(groups@[2]@).contains(
                n,
            )),
{
    let mut names: Vec<String> = Vec::new();
    assert(string_views(names@) =~= Seq::<Seq<char>>::empty());
    insert_names(&mut names, &groups[0]);
    insert_names(&mut names, &groups[1]);
    insert_names(&mut names, &groups[2]);
    names
}

/// A commit status carries the context `n`.
pub open spec fn context_is(status: CommitStatusInfo, n: Seq<char>) -> bool {
    status.context matches Some(c) && c@ == n
}

/// Every name under which some check registered: check runs and workflow
/// runs by name, commit statuses by context.
pub open spec fn registered_name(
    check_runs: Seq<CheckRunInfo>,
    workflow_runs: Seq<WorkflowRunInfo>,
    statuses: Seq<CommitStatusInfo>,
    n: Seq<char>,
) -> bool {
    (exists|i: int| 0 <= i < check_runs.len() && #[trigger] check_runs[i].name@ == n) || (exists|
        i: int,
    |
        0 <= i < workflow_runs.len() && #[trigger] workflow_runs[i].name@ == n) || (exists|i: int|
        0 <= i < statuses.len() && #[trigger] context_is(statuses[i], n))
}

/// The names of every registered check, each once, in ascending order.
pub fn collect_registered_names(
    check_runs: &[CheckRunInfo],
    workflow_runs: &[WorkflowRunInfo],
    statuses: &[CommitStatusInfo],
) -> (r: Vec<String>)
    ensures
        ascending(string_views(r@)),
        forall|n: Seq<char>|
            #![trigger string_views(r@).contains(n)]
            string_views(r@).contains(n) <==> registered_name(
                check_runs@,
                workflow_runs@,
                statuses@,
                n,
            ),
{
    let mut names: Vec<String> = Vec::new();
    assert(string_views(names@) =~= Seq::<Seq<char>>::empty());
    let mut i: usize = 0;
    while i < check_runs.len()
        invariant
            i <= check_runs@.len(),
            ascending(string_views(names@)),
            forall|n: Seq<char>|
                #![trigger string_views(names@).contains(n)]
                string_views(names@).contains(n) <==> exists|k: int|
                    0 <= k < i && #[trigger] check_runs@[k].name@ == n,
        decreases check_runs@.len() - i,
    {
        let ghost before = string_views(names@);
        insert_name(&mut names, check_runs[i].name.as_str());
        assert forall|n: Seq<char>|
            #![trigger string_views(names@).contains(n)]
            string_views(names@).contains(n) <==> exists|k: int|
                0 <= k < i + 1 && #[trigger] check_runs@[k].name@ == n by {
            assert(before.contains(n) <==> exists|k: int|
                0 <= k < i && #[trigger] check_runs@[k].name@ == n);
        }
        i += 1;
    }
    let ghost after_checks = string_views(names@);
    let mut i: usize = 0;
    while i < workflow_runs.len()
        invariant
            i <= workflow_runs@.len(),
            ascending(string_views(names@)),
            forall|n: Seq<char>|
                #![trigger string_views(names@).contains(n)]
                string_views(names@).contains(n) <==> (after_checks.contains(n) || exists|k: int|
                    0 <= k < i && #[trigger] workflow_runs@[k].name@ == n),
        decreases workflow_runs@.len() - i,
    {
        let ghost before = string_views(names@);
        insert_name(&mut names, workflow_runs[i].name.as_str());
        assert forall|n: Seq<char>|
            #![trigger string_views(names@).contains(n)]
            string_views(names@).contains(n) <==> (after_checks.contains(n) || exists|k: int|
                0 <= k < i + 1 && #[trigger] workflow_runs@[k].name@ == n) by {
            assert(before.contains(n) <==> (after_checks.contains(n) || exists|k: int|
                0 <= k < i && #[trigger] workflow_runs@[k].name@ == n));
        }
        i += 1;
    }
    let ghost after_runs = string_views(names@);
    let mut i: usize = 0;
    while i < statuses.len()
        invariant
            i <= statuses@.len(),
            ascending(string_views(names@)),
            forall|n: Seq<char>|
                #![trigger string_views(names@).contains(n)]
                string_views(names@).contains(n) <==> (after_runs.contains(n) || exists|k: int|
                    0 <= k < i && #[trigger] context_is(statuses@[k], n)),
        decreases statuses@.len() - i,
    {
        let ghost before = string_views(names@);
        match &statuses[i].context {
            Some(context) => {
                insert_name(&mut names, context.as_str());
                assert(forall|n: Seq<char>|
                    context_is(statuses@[i as int], n) <==> n == context@);
            },
            None => {
                assert(forall|n: Seq<char>| !context_is(statuses@[i as int], n));
            },
        }
        assert forall|n: Seq<char>|
            #![trigger string_views(names@).contains(n)]
            string_views(names@).contains(n) <==> (after_runs.contains(n) || exists|k: int|
                0 <= k < i + 1 && #[trigger] context_is(statuses@[k], n)) by {
            assert(before.contains(n) <==> (after_runs.contains(n) || exists|k: int|
                0 <= k < i && #[trigger] context_is(statuses@[k], n)));
            if context_is(statuses@[i as int], n) {
                assert(string_views(names@).contains(n));
            }
            if string_views(names@).contains(n) && !before.contains(n) {
                assert(context_is(statuses@[i as int], n));
            }
        }
        i += 1;
    }
    names
}

/// The names of check items, in order.
pub open spec fn item_names(items: Seq<PrCheckItem>) -> Seq<Seq<char>> {
    items.map_values(|item: PrCheckItem| item.name@)
}

/// The state and link of the item named `n`, if there is one.
pub open spec fn item_named(items: Seq<PrCheckItem>, n: Seq<char>) -> Option<
    (PrChecksStatus, Option<Seq<char>>),
> {
    if exists|i: int| 0 <= i < items.len() && #[trigger] items[i].name@ == n {
        let i = choose|i: int| 0 <= i < items.len() && #[trigger] items[i].name@ == n;
        Some((items[i].state, opt_view(items[i].url)))
    } else {
        None
    }
}

/// One more report of a check merged into what is known of it: the states
/// merge, and the first link given stays.
pub open spec fn merged_report(
    known: Option<(PrChecksStatus, Option<Seq<char>>)>,
    state: PrChecksStatus,
    url: Option<Seq<char>>,
) -> (PrChecksStatus, Option<Seq<char>>) {
    match known {
        Some((s, u)) => (merged_state(s, state), if u is Some {
            u
        } else {
            url
        }),
        None => (state, url),
    }
}

proof fn lemma_item_named_at(items: Seq<PrCheckItem>, k: int)
    requires
        ascending(item_names(items)),
        0 <= k < items.len(),
    ensures
        item_named(items, items[k].name@) == Some((items[k].state, opt_view(items[k].url))),
{
    let n = items[k].name@;
    assert(item_names(items)[k] == n);
    assert(exists|i: int| 0 <= i < items.len() && #[trigger] items[i].name@ == n);
    assert forall|i: int| 0 <= i < items.len() && #[trigger] items[i].name@ == n implies i == k by {
        if i != k {
            assert(item_names(items)[i] == n);
            if i < k {
                assert(text_less(item_names(items)[i], item_names(items)[k]));
            } else {
                assert(text_less(item_names(items)[k], item_names(items)[i]));
            }
            lemma_text_less_total(n, n);
        }
    }
}

proof fn lemma_ascending_insert(v: Seq<Seq<char>>, p: int, x: Seq<char>)
    requires
        ascending(v),
        0 <= p <= v.len(),
        forall|k: int| 0 <= k < p ==> text_less(#[trigger] v[k], x),
        p < v.len() ==> text_less(x, v[p]),
    ensures
        ascending(v.insert(p, x)),
        forall|k: int| 0 <= k < v.len() ==> #[trigger] v[k] != x,
{
    let w = v.insert(p, x);
    assert forall|i: int, j: int| 0 <= i < j < w.len() implies text_less(
        #[trigger] w[i],
        #[trigger] w[j],
    ) by {
        if i < p && j == p {
        } else if i < p && j > p {
            if j - 1 == p {
                lemma_text_less_transitive(v[i], x, v[p]);
            } else {
                assert(text_less(v[i], v[j - 1]));
            }
        } else if i == p {
            if j - 1 > p {
                assert(text_less(v[p], v[j - 1]));
                lemma_text_less_transitive(x, v[p], v[j - 1]);
            }
        } else if i > p {
            assert(text_less(v[i - 1], v[j - 1]));
        } else {
            assert(text_less(v[i], v[j]));
        }
    }
    assert forall|k: int| 0 <= k < v.len() implies #[trigger] v[k] != x by {
        lemma_text_less_total(x, x);
        if k > p {
            assert(text_less(v[p], v[k]));
            lemma_text_less_transitive(x, v[p], v[k]);
        }
    }
}

/// Merge one report of a check into the items, kept in ascending order of
/// name: an item of that name gets the merged state (and the link, if it
/// had none); else a new item is put in its place.
pub fn merge_pr_check_item(
    items: &mut Vec<PrCheckItem>,
    name: String,
    state: PrChecksStatus,
    url: Option<String>,
)
    requires
        ascending(item_names(old(items)@)),
    ensures
        ascending(item_names(final(items)@)),
        forall|n: Seq<char>|
            #![trigger item_named(final(items)@, n)]
            item_named(final(items)@, n) == if n == name@ {
                Some(merged_report(item_named(old(items)@, n), state, opt_view(url)))
            } else {
                item_named(old(items)@, n)
            },
{
    let ghost old_items = items@;
    let ghost old_names = item_names(items@);
    let mut p: usize = 0;
    while p < items.len() && text_lt(items[p].name.as_str(), name.as_str())
        invariant
            old_items == items@,
            old_names == item_names(items@),
            p <= items@.len(),
            forall|k: int| 0 <= k < p ==> text_less(#[trigger] old_names[k], name@),
        decreases items@.len() - p,
    {
        assert(old_names[p as int] == items@[p as int].name@);
        p += 1;
    }
    if p < items.len() && str_eq(items[p].name.as_str(), name.as_str()) {
        let current = &items[p];
        let merged = merge_pr_check_states(current.state, state);
        let link = match &current.url {
            Some(u) => Some(u.clone()),
            None => url,
        };
        let updated = PrCheckItem { name: current.name.clone(), state: merged, url: link };
        proof {
            lemma_item_named_at(old_items, p as int);
        }
        items.set(p, updated);
        let ghost new_items = items@;
        assert(item_names(new_items) =~= old_names);
        assert forall|n: Seq<char>|
            #![trigger item_named(new_items, n)]
            item_named(new_items, n) == if n == name@ {
                Some(merged_report(item_named(old_items, n), state, opt_view(url)))
            } else {
                item_named(old_items, n)
            } by {
            if n == name@ {
                lemma_item_named_at(new_items, p as int);
            } else {
                if exists|i: int| 0 <= i < old_items.len() && #[trigger] old_items[i].name@ == n {
                    let i = choose|i: int|
                        0 <= i < old_items.len() && #[trigger] old_items[i].name@ == n;
                    lemma_item_named_at(old_items, i);
                    assert(new_items[i] == old_items[i]);
                    lemma_item_named_at(new_items, i);
                } else {
                    assert forall|i: int| 0 <= i < new_items.len() implies #[trigger] new_items[i].name@
                        != n by {
                        if i != p {
                            assert(new_items[i] == old_items[i]);
                        }
                    }
                }
            }
        }
        return ;
    }
    if p < items.len() {
        proof {
            assert(old_names[p as int] == items@[p as int].name@);
            lemma_text_less_total(old_names[p as int], name@);
        }
    }
    proof {
        lemma_ascending_insert(old_names, p as int, name@);
    }
    let ghost url_view = opt_view(url);
    let ghost name_view = name@;
    let item = PrCheckItem { name, state, url };
    items.insert(p, item);
    let ghost new_items = items@;
    assert(item_names(new_items) =~= old_names.insert(p as int, name_view));
    assert forall|n: Seq<char>|
        #![trigger item_named(new_items, n)]
        item_named(new_items, n) == if n == name_view {
            Some(merged_report(item_named(old_items, n), state, url_view))
        } else {
            item_named(old_items, n)
        } by {
        if n == name_view {
            lemma_item_named_at(new_items, p as int);
            assert forall|i: int| 0 <= i < old_items.len() implies #[trigger] old_items[i].name@
                != n by {
                assert(old_names[i] == old_items[i].name@);
            }
        } else {
            if exists|i: int| 0 <= i < old_items.len() && #[trigger] old_items[i].name@ == n {
                let i = choose|i: int|
                    0 <= i < old_items.len() && #[trigger] old_items[i].name@ == n;
                lemma_item_named_at(old_items, i);
                if i < p {
                    assert(new_items[i] == old_items[i]);
                    lemma_item_named_at(new_items, i);
                } else {
                    assert(new_items[i + 1] == old_items[i]);
                    lemma_item_named_at(new_items, i + 1);
                }
            } else {
                assert forall|i: int| 0 <= i < new_items.len() implies #[trigger] new_items[i].name@
                    != n by {
                    if i < p {
                        assert(new_items[i] == old_items[i]);
                    } else if i > p {
                        assert(new_items[i] == old_items[i - 1]);
                    }
                }
            }
        }
    }
}

/// One report of a check: name, state and link.
pub open spec fn check_run_report(run: CheckRunInfo) -> (Seq<char>, PrChecksStatus, Option<
    Seq<char>,
>) {
    (run.name@, conclusion_state(opt_view(run.conclusion)), if run.details_url is Some {
        opt_view(run.details_url)
    } else {
        opt_view(run.html_url)
    })
}

/// The state of a workflow run: pending until completed, then by its
/// conclusion.
pub open spec fn workflow_state(run: WorkflowRunInfo) -> PrChecksStatus {
    if run.status@ != "completed"@ {
        PrChecksStatus::Pending
    } else {
        conclusion_state(opt_view(run.conclusion))
    }
}

/// The report of a workflow run.
pub open spec fn workflow_run_report(run: WorkflowRunInfo) -> (Seq<char>, PrChecksStatus, Option<
    Seq<char>,
>) {
    (run.name@, workflow_state(run), Some(run.html_url@))
}

/// The state of a commit status.
pub open spec fn status_state(s: CommitStatusState) -> PrChecksStatus {
    match s {
        CommitStatusState::Success => PrChecksStatus::Passed,
        CommitStatusState::Failure | CommitStatusState::Error => PrChecksStatus::Failed,
        CommitStatusState::Pending => PrChecksStatus::Pending,
        CommitStatusState::Other => PrChecksStatus::NoChecks,
    }
}

/// The reports of the commit statuses that carry a context, in order.
pub open spec fn status_reports(statuses: Seq<CommitStatusInfo>) -> Seq<
    (Seq<char>, PrChecksStatus, Option<Seq<char>>),
>
    decreases statuses.len(),
{
    if statuses.len() == 0 {
        Seq::empty()
    } else {
        let before = status_reports(statuses.drop_last());
        let last = statuses.last();
        match last.context {
            Some(c) => before.push((c@, status_state(last.state), opt_view(last.target_url))),
            None => before,
        }
    }
}

/// Every report of the checks on a commit, in the order they are merged:
/// check runs, then workflow runs, then commit statuses.
pub open spec fn all_reports(
    check_runs: Seq<CheckRunInfo>,
    workflow_runs: Seq<WorkflowRunInfo>,
    statuses: Seq<CommitStatusInfo>,
) -> Seq<(Seq<char>, PrChecksStatus, Option<Seq<char>>)> {
    check_runs.map_values(|r: CheckRunInfo| check_run_report(r)) + workflow_runs.map_values(
        |r: WorkflowRunInfo| workflow_run_report(r),
    ) + status_reports(statuses)
}

/// What the reports say of the check named `n`: nothing when none names
/// it, else their states merged and the first link given.
pub open spec fn summary_of(reports: Seq<(Seq<char>, PrChecksStatus, Option<Seq<char>>)>, n: Seq<
    char,
>) -> Option<(PrChecksStatus, Option<Seq<char>>)>
    decreases reports.len(),
{
    if reports.len() == 0 {
        None
    } else {
        let before = summary_of(reports.drop_last(), n);
        let last = reports.last();
        if last.0 == n {
            Some(merged_report(before, last.1, last.2))
        } else {
            before
        }
    }
}

proof fn lemma_summary_step(
    done: Seq<(Seq<char>, PrChecksStatus, Option<Seq<char>>)>,
    next: (Seq<char>, PrChecksStatus, Option<Seq<char>>),
    n: Seq<char>,
)
    ensures
        summary_of(done.push(next), n) == if next.0 == n {
            Some(merged_report(summary_of(done, n), next.1, next.2))
        } else {
            summary_of(done, n)
        },
{
    assert(done.push(next).drop_last() =~= done);
}

fn merge_report(
    items: &mut Vec<PrCheckItem>,
    name: String,
    state: PrChecksStatus,
    url: Option<String>,
    Ghost(done): Ghost<Seq<(Seq<char>, PrChecksStatus, Option<Seq<char>>)>>,
)
    requires
        ascending(item_names(old(items)@)),
        forall|n: Seq<char>| #[trigger] item_named(old(items)@, n) == summary_of(done, n),
    ensures
        ascending(item_names(final(items)@)),
        forall|n: Seq<char>|
            #[trigger] item_named(final(items)@, n) == summary_of(
                done.push((name@, state, opt_view(url))),
                n,
            ),
{
    let ghost entry = (name@, state, opt_view(url));
    merge_pr_check_item(items, name, state, url);
    assert forall|n: Seq<char>| #[trigger]
        item_named(items@, n) == summary_of(done.push(entry), n) by {
        lemma_summary_step(done, entry, n);
    }
}

/// The checks on a commit, one item per name in ascending order of name,
/// each with the merged state of its reports and the first link given.
pub fn collect_github_check_items(
    check_runs: &[CheckRunInfo],
    workflow_runs: &[WorkflowRunInfo],
    statuses: &[CommitStatusInfo],
) -> (r: Vec<PrCheckItem>)
    ensures
        ascending(item_names(r@)),
        forall|n: Seq<char>|
            #[trigger] item_named(r@, n) == summary_of(
                all_reports(check_runs@, workflow_runs@, statuses@),
                n,
            ),
{
    let ghost runs = check_runs@.map_values(|r: CheckRunInfo| check_run_report(r));
    let ghost wf = workflow_runs@.map_values(|r: WorkflowRunInfo| workflow_run_report(r));
    let mut items: Vec<PrCheckItem> = Vec::new();
    assert(item_names(items@) =~= Seq::<Seq<char>>::empty());
    assert forall|n: Seq<char>| #[trigger]
        item_named(items@, n) == summary_of(runs.take(0), n) by {
        assert(runs.take(0).len() == 0);
    }
    let mut i: usize = 0;
    while i < check_runs.len()
        invariant
            runs == check_runs@.map_values(|r: CheckRunInfo| check_run_report(r)),
            i <= check_runs@.len(),
            ascending(item_names(items@)),
            forall|n: Seq<char>| #[trigger] item_named(items@, n) == summary_of(runs.take(i as int), n),
        decreases check_runs@.len() - i,
    {
        let run = &check_runs[i];
        let state = check_run_state(run);
        let url = match &run.details_url {
            Some(u) => Some(u.clone()),
            None => match &run.html_url {
                Some(u) => Some(u.clone()),
                None => None,
            },
        };
        assert(runs.take(i + 1) =~= runs.take(i as int).push(runs[i as int]));
        merge_report(&mut items, run.name.clone(), state, url, Ghost(runs.take(i as int)));
        i += 1;
    }
    assert(runs.take(check_runs@.len() as int) =~= runs);
    let mut i: usize = 0;
    assert(runs + wf.take(0) =~= runs);
    while i < workflow_runs.len()
        invariant
            runs == check_runs@.map_values(|r: CheckRunInfo| check_run_report(r)),
            wf == workflow_runs@.map_values(|r: WorkflowRunInfo| workflow_run_report(r)),
            i <= workflow_runs@.len(),
            ascending(item_names(items@)),
            forall|n: Seq<char>| #[trigger]
                item_named(items@, n) == summary_of(runs + wf.take(i as int), n),
        decreases workflow_runs@.len() - i,
    {
        let run = &workflow_runs[i];
        let state = workflow_run_state(run);
        let url = Some(run.html_url.clone());
        assert(runs + wf.take(i + 1) =~= (runs + wf.take(i as int)).push(wf[i as int]));
        merge_report(&mut items, run.name.clone(), state, url, Ghost(runs + wf.take(i as int)));
        i += 1;
    }
    assert(wf.take(workflow_runs@.len() as int) =~= wf);
    let ghost head = runs + wf;
    let mut i: usize = 0;
    assert(statuses@.take(0) =~= Seq::<CommitStatusInfo>::empty());
    assert(head + status_reports(statuses@.take(0)) =~= head);
    while i < statuses.len()
        invariant
            head == runs + wf,
            runs == check_runs@.map_values(|r: CheckRunInfo| check_run_report(r)),
            wf == workflow_runs@.map_values(|r: WorkflowRunInfo| workflow_run_report(r)),
            i <= statuses@.len(),
            ascending(item_names(items@)),
            forall|n: Seq<char>| #[trigger]
                item_named(items@, n) == summary_of(
                    head + status_reports(statuses@.take(i as int)),
                    n,
                ),
        decreases statuses@.len() - i,
    {
        let status = &statuses[i];
        let ghost done = head + status_reports(statuses@.take(i as int));
        assert(statuses@.take(i + 1).drop_last() =~= statuses@.take(i as int));
        match &status.context {
            Some(context) => {
                let state = commit_status_state(status);
                let url = match &status.target_url {
                    Some(u) => Some(u.clone()),
                    None => None,
                };
                assert(head + status_reports(statuses@.take(i + 1)) =~= done.push(
                    (context@, state, opt_view(url)),
                ));
                merge_report(&mut items, context.clone(), state, url, Ghost(done));
            },
            None => {
                assert(head + status_reports(statuses@.take(i + 1)) =~= done);
            },
        }
        i += 1;
    }
    assert(statuses@.take(statuses@.len() as int) =~= statuses@);
    items
}

/// Whether a pull request comes from a fork: its head repository's full
/// name differs from the base's, or, when the name is unknown, the head
/// repository says it is a fork.
pub fn is_fork_pr(head_repo_full_name: Option<&str>, head_repo_fork: Option<bool>, base_full_name: &str) -> (r: bool)
    ensures
        r == match head_repo_full_name {
            Some(name) => name@ != base_full_name@,
            None => head_repo_fork == Some(true),
        },
{
    match head_repo_full_name {
        Some(name) => !str_eq(name, base_full_name),
        None => match head_repo_fork {
            Some(fork) => fork,
            None => false,
        },
    }
}

/// What was fetched of a pull request's head for its checks report.
#[derive(Debug, Clone)]
pub struct ChecksInputs {
    pub head_sha: String,
    pub base_ref: String,
    pub head_ref: String,
    pub is_fork: bool,
    /// The `status` of each check suite of the head commit.
    pub suite_statuses: Vec<Option<String>>,
    pub check_runs: Vec<CheckRunInfo>,
    pub workflow_runs: Vec<WorkflowRunInfo>,
    pub statuses: Vec<CommitStatusInfo>,
    /// Contexts that the branch rulesets require.
    pub ruleset_contexts: Vec<String>,
    /// Contexts that classic branch protection requires.
    pub classic_contexts: Vec<String>,
    /// The workflow files at the head, each with its path.
    pub workflow_specs: Vec<WorkflowSpec>,
    /// Paths of workflows that are disabled.
    pub disabled_workflow_paths: Vec<String>,
    /// Warnings of the fetches of rulesets, protection and workflow files.
    pub fetch_warnings: Vec<String>,
    /// Warnings of reading the workflow files.
    pub workflow_warnings: Vec<String>,
}

/// A workflow is expected to report on the pull request: it is not
/// disabled, the pull request is not from a fork, and it runs for it.
pub open spec fn workflow_expected(
    spec: WorkflowSpec,
    disabled: Seq<Seq<char>>,
    is_fork: bool,
    base: Seq<char>,
    head: Seq<char>,
) -> bool {
    !disabled.contains(spec.path@) && !is_fork && workflow_runs_for(spec.on, base, head)
}

/// The name a workflow's checks register under.
pub open spec fn resolved_name_of(spec: WorkflowSpec) -> Seq<char> {
    match spec.name {
        Some(n) => n@,
        None => spec.path@,
    }
}

/// The names of the expected workflows, in order.
pub open spec fn expected_workflow_names(
    specs: Seq<WorkflowSpec>,
    disabled: Seq<Seq<char>>,
    is_fork: bool,
    base: Seq<char>,
    head: Seq<char>,
) -> Seq<Seq<char>>
    decreases specs.len(),
{
    if specs.len() == 0 {
        Seq::empty()
    } else {
        let before = expected_workflow_names(specs.drop_last(), disabled, is_fork, base, head);
        if workflow_expected(specs.last(), disabled, is_fork, base, head) {
            before.push(resolved_name_of(specs.last()))
        } else {
            before
        }
    }
}

/// A check suite status that counts as activity: queued, running or done
/// well.
pub open spec fn active_suite(status: Option<String>) -> bool {
    status matches Some(s) && (pending_state(s@) || pass_state(s@))
}

/// Some check suite is active.
pub open spec fn suite_active(suites: Seq<Option<String>>) -> bool {
    exists|i: int| 0 <= i < suites.len() && #[trigger] active_suite(suites[i])
}

/// The warning added for pull requests from forks.
pub open spec fn fork_warning() -> Seq<char> {
    "fork PR: workflow-derived expectations may not run for first-time contributors"@
}

fn workflow_expected_names(inputs: &ChecksInputs) -> (r: Vec<String>)
    ensures
        string_views(r@) == expected_workflow_names(
            inputs.workflow_specs@,
            string_views(inputs.disabled_workflow_paths@),
            inputs.is_fork,
            inputs.base_ref@,
            inputs.head_ref@,
        ),
{
    let ghost disabled = string_views(inputs.disabled_workflow_paths@);
    let mut out: Vec<String> = Vec::new();
    let mut i: usize = 0;
    assert(inputs.workflow_specs@.take(0) =~= Seq::<WorkflowSpec>::empty());
    assert(string_views(out@) =~= Seq::<Seq<char>>::empty());
    while i < inputs.workflow_specs.len()
        invariant
            disabled == string_views(inputs.disabled_workflow_paths@),
            i <= inputs.workflow_specs@.len(),
            string_views(out@) == expected_workflow_names(
                inputs.workflow_specs@.take(i as int),
                disabled,
                inputs.is_fork,
                inputs.base_ref@,
                inputs.head_ref@,
            ),
        decreases inputs.workflow_specs@.len() - i,
    {
        let spec = &inputs.workflow_specs[i];
        assert(inputs.workflow_specs@.take(i + 1).drop_last() =~= inputs.workflow_specs@.take(
            i as int,
        ));
        let ghost before = string_views(out@);
        let selected = !has_name(inputs.disabled_workflow_paths.as_slice(), spec.path.as_str())
            && !inputs.is_fork && workflow_matches_pr(
            spec,
            inputs.base_ref.as_str(),
            inputs.head_ref.as_str(),
        );
        if selected {
            let name = spec.resolved_name();
            out.push(name);
            assert(string_views(out@) =~= before.push(resolved_name_of(*spec)));
        }
        i += 1;
    }
    assert(inputs.workflow_specs@.take(inputs.workflow_specs@.len() as int)
        =~= inputs.workflow_specs@);
    out
}

fn any_suite_active(suites: &Vec<Option<String>>) -> (r: bool)
    ensures
        r == suite_active(suites@),
{
    let mut i: usize = 0;
    while i < suites.len()
        invariant
            i <= suites@.len(),
            forall|k: int| 0 <= k < i ==> !#[trigger] active_suite(suites@[k]),
        decreases suites@.len() - i,
    {
        match &suites[i] {
            Some(status) => {
                if is_pending_state(status.as_str()) || is_pass_state(status.as_str()) {
                    assert(active_suite(suites@[i as int]));
                    return true;
                }
            },
            None => {},
        }
        i += 1;
    }
    false
}

/// The checks report of a pull request from what was fetched of it: the
/// expected names (required contexts and expected workflows), the
/// registered names, one item per check, their roll-up, and the warnings.
pub fn build_checks_report(inputs: &ChecksInputs) -> (r: crate::backend::PrChecksReport)
    ensures
        r.head_sha@ == inputs.head_sha@,
        ascending(string_views(r.expected@)),
        forall|n: Seq<char>|
            #![trigger string_views(r.expected@).contains(n)]
            string_views(r.expected@).contains(n) <==> (string_views(
                inputs.ruleset_contexts@,
            ).contains(n) || string_views(inputs.classic_contexts@).contains(n)
                || expected_workflow_names(
                inputs.workflow_specs@,
                string_views(inputs.disabled_workflow_paths@),
                inputs.is_fork,
                inputs.base_ref@,
                inputs.head_ref@,
            ).contains(n)),
        ascending(string_views(r.registered@)),
        forall|n: Seq<char>|
            #![trigger string_views(r.registered@).contains(n)]
            string_views(r.registered@).contains(n) <==> registered_name(
                inputs.check_runs@,
                inputs.workflow_runs@,
                inputs.statuses@,
                n,
            ),
        ascending(item_names(r.items@)),
        forall|n: Seq<char>|
            #[trigger] item_named(r.items@, n) == summary_of(
                all_reports(inputs.check_runs@, inputs.workflow_runs@, inputs.statuses@),
                n,
            ),
        r.status == rollup_status(
            string_views(r.expected@),
            string_views(r.registered@),
            r.items@,
            suite_active(inputs.suite_statuses@),
        ),
        string_views(r.warnings@) == string_views(inputs.fetch_warnings@) + (if inputs.is_fork {
            seq![fork_warning()]
        } else {
            Seq::empty()
        }) + string_views(inputs.workflow_warnings@),
{
    let mut warnings = crate::text::clone_strings(&inputs.fetch_warnings);
    let ghost after_fetch = string_views(warnings@);
    if inputs.is_fork {
        warnings.push(
            String::from_str(
                "fork PR: workflow-derived expectations may not run for first-time contributors",
            ),
        );
        assert(string_views(warnings@) =~= after_fetch.push(fork_warning()));
    }
    let ghost after_fork = string_views(warnings@);
    let mut i: usize = 0;
    while i < inputs.workflow_warnings.len()
        invariant
            i <= inputs.workflow_warnings@.len(),
            string_views(warnings@) == after_fork + string_views(inputs.workflow_warnings@).take(
                i as int,
            ),
        decreases inputs.workflow_warnings@.len() - i,
    {
        let ghost before = warnings@;
        let c = inputs.workflow_warnings[i].clone();
        assert(c@ == inputs.workflow_warnings@[i as int]@);
        warnings.push(c);
        assert(warnings@ == before.push(c));
        assert(string_views(warnings@) =~= string_views(before).push(c@));
        assert(string_views(inputs.workflow_warnings@).take(i + 1) =~= string_views(
            inputs.workflow_warnings@,
        ).take(i as int).push(c@));
        assert(string_views(warnings@) =~= after_fork + string_views(
            inputs.workflow_warnings@,
        ).take(i + 1));
        i += 1;
    }
    assert(string_views(inputs.workflow_warnings@).take(inputs.workflow_warnings@.len() as int)
        =~= string_views(inputs.workflow_warnings@));
    assert(string_views(warnings@) =~= string_views(inputs.fetch_warnings@) + (if inputs.is_fork {
        seq![fork_warning()]
    } else {
        Seq::empty()
    }) + string_views(inputs.workflow_warnings@));
    let wf_names = workflow_expected_names(inputs);
    let expected = merge_expected_names([
        crate::text::clone_strings(&inputs.ruleset_contexts),
        crate::text::clone_strings(&inputs.classic_contexts),
        wf_names,
    ]);
    let registered = collect_registered_names(
        inputs.check_runs.as_slice(),
        inputs.workflow_runs.as_slice(),
        inputs.statuses.as_slice(),
    );
    let suite_activity = any_suite_active(&inputs.suite_statuses);
    let items = collect_github_check_items(
        inputs.check_runs.as_slice(),
        inputs.workflow_runs.as_slice(),
        inputs.statuses.as_slice(),
    );
    let status = rollup_report_status(
        expected.as_slice(),
        registered.as_slice(),
        items.as_slice(),
        suite_activity,
    );
    crate::backend::PrChecksReport {
        head_sha: inputs.head_sha.clone(),
        expected,
        registered,
        items,
        status,
        warnings,
    }
}

} // verus!
