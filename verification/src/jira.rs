//! Jira: the issue records its REST API returns, how its statuses and
//! resolutions map to the tracker's states, and which workflow transition
//! moves an issue to a state.

use crate::backend::BackendIssueRecord;
use crate::domain::IssueState;
use crate::error::RiptskError;
use crate::text::{
    clone_opt_string, clone_strings, concat2, contains, has_prefix, opt_view, parse_u64,
    str_contains, str_eq, str_parse_u64, str_starts_with, string_views, to_lowercase,
    trim_end_char, trim_end_matches_char, unicode_lowercase,
};
use crate::timestamps::{jira_time_as_rfc3339, jira_time_to_rfc3339};
use vstd::prelude::*;

verus! {

/// How to authenticate to Jira.
#[derive(Debug)]
pub enum JiraAuth {
    /// Jira Cloud: e-mail and API token (HTTP Basic).
    Basic { email: String, token: String },
    /// Jira Server/DC: personal access token (HTTP Bearer).
    Pat(String),
}

/// An issue as the Jira API v2 returns it.
#[derive(Debug)]
pub struct JiraIssue {
    pub id: String,
    pub key: String,
    pub fields: JiraFields,
}

#[derive(Debug)]
pub struct JiraFields {
    pub summary: String,
    pub description: Option<String>,
    pub status: JiraStatus,
    pub resolution: Option<JiraResolution>,
    pub labels: Vec<String>,
    pub assignee: Option<JiraUser>,
    pub fix_versions: Vec<JiraVersion>,
    pub issue_type: JiraIssueType,
    pub priority: Option<JiraPriority>,
    pub duedate: Option<String>,
    pub security: Option<JiraSecurityLevel>,
    pub comment: Option<JiraCommentPage>,
    pub updated: String,
    pub created: String,
}

#[derive(Debug)]
pub struct JiraStatus {
    pub name: String,
    pub status_category: JiraStatusCategory,
}

#[derive(Debug)]
pub struct JiraStatusCategory {
    pub key: String,
    pub name: String,
}

#[derive(Debug)]
pub struct JiraResolution {
    pub name: String,
}

#[derive(Debug)]
pub struct JiraUser {
    pub display_name: String,
    pub account_id: Option<String>,
    pub name: Option<String>,
}

#[derive(Debug)]
pub struct JiraVersion {
    pub id: String,
    pub name: String,
}

#[derive(Debug)]
pub struct JiraIssueType {
    pub name: String,
    pub subtask: bool,
}

#[derive(Debug)]
pub struct JiraPriority {
    pub name: String,
}

#[derive(Debug)]
pub struct JiraSecurityLevel {
    pub name: String,
}

#[derive(Debug)]
pub struct JiraCommentPage {
    pub comments: Vec<JiraComment>,
}

#[derive(Debug)]
pub struct JiraComment {
    pub body: String,
}

/// A workflow transition offered for an issue.
#[derive(Debug)]
pub struct JiraTransition {
    pub id: String,
    pub name: String,
    pub to: JiraTransitionTarget,
    pub has_screen: bool,
    pub is_available: bool,
    /// The transition screen's fields, when Jira sent them as an object:
    /// each field's key and whether it is required.
    pub fields: Option<Vec<(String, bool)>>,
}

#[derive(Debug)]
pub struct JiraTransitionTarget {
    pub name: String,
    pub status_category: JiraStatusCategory,
}

#[derive(Debug)]
pub struct JiraTransitionsResponse {
    pub transitions: Vec<JiraTransition>,
}

#[derive(Debug)]
pub struct JiraSearchResult {
    pub issues: Vec<JiraIssue>,
    pub total: u64,
}

#[derive(Debug)]
pub struct JiraCreateResponse {
    pub id: String,
    pub key: String,
    pub self_url: String,
}

/// The record state for a status category: `done` is closed, any other
/// category open.
pub open spec fn backend_state_of(category: Seq<char>) -> Seq<char> {
    if category == "done"@ {
        "closed"@
    } else {
        "open"@
    }
}

/// Map a Jira status category key to the record state (`open`/`closed`).
pub fn jira_status_to_backend_state(status_category_key: &str) -> (r: &'static str)
    ensures
        r@ == backend_state_of(status_category_key@),
{
    if str_eq(status_category_key, "done") {
        "closed"
    } else {
        "open"
    }
}

/// The `status::` label for a status category and status name: `new` is
/// backlog or todo, `indeterminate` review or in-progress, `done` done, any
/// other category backlog.
pub open spec fn status_label_of(category: Seq<char>, name: Seq<char>) -> Seq<char> {
    let lower = unicode_lowercase(name);
    if category == "new"@ {
        if contains(lower, "backlog"@) {
            "status::backlog"@
        } else {
            "status::todo"@
        }
    } else if category == "indeterminate"@ {
        if contains(lower, "review"@) || contains(lower, "qa"@) {
            "status::review"@
        } else {
            "status::in-progress"@
        }
    } else if category == "done"@ {
        "status::done"@
    } else {
        "status::backlog"@
    }
}

/// Map a Jira status category key and status name to a `status::` label.
pub fn jira_status_to_label(status_category_key: &str, status_name: &str) -> (r: String)
    ensures
        r@ == status_label_of(status_category_key@, status_name@),
{
    let lower = to_lowercase(status_name);
    let lower = lower.as_str();
    if str_eq(status_category_key, "new") {
        if str_contains(lower, "backlog") {
            String::from_str("status::backlog")
        } else {
            String::from_str("status::todo")
        }
    } else if str_eq(status_category_key, "indeterminate") {
        if str_contains(lower, "review") || str_contains(lower, "qa") {
            String::from_str("status::review")
        } else {
            String::from_str("status::in-progress")
        }
    } else if str_eq(status_category_key, "done") {
        String::from_str("status::done")
    } else {
        String::from_str("status::backlog")
    }
}

/// The close reason for a Jira resolution: won't-do is not planned,
/// duplicate is duplicate, anything else completed.
pub open spec fn state_reason_of(resolution: Seq<char>) -> Seq<char> {
    if resolution == "Won't Do"@ || resolution == "Wont Do"@ {
        "not_planned"@
    } else if resolution == "Duplicate"@ {
        "duplicate"@
    } else {
        "completed"@
    }
}

/// Map a Jira resolution name to a close reason (pull direction).
pub fn jira_resolution_to_state_reason(resolution: Option<&str>) -> (r: Option<String>)
    ensures
        match resolution {
            Some(name) => r matches Some(s) && s@ == state_reason_of(name@),
            None => r.is_none(),
        },
{
    match resolution {
        Some(name) => {
            if str_eq(name, "Won't Do") || str_eq(name, "Wont Do") {
                Some(String::from_str("not_planned"))
            } else if str_eq(name, "Duplicate") {
                Some(String::from_str("duplicate"))
            } else {
                Some(String::from_str("completed"))
            }
        },
        None => None,
    }
}

/// The Jira resolution for a close reason: not planned is won't-do,
/// duplicate is duplicate, anything else (or none) done.
pub open spec fn resolution_of(reason: Option<Seq<char>>) -> Seq<char> {
    match reason {
        Some(r) => if r == "not_planned"@ {
            "Won't Do"@
        } else if r == "duplicate"@ {
            "Duplicate"@
        } else {
            "Done"@
        },
        None => "Done"@,
    }
}

/// Map a close reason to a Jira resolution name (push direction).
pub fn state_reason_to_jira_resolution(reason: Option<&str>) -> (r: &'static str)
    ensures
        r@ == resolution_of(
            match reason {
                Some(x) => Some(x@),
                None => None,
            },
        ),
{
    match reason {
        Some(x) => {
            if str_eq(x, "not_planned") {
                "Won't Do"
            } else if str_eq(x, "duplicate") {
                "Duplicate"
            } else {
                "Done"
            }
        },
        None => "Done",
    }
}

proof fn lemma_literal_facts()
    ensures
        "Won't Do"@ != "Wont Do"@,
        "Won't Do"@ != "Duplicate"@,
        "Won't Do"@ != "Done"@,
        "Duplicate"@ != "Done"@,
        "Wont Do"@ != "Duplicate"@,
        "Wont Do"@ != "Done"@,
        "not_planned"@ != "duplicate"@,
        "not_planned"@ != "completed"@,
        "duplicate"@ != "completed"@,
{
    reveal_strlit("Won't Do");
    reveal_strlit("Wont Do");
    reveal_strlit("Duplicate");
    reveal_strlit("Done");
    reveal_strlit("not_planned");
    reveal_strlit("duplicate");
    reveal_strlit("completed");
    assert("Won't Do"@[3] != "Wont Do"@[3]);
    assert("Won't Do"@.len() != "Duplicate"@.len());
    assert("Won't Do"@.len() != "Done"@.len());
    assert("Duplicate"@.len() != "Done"@.len());
    assert("Wont Do"@.len() != "Duplicate"@.len());
    assert("Wont Do"@.len() != "Done"@.len());
    assert("not_planned"@.len() != "duplicate"@.len());
    assert("not_planned"@.len() != "completed"@.len());
    assert("duplicate"@[0] != "completed"@[0]);
}

/// Pushing the close reason that a resolution maps to gives back the same
/// resolution, for the three resolutions that the tracker names.
pub proof fn lemma_resolution_round_trip(resolution: Seq<char>)
    requires
        resolution == "Won't Do"@ || resolution == "Duplicate"@ || resolution == "Done"@,
    ensures
        resolution_of(Some(state_reason_of(resolution))) == resolution,
{
    lemma_literal_facts();
}

/// Pulling the resolution that a close reason maps to gives back the same
/// close reason, for the three close reasons that Jira can hold.
pub proof fn lemma_state_reason_round_trip(reason: Seq<char>)
    requires
        reason == "not_planned"@ || reason == "duplicate"@ || reason == "completed"@,
    ensures
        state_reason_of(resolution_of(Some(reason))) == reason,
{
    lemma_literal_facts();
}

/// The status category a state belongs to.
pub open spec fn target_category(target: IssueState) -> Seq<char> {
    match target {
        IssueState::Backlog | IssueState::Todo => "new"@,
        IssueState::InProgress | IssueState::Review => "indeterminate"@,
        IssueState::Done => "done"@,
    }
}

fn target_category_str(target: IssueState) -> (r: &'static str)
    ensures
        r@ == target_category(target),
{
    match target {
        IssueState::Backlog | IssueState::Todo => "new",
        IssueState::InProgress | IssueState::Review => "indeterminate",
        IssueState::Done => "done",
    }
}

/// A status name that suits the state.
pub open spec fn name_fits_state(status_name: Seq<char>, target: IssueState) -> bool {
    let lower = unicode_lowercase(status_name);
    match target {
        IssueState::Backlog => contains(lower, "backlog"@),
        IssueState::Todo => contains(lower, "to do"@) || contains(lower, "open"@),
        IssueState::InProgress => contains(lower, "progress"@),
        IssueState::Review => contains(lower, "review"@),
        IssueState::Done => true,
    }
}

pub fn name_matches_state(status_name: &str, target: &IssueState) -> (r: bool)
    ensures
        r == name_fits_state(status_name@, *target),
{
    let lower = to_lowercase(status_name);
    let lower = lower.as_str();
    match target {
        IssueState::Backlog => str_contains(lower, "backlog"),
        IssueState::Todo => str_contains(lower, "to do") || str_contains(lower, "open"),
        IssueState::InProgress => str_contains(lower, "progress"),
        IssueState::Review => str_contains(lower, "review"),
        IssueState::Done => true,
    }
}

/// A required screen field other than `resolution`.
pub open spec fn needs_unsupported_field(t: &JiraTransition) -> bool {
    match t.fields {
        Some(fs) => exists|i: int|
            0 <= i < fs@.len() && fs@[i].0@ != "resolution"@ && #[trigger] fs@[i].1,
        None => false,
    }
}

fn has_unsupported_required_fields(t: &JiraTransition) -> (r: bool)
    ensures
        r == needs_unsupported_field(t),
{
    match &t.fields {
        Some(fs) => {
            let mut i: usize = 0;
            while i < fs.len()
                invariant
                    t.fields == Some(*fs),
                    i <= fs@.len(),
                    forall|k: int| 0 <= k < i ==> !(fs@[k].0@ != "resolution"@ && #[trigger] fs@[k].1),
                decreases fs@.len() - i,
            {
                if fs[i].1 && !str_eq(fs[i].0.as_str(), "resolution") {
                    assert(fs@[i as int].0@ != "resolution"@ && fs@[i as int].1);
                    assert(exists|k: int|
                        0 <= k < fs@.len() && fs@[k].0@ != "resolution"@ && #[trigger] fs@[k].1);
                    let ghost tf = t.fields;
                    assert(tf matches Some(g) && g == *fs);

                    return true;
                }
                i += 1;
            }
            false
        },
        None => false,
    }
}

/// An available transition into the state's category.
pub open spec fn is_candidate(t: &JiraTransition, target: IssueState) -> bool {
    t.to.status_category.key@ == target_category(target) && t.is_available
}

/// A candidate that needs no unsupported screen field.
pub open spec fn is_supported(t: &JiraTransition, target: IssueState) -> bool {
    is_candidate(t, target) && !needs_unsupported_field(t)
}

/// The transitions chosen among: the supported candidates, or all
/// candidates when none is supported.
pub open spec fn in_pool(ts: Seq<JiraTransition>, target: IssueState, i: int) -> bool {
    if exists|k: int| 0 <= k < ts.len() && is_supported(&#[trigger] ts[k], target) {
        is_supported(&ts[i], target)
    } else {
        is_candidate(&ts[i], target)
    }
}

/// The first index at or after `i` in the pool whose target name suits the
/// state.
pub open spec fn first_fitting(ts: Seq<JiraTransition>, target: IssueState, i: int) -> Option<int>
    decreases ts.len() - i,
{
    if 0 <= i < ts.len() {
        if in_pool(ts, target, i) && name_fits_state(ts[i].to.name@, target) {
            Some(i)
        } else {
            first_fitting(ts, target, i + 1)
        }
    } else {
        None
    }
}

/// The first index at or after `i` in the pool.
pub open spec fn first_in_pool(ts: Seq<JiraTransition>, target: IssueState, i: int) -> Option<int>
    decreases ts.len() - i,
{
    if 0 <= i < ts.len() {
        if in_pool(ts, target, i) {
            Some(i)
        } else {
            first_in_pool(ts, target, i + 1)
        }
    } else {
        None
    }
}

/// The transition chosen for a state: the first in the pool whose target
/// name suits the state, else the first in the pool; none without a
/// candidate.
pub open spec fn chosen_transition(ts: Seq<JiraTransition>, target: IssueState) -> Option<int> {
    match first_fitting(ts, target, 0) {
        Some(i) => Some(i),
        None => first_in_pool(ts, target, 0),
    }
}

fn any_supported(ts: &Vec<JiraTransition>, target: IssueState) -> (r: bool)
    ensures
        r == exists|k: int| 0 <= k < ts@.len() && is_supported(&#[trigger] ts@[k], target),
{
    let mut i: usize = 0;
    while i < ts.len()
        invariant
            i <= ts@.len(),
            forall|k: int| 0 <= k < i ==> !is_supported(&#[trigger] ts@[k], target),
        decreases ts@.len() - i,
    {
        let t = &ts[i];
        if str_eq(t.to.status_category.key.as_str(), target_category_str(target)) && t.is_available
            && !has_unsupported_required_fields(t) {
            return true;
        }
        i += 1;
    }
    false
}

proof fn lemma_pool_nonempty_iff_candidate(ts: Seq<JiraTransition>, target: IssueState, i: int)
    requires
        0 <= i <= ts.len(),
    ensures
        first_in_pool(ts, target, i).is_none() <==> (forall|k: int| i <= k < ts.len() ==> !in_pool(ts, target, k)),
        first_in_pool(ts, target, i) matches Some(j) ==> i <= j < ts.len() && in_pool(ts, target, j),
    decreases ts.len() - i,
{
    if i < ts.len() {
        lemma_pool_nonempty_iff_candidate(ts, target, i + 1);
    }
}

proof fn lemma_fitting_bounds(ts: Seq<JiraTransition>, target: IssueState, i: int)
    requires
        0 <= i <= ts.len(),
    ensures
        first_fitting(ts, target, i) matches Some(j) ==> i <= j < ts.len(),
    decreases ts.len() - i,
{
    if i < ts.len() {
        lemma_fitting_bounds(ts, target, i + 1);
    }
}

/// A fitting transition in the pool at or after `i`, no later than `k`,
/// is found by the search from `i`.
proof fn lemma_first_fitting_reaches(ts: Seq<JiraTransition>, target: IssueState, i: int, k: int)
    requires
        0 <= i <= k < ts.len(),
        in_pool(ts, target, k),
        name_fits_state(ts[k].to.name@, target),
    ensures
        first_fitting(ts, target, i) matches Some(j) && i <= j <= k && in_pool(ts, target, j)
            && name_fits_state(ts[j].to.name@, target),
    decreases k - i,
{
    if !(in_pool(ts, target, i) && name_fits_state(ts[i].to.name@, target)) {
        lemma_first_fitting_reaches(ts, target, i + 1, k);
    }
}

/// Moving an issue through a Jira workflow prefers a transition whose
/// target status is named for the state: when the pool holds a transition
/// into a status whose lowercase name contains `backlog` (backlog),
/// `to do` or `open` (to do), `progress` (in progress) or `review`
/// (review), the chosen transition is one such, and none comes later than
/// the first such. So moving to in progress never lands in a review status
/// while an in-progress status is on offer.
pub proof fn lemma_transition_named_for_state(ts: Seq<JiraTransition>, target: IssueState, k: int)
    requires
        0 <= k < ts.len(),
        in_pool(ts, target, k),
        match target {
            IssueState::Backlog => contains(unicode_lowercase(ts[k].to.name@), "backlog"@),
            IssueState::Todo => contains(unicode_lowercase(ts[k].to.name@), "to do"@) || contains(
                unicode_lowercase(ts[k].to.name@),
                "open"@,
            ),
            IssueState::InProgress => contains(unicode_lowercase(ts[k].to.name@), "progress"@),
            IssueState::Review => contains(unicode_lowercase(ts[k].to.name@), "review"@),
            IssueState::Done => true,
        },
    ensures
        chosen_transition(ts, target) matches Some(i) && 0 <= i <= k && in_pool(ts, target, i)
            && match target {
            IssueState::Backlog => contains(unicode_lowercase(ts[i].to.name@), "backlog"@),
            IssueState::Todo => contains(unicode_lowercase(ts[i].to.name@), "to do"@) || contains(
                unicode_lowercase(ts[i].to.name@),
                "open"@,
            ),
            IssueState::InProgress => contains(unicode_lowercase(ts[i].to.name@), "progress"@),
            IssueState::Review => contains(unicode_lowercase(ts[i].to.name@), "review"@),
            IssueState::Done => true,
        },
{
    lemma_first_fitting_reaches(ts, target, 0, k);
}

/// The transition chosen for a state always leads into the state's Jira
/// status category and is available: `new` for backlog and to do,
/// `indeterminate` for in progress and review, `done` for done.
pub proof fn lemma_transition_category(ts: Seq<JiraTransition>, target: IssueState)
    ensures
        chosen_transition(ts, target) matches Some(i) ==> 0 <= i < ts.len() && ts[i].is_available
            && ts[i].to.status_category.key@ == match target {
            IssueState::Backlog | IssueState::Todo => "new"@,
            IssueState::InProgress | IssueState::Review => "indeterminate"@,
            IssueState::Done => "done"@,
        },
{
    lemma_fitting_in_pool(ts, target, 0);
    lemma_pool_nonempty_iff_candidate(ts, target, 0);
}

/// What the search for a fitting transition finds is in the pool.
proof fn lemma_fitting_in_pool(ts: Seq<JiraTransition>, target: IssueState, i: int)
    requires
        0 <= i <= ts.len(),
    ensures
        first_fitting(ts, target, i) matches Some(j) ==> i <= j < ts.len() && in_pool(ts, target, j),
    decreases ts.len() - i,
{
    if i < ts.len() {
        lemma_fitting_in_pool(ts, target, i + 1);
    }
}

/// The index of the transition to use for moving an issue to `target`;
/// an error when no available transition leads into its category.
pub fn find_transition(transitions: &Vec<JiraTransition>, target: &IssueState) -> (r: Result<usize, RiptskError>)
    ensures
        match r {
            Ok(i) => chosen_transition(transitions@, *target) == Some(i as int),
            Err(e) => chosen_transition(transitions@, *target).is_none() && e is General && e.message()
                == "no available transition to "@ + target_category(*target) + " category"@,
        },
{
    let tgt = *target;
    let cat = target_category_str(tgt);
    let supported = any_supported(transitions, tgt);
    let ghost ts = transitions@;
    let mut i: usize = 0;
    while i < transitions.len()
        invariant
            ts == transitions@,
            tgt == *target,
            supported == exists|k: int| 0 <= k < ts.len() && is_supported(&#[trigger] ts[k], tgt),
            cat@ == target_category(tgt),
            first_fitting(ts, tgt, 0) == first_fitting(ts, tgt, i as int),
        decreases ts.len() - i,
    {
        let t = &transitions[i];
        let cand = str_eq(t.to.status_category.key.as_str(), cat) && t.is_available;
        let pooled = if supported {
            cand && !has_unsupported_required_fields(t)
        } else {
            cand
        };
        assert(pooled == in_pool(ts, tgt, i as int));
        let fits = name_matches_state(t.to.name.as_str(), &tgt);
        assert(fits == name_fits_state(ts[i as int].to.name@, tgt));
        if pooled && fits {
            assert(first_fitting(ts, tgt, i as int) == Some(i as int));
            assert(chosen_transition(ts, tgt) == Some(i as int));
            return Ok(i);
        }
        i += 1;
    }
    let mut j: usize = 0;
    while j < transitions.len()
        invariant
            ts == transitions@,
            tgt == *target,
            supported == exists|k: int| 0 <= k < ts.len() && is_supported(&#[trigger] ts[k], tgt),
            cat@ == target_category(tgt),
            first_fitting(ts, tgt, 0).is_none(),
            first_in_pool(ts, tgt, 0) == first_in_pool(ts, tgt, j as int),
        decreases ts.len() - j,
    {
        let t = &transitions[j];
        let cand = str_eq(t.to.status_category.key.as_str(), cat) && t.is_available;
        let pooled = if supported {
            cand && !has_unsupported_required_fields(t)
        } else {
            cand
        };
        assert(pooled == in_pool(ts, tgt, j as int));
        if pooled {
            assert(first_in_pool(ts, tgt, j as int) == Some(j as int));
            return Ok(j);
        }
        j += 1;
    }
    Err(RiptskError::General(concat2(concat2("no available transition to ", cat).as_str(), " category")))
}

/// Labels other than `status::` ones, in order.
pub open spec fn without_status_labels(ls: Seq<Seq<char>>) -> Seq<Seq<char>>
    decreases ls.len(),
{
    if ls.len() == 0 {
        Seq::empty()
    } else {
        let rest = without_status_labels(ls.drop_last());
        if has_prefix(ls.last(), "status::"@) {
            rest
        } else {
            rest.push(ls.last())
        }
    }
}

fn retain_non_status(labels: &Vec<String>) -> (r: Vec<String>)
    ensures
        string_views(r@) == without_status_labels(string_views(labels@)),
{
    let ghost lv = string_views(labels@);
    let mut r: Vec<String> = Vec::new();
    let mut i: usize = 0;
    assert(lv.take(0) =~= Seq::<Seq<char>>::empty());
    assert(string_views(r@) =~= without_status_labels(lv.take(0)));
    while i < labels.len()
        invariant
            i <= labels@.len(),
            lv == string_views(labels@),
            string_views(r@) == without_status_labels(lv.take(i as int)),
        decreases labels@.len() - i,
    {
        assert(lv.take(i as int + 1).drop_last() =~= lv.take(i as int));
        assert(lv.take(i as int + 1).last() == labels@[i as int]@);
        if !str_starts_with(labels[i].as_str(), "status::") {
            let ghost before = r@;
            let c = labels[i].clone();
            r.push(c);
            assert(string_views(r@) =~= string_views(before).push(c@));
        }
        i += 1;
    }
    assert(lv.take(labels@.len() as int) =~= lv);
    r
}

/// The record's update time: the Jira timestamp in RFC 3339 form, or as
/// given when it is not a Jira timestamp.
pub open spec fn normalized_jira_time(ts: Seq<char>) -> Seq<char> {
    match jira_time_as_rfc3339(ts) {
        Some(s) => s,
        None => ts,
    }
}

/// Convert Jira's timestamp format to RFC 3339; anything else is kept.
pub fn normalize_jira_timestamp(jira_ts: &str) -> (r: String)
    ensures
        r@ == normalized_jira_time(jira_ts@),
{
    match jira_time_to_rfc3339(jira_ts) {
        Some(s) => s,
        None => String::from_str(jira_ts),
    }
}

/// The bodies of the comments on a page, in order.
pub open spec fn comment_bodies(page: Option<JiraCommentPage>) -> Seq<Seq<char>> {
    match page {
        Some(p) => p.comments@.map_values(|c: JiraComment| c.body@),
        None => Seq::empty(),
    }
}

/// The browse URL of an issue.
pub open spec fn browse_url(host: Seq<char>, key: Seq<char>) -> Seq<char> {
    trim_end_char(host, '/') + "/browse/"@ + key
}

/// Convert a Jira issue to the shared record.
pub fn jira_issue_to_record(issue: &JiraIssue, host: &str) -> (r: BackendIssueRecord)
    ensures
        r.issue_id == (match parse_u64(issue.id@) {
            Some(n) => n,
            None => 0,
        }),
        r.node_id.is_none(),
        r.title@ == issue.fields.summary@,
        r.state@ == backend_state_of(issue.fields.status.status_category.key@),
        opt_view(r.state_reason) == (match issue.fields.resolution {
            Some(res) => Some(state_reason_of(res.name@)),
            None => None,
        }),
        string_views(r.labels@) == without_status_labels(string_views(issue.fields.labels@)).push(
            status_label_of(issue.fields.status.status_category.key@, issue.fields.status.name@),
        ),
        string_views(r.assignees@) == (match issue.fields.assignee {
            Some(u) => seq![u.display_name@],
            None => Seq::empty(),
        }),
        opt_view(r.assignee_account_id) == (match issue.fields.assignee {
            Some(u) => opt_view(u.account_id),
            None => None,
        }),
        opt_view(r.assignee_name) == (match issue.fields.assignee {
            Some(u) => opt_view(u.name),
            None => None,
        }),
        opt_view(r.milestone) == (if issue.fields.fix_versions@.len() > 0 {
            Some(issue.fields.fix_versions@[0].name@)
        } else {
            None
        }),
        r.milestone_id == (if issue.fields.fix_versions@.len() > 0 {
            parse_u64(issue.fields.fix_versions@[0].id@)
        } else {
            None
        }),
        opt_view(r.body) == opt_view(issue.fields.description),
        r.url@ == browse_url(host@, issue.key@),
        r.updated_at@ == normalized_jira_time(issue.fields.updated@),
        opt_view(r.due_date) == opt_view(issue.fields.duedate),
        r.weight.is_none(),
        r.confidential == (if issue.fields.security.is_some() {
            Some(true)
        } else {
            None
        }),
        r.discussion_locked.is_none(),
        opt_view(r.issue_type) == Some(issue.fields.issue_type.name@),
        r.locked.is_none(),
        r.lock_reason.is_none(),
        string_views(r.comments@) == comment_bodies(issue.fields.comment),
        r.linked_mrs@.len() == 0,
{
    let f = &issue.fields;
    let category_key = f.status.status_category.key.as_str();
    let state = String::from_str(jira_status_to_backend_state(category_key));
    let status_label = jira_status_to_label(category_key, f.status.name.as_str());
    let state_reason = match &f.resolution {
        Some(res) => jira_resolution_to_state_reason(Some(res.name.as_str())),
        None => None,
    };
    let mut labels = retain_non_status(&f.labels);
    let ghost before = labels@;
    labels.push(status_label);
    assert(string_views(labels@) =~= string_views(before).push(
        status_label_of(f.status.status_category.key@, f.status.name@),
    ));
    let (assignees, assignee_account_id, assignee_name) = match &f.assignee {
        Some(u) => {
            let mut a: Vec<String> = Vec::new();
            a.push(u.display_name.clone());
            assert(string_views(a@) =~= seq![u.display_name@]);
            (a, clone_opt_string(&u.account_id), clone_opt_string(&u.name))
        },
        None => {
            let a: Vec<String> = Vec::new();
            assert(string_views(a@) =~= Seq::<Seq<char>>::empty());
            (a, None, None)
        },
    };
    let (milestone, milestone_id) = if f.fix_versions.len() > 0 {
        (Some(f.fix_versions[0].name.clone()), str_parse_u64(f.fix_versions[0].id.as_str()))
    } else {
        (None, None)
    };
    let trimmed_host = trim_end_matches_char(host, '/');
    let mut url = concat2(trimmed_host.as_str(), "/browse/");
    url.append(issue.key.as_str());
    let mut comments: Vec<String> = Vec::new();
    match &f.comment {
        Some(page) => {
            let ghost cs = page.comments@.map_values(|c: JiraComment| c.body@);
            let mut i: usize = 0;
            while i < page.comments.len()
                invariant
                    i <= page.comments@.len(),
                    cs == page.comments@.map_values(|c: JiraComment| c.body@),
                    string_views(comments@) == cs.take(i as int),
                decreases page.comments@.len() - i,
            {
                let ghost before = comments@;
                let b = page.comments[i].body.clone();
                comments.push(b);
                assert(string_views(comments@) =~= string_views(before).push(b@));
                i += 1;
                assert(string_views(comments@) =~= cs.take(i as int));
            }
            assert(cs.take(page.comments@.len() as int) =~= cs);
        },
        None => {
            assert(string_views(comments@) =~= Seq::<Seq<char>>::empty());
        },
    }
    let confidential = if f.security.is_some() {
        Some(true)
    } else {
        None
    };
    let issue_id = match str_parse_u64(issue.id.as_str()) {
        Some(n) => n,
        None => 0,
    };
    BackendIssueRecord {
        issue_id,
        node_id: None,
        title: f.summary.clone(),
        state,
        state_reason,
        labels,
        assignees,
        milestone,
        milestone_id,
        body: clone_opt_string(&f.description),
        url,
        updated_at: normalize_jira_timestamp(f.updated.as_str()),
        due_date: clone_opt_string(&f.duedate),
        weight: None,
        confidential,
        discussion_locked: None,
        issue_type: Some(f.issue_type.name.clone()),
        locked: None,
        lock_reason: None,
        comments,
        linked_mrs: Vec::new(),
        assignee_account_id,
        assignee_name,
    }
}

/// The project key of a Jira repo reference `org/KEY` (the last segment).
pub open spec fn project_key_of(repo: Seq<char>) -> Seq<char> {
    crate::text::after_last(repo, '/')
}

} // verus!
