//! Reading a GitHub Actions workflow file: the YAML document is parsed by
//! `serde_yaml_ng`; which `name:` and `on:` triggers it declares is read here.

use crate::github_checks::{BranchFilter, OnTriggers, WorkflowSpec, WorkflowTriggerMap};
use crate::text::{concat3, str_eq, string_views};
use vstd::prelude::*;

verus! {

#[verifier::external_type_specification]
#[verifier::external_body]
pub struct ExYamlValue(serde_yaml_ng::Value);

/// A YAML value, as far as a workflow file is read: strings, sequences,
/// mappings (entries in document order), tagged values, and anything else.
#[derive(Debug)]
pub enum YamlNode {
    Str(String),
    List(Vec<YamlNode>),
    Mapping(Vec<(YamlNode, YamlNode)>),
    /// A value under a `!tag` (the tag itself is not kept).
    Tagged(Box<YamlNode>),
    /// Null, booleans and numbers.
    Other,
}

/// The characters of a `YamlNode`.
pub enum YamlNodeView {
    Str(Seq<char>),
    List(Seq<YamlNodeView>),
    Mapping(Seq<(YamlNodeView, YamlNodeView)>),
    Tagged(Box<YamlNodeView>),
    Other,
}

/// The characters of a YAML value.
pub open spec fn node_view(n: YamlNode) -> YamlNodeView
    decreases n,
{
    match n {
        YamlNode::Str(s) => YamlNodeView::Str(s@),
        YamlNode::List(v) => YamlNodeView::List(
            Seq::new(
                v@.len(),
                |i: int|
                    if 0 <= i < v@.len() {
                        node_view(v@[i])
                    } else {
                        YamlNodeView::Other
                    },
            ),
        ),
        YamlNode::Mapping(m) => YamlNodeView::Mapping(
            Seq::new(
                m@.len(),
                |i: int|
                    if 0 <= i < m@.len() {
                        (node_view(m@[i].0), node_view(m@[i].1))
                    } else {
                        (YamlNodeView::Other, YamlNodeView::Other)
                    },
            ),
        ),
        YamlNode::Tagged(b) => YamlNodeView::Tagged(Box::new(node_view(*b))),
        YamlNode::Other => YamlNodeView::Other,
    }
}

/// The characters of an optional YAML value.
pub open spec fn opt_node_view(n: Option<YamlNode>) -> Option<YamlNodeView> {
    match n {
        Some(x) => Some(node_view(x)),
        None => None,
    }
}

/// The YAML document `text` parses to (as `serde_yaml_ng::Value`); `None`
/// when it is not valid YAML.
pub uninterp spec fn yaml_document_of(text: Seq<char>) -> Option<YamlNodeView>;

/// A `serde_yaml_ng::Value` as a `YamlNode`, one variant for one: strings,
/// sequences, mappings (in the mapping's order) and tagged values are kept,
/// null, booleans and numbers become `Other`.
#[verifier::external_body]
fn yaml_node(v: &serde_yaml_ng::Value) -> YamlNode {
    match v {
        serde_yaml_ng::Value::String(s) => YamlNode::Str(s.clone()),
        serde_yaml_ng::Value::Sequence(items) => YamlNode::List(items.iter().map(yaml_node).collect()),
        serde_yaml_ng::Value::Mapping(m) => YamlNode::Mapping(
            m.iter().map(|(k, x)| (yaml_node(k), yaml_node(x))).collect(),
        ),
        serde_yaml_ng::Value::Tagged(t) => YamlNode::Tagged(Box::new(yaml_node(&t.value))),
        _ => YamlNode::Other,
    }
}

/// `serde_yaml_ng::from_str::<serde_yaml_ng::Value>(text)`, the value
/// converted one for one. The contract ties the outcome to `text` through
/// `yaml_document_of`; what a text parses to is the crate's.
#[verifier::external_body]
fn yaml_document(text: &str) -> (r: Option<YamlNode>)
    ensures
        opt_node_view(r) == yaml_document_of(text@),
{
    serde_yaml_ng::from_str::<serde_yaml_ng::Value>(text).ok().map(|v| yaml_node(&v))
}

/// A value with its tags taken off (`Value::untag_ref`).
pub open spec fn untagged(n: YamlNodeView) -> YamlNodeView
    decreases n,
{
    match n {
        YamlNodeView::Tagged(b) => untagged(*b),
        _ => n,
    }
}

/// `Value::as_str`: the string under any tags.
pub open spec fn yaml_str(n: YamlNodeView) -> Option<Seq<char>> {
    match untagged(n) {
        YamlNodeView::Str(s) => Some(s),
        _ => None,
    }
}

/// `Value::as_mapping`: the mapping under any tags.
pub open spec fn yaml_mapping(n: YamlNodeView) -> Option<Seq<(YamlNodeView, YamlNodeView)>> {
    match untagged(n) {
        YamlNodeView::Mapping(m) => Some(m),
        _ => None,
    }
}

/// `Mapping::get(Value::String(key))`: the value of the entry whose key is
/// the plain (untagged) string `key`.
pub open spec fn yaml_get(m: Seq<(YamlNodeView, YamlNodeView)>, key: Seq<char>) -> Option<YamlNodeView>
    decreases m.len(),
{
    if m.len() == 0 {
        None
    } else if m[0].0 == YamlNodeView::Str(key) {
        Some(m[0].1)
    } else {
        yaml_get(m.drop_first(), key)
    }
}

/// The strings among the items (`filter_map(Value::as_str)`).
pub open spec fn yaml_strs(items: Seq<YamlNodeView>) -> Seq<Seq<char>>
    decreases items.len(),
{
    if items.len() == 0 {
        Seq::empty()
    } else {
        match yaml_str(items.last()) {
            Some(s) => yaml_strs(items.drop_last()).push(s),
            None => yaml_strs(items.drop_last()),
        }
    }
}

/// A branch list: one plain string, or the strings of a sequence; else none.
pub open spec fn yaml_string_list(v: Option<YamlNodeView>) -> Seq<Seq<char>> {
    match v {
        Some(YamlNodeView::Str(s)) => seq![s],
        Some(YamlNodeView::List(items)) => yaml_strs(items),
        _ => Seq::empty(),
    }
}

/// An event's `branches:` and `branches-ignore:`; both empty unless the
/// event's value is a mapping.
pub open spec fn branch_filter_of(v: YamlNodeView) -> (Seq<Seq<char>>, Seq<Seq<char>>) {
    match yaml_mapping(v) {
        Some(m) => (
            yaml_string_list(yaml_get(m, "branches"@)),
            yaml_string_list(yaml_get(m, "branches-ignore"@)),
        ),
        None => (Seq::empty(), Seq::empty()),
    }
}

/// The characters of a branch filter.
pub open spec fn branch_filter_view(b: BranchFilter) -> (Seq<Seq<char>>, Seq<Seq<char>>) {
    (string_views(b.branches@), string_views(b.branches_ignore@))
}

/// The events of an `on:` map that matter, as plain values.
pub struct TriggerMapView {
    pub pull_request: Option<(Seq<Seq<char>>, Seq<Seq<char>>)>,
    pub pull_request_target: Option<(Seq<Seq<char>>, Seq<Seq<char>>)>,
    pub push: Option<(Seq<Seq<char>>, Seq<Seq<char>>)>,
    pub workflow_dispatch: bool,
    pub schedule: bool,
    pub repository_dispatch: bool,
}

/// The characters of an optional branch filter.
pub open spec fn opt_filter_view(b: Option<BranchFilter>) -> Option<(Seq<Seq<char>>, Seq<Seq<char>>)> {
    match b {
        Some(f) => Some(branch_filter_view(f)),
        None => None,
    }
}

/// The characters of a trigger map.
pub open spec fn trigger_map_view(t: WorkflowTriggerMap) -> TriggerMapView {
    TriggerMapView {
        pull_request: opt_filter_view(t.pull_request),
        pull_request_target: opt_filter_view(t.pull_request_target),
        push: opt_filter_view(t.push),
        workflow_dispatch: t.workflow_dispatch,
        schedule: t.schedule,
        repository_dispatch: t.repository_dispatch,
    }
}

/// The trigger map before any entry is read.
pub open spec fn empty_trigger_map() -> TriggerMapView {
    TriggerMapView {
        pull_request: None,
        pull_request_target: None,
        push: None,
        workflow_dispatch: false,
        schedule: false,
        repository_dispatch: false,
    }
}

/// The trigger map after reading one more entry: the events named by a
/// string key are recorded (a later entry for an event replaces an earlier
/// one); other keys are passed over.
pub open spec fn add_trigger(t: TriggerMapView, e: (YamlNodeView, YamlNodeView)) -> TriggerMapView {
    match yaml_str(e.0) {
        Some(k) => if k == "pull_request"@ {
            TriggerMapView { pull_request: Some(branch_filter_of(e.1)), ..t }
        } else if k == "pull_request_target"@ {
            TriggerMapView { pull_request_target: Some(branch_filter_of(e.1)), ..t }
        } else if k == "push"@ {
            TriggerMapView { push: Some(branch_filter_of(e.1)), ..t }
        } else if k == "workflow_dispatch"@ {
            TriggerMapView { workflow_dispatch: true, ..t }
        } else if k == "schedule"@ {
            TriggerMapView { schedule: true, ..t }
        } else if k == "repository_dispatch"@ {
            TriggerMapView { repository_dispatch: true, ..t }
        } else {
            t
        },
        None => t,
    }
}

/// The trigger map of the entries of an `on:` mapping, read in order.
pub open spec fn trigger_map_of(m: Seq<(YamlNodeView, YamlNodeView)>) -> TriggerMapView
    decreases m.len(),
{
    if m.len() == 0 {
        empty_trigger_map()
    } else {
        add_trigger(trigger_map_of(m.drop_last()), m.last())
    }
}

/// The `on:` key, as plain values.
pub enum OnView {
    Absent,
    Single(Seq<char>),
    List(Seq<Seq<char>>),
    Mapping(TriggerMapView),
}

/// The characters of the `on:` triggers.
pub open spec fn on_view(o: OnTriggers) -> OnView {
    match o {
        OnTriggers::Absent => OnView::Absent,
        OnTriggers::Single(s) => OnView::Single(s@),
        OnTriggers::List(v) => OnView::List(string_views(v@)),
        OnTriggers::Mapping(t) => OnView::Mapping(trigger_map_view(t)),
    }
}

/// How the value of `on:` is read: a plain string is one event, a sequence
/// lists events (its strings), a mapping maps events; anything else (a
/// tagged value too) counts as no `on:`.
pub open spec fn on_triggers_of(v: YamlNodeView) -> OnView {
    match v {
        YamlNodeView::Str(s) => OnView::Single(s),
        YamlNodeView::List(items) => OnView::List(yaml_strs(items)),
        YamlNodeView::Mapping(m) => OnView::Mapping(trigger_map_of(m)),
        _ => OnView::Absent,
    }
}

/// The `name:` and `on:` a workflow document declares; `None` when the
/// text is not YAML or its document is not a mapping.
pub open spec fn workflow_spec_of(doc: Option<YamlNodeView>) -> Option<(Option<Seq<char>>, OnView)> {
    match doc {
        None => None,
        Some(d) => match yaml_mapping(d) {
            None => None,
            Some(m) => Some(
                (
                    match yaml_get(m, "name"@) {
                        Some(n) => yaml_str(n),
                        None => None,
                    },
                    match yaml_get(m, "on"@) {
                        Some(o) => on_triggers_of(o),
                        None => OnView::Absent,
                    },
                ),
            ),
        },
    }
}

/// A value with its tags taken off.
fn untag(n: &YamlNode) -> (r: &YamlNode)
    ensures
        node_view(*r) == untagged(node_view(*n)),
    decreases n,
{
    match n {
        YamlNode::Tagged(b) => untag(b),
        _ => n,
    }
}

/// The string under any tags.
fn as_str(n: &YamlNode) -> (r: Option<String>)
    ensures
        opt_view_str(r) == yaml_str(node_view(*n)),
{
    match untag(n) {
        YamlNode::Str(s) => Some(s.clone()),
        _ => None,
    }
}

/// The characters of an optional string.
pub open spec fn opt_view_str(o: Option<String>) -> Option<Seq<char>> {
    match o {
        Some(s) => Some(s@),
        None => None,
    }
}

/// The value of the entry whose key is the plain string `key`.
fn get<'a>(m: &'a Vec<(YamlNode, YamlNode)>, key: &str) -> (r: Option<&'a YamlNode>)
    ensures
        match r {
            Some(x) => yaml_get(mapping_view(m@), key@) == Some(node_view(*x)),
            None => yaml_get(mapping_view(m@), key@) is None,
        },
{
    let ghost mv = mapping_view(m@);
    let mut i: usize = 0;
    assert(mv.skip(0) =~= mv);
    while i < m.len()
        invariant
            i <= m@.len(),
            mv == mapping_view(m@),
            yaml_get(mv, key@) == yaml_get(mv.skip(i as int), key@),
        decreases m@.len() - i,
    {
        assert(mv.skip(i as int).drop_first() =~= mv.skip(i as int + 1));
        let is_key = match &m[i].0 {
            YamlNode::Str(s) => str_eq(s.as_str(), key),
            _ => false,
        };
        if is_key {
            return Some(&m[i].1);
        }
        i += 1;
    }
    None
}

/// The characters of mapping entries.
pub open spec fn mapping_view(m: Seq<(YamlNode, YamlNode)>) -> Seq<(YamlNodeView, YamlNodeView)> {
    Seq::new(m.len(), |i: int| (node_view(m[i].0), node_view(m[i].1)))
}

/// The characters of sequence items.
pub open spec fn items_view(v: Seq<YamlNode>) -> Seq<YamlNodeView> {
    Seq::new(v.len(), |i: int| node_view(v[i]))
}

/// The view of a sequence is the sequence of its items' views.
proof fn lemma_list_view(v: Vec<YamlNode>)
    ensures
        node_view(YamlNode::List(v)) == YamlNodeView::List(items_view(v@)),
{
    let nv = node_view(YamlNode::List(v));
    if let YamlNodeView::List(sq) = nv {
        assert(sq =~= items_view(v@));
    }
}

/// The view of a mapping is the sequence of its entries' views.
proof fn lemma_mapping_view(m: Vec<(YamlNode, YamlNode)>)
    ensures
        node_view(YamlNode::Mapping(m)) == YamlNodeView::Mapping(mapping_view(m@)),
{
    let nv = node_view(YamlNode::Mapping(m));
    if let YamlNodeView::Mapping(sq) = nv {
        assert(sq =~= mapping_view(m@));
    }
}

/// The strings among the items.
fn strs(items: &Vec<YamlNode>) -> (r: Vec<String>)
    ensures
        string_views(r@) == yaml_strs(items_view(items@)),
{
    let ghost iv = items_view(items@);
    let mut r: Vec<String> = Vec::new();
    let mut i: usize = 0;
    while i < items.len()
        invariant
            i <= items@.len(),
            iv == items_view(items@),
            string_views(r@) == yaml_strs(iv.take(i as int)),
        decreases items@.len() - i,
    {
        assert(iv.take(i as int + 1).drop_last() =~= iv.take(i as int));
        let s = as_str(&items[i]);
        match s {
            Some(x) => {
                let ghost before = r@;
                r.push(x);
                assert(string_views(r@) =~= string_views(before).push(x@));
            },
            None => {},
        }
        i += 1;
    }
    assert(iv.take(items@.len() as int) =~= iv);
    r
}

/// A branch list.
fn string_list(v: Option<&YamlNode>) -> (r: Vec<String>)
    ensures
        string_views(r@) == yaml_string_list(
            match v {
                Some(x) => Some(node_view(*x)),
                None => None,
            },
        ),
{
    match v {
        Some(YamlNode::Str(s)) => {
            let mut r: Vec<String> = Vec::new();
            r.push(s.clone());
            assert(string_views(r@) =~= seq![s@]);
            r
        },
        Some(YamlNode::List(items)) => {
            proof {
                lemma_list_view(*items);
            }
            strs(items)
        },
        _ => {
            let r: Vec<String> = Vec::new();
            assert(string_views(r@) =~= Seq::<Seq<char>>::empty());
            r
        },
    }
}

/// An event's branch filter.
fn branch_filter(v: &YamlNode) -> (r: BranchFilter)
    ensures
        branch_filter_view(r) == branch_filter_of(node_view(*v)),
{
    match untag(v) {
        YamlNode::Mapping(m) => {
            proof {
                lemma_mapping_view(*m);
            }
            BranchFilter {
                branches: string_list(get(m, "branches")),
                branches_ignore: string_list(get(m, "branches-ignore")),
            }
        },
        _ => {
            let f = BranchFilter { branches: Vec::new(), branches_ignore: Vec::new() };
            assert(string_views(f.branches@) =~= Seq::<Seq<char>>::empty());
            assert(string_views(f.branches_ignore@) =~= Seq::<Seq<char>>::empty());
            f
        },
    }
}

/// The trigger map of an `on:` mapping.
fn trigger_map(m: &Vec<(YamlNode, YamlNode)>) -> (r: WorkflowTriggerMap)
    ensures
        trigger_map_view(r) == trigger_map_of(mapping_view(m@)),
{
    let ghost mv = mapping_view(m@);
    let mut t = WorkflowTriggerMap {
        pull_request: None,
        pull_request_target: None,
        push: None,
        workflow_dispatch: false,
        schedule: false,
        repository_dispatch: false,
    };
    let mut i: usize = 0;
    assert(mv.take(0) =~= Seq::<(YamlNodeView, YamlNodeView)>::empty());
    while i < m.len()
        invariant
            i <= m@.len(),
            mv == mapping_view(m@),
            trigger_map_view(t) == trigger_map_of(mv.take(i as int)),
        decreases m@.len() - i,
    {
        assert(mv.take(i as int + 1).drop_last() =~= mv.take(i as int));
        assert(mv.take(i as int + 1).last() == mv[i as int]);
        let key = as_str(&m[i].0);
        match key {
            Some(k) => {
                if str_eq(k.as_str(), "pull_request") {
                    t.pull_request = Some(branch_filter(&m[i].1));
                } else if str_eq(k.as_str(), "pull_request_target") {
                    t.pull_request_target = Some(branch_filter(&m[i].1));
                } else if str_eq(k.as_str(), "push") {
                    t.push = Some(branch_filter(&m[i].1));
                } else if str_eq(k.as_str(), "workflow_dispatch") {
                    t.workflow_dispatch = true;
                } else if str_eq(k.as_str(), "schedule") {
                    t.schedule = true;
                } else if str_eq(k.as_str(), "repository_dispatch") {
                    t.repository_dispatch = true;
                }
            },
            None => {},
        }
        i += 1;
    }
    assert(mv.take(m@.len() as int) =~= mv);
    t
}

/// The `on:` triggers of a value.
fn on_triggers(v: &YamlNode) -> (r: OnTriggers)
    ensures
        on_view(r) == on_triggers_of(node_view(*v)),
{
    match v {
        YamlNode::Str(s) => OnTriggers::Single(s.clone()),
        YamlNode::List(items) => {
            proof {
                lemma_list_view(*items);
            }
            OnTriggers::List(strs(items))
        },
        YamlNode::Mapping(m) => {
            proof {
                lemma_mapping_view(*m);
            }
            OnTriggers::Mapping(trigger_map(m))
        },
        _ => OnTriggers::Absent,
    }
}

/// The `name:` and `on:` triggers of the workflow file `yaml`, with an empty
/// path; `None` when it is not YAML or not a mapping.
pub fn parse_workflow_spec(yaml: &str) -> (r: Option<WorkflowSpec>)
    ensures
        match r {
            Some(w) => w.path@.len() == 0 && workflow_spec_of(yaml_document_of(yaml@)) == Some(
                (opt_view_str(w.name), on_view(w.on)),
            ),
            None => workflow_spec_of(yaml_document_of(yaml@)) is None,
        },
{
    let doc = match yaml_document(yaml) {
        Some(d) => d,
        None => {
            return None;
        },
    };
    let m = match untag(&doc) {
        YamlNode::Mapping(m) => m,
        _ => {
            return None;
        },
    };
    proof {
        lemma_mapping_view(*m);
    }
    let name = match get(m, "name") {
        Some(n) => as_str(n),
        None => None,
    };
    let on = match get(m, "on") {
        Some(o) => on_triggers(o),
        None => OnTriggers::Absent,
    };
    Some(WorkflowSpec { name, path: String::new(), on })
}

/// The workflow assumed for a file that cannot be read: named by its path,
/// run on every pull request.
pub open spec fn is_conservative(w: WorkflowSpec, path: Seq<char>) -> bool {
    &&& opt_view_str(w.name) == Some(path)
    &&& w.path@ == path
    &&& on_view(w.on) == OnView::Mapping(
        TriggerMapView {
            pull_request: Some((Seq::<Seq<char>>::empty(), Seq::<Seq<char>>::empty())),
            ..empty_trigger_map()
        },
    )
}

/// The conservative default for `path`, with a warning.
fn conservative(path: &str, warning: String) -> (r: (WorkflowSpec, Option<String>))
    ensures
        is_conservative(r.0, path@),
        r.1 == Some(warning),
{
    let spec = WorkflowSpec::conservative_default(String::from_str(path));
    proof {
        if let OnTriggers::Mapping(m) = &spec.on {
            if let Some(f) = &m.pull_request {
                assert(string_views(f.branches@) =~= Seq::<Seq<char>>::empty());
                assert(string_views(f.branches_ignore@) =~= Seq::<Seq<char>>::empty());
            }
        }
    }
    (spec, Some(warning))
}

/// The workflow the checks of a pull request are matched against, for the
/// workflow file at `path` whose decoded text is `yaml` (`None` when it
/// could not be read or decoded): the file's `name:` (else its path) and
/// `on:` triggers; or, when it cannot be read or parsed, the conservative
/// default, with a warning saying so.
pub fn workflow_spec_at(path: &str, yaml: Option<&str>) -> (r: (WorkflowSpec, Option<String>))
    ensures
        r.0.path@ == path@,
        match yaml {
            Some(text) => match workflow_spec_of(yaml_document_of(text@)) {
                Some((name, on)) => r.1 is None && opt_view_str(r.0.name) == Some(
                    match name {
                        Some(n) => n,
                        None => path@,
                    },
                ) && on_view(r.0.on) == on,
                None => (r.1 matches Some(w) && w@ == "could not parse workflow "@ + path@
                    + "; including conservatively"@) && is_conservative(r.0, path@),
            },
            None => (r.1 matches Some(w) && w@ == "could not read workflow "@ + path@
                + "; including conservatively"@) && is_conservative(r.0, path@),
        },
{
    let text = match yaml {
        Some(t) => t,
        None => {
            let w = concat3("could not read workflow ", path, "; including conservatively");
            return conservative(path, w);
        },
    };
    match parse_workflow_spec(text) {
        Some(spec) => {
            let name = match spec.name {
                Some(n) => n,
                None => String::from_str(path),
            };
            (WorkflowSpec { name: Some(name), path: String::from_str(path), on: spec.on }, None)
        },
        None => {
            let w = concat3("could not parse workflow ", path, "; including conservatively");
            conservative(path, w)
        },
    }
}

} // verus!
