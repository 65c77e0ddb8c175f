//! The status-check contexts that a branch's rulesets and its classic
//! branch protection require, read from the JSON that GitHub returns.

use crate::text::{str_eq, string_views};
use vstd::prelude::*;

verus! {

/// A JSON value, as far as required contexts are read: strings, arrays,
/// objects (members in order), and anything else.
#[derive(Debug)]
pub enum JsonNode {
    Str(String),
    Array(Vec<JsonNode>),
    Object(Vec<(String, JsonNode)>),
    /// Null, booleans and numbers.
    Other,
}

/// The characters of a `JsonNode`.
pub enum JsonNodeView {
    Str(Seq<char>),
    Array(Seq<JsonNodeView>),
    Object(Seq<(Seq<char>, JsonNodeView)>),
    Other,
}

/// The characters of a JSON value.
pub open spec fn json_view(n: JsonNode) -> JsonNodeView
    decreases n,
{
    match n {
        JsonNode::Str(s) => JsonNodeView::Str(s@),
        JsonNode::Array(v) => JsonNodeView::Array(
            Seq::new(
                v@.len(),
                |i: int|
                    if 0 <= i < v@.len() {
                        json_view(v@[i])
                    } else {
                        JsonNodeView::Other
                    },
            ),
        ),
        JsonNode::Object(m) => JsonNodeView::Object(
            Seq::new(
                m@.len(),
                |i: int|
                    if 0 <= i < m@.len() {
                        (m@[i].0@, json_view(m@[i].1))
                    } else {
                        (Seq::empty(), JsonNodeView::Other)
                    },
            ),
        ),
        JsonNode::Other => JsonNodeView::Other,
    }
}

/// The characters of array items.
pub open spec fn json_items_view(v: Seq<JsonNode>) -> Seq<JsonNodeView> {
    Seq::new(v.len(), |i: int| json_view(v[i]))
}

/// The characters of object members.
pub open spec fn json_members_view(m: Seq<(String, JsonNode)>) -> Seq<(Seq<char>, JsonNodeView)> {
    Seq::new(m.len(), |i: int| (m[i].0@, json_view(m[i].1)))
}

/// The value of the first member named `key`.
pub open spec fn member_of(m: Seq<(Seq<char>, JsonNodeView)>, key: Seq<char>) -> Option<JsonNodeView>
    decreases m.len(),
{
    if m.len() == 0 {
        None
    } else if m[0].0 == key {
        Some(m[0].1)
    } else {
        member_of(m.drop_first(), key)
    }
}

/// `Value::get(key)`: a member of an object; `None` for any other value.
pub open spec fn json_get(n: Option<JsonNodeView>, key: Seq<char>) -> Option<JsonNodeView> {
    match n {
        Some(JsonNodeView::Object(m)) => member_of(m, key),
        _ => None,
    }
}

/// `Value::as_str`.
pub open spec fn json_str(n: Option<JsonNodeView>) -> Option<Seq<char>> {
    match n {
        Some(JsonNodeView::Str(s)) => Some(s),
        _ => None,
    }
}

/// The items of an array; none for any other value.
pub open spec fn json_items(n: Option<JsonNodeView>) -> Seq<JsonNodeView> {
    match n {
        Some(JsonNodeView::Array(items)) => items,
        _ => Seq::empty(),
    }
}

/// The strings among the items.
pub open spec fn json_strs(items: Seq<JsonNodeView>) -> Seq<Seq<char>>
    decreases items.len(),
{
    if items.len() == 0 {
        Seq::empty()
    } else {
        match json_str(Some(items.last())) {
            Some(s) => json_strs(items.drop_last()).push(s),
            None => json_strs(items.drop_last()),
        }
    }
}

/// The string `context` of each check that has one.
pub open spec fn check_contexts(checks: Seq<JsonNodeView>) -> Seq<Seq<char>>
    decreases checks.len(),
{
    if checks.len() == 0 {
        Seq::empty()
    } else {
        match json_str(json_get(Some(checks.last()), "context"@)) {
            Some(c) => check_contexts(checks.drop_last()).push(c),
            None => check_contexts(checks.drop_last()),
        }
    }
}

/// The contexts one rule requires: those of its
/// `parameters.required_status_checks` when its `type` is
/// `required_status_checks`, else none.
pub open spec fn rule_contexts(rule: JsonNodeView) -> Seq<Seq<char>> {
    if json_str(json_get(Some(rule), "type"@)) == Some("required_status_checks"@) {
        check_contexts(
            json_items(
                json_get(json_get(Some(rule), "parameters"@), "required_status_checks"@),
            ),
        )
    } else {
        Seq::empty()
    }
}

/// The contexts the rules require, rule after rule.
pub open spec fn rules_contexts(rules: Seq<JsonNodeView>) -> Seq<Seq<char>>
    decreases rules.len(),
{
    if rules.len() == 0 {
        Seq::empty()
    } else {
        rules_contexts(rules.drop_last()) + rule_contexts(rules.last())
    }
}

/// The rules of a ruleset response: the value itself when it is an array,
/// else its `rules` array, else none.
pub open spec fn ruleset_rules(v: JsonNodeView) -> Seq<JsonNodeView> {
    match v {
        JsonNodeView::Array(items) => items,
        _ => json_items(json_get(Some(v), "rules"@)),
    }
}

/// The view of an array is the sequence of its items' views.
proof fn lemma_array_view(v: Vec<JsonNode>)
    ensures
        json_view(JsonNode::Array(v)) == JsonNodeView::Array(json_items_view(v@)),
{
    let nv = json_view(JsonNode::Array(v));
    if let JsonNodeView::Array(sq) = nv {
        assert(sq =~= json_items_view(v@));
    }
}

/// The view of an object is the sequence of its members' views.
proof fn lemma_object_view(m: Vec<(String, JsonNode)>)
    ensures
        json_view(JsonNode::Object(m)) == JsonNodeView::Object(json_members_view(m@)),
{
    let nv = json_view(JsonNode::Object(m));
    if let JsonNodeView::Object(sq) = nv {
        assert(sq =~= json_members_view(m@));
    }
}

/// The view of an optional reference to a value.
pub open spec fn opt_json_view(n: Option<&JsonNode>) -> Option<JsonNodeView> {
    match n {
        Some(x) => Some(json_view(*x)),
        None => None,
    }
}

/// `Value::get(key)`.
fn get<'a>(n: Option<&'a JsonNode>, key: &str) -> (r: Option<&'a JsonNode>)
    ensures
        opt_json_view(r) == json_get(opt_json_view(n), key@),
{
    let m = match n {
        Some(JsonNode::Object(m)) => m,
        _ => {
            return None;
        },
    };
    proof {
        lemma_object_view(*m);
    }
    let ghost mv = json_members_view(m@);
    assert(json_get(opt_json_view(n), key@) == member_of(mv, key@));
    let mut i: usize = 0;
    assert(mv.skip(0) =~= mv);
    while i < m.len()
        invariant
            i <= m@.len(),
            mv == json_members_view(m@),
            json_get(opt_json_view(n), key@) == member_of(mv, key@),
            member_of(mv, key@) == member_of(mv.skip(i as int), key@),
        decreases m@.len() - i,
    {
        assert(mv.skip(i as int).drop_first() =~= mv.skip(i as int + 1));
        assert(mv.skip(i as int)[0] == (m@[i as int].0@, json_view(m@[i as int].1)));
        if str_eq(m[i].0.as_str(), key) {
            return Some(&m[i].1);
        }
        i += 1;
    }
    None
}

/// `Value::as_str`, as an owned string.
fn as_str(n: Option<&JsonNode>) -> (r: Option<String>)
    ensures
        match r {
            Some(s) => json_str(opt_json_view(n)) == Some(s@),
            None => json_str(opt_json_view(n)) is None,
        },
{
    match n {
        Some(JsonNode::Str(s)) => Some(s.clone()),
        _ => None,
    }
}

/// The items of an array value; none for any other value.
fn items_of<'a>(n: Option<&'a JsonNode>) -> (r: &'a [JsonNode])
    ensures
        json_items_view(r@) == json_items(opt_json_view(n)),
{
    match n {
        Some(JsonNode::Array(items)) => {
            proof {
                lemma_array_view(*items);
            }
            items.as_slice()
        },
        _ => {
            let r: &[JsonNode] = &[];
            assert(json_items_view(r@) =~= Seq::<JsonNodeView>::empty());
            r
        },
    }
}

/// Appends the `context` of each check that has one.
fn push_check_contexts(checks: &[JsonNode], out: &mut Vec<String>)
    ensures
        string_views(final(out)@) == string_views(old(out)@) + check_contexts(
            json_items_view(checks@),
        ),
{
    let ghost iv = json_items_view(checks@);
    let ghost start = string_views(out@);
    let mut i: usize = 0;
    assert(start + check_contexts(iv.take(0)) =~= start);
    while i < checks.len()
        invariant
            i <= checks@.len(),
            iv == json_items_view(checks@),
            string_views(out@) == start + check_contexts(iv.take(i as int)),
        decreases checks@.len() - i,
    {
        assert(iv.take(i as int + 1).drop_last() =~= iv.take(i as int));
        assert(iv.take(i as int + 1).last() == iv[i as int]);
        let c = as_str(get(Some(&checks[i]), "context"));
        match c {
            Some(x) => {
                let ghost before = out@;
                out.push(x);
                assert(string_views(out@) =~= string_views(before).push(x@));
            },
            None => {},
        }
        i += 1;
    }
    assert(iv.take(checks@.len() as int) =~= iv);
}

/// The contexts required by the branch rules GitHub returns for a branch
/// (`/rules/branches/{branch}`): for each rule of type
/// `required_status_checks`, the `context` of each of its required checks,
/// in order. The rules are the value itself when it is an array, else its
/// `rules` member.
pub fn extract_ruleset_required_contexts(value: &JsonNode) -> (r: Vec<String>)
    ensures
        string_views(r@) == rules_contexts(ruleset_rules(json_view(*value))),
{
    let rules: &[JsonNode] = match value {
        JsonNode::Array(items) => {
            proof {
                lemma_array_view(*items);
            }
            items.as_slice()
        },
        _ => items_of(get(Some(value), "rules")),
    };
    let ghost rv = json_items_view(rules@);
    assert(rv == ruleset_rules(json_view(*value)));
    let mut out: Vec<String> = Vec::new();
    let mut i: usize = 0;
    assert(string_views(out@) =~= rules_contexts(rv.take(0)));
    while i < rules.len()
        invariant
            i <= rules@.len(),
            rv == json_items_view(rules@),
            string_views(out@) == rules_contexts(rv.take(i as int)),
        decreases rules@.len() - i,
    {
        assert(rv.take(i as int + 1).drop_last() =~= rv.take(i as int));
        assert(rv.take(i as int + 1).last() == rv[i as int]);
        let rule = &rules[i];
        let kind = as_str(get(Some(rule), "type"));
        let required = match kind {
            Some(k) => str_eq(k.as_str(), "required_status_checks"),
            None => false,
        };
        if required {
            let checks = items_of(get(get(Some(rule), "parameters"), "required_status_checks"));
            push_check_contexts(checks, &mut out);
        } else {
            assert(string_views(out@) + Seq::<Seq<char>>::empty() =~= string_views(out@));
        }
        i += 1;
    }
    assert(rv.take(rules@.len() as int) =~= rv);
    out
}

/// The contexts required by a branch's classic protection
/// (`/protection/required_status_checks`): the strings of its `contexts`
/// array, in order.
pub fn extract_classic_required_contexts(value: &JsonNode) -> (r: Vec<String>)
    ensures
        string_views(r@) == json_strs(json_items(json_get(Some(json_view(*value)), "contexts"@))),
{
    let items = items_of(get(Some(value), "contexts"));
    let ghost iv = json_items_view(items@);
    let mut out: Vec<String> = Vec::new();
    let mut i: usize = 0;
    assert(string_views(out@) =~= json_strs(iv.take(0)));
    while i < items.len()
        invariant
            i <= items@.len(),
            iv == json_items_view(items@),
            string_views(out@) == json_strs(iv.take(i as int)),
        decreases items@.len() - i,
    {
        assert(iv.take(i as int + 1).drop_last() =~= iv.take(i as int));
        assert(iv.take(i as int + 1).last() == iv[i as int]);
        let s = as_str(Some(&items[i]));
        match s {
            Some(x) => {
                let ghost before = out@;
                out.push(x);
                assert(string_views(out@) =~= string_views(before).push(x@));
            },
            None => {},
        }
        i += 1;
    }
    assert(iv.take(items@.len() as int) =~= iv);
    out
}

} // verus!
