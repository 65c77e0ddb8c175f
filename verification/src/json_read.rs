//! Reading a JSON object, done by `serde_json`.

use serde_json::Value;
use vstd::prelude::*;

verus! {

/// A member value of a JSON object, as far as this library reads it.
#[derive(Debug, Clone, PartialEq, Eq)]
pub enum JsonMember {
    /// A JSON string.
    Text(String),
    /// A JSON array: each string element, `None` for any other element.
    List(Vec<Option<String>>),
    /// Any other JSON value.
    Other,
}

/// The characters of a `JsonMember`.
pub enum JsonMemberView {
    Text(Seq<char>),
    List(Seq<Option<Seq<char>>>),
    Other,
}

pub open spec fn opt_string_view(o: Option<String>) -> Option<Seq<char>> {
    match o {
        Some(s) => Some(s@),
        None => None,
    }
}

impl View for JsonMember {
    type V = JsonMemberView;

    open spec fn view(&self) -> JsonMemberView {
        match self {
            JsonMember::Text(s) => JsonMemberView::Text(s@),
            JsonMember::List(v) => JsonMemberView::List(
                v@.map_values(|o: Option<String>| opt_string_view(o)),
            ),
            JsonMember::Other => JsonMemberView::Other,
        }
    }
}

/// The characters of a member list.
pub open spec fn members_view(ms: Seq<(String, JsonMember)>) -> Seq<(Seq<char>, JsonMemberView)> {
    ms.map_values(|m: (String, JsonMember)| (m.0@, m.1@))
}

/// The characters of what `json_object_members` returns.
pub open spec fn json_read_view(r: Result<Option<Vec<(String, JsonMember)>>, String>) -> Result<
    Option<Seq<(Seq<char>, JsonMemberView)>>,
    Seq<char>,
> {
    match r {
        Ok(Some(ms)) => Ok(Some(members_view(ms@))),
        Ok(None) => Ok(None),
        Err(e) => Err(e@),
    }
}

/// What reading `text` as JSON gives: the parser's error message, `None`
/// for valid JSON that is not an object, or the object's members.
pub uninterp spec fn json_object_members_of(text: Seq<char>) -> Result<
    Option<Seq<(Seq<char>, JsonMemberView)>>,
    Seq<char>,
>;

/// `serde_json::from_str::<serde_json::Value>(text)`, with an object's
/// members converted one for one. The contract ties the outcome to `text`
/// through `json_object_members_of`; which texts are JSON, the error
/// messages and the order of the members are `serde_json`'s.
#[verifier::external_body]
pub(crate) fn json_object_members(text: &str) -> (r: Result<Option<Vec<(String, JsonMember)>>, String>)
    ensures
        json_read_view(r) == json_object_members_of(text@),
{
    match serde_json::from_str::<Value>(text) {
        Ok(Value::Object(map)) => Ok(Some(map.into_iter().map(|(k, v)| (k, match v {
            Value::String(s) => JsonMember::Text(s),
            Value::Array(a) => JsonMember::List(a.into_iter().map(|x| match x {
                Value::String(s) => Some(s),
                _ => None,
            }).collect()),
            _ => JsonMember::Other,
        })).collect())),
        Ok(_) => Ok(None),
        Err(e) => Err(e.to_string()),
    }
}

} // verus!
