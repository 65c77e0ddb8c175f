//! Regular-expression matching, done by the `regex` crate.

use vstd::prelude::*;

verus! {

/// What matching `text` against the regular expression `pattern` gives:
/// `None` when the pattern does not compile, else whether it matches
/// somewhere in `text`.
pub uninterp spec fn regex_match_result(pattern: Seq<char>, text: Seq<char>) -> Option<bool>;

/// `regex::Regex::new(pattern)` followed by `Regex::is_match(text)`. The
/// contract ties the outcome to the pattern and the text through
/// `regex_match_result` and says nothing else of it: what a pattern matches
/// is the regex crate's to define.
#[verifier::external_body]
pub(crate) fn regex_match(pattern: &str, text: &str) -> (r: Option<bool>)
    ensures
        r == regex_match_result(pattern@, text@),
{
    regex::Regex::new(pattern).ok().map(|compiled| compiled.is_match(text))
}

/// The characters that `regex::escape` prefixes with a backslash.
pub open spec fn is_regex_meta(c: char) -> bool {
    c == '\\' || c == '.' || c == '+' || c == '*' || c == '?' || c == '(' || c == ')' || c
        == '|' || c == '[' || c == ']' || c == '{' || c == '}' || c == '^' || c == '$' || c
        == '#' || c == '&' || c == '-' || c == '~'
}

/// `regex::escape`: every meta character preceded by a backslash.
pub open spec fn regex_escaped(s: Seq<char>) -> Seq<char>
    decreases s.len(),
{
    if s.len() == 0 {
        Seq::empty()
    } else {
        let tail = if is_regex_meta(s.last()) {
            seq!['\\', s.last()]
        } else {
            seq![s.last()]
        };
        regex_escaped(s.drop_last()) + tail
    }
}

/// `regex::escape`. Its source (regex-syntax `escape_into`) pushes a
/// backslash before each character for which `is_meta_character` holds, and
/// copies every character; the contract states exactly that.
#[verifier::external_body]
pub(crate) fn regex_escape(text: &str) -> (r: String)
    ensures
        r@ == regex_escaped(text@),
{
    regex::escape(text)
}

} // verus!
