//! Quoting for the POSIX shell, done by the `shell-escape` crate.

use vstd::prelude::*;

verus! {

/// Characters that `shell_escape::unix::escape` leaves unquoted.
pub open spec fn shell_safe(c: char) -> bool {
    ('a' <= c && c <= 'z') || ('A' <= c && c <= 'Z') || ('0' <= c && c <= '9') || c == '-'
        || c == '_' || c == '=' || c == '/' || c == ',' || c == '.' || c == '+'
}

/// The quoted body: `'` and `!` each closed, backslash-escaped and reopened.
pub open spec fn shell_quoted_body(s: Seq<char>) -> Seq<char>
    decreases s.len(),
{
    if s.len() == 0 {
        Seq::empty()
    } else {
        let c = s.last();
        let piece = if c == '\'' || c == '!' {
            seq!['\'', '\\', c, '\'']
        } else {
            seq![c]
        };
        shell_quoted_body(s.drop_last()) + piece
    }
}

/// `shell_escape::unix::escape`: a non-empty string of safe characters as
/// is, anything else inside single quotes.
pub open spec fn shell_escaped(s: Seq<char>) -> Seq<char> {
    if s.len() > 0 && (forall|i: int| 0 <= i < s.len() ==> shell_safe(#[trigger] s[i])) {
        s
    } else {
        seq!['\''] + shell_quoted_body(s) + seq!['\'']
    }
}

/// `shell_escape::unix::escape`, the quoting that `shell_escape::escape`
/// uses on Unix, where the commands built here run through `sh -c`. Its
/// source is what the contract restates, on every target.
#[verifier::external_body]
pub(crate) fn shell_escape(text: &str) -> (r: String)
    ensures
        r@ == shell_escaped(text@),
{
    shell_escape::unix::escape(std::borrow::Cow::Borrowed(text)).into_owned()
}

} // verus!
