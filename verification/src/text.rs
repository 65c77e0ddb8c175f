//! Character-level text helpers and their specifications: whitespace,
//! trimming, line splitting and joining, as `str` defines them.

use vstd::prelude::*;

verus! {

/// `char::is_whitespace`: the Unicode `White_Space` property.
pub open spec fn is_ws(c: char) -> bool {
    let u = c as u32;
    (0x9 <= u && u <= 0xd) || u == 0x20 || u == 0x85 || u == 0xa0 || u == 0x1680
        || (0x2000 <= u && u <= 0x200a) || u == 0x2028 || u == 0x2029 || u == 0x202f
        || u == 0x205f || u == 0x3000
}

/// Leading whitespace removed.
pub open spec fn trim_start(s: Seq<char>) -> Seq<char>
    decreases s.len(),
{
    if s.len() > 0 && is_ws(s[0]) {
        trim_start(s.drop_first())
    } else {
        s
    }
}

/// Trailing whitespace removed.
pub open spec fn trim_end(s: Seq<char>) -> Seq<char>
    decreases s.len(),
{
    if s.len() > 0 && is_ws(s.last()) {
        trim_end(s.drop_last())
    } else {
        s
    }
}

/// `str::trim`.
pub open spec fn trim(s: Seq<char>) -> Seq<char> {
    trim_end(trim_start(s))
}

pub fn is_whitespace(c: char) -> (r: bool)
    ensures
        r == is_ws(c),
{
    let u = c as u32;
    (0x9 <= u && u <= 0xd) || u == 0x20 || u == 0x85 || u == 0xa0 || u == 0x1680 || (0x2000
        <= u && u <= 0x200a) || u == 0x2028 || u == 0x2029 || u == 0x202f || u == 0x205f || u
        == 0x3000
}

/// `String::push`.
#[verifier::external_body]
pub(crate) fn push_char(s: &mut String, c: char)
    ensures
        final(s)@ == old(s)@.push(c),
{
    s.push(c);
}

/// The characters of `s`, in order.
pub fn chars_of(s: &str) -> (v: Vec<char>)
    ensures
        v@ == s@,
{
    let mut v: Vec<char> = Vec::new();
    let n = s.unicode_len();
    let mut i: usize = 0;
    while i < n
        invariant
            n == s@.len(),
            i <= n,
            v@ == s@.take(i as int),
        decreases n - i,
    {
        let c = s.get_char(i);
        v.push(c);
        i += 1;
        assert(v@ =~= s@.take(i as int));
    }
    assert(v@ =~= s@);
    v
}

/// The string made of `v[from..to]`.
pub fn string_of_range(v: &Vec<char>, from: usize, to: usize) -> (s: String)
    requires
        from <= to <= v@.len(),
    ensures
        s@ == v@.subrange(from as int, to as int),
{
    let mut s = String::new();
    let mut i = from;
    while i < to
        invariant
            from <= i <= to <= v@.len(),
            s@ == v@.subrange(from as int, i as int),
        decreases to - i,
    {
        push_char(&mut s, v[i]);
        i += 1;
        assert(s@ =~= v@.subrange(from as int, i as int));
    }
    s
}

/// The string made of all of `v`.
pub fn string_of(v: &Vec<char>) -> (s: String)
    ensures
        s@ == v@,
{
    let s = string_of_range(v, 0, v.len());
    assert(v@.subrange(0, v@.len() as int) =~= v@);
    s
}

proof fn lemma_trim_start_skip(s: Seq<char>, i: int)
    requires
        0 <= i < s.len(),
        is_ws(s[i]),
    ensures
        trim_start(s.skip(i)) == trim_start(s.skip(i + 1)),
{
    assert(s.skip(i).drop_first() =~= s.skip(i + 1));
}

proof fn lemma_trim_end_sub(s: Seq<char>, a: int, j: int)
    requires
        0 <= a < j <= s.len(),
        is_ws(s[j - 1]),
    ensures
        trim_end(s.subrange(a, j)) == trim_end(s.subrange(a, j - 1)),
{
    assert(s.subrange(a, j).drop_last() =~= s.subrange(a, j - 1));
}

/// The bounds of `trim(v)` within `v`.
pub fn trim_bounds(v: &Vec<char>, lo: usize, hi: usize) -> (r: (usize, usize))
    requires
        lo <= hi <= v@.len(),
    ensures
        lo <= r.0 <= r.1 <= hi,
        v@.subrange(r.0 as int, r.1 as int) == trim(v@.subrange(lo as int, hi as int)),
{
    let ghost s = v@.subrange(lo as int, hi as int);
    let mut a = lo;
    assert(s.skip(0) =~= s);
    while a < hi && is_whitespace(v[a])
        invariant
            lo <= a <= hi <= v@.len(),
            s == v@.subrange(lo as int, hi as int),
            trim_start(s) == trim_start(s.skip(a - lo)),
        decreases hi - a,
    {
        proof {
            lemma_trim_start_skip(s, a - lo);
        }
        a += 1;
    }
    assert(trim_start(s.skip(a - lo)) == s.skip(a - lo));
    assert(s.skip(a - lo) =~= v@.subrange(a as int, hi as int));
    let mut b = hi;
    while b > a && is_whitespace(v[b - 1])
        invariant
            lo <= a <= b <= hi <= v@.len(),
            trim(s) == trim_end(v@.subrange(a as int, b as int)),
        decreases b - a,
    {
        proof {
            lemma_trim_end_sub(v@, a as int, b as int);
        }
        b -= 1;
    }
    (a, b)
}

/// `str::trim`, as a new string.
pub fn trim_str(s: &str) -> (r: String)
    ensures
        r@ == trim(s@),
{
    let v = chars_of(s);
    let (a, b) = trim_bounds(&v, 0, v.len());
    assert(v@.subrange(0, v@.len() as int) =~= v@);
    string_of_range(&v, a, b)
}

/// The views of a sequence of character vectors.
pub open spec fn seqs_of(ls: Seq<Vec<char>>) -> Seq<Seq<char>> {
    Seq::new(ls.len(), |i: int| ls[i]@)
}

/// `str::split(sep)`: the pieces between separators (always at least one).
pub open spec fn split_on(s: Seq<char>, sep: char) -> Seq<Seq<char>>
    decreases s.len(),
{
    if s.len() == 0 {
        seq![Seq::<char>::empty()]
    } else {
        let p = split_on(s.drop_last(), sep);
        if s.last() == sep {
            p.push(Seq::<char>::empty())
        } else {
            p.update(p.len() - 1, p.last().push(s.last()))
        }
    }
}

pub proof fn lemma_split_on_len(s: Seq<char>, sep: char)
    ensures
        split_on(s, sep).len() >= 1,
    decreases s.len(),
{
    if s.len() > 0 {
        lemma_split_on_len(s.drop_last(), sep);
    }
}

/// A trailing carriage return removed.
pub open spec fn strip_cr(l: Seq<char>) -> Seq<char> {
    if l.len() > 0 && l.last() == '\r' {
        l.drop_last()
    } else {
        l
    }
}

/// `str::lines`: lines split at `\n`, a `\r` before each `\n` dropped, no
/// final empty line after a trailing newline.
pub open spec fn lines(s: Seq<char>) -> Seq<Seq<char>> {
    let parts = split_on(s, '\n');
    if s.len() == 0 {
        Seq::empty()
    } else if s.last() == '\n' {
        parts.drop_last().map_values(|l: Seq<char>| strip_cr(l))
    } else {
        parts.drop_last().map_values(|l: Seq<char>| strip_cr(l)).push(parts.last())
    }
}

/// `join(sep)` over a sequence of strings.
pub open spec fn join(ls: Seq<Seq<char>>, sep: Seq<char>) -> Seq<char>
    decreases ls.len(),
{
    if ls.len() == 0 {
        Seq::empty()
    } else if ls.len() == 1 {
        ls[0]
    } else {
        join(ls.drop_last(), sep) + sep + ls.last()
    }
}

/// The pieces of `v` between occurrences of `sep`.
pub fn split_chars(v: &Vec<char>, sep: char) -> (r: (Vec<Vec<char>>, Vec<char>))
    ensures
        seqs_of(r.0@).push(r.1@) == split_on(v@, sep),
{
    let mut parts: Vec<Vec<char>> = Vec::new();
    let mut cur: Vec<char> = Vec::new();
    let n = v.len();
    let mut i: usize = 0;
    assert(v@.take(0) =~= Seq::<char>::empty());
    assert(seqs_of(parts@).push(cur@) =~= split_on(v@.take(0), sep));
    while i < n
        invariant
            n == v@.len(),
            i <= n,
            seqs_of(parts@).push(cur@) == split_on(v@.take(i as int), sep),
        decreases n - i,
    {
        let c = v[i];
        let ghost t = v@.take(i as int + 1);
        assert(t.drop_last() =~= v@.take(i as int));
        assert(t.last() == c);
        proof {
            lemma_split_on_len(v@.take(i as int), sep);
        }
        if c == sep {
            let old_cur = cur;
            parts.push(old_cur);
            cur = Vec::new();
            assert(seqs_of(parts@).push(cur@) =~= split_on(t, sep));
        } else {
            let ghost before = parts@;
            cur.push(c);
            assert(seqs_of(parts@).push(cur@) =~= split_on(t, sep));
        }
        i += 1;
    }
    assert(v@.take(n as int) =~= v@);
    (parts, cur)
}

/// A copy of `l` without a trailing carriage return.
pub fn strip_cr_vec(l: &Vec<char>) -> (r: Vec<char>)
    ensures
        r@ == strip_cr(l@),
{
    let mut r: Vec<char> = Vec::new();
    let n = if l.len() > 0 && l[l.len() - 1] == '\r' {
        l.len() - 1
    } else {
        l.len()
    };
    let mut i: usize = 0;
    while i < n
        invariant
            n <= l@.len(),
            i <= n,
            r@ == l@.take(i as int),
        decreases n - i,
    {
        r.push(l[i]);
        i += 1;
        assert(r@ =~= l@.take(i as int));
    }
    assert(r@ =~= strip_cr(l@));
    r
}

/// `str::lines` over characters.
pub fn lines_of(v: &Vec<char>) -> (ls: Vec<Vec<char>>)
    ensures
        seqs_of(ls@) == lines(v@),
{
    let (parts, cur) = split_chars(v, '\n');
    let mut ls: Vec<Vec<char>> = Vec::new();
    let ghost all = split_on(v@, '\n');
    proof {
        lemma_split_on_len(v@, '\n');
    }
    assert(seqs_of(parts@) =~= all.drop_last());
    let mut i: usize = 0;
    while i < parts.len()
        invariant
            i <= parts@.len(),
            all.len() >= 1,
            seqs_of(parts@) == all.drop_last(),
            seqs_of(ls@) == all.drop_last().take(i as int).map_values(|l: Seq<char>| strip_cr(l)),
        decreases parts@.len() - i,
    {
        let l = strip_cr_vec(&parts[i]);
        assert(seqs_of(parts@)[i as int] == parts@[i as int]@);
        let ghost before = ls@;
        assert(seqs_of(before).len() == before.len());
        assert(before.len() == i);
        ls.push(l);
        assert(ls@ == before.push(l));
        i += 1;
        let ghost want = all.drop_last().take(i as int).map_values(|l: Seq<char>| strip_cr(l));
        let ghost had = all.drop_last().take(i as int - 1).map_values(|l: Seq<char>| strip_cr(l));
        assert forall|k: int| 0 <= k < i implies seqs_of(ls@)[k] == want[k] by {
            if k < i - 1 {
                assert(ls@[k] == before[k]);
                assert(seqs_of(before)[k] == had[k]);
            }
        }
        assert(seqs_of(ls@) =~= want);
    }
    assert(all.drop_last().take(parts@.len() as int) =~= all.drop_last());
    if v.len() == 0 {
        let e: Vec<Vec<char>> = Vec::new();
        assert(seqs_of(e@) =~= lines(v@));
        e
    } else if v[v.len() - 1] == '\n' {
        ls
    } else {
        let ghost before = ls@;
        ls.push(cur);
        assert(seqs_of(ls@) =~= seqs_of(before).push(all.last()));
        ls
    }
}

/// `ls[lo..hi].join(sep)`.
pub fn join_range(ls: &Vec<Vec<char>>, lo: usize, hi: usize, sep: &Vec<char>) -> (r: Vec<char>)
    requires
        lo <= hi <= ls@.len(),
    ensures
        r@ == join(seqs_of(ls@).subrange(lo as int, hi as int), sep@),
{
    let mut r: Vec<char> = Vec::new();
    let mut i = lo;
    assert(seqs_of(ls@).subrange(lo as int, lo as int) =~= Seq::<Seq<char>>::empty());
    while i < hi
        invariant
            lo <= i <= hi <= ls@.len(),
            r@ == join(seqs_of(ls@).subrange(lo as int, i as int), sep@),
        decreases hi - i,
    {
        let ghost prev = seqs_of(ls@).subrange(lo as int, i as int);
        let ghost next = seqs_of(ls@).subrange(lo as int, i as int + 1);
        assert(next.drop_last() =~= prev);
        if i > lo {
            append_vec(&mut r, sep);
        }
        append_vec(&mut r, &ls[i]);
        i += 1;
        assert(r@ =~= join(next, sep@));
    }
    r
}

/// Appends all of `b` to `a`.
pub fn append_vec(a: &mut Vec<char>, b: &Vec<char>)
    ensures
        final(a)@ == old(a)@ + b@,
{
    let mut i: usize = 0;
    while i < b.len()
        invariant
            i <= b@.len(),
            a@ == old(a)@ + b@.take(i as int),
        decreases b@.len() - i,
    {
        a.push(b[i]);
        i += 1;
        assert(a@ =~= old(a)@ + b@.take(i as int));
    }
    assert(b@.take(b@.len() as int) =~= b@);
}

/// `s` begins with `p`.
pub open spec fn has_prefix(s: Seq<char>, p: Seq<char>) -> bool {
    p.len() <= s.len() && s.subrange(0, p.len() as int) == p
}

/// `s` ends with `p`.
pub open spec fn has_suffix(s: Seq<char>, p: Seq<char>) -> bool {
    p.len() <= s.len() && s.subrange(s.len() - p.len(), s.len() as int) == p
}

/// `p` occurs in `s` at position `i`.
pub open spec fn occurs_at(s: Seq<char>, p: Seq<char>, i: int) -> bool {
    0 <= i && i + p.len() <= s.len() && s.subrange(i, i + p.len()) == p
}

/// `p` occurs somewhere in `s`.
pub open spec fn contains(s: Seq<char>, p: Seq<char>) -> bool {
    exists|i: int| occurs_at(s, p, i)
}

/// `v[at..]` begins with `p`.
pub fn matches_at(v: &Vec<char>, p: &Vec<char>, at: usize) -> (r: bool)
    ensures
        r == occurs_at(v@, p@, at as int),
{
    if at > v.len() || p.len() > v.len() - at {
        return false;
    }
    let n = v.len();
    let mut i: usize = 0;
    while i < p.len()
        invariant
            n == v@.len(),
            at + p@.len() <= v@.len(),
            i <= p@.len(),
            forall|k: int| 0 <= k < i ==> v@[at + k] == p@[k],
        decreases p@.len() - i,
    {
        if v[at + i] != p[i] {
            assert(v@.subrange(at as int, at + p@.len())[i as int] != p@[i as int]);
            return false;
        }
        i += 1;
    }
    assert(v@.subrange(at as int, at + p@.len()) =~= p@);
    true
}

/// `v` begins with `p`.
pub fn starts_with_vec(v: &Vec<char>, p: &Vec<char>) -> (r: bool)
    ensures
        r == has_prefix(v@, p@),
{
    matches_at(v, p, 0)
}

/// `v` ends with `p`.
pub fn ends_with_vec(v: &Vec<char>, p: &Vec<char>) -> (r: bool)
    ensures
        r == has_suffix(v@, p@),
{
    if p.len() > v.len() {
        false
    } else {
        matches_at(v, p, v.len() - p.len())
    }
}

/// `p` occurs in `v`.
pub fn contains_vec(v: &Vec<char>, p: &Vec<char>) -> (r: bool)
    ensures
        r == contains(v@, p@),
{
    if p.len() > v.len() {
        assert forall|i: int| !occurs_at(v@, p@, i) by {}
        return false;
    }
    let last = v.len() - p.len();
    let mut i: usize = 0;
    loop
        invariant
            last + p@.len() == v@.len(),
            i <= last,
            forall|k: int| 0 <= k < i ==> !occurs_at(v@, p@, k),
        ensures
            forall|k: int| 0 <= k <= last ==> !occurs_at(v@, p@, k),
        decreases last - i,
    {
        if matches_at(v, p, i) {
            return true;
        }
        if i == last {
            break;
        }
        i += 1;
    }
    assert forall|k: int| !occurs_at(v@, p@, k) by {
        if 0 <= k && k + p@.len() <= v@.len() {
            assert(k <= last);
        }
    }
    false
}

/// `s` contains `p`.
pub fn str_contains(s: &str, p: &str) -> (r: bool)
    ensures
        r == contains(s@, p@),
{
    contains_vec(&chars_of(s), &chars_of(p))
}

/// `s` begins with `p`.
pub fn str_starts_with(s: &str, p: &str) -> (r: bool)
    ensures
        r == has_prefix(s@, p@),
{
    starts_with_vec(&chars_of(s), &chars_of(p))
}

/// `s` ends with `p`.
pub fn str_ends_with(s: &str, p: &str) -> (r: bool)
    ensures
        r == has_suffix(s@, p@),
{
    ends_with_vec(&chars_of(s), &chars_of(p))
}

/// Equality of two strings by their characters.
pub fn str_eq(a: &str, b: &str) -> (r: bool)
    ensures
        r == (a@ == b@),
{
    let va = chars_of(a);
    let vb = chars_of(b);
    if va.len() != vb.len() {
        return false;
    }
    let r = matches_at(&va, &vb, 0);
    if r {
        assert(va@.subrange(0, vb@.len() as int) =~= va@);
    } else {
        assert(va@.subrange(0, vb@.len() as int) =~= va@);
    }
    r
}

/// `char::to_ascii_lowercase`.
pub open spec fn ascii_lower_char(c: char) -> char {
    if 'A' <= c && c <= 'Z' {
        ((c as u32) + 32) as char
    } else {
        c
    }
}

/// `str::to_ascii_lowercase`.
pub open spec fn ascii_lower(s: Seq<char>) -> Seq<char> {
    s.map_values(|c: char| ascii_lower_char(c))
}

pub fn to_ascii_lower(v: &Vec<char>) -> (r: Vec<char>)
    ensures
        r@ == ascii_lower(v@),
{
    let mut r: Vec<char> = Vec::new();
    let mut i: usize = 0;
    while i < v.len()
        invariant
            i <= v@.len(),
            r@ == ascii_lower(v@.take(i as int)),
        decreases v@.len() - i,
    {
        let c = v[i];
        let d = if 'A' <= c && c <= 'Z' {
            char_from_ascii_code((c as u8) + 32)
        } else {
            c
        };
        assert(d == ascii_lower_char(c));
        r.push(d);
        i += 1;
        assert(r@ =~= ascii_lower(v@.take(i as int)));
    }
    assert(v@.take(v@.len() as int) =~= v@);
    r
}

/// The character with an ASCII code.
pub fn char_from_ascii_code(b: u8) -> (c: char)
    requires
        b < 128,
    ensures
        c as u32 == b as u32,
{
    b as char
}

/// Decimal digits of a natural number.
pub open spec fn decimal(n: nat) -> Seq<char>
    decreases n,
{
    if n < 10 {
        seq![digit_char(n)]
    } else {
        decimal(n / 10).push(digit_char(n % 10))
    }
}

pub open spec fn digit_char(d: nat) -> char {
    ((d + 48) as u32) as char
}

/// The decimal representation of `n`.
pub fn u64_to_decimal(n: u64) -> (s: String)
    ensures
        s@ == decimal(n as nat),
    decreases n,
{
    if n < 10 {
        let mut s = String::new();
        push_char(&mut s, char_from_ascii_code(n as u8 + 48));
        assert(s@ =~= decimal(n as nat));
        s
    } else {
        let mut s = u64_to_decimal(n / 10);
        push_char(&mut s, char_from_ascii_code((n % 10) as u8 + 48));
        s
    }
}

/// The decimal representation of a signed number.
pub open spec fn signed_decimal(n: int) -> Seq<char> {
    if n < 0 {
        seq!['-'] + decimal((-n) as nat)
    } else {
        decimal(n as nat)
    }
}

pub fn i32_to_decimal(n: i32) -> (s: String)
    ensures
        s@ == signed_decimal(n as int),
{
    if n < 0 {
        let mut s = String::new();
        push_char(&mut s, '-');
        let m: u64 = (0i64 - (n as i64)) as u64;
        let d = u64_to_decimal(m);
        s.append(d.as_str());
        s
    } else {
        u64_to_decimal(n as u64)
    }
}

/// `c` is an ASCII digit.
pub open spec fn is_digit(c: char) -> bool {
    '0' <= c && c <= '9'
}

/// Value of a string of decimal digits.
pub open spec fn digits_value(s: Seq<char>) -> nat
    decreases s.len(),
{
    if s.len() == 0 {
        0
    } else {
        digits_value(s.drop_last()) * 10 + ((s.last() as u32) - 48) as nat
    }
}

/// The digits of an unsigned number: a leading `+` dropped.
pub open spec fn unsigned_digits(s: Seq<char>) -> Seq<char> {
    if s.len() > 0 && s[0] == '+' {
        s.drop_first()
    } else {
        s
    }
}

/// `str::parse::<u64>`: an optional `+`, then one or more ASCII digits whose
/// value fits in 64 bits.
pub open spec fn parse_u64(s: Seq<char>) -> Option<u64> {
    let d = unsigned_digits(s);
    if d.len() > 0 && (forall|i: int| 0 <= i < d.len() ==> is_digit(#[trigger] d[i]))
        && digits_value(d) <= u64::MAX {
        Some(digits_value(d) as u64)
    } else {
        None
    }
}

proof fn lemma_digits_value_monotone(s: Seq<char>, i: int)
    requires
        0 <= i <= s.len(),
        forall|k: int| 0 <= k < s.len() ==> is_digit(#[trigger] s[k]),
    ensures
        digits_value(s.take(i)) <= digits_value(s),
    decreases s.len() - i,
{
    if i < s.len() {
        lemma_digits_value_monotone(s, i + 1);
        assert(s.take(i + 1).drop_last() =~= s.take(i));
    } else {
        assert(s.take(i) =~= s);
    }
}

/// `v[from..to]` parsed as a `u64`, as `str::parse` does.
pub fn parse_u64_range(v: &Vec<char>, from: usize, to: usize) -> (r: Option<u64>)
    requires
        from <= to <= v@.len(),
    ensures
        r == parse_u64(v@.subrange(from as int, to as int)),
{
    let ghost s = v@.subrange(from as int, to as int);
    let start = if from < to && v[from] == '+' {
        from + 1
    } else {
        from
    };
    let ghost d = v@.subrange(start as int, to as int);
    assert(d =~= unsigned_digits(s));
    if start == to {
        return None;
    }
    let mut acc: u64 = 0;
    let mut i = start;
    while i < to
        invariant
            from <= start < to <= v@.len(),
            start <= i <= to,
            d == v@.subrange(start as int, to as int),
            d == unsigned_digits(v@.subrange(from as int, to as int)),
            forall|k: int| 0 <= k < i - start ==> is_digit(#[trigger] d[k]),
            acc as nat == digits_value(d.take(i - start)),
        decreases to - i,
    {
        let c = v[i];
        assert(d[i - start] == c);
        if !('0' <= c && c <= '9') {
            assert(!is_digit(d[i - start]));
            return None;
        }
        let digit = (c as u32 - 48) as u64;
        assert(d.take(i - start + 1).drop_last() =~= d.take(i - start));
        assert(d.take(i - start + 1).last() == c);
        if acc > 1844674407370955161 || (acc == 1844674407370955161 && digit > 5) {
            proof {
                let a = acc as int;
                let dd = digit as int;
                assert(a * 10 + dd > u64::MAX) by (nonlinear_arith)
                    requires
                        a > 1844674407370955161 || (a == 1844674407370955161 && dd > 5),
                        dd >= 0,
                ;
                assert(digits_value(d.take(i - start + 1)) > u64::MAX);
                if forall|k: int| 0 <= k < d.len() ==> is_digit(#[trigger] d[k]) {
                    lemma_digits_value_monotone(d, i - start + 1);
                }
            }
            return None;
        }
        assert(acc * 10 + digit <= u64::MAX) by (nonlinear_arith)
            requires
                acc <= 1844674407370955161,
                digit <= 9,
                acc < 1844674407370955161 || digit <= 5,
        ;
        acc = acc * 10 + digit;
        i += 1;
    }
    assert(d.take(i - start) =~= d);
    Some(acc)
}

/// `s.parse::<u64>()`.
pub fn str_parse_u64(s: &str) -> (r: Option<u64>)
    ensures
        r == parse_u64(s@),
{
    let v = chars_of(s);
    assert(v@.subrange(0, v@.len() as int) =~= v@);
    parse_u64_range(&v, 0, v.len())
}

/// The end of `trim_end(v[lo..hi])` within `v`.
pub fn trim_end_bound(v: &Vec<char>, lo: usize, hi: usize) -> (e: usize)
    requires
        lo <= hi <= v@.len(),
    ensures
        lo <= e <= hi,
        v@.subrange(lo as int, e as int) == trim_end(v@.subrange(lo as int, hi as int)),
{
    let mut b = hi;
    while b > lo && is_whitespace(v[b - 1])
        invariant
            lo <= b <= hi <= v@.len(),
            trim_end(v@.subrange(lo as int, hi as int)) == trim_end(v@.subrange(lo as int, b as int)),
        decreases b - lo,
    {
        proof {
            lemma_trim_end_sub(v@, lo as int, b as int);
        }
        b -= 1;
    }
    b
}

/// `s` written as Rust's `Debug` writes a `str`: quoted, with escapes.
pub uninterp spec fn debug_form(s: Seq<char>) -> Seq<char>;

/// `format!("{:?}", s)` for a `str` (std's `Debug` impl). The contract
/// only ties the result to `s`.
#[verifier::external_body]
pub(crate) fn debug_quoted(s: &str) -> (r: String)
    ensures
        r@ == debug_form(s@),
{
    format!("{:?}", s)
}

/// The characters of each string.
pub open spec fn string_views(v: Seq<String>) -> Seq<Seq<char>> {
    v.map_values(|s: String| s@)
}

/// `v.join(sep)` over strings.
pub fn join_strings(v: &Vec<String>, sep: &str) -> (r: String)
    ensures
        r@ == join(string_views(v@), sep@),
{
    let mut r = String::new();
    let mut i: usize = 0;
    assert(string_views(v@).take(0) =~= Seq::<Seq<char>>::empty());
    while i < v.len()
        invariant
            i <= v@.len(),
            r@ == join(string_views(v@).take(i as int), sep@),
        decreases v@.len() - i,
    {
        let ghost next = string_views(v@).take(i as int + 1);
        assert(next.drop_last() =~= string_views(v@).take(i as int));
        if i > 0 {
            r.append(sep);
        }
        r.append(v[i].as_str());
        i += 1;
        assert(r@ =~= join(next, sep@));
    }
    assert(string_views(v@).take(v@.len() as int) =~= string_views(v@));
    r
}

/// `a` followed by `b`.
pub fn concat2(a: &str, b: &str) -> (r: String)
    ensures
        r@ == a@ + b@,
{
    let mut r = String::from_str(a);
    r.append(b);
    r
}

/// `a`, `b`, `c` in order.
pub fn concat3(a: &str, b: &str, c: &str) -> (r: String)
    ensures
        r@ == a@ + b@ + c@,
{
    let mut r = String::from_str(a);
    r.append(b);
    r.append(c);
    r
}

/// `str::to_lowercase`: the Unicode lowercase mapping of `s`.
pub uninterp spec fn unicode_lowercase(s: Seq<char>) -> Seq<char>;

/// `str::to_lowercase` (std). The contract ties the result to `s`, and
/// states that ASCII text is lowered as `to_ascii_lowercase` lowers it (in
/// Unicode the lowercase of an ASCII letter is its ASCII lowercase, and other
/// ASCII characters map to themselves); the mapping of other characters is
/// Unicode's and left to the name.
#[verifier::external_body]
pub(crate) fn to_lowercase(s: &str) -> (r: String)
    ensures
        r@ == unicode_lowercase(s@),
        (forall|i: int| 0 <= i < s@.len() ==> (#[trigger] s@[i] as u32) < 128) ==> r@ == ascii_lower(s@),
{
    s.to_lowercase()
}

/// An optional string, copied.
pub fn clone_opt_string(o: &Option<String>) -> (r: Option<String>)
    ensures
        opt_view(r) == opt_view(*o),
{
    match o {
        Some(s) => Some(s.clone()),
        None => None,
    }
}

/// The characters of an optional string.
pub open spec fn opt_view(o: Option<String>) -> Option<Seq<char>> {
    match o {
        Some(s) => Some(s@),
        None => None,
    }
}

/// A list of strings, copied.
pub fn clone_strings(v: &Vec<String>) -> (r: Vec<String>)
    ensures
        string_views(r@) == string_views(v@),
{
    let mut r: Vec<String> = Vec::new();
    let mut i: usize = 0;
    while i < v.len()
        invariant
            i <= v@.len(),
            string_views(r@) == string_views(v@).take(i as int),
        decreases v@.len() - i,
    {
        let ghost before = r@;
        let c = v[i].clone();
        assert(c@ == v@[i as int]@);
        r.push(c);
        assert(r@ == before.push(c));
        assert(string_views(r@) =~= string_views(before).push(c@));
        i += 1;
        assert(string_views(r@) =~= string_views(v@).take(i as int));
    }
    assert(string_views(v@).take(v@.len() as int) =~= string_views(v@));
    r
}

/// `s.trim_end_matches(c)`.
pub open spec fn trim_end_char(s: Seq<char>, c: char) -> Seq<char>
    decreases s.len(),
{
    if s.len() > 0 && s.last() == c {
        trim_end_char(s.drop_last(), c)
    } else {
        s
    }
}

pub fn trim_end_matches_char(s: &str, c: char) -> (r: String)
    ensures
        r@ == trim_end_char(s@, c),
{
    let v = chars_of(s);
    let mut e = v.len();
    assert(v@.subrange(0, v@.len() as int) =~= v@);
    while e > 0 && v[e - 1] == c
        invariant
            e <= v@.len(),
            trim_end_char(v@, c) == trim_end_char(v@.subrange(0, e as int), c),
        decreases e,
    {
        assert(v@.subrange(0, e as int).drop_last() =~= v@.subrange(0, e - 1));
        e -= 1;
    }
    proof {
        assert(v@.subrange(0, v@.len() as int) =~= v@);
    }
    string_of_range(&v, 0, e)
}

/// The part of `s` after its last `c` (all of `s` without one):
/// `s.rsplit(c).next()`.
pub open spec fn after_last(s: Seq<char>, c: char) -> Seq<char>
    decreases s.len(),
{
    if s.len() == 0 {
        s
    } else if s.last() == c {
        Seq::empty()
    } else {
        after_last(s.drop_last(), c).push(s.last())
    }
}

/// Start of the part after the last `c` in `v[..e]`.
fn last_segment_start(v: &Vec<char>, c: char) -> (a: usize)
    ensures
        a <= v@.len(),
        v@.subrange(a as int, v@.len() as int) == after_last(v@, c),
{
    let n = v.len();
    let mut a = n;
    assert(v@.subrange(n as int, n as int) =~= Seq::<char>::empty());
    assert(v@.subrange(0, n as int) =~= v@);
    assert(after_last(v@, c) =~= after_last(v@.subrange(0, n as int), c) + v@.subrange(n as int, n as int));
    while a > 0 && v[a - 1] != c
        invariant
            n == v@.len(),
            a <= n,
            forall|k: int| a <= k < n ==> v@[k] != c,
            after_last(v@, c) == after_last(v@.subrange(0, a as int), c) + v@.subrange(a as int, n as int),
        decreases a,
    {
        let ghost pre = v@.subrange(0, a as int);
        assert(pre.drop_last() =~= v@.subrange(0, a - 1));
        assert(v@.subrange(a - 1, n as int) =~= seq![v@[a - 1]] + v@.subrange(a as int, n as int));
        assert(after_last(pre, c) == after_last(v@.subrange(0, a - 1), c).push(v@[a - 1]));
        assert(after_last(v@.subrange(0, a - 1), c).push(v@[a - 1]) + v@.subrange(a as int, n as int)
            =~= after_last(v@.subrange(0, a - 1), c) + v@.subrange(a - 1, n as int));
        a -= 1;
    }
    if a > 0 {
        assert(after_last(v@.subrange(0, a as int), c) =~= Seq::<char>::empty());
    } else {
        assert(after_last(v@.subrange(0, 0), c) =~= Seq::<char>::empty());
    }
    assert(Seq::<char>::empty() + v@.subrange(a as int, n as int) =~= v@.subrange(a as int, n as int));
    a
}

/// `s.rsplit(c).next()`, as a new string.
pub fn after_last_char(s: &str, c: char) -> (r: String)
    ensures
        r@ == after_last(s@, c),
{
    let v = chars_of(s);
    let a = last_segment_start(&v, c);
    string_of_range(&v, a, v.len())
}

/// The part of `s` before its first `c` (all of `s` without one).
pub open spec fn before_first(s: Seq<char>, c: char) -> Seq<char>
    decreases s.len(),
{
    if s.len() == 0 || s[0] == c {
        Seq::empty()
    } else {
        seq![s[0]] + before_first(s.skip(1), c)
    }
}

/// The part of `s` after its first `c`, if it has one: `split_once(c)`.
pub open spec fn after_first(s: Seq<char>, c: char) -> Option<Seq<char>>
    decreases s.len(),
{
    if s.len() == 0 {
        None
    } else if s[0] == c {
        Some(s.skip(1))
    } else {
        after_first(s.skip(1), c)
    }
}

/// Splitting at the first `c`, found at `i` (or not at all, `i` the length).
pub proof fn lemma_first_split(s: Seq<char>, c: char, i: int)
    requires
        0 <= i <= s.len(),
        forall|k: int| 0 <= k < i ==> s[k] != c,
        i < s.len() ==> s[i] == c,
    ensures
        before_first(s, c) == s.take(i),
        after_first(s, c) == if i < s.len() {
            Some(s.skip(i + 1))
        } else {
            None::<Seq<char>>
        },
    decreases i,
{
    if i > 0 {
        lemma_first_split(s.skip(1), c, i - 1);
        assert(s.take(i) =~= seq![s[0]] + s.skip(1).take(i - 1));
        if i < s.len() {
            assert(s.skip(1).skip(i) =~= s.skip(i + 1));
        }
    } else {
        assert(s.take(0) =~= Seq::<char>::empty());
    }
}

/// The index of the first `c` in `v`, or its length when there is none.
pub fn first_index_of(v: &Vec<char>, c: char) -> (i: usize)
    ensures
        i <= v@.len(),
        forall|k: int| 0 <= k < i ==> v@[k] != c,
        i < v@.len() ==> v@[i as int] == c,
        before_first(v@, c) == v@.take(i as int),
        after_first(v@, c) == if i < v@.len() {
            Some(v@.skip(i + 1))
        } else {
            None::<Seq<char>>
        },
{
    let mut i: usize = 0;
    while i < v.len() && v[i] != c
        invariant
            i <= v@.len(),
            forall|k: int| 0 <= k < i ==> v@[k] != c,
        decreases v@.len() - i,
    {
        i += 1;
    }
    proof {
        lemma_first_split(v@, c, i as int);
    }
    i
}

/// `s` holds no carriage return followed by a line feed.
pub open spec fn no_crlf(s: Seq<char>) -> bool {
    forall|i: int| 0 <= i < s.len() - 1 ==> !(#[trigger] s[i] == '\r' && s[i + 1] == '\n')
}

/// `s.replace("\r\n", "\n")`.
pub open spec fn crlf_normalized(s: Seq<char>) -> Seq<char>
    decreases s.len(),
{
    if s.len() == 0 {
        s
    } else if s.len() >= 2 && s[0] == '\r' && s[1] == '\n' {
        seq!['\n'] + crlf_normalized(s.skip(2))
    } else {
        seq![s[0]] + crlf_normalized(s.skip(1))
    }
}

/// Text without CR-LF pairs is left as it is.
pub proof fn lemma_crlf_normalized_identity(s: Seq<char>)
    requires
        no_crlf(s),
    ensures
        crlf_normalized(s) == s,
    decreases s.len(),
{
    if s.len() > 0 {
        assert(no_crlf(s.skip(1))) by {
            assert forall|i: int| 0 <= i < s.skip(1).len() - 1 implies !(#[trigger] s.skip(1)[i]
                == '\r' && s.skip(1)[i + 1] == '\n') by {
                assert(s.skip(1)[i] == s[i + 1]);
                assert(s.skip(1)[i + 1] == s[i + 2]);
            }
        }
        lemma_crlf_normalized_identity(s.skip(1));
        if s.len() >= 2 {
            assert(!(s[0] == '\r' && s[1] == '\n'));
        }
        assert(s =~= seq![s[0]] + s.skip(1));
    }
}

/// `v` with every CR-LF pair turned into a line feed.
pub fn normalize_crlf(v: &Vec<char>) -> (r: Vec<char>)
    ensures
        r@ == crlf_normalized(v@),
{
    let mut out: Vec<char> = Vec::new();
    let mut i: usize = 0;
    assert(v@.skip(0) =~= v@);
    while i < v.len()
        invariant
            i <= v@.len(),
            out@ + crlf_normalized(v@.skip(i as int)) == crlf_normalized(v@),
        decreases v@.len() - i,
    {
        let ghost rest = v@.skip(i as int);
        let ghost before = out@;
        if i + 1 < v.len() && v[i] == '\r' && v[i + 1] == '\n' {
            assert(rest.skip(2) =~= v@.skip(i + 2));
            out.push('\n');
            assert(out@ + crlf_normalized(v@.skip(i + 2)) =~= before + crlf_normalized(rest));
            i += 2;
        } else {
            assert(rest.skip(1) =~= v@.skip(i + 1));
            out.push(v[i]);
            assert(out@ + crlf_normalized(v@.skip(i + 1)) =~= before + crlf_normalized(rest));
            i += 1;
        }
    }
    assert(v@.skip(i as int) =~= Seq::<char>::empty());
    assert(out@ + Seq::<char>::empty() =~= out@);
    out
}

/// Equality of two character vectors.
pub fn chars_eq(a: &Vec<char>, b: &Vec<char>) -> (r: bool)
    ensures
        r == (a@ == b@),
{
    if a.len() != b.len() {
        return false;
    }
    let mut i: usize = 0;
    while i < a.len()
        invariant
            a@.len() == b@.len(),
            i <= a@.len(),
            forall|k: int| 0 <= k < i ==> a@[k] == b@[k],
        decreases a@.len() - i,
    {
        if a[i] != b[i] {
            return false;
        }
        i += 1;
    }
    assert(a@ =~= b@);
    true
}

/// The part after the last `c` is no longer than the whole.
pub proof fn lemma_after_last_len(s: Seq<char>, c: char)
    ensures
        after_last(s, c).len() <= s.len(),
    decreases s.len(),
{
    if s.len() > 0 && s.last() != c {
        lemma_after_last_len(s.drop_last(), c);
    }
}

/// The order of `String`s: by characters, a proper prefix first.
pub open spec fn text_less(a: Seq<char>, b: Seq<char>) -> bool
    decreases a.len(),
{
    if a.len() == 0 {
        b.len() > 0
    } else if b.len() == 0 {
        false
    } else if a[0] != b[0] {
        (a[0] as int) < (b[0] as int)
    } else {
        text_less(a.skip(1), b.skip(1))
    }
}

/// The order of texts is strict and total.
pub proof fn lemma_text_less_total(a: Seq<char>, b: Seq<char>)
    ensures
        !text_less(a, a),
        !(text_less(a, b) && text_less(b, a)),
        a != b ==> text_less(a, b) || text_less(b, a),
    decreases a.len(),
{
    if a.len() > 0 {
        lemma_text_less_total(a.skip(1), a.skip(1));
    }
    if a.len() > 0 && b.len() > 0 && a[0] == b[0] {
        lemma_text_less_total(a.skip(1), b.skip(1));
        if a.skip(1) == b.skip(1) {
            assert(a =~= seq![a[0]] + a.skip(1));
            assert(b =~= seq![b[0]] + b.skip(1));
        }
    }
    if a.len() == 0 && b.len() == 0 {
        assert(a =~= b);
    }
    if a.len() > 0 && b.len() > 0 && a[0] != b[0] {
        assert((a[0] as int) != (b[0] as int));
    }
}

/// The order of texts is transitive.
pub proof fn lemma_text_less_transitive(a: Seq<char>, b: Seq<char>, c: Seq<char>)
    requires
        text_less(a, b),
        text_less(b, c),
    ensures
        text_less(a, c),
    decreases a.len(),
{
    if a.len() > 0 && b.len() > 0 && c.len() > 0 && a[0] == b[0] && b[0] == c[0] {
        lemma_text_less_transitive(a.skip(1), b.skip(1), c.skip(1));
    }
}

/// Whether `a` sorts before `b`.
pub fn text_lt(a: &str, b: &str) -> (r: bool)
    ensures
        r == text_less(a@, b@),
{
    let va = chars_of(a);
    let vb = chars_of(b);
    let mut i: usize = 0;
    assert(va@.skip(0) =~= va@);
    assert(vb@.skip(0) =~= vb@);
    while i < va.len() && i < vb.len()
        invariant
            va@ == a@,
            vb@ == b@,
            i <= va@.len(),
            i <= vb@.len(),
            text_less(a@, b@) == text_less(va@.skip(i as int), vb@.skip(i as int)),
        decreases va@.len() - i,
    {
        if va[i] != vb[i] {
            return va[i] < vb[i];
        }
        assert(va@.skip(i as int).skip(1) =~= va@.skip(i + 1));
        assert(vb@.skip(i as int).skip(1) =~= vb@.skip(i + 1));
        i += 1;
    }
    i == va.len() && i < vb.len()
}

} // verus!
