//! The standard base64 form of bytes (RFC 4648 alphabet, `=` padding), as
//! `base64::engine::general_purpose::STANDARD` writes it.

use vstd::prelude::*;

verus! {

/// The symbol of a 6-bit value (below 64): `A`-`Z`, `a`-`z`, `0`-`9`, `+`, `/`.
pub open spec fn base64_symbol(n: int) -> char {
    if n < 26 {
        (('A' as int) + n) as char
    } else if n < 52 {
        (('a' as int) + n - 26) as char
    } else if n < 62 {
        (('0' as int) + n - 52) as char
    } else if n == 62 {
        '+'
    } else {
        '/'
    }
}

/// The standard base64 form of `b`: each group of three bytes as four
/// symbols of six bits each, most significant first; a last group of one or
/// two bytes padded with zero bits and then `=` to four characters.
pub open spec fn base64_of(b: Seq<u8>) -> Seq<char>
    decreases b.len(),
{
    let x = b[0] as int;
    let y = b[1] as int;
    let z = b[2] as int;
    if b.len() == 0 {
        Seq::empty()
    } else if b.len() == 1 {
        seq![base64_symbol(x / 4), base64_symbol((x % 4) * 16), '=', '=']
    } else if b.len() == 2 {
        seq![base64_symbol(x / 4), base64_symbol((x % 4) * 16 + y / 16), base64_symbol((y % 16) * 4), '=']
    } else {
        seq![
            base64_symbol(x / 4),
            base64_symbol((x % 4) * 16 + y / 16),
            base64_symbol((y % 16) * 4 + z / 64),
            base64_symbol(z % 64),
        ] + base64_of(b.subrange(3, b.len() as int))
    }
}

} // verus!
