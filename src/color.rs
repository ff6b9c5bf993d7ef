//! Reading `#RRGGBB` colour strings.
use vstd::prelude::*;

verus! {

/// Why a colour string could not be read.
#[derive(Debug, Clone, Copy, PartialEq, Eq, Structural)]
pub enum ColorError {
    InvalidColorFormat,
}

/// The value of one hexadecimal digit, either case.
pub open spec fn hex_value(c: char) -> Option<u8> {
    if '0' <= c && c <= '9' {
        Some((c as u32 - '0' as u32) as u8)
    } else if 'a' <= c && c <= 'f' {
        Some((c as u32 - 'a' as u32 + 10) as u8)
    } else if 'A' <= c && c <= 'F' {
        Some((c as u32 - 'A' as u32 + 10) as u8)
    } else {
        None
    }
}

pub open spec fn is_hex(c: char) -> bool {
    hex_value(c) is Some
}

/// The byte written by the two hexadecimal digits `hi` and `lo`.
pub open spec fn byte_of(hi: char, lo: char) -> u8 {
    (hex_value(hi)->Some_0 * 16 + hex_value(lo)->Some_0) as u8
}

/// `s` is `#` followed by exactly six hexadecimal digits.
pub open spec fn is_rgb_text(s: Seq<char>) -> bool {
    &&& s.len() == 7
    &&& s[0] == '#'
    &&& forall|i: int| 1 <= i < 7 ==> is_hex(#[trigger] s[i])
}

/// The colour that `s` writes, if it is of the form `#RRGGBB`.
pub open spec fn rgb_of(s: Seq<char>) -> Option<(u8, u8, u8)> {
    if is_rgb_text(s) {
        Some((byte_of(s[1], s[2]), byte_of(s[3], s[4]), byte_of(s[5], s[6])))
    } else {
        None
    }
}

fn hex_digit(c: char) -> (r: Option<u8>)
    ensures
        r == hex_value(c),
{
    if '0' <= c && c <= '9' {
        Some((c as u32 - '0' as u32) as u8)
    } else if 'a' <= c && c <= 'f' {
        Some((c as u32 - 'a' as u32 + 10) as u8)
    } else if 'A' <= c && c <= 'F' {
        Some((c as u32 - 'A' as u32 + 10) as u8)
    } else {
        None
    }
}

fn hex_pair(hi: char, lo: char) -> (r: Option<u8>)
    ensures
        r is Some <==> (is_hex(hi) && is_hex(lo)),
        r is Some ==> r->Some_0 == byte_of(hi, lo),
{
    match (hex_digit(hi), hex_digit(lo)) {
        (Some(h), Some(l)) => Some(h * 16 + l),
        _ => None,
    }
}

/// Converts a `#RRGGBB` string into its red, green and blue components.
/// Any other string, the empty one included, is refused.
pub fn hex_to_rgb(hex: &str) -> (r: Result<(u8, u8, u8), ColorError>)
    ensures
        r is Ok <==> rgb_of(hex@) is Some,
        r is Ok ==> r->Ok_0 == rgb_of(hex@)->Some_0,
        r is Err ==> r->Err_0 == ColorError::InvalidColorFormat,
{
    let mut cs: Vec<char> = Vec::new();
    for c in it: hex.chars()
        invariant
            cs@ == it.seq().take(it.index() as int),
    {
        cs.push(c);
    }
    assert(cs@ == hex@);
    if cs.len() != 7 || cs[0] != '#' {
        return Err(ColorError::InvalidColorFormat);
    }
    let r = hex_pair(cs[1], cs[2]);
    let g = hex_pair(cs[3], cs[4]);
    let b = hex_pair(cs[5], cs[6]);
    match (r, g, b) {
        (Some(r), Some(g), Some(b)) => Ok((r, g, b)),
        _ => Err(ColorError::InvalidColorFormat),
    }
}

} // verus!
