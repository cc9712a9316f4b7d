//! Color parsing for script-declared styles.
//!
//! A color is a 6-hex-digit string, optionally prefixed with `#`. A string
//! of any other length (after the prefix) yields no color at all, which is
//! not an error. A digit pair that does not parse is clamped to a fixed
//! fallback channel value instead of being rejected: 255 for the red
//! channel, 0 for green and blue.

use vstd::prelude::*;
use vstd::string::*;

verus! {

/// The value of a single hex digit, upper or lower case; `None` for any
/// other character.
pub open spec fn spec_hex_digit_val(c: char) -> Option<u8> {
    let v = c as u32;
    if '0' as u32 <= v && v <= '9' as u32 {
        Option::Some((v - '0' as u32) as u8)
    } else if 'a' as u32 <= v && v <= 'f' as u32 {
        Option::Some((v - 'a' as u32 + 10) as u8)
    } else if 'A' as u32 <= v && v <= 'F' as u32 {
        Option::Some((v - 'A' as u32 + 10) as u8)
    } else {
        Option::None
    }
}

/// The channel value of a two-digit hex pair; `None` when either digit
/// fails to parse.
pub open spec fn spec_hex_pair(hi: char, lo: char) -> Option<u8> {
    match (spec_hex_digit_val(hi), spec_hex_digit_val(lo)) {
        (Option::Some(h), Option::Some(l)) => Option::Some((16 * h + l) as u8),
        _ => Option::None,
    }
}

/// The string with every leading `#` removed.
pub open spec fn spec_strip_hash(s: Seq<char>) -> Seq<char>
    decreases s.len(),
{
    if s.len() > 0 && s[0] == '#' {
        spec_strip_hash(s.drop_first())
    } else {
        s
    }
}

/// A channel with its clamp fallback: the pair's value where it parses,
/// else the fixed fallback.
pub open spec fn spec_channel_or(hi: char, lo: char, fallback: u8) -> u8 {
    match spec_hex_pair(hi, lo) {
        Option::Some(v) => v,
        Option::None => fallback,
    }
}

/// The parsed (red, green, blue) triple: `None` exactly when the string,
/// less its `#` prefix, is not 6 characters long; a non-parsing digit pair
/// clamps to the documented fallback (255, 0, 0).
pub open spec fn spec_hex_to_rgb(s: Seq<char>) -> Option<(u8, u8, u8)> {
    let t = spec_strip_hash(s);
    if t.len() != 6 {
        Option::None
    } else {
        Option::Some(
            (
                spec_channel_or(t[0], t[1], 255),
                spec_channel_or(t[2], t[3], 0),
                spec_channel_or(t[4], t[5], 0),
            ),
        )
    }
}

/// Stripping the `#` prefix is the same as cutting the string at the first
/// index that does not hold `#`.
proof fn lemma_strip_hash_at(s: Seq<char>, i: int)
    requires
        0 <= i <= s.len(),
        forall|k: int| 0 <= k < i ==> s[k] == '#',
        i < s.len() ==> s[i] != '#',
    ensures
        spec_strip_hash(s) == s.subrange(i, s.len() as int),
    decreases i,
{
    if i == 0 {
        assert(s.subrange(0, s.len() as int) =~= s);
    } else {
        let rest = s.drop_first();
        lemma_strip_hash_at(rest, i - 1);
        assert(rest.subrange(i - 1, rest.len() as int) =~= s.subrange(i, s.len() as int));
    }
}

/// The value of a single hex digit, upper or lower case.
fn hex_digit_val(c: char) -> (r: Option<u8>)
    ensures
        r == spec_hex_digit_val(c),
{
    let v = c as u32;
    if 48 <= v && v <= 57 {
        Option::Some((v - 48) as u8)
    } else if 97 <= v && v <= 102 {
        Option::Some((v - 97 + 10) as u8)
    } else if 65 <= v && v <= 70 {
        Option::Some((v - 65 + 10) as u8)
    } else {
        Option::None
    }
}

/// The channel value of a two-digit hex pair.
fn hex_pair(hi: char, lo: char) -> (r: Option<u8>)
    ensures
        r == spec_hex_pair(hi, lo),
{
    match (hex_digit_val(hi), hex_digit_val(lo)) {
        (Option::Some(h), Option::Some(l)) => Option::Some(16 * h + l),
        _ => Option::None,
    }
}

/// Parse a script-declared color string into an (r, g, b) triple.
///
/// Leading `#` characters are stripped; what remains must be exactly six
/// characters, else no color is set. Each digit pair that fails to parse
/// clamps to its fallback channel value: 255 for red, 0 for green and blue.
pub fn hex_to_rgb(hex: &str) -> (rgb: Option<(u8, u8, u8)>)
    ensures
        rgb == spec_hex_to_rgb(hex@),
{
    let n = hex.unicode_len();
    let mut i: usize = 0;
    while i < n && hex.get_char(i) == '#'
        invariant
            i <= n,
            n == hex@.len(),
            forall|k: int| 0 <= k < i ==> hex@[k] == '#',
        decreases n - i,
    {
        i = i + 1;
    }
    proof {
        lemma_strip_hash_at(hex@, i as int);
    }
    if n - i != 6 {
        return Option::None;
    }
    let c0 = hex.get_char(i);
    let c1 = hex.get_char(i + 1);
    let c2 = hex.get_char(i + 2);
    let c3 = hex.get_char(i + 3);
    let c4 = hex.get_char(i + 4);
    let c5 = hex.get_char(i + 5);
    let r = match hex_pair(c0, c1) {
        Option::Some(v) => v,
        Option::None => 255,
    };
    let g = match hex_pair(c2, c3) {
        Option::Some(v) => v,
        Option::None => 0,
    };
    let b = match hex_pair(c4, c5) {
        Option::Some(v) => v,
        Option::None => 0,
    };
    Option::Some((r, g, b))
}

} // verus!
