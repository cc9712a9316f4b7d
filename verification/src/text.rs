//! Character-level text helpers: substring search, prefix tests and the
//! final path component, each with an exact contract over the character
//! sequence views.

use vstd::prelude::*;
use vstd::string::*;

verus! {

/// The pattern occurs in the haystack at exactly position `i`.
pub open spec fn spec_match_at(hay: Seq<char>, pat: Seq<char>, i: int) -> bool {
    0 <= i && i + pat.len() <= hay.len() && hay.subrange(i, i + pat.len() as int) == pat
}

/// The pattern occurs somewhere in the haystack.
pub open spec fn spec_contains(hay: Seq<char>, pat: Seq<char>) -> bool {
    exists|i: int| spec_match_at(hay, pat, i)
}

/// The string begins with the given prefix.
pub open spec fn spec_starts_with(s: Seq<char>, prefix: Seq<char>) -> bool {
    spec_match_at(s, prefix, 0)
}

/// Whether the pattern occurs at position `i` of the haystack.
fn match_at(hay: &str, pat: &str, i: usize) -> (b: bool)
    requires
        i + pat@.len() <= hay@.len(),
        hay@.len() <= usize::MAX,
    ensures
        b == spec_match_at(hay@, pat@, i as int),
{
    let m = pat.unicode_len();
    let mut j: usize = 0;
    while j < m
        invariant
            j <= m,
            m == pat@.len(),
            i + m <= hay@.len(),
            hay@.len() <= usize::MAX,
            forall|k: int| 0 <= k < j ==> hay@[i + k] == pat@[k],
        decreases m - j,
    {
        if hay.get_char(i + j) != pat.get_char(j) {
            proof {
                let sub = hay@.subrange(i as int, i as int + m as int);
                assert(sub[j as int] == hay@[i + j]);
            }
            return false;
        }
        j = j + 1;
    }
    proof {
        assert(hay@.subrange(i as int, i as int + m as int) =~= pat@);
    }
    true
}

/// Whether the pattern occurs anywhere in the haystack.
pub fn str_contains(hay: &str, pat: &str) -> (b: bool)
    ensures
        b == spec_contains(hay@, pat@),
{
    let n = hay.unicode_len();
    let m = pat.unicode_len();
    if m > n {
        return false;
    }
    let limit = n - m;
    let mut i: usize = 0;
    loop
        invariant_except_break
            i <= limit,
            forall|k: int| 0 <= k < i ==> !spec_match_at(hay@, pat@, k),
        invariant
            m <= n,
            n == hay@.len(),
            m == pat@.len(),
            limit == n - m,
        ensures
            forall|k: int| 0 <= k <= limit ==> !spec_match_at(hay@, pat@, k),
        decreases limit - i,
    {
        if match_at(hay, pat, i) {
            return true;
        }
        if i == limit {
            break;
        }
        i = i + 1;
    }
    false
}

/// Whether the string begins with the given prefix.
pub fn str_starts_with(s: &str, prefix: &str) -> (b: bool)
    ensures
        b == spec_starts_with(s@, prefix@),
{
    let n = s.unicode_len();
    let m = prefix.unicode_len();
    if m > n {
        return false;
    }
    match_at(s, prefix, 0)
}

/// Everything after the last `/` of the string: the whole string when it
/// has no `/`, empty when it ends with one.
pub open spec fn spec_after_last_slash(s: Seq<char>) -> Seq<char>
    decreases s.len(),
{
    if s.len() == 0 {
        Seq::empty()
    } else if s.last() == '/' {
        Seq::empty()
    } else {
        spec_after_last_slash(s.drop_last()).push(s.last())
    }
}

/// The suffix after the last `/` is the cut at any position `j` such that
/// everything from `j` on is slash-free and `j` is either the start or
/// preceded by a `/`.
proof fn lemma_after_last_slash_at(s: Seq<char>, j: int)
    requires
        0 <= j <= s.len(),
        j > 0 ==> s[j - 1] == '/',
        forall|k: int| j <= k < s.len() ==> s[k] != '/',
    ensures
        spec_after_last_slash(s) == s.subrange(j, s.len() as int),
    decreases s.len(),
{
    if j == s.len() {
        assert(s.subrange(j, s.len() as int) =~= Seq::<char>::empty());
        if s.len() > 0 {
            assert(s.last() == s[j - 1]);
        }
    } else {
        assert(s[s.len() - 1] != '/');
        let shorter = s.drop_last();
        lemma_after_last_slash_at(shorter, j);
        assert(shorter.subrange(j, shorter.len() as int) =~= s.subrange(j, s.len() - 1));
        assert(s.subrange(j, s.len() - 1).push(s.last()) =~= s.subrange(j, s.len() as int));
    }
}

/// The lower-case form of one character under ASCII folding: the letters
/// `A` to `Z` map to `a` to `z`; every other character, non-ASCII letters
/// included, is unchanged.
pub open spec fn spec_ascii_lower_char(c: char) -> char {
    if c == 'A' {
        'a'
    } else if c == 'B' {
        'b'
    } else if c == 'C' {
        'c'
    } else if c == 'D' {
        'd'
    } else if c == 'E' {
        'e'
    } else if c == 'F' {
        'f'
    } else if c == 'G' {
        'g'
    } else if c == 'H' {
        'h'
    } else if c == 'I' {
        'i'
    } else if c == 'J' {
        'j'
    } else if c == 'K' {
        'k'
    } else if c == 'L' {
        'l'
    } else if c == 'M' {
        'm'
    } else if c == 'N' {
        'n'
    } else if c == 'O' {
        'o'
    } else if c == 'P' {
        'p'
    } else if c == 'Q' {
        'q'
    } else if c == 'R' {
        'r'
    } else if c == 'S' {
        's'
    } else if c == 'T' {
        't'
    } else if c == 'U' {
        'u'
    } else if c == 'V' {
        'v'
    } else if c == 'W' {
        'w'
    } else if c == 'X' {
        'x'
    } else if c == 'Y' {
        'y'
    } else if c == 'Z' {
        'z'
    } else {
        c
    }
}

/// A string under character-wise ASCII folding.
pub open spec fn spec_ascii_lower(s: Seq<char>) -> Seq<char> {
    Seq::new(s.len(), |i: int| spec_ascii_lower_char(s[i]))
}

/// Relies on str::to_ascii_lowercase: each character is mapped to its
/// ASCII lower-case equivalent — `A` to `Z` become `a` to `z`, all other
/// characters stay as they are.
#[verifier::external_body]
pub fn ascii_lowercase(s: &str) -> (r: String)
    ensures
        r@ == spec_ascii_lower(s@),
{
    s.to_ascii_lowercase()
}

/// The decimal digit character for a value below ten.
pub open spec fn spec_digit_char(d: int) -> char {
    if d == 0 {
        '0'
    } else if d == 1 {
        '1'
    } else if d == 2 {
        '2'
    } else if d == 3 {
        '3'
    } else if d == 4 {
        '4'
    } else if d == 5 {
        '5'
    } else if d == 6 {
        '6'
    } else if d == 7 {
        '7'
    } else if d == 8 {
        '8'
    } else {
        '9'
    }
}

/// The decimal digit sequence of a number, most significant first,
/// without leading zeros (a lone zero for zero itself).
pub open spec fn spec_decimal_digits(n: int) -> Seq<char>
    decreases n,
{
    if n < 10 {
        seq![spec_digit_char(n)]
    } else {
        spec_decimal_digits(n / 10).push(spec_digit_char(n % 10))
    }
}

/// The one-character string for a decimal digit.
fn digit_str(d: u64) -> (r: &'static str)
    requires
        d < 10,
    ensures
        r@ == seq![spec_digit_char(d as int)],
{
    proof {
        reveal_strlit("0");
        reveal_strlit("1");
        reveal_strlit("2");
        reveal_strlit("3");
        reveal_strlit("4");
        reveal_strlit("5");
        reveal_strlit("6");
        reveal_strlit("7");
        reveal_strlit("8");
        reveal_strlit("9");
    }
    let r: &'static str = if d == 0 {
        "0"
    } else if d == 1 {
        "1"
    } else if d == 2 {
        "2"
    } else if d == 3 {
        "3"
    } else if d == 4 {
        "4"
    } else if d == 5 {
        "5"
    } else if d == 6 {
        "6"
    } else if d == 7 {
        "7"
    } else if d == 8 {
        "8"
    } else {
        "9"
    };
    proof {
        assert(r@ =~= seq![spec_digit_char(d as int)]);
    }
    r
}

/// Render a number in decimal, exactly its digit sequence.
pub fn u64_to_string(n: u64) -> (s: String)
    ensures
        s@ == spec_decimal_digits(n as int),
    decreases n,
{
    if n < 10 {
        String::from_str(digit_str(n))
    } else {
        let mut s = u64_to_string(n / 10);
        s.append(digit_str(n % 10));
        proof {
            assert(spec_decimal_digits((n / 10) as int) + seq![spec_digit_char((n % 10) as int)]
                =~= spec_decimal_digits(n as int));
        }
        s
    }
}

/// The substring after the last `/`, borrowed from the input.
pub fn after_last_slash<'a>(s: &'a str) -> (r: &'a str)
    ensures
        r@ == spec_after_last_slash(s@),
{
    let n = s.unicode_len();
    let mut j: usize = n;
    while j > 0 && s.get_char(j - 1) != '/'
        invariant
            j <= n,
            n == s@.len(),
            forall|k: int| j <= k < n ==> s@[k] != '/',
        decreases j,
    {
        j = j - 1;
    }
    proof {
        lemma_after_last_slash_at(s@, j as int);
    }
    s.substring_char(j, n)
}

} // verus!
