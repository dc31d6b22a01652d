//! Text groundwork for the classifiers: byte-length and substring
//! specifications, names for the results of the outside text routines
//! (regular-expression search, case folding, trimming), and verified
//! helpers for comparing and rendering strings.

use vstd::prelude::*;
use vstd::string::*;

verus! {

/// Number of bytes in the UTF-8 encoding of a character sequence; this is
/// what `str::len` returns.
pub open spec fn byte_len(s: Seq<char>) -> nat {
    vstd::utf8::encode_utf8(s).len()
}

/// The byte length as `str::len` reports it.
pub open spec fn reported_len(s: Seq<char>) -> int {
    (byte_len(s) as usize) as int
}

/// `p` occurs contiguously inside `s`.
pub open spec fn has_substring(s: Seq<char>, p: Seq<char>) -> bool {
    exists|i: int| 0 <= i && i + p.len() <= s.len() && #[trigger] s.subrange(i, i + p.len()) == p
}

/// `p` is a prefix of `s`.
pub open spec fn is_prefix(p: Seq<char>, s: Seq<char>) -> bool {
    p.len() <= s.len() && s.subrange(0, p.len() as int) == p
}

/// What `str::to_lowercase` returns: Unicode case folding, a function of
/// the characters alone.
pub uninterp spec fn lower_of(s: Seq<char>) -> Seq<char>;

/// What `str::trim` returns: the input without leading and trailing
/// Unicode whitespace, a function of the characters alone.
pub uninterp spec fn trim_of(s: Seq<char>) -> Seq<char>;

/// What a leftmost regular-expression search returns for a pattern and a
/// haystack: byte offsets of the match and the matched text, or nothing.
pub uninterp spec fn regex_find_of(pattern: Seq<char>, text: Seq<char>) -> Option<
    (usize, usize, Seq<char>),
>;

/// What a regular-expression search returns for the first capture group:
/// byte offsets of the group and its text, or nothing.
pub uninterp spec fn regex_capture_of(pattern: Seq<char>, text: Seq<char>) -> Option<
    (usize, usize, Seq<char>),
>;

/// The view of an executable match result.
pub open spec fn match_view(m: Option<(usize, usize, String)>) -> Option<
    (usize, usize, Seq<char>),
> {
    match m {
        Some(t) => Some((t.0, t.1, t.2@)),
        None => None,
    }
}

/// Relies on regex::Regex::new and regex::Regex::find: the leftmost match
/// is a function of the pattern and the haystack alone; its byte offsets
/// lie within the haystack and the matched text spans exactly them.
#[verifier::external_body]
pub fn regex_find(pattern: &str, text: &str) -> (m: Option<(usize, usize, String)>)
    ensures
        match_view(m) == regex_find_of(pattern@, text@),
        m matches Some(t) ==> t.0 <= t.1 && t.1 as nat <= byte_len(text@) && byte_len(t.2@)
            == t.1 - t.0,
{
    match regex::Regex::new(pattern) {
        Ok(re) => re.find(text).map(|f| (f.start(), f.end(), f.as_str().to_string())),
        Err(_) => None,
    }
}

/// Relies on regex::Regex::new and regex::Regex::captures: the first
/// capture group of the leftmost match is a function of the pattern and
/// the haystack alone; its byte offsets lie within the haystack.
#[verifier::external_body]
pub fn regex_capture(pattern: &str, text: &str) -> (m: Option<(usize, usize, String)>)
    ensures
        match_view(m) == regex_capture_of(pattern@, text@),
        m matches Some(t) ==> t.0 <= t.1 && t.1 as nat <= byte_len(text@) && byte_len(t.2@)
            == t.1 - t.0,
{
    match regex::Regex::new(pattern) {
        Ok(re) => re.captures(text).and_then(|c| c.get(1)).map(
            |g| (g.start(), g.end(), g.as_str().to_string()),
        ),
        Err(_) => None,
    }
}

/// Relies on str::to_lowercase: the result depends on the characters alone.
#[verifier::external_body]
pub fn lowercase(s: &str) -> (r: String)
    ensures
        r@ == lower_of(s@),
{
    s.to_lowercase()
}

/// Relies on str::trim: the result depends on the characters alone.
#[verifier::external_body]
pub fn trim(s: &str) -> (r: &str)
    ensures
        r@ == trim_of(s@),
{
    s.trim()
}

/// Relies on str::contains with a string pattern: true exactly when the
/// pattern occurs as a contiguous substring of the haystack.
#[verifier::external_body]
pub fn contains_sub(s: &str, p: &str) -> (r: bool)
    ensures
        r == has_substring(s@, p@),
{
    s.contains(p)
}

/// Character-by-character string equality.
pub fn str_eq_check(a: &str, b: &str) -> (r: bool)
    ensures
        r == (a@ == b@),
{
    let n = a.unicode_len();
    if n != b.unicode_len() {
        return false;
    }
    let mut i: usize = 0;
    while i < n
        invariant
            n == a@.len(),
            n == b@.len(),
            i <= n,
            forall|k: int| 0 <= k < i ==> a@[k] == b@[k],
        decreases n - i,
    {
        if a.get_char(i) != b.get_char(i) {
            return false;
        }
        i += 1;
    }
    proof {
        assert(a@ =~= b@);
    }
    true
}

/// Character-by-character prefix test.
pub fn str_prefix_check(s: &str, p: &str) -> (r: bool)
    ensures
        r == is_prefix(p@, s@),
{
    let np = p.unicode_len();
    let ns = s.unicode_len();
    if np > ns {
        return false;
    }
    let mut i: usize = 0;
    while i < np
        invariant
            np == p@.len(),
            ns == s@.len(),
            np <= ns,
            i <= np,
            forall|k: int| 0 <= k < i ==> s@[k] == p@[k],
        decreases np - i,
    {
        if s.get_char(i) != p.get_char(i) {
            proof {
                assert(s@.subrange(0, p@.len() as int)[i as int] != p@[i as int]);
            }
            return false;
        }
        i += 1;
    }
    proof {
        assert(s@.subrange(0, p@.len() as int) =~= p@);
    }
    true
}

pub open spec fn digit_char(d: int) -> char {
    if d == 0 {
        '0'
    } else if d == 1 {
        '1'
    } else if d == 2 {
        '2'
    } else if d == 3 {
        '3'
    } else if d == 4 {
        '4'
    } else if d == 5 {
        '5'
    } else if d == 6 {
        '6'
    } else if d == 7 {
        '7'
    } else if d == 8 {
        '8'
    } else {
        '9'
    }
}

/// Decimal rendering of a non-negative number.
pub open spec fn spec_nat_string(n: int) -> Seq<char>
    decreases n,
{
    if n < 10 {
        seq![digit_char(n)]
    } else {
        spec_nat_string(n / 10).push(digit_char(n % 10))
    }
}

/// Decimal rendering of an integer, with a leading minus sign when negative.
pub open spec fn spec_int_string(n: int) -> Seq<char> {
    if n < 0 {
        seq!['-'].add(spec_nat_string(-n))
    } else {
        spec_nat_string(n)
    }
}

/// Decimal rendering padded to at least two digits with a leading zero.
pub open spec fn spec_two_digit_string(n: int) -> Seq<char> {
    if 0 <= n < 10 {
        seq!['0'].add(spec_nat_string(n))
    } else {
        spec_nat_string(n)
    }
}

fn digit_str(d: u64) -> (r: &'static str)
    requires
        d < 10,
    ensures
        r@ =~= seq![digit_char(d as int)],
{
    proof {
        reveal_strlit("0");
        reveal_strlit("1");
        reveal_strlit("2");
        reveal_strlit("3");
        reveal_strlit("4");
        reveal_strlit("5");
        reveal_strlit("6");
        reveal_strlit("7");
        reveal_strlit("8");
        reveal_strlit("9");
    }
    if d == 0 {
        "0"
    } else if d == 1 {
        "1"
    } else if d == 2 {
        "2"
    } else if d == 3 {
        "3"
    } else if d == 4 {
        "4"
    } else if d == 5 {
        "5"
    } else if d == 6 {
        "6"
    } else if d == 7 {
        "7"
    } else if d == 8 {
        "8"
    } else {
        "9"
    }
}

pub fn render_u64(n: u64) -> (s: String)
    ensures
        s@ == spec_nat_string(n as int),
    decreases n,
{
    let ds = digit_str(n % 10);
    if n < 10 {
        ds.to_owned()
    } else {
        let mut s = render_u64(n / 10);
        s.append(ds);
        proof {
            assert(s@ =~= spec_nat_string(n as int));
        }
        s
    }
}

pub fn render_i64(n: i64) -> (s: String)
    requires
        n > i64::MIN,
    ensures
        s@ == spec_int_string(n as int),
{
    if n < 0 {
        let mut s = String::new();
        s.append("-");
        let digits = render_u64((-n) as u64);
        s.append(digits.as_str());
        proof {
            reveal_strlit("-");
            assert(s@ =~= spec_int_string(n as int));
        }
        s
    } else {
        render_u64(n as u64)
    }
}

pub fn render_two_digit(n: u64) -> (s: String)
    ensures
        s@ == spec_two_digit_string(n as int),
{
    if n < 10 {
        let mut s = String::new();
        s.append("0");
        let digits = render_u64(n);
        s.append(digits.as_str());
        proof {
            reveal_strlit("0");
            assert(s@ =~= spec_two_digit_string(n as int));
        }
        s
    } else {
        render_u64(n)
    }
}

} // verus!
