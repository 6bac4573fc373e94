//! Verified string primitives: prefix/suffix/substring tests, first-comma
//! stripping for data-URI payloads, the insecure-to-secure scheme upgrade,
//! and decimal parsing of declared content lengths.

use vstd::prelude::*;
use vstd::string::*;

verus! {

broadcast use vstd::string::group_string_axioms;

/// `p` is a prefix of `s`.
pub open spec fn starts_with_spec(s: Seq<char>, p: Seq<char>) -> bool {
    p.len() <= s.len() && s.subrange(0, p.len() as int) == p
}

/// `p` is a suffix of `s`.
pub open spec fn ends_with_spec(s: Seq<char>, p: Seq<char>) -> bool {
    p.len() <= s.len() && s.subrange(s.len() - p.len(), s.len() as int) == p
}

/// `p` occurs somewhere in `s`.
pub open spec fn contains_spec(s: Seq<char>, p: Seq<char>) -> bool {
    exists|i: int| 0 <= i && i + p.len() <= s.len() && #[trigger] s.subrange(i, i + p.len() as int)
        == p
}

/// `p` occurs in `s` at character position `i`.
pub fn match_at(s: &str, i: usize, p: &str) -> (r: bool)
    ensures
        r == (i + p@.len() <= s@.len() && s@.subrange(i as int, i + p@.len() as int) == p@),
{
    let n = s.unicode_len();
    let m = p.unicode_len();
    if i > n || m > n - i {
        return false;
    }
    let mut j: usize = 0;
    while j < m
        invariant
            j <= m,
            i + m <= n,
            n == s@.len(),
            m == p@.len(),
            forall|k: int| 0 <= k < j ==> s@[i + k] == p@[k],
        decreases m - j,
    {
        if s.get_char(i + j) != p.get_char(j) {
            proof {
                if s@.subrange(i as int, i + m as int) == p@ {
                    assert(s@.subrange(i as int, i + m as int)[j as int] == p@[j as int]);
                }
            }
            return false;
        }
        j += 1;
    }
    proof {
        assert(s@.subrange(i as int, i + m as int) =~= p@);
    }
    true
}

/// `s` starts with `p`.
pub fn starts_with_str(s: &str, p: &str) -> (r: bool)
    ensures
        r == starts_with_spec(s@, p@),
{
    match_at(s, 0, p)
}

/// `s` ends with `p`.
pub fn ends_with_str(s: &str, p: &str) -> (r: bool)
    ensures
        r == ends_with_spec(s@, p@),
{
    let n = s.unicode_len();
    let m = p.unicode_len();
    if m > n {
        return false;
    }
    match_at(s, n - m, p)
}

/// The two strings hold the same characters.
pub fn str_eq(a: &str, b: &str) -> (r: bool)
    ensures
        r == (a@ == b@),
{
    let la = a.unicode_len();
    let lb = b.unicode_len();
    if la != lb {
        proof {
            if a@ == b@ {
                assert(a@.len() == b@.len());
            }
        }
        return false;
    }
    let m = match_at(a, 0, b);
    proof {
        assert(a@.subrange(0, la as int) =~= a@);
    }
    m
}

/// `p` occurs somewhere in `s`.
pub fn contains_str(s: &str, p: &str) -> (r: bool)
    ensures
        r == contains_spec(s@, p@),
{
    let n = s.unicode_len();
    let m = p.unicode_len();
    if m > n {
        proof {
            if contains_spec(s@, p@) {
                let k = choose|k: int|
                    0 <= k && k + p@.len() <= s@.len() && #[trigger] s@.subrange(
                        k,
                        k + p@.len() as int,
                    ) == p@;
            }
        }
        return false;
    }
    if m == 0 {
        proof {
            assert(contains_spec(s@, p@)) by {
                assert(s@.subrange(0, 0 + p@.len() as int) =~= p@);
            }
        }
        return true;
    }
    let mut i: usize = 0;
    while i <= n - m
        invariant
            i <= n - m + 1,
            0 < m <= n,
            n == s@.len(),
            m == p@.len(),
            forall|k: int| 0 <= k < i ==> #[trigger] s@.subrange(k, k + p@.len() as int) != p@,
        decreases n - i,
    {
        if match_at(s, i, p) {
            return true;
        }
        i += 1;
    }
    proof {
        if contains_spec(s@, p@) {
            let k = choose|k: int|
                0 <= k && k + p@.len() <= s@.len() && #[trigger] s@.subrange(
                    k,
                    k + p@.len() as int,
                ) == p@;
            assert(s@.subrange(k, k + p@.len() as int) != p@);
        }
    }
    false
}

/// First character position of `c` in `s`, if any.
pub fn find_char(s: &str, c: char) -> (r: Option<usize>)
    ensures
        match r {
            Some(i) => s@.index_of_first(c) == Some(i as int),
            None => s@.index_of_first(c) is None,
        },
{
    let n = s.unicode_len();
    let mut i: usize = 0;
    for x in it: s.chars()
        invariant
            n == s@.len(),
            it.seq() == s@,
            i == it.index(),
            forall|j: int| 0 <= j < i ==> s@[j] != c,
    {
        if x == c {
            proof {
                s@.index_of_first_ensures(c);
                assert(s@.contains(c)) by {
                    assert(s@[i as int] == c);
                }
            }
            return Some(i);
        }
        i += 1;
    }
    proof {
        assert(!s@.contains(c));
        s@.index_of_first_ensures(c);
    }
    None
}

/// Everything after the first comma; the input unchanged when it has none.
/// A data-URI-style payload keeps only its encoded part this way.
pub open spec fn strip_data_url_prefix_spec(s: Seq<char>) -> Seq<char> {
    match s.index_of_first(',') {
        Some(i) => s.subrange(i + 1, s.len() as int),
        None => s,
    }
}

/// Discard a data-URI-style prefix up to and including the first comma;
/// return the input unchanged when no comma occurs. Total, never fails.
pub fn strip_data_url_prefix(data: &str) -> (r: &str)
    ensures
        r@ == strip_data_url_prefix_spec(data@),
{
    let n = data.unicode_len();
    match find_char(data, ',') {
        Some(i) => {
            proof {
                data@.index_of_first_ensures(',');
            }
            data.substring_char(i + 1, n)
        },
        None => data,
    }
}

/// Every occurrence of the insecure scheme marker replaced by the secure
/// one, scanning left to right without overlap.
pub open spec fn replace_http_spec(s: Seq<char>) -> Seq<char>
    decreases s.len(),
{
    if s.len() == 0 {
        Seq::empty()
    } else if s.len() >= 7 && s.subrange(0, 7) == "http://"@ {
        "https://"@ + replace_http_spec(s.subrange(7, s.len() as int))
    } else {
        seq![s[0]] + replace_http_spec(s.subrange(1, s.len() as int))
    }
}

/// The normalization applied to every untrusted string before validation:
/// a string that begins with the insecure scheme has every occurrence of it
/// rewritten to the secure scheme; any other string is left unchanged.
pub open spec fn upgrade_scheme_spec(s: Seq<char>) -> Seq<char> {
    if starts_with_spec(s, "http://"@) {
        replace_http_spec(s)
    } else {
        s
    }
}

/// The characters of a string, one vector element each.
fn chars_vec(s: &str) -> (r: Vec<char>)
    ensures
        r@ == s@,
{
    let mut out: Vec<char> = Vec::new();
    for x in it: s.chars()
        invariant
            it.seq() == s@,
            out@ == s@.subrange(0, it.index() as int),
    {
        out.push(x);
        proof {
            assert(out@ =~= s@.subrange(0, it.index() + 1));
        }
    }
    proof {
        assert(s@.subrange(0, s@.len() as int) =~= s@);
    }
    out
}

/// Relies on String's FromIterator over chars: collecting characters yields
/// the string of exactly those characters.
#[verifier::external_body]
fn string_from_chars(cs: &Vec<char>) -> (r: String)
    ensures
        r@ == cs@,
{
    cs.iter().collect()
}

/// The insecure scheme marker occurs at character position `i`.
fn http_marker_at(cs: &Vec<char>, i: usize) -> (r: bool)
    ensures
        r == (i + 7 <= cs@.len() && cs@.subrange(i as int, i + 7) == "http://"@),
{
    proof {
        reveal_strlit("http://");
    }
    if i >= cs.len() || cs.len() - i < 7 {
        return false;
    }
    let m = cs[i] == 'h' && cs[i + 1] == 't' && cs[i + 2] == 't' && cs[i + 3] == 'p' && cs[i + 4]
        == ':' && cs[i + 5] == '/' && cs[i + 6] == '/';
    proof {
        if m {
            assert(cs@.subrange(i as int, i + 7) =~= "http://"@);
        } else if cs@.subrange(i as int, i + 7) == "http://"@ {
            assert(cs@.subrange(i as int, i + 7)[0] == 'h');
            assert(cs@.subrange(i as int, i + 7)[1] == 't');
            assert(cs@.subrange(i as int, i + 7)[2] == 't');
            assert(cs@.subrange(i as int, i + 7)[3] == 'p');
            assert(cs@.subrange(i as int, i + 7)[4] == ':');
            assert(cs@.subrange(i as int, i + 7)[5] == '/');
            assert(cs@.subrange(i as int, i + 7)[6] == '/');
        }
    }
    m
}

/// Rewrite an insecure-scheme string to the secure scheme (upgrade rather
/// than reject); leave any other string unchanged.
pub fn upgrade_scheme(s: &str) -> (r: String)
    ensures
        r@ == upgrade_scheme_spec(s@),
{
    if !starts_with_str(s, "http://") {
        return s.to_owned();
    }
    let cs = chars_vec(s);
    let n = cs.len();
    let mut out: Vec<char> = Vec::new();
    proof {
        assert(s@.subrange(0, n as int) =~= s@);
        assert(out@ + replace_http_spec(s@) =~= replace_http_spec(s@));
    }
    let mut i: usize = 0;
    while i < n
        invariant
            i <= n,
            n == s@.len(),
            cs@ == s@,
            replace_http_spec(s@) == out@ + replace_http_spec(s@.subrange(i as int, n as int)),
        decreases n - i,
    {
        let ghost tail = s@.subrange(i as int, n as int);
        let ghost prev = out@;
        if http_marker_at(&cs, i) {
            proof {
                reveal_strlit("http://");
                reveal_strlit("https://");
                assert(tail.subrange(0, 7) =~= s@.subrange(i as int, i + 7));
                assert(tail.subrange(7, tail.len() as int) =~= s@.subrange(i + 7, n as int));
                assert(replace_http_spec(tail) == "https://"@ + replace_http_spec(
                    s@.subrange(i + 7, n as int),
                ));
            }
            out.push('h');
            out.push('t');
            out.push('t');
            out.push('p');
            out.push('s');
            out.push(':');
            out.push('/');
            out.push('/');
            proof {
                assert(out@ =~= prev + "https://"@);
                assert((prev + "https://"@) + replace_http_spec(s@.subrange(i + 7, n as int))
                    =~= prev + replace_http_spec(tail));
            }
            i += 7;
        } else {
            proof {
                reveal_strlit("http://");
                if tail.len() >= 7 {
                    assert(s@.subrange(i as int, i + 7) =~= tail.subrange(0, 7));
                }
                assert(tail.subrange(1, tail.len() as int) =~= s@.subrange(i + 1, n as int));
                assert(replace_http_spec(tail) == seq![s@[i as int]] + replace_http_spec(
                    s@.subrange(i + 1, n as int),
                ));
            }
            let c = cs[i];
            out.push(c);
            proof {
                assert(out@ =~= prev + seq![s@[i as int]]);
                assert((prev + seq![s@[i as int]]) + replace_http_spec(
                    s@.subrange(i + 1, n as int),
                ) =~= prev + replace_http_spec(tail));
            }
            i += 1;
        }
    }
    proof {
        assert(s@.subrange(n as int, n as int) =~= Seq::<char>::empty());
        assert(out@ + Seq::<char>::empty() =~= out@);
    }
    string_from_chars(&out)
}

/// `c` is a decimal digit.
pub open spec fn is_decimal_digit(c: char) -> bool {
    c == '0' || c == '1' || c == '2' || c == '3' || c == '4' || c == '5' || c == '6' || c == '7'
        || c == '8' || c == '9'
}

/// Numeric value of a decimal digit.
pub open spec fn digit_val(c: char) -> int {
    if c == '0' {
        0
    } else if c == '1' {
        1
    } else if c == '2' {
        2
    } else if c == '3' {
        3
    } else if c == '4' {
        4
    } else if c == '5' {
        5
    } else if c == '6' {
        6
    } else if c == '7' {
        7
    } else if c == '8' {
        8
    } else {
        9
    }
}

/// `s` is non-empty and all decimal digits.
pub open spec fn all_digits(s: Seq<char>) -> bool {
    s.len() > 0 && forall|i: int| 0 <= i < s.len() ==> is_decimal_digit(s[i])
}

/// Value of a digit string, most significant digit first.
pub open spec fn digits_val(s: Seq<char>) -> int
    decreases s.len(),
{
    if s.len() == 0 {
        0
    } else {
        digits_val(s.drop_last()) * 10 + digit_val(s.last())
    }
}

proof fn lemma_digits_val_nonneg(s: Seq<char>)
    ensures
        digits_val(s) >= 0,
    decreases s.len(),
{
    if s.len() > 0 {
        lemma_digits_val_nonneg(s.drop_last());
    }
}

/// What a decimal string denotes as a machine word: an optional leading
/// plus sign, then at least one digit, and a value that fits.
pub open spec fn parse_usize_spec(s: Seq<char>) -> Option<usize> {
    let body = if s.len() > 0 && s[0] == '+' {
        s.subrange(1, s.len() as int)
    } else {
        s
    };
    if all_digits(body) && digits_val(body) <= usize::MAX {
        Some(digits_val(body) as usize)
    } else {
        None
    }
}

/// Parse a decimal string; `None` on a malformed string or on overflow.
pub fn parse_usize(s: &str) -> (r: Option<usize>)
    ensures
        r == parse_usize_spec(s@),
{
    let n = s.unicode_len();
    let start: usize = if n > 0 && s.get_char(0) == '+' {
        1
    } else {
        0
    };
    let ghost body = if s@.len() > 0 && s@[0] == '+' {
        s@.subrange(1, s@.len() as int)
    } else {
        s@
    };
    if start >= n {
        proof {
            assert(body.len() == 0);
        }
        return None;
    }
    let mut acc: u128 = 0;
    let mut over: bool = false;
    proof {
        assert(body =~= s@.subrange(start as int, n as int));
        assert(s@.subrange(start as int, start as int) =~= Seq::<char>::empty());
    }
    let mut i: usize = start;
    while i < n
        invariant
            start <= i <= n,
            start <= 1,
            n == s@.len(),
            (start == 1) == (s@.len() > 0 && s@[0] == '+'),
            body == s@.subrange(start as int, n as int),
            forall|j: int| start <= j < i ==> is_decimal_digit(s@[j]),
            !over ==> acc as int == digits_val(s@.subrange(start as int, i as int)) && acc
                <= usize::MAX as u128,
            over ==> digits_val(s@.subrange(start as int, i as int)) > usize::MAX,
        decreases n - i,
    {
        let c = s.get_char(i);
        let d: u128;
        if c == '0' {
            d = 0;
        } else if c == '1' {
            d = 1;
        } else if c == '2' {
            d = 2;
        } else if c == '3' {
            d = 3;
        } else if c == '4' {
            d = 4;
        } else if c == '5' {
            d = 5;
        } else if c == '6' {
            d = 6;
        } else if c == '7' {
            d = 7;
        } else if c == '8' {
            d = 8;
        } else if c == '9' {
            d = 9;
        } else {
            proof {
                assert(0 <= i - start < body.len());
                assert(body[i - start] == s@[i as int]);
                assert(!is_decimal_digit(body[i - start]));
                assert(!all_digits(body));
                let sb = if s@.len() > 0 && s@[0] == '+' {
                    s@.subrange(1, s@.len() as int)
                } else {
                    s@
                };
                if start == 0 {
                    assert(body =~= s@);
                }
                assert(sb == body);
                assert(!all_digits(sb));
                assert(parse_usize_spec(s@) is None);
            }
            return None;
        }
        let ghost prefix = s@.subrange(start as int, i as int);
        let ghost prefix1 = s@.subrange(start as int, i + 1);
        proof {
            assert(prefix1.drop_last() =~= prefix);
            assert(prefix1.last() == s@[i as int]);
            assert(digits_val(prefix1) == digits_val(prefix) * 10 + digit_val(s@[i as int]));
        }
        if !over {
            let next = acc * 10 + d;
            if next > usize::MAX as u128 {
                over = true;
            } else {
                acc = next;
            }
        } else {
            proof {
                lemma_digits_val_nonneg(prefix);
            }
        }
        i += 1;
    }
    proof {
        assert(s@.subrange(start as int, n as int) == body);
    }
    if over {
        None
    } else {
        proof {
            assert(all_digits(body));
        }
        Some(acc as usize)
    }
}

/// The lowercase form of a string, as the host language's case folding
/// defines it; it depends on the characters alone.
pub uninterp spec fn lower_of(s: Seq<char>) -> Seq<char>;

/// Relies on str::to_lowercase: returns the lowercase equivalent of the
/// string, a pure function of its characters.
#[verifier::external_body]
pub(crate) fn to_lowercase_str(s: &str) -> (r: String)
    ensures
        r@ == lower_of(s@),
{
    s.to_lowercase()
}

/// The string with leading and trailing whitespace removed, as the host
/// language defines whitespace; it depends on the characters alone.
pub uninterp spec fn trim_of(s: Seq<char>) -> Seq<char>;

/// Relies on str::trim: returns the input without leading and trailing
/// whitespace, a pure function of its characters.
#[verifier::external_body]
pub(crate) fn trim_str(s: &str) -> (r: &str)
    ensures
        r@ == trim_of(s@),
{
    s.trim()
}

} // verus!
