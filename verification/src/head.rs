//! Parsing the contents of a `HEAD` file.
//!
//! A `HEAD` file holds either a symbolic reference (`ref: <refname>`) or a
//! bare commit hash. [`parse_git_head`] extracts a branch name from the
//! former and a shortened hash from the latter; everything else yields
//! `None`. The behaviour is pinned down by [`spec_parse_head`], a pure
//! function over the character sequence.

use vstd::prelude::*;
use vstd::string::StrSliceExecFns;
use vstd::string::StringExecFns;

verus! {

/// The characters that trimming removes: Unicode whitespace, which covers the
/// trailing newline a `HEAD` file usually ends with.
pub open spec fn is_whitespace_char(c: char) -> bool {
    ||| c == ' '
    ||| c == '\t'
    ||| c == '\n'
    ||| c == '\r'
    ||| c == '\u{000B}'
    ||| c == '\u{000C}'
    ||| c == '\u{0085}'
    ||| c == '\u{00A0}'
    ||| c == '\u{1680}'
    ||| ('\u{2000}' <= c && c <= '\u{200A}')
    ||| c == '\u{2028}'
    ||| c == '\u{2029}'
    ||| c == '\u{202F}'
    ||| c == '\u{205F}'
    ||| c == '\u{3000}'
}

/// An ASCII hexadecimal digit: `0`-`9`, `a`-`f` or `A`-`F`.
pub open spec fn is_hex_digit_char(c: char) -> bool {
    ||| ('0' <= c && c <= '9')
    ||| ('a' <= c && c <= 'f')
    ||| ('A' <= c && c <= 'F')
}

fn whitespace_char(c: char) -> (b: bool)
    ensures
        b == is_whitespace_char(c),
{
    c == ' ' || c == '\t' || c == '\n' || c == '\r' || c == '\u{000B}' || c == '\u{000C}'
        || c == '\u{0085}' || c == '\u{00A0}' || c == '\u{1680}' || ('\u{2000}' <= c && c
        <= '\u{200A}') || c == '\u{2028}' || c == '\u{2029}' || c == '\u{202F}' || c == '\u{205F}'
        || c == '\u{3000}'
}

fn hex_digit_char(c: char) -> (b: bool)
    ensures
        b == is_hex_digit_char(c),
{
    ('0' <= c && c <= '9') || ('a' <= c && c <= 'f') || ('A' <= c && c <= 'F')
}

/// How many whitespace characters the sequence starts with.
pub open spec fn leading_ws(s: Seq<char>) -> int
    decreases s.len(),
{
    if s.len() == 0 {
        0
    } else if is_whitespace_char(s[0]) {
        1 + leading_ws(s.drop_first())
    } else {
        0
    }
}

/// How many whitespace characters the sequence ends with.
pub open spec fn trailing_ws(s: Seq<char>) -> int
    decreases s.len(),
{
    if s.len() == 0 {
        0
    } else if is_whitespace_char(s.last()) {
        1 + trailing_ws(s.drop_last())
    } else {
        0
    }
}

/// The sequence with its whitespace prefix and suffix removed.
pub open spec fn spec_trim(s: Seq<char>) -> Seq<char> {
    let a = leading_ws(s);
    let b = s.len() - trailing_ws(s);
    if a <= b {
        s.subrange(a, b)
    } else {
        Seq::empty()
    }
}

proof fn lemma_leading_ws_is(s: Seq<char>, a: int)
    requires
        0 <= a <= s.len(),
        forall|i: int| 0 <= i < a ==> is_whitespace_char(s[i]),
        a < s.len() ==> !is_whitespace_char(s[a]),
    ensures
        leading_ws(s) == a,
    decreases a,
{
    if a > 0 {
        let t = s.drop_first();
        assert forall|i: int| 0 <= i < a - 1 implies is_whitespace_char(t[i]) by {
            assert(t[i] == s[i + 1]);
        }
        assert(a - 1 < t.len() ==> !is_whitespace_char(t[a - 1]));
        lemma_leading_ws_is(t, a - 1);
    }
}

proof fn lemma_trailing_ws_is(s: Seq<char>, e: int)
    requires
        0 <= e <= s.len(),
        forall|i: int| e <= i < s.len() ==> is_whitespace_char(s[i]),
        e > 0 ==> !is_whitespace_char(s[e - 1]),
    ensures
        trailing_ws(s) == s.len() - e,
    decreases s.len() - e,
{
    if e < s.len() {
        let t = s.drop_last();
        assert(is_whitespace_char(s.last()));
        assert forall|i: int| e <= i < t.len() implies is_whitespace_char(t[i]) by {
            assert(t[i] == s[i]);
        }
        lemma_trailing_ws_is(t, e);
    }
}

/// The longest whitespace-free cut `s.subrange(a, b)` whose complement is all
/// whitespace is exactly the trimmed sequence.
proof fn lemma_trim_subrange(s: Seq<char>, a: int, b: int)
    requires
        0 <= a <= b <= s.len(),
        forall|i: int| 0 <= i < a ==> is_whitespace_char(s[i]),
        forall|i: int| b <= i < s.len() ==> is_whitespace_char(s[i]),
        a < b ==> !is_whitespace_char(s[a]),
        a < b ==> !is_whitespace_char(s[b - 1]),
    ensures
        spec_trim(s) == s.subrange(a, b),
{
    if a < b {
        lemma_leading_ws_is(s, a);
        lemma_trailing_ws_is(s, b);
    } else {
        // Every character is whitespace, so both sides are empty.
        lemma_leading_ws_is(s, s.len() as int);
        lemma_trailing_ws_is(s, 0);
        assert(spec_trim(s) =~= s.subrange(a, b));
    }
}

/// A view of `s` with leading and trailing whitespace removed.
pub fn trimmed_part<'a>(s: &'a str) -> (t: &'a str)
    ensures
        t@ == spec_trim(s@),
{
    let n = s.unicode_len();
    let mut start: usize = 0;
    while start < n && whitespace_char(s.get_char(start))
        invariant
            n == s@.len(),
            0 <= start <= n,
            forall|i: int| 0 <= i < start ==> is_whitespace_char(s@[i]),
        decreases n - start,
    {
        start = start + 1;
    }
    let mut end: usize = n;
    while end > start && whitespace_char(s.get_char(end - 1))
        invariant
            n == s@.len(),
            0 <= start <= end <= n,
            forall|i: int| end <= i < n ==> is_whitespace_char(s@[i]),
        decreases end,
    {
        end = end - 1;
    }
    proof {
        lemma_trim_subrange(s@, start as int, end as int);
    }
    s.substring_char(start, end)
}

/// `p` is an initial segment of `s`.
pub open spec fn spec_has_prefix(s: Seq<char>, p: Seq<char>) -> bool {
    s.len() >= p.len() && s.subrange(0, p.len() as int) == p
}

/// Whether `s` starts with the prefix `p`, compared character by character.
pub fn has_prefix(s: &str, p: &str) -> (b: bool)
    ensures
        b == spec_has_prefix(s@, p@),
{
    let n = s.unicode_len();
    let m = p.unicode_len();
    if n < m {
        return false;
    }
    let mut i: usize = 0;
    while i < m
        invariant
            n == s@.len(),
            m == p@.len(),
            m <= n,
            0 <= i <= m,
            forall|j: int| 0 <= j < i ==> s@[j] == p@[j],
        decreases m - i,
    {
        if s.get_char(i) != p.get_char(i) {
            proof {
                assert(s@.subrange(0, m as int)[i as int] != p@[i as int]);
            }
            return false;
        }
        i = i + 1;
    }
    proof {
        assert(s@.subrange(0, m as int) =~= p@);
    }
    true
}

/// What parsing a `HEAD` file yields, over the file's characters.
///
/// After trimming whitespace: a `ref: ` line yields the refname, shortened of
/// a `refs/heads/` or `refs/remotes/` prefix; a hexadecimal string of at
/// least seven digits yields its first seven characters followed by `...`;
/// anything else yields nothing.
pub open spec fn spec_parse_head(s: Seq<char>) -> Option<Seq<char>> {
    let t = spec_trim(s);
    if spec_has_prefix(t, "ref: "@) {
        let r = t.skip("ref: "@.len() as int);
        if spec_has_prefix(r, "refs/heads/"@) {
            Some(r.skip("refs/heads/"@.len() as int))
        } else if spec_has_prefix(r, "refs/remotes/"@) {
            Some(r.skip("refs/remotes/"@.len() as int))
        } else {
            Some(r)
        }
    } else if t.len() >= 7 && (forall|i: int| 0 <= i < t.len() ==> is_hex_digit_char(t[i])) {
        Some(t.subrange(0, 7) + "..."@)
    } else {
        None
    }
}

/// Extract a branch name (or a shortened detached-head hash) from the
/// contents of a `HEAD` file.
///
/// Returns exactly what [`spec_parse_head`] assigns to the contents: `None`
/// precisely when the trimmed text is neither a `ref: ` line nor a
/// hexadecimal string of at least seven digits.
pub fn parse_git_head(contents: &str) -> (r: Option<String>)
    ensures
        r.deep_view() == spec_parse_head(contents@),
{
    let t = trimmed_part(contents);
    let tn = t.unicode_len();
    if has_prefix(t, "ref: ") {
        proof {
            reveal_strlit("ref: ");
        }
        let rest = t.substring_char(5, tn);
        let rn = tn - 5;
        if has_prefix(rest, "refs/heads/") {
            proof {
                reveal_strlit("refs/heads/");
            }
            let branch = rest.substring_char(11, rn);
            Some(String::from_str(branch))
        } else if has_prefix(rest, "refs/remotes/") {
            proof {
                reveal_strlit("refs/remotes/");
            }
            let remote = rest.substring_char(13, rn);
            Some(String::from_str(remote))
        } else {
            Some(String::from_str(rest))
        }
    } else if tn >= 7 && all_hex(t) {
        let short = t.substring_char(0, 7);
        let r = String::from_str(short).concat("...");
        Some(r)
    } else {
        None
    }
}

/// Whether every character of `s` is an ASCII hexadecimal digit.
fn all_hex(s: &str) -> (b: bool)
    ensures
        b == (forall|i: int| 0 <= i < s@.len() ==> is_hex_digit_char(s@[i])),
{
    let n = s.unicode_len();
    let mut i: usize = 0;
    while i < n
        invariant
            n == s@.len(),
            0 <= i <= n,
            forall|j: int| 0 <= j < i ==> is_hex_digit_char(s@[j]),
        decreases n - i,
    {
        if !hex_digit_char(s.get_char(i)) {
            return false;
        }
        i = i + 1;
    }
    true
}

/// Parsing is a pure function of the text: two `HEAD` contents made of the
/// same characters parse to the same result, however often they are parsed.
pub proof fn lemma_parse_head_deterministic(a: Seq<char>, b: Seq<char>)
    requires
        a == b,
    ensures
        spec_parse_head(a) == spec_parse_head(b),
{
}

} // verus!
