//! Character-level scanning: whitespace, tokens, trimming and string equality.
use vstd::prelude::*;

verus! {

/// The Unicode `White_Space` property: the code points for which
/// `char::is_whitespace` holds.
pub open spec fn is_ws(c: char) -> bool {
    let u = c as u32;
    (0x9 <= u && u <= 0xd) || u == 0x20 || u == 0x85 || u == 0xa0 || u == 0x1680
        || (0x2000 <= u && u <= 0x200a) || u == 0x2028 || u == 0x2029 || u == 0x202f
        || u == 0x205f || u == 0x3000
}

/// Whether `c` is whitespace in the sense of `is_ws`.
pub fn is_whitespace(c: char) -> (r: bool)
    ensures
        r == is_ws(c),
{
    let u = c as u32;
    (0x9 <= u && u <= 0xd) || u == 0x20 || u == 0x85 || u == 0xa0 || u == 0x1680
        || (0x2000 <= u && u <= 0x200a) || u == 0x2028 || u == 0x2029 || u == 0x202f
        || u == 0x205f || u == 0x3000
}

/// The first index at or after `i` that holds no whitespace, or `s.len()`.
pub open spec fn skip_ws(s: Seq<char>, i: int) -> int
    decreases s.len() - i,
{
    if i >= s.len() {
        s.len() as int
    } else if is_ws(s[i]) {
        skip_ws(s, i + 1)
    } else {
        i
    }
}

/// The first index at or after `i` that holds whitespace, or `s.len()`.
pub open spec fn skip_word(s: Seq<char>, i: int) -> int
    decreases s.len() - i,
{
    if i >= s.len() {
        s.len() as int
    } else if is_ws(s[i]) {
        i
    } else {
        skip_word(s, i + 1)
    }
}

/// Moving down from `j`, the first end index whose last character is no
/// whitespace, stopping at `lo`.
pub open spec fn skip_ws_back(s: Seq<char>, lo: int, j: int) -> int
    decreases j - lo,
{
    if j <= lo {
        lo
    } else if is_ws(s[j - 1]) {
        skip_ws_back(s, lo, j - 1)
    } else {
        j
    }
}

/// `s` without its leading and trailing whitespace.
pub open spec fn trimmed(s: Seq<char>) -> Seq<char> {
    let a = skip_ws(s, 0);
    s.subrange(a, skip_ws_back(s, a, s.len() as int))
}

/// The whitespace-separated word that starts at or after index `i`, with the
/// index just past it; `None` when only whitespace is left.
pub open spec fn word_from(s: Seq<char>, i: int) -> Option<(Seq<char>, int)> {
    let a = skip_ws(s, i);
    if a >= s.len() {
        None
    } else {
        Some((s.subrange(a, skip_word(s, a)), skip_word(s, a)))
    }
}

/// The first two whitespace-separated words of `s`, where present.
pub open spec fn first_two_words(s: Seq<char>) -> Option<(Seq<char>, Seq<char>)> {
    match word_from(s, 0) {
        None => None,
        Some((w1, e1)) => match word_from(s, e1) {
            None => None,
            Some((w2, _e2)) => Some((w1, w2)),
        },
    }
}

proof fn lemma_skip_ws_bounds(s: Seq<char>, i: int)
    requires
        0 <= i <= s.len(),
    ensures
        i <= skip_ws(s, i) <= s.len(),
        skip_ws(s, i) < s.len() ==> !is_ws(s[skip_ws(s, i)]),
    decreases s.len() - i,
{
    if i < s.len() && is_ws(s[i]) {
        lemma_skip_ws_bounds(s, i + 1);
    }
}

proof fn lemma_skip_word_bounds(s: Seq<char>, i: int)
    requires
        0 <= i <= s.len(),
    ensures
        i <= skip_word(s, i) <= s.len(),
    decreases s.len() - i,
{
    if i < s.len() && !is_ws(s[i]) {
        lemma_skip_word_bounds(s, i + 1);
    }
}

proof fn lemma_skip_ws_back_bounds(s: Seq<char>, lo: int, j: int)
    requires
        0 <= lo <= j <= s.len(),
    ensures
        lo <= skip_ws_back(s, lo, j) <= j,
    decreases j - lo,
{
    if j > lo && is_ws(s[j - 1]) {
        lemma_skip_ws_back_bounds(s, lo, j - 1);
    }
}

/// Index of the first non-whitespace character of `s` at or after `i`.
pub fn scan_ws(s: &str, len: usize, i: usize) -> (r: usize)
    requires
        len == s@.len(),
        i <= len,
    ensures
        r == skip_ws(s@, i as int),
{
    let mut k = i;
    while k < len && is_whitespace(s.get_char(k))
        invariant
            len == s@.len(),
            i <= k <= len,
            skip_ws(s@, k as int) == skip_ws(s@, i as int),
        decreases len - k,
    {
        k = k + 1;
    }
    k
}

/// Index of the first whitespace character of `s` at or after `i`.
pub fn scan_word(s: &str, len: usize, i: usize) -> (r: usize)
    requires
        len == s@.len(),
        i <= len,
    ensures
        r == skip_word(s@, i as int),
{
    let mut k = i;
    while k < len && !is_whitespace(s.get_char(k))
        invariant
            len == s@.len(),
            i <= k <= len,
            skip_word(s@, k as int) == skip_word(s@, i as int),
        decreases len - k,
    {
        k = k + 1;
    }
    k
}

/// `s` without leading and trailing whitespace, as `str::trim` gives it.
pub fn trim(s: &str) -> (r: &str)
    ensures
        r@ == trimmed(s@),
{
    let len = s.unicode_len();
    let a = scan_ws(s, len, 0);
    proof {
        lemma_skip_ws_bounds(s@, 0);
    }
    let mut j = len;
    while j > a && is_whitespace(s.get_char(j - 1))
        invariant
            len == s@.len(),
            a <= j <= len,
            a == skip_ws(s@, 0),
            skip_ws_back(s@, a as int, j as int) == skip_ws_back(s@, a as int, len as int),
        decreases j,
    {
        j = j - 1;
    }
    s.substring_char(a, j)
}

/// The first two whitespace-separated words of `s`, as the first two items
/// of `str::split_whitespace` give them.
pub fn two_words(s: &str) -> (r: Option<(&str, &str)>)
    ensures
        match r {
            None => first_two_words(s@) is None,
            Some((w1, w2)) => first_two_words(s@) == Some((w1@, w2@)),
        },
{
    let len = s.unicode_len();
    let a1 = scan_ws(s, len, 0);
    proof {
        lemma_skip_ws_bounds(s@, 0);
    }
    if a1 >= len {
        return None;
    }
    let e1 = scan_word(s, len, a1);
    proof {
        lemma_skip_word_bounds(s@, a1 as int);
    }
    let a2 = scan_ws(s, len, e1);
    proof {
        lemma_skip_ws_bounds(s@, e1 as int);
    }
    if a2 >= len {
        return None;
    }
    let e2 = scan_word(s, len, a2);
    proof {
        lemma_skip_word_bounds(s@, a2 as int);
    }
    Some((s.substring_char(a1, e1), s.substring_char(a2, e2)))
}

/// Whether two strings hold the same characters.
pub fn str_eq(a: &str, b: &str) -> (r: bool)
    ensures
        r == (a@ == b@),
{
    let n = a.unicode_len();
    if n != b.unicode_len() {
        return false;
    }
    let mut i: usize = 0;
    while i < n
        invariant
            n == a@.len(),
            n == b@.len(),
            i <= n,
            forall|k: int| 0 <= k < i ==> a@[k] == b@[k],
        decreases n - i,
    {
        if a.get_char(i) != b.get_char(i) {
            return false;
        }
        i = i + 1;
    }
    proof {
        assert(a@ =~= b@);
    }
    true
}

} // verus!
