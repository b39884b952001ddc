//! Character-level string helpers shared by the audits.

use vstd::prelude::*;
use vstd::string::*;

verus! {

/// ASCII case folding of a single character, as a code point.
pub open spec fn ascii_fold(c: char) -> u32 {
    let v = c as u32;
    if 65 <= v && v <= 90 {
        (v + 32) as u32
    } else {
        v
    }
}

/// `a` and `b` are equal up to ASCII case (std's `eq_ignore_ascii_case`).
pub open spec fn eq_ignore_ascii_case(a: Seq<char>, b: Seq<char>) -> bool {
    &&& a.len() == b.len()
    &&& forall|i: int| 0 <= i < a.len() ==> ascii_fold(#[trigger] a[i]) == ascii_fold(b[i])
}

fn fold_char(c: char) -> (r: u32)
    ensures
        r == ascii_fold(c),
{
    let v = c as u32;
    if 65 <= v && v <= 90 {
        v + 32
    } else {
        v
    }
}

/// Compares two strings, ignoring ASCII case.
pub fn str_eq_ignore_ascii_case(a: &str, b: &str) -> (r: bool)
    ensures
        r == eq_ignore_ascii_case(a@, b@),
{
    let n = a.unicode_len();
    let m = b.unicode_len();
    if n != m {
        return false;
    }
    let mut i: usize = 0;
    while i < n
        invariant
            n == a@.len(),
            m == b@.len(),
            n == m,
            i <= n,
            forall|k: int| 0 <= k < i ==> ascii_fold(#[trigger] a@[k]) == ascii_fold(b@[k]),
        decreases n - i,
    {
        if fold_char(a.get_char(i)) != fold_char(b.get_char(i)) {
            return false;
        }
        i = i + 1;
    }
    true
}

/// Compares two strings.
pub fn str_eq(a: &str, b: &str) -> (r: bool)
    ensures
        r == (a@ == b@),
{
    let n = a.unicode_len();
    let m = b.unicode_len();
    if n != m {
        return false;
    }
    let mut i: usize = 0;
    while i < n
        invariant
            n == a@.len(),
            m == b@.len(),
            n == m,
            i <= n,
            forall|k: int| 0 <= k < i ==> a@[k] == b@[k],
        decreases n - i,
    {
        if a.get_char(i) != b.get_char(i) {
            return false;
        }
        i = i + 1;
    }
    assert(a@ =~= b@);
    true
}

/// `needle` occurs in `hay` starting at position `i`.
pub open spec fn occurs_at(hay: Seq<char>, needle: Seq<char>, i: int) -> bool {
    &&& 0 <= i
    &&& i + needle.len() <= hay.len()
    &&& hay.subrange(i, i + needle.len()) == needle
}

/// `needle` occurs somewhere in `hay` (std's `str::contains`).
pub open spec fn contains_seq(hay: Seq<char>, needle: Seq<char>) -> bool {
    exists|i: int| occurs_at(hay, needle, i)
}

/// Substring search.
pub fn str_contains(hay: &str, needle: &str) -> (r: bool)
    ensures
        r == contains_seq(hay@, needle@),
{
    let n = hay.unicode_len();
    let m = needle.unicode_len();
    if m > n {
        assert forall|i: int| !occurs_at(hay@, needle@, i) by {}
        return false;
    }
    if m == 0 {
        assert(hay@.subrange(0, 0) =~= needle@);
        assert(occurs_at(hay@, needle@, 0));
        return true;
    }
    let mut i: usize = 0;
    while i <= n - m
        invariant
            n == hay@.len(),
            m == needle@.len(),
            1 <= m <= n,
            i <= n - m + 1,
            forall|k: int| 0 <= k < i ==> !occurs_at(hay@, needle@, k),
        decreases n - m + 1 - i,
    {
        let mut j: usize = 0;
        let mut same = true;
        while j < m
            invariant
                n == hay@.len(),
                m == needle@.len(),
                i + m <= n,
                j <= m,
                same ==> forall|t: int| 0 <= t < j ==> hay@[i + t] == needle@[t],
                !same ==> !occurs_at(hay@, needle@, i as int),
            decreases m - j,
        {
            if hay.get_char(i + j) != needle.get_char(j) {
                same = false;
                assert(hay@.subrange(i as int, i + m)[j as int] != needle@[j as int]);
            }
            j = j + 1;
        }
        if same {
            assert(hay@.subrange(i as int, i + m) =~= needle@);
            assert(occurs_at(hay@, needle@, i as int));
            return true;
        }
        i = i + 1;
    }
    assert forall|k: int| !occurs_at(hay@, needle@, k) by {
        if occurs_at(hay@, needle@, k) {
            assert(k < i);
        }
    }
    false
}

/// An expression fence `${{` opens at position `i`.
pub open spec fn opens_at(s: Seq<char>, i: int) -> bool {
    &&& 0 <= i
    &&& i + 3 <= s.len()
    &&& s[i] == '$'
    &&& s[i + 1] == '{'
    &&& s[i + 2] == '{'
}

/// `i` is the first position at which a fence opens.
pub open spec fn first_open(s: Seq<char>, i: int) -> bool {
    &&& opens_at(s, i)
    &&& forall|k: int| 0 <= k < i ==> !opens_at(s, k)
}

/// The number of single quotes in `s[a..b)`.
pub open spec fn quote_count(s: Seq<char>, a: int, b: int) -> nat
    decreases b - a,
{
    if b <= a {
        0
    } else {
        quote_count(s, a, b - 1) + if s[b - 1] == '\'' {
            1nat
        } else {
            0nat
        }
    }
}

/// The fence opened at `start` is closed by the `}}` ending at `j`:
/// `}}` outside of any single-quoted string literal.
pub open spec fn closes_at(s: Seq<char>, start: int, j: int) -> bool {
    &&& start < j < s.len()
    &&& s[j] == '}'
    &&& s[j - 1] == '}'
    &&& quote_count(s, start, j) % 2 == 0
}

/// `s` holds a complete fenced expression, starting at its first `${{`.
pub open spec fn has_fenced_expression(s: Seq<char>) -> bool {
    exists|i: int, j: int| first_open(s, i) && closes_at(s, i, j)
}

fn find_open(text: &str) -> (r: Option<usize>)
    ensures
        match r {
            Some(i) => first_open(text@, i as int),
            None => forall|k: int| !opens_at(text@, k),
        },
{
    let n = text.unicode_len();
    let mut i: usize = 0;
    while i < n && n - i >= 3
        invariant
            n == text@.len(),
            i <= n,
            forall|k: int| 0 <= k < i ==> !opens_at(text@, k),
        decreases n - i,
    {
        if text.get_char(i) == '$' && text.get_char(i + 1) == '{' && text.get_char(i + 2) == '{' {
            return Some(i);
        }
        i = i + 1;
    }
    None
}

/// Finds the first fenced expression `${{ ... }}` in `text`, returning its
/// span as `(start, end)` with `end` exclusive. Only the first `${{` is
/// considered; a `}}` inside a single-quoted string does not close it.
pub fn extract_fenced_expression(text: &str) -> (r: Option<(usize, usize)>)
    ensures
        match r {
            Some((a, b)) => {
                &&& first_open(text@, a as int)
                &&& closes_at(text@, a as int, b - 1)
                &&& forall|j: int| a < j < b - 1 ==> !closes_at(text@, a as int, j)
            },
            None => !has_fenced_expression(text@),
        },
{
    let n = text.unicode_len();
    let start = match find_open(text) {
        Some(i) => i,
        None => {
            return None;
        },
    };
    let mut j: usize = start;
    let mut in_string = false;
    while j < n
        invariant
            n == text@.len(),
            first_open(text@, start as int),
            start <= j <= n,
            in_string == (quote_count(text@, start as int, j as int) % 2 == 1),
            forall|k: int| start < k < j ==> !closes_at(text@, start as int, k),
        decreases n - j,
    {
        let c = text.get_char(j);
        if c == '\'' {
            in_string = !in_string;
        } else if !in_string && c == '}' && j > start && text.get_char(j - 1) == '}' {
            return Some((start, j + 1));
        }
        j = j + 1;
    }
    assert forall|i: int, k: int| first_open(text@, i) && closes_at(text@, i, k) implies false by {
        if i < start {
            assert(!opens_at(text@, i));
        } else if start < i {
            assert(!opens_at(text@, start as int));
        }
    }
    None
}

proof fn lemma_no_quotes(s: Seq<char>, a: int, b: int)
    requires
        forall|k: int| a <= k < b ==> s[k] != '\'',
    ensures
        quote_count(s, a, b) == 0,
    decreases b - a,
{
    if b > a {
        lemma_no_quotes(s, a, b - 1);
    }
}

/// Text in which `${{` never occurs holds no fenced expression.
pub proof fn lemma_no_open_no_fence(s: Seq<char>)
    requires
        forall|i: int| !opens_at(s, i),
    ensures
        !has_fenced_expression(s),
{
}

/// Text without single quotes that starts with `${{` and ends with `}}`
/// holds a fenced expression.
pub proof fn lemma_fenced_text(s: Seq<char>)
    requires
        s.len() >= 5,
        opens_at(s, 0),
        s[s.len() - 2] == '}',
        s[s.len() - 1] == '}',
        forall|k: int| 0 <= k < s.len() ==> s[k] != '\'',
    ensures
        has_fenced_expression(s),
{
    lemma_no_quotes(s, 0, s.len() - 1);
    assert(first_open(s, 0));
    assert(closes_at(s, 0, s.len() - 1));
}

/// Unicode lower-casing, as done by std's `str::to_lowercase`.
pub uninterp spec fn unicode_lowercase(s: Seq<char>) -> Seq<char>;

/// Calls `str::to_lowercase`. Its result is named by `unicode_lowercase`:
/// std documents it as a function of the input alone (the Unicode
/// `Lowercase` mapping, with a special case for final sigma), which takes
/// tables to state.
#[verifier::external_body]
pub(crate) fn to_lowercase(s: &str) -> (r: String)
    ensures
        r@ == unicode_lowercase(s@),
{
    s.to_lowercase()
}

} // verus!
