//! Splitting a line into words separated by ASCII whitespace.

use vstd::prelude::*;
use vstd::string::*;

verus! {

/// ASCII whitespace: space, tab, line feed, form feed and carriage return.
pub open spec fn is_ascii_ws(c: char) -> bool {
    c == ' ' || c == '\t' || c == '\n' || c == '\x0C' || c == '\r'
}

/// The first position at or after `i` that does not hold whitespace (or the length).
pub open spec fn skip_ws(s: Seq<char>, i: int) -> int
    decreases s.len() - i,
{
    if 0 <= i < s.len() && is_ascii_ws(s[i]) {
        skip_ws(s, i + 1)
    } else {
        i
    }
}

/// The first position at or after `i` that holds whitespace (or the length).
pub open spec fn word_end(s: Seq<char>, i: int) -> int
    decreases s.len() - i,
{
    if 0 <= i < s.len() && !is_ascii_ws(s[i]) {
        word_end(s, i + 1)
    } else {
        i
    }
}

/// The first whitespace-separated word of `s` at or after position `i`, if any.
pub open spec fn word_from(s: Seq<char>, i: int) -> Option<Seq<char>> {
    let a = skip_ws(s, i);
    if a < s.len() {
        Some(s.subrange(a, word_end(s, a)))
    } else {
        None
    }
}

/// The position right after the first word at or after `i`.
pub open spec fn after_word(s: Seq<char>, i: int) -> int {
    word_end(s, skip_ws(s, i))
}

/// Skipping whitespace from `i` passes only whitespace and stops at the end or at a
/// character that is not whitespace.
pub proof fn lemma_skip_ws(s: Seq<char>, i: int)
    requires
        0 <= i <= s.len(),
    ensures
        i <= skip_ws(s, i) <= s.len(),
        forall|k: int| i <= k < skip_ws(s, i) ==> is_ascii_ws(#[trigger] s[k]),
        skip_ws(s, i) < s.len() ==> !is_ascii_ws(s[skip_ws(s, i)]),
    decreases s.len() - i,
{
    if i < s.len() && is_ascii_ws(s[i]) {
        lemma_skip_ws(s, i + 1);
    }
}

/// A word from `i` passes only characters that are not whitespace and stops at the end or at
/// whitespace.
pub proof fn lemma_word_end(s: Seq<char>, i: int)
    requires
        0 <= i <= s.len(),
    ensures
        i <= word_end(s, i) <= s.len(),
        forall|k: int| i <= k < word_end(s, i) ==> !is_ascii_ws(#[trigger] s[k]),
        word_end(s, i) < s.len() ==> is_ascii_ws(s[word_end(s, i)]),
    decreases s.len() - i,
{
    if i < s.len() && !is_ascii_ws(s[i]) {
        lemma_word_end(s, i + 1);
    }
}

/// Whitespace skipping stops exactly at `j` when `[i, j)` is whitespace and `j` is the end or
/// not whitespace.
pub proof fn lemma_skip_ws_at(s: Seq<char>, i: int, j: int)
    requires
        0 <= i <= j <= s.len(),
        forall|k: int| i <= k < j ==> is_ascii_ws(#[trigger] s[k]),
        j < s.len() ==> !is_ascii_ws(s[j]),
    ensures
        skip_ws(s, i) == j,
    decreases j - i,
{
    if i < j {
        lemma_skip_ws_at(s, i + 1, j);
    }
}

/// A word ends exactly at `j` when `[i, j)` holds no whitespace and `j` is the end or
/// whitespace.
pub proof fn lemma_word_end_at(s: Seq<char>, i: int, j: int)
    requires
        0 <= i <= j <= s.len(),
        forall|k: int| i <= k < j ==> !is_ascii_ws(#[trigger] s[k]),
        j < s.len() ==> is_ascii_ws(s[j]),
    ensures
        word_end(s, i) == j,
    decreases j - i,
{
    if i < j {
        lemma_word_end_at(s, i + 1, j);
    }
}

/// The first two words of `line` are `w1` and `w2`: `line` is whitespace, `w1`, some whitespace,
/// `w2`, then the end or whitespace, the words holding no whitespace and not being empty.
pub open spec fn first_two_words(line: Seq<char>, w1: Seq<char>, w2: Seq<char>) -> bool {
    exists|a: int, b: int, c: int, d: int|
        {
            &&& 0 <= a < b < c < d <= line.len()
            &&& forall|k: int| 0 <= k < a ==> is_ascii_ws(#[trigger] line[k])
            &&& forall|k: int| a <= k < b ==> !is_ascii_ws(#[trigger] line[k])
            &&& forall|k: int| b <= k < c ==> is_ascii_ws(#[trigger] line[k])
            &&& forall|k: int| c <= k < d ==> !is_ascii_ws(#[trigger] line[k])
            &&& (d == line.len() || is_ascii_ws(line[d]))
            &&& w1 == line.subrange(a, b)
            &&& w2 == line.subrange(c, d)
        }
}

/// The word found from position `i` is the first maximal run of characters that are not
/// whitespace at or after `i`, and the position after it is where that run ends; no word is
/// found exactly when only whitespace follows `i`.
pub proof fn lemma_word_from(s: Seq<char>, i: int)
    requires
        0 <= i <= s.len(),
    ensures
        word_from(s, i) is None <==> forall|k: int| i <= k < s.len() ==> is_ascii_ws(#[trigger] s[k]),
        word_from(s, i) matches Some(w) ==> exists|a: int|
            {
                &&& i <= a < after_word(s, i) <= s.len()
                &&& forall|k: int| i <= k < a ==> is_ascii_ws(#[trigger] s[k])
                &&& forall|k: int| a <= k < after_word(s, i) ==> !is_ascii_ws(#[trigger] s[k])
                &&& (after_word(s, i) == s.len() || is_ascii_ws(s[after_word(s, i)]))
                &&& w == s.subrange(a, after_word(s, i))
            },
{
    let a = skip_ws(s, i);
    lemma_skip_ws(s, i);
    lemma_word_end(s, a);
    if a < s.len() {
        assert(!is_ascii_ws(s[a]));
        lemma_word_end(s, a + 1);
        let e = after_word(s, i);
        assert(a < e);
        assert(i <= a < e <= s.len() && (forall|k: int| i <= k < a ==> is_ascii_ws(
            #[trigger] s[k],
        )) && (forall|k: int| a <= k < e ==> !is_ascii_ws(#[trigger] s[k])) && (e == s.len()
            || is_ascii_ws(s[e])) && word_from(s, i)->Some_0 == s.subrange(a, e));
    }
}

/// The two words found from the start of a line are its first two words.
pub proof fn lemma_two_words(line: Seq<char>)
    requires
        word_from(line, 0) is Some,
        word_from(line, after_word(line, 0)) is Some,
    ensures
        first_two_words(
            line,
            word_from(line, 0)->Some_0,
            word_from(line, after_word(line, 0))->Some_0,
        ),
{
    let a = skip_ws(line, 0);
    lemma_skip_ws(line, 0);
    let b = word_end(line, a);
    lemma_word_end(line, a);
    let c = skip_ws(line, b);
    lemma_skip_ws(line, b);
    let d = word_end(line, c);
    lemma_word_end(line, c);
    assert(a < b);
    assert(c < d);
    assert(b < line.len() && is_ascii_ws(line[b]));
    assert(b < c);
}

proof fn lemma_word_end_bounds(s: Seq<char>, i: int)
    requires
        0 <= i <= s.len(),
    ensures
        i <= word_end(s, i) <= s.len(),
    decreases s.len() - i,
{
    if i < s.len() && !is_ascii_ws(s[i]) {
        lemma_word_end_bounds(s, i + 1);
    }
}

/// Locates the first word of `s` at or after character position `from`: returns its start
/// and end positions (both equal to the length when there is no word).
pub fn find_word(s: &str, from: usize) -> (r: (usize, usize))
    requires
        from <= s@.len(),
    ensures
        r.0 == skip_ws(s@, from as int),
        r.1 == word_end(s@, r.0 as int),
        from <= r.0 <= r.1 <= s@.len(),
{
    let n = s.unicode_len();
    let mut i = from;
    while i < n && is_ws(s.get_char(i))
        invariant
            n == s@.len(),
            from <= i <= n,
            skip_ws(s@, i as int) == skip_ws(s@, from as int),
        decreases n - i,
    {
        i = i + 1;
    }
    let start = i;
    proof {
        lemma_word_end_bounds(s@, start as int);
    }
    while i < n && !is_ws(s.get_char(i))
        invariant
            n == s@.len(),
            start <= i <= n,
            word_end(s@, i as int) == word_end(s@, start as int),
        decreases n - i,
    {
        i = i + 1;
    }
    (start, i)
}

/// Whether `c` is ASCII whitespace.
pub fn is_ws(c: char) -> (r: bool)
    ensures
        r == is_ascii_ws(c),
{
    c == ' ' || c == '\t' || c == '\n' || c == '\x0C' || c == '\r'
}

/// Returns the first word of `s` at or after position `from` and the position right after it.
pub fn next_word(s: &str, from: usize) -> (r: Option<(String, usize)>)
    requires
        from <= s@.len(),
    ensures
        r is Some <==> word_from(s@, from as int) is Some,
        r matches Some((w, e)) ==> word_from(s@, from as int) == Some(w@) && e == after_word(
            s@,
            from as int,
        ),
        r matches Some((w, e)) ==> e <= s@.len(),
{
    let (a, b) = find_word(s, from);
    if a < s.unicode_len() {
        let w = s.substring_char(a, b);
        Some((String::from_str(w), b))
    } else {
        None
    }
}

} // verus!
