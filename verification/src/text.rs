//! Character-sequence helpers shared by the text-processing parts of the library.
//!
//! Strings are modelled by their view, a `Seq<char>`. The executable helpers work
//! on `Vec<char>` and are proved against the spec functions defined here.
use vstd::prelude::*;

verus! {

broadcast use vstd::string::group_string_axioms;

/// Copies the characters of a string slice into a vector.
pub fn to_chars(s: &str) -> (v: Vec<char>)
    ensures
        v@ == s@,
{
    let mut v: Vec<char> = Vec::new();
    for c in it: s.chars()
        invariant
            v@ == it.seq().take(it.index()),
    {
        v.push(c);
    }
    v
}

// ---------------------------------------------------------------------------
// Whitespace
// ---------------------------------------------------------------------------
/// Unicode `White_Space`, the set that `char::is_whitespace` tests.
pub open spec fn is_ws(c: char) -> bool {
    ||| c == ' '
    ||| ('\u{9}' <= c && c <= '\u{d}')
    ||| c == '\u{85}'
    ||| c == '\u{a0}'
    ||| c == '\u{1680}'
    ||| ('\u{2000}' <= c && c <= '\u{200a}')
    ||| c == '\u{2028}'
    ||| c == '\u{2029}'
    ||| c == '\u{202f}'
    ||| c == '\u{205f}'
    ||| c == '\u{3000}'
}

/// Whether `c` is Unicode white space.
pub fn is_whitespace(c: char) -> (r: bool)
    ensures
        r == is_ws(c),
{
    c == ' ' || ('\u{9}' <= c && c <= '\u{d}') || c == '\u{85}' || c == '\u{a0}' || c
        == '\u{1680}' || ('\u{2000}' <= c && c <= '\u{200a}') || c == '\u{2028}' || c
        == '\u{2029}' || c == '\u{202f}' || c == '\u{205f}' || c == '\u{3000}'
}

/// `s` with its leading white space removed.
pub open spec fn trim_start(s: Seq<char>) -> Seq<char>
    decreases s.len(),
{
    if s.len() > 0 && is_ws(s[0]) {
        trim_start(s.drop_first())
    } else {
        s
    }
}

/// `s` with its trailing white space removed.
pub open spec fn trim_end(s: Seq<char>) -> Seq<char>
    decreases s.len(),
{
    if s.len() > 0 && is_ws(s.last()) {
        trim_end(s.drop_last())
    } else {
        s
    }
}

/// `s` with leading and trailing white space removed.
pub open spec fn trim(s: Seq<char>) -> Seq<char> {
    trim_end(trim_start(s))
}

/// Number of leading white-space characters of `s`.
pub open spec fn leading_ws(s: Seq<char>) -> nat
    decreases s.len(),
{
    if s.len() > 0 && is_ws(s[0]) {
        1 + leading_ws(s.drop_first())
    } else {
        0
    }
}

pub proof fn lemma_trim_start_skip(s: Seq<char>)
    ensures
        leading_ws(s) <= s.len(),
        trim_start(s) == s.skip(leading_ws(s) as int),
        forall|i: int| 0 <= i < leading_ws(s) ==> is_ws(#[trigger] s[i]),
        leading_ws(s) < s.len() ==> !is_ws(s[leading_ws(s) as int]),
    decreases s.len(),
{
    if s.len() > 0 && is_ws(s[0]) {
        lemma_trim_start_skip(s.drop_first());
        assert(s.drop_first().skip(leading_ws(s.drop_first()) as int) =~= s.skip(
            leading_ws(s) as int,
        ));
        assert forall|i: int| 0 <= i < leading_ws(s) implies is_ws(#[trigger] s[i]) by {
            if i > 0 {
                assert(s[i] == s.drop_first()[i - 1]);
            }
        }
    } else {
        assert(s.skip(0) =~= s);
    }
}

pub proof fn lemma_trim_end_take(s: Seq<char>, n: int)
    requires
        0 <= n <= s.len(),
        forall|i: int| n <= i < s.len() ==> is_ws(#[trigger] s[i]),
        n == 0 || !is_ws(s[n - 1]),
    ensures
        trim_end(s) == s.take(n),
    decreases s.len(),
{
    if s.len() > 0 && is_ws(s.last()) {
        if n == s.len() {
            assert(!is_ws(s[n - 1]));
        }
        lemma_trim_end_take(s.drop_last(), n);
        assert(s.drop_last().take(n) =~= s.take(n));
    } else {
        if n < s.len() {
            assert(is_ws(s[s.len() - 1]));
        }
        assert(s.take(n) =~= s);
    }
}

/// Index one past the last non-white-space character of `v` at or after `lo`
/// (or `lo` when there is none).
pub fn trim_end_index(v: &Vec<char>, lo: usize) -> (n: usize)
    requires
        lo <= v.len(),
    ensures
        lo <= n <= v.len(),
        forall|i: int| n <= i < v.len() ==> is_ws(#[trigger] v@[i]),
        n == lo || !is_ws(v@[n - 1]),
{
    let mut n = v.len();
    while n > lo && is_whitespace(v[n - 1])
        invariant
            lo <= n <= v.len(),
            forall|i: int| n <= i < v.len() ==> is_ws(#[trigger] v@[i]),
        decreases n,
    {
        n = n - 1;
    }
    n
}

/// Index of the first non-white-space character of `v` (or its length).
pub fn trim_start_index(v: &Vec<char>) -> (n: usize)
    ensures
        n == leading_ws(v@),
        n <= v.len(),
{
    proof {
        lemma_trim_start_skip(v@);
    }
    let mut n: usize = 0;
    while n < v.len() && is_whitespace(v[n])
        invariant
            n <= leading_ws(v@),
            leading_ws(v@) <= v.len(),
            forall|i: int| 0 <= i < leading_ws(v@) ==> is_ws(#[trigger] v@[i]),
            leading_ws(v@) < v.len() ==> !is_ws(v@[leading_ws(v@) as int]),
        decreases v.len() - n,
    {
        n = n + 1;
    }
    n
}

/// A copy of `v[lo..hi]`.
pub fn slice_chars(v: &Vec<char>, lo: usize, hi: usize) -> (r: Vec<char>)
    requires
        lo <= hi <= v.len(),
    ensures
        r@ == v@.subrange(lo as int, hi as int),
{
    let mut r: Vec<char> = Vec::new();
    let mut i = lo;
    while i < hi
        invariant
            lo <= i <= hi <= v.len(),
            r@ == v@.subrange(lo as int, i as int),
        decreases hi - i,
    {
        r.push(v[i]);
        i = i + 1;
    }
    r
}

/// `v` with leading and trailing white space removed.
pub fn trim_chars(v: &Vec<char>) -> (r: Vec<char>)
    ensures
        r@ == trim(v@),
{
    let lo = trim_start_index(v);
    let hi = trim_end_index(v, lo);
    proof {
        lemma_trim_start_skip(v@);
        let t = v@.skip(lo as int);
        assert forall|i: int| (hi - lo) <= i < t.len() implies is_ws(#[trigger] t[i]) by {
            assert(t[i] == v@[i + lo]);
        }
        lemma_trim_end_take(t, hi - lo);
        assert(t.take(hi - lo) =~= v@.subrange(lo as int, hi as int));
    }
    slice_chars(v, lo, hi)
}

/// `v` with trailing white space removed.
pub fn trim_end_chars(v: &Vec<char>) -> (r: Vec<char>)
    ensures
        r@ == trim_end(v@),
{
    let hi = trim_end_index(v, 0);
    proof {
        lemma_trim_end_take(v@, hi as int);
        assert(v@.take(hi as int) =~= v@.subrange(0, hi as int));
    }
    slice_chars(v, 0, hi)
}

/// `v` with leading white space removed.
pub fn trim_start_chars(v: &Vec<char>) -> (r: Vec<char>)
    ensures
        r@ == trim_start(v@),
{
    let lo = trim_start_index(v);
    proof {
        lemma_trim_start_skip(v@);
        assert(v@.skip(lo as int) =~= v@.subrange(lo as int, v@.len() as int));
    }
    slice_chars(v, lo, v.len())
}

// ---------------------------------------------------------------------------
// Prefixes, occurrences
// ---------------------------------------------------------------------------
/// `p` is a prefix of `s`.
pub open spec fn has_prefix(s: Seq<char>, p: Seq<char>) -> bool {
    p.len() <= s.len() && s.take(p.len() as int) == p
}

/// `p` occurs in `s` starting at index `i`.
pub open spec fn occurs_at(s: Seq<char>, p: Seq<char>, i: int) -> bool {
    0 <= i && i + p.len() <= s.len() && s.subrange(i, i + p.len()) == p
}

/// The first index `i >= from` at which `p` occurs in `s`.
pub open spec fn find_from(s: Seq<char>, p: Seq<char>, from: int) -> Option<int>
    decreases s.len() + 1 - from,
{
    if from < 0 || from + p.len() > s.len() {
        None
    } else if occurs_at(s, p, from) {
        Some(from)
    } else {
        find_from(s, p, from + 1)
    }
}

/// `p` occurs somewhere in `s`.
pub open spec fn contains_seq(s: Seq<char>, p: Seq<char>) -> bool {
    exists|i: int| occurs_at(s, p, i)
}

pub proof fn lemma_find_from_props(s: Seq<char>, p: Seq<char>, from: int)
    requires
        from >= 0,
    ensures
        find_from(s, p, from) matches Some(k) ==> from <= k && occurs_at(s, p, k) && forall|
            j: int,
        | from <= j < k ==> !occurs_at(s, p, j),
        find_from(s, p, from) is None ==> forall|j: int| from <= j ==> !occurs_at(s, p, j),
    decreases s.len() + 1 - from,
{
    if from + p.len() > s.len() {
    } else if occurs_at(s, p, from) {
    } else {
        lemma_find_from_props(s, p, from + 1);
    }
}

/// Searching in a suffix is searching in the whole from the suffix's start.
pub proof fn lemma_find_shift(s: Seq<char>, p: Seq<char>, pos: int, j: int)
    requires
        0 <= pos <= s.len(),
        0 <= j,
    ensures
        find_from(s, p, pos + j) == match find_from(s.skip(pos), p, j) {
            Some(k) => Some(k + pos),
            None => None,
        },
    decreases s.len() + 1 - pos - j,
{
    let t = s.skip(pos);
    if pos + j + p.len() > s.len() {
    } else {
        assert(s.subrange(pos + j, pos + j + p.len()) =~= t.subrange(j, j + p.len()));
        if !occurs_at(s, p, pos + j) {
            lemma_find_shift(s, p, pos, j + 1);
        }
    }
}

pub proof fn lemma_contains_iff_find(s: Seq<char>, p: Seq<char>)
    ensures
        contains_seq(s, p) <==> find_from(s, p, 0) is Some,
{
    lemma_find_from_props(s, p, 0);
    if let Some(k) = find_from(s, p, 0) {
        assert(occurs_at(s, p, k));
    }
}

/// Whether `p` occurs in `s` at index `i`.
pub fn occurs_at_exec(s: &Vec<char>, p: &Vec<char>, i: usize) -> (r: bool)
    ensures
        r == occurs_at(s@, p@, i as int),
{
    if i > s.len() || p.len() > s.len() - i {
        return false;
    }
    let mut j: usize = 0;
    while j < p.len()
        invariant
            i + p.len() <= s.len(),
            j <= p.len(),
            forall|k: int| 0 <= k < j ==> s@[i + k] == p@[k],
        decreases p.len() - j,
    {
        if s[i + j] != p[j] {
            proof {
                assert(s@.subrange(i as int, i + p.len())[j as int] != p@[j as int]);
            }
            return false;
        }
        j = j + 1;
    }
    assert(s@.subrange(i as int, i + p.len()) =~= p@);
    true
}

/// First index at or after `from` where `p` occurs in `s`.
pub fn find_chars(s: &Vec<char>, p: &Vec<char>, from: usize) -> (r: Option<usize>)
    ensures
        match r {
            Some(k) => find_from(s@, p@, from as int) == Some(k as int),
            None => find_from(s@, p@, from as int) is None,
        },
{
    let mut i = from;
    if i > s.len() || p.len() > s.len() - i {
        return None;
    }
    while p.len() <= s.len() - i
        invariant
            from <= i,
            i <= s.len(),
            find_from(s@, p@, from as int) == find_from(s@, p@, i as int),
        decreases s.len() - i,
    {
        if occurs_at_exec(s, p, i) {
            return Some(i);
        }
        proof {
            if p.len() == 0 {
                assert(s@.subrange(i as int, i as int) =~= p@);
            }
        }
        i = i + 1;
    }
    None
}

/// Whether `p` is a prefix of `s`.
pub fn has_prefix_exec(s: &Vec<char>, p: &Vec<char>) -> (r: bool)
    ensures
        r == has_prefix(s@, p@),
{
    let r = occurs_at_exec(s, p, 0);
    proof {
        if p@.len() <= s@.len() {
            assert(s@.take(p@.len() as int) =~= s@.subrange(0, p@.len() as int));
        }
    }
    r
}

/// Whether `p` occurs anywhere in `s`.
pub fn contains_exec(s: &Vec<char>, p: &Vec<char>) -> (r: bool)
    ensures
        r == contains_seq(s@, p@),
{
    proof {
        lemma_contains_iff_find(s@, p@);
    }
    find_chars(s, p, 0).is_some()
}

/// Whether the characters of `lit` occur anywhere in `s`.
pub fn contains_str(s: &Vec<char>, lit: &str) -> (r: bool)
    ensures
        r == contains_seq(s@, lit@),
{
    let p = to_chars(lit);
    contains_exec(s, &p)
}

/// Whether `s` starts with the characters of `lit`.
pub fn starts_with_str(s: &Vec<char>, lit: &str) -> (r: bool)
    ensures
        r == has_prefix(s@, lit@),
{
    let p = to_chars(lit);
    has_prefix_exec(s, &p)
}

/// Whether two character vectors hold the same characters.
pub fn chars_eq(a: &Vec<char>, b: &Vec<char>) -> (r: bool)
    ensures
        r == (a@ == b@),
{
    if a.len() != b.len() {
        return false;
    }
    let mut i: usize = 0;
    while i < a.len()
        invariant
            a.len() == b.len(),
            i <= a.len(),
            forall|k: int| 0 <= k < i ==> a@[k] == b@[k],
        decreases a.len() - i,
    {
        if a[i] != b[i] {
            return false;
        }
        i = i + 1;
    }
    assert(a@ =~= b@);
    true
}

/// Whether two string slices hold the same characters.
pub fn str_eq(a: &str, b: &str) -> (r: bool)
    ensures
        r == (a@ == b@),
{
    let va = to_chars(a);
    let vb = to_chars(b);
    chars_eq(&va, &vb)
}

/// A copy of a list of strings.
pub fn clone_strings(list: &Vec<String>) -> (r: Vec<String>)
    ensures
        r@ == list@,
{
    let mut out: Vec<String> = Vec::new();
    let mut i: usize = 0;
    while i < list.len()
        invariant
            i <= list.len(),
            out@ == list@.subrange(0, i as int),
        decreases list.len() - i,
    {
        out.push(list[i].clone());
        i = i + 1;
        proof {
            assert(out@ =~= list@.subrange(0, i as int));
        }
    }
    proof {
        assert(list@.subrange(0, list@.len() as int) =~= list@);
    }
    out
}

/// Whether `list` holds a string equal to `p`.
pub fn strings_contain(list: &Vec<String>, p: &str) -> (r: bool)
    ensures
        r == list@.map_values(|s: String| s@).contains(p@),
{
    let ghost lv = list@.map_values(|s: String| s@);
    let mut i: usize = 0;
    while i < list.len()
        invariant
            i <= list.len(),
            lv == list@.map_values(|s: String| s@),
            forall|k: int| 0 <= k < i ==> lv[k] != p@,
        decreases list.len() - i,
    {
        if str_eq(list[i].as_str(), p) {
            assert(lv[i as int] == p@);
            return true;
        }
        i = i + 1;
    }
    false
}

/// `v` followed by the characters of `s`.
pub fn push_str(v: &mut Vec<char>, s: &Vec<char>)
    ensures
        final(v)@ == old(v)@ + s@,
{
    let mut i: usize = 0;
    let ghost v0 = v@;
    while i < s.len()
        invariant
            i <= s.len(),
            v@ == v0 + s@.take(i as int),
        decreases s.len() - i,
    {
        v.push(s[i]);
        i = i + 1;
        assert(s@.take(i as int) =~= s@.take((i - 1) as int).push(s@[i - 1]));
    }
    assert(s@.take(s.len() as int) =~= s@);
}

// ---------------------------------------------------------------------------
// Collapsing white space (`split_whitespace` joined with single spaces)
// ---------------------------------------------------------------------------
/// The words of `s` (maximal runs of non-white-space characters) joined by one
/// space each.
pub open spec fn collapse_ws(s: Seq<char>) -> Seq<char>
    decreases s.len(),
{
    if s.len() == 0 {
        Seq::empty()
    } else {
        let prev = collapse_ws(s.drop_last());
        let c = s.last();
        if is_ws(c) {
            prev
        } else if s.len() == 1 || is_ws(s[s.len() - 2]) {
            if prev.len() == 0 {
                seq![c]
            } else {
                prev.push(' ').push(c)
            }
        } else {
            prev.push(c)
        }
    }
}

/// Words of `v` joined by single spaces.
pub fn collapse_whitespace(v: &Vec<char>) -> (r: Vec<char>)
    ensures
        r@ == collapse_ws(v@),
{
    let mut out: Vec<char> = Vec::new();
    let mut i: usize = 0;
    while i < v.len()
        invariant
            i <= v.len(),
            out@ == collapse_ws(v@.take(i as int)),
        decreases v.len() - i,
    {
        let c = v[i];
        proof {
            let t = v@.take(i + 1);
            assert(t.drop_last() =~= v@.take(i as int));
            assert(t.last() == c);
            if i > 0 {
                assert(t[t.len() - 2] == v@[i - 1]);
            }
        }
        if is_whitespace(c) {
        } else if i == 0 || is_whitespace(v[i - 1]) {
            if out.len() > 0 {
                out.push(' ');
            }
            out.push(c);
        } else {
            out.push(c);
        }
        i = i + 1;
    }
    assert(v@.take(v.len() as int) =~= v@);
    out
}

// ---------------------------------------------------------------------------
// Lines (`str::lines`)
// ---------------------------------------------------------------------------
/// `l` without one trailing carriage return.
pub open spec fn strip_cr(l: Seq<char>) -> Seq<char> {
    if l.len() > 0 && l.last() == '\r' {
        l.drop_last()
    } else {
        l
    }
}

/// Index of the first `c` in `s` at or after `from`.
pub open spec fn index_of_char(s: Seq<char>, c: char, from: int) -> Option<int>
    decreases s.len() - from,
{
    if from < 0 || from >= s.len() {
        None
    } else if s[from] == c {
        Some(from)
    } else {
        index_of_char(s, c, from + 1)
    }
}

pub proof fn lemma_index_of_char(s: Seq<char>, c: char, from: int)
    requires
        from >= 0,
    ensures
        index_of_char(s, c, from) matches Some(k) ==> from <= k < s.len() && s[k] == c
            && forall|j: int| from <= j < k ==> s[j] != c,
        index_of_char(s, c, from) is None ==> forall|j: int| from <= j < s.len() ==> s[j] != c,
    decreases s.len() - from,
{
    if from < s.len() && s[from] != c {
        lemma_index_of_char(s, c, from + 1);
    }
}

/// The lines of `s` as `str::lines` yields them: split at `'\n'`, a carriage
/// return right before it dropped, and no empty line after a final newline.
pub open spec fn lines_of(s: Seq<char>) -> Seq<Seq<char>>
    decreases s.len(),
{
    if s.len() == 0 {
        Seq::empty()
    } else {
        match index_of_char(s, '\n', 0) {
            None => seq![s],
            Some(k) => {
                if 0 <= k < s.len() {
                    seq![strip_cr(s.take(k))] + lines_of(s.skip(k + 1))
                } else {
                    Seq::empty()
                }
            },
        }
    }
}

/// Whether `s` holds no line break (`'\n'` or `'\r'`).
pub open spec fn single_line(s: Seq<char>) -> bool {
    forall|i: int| 0 <= i < s.len() ==> #[trigger] s[i] != '\n' && s[i] != '\r'
}

/// The first `c` at or after `from` is at `k` when `s[k]` is `c` and none
/// comes before it.
pub proof fn lemma_index_of_char_at(s: Seq<char>, c: char, from: int, k: int)
    requires
        0 <= from <= k < s.len(),
        s[k] == c,
        forall|j: int| from <= j < k ==> s[j] != c,
    ensures
        index_of_char(s, c, from) == Some(k),
    decreases k - from,
{
    if from < k {
        lemma_index_of_char_at(s, c, from + 1, k);
    }
}

/// No `c` at or after `from` means no index.
pub proof fn lemma_index_of_char_none(s: Seq<char>, c: char, from: int)
    requires
        from >= 0,
        forall|j: int| from <= j < s.len() ==> s[j] != c,
    ensures
        index_of_char(s, c, from) is None,
    decreases s.len() - from,
{
    if from < s.len() {
        lemma_index_of_char_none(s, c, from + 1);
    }
}

/// A line without breaks followed by a newline and more text is the first
/// line of that text.
pub proof fn lemma_lines_of_cons(l: Seq<char>, rest: Seq<char>)
    requires
        single_line(l),
    ensures
        lines_of(l + seq!['\n'] + rest) == seq![l] + lines_of(rest),
{
    let x = l + seq!['\n'] + rest;
    assert(x[l.len() as int] == '\n');
    assert forall|j: int| 0 <= j < l.len() implies x[j] != '\n' by {
        assert(x[j] == l[j]);
    }
    lemma_index_of_char_at(x, '\n', 0, l.len() as int);
    assert(x.take(l.len() as int) =~= l);
    assert(x.skip(l.len() as int + 1) =~= rest);
    if l.len() > 0 {
        assert(l.last() != '\r');
    }
    assert(strip_cr(l) == l);
}

/// A non-empty text without breaks is one line.
pub proof fn lemma_lines_of_single(l: Seq<char>)
    requires
        single_line(l),
        l.len() > 0,
    ensures
        lines_of(l) == seq![l],
{
    lemma_index_of_char_none(l, '\n', 0);
}

/// Index of the first `c` in `v` at or after `from`.
pub fn index_of_char_exec(v: &Vec<char>, c: char, from: usize) -> (r: Option<usize>)
    ensures
        match r {
            Some(k) => index_of_char(v@, c, from as int) == Some(k as int),
            None => index_of_char(v@, c, from as int) is None,
        },
{
    let mut i = from;
    while i < v.len()
        invariant
            from <= i,
            index_of_char(v@, c, from as int) == index_of_char(v@, c, i as int),
        decreases v.len() - i,
    {
        if v[i] == c {
            return Some(i);
        }
        i = i + 1;
    }
    None
}

/// `l` without one trailing carriage return.
pub fn strip_cr_exec(l: Vec<char>) -> (r: Vec<char>)
    ensures
        r@ == strip_cr(l@),
{
    let mut l = l;
    if l.len() > 0 && l[l.len() - 1] == '\r' {
        l.pop();
    }
    l
}

/// The lines of `v`, as `str::lines` splits them.
pub fn split_lines(v: &Vec<char>) -> (r: Vec<Vec<char>>)
    ensures
        r@.len() == lines_of(v@).len(),
        forall|i: int| 0 <= i < r@.len() ==> (#[trigger] r@[i])@ == lines_of(v@)[i],
{
    let mut out: Vec<Vec<char>> = Vec::new();
    let mut start: usize = 0;
    let ghost mut done: Seq<Seq<char>> = Seq::empty();
    assert(v@.skip(0) =~= v@);
    while start < v.len()
        invariant
            start <= v.len(),
            out@.len() == done.len(),
            forall|i: int| 0 <= i < out@.len() ==> (#[trigger] out@[i])@ == done[i],
            done + lines_of(v@.skip(start as int)) == lines_of(v@),
        decreases v.len() - start,
    {
        let ghost rest = v@.skip(start as int);
        let nl = index_of_char_exec(v, '\n', start);
        proof {
            lemma_index_of_char(v@, '\n', start as int);
            lemma_index_of_char(rest, '\n', 0);
        }
        match nl {
            None => {
                proof {
                    if let Some(k) = index_of_char(rest, '\n', 0) {
                        assert(rest[k] == v@[start + k]);
                    }
                }
                let line = slice_chars(v, start, v.len());
                assert(line@ =~= rest);
                out.push(line);
                proof {
                    done = done.push(rest);
                    assert(v@.skip(v.len() as int) =~= Seq::<char>::empty());
                }
                start = v.len();
            },
            Some(k) => {
                proof {
                    let kk = (k - start) as int;
                    assert(rest[kk] == '\n');
                    assert forall|j: int| 0 <= j < kk implies rest[j] != '\n' by {
                        assert(rest[j] == v@[start + j]);
                    }
                    match index_of_char(rest, '\n', 0) {
                        Some(k2) => {
                            assert(rest[k2] == v@[start + k2]);
                            if k2 < kk {
                            } else if k2 > kk {
                                assert(rest[kk] != '\n');
                            }
                        },
                        None => {
                            assert(rest[kk] != '\n');
                        },
                    }
                    assert(index_of_char(rest, '\n', 0) == Some(kk));
                    assert(rest.take(kk) =~= v@.subrange(start as int, k as int));
                    assert(rest.skip(kk + 1) =~= v@.skip(k + 1));
                }
                let piece = slice_chars(v, start, k);
                let line = strip_cr_exec(piece);
                out.push(line);
                proof {
                    let kk = (k - start) as int;
                    done = done.push(strip_cr(rest.take(kk)));
                    assert(lines_of(rest) == seq![strip_cr(rest.take(kk))] + lines_of(
                        rest.skip(kk + 1),
                    ));
                    assert(done + lines_of(v@.skip(k + 1)) =~= done.drop_last() + lines_of(
                        rest,
                    ));
                }
                start = k + 1;
            },
        }
    }
    proof {
        assert(v@.skip(start as int) =~= Seq::<char>::empty());
        assert(done =~= lines_of(v@));
    }
    out
}

// ---------------------------------------------------------------------------
// Case conversion
// ---------------------------------------------------------------------------
/// What `str::to_lowercase` returns for a string with these characters.
pub uninterp spec fn lowercase(s: Seq<char>) -> Seq<char>;

/// Whether every character of `s` is ASCII.
pub open spec fn is_ascii_text(s: Seq<char>) -> bool {
    forall|i: int| 0 <= i < s.len() ==> (#[trigger] s[i] as u32) < 128
}

/// One character with `A`-`Z` lower-cased, others unchanged.
pub open spec fn ascii_lower_char(c: char) -> char {
    if 'A' <= c && c <= 'Z' {
        ((c as u32) + 32) as char
    } else {
        c
    }
}

/// `s` with `A`-`Z` lower-cased, the rest unchanged.
pub open spec fn ascii_lowered(s: Seq<char>) -> Seq<char> {
    s.map_values(|c: char| ascii_lower_char(c))
}

/// Lower-cases `s` with `str::to_lowercase` (full Unicode case mapping; on
/// ASCII text that lower-cases `A`-`Z` and keeps every other character).
#[verifier::external_body]
pub(crate) fn to_lowercase(s: &str) -> (r: String)
    ensures
        r@ == lowercase(s@),
        is_ascii_text(s@) ==> r@ == ascii_lowered(s@),
{
    s.to_lowercase()
}

/// ASCII lower-case code point of one character.
pub open spec fn ascii_lower(c: char) -> int {
    if 'A' <= c && c <= 'Z' {
        (c as u32) + 32
    } else {
        (c as u32) as int
    }
}

/// Whether two sequences are equal up to ASCII case.
pub open spec fn eq_ignore_ascii_case(a: Seq<char>, b: Seq<char>) -> bool {
    a.len() == b.len() && forall|i: int| 0 <= i < a.len() ==> ascii_lower(a[i]) == ascii_lower(b[i])
}

/// ASCII lower-case code point of one character.
pub fn ascii_lower_exec(c: char) -> (r: u32)
    ensures
        r as int == ascii_lower(c),
{
    if 'A' <= c && c <= 'Z' {
        (c as u32) + 32
    } else {
        c as u32
    }
}

/// Whether `a` and `b` are equal up to ASCII case.
pub fn eq_ignore_ascii_case_exec(a: &Vec<char>, b: &Vec<char>) -> (r: bool)
    ensures
        r == eq_ignore_ascii_case(a@, b@),
{
    if a.len() != b.len() {
        return false;
    }
    let mut i: usize = 0;
    while i < a.len()
        invariant
            a.len() == b.len(),
            i <= a.len(),
            forall|k: int| 0 <= k < i ==> ascii_lower(a@[k]) == ascii_lower(b@[k]),
        decreases a.len() - i,
    {
        if ascii_lower_exec(a[i]) != ascii_lower_exec(b[i]) {
            return false;
        }
        i = i + 1;
    }
    true
}

// ---------------------------------------------------------------------------
// Building strings
// ---------------------------------------------------------------------------
/// Collects the characters of `v` into a `String` (`Iterator::collect`).
#[verifier::external_body]
pub(crate) fn string_from_chars(v: &Vec<char>) -> (s: String)
    ensures
        s@ == v@,
{
    v.iter().collect()
}

/// What `i64::to_string` returns: the decimal form of `n`.
pub uninterp spec fn decimal_text(n: int) -> Seq<char>;

/// Decimal form of `n`, by `ToString` on `i64`.
#[verifier::external_body]
pub(crate) fn i64_to_string(n: i64) -> (s: String)
    ensures
        s@ == decimal_text(n as int),
{
    n.to_string()
}

/// Characters of `s`, owned.
pub fn string_chars(s: &String) -> (v: Vec<char>)
    ensures
        v@ == s@,
{
    to_chars(s.as_str())
}

} // verus!
