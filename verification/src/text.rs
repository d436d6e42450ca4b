//! Character-level helpers over `&str`, stated over `Seq<char>`.

use vstd::prelude::*;

verus! {

/// White space as Unicode defines it (the `White_Space` code points).
pub open spec fn is_space(c: char) -> bool {
    ||| ('\u{9}' <= c && c <= '\u{d}')
    ||| c == ' '
    ||| c == '\u{85}'
    ||| c == '\u{a0}'
    ||| c == '\u{1680}'
    ||| ('\u{2000}' <= c && c <= '\u{200a}')
    ||| c == '\u{2028}'
    ||| c == '\u{2029}'
    ||| c == '\u{202f}'
    ||| c == '\u{205f}'
    ||| c == '\u{3000}'
}

/// The least index at or after `from` where `c` stands in `s`; the length of
/// `s` when there is none.
pub open spec fn position(s: Seq<char>, c: char, from: int) -> int
    decreases s.len() - from,
{
    if from >= s.len() {
        s.len() as int
    } else if s[from] == c {
        from
    } else {
        position(s, c, from + 1)
    }
}

/// The least index at or after `from` where something other than white space
/// stands; the length of `s` when there is none.
pub open spec fn spaces_end(s: Seq<char>, from: int) -> int
    decreases s.len() - from,
{
    if from >= s.len() {
        s.len() as int
    } else if !is_space(s[from]) {
        from
    } else {
        spaces_end(s, from + 1)
    }
}

/// The least index at or after `from` where white space stands; the length of
/// `s` when there is none.
pub open spec fn token_end(s: Seq<char>, from: int) -> int
    decreases s.len() - from,
{
    if from >= s.len() {
        s.len() as int
    } else if is_space(s[from]) {
        from
    } else {
        token_end(s, from + 1)
    }
}

/// Where the white space that ends at `to` begins.
pub open spec fn spaces_start(s: Seq<char>, to: int) -> int
    decreases to,
{
    if to <= 0 {
        0
    } else if !is_space(s[to - 1]) {
        to
    } else {
        spaces_start(s, to - 1)
    }
}

/// `s` without the white space at its two ends.
pub open spec fn trimmed(s: Seq<char>) -> Seq<char> {
    let a = spaces_end(s, 0);
    let b = spaces_start(s, s.len() as int);
    if a < b {
        s.subrange(a, b)
    } else {
        Seq::empty()
    }
}

/// `needle` stands in `hay` at index `i`.
pub open spec fn occurs_at(hay: Seq<char>, needle: Seq<char>, i: int) -> bool {
    &&& 0 <= i
    &&& i + needle.len() <= hay.len()
    &&& hay.subrange(i, i + needle.len()) == needle
}

/// `needle` stands somewhere in `hay`.
pub open spec fn contains_text(hay: Seq<char>, needle: Seq<char>) -> bool {
    exists|i: int| occurs_at(hay, needle, i)
}

/// `position` finds the first occurrence and nothing before it.
pub proof fn lemma_position(s: Seq<char>, c: char, from: int)
    requires
        0 <= from <= s.len(),
    ensures
        from <= position(s, c, from) <= s.len(),
        position(s, c, from) < s.len() ==> s[position(s, c, from)] == c,
        forall|k: int| from <= k < position(s, c, from) ==> s[k] != c,
    decreases s.len() - from,
{
    if from < s.len() && s[from] != c {
        lemma_position(s, c, from + 1);
    }
}

/// `spaces_end` stops at the first character that is no white space.
pub proof fn lemma_spaces_end(s: Seq<char>, from: int)
    requires
        0 <= from <= s.len(),
    ensures
        from <= spaces_end(s, from) <= s.len(),
        spaces_end(s, from) < s.len() ==> !is_space(s[spaces_end(s, from)]),
        forall|k: int| from <= k < spaces_end(s, from) ==> is_space(s[k]),
    decreases s.len() - from,
{
    if from < s.len() && is_space(s[from]) {
        lemma_spaces_end(s, from + 1);
    }
}

/// `token_end` stops at the first white space.
pub proof fn lemma_token_end(s: Seq<char>, from: int)
    requires
        0 <= from <= s.len(),
    ensures
        from <= token_end(s, from) <= s.len(),
        token_end(s, from) < s.len() ==> is_space(s[token_end(s, from)]),
        forall|k: int| from <= k < token_end(s, from) ==> !is_space(s[k]),
    decreases s.len() - from,
{
    if from < s.len() && !is_space(s[from]) {
        lemma_token_end(s, from + 1);
    }
}

/// `spaces_start` stops behind the last character that is no white space.
pub proof fn lemma_spaces_start(s: Seq<char>, to: int)
    requires
        0 <= to <= s.len(),
    ensures
        0 <= spaces_start(s, to) <= to,
        spaces_start(s, to) > 0 ==> !is_space(s[spaces_start(s, to) - 1]),
        forall|k: int| spaces_start(s, to) <= k < to ==> is_space(s[k]),
    decreases to,
{
    if to > 0 && is_space(s[to - 1]) {
        lemma_spaces_start(s, to - 1);
    }
}

/// Trimmed text neither begins nor ends with white space, and trimming it
/// again changes nothing.
pub proof fn lemma_trimmed_is_trim(s: Seq<char>)
    ensures
        trimmed(s).len() > 0 ==> !is_space(trimmed(s).first()) && !is_space(trimmed(s).last()),
        trimmed(trimmed(s)) == trimmed(s),
{
    let t = trimmed(s);
    lemma_spaces_end(s, 0);
    lemma_spaces_start(s, s.len() as int);
    if t.len() > 0 {
        lemma_spaces_end(t, 0);
        lemma_spaces_start(t, t.len() as int);
    }
}

/// Whether `c` is white space.
pub fn is_whitespace(c: char) -> (r: bool)
    ensures
        r == is_space(c),
{
    ('\u{9}' <= c && c <= '\u{d}') || c == ' ' || c == '\u{85}' || c == '\u{a0}' || c == '\u{1680}'
        || ('\u{2000}' <= c && c <= '\u{200a}') || c == '\u{2028}' || c == '\u{2029}' || c
        == '\u{202f}' || c == '\u{205f}' || c == '\u{3000}'
}

/// The characters of `s`, in order.
pub fn chars_of(s: &str) -> (out: Vec<char>)
    ensures
        out@ == s@,
{
    let mut out: Vec<char> = Vec::new();
    for c in it: s.chars()
        invariant
            out@ == it.seq().take(it.index() as int),
    {
        out.push(c);
    }
    out
}

/// The index of the first `c` in `s` at or after `from`, or the length of `s`.
pub(crate) fn find_char(s: &Vec<char>, c: char, from: usize) -> (r: usize)
    requires
        from <= s.len(),
    ensures
        r == position(s@, c, from as int),
        from <= r <= s.len(),
{
    let mut i = from;
    while i < s.len() && s[i] != c
        invariant
            from <= i <= s.len(),
            position(s@, c, from as int) == position(s@, c, i as int),
        decreases s.len() - i,
    {
        i += 1;
    }
    i
}

/// The index of the first character at or after `from` that is no white
/// space, or the length of `s`.
pub(crate) fn skip_spaces(s: &Vec<char>, from: usize) -> (r: usize)
    requires
        from <= s.len(),
    ensures
        r == spaces_end(s@, from as int),
        from <= r <= s.len(),
{
    let mut i = from;
    while i < s.len() && is_whitespace(s[i])
        invariant
            from <= i <= s.len(),
            spaces_end(s@, from as int) == spaces_end(s@, i as int),
        decreases s.len() - i,
    {
        i += 1;
    }
    i
}

/// The index of the first white space at or after `from`, or the length of `s`.
pub(crate) fn skip_token(s: &Vec<char>, from: usize) -> (r: usize)
    requires
        from <= s.len(),
    ensures
        r == token_end(s@, from as int),
        from <= r <= s.len(),
{
    let mut i = from;
    while i < s.len() && !is_whitespace(s[i])
        invariant
            from <= i <= s.len(),
            token_end(s@, from as int) == token_end(s@, i as int),
        decreases s.len() - i,
    {
        i += 1;
    }
    i
}

/// Where the white space that ends at `to` begins.
pub(crate) fn skip_spaces_back(s: &Vec<char>, to: usize) -> (r: usize)
    requires
        to <= s.len(),
    ensures
        r == spaces_start(s@, to as int),
        r <= to,
{
    let mut i = to;
    while i > 0 && is_whitespace(s[i - 1])
        invariant
            i <= to <= s.len(),
            spaces_start(s@, to as int) == spaces_start(s@, i as int),
        decreases i,
    {
        i -= 1;
    }
    i
}

/// The part of `s` from character `from` up to character `to`, as a new string.
pub(crate) fn slice(s: &str, from: usize, to: usize) -> (r: String)
    requires
        from <= to <= s@.len(),
    ensures
        r@ == s@.subrange(from as int, to as int),
{
    String::from_str(s.substring_char(from, to))
}

/// `s` without the white space at its two ends.
pub fn trim(s: &str) -> (r: String)
    ensures
        r@ == trimmed(s@),
{
    let chars = chars_of(s);
    let a = skip_spaces(&chars, 0);
    let b = skip_spaces_back(&chars, chars.len());
    if a < b {
        slice(s, a, b)
    } else {
        String::new()
    }
}

/// Whether two strings hold the same characters.
pub fn same(a: &str, b: &str) -> (r: bool)
    ensures
        r == (a@ == b@),
{
    let x = chars_of(a);
    let y = chars_of(b);
    if x.len() != y.len() {
        return false;
    }
    let mut i: usize = 0;
    while i < x.len()
        invariant
            i <= x.len(),
            x.len() == y.len(),
            x@ == a@,
            y@ == b@,
            forall|k: int| 0 <= k < i ==> x@[k] == y@[k],
        decreases x.len() - i,
    {
        if x[i] != y[i] {
            return false;
        }
        i += 1;
    }
    assert(x@ =~= y@);
    true
}

/// Whether `needle` stands in `hay` at index `i`.
fn matches_at(hay: &Vec<char>, needle: &Vec<char>, i: usize) -> (r: bool)
    requires
        i + needle.len() <= hay.len(),
    ensures
        r == occurs_at(hay@, needle@, i as int),
{
    let mut k: usize = 0;
    while k < needle.len()
        invariant
            k <= needle.len(),
            i + needle.len() <= hay.len(),
            forall|j: int| 0 <= j < k ==> hay@[i + j] == needle@[j],
        decreases needle.len() - k,
    {
        if hay[i + k] != needle[k] {
            return false;
        }
        k += 1;
    }
    assert(hay@.subrange(i as int, i + needle.len()) =~= needle@);
    true
}

/// Whether `needle` stands somewhere in `hay`.
pub fn contains(hay: &str, needle: &str) -> (r: bool)
    ensures
        r == contains_text(hay@, needle@),
{
    let h = chars_of(hay);
    let n = chars_of(needle);
    if n.len() > h.len() {
        return false;
    }
    let last = h.len() - n.len();
    let mut i: usize = 0;
    loop
        invariant
            i <= last,
            last == h.len() - n.len(),
            n.len() <= h.len(),
            h@ == hay@,
            n@ == needle@,
            forall|j: int| 0 <= j < i ==> !occurs_at(h@, n@, j),
        decreases last - i,
    {
        if matches_at(&h, &n, i) {
            return true;
        }
        if i == last {
            return false;
        }
        i += 1;
    }
}

} // verus!
