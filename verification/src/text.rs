//! Character-level text primitives.
//!
//! Every specification in this module is stated over `Seq<char>`, the view of a
//! string. The executable functions work on character slices, so that indexing is
//! constant time; `to_chars` turns a string into such a slice once.

use vstd::prelude::*;

verus! {

/// Whether `c` is white space in the sense of Unicode's `White_Space` property.
pub open spec fn white_space(c: char) -> bool {
    let n = c as int;
    ||| 0x09 <= n <= 0x0D
    ||| n == 0x20
    ||| n == 0x85
    ||| n == 0xA0
    ||| n == 0x1680
    ||| 0x2000 <= n <= 0x200A
    ||| n == 0x2028
    ||| n == 0x2029
    ||| n == 0x202F
    ||| n == 0x205F
    ||| n == 0x3000
}

/// A class of characters that a scan can stop at.
#[derive(Clone, Copy, Debug)]
pub enum CharClass {
    /// The line feed character.
    LineFeed,
    /// Any white space character.
    Blank,
    /// Any character that is not white space.
    Visible,
}

impl CharClass {
    /// Whether `c` belongs to this class.
    pub open spec fn holds(self, c: char) -> bool {
        match self {
            CharClass::LineFeed => c == '\n',
            CharClass::Blank => white_space(c),
            CharClass::Visible => !white_space(c),
        }
    }

    /// Tests whether `c` belongs to this class.
    pub fn test(self, c: char) -> (b: bool)
        ensures
            b == self.holds(c),
    {
        match self {
            CharClass::LineFeed => c == '\n',
            CharClass::Blank => is_whitespace(c),
            CharClass::Visible => !is_whitespace(c),
        }
    }
}

/// The index of the first character of `s` at or after `from` that belongs to
/// `class`, or the length of `s` where there is none.
pub open spec fn find_from(s: Seq<char>, from: int, class: CharClass) -> int
    decreases s.len() - from,
{
    if from >= s.len() {
        s.len() as int
    } else if class.holds(s[from]) {
        from
    } else {
        find_from(s, from + 1, class)
    }
}

/// Whether `pat` occurs in `s` starting at index `at`.
pub open spec fn occurs_at(s: Seq<char>, at: int, pat: Seq<char>) -> bool {
    &&& 0 <= at
    &&& at + pat.len() <= s.len()
    &&& s.subrange(at, at + pat.len()) == pat
}

/// Whether `pat` occurs somewhere in `s`. The empty pattern occurs in every
/// sequence.
pub open spec fn contains(s: Seq<char>, pat: Seq<char>) -> bool {
    exists|at: int| occurs_at(s, at, pat)
}

/// Whether `s` begins with `pat`.
pub open spec fn starts_with(s: Seq<char>, pat: Seq<char>) -> bool {
    occurs_at(s, 0, pat)
}

/// Whether `s` ends with `pat`.
pub open spec fn ends_with(s: Seq<char>, pat: Seq<char>) -> bool {
    occurs_at(s, s.len() - pat.len(), pat)
}

/// `s` with every leading repetition of `pat` removed. An empty `pat` removes
/// nothing.
pub open spec fn trim_start(s: Seq<char>, pat: Seq<char>) -> Seq<char>
    decreases s.len(),
{
    if pat.len() > 0 && starts_with(s, pat) {
        trim_start(s.skip(pat.len() as int), pat)
    } else {
        s
    }
}

/// `line` without one trailing carriage return, if it has one.
pub open spec fn without_cr(line: Seq<char>) -> Seq<char> {
    if line.len() > 0 && line.last() == '\r' {
        line.drop_last()
    } else {
        line
    }
}

/// The lines of `s` that begin at or after index `from`.
///
/// A line ends at a line feed, which is not part of it; a carriage return
/// directly before that line feed is not part of it either. Text after the last
/// line feed forms a final line, kept as it is; no line follows a final line
/// feed.
pub open spec fn lines_from(s: Seq<char>, from: int) -> Seq<Seq<char>>
    decreases s.len() - from,
    via lines_from_terminates
{
    if from < 0 || from >= s.len() {
        Seq::empty()
    } else {
        let end = find_from(s, from, CharClass::LineFeed);
        if end >= s.len() {
            seq![s.subrange(from, s.len() as int)]
        } else {
            seq![without_cr(s.subrange(from, end))] + lines_from(s, end + 1)
        }
    }
}

#[via_fn]
proof fn lines_from_terminates(s: Seq<char>, from: int) {
    if 0 <= from {
        lemma_find_from(s, from, CharClass::LineFeed);
    }
}

/// The lines of `s`.
pub open spec fn lines(s: Seq<char>) -> Seq<Seq<char>> {
    lines_from(s, 0)
}

/// The first run of visible characters in `s`: where it begins and where it
/// ends. `None` where `s` holds white space only.
pub open spec fn first_token_bounds(s: Seq<char>) -> Option<(int, int)> {
    let start = find_from(s, 0, CharClass::Visible);
    if start >= s.len() {
        None
    } else {
        Some((start, find_from(s, start, CharClass::Blank)))
    }
}

/// The first run of visible characters in `s`, as a sequence.
pub open spec fn first_token(s: Seq<char>) -> Option<Seq<char>> {
    match first_token_bounds(s) {
        Some((start, end)) => Some(s.subrange(start, end)),
        None => None,
    }
}

/// `find_from` stays within `from..=s.len()`, skips only characters outside the
/// class, and stops on a character of the class unless it runs off the end.
pub proof fn lemma_find_from(s: Seq<char>, from: int, class: CharClass)
    requires
        0 <= from,
    ensures
        from <= s.len() ==> from <= find_from(s, from, class) <= s.len(),
        from > s.len() ==> find_from(s, from, class) == s.len(),
        forall|k: int| from <= k < find_from(s, from, class) ==> !class.holds(#[trigger] s[k]),
        find_from(s, from, class) < s.len() ==> class.holds(s[find_from(s, from, class)]),
    decreases s.len() - from,
{
    if from < s.len() && !class.holds(s[from]) {
        lemma_find_from(s, from + 1, class);
    }
}

/// Tests whether `c` is white space.
pub fn is_whitespace(c: char) -> (b: bool)
    ensures
        b == white_space(c),
{
    let n: u32 = c as u32;
    (0x09 <= n && n <= 0x0D) || n == 0x20 || n == 0x85 || n == 0xA0 || n == 0x1680 || (0x2000 <= n
        && n <= 0x200A) || n == 0x2028 || n == 0x2029 || n == 0x202F || n == 0x205F || n == 0x3000
}

/// Collects the characters of `s` into a vector, in order.
pub fn to_chars(s: &str) -> (chars: Vec<char>)
    ensures
        chars@ == s@,
{
    let mut chars: Vec<char> = Vec::new();
    for c in it: s.chars()
        invariant
            it.seq() == s@,
            chars@ == it.seq().take(it.index()),
    {
        chars.push(c);
    }
    chars
}

/// Finds the first character at or after `from` that belongs to `class`.
pub fn find(s: &[char], from: usize, class: CharClass) -> (at: usize)
    ensures
        at == find_from(s@, from as int, class),
        at <= s@.len(),
        from <= s@.len() ==> from <= at,
{
    if from >= s.len() {
        return s.len();
    }
    let mut at: usize = from;
    while at < s.len() && !class.test(s[at])
        invariant
            from <= at <= s@.len(),
            find_from(s@, from as int, class) == find_from(s@, at as int, class),
        decreases s@.len() - at,
    {
        at += 1;
    }
    at
}

/// Tests whether `pat` occurs in `s` at index `at`.
pub fn matches_at(s: &[char], at: usize, pat: &[char]) -> (b: bool)
    ensures
        b == occurs_at(s@, at as int, pat@),
{
    if at > s.len() || pat.len() > s.len() - at {
        return false;
    }
    let mut i: usize = 0;
    while i < pat.len()
        invariant
            at + pat@.len() <= s@.len() <= usize::MAX,
            i <= pat@.len(),
            forall|k: int| 0 <= k < i ==> s@[at + k] == pat@[k],
        decreases pat@.len() - i,
    {
        if s[at + i] != pat[i] {
            assert(s@.subrange(at as int, at + pat@.len())[i as int] == s@[at + i]);
            return false;
        }
        i += 1;
    }
    assert(s@.subrange(at as int, at + pat@.len()) =~= pat@);
    true
}

/// Tests whether `pat` occurs somewhere in `s`.
pub fn contains_chars(s: &[char], pat: &[char]) -> (b: bool)
    ensures
        b == contains(s@, pat@),
{
    if pat.len() > s.len() {
        assert forall|at: int| !occurs_at(s@, at, pat@) by {}
        return false;
    }
    let last: usize = s.len() - pat.len();
    let mut at: usize = 0;
    while !matches_at(s, at, pat)
        invariant
            last == s@.len() - pat@.len(),
            at <= last,
            forall|k: int| 0 <= k < at ==> !occurs_at(s@, k, pat@),
        decreases last - at,
    {
        if at == last {
            assert forall|k: int| !occurs_at(s@, k, pat@) by {}
            return false;
        }
        at += 1;
    }
    true
}

/// Tests whether `s` begins with `pat`.
pub fn starts_with_chars(s: &[char], pat: &[char]) -> (b: bool)
    ensures
        b == starts_with(s@, pat@),
{
    matches_at(s, 0, pat)
}

/// Tests whether `s` ends with `pat`.
pub fn ends_with_chars(s: &[char], pat: &[char]) -> (b: bool)
    ensures
        b == ends_with(s@, pat@),
{
    if pat.len() > s.len() {
        return false;
    }
    matches_at(s, s.len() - pat.len(), pat)
}

/// Tests whether `a` and `b` hold the same characters.
pub fn same_chars(a: &[char], b: &[char]) -> (same: bool)
    ensures
        same == (a@ == b@),
{
    if a.len() != b.len() {
        return false;
    }
    let same = matches_at(a, 0, b);
    assert(a@.subrange(0, a@.len() as int) =~= a@);
    same
}

/// Tests whether two strings hold the same characters.
pub fn same_text(a: &str, b: &str) -> (same: bool)
    ensures
        same == (a@ == b@),
{
    let a_chars = to_chars(a);
    let b_chars = to_chars(b);
    same_chars(a_chars.as_slice(), b_chars.as_slice())
}

/// Tests whether `pat` occurs somewhere in `s`.
pub fn text_contains(s: &str, pat: &str) -> (b: bool)
    ensures
        b == contains(s@, pat@),
{
    let s_chars = to_chars(s);
    let pat_chars = to_chars(pat);
    contains_chars(s_chars.as_slice(), pat_chars.as_slice())
}

/// Tests whether `s` begins with `pat`.
pub fn text_starts_with(s: &str, pat: &str) -> (b: bool)
    ensures
        b == starts_with(s@, pat@),
{
    let s_chars = to_chars(s);
    let pat_chars = to_chars(pat);
    starts_with_chars(s_chars.as_slice(), pat_chars.as_slice())
}

/// Tests whether `s` ends with `pat`.
pub fn text_ends_with(s: &str, pat: &str) -> (b: bool)
    ensures
        b == ends_with(s@, pat@),
{
    let s_chars = to_chars(s);
    let pat_chars = to_chars(pat);
    ends_with_chars(s_chars.as_slice(), pat_chars.as_slice())
}

/// The number of characters that `trim_start` removes from the front of `s`.
pub fn trimmed_start(s: &[char], pat: &[char]) -> (at: usize)
    ensures
        at <= s@.len(),
        s@.skip(at as int) == trim_start(s@, pat@),
{
    let total: usize = s.len();
    let mut at: usize = 0;
    assert(s@.skip(0) =~= s@);
    if pat.len() == 0 {
        return at;
    }
    while matches_at(s, at, pat)
        invariant
            pat@.len() > 0,
            at <= s@.len() == total,
            trim_start(s@, pat@) == trim_start(s@.skip(at as int), pat@),
        decreases s@.len() - at,
    {
        proof {
            let rest = s@.skip(at as int);
            assert(rest.subrange(0, pat@.len() as int) =~= s@.subrange(
                at as int,
                at + pat@.len(),
            ));
            assert(rest.skip(pat@.len() as int) =~= s@.skip(at + pat@.len()));
        }
        at += pat.len();
    }
    proof {
        let rest = s@.skip(at as int);
        if at + pat@.len() <= s@.len() {
            assert(rest.subrange(0, pat@.len() as int) =~= s@.subrange(
                at as int,
                at + pat@.len(),
            ));
        }
    }
    at
}

/// The bounds of the line of `s` that begins at `from`: where its text ends,
/// and where the line after it begins. `None` where no line begins at `from`,
/// which is at the end of `s` and beyond.
pub fn next_line(s: &[char], from: usize) -> (bounds: Option<(usize, usize)>)
    ensures
        match bounds {
            Some((end, next)) => {
                &&& from <= end <= next <= s@.len()
                &&& from < next
                &&& lines_from(s@, from as int) == seq![s@.subrange(from as int, end as int)]
                    + lines_from(s@, next as int)
            },
            None => from >= s@.len() && lines_from(s@, from as int) == Seq::<Seq<char>>::empty(),
        },
{
    if from >= s.len() {
        return None;
    }
    let end = find(s, from, CharClass::LineFeed);
    if end >= s.len() {
        assert(seq![s@.subrange(from as int, s@.len() as int)] + Seq::<Seq<char>>::empty()
            =~= seq![s@.subrange(from as int, s@.len() as int)]);
        Some((end, end))
    } else if end > from && s[end - 1] == '\r' {
        assert(without_cr(s@.subrange(from as int, end as int)) =~= s@.subrange(
            from as int,
            end - 1,
        ));
        Some((end - 1, end + 1))
    } else {
        Some((end, end + 1))
    }
}

/// Finds the first run of visible characters in `s`.
pub fn token_bounds(s: &[char]) -> (bounds: Option<(usize, usize)>)
    ensures
        match bounds {
            Some((start, end)) => first_token_bounds(s@) == Some((start as int, end as int))
                && start < end <= s@.len(),
            None => first_token_bounds(s@) is None,
        },
{
    let start = find(s, 0, CharClass::Visible);
    if start >= s.len() {
        None
    } else {
        let end = find(s, start, CharClass::Blank);
        proof {
            lemma_find_from(s@, 0, CharClass::Visible);
            lemma_find_from(s@, start as int, CharClass::Blank);
        }
        Some((start, end))
    }
}

} // verus!
