//! Character sequences: finding a pattern and cutting at a separator.
//!
//! Strings are modelled by their `Seq<char>` view. The executable functions
//! work on a `Vec<char>` so that every character is reached in constant time.

use vstd::prelude::*;

verus! {

/// `pattern` stands in `text` at index `at`.
pub open spec fn occurs_at(text: Seq<char>, pattern: Seq<char>, at: int) -> bool {
    &&& 0 <= at
    &&& at + pattern.len() <= text.len()
    &&& text.subrange(at, at + pattern.len()) == pattern
}

/// `pattern` stands somewhere in `text`.
pub open spec fn occurs_in(text: Seq<char>, pattern: Seq<char>) -> bool {
    exists|at: int| occurs_at(text, pattern, at)
}

/// The index of the first `sep` in `text`, or the length of `text` if it
/// holds none.
pub open spec fn first_index(text: Seq<char>, sep: char) -> int
    decreases text.len(),
{
    if text.len() == 0 || text[0] == sep {
        0
    } else {
        1 + first_index(text.drop_first(), sep)
    }
}

/// The pieces of `text` between its separators, in order. A text without a
/// separator is one piece; a separator at either end leaves an empty piece
/// there.
pub open spec fn split(text: Seq<char>, sep: char) -> Seq<Seq<char>>
    decreases text.len(),
{
    let cut = first_index(text, sep);
    if 0 <= cut < text.len() {
        seq![text.take(cut)] + split(text.skip(cut + 1), sep)
    } else {
        seq![text]
    }
}

/// The pieces of `text` that `ranges` cuts out, each range being a start and
/// an end index.
pub open spec fn pieces(text: Seq<char>, ranges: Seq<(usize, usize)>) -> Seq<Seq<char>> {
    Seq::new(ranges.len(), |k: int| text.subrange(ranges[k].0 as int, ranges[k].1 as int))
}

/// `first_index` stays within the text, nothing before it is the separator,
/// and where it is an index the separator stands there.
pub proof fn lemma_first_index(text: Seq<char>, sep: char)
    ensures
        0 <= first_index(text, sep) <= text.len(),
        forall|j: int| 0 <= j < first_index(text, sep) ==> text[j] != sep,
        first_index(text, sep) < text.len() ==> text[first_index(text, sep)] == sep,
    decreases text.len(),
{
    if text.len() == 0 || text[0] == sep {
    } else {
        let rest = text.drop_first();
        lemma_first_index(rest, sep);
        assert forall|j: int| 0 <= j < first_index(text, sep) implies text[j] != sep by {
            if j > 0 {
                assert(text[j] == rest[j - 1]);
            }
        }
    }
}

/// An index that the separator does not occur before, and at which it stands
/// unless the text ends there, is the `first_index`.
pub proof fn lemma_first_index_unique(text: Seq<char>, sep: char, at: int)
    requires
        0 <= at <= text.len(),
        forall|j: int| 0 <= j < at ==> text[j] != sep,
        at < text.len() ==> text[at] == sep,
    ensures
        first_index(text, sep) == at,
{
    lemma_first_index(text, sep);
}

/// The characters of `s`, in order.
pub fn to_chars(s: &str) -> (chars: Vec<char>)
    ensures
        chars@ == s@,
{
    let mut chars: Vec<char> = Vec::new();
    for c in it: s.chars()
        invariant
            chars@ == it.seq().take(it.index() as int),
            it.seq() == s@,
    {
        chars.push(c);
    }
    chars
}

/// Whether `pattern` stands in `text` at `at`.
fn matches_at(text: &Vec<char>, pattern: &Vec<char>, at: usize) -> (found: bool)
    requires
        at + pattern.len() <= text.len(),
    ensures
        found == occurs_at(text@, pattern@, at as int),
{
    let mut k: usize = 0;
    while k < pattern.len()
        invariant
            k <= pattern.len(),
            at + pattern.len() <= text.len(),
            forall|j: int| 0 <= j < k ==> text@[at + j] == pattern@[j],
        decreases pattern.len() - k,
    {
        if text[at + k] != pattern[k] {
            assert(text@.subrange(at as int, at + pattern.len())[k as int] != pattern@[k as int]);
            return false;
        }
        k += 1;
    }
    assert(text@.subrange(at as int, at + pattern.len()) =~= pattern@);
    true
}

/// Whether `pattern` stands somewhere in `text`. The empty pattern stands in
/// every text.
pub fn contains(text: &Vec<char>, pattern: &Vec<char>) -> (found: bool)
    ensures
        found == occurs_in(text@, pattern@),
{
    if pattern.len() > text.len() {
        return false;
    }
    let last: usize = text.len() - pattern.len();
    let mut at: usize = 0;
    loop
        invariant
            last == text.len() - pattern.len(),
            at <= last,
            forall|j: int| 0 <= j < at ==> !occurs_at(text@, pattern@, j),
        decreases last - at,
    {
        if matches_at(text, pattern, at) {
            return true;
        }
        if at == last {
            return false;
        }
        at += 1;
    }
}

/// The ranges of the pieces that `sep` cuts the part of `text` from `from`
/// up to `to` into.
pub fn split_ranges(text: &Vec<char>, from: usize, to: usize, sep: char) -> (ranges: Vec<
    (usize, usize),
>)
    requires
        from <= to <= text.len(),
    ensures
        pieces(text@, ranges@) == split(text@.subrange(from as int, to as int), sep),
        forall|k: int|
            0 <= k < ranges.len() ==> from <= (#[trigger] ranges[k]).0 <= ranges[k].1 <= to,
{
    let ghost whole = text@.subrange(from as int, to as int);
    let mut ranges: Vec<(usize, usize)> = Vec::new();
    let mut start: usize = from;
    let mut i: usize = from;
    while i < to
        invariant
            from <= start <= i <= to <= text.len(),
            whole == text@.subrange(from as int, to as int),
            forall|j: int| start <= j < i ==> text@[j] != sep,
            forall|k: int|
                0 <= k < ranges.len() ==> from <= (#[trigger] ranges[k]).0 <= ranges[k].1 <= to,
            split(whole, sep) == pieces(text@, ranges@) + split(
                text@.subrange(start as int, to as int),
                sep,
            ),
        decreases to - i,
    {
        if text[i] == sep {
            proof {
                let tail = text@.subrange(start as int, to as int);
                lemma_first_index_unique(tail, sep, i - start);
                assert(tail.take(i - start) =~= text@.subrange(start as int, i as int));
                assert(tail.skip(i - start + 1) =~= text@.subrange(i + 1, to as int));
            }
            ranges.push((start, i));
            start = i + 1;
        }
        i += 1;
    }
    proof {
        let tail = text@.subrange(start as int, to as int);
        lemma_first_index_unique(tail, sep, to - start);
    }
    ranges.push((start, to));
    ranges
}

} // verus!
