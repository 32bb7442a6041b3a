//! Paths as text: their characters, their `/`-separated segments, and
//! suffix tests.

use vstd::prelude::*;

verus! {

/// The separator between the segments of a path.
pub const SEPARATOR: char = '/';

/// `text` ends with `suffix`.
pub open spec fn ends_with(text: Seq<char>, suffix: Seq<char>) -> bool {
    suffix.len() <= text.len() && text.skip(text.len() - suffix.len()) == suffix
}

/// The segments of `path`: the pieces between its separators, in order.
/// There is always one more segment than there are separators, so the empty
/// path has one empty segment, and a separator at either end or two in a row
/// give an empty segment.
pub open spec fn split_segments(path: Seq<char>) -> Seq<Seq<char>>
    decreases path.len(),
{
    if path.len() == 0 {
        seq![Seq::empty()]
    } else {
        let before = split_segments(path.drop_last());
        if path.last() == SEPARATOR {
            before.push(Seq::empty())
        } else {
            before.drop_last().push(before.last().push(path.last()))
        }
    }
}

/// The segments of a path put together again, a separator between each two.
pub open spec fn join_segments(segments: Seq<Seq<char>>) -> Seq<char>
    decreases segments.len(),
{
    if segments.len() == 0 {
        Seq::empty()
    } else if segments.len() == 1 {
        segments[0]
    } else {
        join_segments(segments.drop_last()).push(SEPARATOR) + segments.last()
    }
}

/// Splitting loses nothing and leaves no separator behind: the segments of a
/// path are free of separators, and joined again they give the path.
pub proof fn lemma_split_then_join(path: Seq<char>)
    ensures
        split_segments(path).len() >= 1,
        join_segments(split_segments(path)) == path,
        forall|i: int|
            0 <= i < split_segments(path).len() ==> !(#[trigger] split_segments(path)[i]).contains(
                SEPARATOR,
            ),
    decreases path.len(),
{
    if path.len() > 0 {
        let shorter = path.drop_last();
        lemma_split_then_join(shorter);
        let before = split_segments(shorter);
        let after = split_segments(path);
        if path.last() == SEPARATOR {
            assert(after.drop_last() == before);
        } else {
            assert(after.drop_last() == before.drop_last());
            assert(shorter.push(path.last()) == path);
        }
    }
}

/// A text without a separator is its own single segment.
proof fn lemma_split_plain(text: Seq<char>)
    requires
        !text.contains(SEPARATOR),
    ensures
        split_segments(text) == seq![text],
    decreases text.len(),
{
    if text.len() == 0 {
        assert(text == Seq::<char>::empty());
    } else {
        let shorter = text.drop_last();
        lemma_split_plain(shorter);
        assert(seq![shorter].drop_last().push(shorter.push(text.last())) == seq![text]) by {
            assert(shorter.push(text.last()) == text);
        }
    }
}

/// After a separator, a text without one is a segment of its own.
proof fn lemma_split_after_separator(before: Seq<char>, text: Seq<char>)
    requires
        !text.contains(SEPARATOR),
    ensures
        split_segments(before.push(SEPARATOR) + text) == split_segments(before).push(text),
    decreases text.len(),
{
    let whole = before.push(SEPARATOR) + text;
    if text.len() == 0 {
        assert(whole.drop_last() == before);
        assert(text == Seq::<char>::empty());
    } else {
        let shorter = text.drop_last();
        lemma_split_after_separator(before, shorter);
        assert(whole.drop_last() == before.push(SEPARATOR) + shorter);
        assert(shorter.push(text.last()) == text);
    }
}

/// Segments without separators are what their joined path splits into:
/// together with `lemma_split_then_join`, this makes the segments of a path
/// the one list of separator-free pieces that join to it.
pub proof fn lemma_join_then_split(segments: Seq<Seq<char>>)
    requires
        segments.len() >= 1,
        forall|i: int| 0 <= i < segments.len() ==> !(#[trigger] segments[i]).contains(SEPARATOR),
    ensures
        split_segments(join_segments(segments)) == segments,
    decreases segments.len(),
{
    if segments.len() == 1 {
        lemma_split_plain(segments[0]);
    } else {
        let shorter = segments.drop_last();
        lemma_join_then_split(shorter);
        lemma_split_after_separator(join_segments(shorter), segments.last());
    }
}

/// The characters of `text`, one by one.
pub fn chars_of(text: &str) -> (chars: Vec<char>)
    ensures
        chars@ == text@,
{
    let mut chars: Vec<char> = Vec::new();
    for c in it: text.chars()
        invariant
            it.seq() == text@,
            chars@ == text@.take(it.index() as int),
    {
        chars.push(c);
    }
    chars
}

/// Whether two texts are the same, character by character.
pub fn same_text(a: &Vec<char>, b: &Vec<char>) -> (same: bool)
    ensures
        same == (a@ == b@),
{
    if a.len() != b.len() {
        return false;
    }
    let mut i: usize = 0;
    while i < a.len()
        invariant
            i <= a.len(),
            a.len() == b.len(),
            a@.take(i as int) == b@.take(i as int),
        decreases a.len() - i,
    {
        if a[i] != b[i] {
            return false;
        }
        i = i + 1;
    }
    assert(a@.take(i as int) == a@);
    assert(b@.take(i as int) == b@);
    true
}

/// Whether `text` ends with `suffix`.
pub fn has_suffix(text: &Vec<char>, suffix: &Vec<char>) -> (found: bool)
    ensures
        found == ends_with(text@, suffix@),
{
    if suffix.len() > text.len() {
        return false;
    }
    let start: usize = text.len() - suffix.len();
    let ghost tail = text@.skip(start as int);
    let mut i: usize = 0;
    while i < suffix.len()
        invariant
            i <= suffix.len(),
            start + suffix.len() == text.len(),
            tail == text@.skip(start as int),
            tail.take(i as int) == suffix@.take(i as int),
        decreases suffix.len() - i,
    {
        if text[start + i] != suffix[i] {
            return false;
        }
        i = i + 1;
    }
    assert(tail.take(i as int) == tail);
    assert(suffix@.take(i as int) == suffix@);
    true
}

/// Splits a path at its separators.
pub fn path_segments(path: &Vec<char>) -> (segments: Vec<Vec<char>>)
    ensures
        segments.deep_view() == split_segments(path@),
{
    let mut segments: Vec<Vec<char>> = Vec::new();
    let mut current: Vec<char> = Vec::new();
    let mut i: usize = 0;
    while i < path.len()
        invariant
            i <= path.len(),
            segments.deep_view().push(current@) == split_segments(path@.take(i as int)),
        decreases path.len() - i,
    {
        let c = path[i];
        let ghost done = segments.deep_view();
        let ghost open = current@;
        let ghost prefix = path@.take(i + 1);
        assert(prefix.drop_last() == path@.take(i as int));
        if c == SEPARATOR {
            segments.push(current);
            current = Vec::new();
            assert(segments.deep_view() =~~= done.push(open));
        } else {
            current.push(c);
        }
        i = i + 1;
    }
    assert(path@.take(i as int) == path@);
    let ghost done = segments.deep_view();
    segments.push(current);
    assert(segments.deep_view() =~~= done.push(current@));
    segments
}

} // verus!
