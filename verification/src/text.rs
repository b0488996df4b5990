//! Small questions about texts.

use vstd::prelude::*;
use vstd::string::*;

verus! {

/// A white space character of Unicode.
pub open spec fn is_white_space(c: char) -> bool {
    ||| '\u{9}' <= c && c <= '\u{d}'
    ||| c == '\u{20}' || c == '\u{85}' || c == '\u{a0}' || c == '\u{1680}'
    ||| '\u{2000}' <= c && c <= '\u{200a}'
    ||| c == '\u{2028}' || c == '\u{2029}' || c == '\u{202f}' || c == '\u{205f}' || c == '\u{3000}'
}

/// The text without the white space at its start.
pub open spec fn without_leading_space(text: Seq<char>) -> Seq<char>
    decreases text.len(),
{
    if text.len() > 0 && is_white_space(text[0]) {
        without_leading_space(text.drop_first())
    } else {
        text
    }
}

/// The text without the white space at its end.
pub open spec fn without_trailing_space(text: Seq<char>) -> Seq<char>
    decreases text.len(),
{
    if text.len() > 0 && is_white_space(text.last()) {
        without_trailing_space(text.drop_last())
    } else {
        text
    }
}

/// The text without the white space around it.
pub open spec fn trimmed(text: Seq<char>) -> Seq<char> {
    without_trailing_space(without_leading_space(text))
}

fn white_space(c: char) -> (white: bool)
    ensures
        white == is_white_space(c),
{
    ('\u{9}' <= c && c <= '\u{d}') || c == '\u{20}' || c == '\u{85}' || c == '\u{a0}' || c
        == '\u{1680}' || ('\u{2000}' <= c && c <= '\u{200a}') || c == '\u{2028}' || c == '\u{2029}'
        || c == '\u{202f}' || c == '\u{205f}' || c == '\u{3000}'
}

/// The text without the white space around it.
pub fn trim(text: &str) -> (trim: &str)
    ensures
        trim@ == trimmed(text@),
{
    let mut from: usize = 0;
    let mut to: usize = text.unicode_len();
    assert(text@.skip(0) == text@);
    while from < to && white_space(text.get_char(from))
        invariant
            from <= to == text@.len(),
            without_leading_space(text@) == without_leading_space(text@.skip(from as int)),
        decreases to - from,
    {
        assert(text@.skip(from as int).drop_first() == text@.skip(from + 1));
        from = from + 1;
    }
    let ghost rest = text@.skip(from as int);
    assert(without_leading_space(text@) == rest);
    assert(text@.subrange(from as int, to as int) == rest);
    while to > from && white_space(text.get_char(to - 1))
        invariant
            from <= to <= text@.len(),
            without_trailing_space(rest) == without_trailing_space(
                text@.subrange(from as int, to as int),
            ),
        decreases to - from,
    {
        assert(text@.subrange(from as int, to as int).drop_last() == text@.subrange(
            from as int,
            to - 1,
        ));
        to = to - 1;
    }
    text.substring_char(from, to)
}

/// Whether `text` begins with `start`.
pub fn starts_with(text: &str, start: &str) -> (starts: bool)
    ensures
        starts == start@.is_prefix_of(text@),
{
    let length: usize = start.unicode_len();
    if text.unicode_len() < length {
        return false;
    }
    let mut i: usize = 0;
    while i < length
        invariant
            i <= length == start@.len(),
            length <= text@.len(),
            start@.take(i as int) == text@.take(i as int),
        decreases length - i,
    {
        if text.get_char(i) != start.get_char(i) {
            assert(start@[i as int] != text@.subrange(0, length as int)[i as int]);
            return false;
        }
        assert(start@.take(i + 1) == start@.take(i as int).push(start@[i as int]));
        assert(text@.take(i + 1) == text@.take(i as int).push(text@[i as int]));
        i = i + 1;
    }
    assert(start@.take(length as int) == start@);
    true
}

/// Whether two texts are the same.
pub fn same(a: &str, b: &str) -> (same: bool)
    ensures
        same == (a@ == b@),
{
    if a.unicode_len() != b.unicode_len() {
        return false;
    }
    let same: bool = starts_with(a, b);
    assert(a@.subrange(0, b@.len() as int) == a@);
    same
}

/// The white space characters by their numbers.
pub proof fn white_space_by_number(c: char)
    ensures
        is_white_space(c) <==> {
            let n = c as u32;
            ||| 9 <= n <= 13
            ||| n == 32 || n == 0x85 || n == 0xa0 || n == 0x1680
            ||| 0x2000 <= n <= 0x200a
            ||| n == 0x2028 || n == 0x2029 || n == 0x202f || n == 0x205f || n == 0x3000
        },
{
}

proof fn lemma_leading(text: Seq<char>) -> (from: int)
    ensures
        0 <= from <= text.len(),
        without_leading_space(text) == text.skip(from),
        forall|i: int| 0 <= i < from ==> is_white_space(#[trigger] text[i]),
        from < text.len() ==> !is_white_space(text[from]),
    decreases text.len(),
{
    if text.len() > 0 && is_white_space(text[0]) {
        let rest = text.drop_first();
        let from = lemma_leading(rest) + 1;
        assert(rest.skip(from - 1) =~= text.skip(from));
        assert forall|i: int| 0 <= i < from implies is_white_space(#[trigger] text[i]) by {
            if i > 0 {
                assert(text[i] == rest[i - 1]);
            }
        }
        from
    } else {
        assert(text.skip(0) =~= text);
        0
    }
}

proof fn lemma_trailing(text: Seq<char>) -> (to: int)
    ensures
        0 <= to <= text.len(),
        without_trailing_space(text) == text.take(to),
        forall|i: int| to <= i < text.len() ==> is_white_space(#[trigger] text[i]),
        0 < to ==> !is_white_space(text[to - 1]),
    decreases text.len(),
{
    if text.len() > 0 && is_white_space(text.last()) {
        let rest = text.drop_last();
        let to = lemma_trailing(rest);
        assert(rest.take(to) =~= text.take(to));
        assert forall|i: int| to <= i < text.len() implies is_white_space(#[trigger] text[i]) by {
            if i < rest.len() {
                assert(text[i] == rest[i]);
            }
        }
        to
    } else {
        assert(text.take(text.len() as int) =~= text);
        text.len() as int
    }
}

/// A trimmed text is the text without some white space before it and some behind it, and has itself
/// none at either end.
pub proof fn trimming_removes_space_around(text: Seq<char>)
    ensures
        exists|from: int, to: int|
            {
                &&& 0 <= from <= to <= text.len()
                &&& trimmed(text) == #[trigger] text.subrange(from, to)
                &&& forall|i: int|
                    0 <= i < text.len() && (i < from || to <= i) ==> is_white_space(#[trigger] text[i])
            },
        trimmed(text).len() > 0 ==> !is_white_space(trimmed(text)[0]) && !is_white_space(
            trimmed(text).last(),
        ),
{
    let from = lemma_leading(text);
    let rest = text.skip(from);
    let kept = lemma_trailing(rest);
    let to = from + kept;
    assert(rest.take(kept) =~= text.subrange(from, to));
    assert forall|i: int| 0 <= i < text.len() && (i < from || to <= i) implies is_white_space(
        #[trigger] text[i],
    ) by {
        if i >= from {
            assert(text[i] == rest[i - from]);
        }
    }
    if kept > 0 {
        assert(rest[0] == text[from]);
    }
}

} // verus!
