//! White space around a text.

use vstd::prelude::*;

verus! {

/// Whether a character is white space: one of the characters that Unicode
/// marks White_Space.
pub open spec fn is_white(c: char) -> bool {
    let code = c as u32;
    ||| 0x09 <= code <= 0x0d
    ||| code == 0x20
    ||| code == 0x85
    ||| code == 0xa0
    ||| code == 0x1680
    ||| 0x2000 <= code <= 0x200a
    ||| code == 0x2028
    ||| code == 0x2029
    ||| code == 0x202f
    ||| code == 0x205f
    ||| code == 0x3000
}

/// The place of the first character at or after `from` that is not white,
/// and the text's length where there is none.
pub open spec fn first_black(text: Seq<char>, from: int) -> int
    decreases text.len() - from,
{
    if from < 0 || from >= text.len() {
        text.len() as int
    } else if is_white(text[from]) {
        first_black(text, from + 1)
    } else {
        from
    }
}

/// The place behind the last character before `to` that is not white, and
/// `floor` where there is none at or after `floor`.
pub open spec fn last_black_end(text: Seq<char>, floor: int, to: int) -> int
    decreases to - floor,
{
    if to <= floor || to > text.len() || floor < 0 {
        floor
    } else if is_white(text[to - 1]) {
        last_black_end(text, floor, to - 1)
    } else {
        to
    }
}

/// The text without the white space before its first and after its last
/// character that is not white; empty where every character is white.
pub open spec fn trimmed(text: Seq<char>) -> Seq<char> {
    let start = first_black(text, 0);
    let end = last_black_end(text, start, text.len() as int);
    text.subrange(start, end)
}

/// Tells whether a character is white space.
pub fn white(c: char) -> (yes: bool)
    ensures
        yes == is_white(c),
{
    let code: u32 = c as u32;
    (0x09 <= code && code <= 0x0d) || code == 0x20 || code == 0x85 || code == 0xa0
        || code == 0x1680 || (0x2000 <= code && code <= 0x200a) || code == 0x2028
        || code == 0x2029 || code == 0x202f || code == 0x205f || code == 0x3000
}

/// The part of `text` between the white space at its two ends.
pub fn trim(text: &str) -> (inner: &str)
    ensures
        inner@ == trimmed(text@),
{
    let count = text.unicode_len();
    let mut start: usize = 0;
    while start < count && white(text.get_char(start))
        invariant
            count == text@.len(),
            0 <= start <= count,
            first_black(text@, 0) == first_black(text@, start as int),
        decreases count - start,
    {
        start += 1;
    }
    let mut end: usize = count;
    while end > start && white(text.get_char(end - 1))
        invariant
            count == text@.len(),
            start <= end <= count,
            last_black_end(text@, start as int, count as int) == last_black_end(
                text@,
                start as int,
                end as int,
            ),
        decreases end - start,
    {
        end -= 1;
    }
    text.substring_char(start, end)
}

/// `trimmed` cuts nothing but white space, and leaves none at either end.
pub proof fn trimmed_is_tight(text: Seq<char>)
    ensures
        ({
            let start = first_black(text, 0);
            let end = last_black_end(text, start, text.len() as int);
            &&& 0 <= start <= end <= text.len()
            &&& forall|i: int| 0 <= i < start ==> is_white(#[trigger] text[i])
            &&& forall|i: int| end <= i < text.len() ==> is_white(#[trigger] text[i])
            &&& start < end ==> !is_white(text[start]) && !is_white(text[end - 1])
        }),
{
    first_black_is_first(text, 0);
    let start = first_black(text, 0);
    last_black_end_is_last(text, start, text.len() as int);
}

/// Between `from` and `first_black(text, from)` every character is white, and
/// the character at that place, if there is one, is not.
pub proof fn first_black_is_first(text: Seq<char>, from: int)
    requires
        0 <= from <= text.len(),
    ensures
        from <= first_black(text, from) <= text.len(),
        forall|i: int| from <= i < first_black(text, from) ==> is_white(#[trigger] text[i]),
        first_black(text, from) < text.len() ==> !is_white(text[first_black(text, from)]),
    decreases text.len() - from,
{
    if from < text.len() && is_white(text[from]) {
        first_black_is_first(text, from + 1);
    }
}

/// Between `last_black_end(text, floor, to)` and `to` every character is
/// white, and the character before that place, if it is above `floor`, is not.
pub proof fn last_black_end_is_last(text: Seq<char>, floor: int, to: int)
    requires
        0 <= floor <= to <= text.len(),
    ensures
        floor <= last_black_end(text, floor, to) <= to,
        forall|i: int| last_black_end(text, floor, to) <= i < to ==> is_white(#[trigger] text[i]),
        floor < last_black_end(text, floor, to) ==> !is_white(
            text[last_black_end(text, floor, to) - 1],
        ),
    decreases to - floor,
{
    if to > floor && is_white(text[to - 1]) {
        last_black_end_is_last(text, floor, to - 1);
    }
}

} // verus!
