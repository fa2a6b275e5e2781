//! Which texts read as a number.
//!
//! A number is written as
//!
//! ```text
//! number   = sign? ( "inf" | "infinity" | "nan" | decimal )
//! decimal  = ( digit+ | digit+ "." digit* | digit* "." digit+ ) exponent?
//! exponent = "e" sign? digit+
//! sign     = "+" | "-"
//! digit    = "0" .. "9"
//! ```
//!
//! where capital letters count as small ones. Nothing may stand before or
//! after it, white space neither.

use vstd::prelude::*;
use crate::text::{first_black, is_white, last_black_end, trimmed};

verus! {

/// Whether a character is a decimal digit.
pub open spec fn is_digit(c: char) -> bool {
    '0' as u32 <= c as u32 <= '9' as u32
}

/// Whether a character is a sign.
pub open spec fn is_sign(c: char) -> bool {
    c == '+' || c == '-'
}

/// Whether `c` is the small Latin letter `small` or its capital.
pub open spec fn is_letter(c: char, small: char) -> bool {
    c == small || c as u32 + 32 == small as u32
}

/// The place of the first character at or after `from` that is no digit, and
/// the text's length where there is none.
pub open spec fn digits_end(text: Seq<char>, from: int) -> int
    decreases text.len() - from,
{
    if 0 <= from < text.len() && is_digit(text[from]) {
        digits_end(text, from + 1)
    } else {
        from
    }
}

/// Whether `text` from `from` on is the word `word`, written in small or
/// capital letters, and nothing more.
pub open spec fn is_word(text: Seq<char>, from: int, word: Seq<char>) -> bool {
    &&& text.len() - from == word.len()
    &&& forall|k: int| 0 <= k < word.len() ==> is_letter(text[from + k], #[trigger] word[k])
}

/// Whether `text` from `from` on is an exponent and nothing more: the letter
/// `e`, a sign or none, and one digit or more.
pub open spec fn is_exponent(text: Seq<char>, from: int) -> bool {
    let digits = if from + 1 < text.len() && is_sign(text[from + 1]) {
        from + 2
    } else {
        from + 1
    };
    &&& 0 <= from < text.len()
    &&& is_letter(text[from], 'e')
    &&& digits < text.len()
    &&& digits_end(text, digits) == text.len()
}

/// Whether `text` from `from` on is a decimal and nothing more: digits, with
/// a point among, before or after them or with none, and an exponent or none.
pub open spec fn is_decimal(text: Seq<char>, from: int) -> bool {
    let whole_end = digits_end(text, from);
    let fraction = if whole_end < text.len() && text[whole_end] == '.' {
        whole_end + 1
    } else {
        whole_end
    };
    let fraction_end = digits_end(text, fraction);
    &&& 0 <= from <= text.len()
    &&& (whole_end - from) + (fraction_end - fraction) > 0
    &&& (fraction_end == text.len() || is_exponent(text, fraction_end))
}

/// Whether `text` reads as a number.
pub open spec fn is_number(text: Seq<char>) -> bool {
    let from: int = if text.len() > 0 && is_sign(text[0]) {
        1
    } else {
        0
    };
    ||| is_decimal(text, from)
    ||| is_word(text, from, seq!['i', 'n', 'f'])
    ||| is_word(text, from, seq!['i', 'n', 'f', 'i', 'n', 'i', 't', 'y'])
    ||| is_word(text, from, seq!['n', 'a', 'n'])
}

/// Where every character from `from` on is a digit, the digits end with the
/// text.
pub proof fn digits_reach_the_end(text: Seq<char>, from: int)
    requires
        0 <= from <= text.len(),
        forall|i: int| from <= i < text.len() ==> is_digit(#[trigger] text[i]),
    ensures
        digits_end(text, from) == text.len(),
    decreases text.len() - from,
{
    if from < text.len() {
        digits_reach_the_end(text, from + 1);
    }
}

/// Every text of one digit or more reads as a number.
pub proof fn digits_read_as_number(text: Seq<char>)
    requires
        text.len() > 0,
        forall|i: int| 0 <= i < text.len() ==> is_digit(#[trigger] text[i]),
    ensures
        is_number(text),
{
    assert(is_digit(text[0]));
    digits_reach_the_end(text, 0);
    assert(is_decimal(text, 0));
}

/// Where digits stand at `from`, the character before their end is a digit.
pub proof fn digits_end_after_a_digit(text: Seq<char>, from: int)
    requires
        0 <= from,
        digits_end(text, from) > from,
    ensures
        digits_end(text, from) <= text.len(),
        is_digit(text[digits_end(text, from) - 1]),
    decreases text.len() - from,
{
    if digits_end(text, from + 1) > from + 1 {
        digits_end_after_a_digit(text, from + 1);
    }
}

/// A text that reads as a number has no white space at either end: taking
/// the white space off leaves it as it is.
pub proof fn number_is_trimmed(text: Seq<char>)
    requires
        is_number(text),
    ensures
        trimmed(text) == text,
{
    let from: int = if text.len() > 0 && is_sign(text[0]) {
        1
    } else {
        0
    };
    let inf = seq!['i', 'n', 'f'];
    let infinity = seq!['i', 'n', 'f', 'i', 'n', 'i', 't', 'y'];
    let nan = seq!['n', 'a', 'n'];
    let last = text.len() - 1;
    if is_word(text, from, inf) {
        assert(is_letter(text[from + 0], inf[0]));
        assert(is_letter(text[from + 2], inf[2]));
    } else if is_word(text, from, infinity) {
        assert(is_letter(text[from + 0], infinity[0]));
        assert(is_letter(text[from + 7], infinity[7]));
    } else if is_word(text, from, nan) {
        assert(is_letter(text[from + 0], nan[0]));
        assert(is_letter(text[from + 2], nan[2]));
    } else {
        let whole_end = digits_end(text, from);
        let fraction = if whole_end < text.len() && text[whole_end] == '.' {
            whole_end + 1
        } else {
            whole_end
        };
        let fraction_end = digits_end(text, fraction);
        if whole_end > from {
            digits_end_after_a_digit(text, from);
        }
        if fraction_end > fraction {
            digits_end_after_a_digit(text, fraction);
        }
        if fraction_end != text.len() {
            let digits = if fraction_end + 1 < text.len() && is_sign(text[fraction_end + 1]) {
                fraction_end + 2
            } else {
                fraction_end + 1
            };
            digits_end_after_a_digit(text, digits);
        }
    }
    assert(text.len() > 0);
    assert(!is_white(text[0]));
    assert(!is_white(text[last]));
    assert(first_black(text, 0) == 0);
    assert(last_black_end(text, 0, text.len() as int) == text.len());
    assert(text.subrange(0, text.len() as int) =~= text);
}

/// The empty text reads as no number.
pub proof fn empty_text_is_no_number()
    ensures
        !is_number(Seq::<char>::empty()),
{
}

fn digit(c: char) -> (yes: bool)
    ensures
        yes == is_digit(c),
{
    '0' as u32 <= c as u32 && c as u32 <= '9' as u32
}

fn sign(c: char) -> (yes: bool)
    ensures
        yes == is_sign(c),
{
    c == '+' || c == '-'
}

fn letter(c: char, small: char) -> (yes: bool)
    ensures
        yes == is_letter(c, small),
{
    c == small || c as u64 + 32 == small as u64
}

/// Walks over the digits from `from` on.
fn skip_digits(text: &str, count: usize, from: usize) -> (end: usize)
    requires
        count == text@.len(),
        from <= count,
    ensures
        end == digits_end(text@, from as int),
        from <= end <= count,
{
    let mut end: usize = from;
    while end < count && digit(text.get_char(end))
        invariant
            count == text@.len(),
            from <= end <= count,
            digits_end(text@, from as int) == digits_end(text@, end as int),
        decreases count - end,
    {
        end += 1;
    }
    end
}

fn word_at(text: &str, count: usize, from: usize, word: &str) -> (yes: bool)
    requires
        count == text@.len(),
        from <= count,
    ensures
        yes == is_word(text@, from as int, word@),
{
    let length = word.unicode_len();
    if count - from != length {
        return false;
    }
    let mut at: usize = 0;
    while at < length
        invariant
            count == text@.len(),
            length == word@.len(),
            count - from == length,
            0 <= at <= length,
            forall|k: int| 0 <= k < at ==> is_letter(text@[from + k], #[trigger] word@[k]),
        decreases length - at,
    {
        if !letter(text.get_char(from + at), word.get_char(at)) {
            return false;
        }
        at += 1;
    }
    true
}

fn exponent_at(text: &str, count: usize, from: usize) -> (yes: bool)
    requires
        count == text@.len(),
        from < count,
    ensures
        yes == is_exponent(text@, from as int),
{
    if !letter(text.get_char(from), 'e') {
        return false;
    }
    let mut digits: usize = from + 1;
    if digits < count && sign(text.get_char(digits)) {
        digits += 1;
    }
    if digits >= count {
        return false;
    }
    skip_digits(text, count, digits) == count
}

fn decimal_at(text: &str, count: usize, from: usize) -> (yes: bool)
    requires
        count == text@.len(),
        from <= count,
    ensures
        yes == is_decimal(text@, from as int),
{
    let whole_end = skip_digits(text, count, from);
    let mut fraction: usize = whole_end;
    if whole_end < count && text.get_char(whole_end) == '.' {
        fraction += 1;
    }
    let fraction_end = skip_digits(text, count, fraction);
    if whole_end == from && fraction_end == fraction {
        return false;
    }
    if fraction_end == count {
        return true;
    }
    exponent_at(text, count, fraction_end)
}

/// Tells whether `text` reads as a number.
pub fn reads_as_number(text: &str) -> (yes: bool)
    ensures
        yes == is_number(text@),
{
    let count = text.unicode_len();
    let mut from: usize = 0;
    if count > 0 && sign(text.get_char(0)) {
        from = 1;
    }
    proof {
        reveal_strlit("inf");
        reveal_strlit("infinity");
        reveal_strlit("nan");
        assert("inf"@ =~= seq!['i', 'n', 'f']);
        assert("infinity"@ =~= seq!['i', 'n', 'f', 'i', 'n', 'i', 't', 'y']);
        assert("nan"@ =~= seq!['n', 'a', 'n']);
    }
    decimal_at(text, count, from) || word_at(text, count, from, "inf") || word_at(
        text,
        count,
        from,
        "infinity",
    ) || word_at(text, count, from, "nan")
}

} // verus!
