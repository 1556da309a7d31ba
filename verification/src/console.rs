//! Reading what the player types: a yes or a no, or the number of a port.

use vstd::prelude::*;
use vstd::string::*;
use crate::error::GameError;

verus! {

/// Whether a character is white space, as Unicode defines it.
pub open spec fn is_space(c: char) -> bool {
    let code = c as u32;
    ||| 0x09 <= code <= 0x0D
    ||| code == 0x20
    ||| code == 0x85
    ||| code == 0xA0
    ||| code == 0x1680
    ||| 0x2000 <= code <= 0x200A
    ||| code == 0x2028
    ||| code == 0x2029
    ||| code == 0x202F
    ||| code == 0x205F
    ||| code == 0x3000
}

/// Tells white space from other characters.
pub fn is_whitespace(c: char) -> (space: bool)
    ensures
        space == is_space(c),
{
    let code = c as u32;
    (0x09 <= code && code <= 0x0D) || code == 0x20 || code == 0x85 || code == 0xA0 || code
        == 0x1680 || (0x2000 <= code && code <= 0x200A) || code == 0x2028 || code == 0x2029
        || code == 0x202F || code == 0x205F || code == 0x3000
}

/// The characters of a line, as a vector.
fn chars_of(line: &str) -> (chars: Vec<char>)
    ensures
        chars@ == line@,
{
    let mut chars: Vec<char> = Vec::new();
    for c in it: line.chars()
        invariant
            it.seq() == line@,
            chars@ == line@.take(it.index()),
    {
        chars.push(c);
    }
    chars
}

/// A text without the white space at its start.
pub open spec fn skip_leading(text: Seq<char>) -> Seq<char>
    decreases text.len(),
{
    if text.len() > 0 && is_space(text[0]) {
        skip_leading(text.drop_first())
    } else {
        text
    }
}

/// A text without the white space at its end.
pub open spec fn skip_trailing(text: Seq<char>) -> Seq<char>
    decreases text.len(),
{
    if text.len() > 0 && is_space(text.last()) {
        skip_trailing(text.drop_last())
    } else {
        text
    }
}

/// A text without the white space at either end.
pub open spec fn trimmed(text: Seq<char>) -> Seq<char> {
    skip_trailing(skip_leading(text))
}

/// Whether a line of input is a yes: the letter `y`, small or capital, with
/// nothing but white space around it. These are the two texts whose
/// lower-case form is `y`.
pub open spec fn confirms(line: Seq<char>) -> bool {
    trimmed(line) == seq!['y'] || trimmed(line) == seq!['Y']
}

/// Whether a character is a decimal digit.
pub open spec fn is_digit(c: char) -> bool {
    0x30 <= c as u32 <= 0x39
}

/// The value of a decimal digit.
pub open spec fn digit_value(c: char) -> nat {
    (c as u32 - 0x30) as nat
}

/// Whether a text holds decimal digits only.
pub open spec fn all_digits(text: Seq<char>) -> bool {
    forall|i: int| 0 <= i < text.len() ==> is_digit(#[trigger] text[i])
}

/// The number that a text of decimal digits denotes.
pub open spec fn decimal_value(digits: Seq<char>) -> nat
    decreases digits.len(),
{
    if digits.len() == 0 {
        0
    } else {
        decimal_value(digits.drop_last()) * 10 + digit_value(digits.last())
    }
}

/// The digits of an unsigned number: the text itself, without the plus sign
/// that may stand before them.
pub open spec fn unsigned_digits(text: Seq<char>) -> Seq<char> {
    if text.len() > 0 && text[0] == '+' {
        text.drop_first()
    } else {
        text
    }
}

/// The port number that a line of input selects: the line without the white
/// space around it has to be one digit or more, with or without a plus sign.
pub open spec fn port_selection(line: Seq<char>) -> Option<nat> {
    let digits = unsigned_digits(trimmed(line));
    if digits.len() > 0 && all_digits(digits) {
        Some(decimal_value(digits))
    } else {
        None
    }
}

proof fn lemma_value_of_prefix(digits: Seq<char>, count: int)
    requires
        0 <= count <= digits.len(),
    ensures
        decimal_value(digits.take(count)) <= decimal_value(digits),
    decreases digits.len() - count,
{
    if count == digits.len() {
        assert(digits.take(count) =~= digits);
    } else {
        lemma_value_of_prefix(digits, count + 1);
        assert(digits.take(count + 1).drop_last() =~= digits.take(count));
    }
}

/// Finds the part of a text between the white space at its ends.
fn trim_bounds(chars: &Vec<char>) -> (bounds: (usize, usize))
    ensures
        bounds.0 <= bounds.1 <= chars.len(),
        chars@.subrange(bounds.0 as int, bounds.1 as int) == trimmed(chars@),
{
    let len = chars.len();
    let mut start: usize = 0;
    assert(chars@.subrange(0, len as int) =~= chars@);
    while start < len && is_whitespace(chars[start])
        invariant
            len == chars.len(),
            start <= len,
            skip_leading(chars@) == skip_leading(chars@.subrange(start as int, len as int)),
        decreases len - start,
    {
        assert(chars@.subrange(start as int, len as int).drop_first() =~= chars@.subrange(
            start + 1,
            len as int,
        ));
        start += 1;
    }
    let ghost solid = chars@.subrange(start as int, len as int);
    assert(skip_leading(chars@) == solid);
    let mut end: usize = len;
    while end > start && is_whitespace(chars[end - 1])
        invariant
            len == chars.len(),
            start <= end <= len,
            solid == chars@.subrange(start as int, len as int),
            skip_trailing(solid) == skip_trailing(chars@.subrange(start as int, end as int)),
        decreases end - start,
    {
        assert(chars@.subrange(start as int, end as int).drop_last() =~= chars@.subrange(
            start as int,
            end - 1,
        ));
        end -= 1;
    }
    (start, end)
}

/// Reads the answer to a request for confirmation. Only `y` is a yes, in
/// either case and with any white space around it; every other line is a no.
pub fn is_confirmation(line: &str) -> (yes: bool)
    ensures
        yes == confirms(line@),
{
    let chars = chars_of(line);
    let (start, end) = trim_bounds(&chars);
    if end - start == 1 {
        let letter = chars[start];
        assert(trimmed(line@) =~= seq![letter]);
        assert(seq![letter][0] == letter);
        letter == 'y' || letter == 'Y'
    } else {
        assert(trimmed(line@).len() != 1);
        false
    }
}

/// Reads the number of a port from a line of input. The line is a number when
/// it holds decimal digits, with or without a plus sign before them and with
/// any white space around them, and the number fits in `usize`. Every other
/// line is refused.
pub fn parse_port_number(line: &str) -> (parsed: Result<usize, GameError>)
    ensures
        parsed is Ok <==> (port_selection(line@) matches Some(port) && port <= usize::MAX),
        parsed matches Ok(port) ==> port_selection(line@) == Some(port as nat),
        parsed matches Err(error) ==> error == GameError::InputParseError,
{
    let chars = chars_of(line);
    let (start, end) = trim_bounds(&chars);
    let first: usize = if start < end && chars[start] == '+' {
        start + 1
    } else {
        start
    };
    let ghost digits = chars@.subrange(first as int, end as int);
    assert(digits =~= unsigned_digits(trimmed(line@)));
    if first == end {
        return Err(GameError::InputParseError);
    }
    let mut value: usize = 0;
    let mut at: usize = first;
    while at < end
        invariant
            first <= at <= end <= chars.len(),
            digits == chars@.subrange(first as int, end as int),
            digits == unsigned_digits(trimmed(line@)),
            all_digits(digits.take(at - first)),
            value == decimal_value(digits.take(at - first)),
        decreases end - at,
    {
        let code = chars[at] as u32;
        if code < 0x30 || code > 0x39 {
            assert(!is_digit(digits[at - first]));
            return Err(GameError::InputParseError);
        }
        let digit = (code - 0x30) as usize;
        let ghost seen = digits.take(at - first + 1);
        assert(seen.drop_last() =~= digits.take(at - first));
        assert(seen.last() == chars[at as int]);
        proof {
            lemma_value_of_prefix(digits, at - first + 1);
        }
        let shifted = match value.checked_mul(10) {
            Some(shifted) => shifted,
            None => {
                return Err(GameError::InputParseError);
            },
        };
        value = match shifted.checked_add(digit) {
            Some(sum) => sum,
            None => {
                return Err(GameError::InputParseError);
            },
        };
        at += 1;
    }
    assert(digits.take(end - first) =~= digits);
    Ok(value)
}

} // verus!
