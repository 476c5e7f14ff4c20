//! Reading text: finding one text in another, reading a number, and telling
//! white space.

use vstd::prelude::*;
use vstd::string::*;

verus! {

/// The characters of `text`, one by one.
pub fn chars_of(text: &str) -> (chars: Vec<char>)
    ensures
        chars@ == text@,
{
    broadcast use vstd::string::group_string_axioms;

    let mut chars: Vec<char> = Vec::new();
    for c in it: text.chars()
        invariant
            it.seq() == text@,
            chars@ == text@.take(it.index() as int),
    {
        chars.push(c);
    }
    chars
}

/// Whether `needle` stands in `hay` at position `at`.
pub open spec fn occurs_at(hay: Seq<char>, needle: Seq<char>, at: int) -> bool {
    0 <= at && at + needle.len() <= hay.len() && hay.subrange(at, at + needle.len()) == needle
}

/// Whether `needle` stands somewhere in `hay`.
pub open spec fn contains_text(hay: Seq<char>, needle: Seq<char>) -> bool {
    exists|at: int| occurs_at(hay, needle, at)
}

/// Whether `needle` stands in `hay` at position `at`.
fn matches_at(hay: &Vec<char>, needle: &Vec<char>, at: usize) -> (found: bool)
    requires
        at + needle.len() <= hay.len(),
    ensures
        found == occurs_at(hay@, needle@, at as int),
{
    let mut offset: usize = 0;
    while offset < needle.len()
        invariant
            at + needle.len() <= hay.len(),
            0 <= offset <= needle.len(),
            forall|j: int| 0 <= j < offset ==> hay@[at + j] == needle@[j],
        decreases needle.len() - offset,
    {
        if hay[at + offset] != needle[offset] {
            return false;
        }
        offset = offset + 1;
    }
    assert(hay@.subrange(at as int, at + needle.len()) =~= needle@);
    true
}

/// Whether `needle` stands somewhere in `hay`. The empty text stands in
/// every text.
pub fn contains(hay: &str, needle: &str) -> (found: bool)
    ensures
        found == contains_text(hay@, needle@),
{
    let hay_chars = chars_of(hay);
    let needle_chars = chars_of(needle);
    if needle_chars.len() > hay_chars.len() {
        assert forall|at: int| !occurs_at(hay@, needle@, at) by {}
        return false;
    }
    let last = hay_chars.len() - needle_chars.len();
    let mut at: usize = 0;
    while at < last
        invariant
            hay_chars@ == hay@,
            needle_chars@ == needle@,
            last + needle_chars.len() == hay_chars.len(),
            0 <= at <= last,
            forall|before: int| 0 <= before < at ==> !occurs_at(hay@, needle@, before),
        decreases last - at,
    {
        if matches_at(&hay_chars, &needle_chars, at) {
            return true;
        }
        at = at + 1;
    }
    if matches_at(&hay_chars, &needle_chars, last) {
        return true;
    }
    assert forall|at: int| !occurs_at(hay@, needle@, at) by {}
    false
}

/// The digit that `c` writes, if it writes one.
pub open spec fn digit_value(c: char) -> Option<nat> {
    if c == '0' {
        Some(0)
    } else if c == '1' {
        Some(1)
    } else if c == '2' {
        Some(2)
    } else if c == '3' {
        Some(3)
    } else if c == '4' {
        Some(4)
    } else if c == '5' {
        Some(5)
    } else if c == '6' {
        Some(6)
    } else if c == '7' {
        Some(7)
    } else if c == '8' {
        Some(8)
    } else if c == '9' {
        Some(9)
    } else {
        None
    }
}

/// Whether `digits` is made of decimal digits only.
pub open spec fn all_digits(digits: Seq<char>) -> bool {
    forall|i: int| 0 <= i < digits.len() ==> digit_value(#[trigger] digits[i]) is Some
}

/// The number that the decimal digits `digits` write; leading zeros count
/// for nothing.
pub open spec fn digits_value(digits: Seq<char>) -> nat
    decreases digits.len(),
{
    if digits.len() == 0 {
        0
    } else {
        digits_value(digits.drop_last()) * 10 + (match digit_value(digits.last()) {
            Some(d) => d,
            None => 0,
        })
    }
}

/// The part of `text` that holds the digits: all of it but a leading `+`.
pub open spec fn digits_part(text: Seq<char>) -> Seq<char> {
    if text.len() > 0 && text[0] == '+' {
        text.drop_first()
    } else {
        text
    }
}

/// The number that `text` writes: it is made of an optional `+` and at
/// least one decimal digit, nothing else, and the number fits 64 bits.
pub open spec fn number_of(text: Seq<char>) -> Option<u64> {
    let digits = digits_part(text);
    if digits.len() > 0 && all_digits(digits) && digits_value(digits) <= u64::MAX {
        Some(digits_value(digits) as u64)
    } else {
        None
    }
}

/// The digit that `c` writes, if it writes one.
pub fn digit_of(c: char) -> (digit: Option<u8>)
    ensures
        digit is Some == digit_value(c) is Some,
        digit matches Some(d) ==> d < 10 && digit_value(c) == Some(d as nat),
{
    if c == '0' {
        Some(0)
    } else if c == '1' {
        Some(1)
    } else if c == '2' {
        Some(2)
    } else if c == '3' {
        Some(3)
    } else if c == '4' {
        Some(4)
    } else if c == '5' {
        Some(5)
    } else if c == '6' {
        Some(6)
    } else if c == '7' {
        Some(7)
    } else if c == '8' {
        Some(8)
    } else if c == '9' {
        Some(9)
    } else {
        None
    }
}

/// A number that is written with more digits is no smaller.
proof fn lemma_digits_value_grows(digits: Seq<char>, shorter: int)
    requires
        0 <= shorter <= digits.len(),
    ensures
        digits_value(digits.take(shorter)) <= digits_value(digits),
    decreases digits.len() - shorter,
{
    if shorter < digits.len() {
        let next = digits.take(shorter + 1);
        assert(next.drop_last() =~= digits.take(shorter));
        lemma_digits_value_grows(digits, shorter + 1);
    } else {
        assert(digits.take(shorter) =~= digits);
    }
}

/// Reads a number: an optional `+` and at least one decimal digit, nothing
/// else. A number that does not fit 64 bits is none.
pub fn parse_u64(text: &str) -> (number: Option<u64>)
    ensures
        number == number_of(text@),
{
    let chars = chars_of(text);
    let start: usize = if chars.len() > 0 && chars[0] == '+' {
        1
    } else {
        0
    };
    let ghost digits = digits_part(text@);
    if start == chars.len() {
        return None;
    }
    let mut value: u64 = 0;
    let mut index: usize = start;
    while index < chars.len()
        invariant
            chars@ == text@,
            digits == digits_part(text@),
            digits == chars@.subrange(start as int, chars.len() as int),
            start <= index <= chars.len(),
            forall|i: int| 0 <= i < index - start ==> digit_value(#[trigger] digits[i]) is Some,
            value == digits_value(digits.take(index - start)),
        decreases chars.len() - index,
    {
        let ghost seen = digits.take(index - start);
        let ghost next = digits.take(index - start + 1);
        assert(next.drop_last() =~= seen);
        match digit_of(chars[index]) {
            None => {
                assert(digit_value(digits[index - start]) is None);
                return None;
            },
            Some(d) => {
                if value > (u64::MAX - d as u64) / 10 {
                    proof {
                        lemma_digits_value_grows(digits, index - start + 1);
                    }
                    return None;
                }
                value = value * 10 + d as u64;
            },
        }
        index = index + 1;
    }
    assert(digits.take(index - start) =~= digits);
    Some(value)
}

/// Whether `c` is white space: one of the characters that Unicode gives the
/// property `White_Space`.
pub open spec fn is_blank(c: char) -> bool {
    let code = c as u32;
    ||| 0x09 <= code <= 0x0D
    ||| code == 0x20
    ||| code == 0x85
    ||| code == 0xA0
    ||| code == 0x1680
    ||| 0x2000 <= code <= 0x200A
    ||| code == 0x2028
    ||| code == 0x2029
    ||| code == 0x202F
    ||| code == 0x205F
    ||| code == 0x3000
}

/// Whether `text` holds nothing but white space.
pub open spec fn all_blank(text: Seq<char>) -> bool {
    forall|i: int| 0 <= i < text.len() ==> is_blank(#[trigger] text[i])
}

/// Whether `text` holds nothing but white space; the empty text does.
pub fn is_all_blank(text: &str) -> (blank: bool)
    ensures
        blank == all_blank(text@),
{
    let chars = chars_of(text);
    let mut index: usize = 0;
    while index < chars.len()
        invariant
            chars@ == text@,
            0 <= index <= chars.len(),
            forall|i: int| 0 <= i < index ==> is_blank(#[trigger] text@[i]),
        decreases chars.len() - index,
    {
        let code = chars[index] as u32;
        let blank = (0x09 <= code && code <= 0x0D) || code == 0x20 || code == 0x85 || code == 0xA0
            || code == 0x1680 || (0x2000 <= code && code <= 0x200A) || code == 0x2028 || code
            == 0x2029 || code == 0x202F || code == 0x205F || code == 0x3000;
        if !blank {
            return false;
        }
        index = index + 1;
    }
    true
}

} // verus!
