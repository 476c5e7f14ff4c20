//! Building display text: decimal numbers, zero padding and placeholder
//! substitution, all stated over sequences of characters.

use vstd::prelude::*;
use vstd::string::*;
use vstd::utf8::{encode_scalar, encode_utf8};

verus! {

/// `String::push` appends exactly the given character.
pub assume_specification[ String::push ](s: &mut String, ch: char)
    ensures
        final(s)@ == old(s)@.push(ch),
;

/// The character that writes the decimal digit `d`.
pub open spec fn digit_char(d: nat) -> char {
    if d == 0 {
        '0'
    } else if d == 1 {
        '1'
    } else if d == 2 {
        '2'
    } else if d == 3 {
        '3'
    } else if d == 4 {
        '4'
    } else if d == 5 {
        '5'
    } else if d == 6 {
        '6'
    } else if d == 7 {
        '7'
    } else if d == 8 {
        '8'
    } else {
        '9'
    }
}

/// The decimal numeral of `n`, without leading zeros.
pub open spec fn decimal(n: nat) -> Seq<char>
    decreases n,
{
    if n < 10 {
        seq![digit_char(n)]
    } else {
        decimal(n / 10).push(digit_char(n % 10))
    }
}

/// The decimal numeral of `n`, padded with a zero to at least two digits.
pub open spec fn padded2(n: nat) -> Seq<char> {
    if n < 10 {
        seq!['0', digit_char(n)]
    } else {
        decimal(n)
    }
}

/// The character for one decimal digit.
pub fn digit(d: u8) -> (c: char)
    requires
        d < 10,
    ensures
        c == digit_char(d as nat),
{
    if d == 0 {
        '0'
    } else if d == 1 {
        '1'
    } else if d == 2 {
        '2'
    } else if d == 3 {
        '3'
    } else if d == 4 {
        '4'
    } else if d == 5 {
        '5'
    } else if d == 6 {
        '6'
    } else if d == 7 {
        '7'
    } else if d == 8 {
        '8'
    } else {
        '9'
    }
}

/// Appends the decimal numeral of `n` to `buf`.
pub fn push_decimal(buf: &mut String, n: u64)
    ensures
        final(buf)@ == old(buf)@ + decimal(n as nat),
    decreases n,
{
    if n < 10 {
        buf.push(digit(n as u8));
    } else {
        push_decimal(buf, n / 10);
        buf.push(digit((n % 10) as u8));
    }
}

/// Appends `n` in decimal, padded with a zero to at least two digits.
pub fn push_padded2(buf: &mut String, n: u64)
    ensures
        final(buf)@ == old(buf)@ + padded2(n as nat),
{
    if n < 10 {
        buf.push('0');
        buf.push(digit(n as u8));
    } else {
        push_decimal(buf, n);
    }
}

/// Whether the two characters `{}` stand at position `i` of `template`.
pub open spec fn placeholder_at(template: Seq<char>, i: int) -> bool {
    0 <= i && i + 1 < template.len() && template[i] == '{' && template[i + 1] == '}'
}

/// Whether `i` is the position of the first `{}` in `template`.
pub open spec fn first_placeholder(template: Seq<char>, i: int) -> bool {
    placeholder_at(template, i) && forall|j: int| 0 <= j < i ==> !placeholder_at(template, j)
}

/// `template` with the `{}` at position `i` replaced by `value`.
pub open spec fn filled_at(template: Seq<char>, i: int, value: Seq<char>) -> Seq<char> {
    template.subrange(0, i) + value + template.subrange(i + 2, template.len() as int)
}

/// `template` with its first `{}` replaced by `value`; a template without
/// one stays as it is.
pub open spec fn filled(template: Seq<char>, value: Seq<char>) -> Seq<char> {
    if exists|i: int| first_placeholder(template, i) {
        filled_at(template, choose|i: int| first_placeholder(template, i), value)
    } else {
        template
    }
}

/// A template made of a brace-free `prefix`, one `{}` and a `suffix` is
/// filled by putting the value between the two.
pub proof fn lemma_filled_between(prefix: Seq<char>, suffix: Seq<char>, value: Seq<char>)
    requires
        forall|i: int| 0 <= i < prefix.len() ==> prefix[i] != '{',
    ensures
        filled(prefix + seq!['{', '}'] + suffix, value) == prefix + value + suffix,
{
    let template = prefix + seq!['{', '}'] + suffix;
    assert(first_placeholder(template, prefix.len() as int));
}

/// Replaces the first `{}` of `template` by `value`; a template without one
/// is returned as it is.
pub fn fill_placeholder(template: &str, value: &str) -> (text: String)
    ensures
        text@ == filled(template@, value@),
{
    broadcast use vstd::string::group_string_axioms;

    let mut out = String::new();
    let mut pending = false;
    let mut done = false;
    let ghost mut at: int = 0;
    for c in it: template.chars()
        invariant
            it.seq() == template@,
            done ==> !pending && first_placeholder(template@, at) && at + 2 <= it.index() && out@
                == template@.subrange(0, at) + value@ + template@.subrange(
                at + 2,
                it.index() as int,
            ),
            !done ==> forall|j: int| 0 <= j && j + 1 < it.index() ==> !placeholder_at(template@, j),
            !done && pending ==> it.index() > 0 && template@[it.index() - 1] == '{' && out@
                == template@.subrange(0, it.index() - 1),
            !done && !pending ==> out@ == template@.subrange(0, it.index() as int) && (it.index()
                == 0 || template@[it.index() - 1] != '{'),
    {
        let ghost k = it.index() as int;
        if done {
            out.push(c);
        } else if pending {
            if c == '}' {
                out.append(value);
                done = true;
                pending = false;
                proof {
                    at = k - 1;
                }
            } else {
                out.push('{');
                if c != '{' {
                    out.push(c);
                    pending = false;
                }
            }
        } else if c == '{' {
            pending = true;
        } else {
            out.push(c);
        }
    }
    if pending {
        out.push('{');
    }
    proof {
        if done {
            assert forall|i: int| first_placeholder(template@, i) implies i == at by {}
        } else {
            assert forall|i: int| !first_placeholder(template@, i) by {}
        }
    }
    out
}

/// Formats an optional value: the template `some` with its first `{}`
/// replaced by the value where there is one, the text `none` where there is
/// not.
pub fn format_opt(opt: Option<&str>, some: &str, none: &str) -> (text: String)
    ensures
        text@ == (match opt {
            Some(value) => filled(some@, value@),
            None => none@,
        }),
{
    match opt {
        Some(value) => fill_placeholder(some, value),
        None => none.to_owned(),
    }
}

/// Borrows the text of an optional string.
pub fn as_text(opt: &Option<String>) -> (text: Option<&str>)
    ensures
        text is Some == opt is Some,
        opt matches Some(s) ==> text->0@ == s@,
{
    match opt {
        Some(s) => Some(s.as_str()),
        None => None,
    }
}

/// `first` followed by `second`.
pub fn concat2(first: &str, second: &str) -> (text: String)
    ensures
        text@ == first@ + second@,
{
    let mut text = first.to_owned();
    text.append(second);
    text
}

/// `first`, `second` and `third` in a row.
pub fn concat3(first: &str, second: &str, third: &str) -> (text: String)
    ensures
        text@ == first@ + second@ + third@,
{
    let mut text = first.to_owned();
    text.append(second);
    text.append(third);
    text
}

/// The number of bytes that `text` takes in UTF-8.
pub open spec fn utf8_len(text: Seq<char>) -> nat {
    encode_utf8(text).len()
}

/// The bytes of two texts in a row are the bytes of the one and the bytes
/// of the other.
pub proof fn lemma_utf8_len_adds(first: Seq<char>, second: Seq<char>)
    ensures
        utf8_len(first + second) == utf8_len(first) + utf8_len(second),
    decreases first.len(),
{
    if first.len() > 0 {
        assert((first + second).drop_first() =~= first.drop_first() + second);
        lemma_utf8_len_adds(first.drop_first(), second);
    }
}

/// A line break takes one byte.
pub proof fn lemma_line_break_is_one_byte()
    ensures
        utf8_len(seq!['\n']) == 1,
{
    let text = seq!['\n'];
    assert(encode_utf8(text) =~= encode_scalar('\n' as u32) + encode_utf8(text.drop_first()));
}

/// `parts` in a row with `separator` between each two of them.
pub open spec fn joined_text(parts: Seq<Seq<char>>, separator: Seq<char>) -> Seq<char>
    decreases parts.len(),
{
    if parts.len() == 0 {
        Seq::empty()
    } else if parts.len() == 1 {
        parts[0]
    } else {
        joined_text(parts.drop_last(), separator) + separator + parts.last()
    }
}

/// The length of `text` in bytes.
pub fn byte_len(text: &str) -> (len: usize)
    ensures
        len == utf8_len(text@),
{
    text.as_bytes().len()
}

/// The texts of `strings`.
pub open spec fn texts_of(strings: Seq<String>) -> Seq<Seq<char>> {
    Seq::new(strings.len(), |i: int| strings[i]@)
}

/// Whether two texts hold the same characters.
pub fn same_text(first: &str, second: &str) -> (same: bool)
    ensures
        same == (first@ == second@),
{
    first.to_owned() == second.to_owned()
}

/// A copy of an optional string.
pub fn clone_text(opt: &Option<String>) -> (copy: Option<String>)
    ensures
        copy == *opt,
{
    match opt {
        Some(s) => Some(s.clone()),
        None => None,
    }
}

} // verus!
