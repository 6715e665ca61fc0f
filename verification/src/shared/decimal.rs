use vstd::prelude::*;
use vstd::string::StrSliceExecFns;

verus! {

/// The value of a decimal digit, if the character is one.
pub open spec fn digit_of(c: char) -> Option<nat> {
    if c == '0' {
        Some(0)
    } else if c == '1' {
        Some(1)
    } else if c == '2' {
        Some(2)
    } else if c == '3' {
        Some(3)
    } else if c == '4' {
        Some(4)
    } else if c == '5' {
        Some(5)
    } else if c == '6' {
        Some(6)
    } else if c == '7' {
        Some(7)
    } else if c == '8' {
        Some(8)
    } else if c == '9' {
        Some(9)
    } else {
        None
    }
}

/// The digit that a value is written with, as a number.
pub open spec fn digit_number(d: Option<u64>) -> Option<nat> {
    match d {
        Some(v) => Some(v as nat),
        None => None,
    }
}

/// The value of a decimal digit, if the character is one.
pub fn digit_value(c: char) -> (d: Option<u64>)
    ensures
        digit_number(d) == digit_of(c),
        d matches Some(v) ==> v <= 9,
{
    if c == '0' {
        Some(0)
    } else if c == '1' {
        Some(1)
    } else if c == '2' {
        Some(2)
    } else if c == '3' {
        Some(3)
    } else if c == '4' {
        Some(4)
    } else if c == '5' {
        Some(5)
    } else if c == '6' {
        Some(6)
    } else if c == '7' {
        Some(7)
    } else if c == '8' {
        Some(8)
    } else if c == '9' {
        Some(9)
    } else {
        None
    }
}

/// The number that the digits of a text write from position `i` on, up to
/// the first character that is no digit, read after the number `acc`.
pub open spec fn number_from(s: Seq<char>, i: int, acc: nat) -> nat
    decreases s.len() - i,
{
    if 0 <= i < s.len() {
        match digit_of(s[i]) {
            Some(d) => number_from(s, i + 1, acc * 10 + d),
            None => acc,
        }
    } else {
        acc
    }
}

/// Further digits never make the number smaller.
pub proof fn lemma_number_grows(s: Seq<char>, i: int, acc: nat)
    ensures
        number_from(s, i, acc) >= acc,
    decreases s.len() - i,
{
    if 0 <= i < s.len() {
        match digit_of(s[i]) {
            Some(d) => {
                lemma_number_grows(s, i + 1, acc * 10 + d);
            },
            None => {},
        }
    }
}

/// The character at place `i` of a text. Where the caller has found the
/// text to be ASCII, the character is read in one step; else the text is
/// gone through from its start.
pub fn char_at(text: &str, i: usize, ascii: bool) -> (c: char)
    requires
        i < text@.len(),
        ascii ==> text.is_ascii(),
    ensures
        c == text@[i as int],
{
    if ascii {
        let b = text.get_ascii(i);
        b as char
    } else {
        text.get_char(i)
    }
}

} // verus!
