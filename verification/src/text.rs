//! Character-level text building shared by the formatting modules.

use vstd::prelude::*;

verus! {

/// Appends one character to a `String` (`String::push` of std).
///
/// Trusted: std documents that `push` appends the given `char` to the end of
/// the string, so its characters afterwards are the old ones followed by `c`.
#[verifier::external_body]
pub(crate) fn string_push(s: &mut String, c: char)
    ensures
        final(s)@ == old(s)@.push(c),
{
    s.push(c);
}

/// The ASCII character of a decimal digit `d` (0 to 9).
pub open spec fn decimal_digit(d: int) -> char {
    (48 + d) as char
}

/// The ASCII character of a lower-case hexadecimal digit `d` (0 to 15).
pub open spec fn hex_digit(d: int) -> char {
    if d < 10 {
        (48 + d) as char
    } else {
        (87 + d) as char
    }
}

/// The value of an ASCII decimal or lower-case hexadecimal digit character.
pub open spec fn digit_value(c: char) -> int {
    if (c as int) < 58 {
        (c as int) - 48
    } else {
        (c as int) - 87
    }
}

/// Each digit character reads back as its digit.
pub proof fn lemma_digit_reads_back(d: int)
    requires
        0 <= d < 16,
    ensures
        digit_value(hex_digit(d)) == d,
        d < 10 ==> decimal_digit(d) == hex_digit(d),
{
    assert(((48 + d) as char) as int == 48 + d);
    if d >= 10 {
        assert(((87 + d) as char) as int == 87 + d);
    }
}

/// The digit character for `d` in 0..16, lower-case for 10 to 15.
pub fn digit_char(d: u8) -> (c: char)
    requires
        d < 16,
    ensures
        c == hex_digit(d as int),
        d < 10 ==> c == decimal_digit(d as int),
        digit_value(c) == d,
{
    if d < 10 {
        (48u8 + d) as char
    } else {
        (87u8 + d) as char
    }
}

} // verus!
