//! Decimal digits as characters, and numbers written in a fixed number of them.

use vstd::prelude::*;
use vstd::string::*;

verus! {

/// Whether `c` is one of the ten ASCII decimal digits.
pub open spec fn is_decimal_digit(c: char) -> bool {
    '0' <= c && c <= '9'
}

/// The number that the decimal digit `c` stands for.
pub open spec fn digit_value(c: char) -> int {
    c as int - '0' as int
}

/// The character that writes the digit `d`.
pub open spec fn digit_char(d: int) -> char {
    if d == 0 {
        '0'
    } else if d == 1 {
        '1'
    } else if d == 2 {
        '2'
    } else if d == 3 {
        '3'
    } else if d == 4 {
        '4'
    } else if d == 5 {
        '5'
    } else if d == 6 {
        '6'
    } else if d == 7 {
        '7'
    } else if d == 8 {
        '8'
    } else {
        '9'
    }
}

/// The text of one decimal digit.
pub(crate) fn digit_text(d: u64) -> (r: &'static str)
    requires
        d < 10,
    ensures
        r@ == seq![digit_char(d as int)],
{
    proof {
        reveal_strlit("0");
        reveal_strlit("1");
        reveal_strlit("2");
        reveal_strlit("3");
        reveal_strlit("4");
        reveal_strlit("5");
        reveal_strlit("6");
        reveal_strlit("7");
        reveal_strlit("8");
        reveal_strlit("9");
    }
    let r = if d == 0 {
        "0"
    } else if d == 1 {
        "1"
    } else if d == 2 {
        "2"
    } else if d == 3 {
        "3"
    } else if d == 4 {
        "4"
    } else if d == 5 {
        "5"
    } else if d == 6 {
        "6"
    } else if d == 7 {
        "7"
    } else if d == 8 {
        "8"
    } else {
        "9"
    };
    assert(r@ =~= seq![digit_char(d as int)]);
    r
}

/// `value` in two digits, zero-padded.
pub open spec fn two_digits(value: int) -> Seq<char> {
    seq![digit_char(value / 10), digit_char(value % 10)]
}

/// `value` in three digits, zero-padded.
pub open spec fn three_digits(value: int) -> Seq<char> {
    seq![digit_char(value / 100), digit_char(value / 10 % 10), digit_char(value % 10)]
}

/// `value` in four digits, zero-padded.
pub open spec fn four_digits(value: int) -> Seq<char> {
    seq![
        digit_char(value / 1000),
        digit_char(value / 100 % 10),
        digit_char(value / 10 % 10),
        digit_char(value % 10),
    ]
}

/// Appends `value` in two digits.
pub(crate) fn push_two_digits(out: &mut String, value: u64)
    requires
        value < 100,
    ensures
        final(out)@ == old(out)@ + two_digits(value as int),
{
    out.append(digit_text(value / 10));
    out.append(digit_text(value % 10));
    assert(final(out)@ =~= old(out)@ + two_digits(value as int));
}

/// Appends `value` in three digits.
pub(crate) fn push_three_digits(out: &mut String, value: u64)
    requires
        value < 1000,
    ensures
        final(out)@ == old(out)@ + three_digits(value as int),
{
    out.append(digit_text(value / 100));
    out.append(digit_text(value / 10 % 10));
    out.append(digit_text(value % 10));
    assert(final(out)@ =~= old(out)@ + three_digits(value as int));
}

/// Appends `value` in four digits.
pub(crate) fn push_four_digits(out: &mut String, value: u64)
    requires
        value < 10000,
    ensures
        final(out)@ == old(out)@ + four_digits(value as int),
{
    out.append(digit_text(value / 1000));
    out.append(digit_text(value / 100 % 10));
    out.append(digit_text(value / 10 % 10));
    out.append(digit_text(value % 10));
    assert(final(out)@ =~= old(out)@ + four_digits(value as int));
}

} // verus!
