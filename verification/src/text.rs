//! Numbers in words: the digits that messages are made of.

use vstd::prelude::*;
use vstd::string::StringExecFns;

verus! {

/// The character of the digit `digit`, which is below 16: `0` to `9`, then
/// `a` to `f`.
pub open spec fn spec_digit(digit: int) -> char {
    if digit == 0 {
        '0'
    } else if digit == 1 {
        '1'
    } else if digit == 2 {
        '2'
    } else if digit == 3 {
        '3'
    } else if digit == 4 {
        '4'
    } else if digit == 5 {
        '5'
    } else if digit == 6 {
        '6'
    } else if digit == 7 {
        '7'
    } else if digit == 8 {
        '8'
    } else if digit == 9 {
        '9'
    } else if digit == 10 {
        'a'
    } else if digit == 11 {
        'b'
    } else if digit == 12 {
        'c'
    } else if digit == 13 {
        'd'
    } else if digit == 14 {
        'e'
    } else {
        'f'
    }
}

/// The number `value` in decimal digits, without leading zeros.
pub open spec fn spec_decimal(value: nat) -> Seq<char>
    decreases value,
{
    if value < 10 {
        seq![spec_digit(value as int)]
    } else {
        spec_decimal(value / 10).push(spec_digit((value % 10) as int))
    }
}

/// The byte `value` in two hexadecimal digits, in lower case.
pub open spec fn spec_hex(value: u8) -> Seq<char> {
    seq![spec_digit(value as int / 16), spec_digit(value as int % 16)]
}

/// Returns the digit `value`, which is below 16, as text.
pub(crate) fn digit(value: u8) -> (text: &'static str)
    requires
        value < 16,
    ensures
        text@ == seq![spec_digit(value as int)],
{
    proof {
        reveal_strlit("0");
        reveal_strlit("1");
        reveal_strlit("2");
        reveal_strlit("3");
        reveal_strlit("4");
        reveal_strlit("5");
        reveal_strlit("6");
        reveal_strlit("7");
        reveal_strlit("8");
        reveal_strlit("9");
        reveal_strlit("a");
        reveal_strlit("b");
        reveal_strlit("c");
        reveal_strlit("d");
        reveal_strlit("e");
        reveal_strlit("f");
    }
    let text = if value == 0 {
        "0"
    } else if value == 1 {
        "1"
    } else if value == 2 {
        "2"
    } else if value == 3 {
        "3"
    } else if value == 4 {
        "4"
    } else if value == 5 {
        "5"
    } else if value == 6 {
        "6"
    } else if value == 7 {
        "7"
    } else if value == 8 {
        "8"
    } else if value == 9 {
        "9"
    } else if value == 10 {
        "a"
    } else if value == 11 {
        "b"
    } else if value == 12 {
        "c"
    } else if value == 13 {
        "d"
    } else if value == 14 {
        "e"
    } else {
        "f"
    };
    assert(text@ =~= seq![spec_digit(value as int)]);
    text
}

/// Writes `value` in decimal digits, without leading zeros.
pub fn decimal(value: usize) -> (text: String)
    ensures
        text@ == spec_decimal(value as nat),
    decreases value,
{
    if value < 10 {
        String::from_str(digit(value as u8))
    } else {
        let mut text = decimal(value / 10);
        text.append(digit((value % 10) as u8));
        assert(text@ =~= spec_decimal(value as nat));
        text
    }
}

/// Writes `value` in two hexadecimal digits, in lower case.
pub fn hex(value: u8) -> (text: String)
    ensures
        text@ == spec_hex(value),
{
    let mut text = String::from_str(digit(value / 16));
    text.append(digit(value % 16));
    assert(text@ =~= spec_hex(value));
    text
}

} // verus!
