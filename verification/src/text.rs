//! Number and message formatting.

use vstd::prelude::*;
use vstd::string::StringExecFns;

verus! {

/// The character of one hexadecimal digit.
pub open spec fn digit_char(digit: nat) -> char {
    if digit < 10 {
        (0x30 + digit) as char
    } else {
        (0x57 + digit) as char
    }
}

/// The digits of `value` in base `base`, most significant first.
pub open spec fn digits(value: nat, base: nat) -> Seq<char>
    decreases value,
{
    if base < 2 || value < base {
        seq![digit_char(value)]
    } else {
        proof {
            assert(value / base < value) by (nonlinear_arith)
                requires
                    base >= 2,
                    value >= base,
            ;
        }
        digits(value / base, base).push(digit_char(value % base))
    }
}

/// `value` in decimal.
pub open spec fn decimal(value: nat) -> Seq<char> {
    digits(value, 10)
}

/// `value` in decimal, with a minus sign where it is negative.
pub open spec fn signed_decimal(value: int) -> Seq<char> {
    if value < 0 {
        "-"@ + decimal((-value) as nat)
    } else {
        decimal(value as nat)
    }
}

/// `value` in hexadecimal behind `0x`.
pub open spec fn hexadecimal(value: nat) -> Seq<char> {
    "0x"@ + digits(value, 16)
}

fn digit_text(digit: u64) -> (text: &'static str)
    requires
        digit < 16,
    ensures
        text@ == seq![digit_char(digit as nat)],
{
    proof {
        reveal_strlit("0");
        reveal_strlit("1");
        reveal_strlit("2");
        reveal_strlit("3");
        reveal_strlit("4");
        reveal_strlit("5");
        reveal_strlit("6");
        reveal_strlit("7");
        reveal_strlit("8");
        reveal_strlit("9");
        reveal_strlit("a");
        reveal_strlit("b");
        reveal_strlit("c");
        reveal_strlit("d");
        reveal_strlit("e");
        reveal_strlit("f");
    }
    match digit {
        0 => "0",
        1 => "1",
        2 => "2",
        3 => "3",
        4 => "4",
        5 => "5",
        6 => "6",
        7 => "7",
        8 => "8",
        9 => "9",
        10 => "a",
        11 => "b",
        12 => "c",
        13 => "d",
        14 => "e",
        _ => "f",
    }
}

/// Appends the digits of `value` in base `base`.
fn append_digits(text: &mut String, value: u64, base: u64)
    requires
        2 <= base <= 16,
    ensures
        final(text)@ == old(text)@ + digits(value as nat, base as nat),
    decreases value,
{
    if value >= base {
        assert(value / base < value) by (nonlinear_arith)
            requires
                base >= 2,
                value >= base,
        ;
        append_digits(text, value / base, base);
    } else {
        assert(value % base == value) by (nonlinear_arith)
            requires
                value < base,
        ;
    }
    text.append(digit_text(value % base));
    assert(text@ =~= old(text)@ + digits(value as nat, base as nat));
}

pub fn append_decimal(text: &mut String, value: u64)
    ensures
        final(text)@ == old(text)@ + decimal(value as nat),
{
    append_digits(text, value, 10);
}

pub fn append_signed(text: &mut String, value: i32)
    ensures
        final(text)@ == old(text)@ + signed_decimal(value as int),
{
    if value < 0 {
        text.append("-");
        append_digits(text, (-(value as i64)) as u64, 10);
        assert(text@ =~= old(text)@ + signed_decimal(value as int));
    } else {
        append_digits(text, value as u64, 10);
    }
}

pub fn append_hexadecimal(text: &mut String, value: u64)
    ensures
        final(text)@ == old(text)@ + hexadecimal(value as nat),
{
    text.append("0x");
    append_digits(text, value, 16);
    assert(text@ =~= old(text)@ + hexadecimal(value as nat));
}

/// An owned copy of a literal.
pub fn owned(text: &str) -> (copy: String)
    ensures
        copy@ == text@,
{
    text.to_string()
}

} // verus!
