//! How numbers are put into words.

use vstd::prelude::*;

use crate::text::{decimal, digit_char, digits, hexadecimal, signed_decimal};

verus! {

/// What a digit stands for.
pub open spec fn worth(digit: char) -> int {
    if '0' <= digit <= '9' {
        digit as int - '0' as int
    } else {
        digit as int - 'a' as int + 10
    }
}

/// The number that a row of digits stands for.
pub open spec fn read(row: Seq<char>, base: int) -> int
    decreases row.len(),
{
    if row.len() == 0 {
        0
    } else {
        read(row.drop_last(), base) * base + worth(row.last())
    }
}

/// A number that was written reads back as itself, has no digit too many in front, and
/// has only digits of its base.
pub proof fn numbers_read_back(value: nat, base: nat)
    requires
        base == 10 || base == 16,
    ensures
        read(digits(value, base), base as int) == value,
        digits(value, base).len() >= 1,
        digits(value, base).len() == 1 <==> value < base,
        digits(value, base).len() > 1 ==> digits(value, base)[0] != '0',
        forall|i: int|
            #![trigger digits(value, base)[i]]
            0 <= i < digits(value, base).len() ==> 0 <= worth(digits(value, base)[i]) < base,
    decreases value,
{
    let row = digits(value, base);
    if value < base {
        assert(row.drop_last().len() == 0);
        assert(read(row.drop_last(), base as int) == 0);
    } else {
        let rest = value / base;
        assert(0 < rest < value && value == rest * base + value % base) by (nonlinear_arith)
            requires
                rest == value / base,
                value >= base,
                base == 10 || base == 16,
        ;
        numbers_read_back(rest, base);
        assert(row.drop_last() =~= digits(rest, base));
        assert(row.last() == digit_char(value % base));
        assert(row[0] == digits(rest, base)[0]);
        assert forall|i: int|
            #![trigger row[i]]
            0 <= i < row.len() implies 0 <= worth(row[i]) < base by {
            if i < row.len() - 1 {
                assert(row[i] == digits(rest, base)[i]);
            }
        }
    }
}

/// Decimal and hexadecimal numbers read back as themselves, behind their sign or their
/// mark.
pub proof fn written_numbers_read_back(value: nat)
    ensures
        read(decimal(value), 10) == value,
        hexadecimal(value) =~= "0x"@ + hexadecimal(value).skip(2),
        read(hexadecimal(value).skip(2), 16) == value,
        signed_decimal(value as int) == decimal(value),
        value > 0 ==> signed_decimal(-(value as int)) =~= "-"@ + decimal(value),
{
    reveal_strlit("0x");
    numbers_read_back(value, 10);
    numbers_read_back(value, 16);
    assert(hexadecimal(value).skip(2) =~= digits(value, 16));
}

} // verus!
