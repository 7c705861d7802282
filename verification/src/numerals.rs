//! Numbers written out in decimal notation.

use crate::ratio::{Ratio, Rational};
use vstd::prelude::*;
use vstd::string::*;

verus! {

/// The numeral for a digit from 0 to 9.
pub open spec fn digit_text(digit: int) -> Seq<char> {
    if digit == 0 {
        "0"@
    } else if digit == 1 {
        "1"@
    } else if digit == 2 {
        "2"@
    } else if digit == 3 {
        "3"@
    } else if digit == 4 {
        "4"@
    } else if digit == 5 {
        "5"@
    } else if digit == 6 {
        "6"@
    } else if digit == 7 {
        "7"@
    } else if digit == 8 {
        "8"@
    } else {
        "9"@
    }
}

/// A natural number in decimal notation, without leading zeros.
pub open spec fn decimal_text(n: nat) -> Seq<char>
    decreases n,
{
    if n < 10 {
        digit_text(n as int)
    } else {
        decimal_text(n / 10) + digit_text((n % 10) as int)
    }
}

/// A number of tenths in decimal notation with one digit behind the point.
pub open spec fn tenths_text(tenths: nat) -> Seq<char> {
    decimal_text(tenths / 10) + "."@ + digit_text((tenths % 10) as int)
}

/// A fraction that is not negative, rounded to one digit behind the point.
pub open spec fn one_decimal_text(value: Rational) -> Seq<char> {
    tenths_text(value.rounded(10) as nat)
}

/// A fraction that is not negative as a percentage, rounded to one digit
/// behind the point.
pub open spec fn percent_text(value: Rational) -> Seq<char> {
    tenths_text(value.rounded(1000) as nat)
}

/// What stands behind the whole part of a number with `thousandths`
/// thousandths, from 0 to 999: nothing for 0, otherwise the point and the
/// digits up to the last one that is not zero.
pub open spec fn fraction_text(thousandths: int) -> Seq<char> {
    if thousandths == 0 {
        Seq::<char>::empty()
    } else if thousandths % 100 == 0 {
        "."@ + digit_text(thousandths / 100)
    } else if thousandths % 10 == 0 {
        "."@ + digit_text(thousandths / 100) + digit_text(thousandths / 10 % 10)
    } else {
        "."@ + digit_text(thousandths / 100) + digit_text(thousandths / 10 % 10) + digit_text(
            thousandths % 10,
        )
    }
}

/// A number of thousandths in decimal notation, with as many digits behind
/// the point as it needs.
pub open spec fn thousandths_text(thousandths: int) -> Seq<char> {
    if thousandths < 0 {
        "-"@ + decimal_text((-thousandths / 1000) as nat) + fraction_text(-thousandths % 1000)
    } else {
        decimal_text((thousandths / 1000) as nat) + fraction_text(thousandths % 1000)
    }
}

/// The numeral for a digit.
fn digit_numeral(digit: u8) -> (numeral: &'static str)
    requires
        digit < 10,
    ensures
        numeral@ == digit_text(digit as int),
{
    if digit == 0 {
        "0"
    } else if digit == 1 {
        "1"
    } else if digit == 2 {
        "2"
    } else if digit == 3 {
        "3"
    } else if digit == 4 {
        "4"
    } else if digit == 5 {
        "5"
    } else if digit == 6 {
        "6"
    } else if digit == 7 {
        "7"
    } else if digit == 8 {
        "8"
    } else {
        "9"
    }
}

/// Writes a natural number behind `out`.
pub fn append_decimal(out: &mut String, n: u128)
    ensures
        final(out)@ == old(out)@ + decimal_text(n as nat),
    decreases n,
{
    if n >= 10 {
        append_decimal(out, n / 10);
    }
    out.append(digit_numeral((n % 10) as u8));
    assert(final(out)@ == old(out)@ + decimal_text(n as nat)) by {
        if n >= 10 {
            assert((old(out)@ + decimal_text((n / 10) as nat)) + digit_text((n % 10) as int)
                =~= old(out)@ + (decimal_text((n / 10) as nat) + digit_text((n % 10) as int)));
        }
    }
}

/// Writes a number of tenths behind `out`, with one digit behind the point.
pub fn append_tenths(out: &mut String, tenths: u128)
    ensures
        final(out)@ == old(out)@ + tenths_text(tenths as nat),
{
    append_decimal(out, tenths / 10);
    out.append(".");
    out.append(digit_numeral((tenths % 10) as u8));
    assert(final(out)@ =~= old(out)@ + tenths_text(tenths as nat));
}

/// Writes a fraction behind `out`, rounded to one digit behind the point.
pub fn append_one_decimal(out: &mut String, value: &Ratio)
    requires
        value@.is_valid(),
    ensures
        final(out)@ == old(out)@ + one_decimal_text(value@),
{
    append_tenths(out, value.rounded(10));
}

/// Writes a fraction behind `out` as a percentage, rounded to one digit
/// behind the point.
pub fn append_percent(out: &mut String, value: &Ratio)
    requires
        value@.is_valid(),
    ensures
        final(out)@ == old(out)@ + percent_text(value@),
{
    append_tenths(out, value.rounded(1000));
}

/// Writes what stands behind the whole part of a number with `thousandths`
/// thousandths behind `out`.
fn append_fraction(out: &mut String, thousandths: u16)
    requires
        thousandths < 1000,
    ensures
        final(out)@ == old(out)@ + fraction_text(thousandths as int),
{
    if thousandths == 0 {
        assert(old(out)@ + fraction_text(0) =~= old(out)@);
    } else {
        out.append(".");
        out.append(digit_numeral((thousandths / 100) as u8));
        if thousandths % 100 == 0 {
            assert(out@ =~= old(out)@ + fraction_text(thousandths as int));
        } else {
            out.append(digit_numeral((thousandths / 10 % 10) as u8));
            if thousandths % 10 == 0 {
                assert(out@ =~= old(out)@ + fraction_text(thousandths as int));
            } else {
                out.append(digit_numeral((thousandths % 10) as u8));
                assert(out@ =~= old(out)@ + fraction_text(thousandths as int));
            }
        }
    }
}

/// Writes a number of thousandths behind `out`, with as many digits behind
/// the point as it needs.
pub fn append_thousandths(out: &mut String, thousandths: i64)
    ensures
        final(out)@ == old(out)@ + thousandths_text(thousandths as int),
{
    let wide: i128 = thousandths as i128;
    if wide < 0 {
        let magnitude: u128 = (-wide) as u128;
        out.append("-");
        append_decimal(out, magnitude / 1000);
        append_fraction(out, (magnitude % 1000) as u16);
        assert(out@ =~= old(out)@ + ("-"@ + decimal_text((magnitude / 1000) as nat)
            + fraction_text((magnitude % 1000) as int)));
    } else {
        let magnitude: u128 = wide as u128;
        append_decimal(out, magnitude / 1000);
        append_fraction(out, (magnitude % 1000) as u16);
        assert(out@ =~= old(out)@ + (decimal_text((magnitude / 1000) as nat) + fraction_text(
            (magnitude % 1000) as int,
        )));
    }
}

} // verus!
