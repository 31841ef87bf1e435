//! Readings written out as decimal numbers.
//!
//! A reading is written digit by digit, with a point and at least one digit
//! behind it, so that a whole number of kilowatt-hours reads `1337.0`. No
//! exponent is used: the text is a JSON number for every reading.

use vstd::prelude::*;
use vstd::string::*;

use crate::meter::Decimal;

verus! {

/// The character of a digit.
pub open spec fn digit_char(digit: int) -> char {
    "0123456789"@[digit]
}

/// The digits of a natural number, without leading zeros.
pub open spec fn digits(number: nat) -> Seq<char>
    decreases number,
{
    if number < 10 {
        seq![digit_char(number as int)]
    } else {
        digits(number / 10).push(digit_char((number % 10) as int))
    }
}

/// So many zeros.
pub open spec fn zeros(count: nat) -> Seq<char> {
    Seq::new(count, |i: int| '0')
}

/// The text of `mantissa * 10^exponent`.
///
/// A whole number has its digits, then `.0`. A number with `k` digits behind
/// the point has the last `k` digits of the mantissa behind the point, with
/// zeros in front where the mantissa is too short, and at least a zero
/// before the point.
pub open spec fn unsigned_text(mantissa: nat, exponent: int) -> Seq<char> {
    let written = digits(mantissa);
    if exponent >= 0 {
        if mantissa == 0 {
            "0.0"@
        } else {
            written + zeros(exponent as nat) + ".0"@
        }
    } else if written.len() > -exponent {
        written.take(written.len() + exponent) + "."@ + written.skip(written.len() + exponent)
    } else {
        "0."@ + zeros((-exponent - written.len()) as nat) + written
    }
}

/// The text of a reading: a minus sign if it is negative, then its digits.
pub open spec fn decimal_text(number: Decimal) -> Seq<char> {
    if number.positive {
        unsigned_text(number.mantissa as nat, number.exponent as int)
    } else {
        "-"@ + unsigned_text(number.mantissa as nat, number.exponent as int)
    }
}

/// The characters of the digits, in their order.
pub open spec fn digit_chars(values: Seq<u8>) -> Seq<char> {
    Seq::new(values.len(), |i: int| digit_char(values[i] as int))
}

/// The digit as a string.
fn digit_str(digit: u8) -> (text: &'static str)
    requires
        digit < 10,
    ensures
        text@ == seq![digit_char(digit as int)],
{
    proof {
        reveal_strlit("0123456789");
        reveal_strlit("0");
        reveal_strlit("1");
        reveal_strlit("2");
        reveal_strlit("3");
        reveal_strlit("4");
        reveal_strlit("5");
        reveal_strlit("6");
        reveal_strlit("7");
        reveal_strlit("8");
        reveal_strlit("9");
    }
    let text = match digit {
        0 => "0",
        1 => "1",
        2 => "2",
        3 => "3",
        4 => "4",
        5 => "5",
        6 => "6",
        7 => "7",
        8 => "8",
        _ => "9",
    };
    assert(text@ =~= seq![digit_char(digit as int)]);
    text
}

/// The digits of a number, the highest first.
fn digits_of(number: u64) -> (values: Vec<u8>)
    ensures
        digit_chars(values@) == digits(number as nat),
        forall|i: int| 0 <= i < values.len() ==> values[i] < 10,
    decreases number,
{
    if number < 10 {
        let mut values: Vec<u8> = Vec::new();
        values.push(number as u8);
        assert(digit_chars(values@) =~= digits(number as nat));
        values
    } else {
        let mut values = digits_of(number / 10);
        let ghost before = values@;
        values.push((number % 10) as u8);
        assert(digit_chars(values@) =~= digit_chars(before).push(
            digit_char((number % 10) as int),
        ));
        values
    }
}

/// Writes the digits from `from` up to `to`.
fn write_digits(text: &mut String, values: &Vec<u8>, from: usize, to: usize)
    requires
        from <= to <= values.len(),
        forall|i: int| 0 <= i < values.len() ==> values[i] < 10,
    ensures
        final(text)@ == old(text)@ + digit_chars(values@).subrange(from as int, to as int),
{
    let mut at: usize = from;
    while at < to
        invariant
            from <= at <= to <= values.len(),
            forall|i: int| 0 <= i < values.len() ==> values[i] < 10,
            text@ == old(text)@ + digit_chars(values@).subrange(from as int, at as int),
        decreases to - at,
    {
        let ghost before = text@;
        text.append(digit_str(values[at]));
        assert(text@ =~= old(text)@ + digit_chars(values@).subrange(from as int, at + 1));
        at += 1;
    }
}

/// Writes so many zeros.
fn write_zeros(text: &mut String, count: usize)
    ensures
        final(text)@ == old(text)@ + zeros(count as nat),
{
    proof {
        reveal_strlit("0");
    }
    let mut written: usize = 0;
    while written < count
        invariant
            written <= count,
            "0"@ == seq!['0'],
            text@ == old(text)@ + zeros(written as nat),
        decreases count - written,
    {
        text.append("0");
        assert(text@ =~= old(text)@ + zeros((written + 1) as nat));
        written += 1;
    }
    assert(text@ =~= old(text)@ + zeros(count as nat));
}

impl Decimal {
    /// Writes the number out, with at least one digit behind the point.
    pub fn to_text(&self) -> (text: String)
        ensures
            text@ == decimal_text(*self),
    {
        let mut text = String::from_str("");
        proof {
            reveal_strlit("");
        }
        if !self.positive {
            text.append("-");
        }
        let ghost sign = text@;
        let values = digits_of(self.mantissa);
        let length: usize = values.len();
        if self.exponent >= 0 {
            if self.mantissa == 0 {
                text.append("0.0");
            } else {
                write_digits(&mut text, &values, 0, length);
                write_zeros(&mut text, self.exponent as usize);
                text.append(".0");
                assert(digit_chars(values@).subrange(0, length as int) =~= digit_chars(values@));
            }
        } else {
            let behind: usize = (-(self.exponent as i32)) as usize;
            if length > behind {
                write_digits(&mut text, &values, 0, length - behind);
                text.append(".");
                write_digits(&mut text, &values, length - behind, length);
            } else {
                text.append("0.");
                write_zeros(&mut text, behind - length);
                write_digits(&mut text, &values, 0, length);
                assert(digit_chars(values@).subrange(0, length as int) =~= digit_chars(values@));
            }
        }
        assert(text@ =~= sign + unsigned_text(self.mantissa as nat, self.exponent as int));
        assert(text@ =~= decimal_text(*self));
        text
    }
}

} // verus!
