//! Fractions that the JSON parser cannot count.
//!
//! The parser of the `json` crate keeps the power of ten of a number in
//! sixteen bits and lowers it by one for every digit of the fraction that it
//! takes into the mantissa. It takes a digit as long as the mantissa has room
//! for it, so it takes at most twenty digits of a number that is not zero, but
//! every zero behind `0.`. A text is handed to the parser unless it holds,
//! outside a string, a number that begins with `0.` and of whose fraction more
//! than 32768 digits would be taken.

use vstd::prelude::*;
use vstd::string::*;
use vstd::utf8::encode_utf8;

verus! {

/// The number of fraction digits that the parser can count.
pub const MAX_FRACTION_DIGITS: usize = 32768;

/// Where a position of a text lies: outside a string, inside one, or inside
/// one and behind a backslash.
#[derive(Clone, Copy, Debug, PartialEq, Eq, Structural)]
pub enum Place {
    Outside,
    Inside,
    Escaped,
}

/// Whether the byte is an ASCII digit.
pub open spec fn is_digit(byte: u8) -> bool {
    0x30 <= byte <= 0x39
}

/// The place behind a byte, from the place before it: a quote opens and
/// closes a string, and inside a string a backslash takes the next byte
/// with it.
pub open spec fn place_behind(before: Place, byte: u8) -> Place {
    match before {
        Place::Outside => if byte == 0x22 {
            Place::Inside
        } else {
            Place::Outside
        },
        Place::Inside => if byte == 0x22 {
            Place::Outside
        } else if byte == 0x5c {
            Place::Escaped
        } else {
            Place::Inside
        },
        Place::Escaped => Place::Inside,
    }
}

/// The place of the position `at`, that is, behind the first `at` bytes.
pub open spec fn place_at(bytes: Seq<u8>, at: int) -> Place
    decreases at,
{
    if at <= 0 || at > bytes.len() {
        Place::Outside
    } else {
        place_behind(place_at(bytes, at - 1), bytes[at - 1])
    }
}

/// The number of digits from the position `from` on that the parser takes
/// into a mantissa that stands at `mantissa`: a digit is taken if the
/// mantissa, with it, still fits in 64 bits, and passed over if not.
pub open spec fn digits_taken(bytes: Seq<u8>, from: int, mantissa: int) -> nat
    decreases bytes.len() - from,
{
    if from < 0 || from >= bytes.len() || !is_digit(bytes[from]) {
        0
    } else if mantissa * 10 + (bytes[from] - 0x30) <= u64::MAX {
        1 + digits_taken(bytes, from + 1, mantissa * 10 + (bytes[from] - 0x30))
    } else {
        digits_taken(bytes, from + 1, mantissa)
    }
}

/// Whether the byte at `at` is the decimal point of a number that begins
/// with `0.`, outside a string.
pub open spec fn is_zero_point(bytes: Seq<u8>, at: int) -> bool {
    &&& 1 <= at < bytes.len()
    &&& bytes[at] == 0x2e
    &&& bytes[at - 1] == 0x30
    &&& (at == 1 || !is_digit(bytes[at - 2]))
    &&& place_at(bytes, at) == Place::Outside
}

/// Whether the parser cannot count the fraction behind the byte at `at`.
pub open spec fn is_uncountable(bytes: Seq<u8>, at: int) -> bool {
    is_zero_point(bytes, at) && digits_taken(bytes, at + 1, 0) > MAX_FRACTION_DIGITS
}

/// Whether the parser can count every fraction in the bytes.
pub open spec fn fractions_fit(bytes: Seq<u8>) -> bool {
    forall|at: int| 0 <= at < bytes.len() ==> !#[trigger] is_uncountable(bytes, at)
}

/// Whether the parser can count every fraction in the text.
pub open spec fn numbers_fit(text: Seq<char>) -> bool {
    fractions_fit(encode_utf8(text))
}

/// Counts the digits from `from` on that the parser takes into a mantissa
/// of zero.
fn count_digits_taken(bytes: &[u8], from: usize) -> (count: usize)
    requires
        from <= bytes.len(),
    ensures
        count == digits_taken(bytes@, from as int, 0),
{
    let mut at: usize = from;
    let mut mantissa: u64 = 0;
    let mut count: usize = 0;
    while at < bytes.len() && 0x30 <= bytes[at] && bytes[at] <= 0x39
        invariant
            from <= at <= bytes.len(),
            count <= at - from,
            count + digits_taken(bytes@, at as int, mantissa as int) == digits_taken(
                bytes@,
                from as int,
                0,
            ),
        decreases bytes.len() - at,
    {
        let digit: u64 = (bytes[at] - 0x30) as u64;
        if mantissa <= (u64::MAX - digit) / 10 {
            mantissa = mantissa * 10 + digit;
            count += 1;
        }
        at += 1;
    }
    count
}

/// Tells whether the parser can count every fraction in the text.
pub fn check_numbers_fit(text: &str) -> (fit: bool)
    ensures
        fit == numbers_fit(text@),
{
    let bytes = text.as_bytes();
    let mut place = Place::Outside;
    let mut at: usize = 0;
    while at < bytes.len()
        invariant
            at <= bytes.len(),
            bytes@ == encode_utf8(text@),
            place == place_at(bytes@, at as int),
            forall|before: int| 0 <= before < at ==> !#[trigger] is_uncountable(bytes@, before),
        decreases bytes.len() - at,
    {
        let byte = bytes[at];
        if byte == 0x2e && at >= 1 && bytes[at - 1] == 0x30 && place == Place::Outside {
            let begins = at == 1 || !(0x30 <= bytes[at - 2] && bytes[at - 2] <= 0x39);
            if begins && count_digits_taken(bytes, at + 1) > MAX_FRACTION_DIGITS {
                assert(is_uncountable(bytes@, at as int));
                return false;
            }
        }
        place =
        match place {
            Place::Outside => if byte == 0x22 {
                Place::Inside
            } else {
                Place::Outside
            },
            Place::Inside => if byte == 0x22 {
                Place::Outside
            } else if byte == 0x5c {
                Place::Escaped
            } else {
                Place::Inside
            },
            Place::Escaped => Place::Inside,
        };
        at += 1;
    }
    true
}

} // verus!
