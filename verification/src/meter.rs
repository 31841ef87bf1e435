//! Meter readings.

use vstd::prelude::*;

verus! {

/// A decimal number: `mantissa * 10^exponent`, negated unless `positive`.
///
/// Readings are kept in this form rather than in binary floating point, so
/// that the digits a meter reports are the digits that are published.
#[derive(Clone, Copy, Debug, PartialEq, Eq, Structural)]
pub struct Decimal {
    pub positive: bool,
    pub mantissa: u64,
    pub exponent: i16,
}

impl Decimal {
    /// The whole number `units`.
    pub open spec fn spec_whole(units: u64) -> Decimal {
        Decimal { positive: true, mantissa: units, exponent: 0 }
    }

    /// The whole number `units`.
    #[verifier::when_used_as_spec(spec_whole)]
    pub fn whole(units: u64) -> (number: Decimal)
        ensures
            number == Decimal::spec_whole(units),
    {
        Decimal { positive: true, mantissa: units, exponent: 0 }
    }
}

/// One reading of the meter: the energy counters in kilowatt-hours.
#[derive(Clone, Copy, Debug, PartialEq, Eq, Structural)]
pub struct MeterValues {
    /// Energy taken from the grid.
    pub in_kwh: Decimal,
    /// Energy fed into the grid.
    pub out_kwh: Decimal,
}

/// The placeholder reading: 1337 kWh imported, 42 kWh exported.
pub open spec fn placeholder_reading() -> MeterValues {
    MeterValues { in_kwh: Decimal::spec_whole(1337), out_kwh: Decimal::spec_whole(42) }
}

/// The reading that a text from the meter stands for, or why it stands for
/// none. The meter's telegrams are not decoded: every text stands for the
/// placeholder reading, and none is rejected.
pub open spec fn reading_of(data: Seq<char>) -> Result<MeterValues, Seq<char>> {
    Ok(placeholder_reading())
}

/// A result as mathematical values.
pub open spec fn reading_view(reading: Result<MeterValues, String>) -> Result<
    MeterValues,
    Seq<char>,
> {
    match reading {
        Ok(values) => Ok(values),
        Err(cause) => Err(cause@),
    }
}

/// Turns the text read from the meter into a reading.
pub fn parse_data(data: &str) -> (reading: Result<MeterValues, String>)
    ensures
        reading_view(reading) == reading_of(data@),
        reading == Ok::<MeterValues, String>(placeholder_reading()),
{
    Ok(MeterValues { in_kwh: Decimal::whole(1337), out_kwh: Decimal::whole(42) })
}

} // verus!
