//! Fixed-point temperature conversion.
//!
//! Readings are carried as scaled integers so that the conversion arithmetic
//! is exact: the input is in thousandths of a degree (millidegrees) and the
//! result is in millionths of a degree (microdegrees). The
//! Fahrenheit-to-Celsius direction keeps the exercise's deliberately
//! inexact ratio of 556/1000 rather than the exact 5/9.

use vstd::prelude::*;

verus! {

/// An unrecognized conversion mode. The conversion reports it as an error
/// value of its own instead of overloading a sentinel reading.
#[derive(Clone, Copy, Debug, PartialEq, Eq, Structural)]
pub enum ConvertError {
    InvalidMode,
}

/// Largest magnitude of an input reading, in millidegrees, for which both
/// conversion formulas stay inside `i64`.
pub const MAX_READING_MILLI: i64 = 5_000_000_000_000_000;

/// Fahrenheit millidegrees to Celsius microdegrees: (v - 32) * 0.556.
pub open spec fn fahrenheit_to_celsius_micro(milli: int) -> int {
    (milli - 32_000) * 556
}

/// Celsius millidegrees to Fahrenheit microdegrees: v * 1.8 + 32.
pub open spec fn celsius_to_fahrenheit_micro(milli: int) -> int {
    milli * 1800 + 32_000_000
}

/// Converts a reading between Fahrenheit and Celsius.
///
/// Mode `'f'` takes the reading as Fahrenheit and returns Celsius; mode `'c'`
/// takes it as Celsius and returns Fahrenheit. The reading is in millidegrees
/// and the result in microdegrees. Any other mode is an error.
pub fn convert(mode: char, milli: i64) -> (r: Result<i64, ConvertError>)
    requires
        -MAX_READING_MILLI <= milli <= MAX_READING_MILLI,
    ensures
        mode == 'f' ==> (r matches Ok(c) && c == fahrenheit_to_celsius_micro(milli as int)),
        mode == 'c' ==> (r matches Ok(f) && f == celsius_to_fahrenheit_micro(milli as int)),
        mode != 'f' && mode != 'c' ==> r == Err::<i64, ConvertError>(ConvertError::InvalidMode),
{
    if mode == 'f' {
        Ok((milli - 32_000) * 556)
    } else if mode == 'c' {
        Ok(milli * 1800 + 32_000_000)
    } else {
        Err(ConvertError::InvalidMode)
    }
}

} // verus!
