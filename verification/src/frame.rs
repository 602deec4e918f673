//! The sensor frame and the reading decoded from it.
//!
//! A frame is what one read returned. Its first eight bytes matter: behind two
//! bytes that are not looked at stand three fields of two bytes each, high byte
//! first: volatile organic compounds, formaldehyde, carbon dioxide.

use crate::decimal::{
    decimal_add, decimal_mul, lemma_parts_determine_value, pow10, DecimalParts, DecimalValue,
};
use vstd::prelude::*;

verus! {

/// Number of bytes that a frame must at least have.
pub const FRAME_MIN_LEN: usize = 8;

/// Number of digits behind the decimal point of a scaled field.
pub const SCALED_DIGITS: u32 = 3;

/// One decoded measurement.
#[derive(Clone, Copy, Debug, PartialEq, Eq, Structural)]
pub struct Reading {
    /// Volatile organic compounds, in thousandths of the raw field.
    pub tvoc: DecimalValue,
    /// Formaldehyde, in thousandths of the raw field.
    pub formaldehyde: DecimalValue,
    /// Carbon dioxide, the raw field as it is.
    pub co2: DecimalValue,
    /// When the frame was decoded, in milliseconds since the Unix epoch.
    pub captured_at: u128,
}

/// Why a frame could not be decoded.
#[derive(Clone, Copy, Debug, PartialEq, Eq, Structural)]
pub enum DecodeError {
    /// The frame has fewer than eight bytes; `len` is how many it has.
    TooShort { len: usize },
}

/// The number that the high byte `h` and the low byte `l` stand for.
pub open spec fn raw_field(h: u8, l: u8) -> int {
    h * 256 + l
}

/// The raw number `raw` as a decimal without fraction.
pub open spec fn unscaled(raw: int) -> DecimalParts {
    DecimalParts { mantissa: raw, scale: 0 }
}

/// A thousandth of the raw number `raw`: `raw` units of `0.001`, and the plain
/// zero for zero.
pub open spec fn scaled(raw: int) -> DecimalParts {
    unscaled(raw).product(DecimalParts { mantissa: 1, scale: SCALED_DIGITS as nat })
}

/// What a frame of at least eight bytes decodes to at the time `captured_at`.
pub open spec fn reading_matches(frame: Seq<u8>, captured_at: u128, reading: Reading) -> bool {
    &&& reading.tvoc@ == scaled(raw_field(frame[2], frame[3]))
    &&& reading.formaldehyde@ == scaled(raw_field(frame[4], frame[5]))
    &&& reading.co2@ == unscaled(raw_field(frame[6], frame[7]))
    &&& reading.captured_at == captured_at
}

/// The carbon dioxide field: `h * 256 + l`, unscaled.
pub fn calc_co2(h: u8, l: u8) -> (value: DecimalValue)
    ensures
        value@ == unscaled(raw_field(h, l)),
        value@.mantissa == h * 256 + l,
        value@.scale == 0,
{
    let high = DecimalValue::whole(h as u32);
    let low = DecimalValue::whole(l as u32);
    let factor = DecimalValue::whole(256);
    let shifted = decimal_mul(high, factor);
    decimal_add(shifted, low)
}

/// A scaled field: `(h * 256 + l) * 0.001`, with no digit lost.
pub fn calc_tvoc(h: u8, l: u8) -> (value: DecimalValue)
    ensures
        value@ == scaled(raw_field(h, l)),
        value@.units_at(SCALED_DIGITS as nat) == h * 256 + l,
        h * 256 + l != 0 ==> value@.mantissa == h * 256 + l && value@.scale == SCALED_DIGITS,
        h * 256 + l == 0 ==> value@.mantissa == 0 && value@.scale == 0,
{
    let raw = calc_co2(h, l);
    let thousandth = DecimalValue::new(1, SCALED_DIGITS);
    let value = decimal_mul(raw, thousandth.unwrap());
    proof {
        assert(pow10(0) == 1);
        if h * 256 + l != 0 {
            assert(value@.mantissa == (h * 256 + l) * 1);
            assert(value@.units_at(SCALED_DIGITS as nat) == value@.mantissa * pow10(0));
        }
    }
    value
}

/// Decodes a frame that was read at the time `captured_at`. A frame of fewer
/// than eight bytes is refused; of a longer one only the first eight bytes are
/// looked at.
pub fn decode(buffer: &[u8], captured_at: u128) -> (r: Result<Reading, DecodeError>)
    ensures
        buffer@.len() < FRAME_MIN_LEN ==> r == Err::<Reading, DecodeError>(
            DecodeError::TooShort { len: buffer@.len() as usize },
        ),
        buffer@.len() >= FRAME_MIN_LEN ==> r.is_ok() && reading_matches(
            buffer@,
            captured_at,
            r.unwrap(),
        ),
{
    if buffer.len() < FRAME_MIN_LEN {
        return Err(DecodeError::TooShort { len: buffer.len() });
    }
    let tvoc = calc_tvoc(buffer[2], buffer[3]);
    let formaldehyde = calc_tvoc(buffer[4], buffer[5]);
    let co2 = calc_co2(buffer[6], buffer[7]);
    Ok(Reading { tvoc, formaldehyde, co2, captured_at })
}

/// The bytes at the offsets 2 to 7 and the time determine the reading: two
/// frames that agree there decode to the same reading, whatever else they hold.
pub proof fn lemma_reading_is_determined(
    a: Seq<u8>,
    b: Seq<u8>,
    captured_at: u128,
    x: Reading,
    y: Reading,
)
    requires
        a.len() >= FRAME_MIN_LEN,
        b.len() >= FRAME_MIN_LEN,
        a.subrange(2, 8) == b.subrange(2, 8),
        reading_matches(a, captured_at, x),
        reading_matches(b, captured_at, y),
    ensures
        x == y,
{
    assert forall|i: int| 2 <= i < 8 implies a[i] == b[i] by {
        assert(a.subrange(2, 8)[i - 2] == a[i]);
        assert(b.subrange(2, 8)[i - 2] == b[i]);
    }
    lemma_parts_determine_value(x.tvoc, y.tvoc);
    lemma_parts_determine_value(x.formaldehyde, y.formaldehyde);
    lemma_parts_determine_value(x.co2, y.co2);
}

} // verus!
