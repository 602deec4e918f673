//! Non-negative decimal numbers with an exact representation: a whole number
//! of units, and how many of its digits stand behind the decimal point.
//!
//! The arithmetic and the text form are those of the `rust_decimal` crate.

use rust_decimal::Decimal;
use vstd::prelude::*;

verus! {

/// Largest number of digits behind the decimal point.
pub const MAX_SCALE: u32 = 28;

/// Largest mantissa: 96 bits, all set.
pub const MAX_MANTISSA: i128 = 0xFFFF_FFFF_FFFF_FFFF_FFFF_FFFF;

/// Largest mantissa of a factor or a summand.
pub const MAX_OPERAND: i128 = 0xFFFF_FFFF;

/// What a decimal number is: `mantissa / 10^scale`.
pub struct DecimalParts {
    pub mantissa: int,
    pub scale: nat,
}

/// A non-negative decimal number.
#[derive(Clone, Copy, Debug, PartialEq, Eq, Structural)]
pub struct DecimalValue {
    mantissa: i128,
    scale: u32,
}

impl View for DecimalValue {
    type V = DecimalParts;

    closed spec fn view(&self) -> DecimalParts {
        DecimalParts { mantissa: self.mantissa as int, scale: self.scale as nat }
    }
}

/// Ten to the power of `n`.
pub open spec fn pow10(n: nat) -> nat
    decreases n,
{
    if n == 0 {
        1
    } else {
        10 * pow10((n - 1) as nat)
    }
}

/// The character of the decimal digit `d`.
pub open spec fn digit_char(d: nat) -> char {
    seq!['0', '1', '2', '3', '4', '5', '6', '7', '8', '9'][d as int]
}

/// The decimal digits of `n`, most significant first; none for zero.
pub open spec fn digits(n: nat) -> Seq<char>
    decreases n,
{
    if n == 0 {
        Seq::empty()
    } else {
        digits(n / 10).push(digit_char(n % 10))
    }
}

/// `n` written in decimal.
pub open spec fn nat_text(n: nat) -> Seq<char> {
    if n == 0 {
        seq!['0']
    } else {
        digits(n)
    }
}

/// `s` with zeros put in front until it has at least `width` characters.
pub open spec fn zero_padded(s: Seq<char>, width: nat) -> Seq<char> {
    if s.len() >= width {
        s
    } else {
        Seq::new((width - s.len()) as nat, |i: int| '0') + s
    }
}

/// `mantissa / 10^scale` written in decimal: the whole part, at least one
/// digit, and behind a point exactly `scale` digits, if `scale` is not zero.
pub open spec fn decimal_text(mantissa: nat, scale: nat) -> Seq<char> {
    let d = zero_padded(digits(mantissa), scale);
    let whole = d.take(d.len() - scale);
    let shown = if whole.len() == 0 {
        seq!['0']
    } else {
        whole
    };
    if scale == 0 {
        shown
    } else {
        shown + seq!['.'] + d.skip(d.len() - scale)
    }
}

impl DecimalParts {
    /// The same number counted in units of `10^-scale`, for a `scale` that is
    /// not smaller than the number's own.
    pub open spec fn units_at(self, scale: nat) -> int
        recommends
            self.scale <= scale,
    {
        self.mantissa * pow10((scale - self.scale) as nat)
    }

    /// The product as `rust_decimal` represents it: a product with a factor
    /// zero is the plain zero, any other keeps all digits of both factors.
    pub open spec fn product(self, other: DecimalParts) -> DecimalParts {
        if self.mantissa == 0 || other.mantissa == 0 {
            DecimalParts { mantissa: 0, scale: 0 }
        } else {
            DecimalParts {
                mantissa: self.mantissa * other.mantissa,
                scale: self.scale + other.scale,
            }
        }
    }

    /// The sum of two numbers of one scale, at that scale.
    pub open spec fn sum(self, other: DecimalParts) -> DecimalParts
        recommends
            self.scale == other.scale,
    {
        DecimalParts { mantissa: self.mantissa + other.mantissa, scale: self.scale }
    }

    /// The number written in decimal.
    pub open spec fn text(self) -> Seq<char>
        recommends
            self.mantissa >= 0,
    {
        decimal_text(self.mantissa as nat, self.scale)
    }
}

/// Calls `rust_decimal::Decimal::new` and reads the result back with
/// `mantissa` and `scale`. For a scale of at most 28 the constructor stores the
/// number and the scale as given; a larger scale makes it panic and is left out.
#[verifier::external_body]
fn decimal_new(num: i64, scale: u32) -> (d: DecimalValue)
    requires
        0 <= num,
        scale <= MAX_SCALE,
    ensures
        d@ == (DecimalParts { mantissa: num as int, scale: scale as nat }),
{
    let d = Decimal::new(num, scale);
    DecimalValue { mantissa: d.mantissa(), scale: d.scale() }
}

/// Multiplies with the `*` of `rust_decimal::Decimal`. For factors whose
/// mantissas fit in 32 bits and whose scales add up to at most 28, the crate
/// returns its constant zero if a factor is zero, and otherwise the product of
/// the mantissas with the sum of the scales, unrounded.
#[verifier::external_body]
pub(crate) fn decimal_mul(a: DecimalValue, b: DecimalValue) -> (p: DecimalValue)
    requires
        a@.mantissa <= MAX_OPERAND,
        b@.mantissa <= MAX_OPERAND,
        a@.scale + b@.scale <= MAX_SCALE,
    ensures
        p@ == a@.product(b@),
{
    let x = Decimal::from_i128_with_scale(a.mantissa, a.scale);
    let y = Decimal::from_i128_with_scale(b.mantissa, b.scale);
    let p = x * y;
    DecimalValue { mantissa: p.mantissa(), scale: p.scale() }
}

/// Adds with the `+` of `rust_decimal::Decimal`. For summands of one scale
/// whose mantissas fit in 32 bits, the crate returns the sum of the mantissas
/// at that scale.
#[verifier::external_body]
pub(crate) fn decimal_add(a: DecimalValue, b: DecimalValue) -> (s: DecimalValue)
    requires
        a@.mantissa <= MAX_OPERAND,
        b@.mantissa <= MAX_OPERAND,
        a@.scale == b@.scale,
    ensures
        s@ == a@.sum(b@),
{
    let x = Decimal::from_i128_with_scale(a.mantissa, a.scale);
    let y = Decimal::from_i128_with_scale(b.mantissa, b.scale);
    let s = x + y;
    DecimalValue { mantissa: s.mantissa(), scale: s.scale() }
}

/// Formats with the `Display` of `rust_decimal::Decimal`. A number that is not
/// negative is written without sign: the digits of the mantissa, filled with
/// zeros in front up to the scale, with a point before the last `scale` digits
/// and a single zero before the point where no digit is left for the whole
/// part.
#[verifier::external_body]
fn decimal_to_string(v: DecimalValue) -> (s: String)
    ensures
        s@ == v@.text(),
{
    Decimal::from_i128_with_scale(v.mantissa, v.scale).to_string()
}

impl DecimalValue {
    #[verifier::type_invariant]
    spec fn inv(self) -> bool {
        0 <= self.mantissa <= MAX_MANTISSA && self.scale <= MAX_SCALE
    }

    /// `mantissa / 10^scale`, if the mantissa is not negative and the scale is
    /// at most 28.
    pub fn new(mantissa: i64, scale: u32) -> (r: Option<DecimalValue>)
        ensures
            0 <= mantissa && scale <= MAX_SCALE ==> r.is_some() && r.unwrap()@ == (DecimalParts {
                mantissa: mantissa as int,
                scale: scale as nat,
            }),
            !(0 <= mantissa && scale <= MAX_SCALE) ==> r.is_none(),
    {
        if 0 <= mantissa && scale <= MAX_SCALE {
            Some(decimal_new(mantissa, scale))
        } else {
            None
        }
    }

    /// The whole number `n`.
    pub fn whole(n: u32) -> (r: DecimalValue)
        ensures
            r@ == (DecimalParts { mantissa: n as int, scale: 0 }),
    {
        decimal_new(n as i64, 0)
    }

    /// The number of units of `10^-scale`.
    pub fn mantissa(&self) -> (m: i128)
        ensures
            m == self@.mantissa,
            0 <= m <= MAX_MANTISSA,
    {
        proof {
            use_type_invariant(self);
        }
        self.mantissa
    }

    /// The number of digits behind the decimal point.
    pub fn scale(&self) -> (s: u32)
        ensures
            s == self@.scale,
            s <= MAX_SCALE,
    {
        proof {
            use_type_invariant(self);
        }
        self.scale
    }

    /// The number written in decimal.
    pub fn to_text(&self) -> (s: String)
        ensures
            s@ == self@.text(),
    {
        decimal_to_string(*self)
    }
}

/// Two values with the same mantissa and the same scale are the same value.
pub proof fn lemma_parts_determine_value(a: DecimalValue, b: DecimalValue)
    requires
        a@ == b@,
    ensures
        a == b,
{
}

} // verus!
