//! Decimal numbers with twelve digits after the point and whole parts of
//! any size, for the arithmetic on token amounts that must not lose digits
//! early.

use vstd::prelude::*;
use crate::natural::{pow10, Natural};
use crate::text::{decimal_text, digit_char};

verus! {

/// How many digits a [`Decimal`] has after the point.
pub const PRECISION: u32 = 12;

/// Ten to the power [`PRECISION`]: the number of units that make up one.
pub const SCALE: u128 = 1_000_000_000_000;

/// A decimal number that is not negative, with twelve digits after the
/// point. Its value, as a mathematical number, is the count of units of
/// 0.000000000001 that it holds.
#[derive(Debug, PartialEq, Eq)]
pub struct Decimal {
    raw: Natural,
}

impl View for Decimal {
    type V = nat;

    closed spec fn view(&self) -> nat {
        self.raw@
    }
}

impl Clone for Decimal {
    fn clone(&self) -> (r: Self)
        ensures
            r@ == self@,
    {
        Decimal { raw: self.raw.clone() }
    }
}

/// Why a computation on decimals gives no number.
#[derive(Debug, Clone, Copy, PartialEq, Eq, Structural)]
pub enum ArithmeticError {
    /// The divisor is zero.
    DivisionByZero,
}

/// The units of the product of two decimals, cut after the twelfth digit.
pub open spec fn product_units(a: nat, b: nat) -> nat {
    (a * b) / (SCALE as nat)
}

/// The units of the quotient of two decimals, cut after the twelfth digit.
pub open spec fn quotient_units(a: nat, b: nat) -> nat
    recommends
        b != 0,
{
    ((a * SCALE) / (b as int)) as nat
}

/// The digits of `fraction` after the point, where `fraction` counts units
/// of ten to the power minus `places`: as many digits as it takes to reach
/// the last one that is not zero.
pub open spec fn fraction_text(fraction: nat, places: nat) -> Seq<char>
    decreases places,
{
    if fraction == 0 || places == 0 {
        Seq::empty()
    } else {
        let unit = pow10((places - 1) as nat);
        seq![digit_char(fraction / unit)] + fraction_text(fraction % unit, (places - 1) as nat)
    }
}

/// How a decimal of `units` units is written: the whole part, and where
/// there is more, a point and the digits after it up to the last one that is
/// not zero.
pub open spec fn decimal_number_text(units: nat) -> Seq<char> {
    let whole = decimal_text(units / (SCALE as nat));
    let fraction = units % (SCALE as nat);
    if fraction == 0 {
        whole
    } else {
        whole + seq!['.'] + fraction_text(fraction, PRECISION as nat)
    }
}

/// The first powers of ten.
pub proof fn lemma_pow10_values()
    ensures
        pow10(0) == 1,
        pow10(1) == 10,
        pow10(2) == 100,
        pow10(3) == 1_000,
        pow10(4) == 10_000,
        pow10(5) == 100_000,
        pow10(6) == 1_000_000,
        pow10(7) == 10_000_000,
        pow10(8) == 100_000_000,
        pow10(9) == 1_000_000_000,
        pow10(10) == 10_000_000_000,
        pow10(11) == 100_000_000_000,
        pow10(12) == 1_000_000_000_000,
{
    reveal_with_fuel(pow10, 13);
}

impl Decimal {
    /// The decimal zero.
    pub fn zero() -> (r: Self)
        ensures
            r@ == 0,
    {
        Decimal { raw: Natural::zero() }
    }

    /// The decimal of `units` units of 0.000000000001.
    pub fn from_units(units: u128) -> (r: Self)
        ensures
            r@ == units,
    {
        Decimal { raw: Natural::from_u128(units) }
    }

    /// The decimal that stands for the whole number `n`.
    pub fn from_integer(n: u128) -> (r: Self)
        ensures
            r@ == n * SCALE,
    {
        let scale = Natural::from_u128(SCALE);
        Decimal { raw: Natural::from_u128(n).mul(&scale) }
    }

    /// Is the decimal zero?
    pub fn is_zero(&self) -> (r: bool)
        ensures
            r == (self@ == 0),
    {
        self.raw.is_zero()
    }

    /// The product of two decimals, cut after the twelfth digit.
    pub fn mul(&self, other: &Decimal) -> (r: Self)
        ensures
            r@ == product_units(self@, other@),
    {
        let scale = Natural::from_u128(SCALE);
        let product = self.raw.mul(&other.raw);
        match product.div_rem(&scale) {
            Some(pair) => Decimal { raw: pair.0 },
            None => Decimal::zero(),
        }
    }

    /// The product of a decimal and a whole number.
    pub fn mul_integer(&self, n: u64) -> (r: Self)
        ensures
            r@ == self@ * n,
    {
        let factor = Natural::from_u128(n as u128);
        Decimal { raw: self.raw.mul(&factor) }
    }

    /// The quotient of two decimals, cut after the twelfth digit; the error
    /// `DivisionByZero` where the divisor is zero.
    pub fn div(&self, other: &Decimal) -> (r: Result<Self, ArithmeticError>)
        ensures
            r is Ok == (other@ != 0),
            r matches Ok(quotient) ==> quotient@ == quotient_units(self@, other@),
            r matches Err(error) ==> error == ArithmeticError::DivisionByZero,
    {
        let scale = Natural::from_u128(SCALE);
        let scaled = self.raw.mul(&scale);
        match scaled.div_rem(&other.raw) {
            Some(pair) => Ok(Decimal { raw: pair.0 }),
            None => Err(ArithmeticError::DivisionByZero),
        }
    }

    /// Writes the decimal: the whole part, and where there is more, a point
    /// and the digits after it up to the last one that is not zero.
    pub fn to_string(&self) -> (r: String)
        ensures
            r@ == decimal_number_text(self@),
    {
        let scale = Natural::from_u128(SCALE);
        let (whole, rest) = match self.raw.div_rem(&scale) {
            Some(pair) => pair,
            None => (Natural::zero(), Natural::zero()),
        };
        let mut out = whole.to_string();
        let ghost whole_text = out@;
        let mut fraction: u128 = match rest.to_u128() {
            Some(fraction) => fraction,
            None => 0,
        };
        if fraction == 0 {
            return out;
        }
        out.push('.');
        let mut unit: u128 = SCALE;
        let mut places: u32 = 12;
        let ghost all = fraction_text(fraction as nat, 12);
        proof {
            lemma_pow10_values();
            assert(out@ + all =~= whole_text + seq!['.'] + all);
        }
        while fraction != 0
            invariant
                places <= 12,
                unit == pow10(places as nat),
                fraction < unit,
                out@ + fraction_text(fraction as nat, places as nat) == whole_text + seq!['.'] + all,
            decreases places,
        {
            proof {
                lemma_pow10_values();
                if places == 0 {
                    assert(false);
                }
                crate::natural::lemma_pow10_positive((places - 1) as nat);
                assert(pow10(places as nat) == 10 * pow10((places - 1) as nat));
            }
            let ghost before = out@;
            let ghost rest_text = fraction_text(fraction as nat, places as nat);
            unit = unit / 10;
            places = places - 1;
            let digit: u128 = fraction / unit;
            proof {
                assert(digit < 10) by (nonlinear_arith)
                    requires
                        digit == fraction / unit,
                        fraction < 10 * unit,
                        unit > 0,
                ;
            }
            out.push((48 + (digit as u8)) as char);
            fraction = fraction % unit;
            proof {
                assert(rest_text == seq![digit_char(digit as nat)] + fraction_text(
                    fraction as nat,
                    places as nat,
                ));
                assert(out@ + fraction_text(fraction as nat, places as nat) =~= before + rest_text);
            }
        }
        proof {
            assert(out@ + Seq::<char>::empty() =~= out@);
        }
        out
    }
}

} // verus!
