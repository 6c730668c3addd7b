//! Fixed-point money amounts with four fractional digits.
//!
//! An [`Amount`] is a signed count of ten-thousandths. Sums and differences
//! are computed by `rust_decimal`, and a result is accepted only when it is
//! exact at four fractional digits.

use rust_decimal::Decimal;
use vstd::arithmetic::div_mod::{lemma_fundamental_div_mod, lemma_fundamental_div_mod_converse};
use vstd::prelude::*;

verus! {

/// Number of fractional decimal digits that every amount carries.
pub const SCALE: u32 = 4;

/// Largest magnitude of an amount, in ten-thousandths: `2^96 - 1`, the widest
/// mantissa a `rust_decimal::Decimal` can hold.
pub const MAX_UNITS: i128 = 79_228_162_514_264_337_593_543_950_335;

/// Whether a count of ten-thousandths can be held by an [`Amount`].
pub open spec fn fits(units: int) -> bool {
    -MAX_UNITS <= units <= MAX_UNITS
}

/// Ten to the power `n`.
pub open spec fn pow10(n: nat) -> int
    decreases n,
{
    if n == 0 {
        1
    } else {
        10 * pow10((n - 1) as nat)
    }
}

/// `units / divisor` where that is a whole number an [`Amount`] can hold.
pub open spec fn exact_quotient(units: int, divisor: int) -> Option<int> {
    if units % divisor == 0 && fits(units / divisor) {
        Some(units / divisor)
    } else {
        None
    }
}

/// The number of ten-thousandths that the decimal `mantissa / 10^scale` is
/// worth, where it is a whole number of them that an [`Amount`] can hold.
pub open spec fn units_of_decimal(mantissa: int, scale: nat) -> Option<int> {
    if scale <= SCALE {
        let units = mantissa * pow10((SCALE - scale) as nat);
        if fits(units) {
            Some(units)
        } else {
            None
        }
    } else {
        exact_quotient(mantissa, pow10((scale - SCALE) as nat))
    }
}

proof fn lemma_pow10_is_positive(n: nat)
    ensures
        pow10(n) > 0,
    decreases n,
{
    if n > 0 {
        lemma_pow10_is_positive((n - 1) as nat);
    }
}

/// Dropping one trailing zero digit from `units` while the divisor loses a
/// factor of ten keeps the exact quotient; with a trailing digit other than
/// zero there is none.
proof fn lemma_strip_digit(units: int, divisor: int)
    requires
        divisor > 0,
    ensures
        units % 10 != 0 ==> exact_quotient(units, 10 * divisor) is None,
        units % 10 == 0 ==> exact_quotient(units / 10, divisor) == exact_quotient(
            units,
            10 * divisor,
        ),
{
    let whole = 10 * divisor;
    lemma_fundamental_div_mod(units, whole);
    lemma_fundamental_div_mod(units, 10);
    lemma_fundamental_div_mod(units / 10, divisor);
    if units % whole == 0 {
        let q = units / whole;
        assert(units == (divisor * q) * 10 + 0) by (nonlinear_arith)
            requires
                units == whole * q + 0,
                whole == 10 * divisor,
        ;
        lemma_fundamental_div_mod_converse(units, 10, divisor * q, 0);
        assert(divisor * q == q * divisor + 0) by (nonlinear_arith);
        lemma_fundamental_div_mod_converse(units / 10, divisor, q, 0);
    }
    if units % 10 == 0 && (units / 10) % divisor == 0 {
        let q = (units / 10) / divisor;
        assert(units == q * whole + 0) by (nonlinear_arith)
            requires
                units == 10 * (units / 10) + 0,
                units / 10 == divisor * q + 0,
                whole == 10 * divisor,
        ;
        lemma_fundamental_div_mod_converse(units, whole, q, 0);
    }
}

/// A decimal amount of money with exactly four fractional digits.
#[derive(Clone, Copy, Debug, PartialEq, Eq, Structural)]
pub struct Amount {
    units: i128,
}

impl View for Amount {
    type V = int;

    /// The amount as a whole number of ten-thousandths.
    closed spec fn view(&self) -> int {
        self.units as int
    }
}

/// Adds the decimals `a / 10^scale` and `b / 10^scale` with
/// `rust_decimal::Decimal::checked_add` and hands back the mantissa and the
/// scale of what it returns.
///
/// Trusted: for two decimals of one scale, a sum whose mantissa fits in 96
/// bits comes back exact and at that scale; one that does not fit comes back
/// as overflow or rounded to fewer fractional digits, never at that scale.
#[verifier::external_body]
fn decimal_checked_add(a: i128, b: i128, scale: u32) -> (r: Option<(i128, u32)>)
    requires
        fits(a as int),
        fits(b as int),
        scale <= 28,
    ensures
        fits(a + b) ==> r == Some(((a + b) as i128, scale)),
        !fits(a + b) ==> (r matches Some((_, s)) ==> s != scale),
{
    let x = Decimal::from_i128_with_scale(a, scale);
    let y = Decimal::from_i128_with_scale(b, scale);
    match x.checked_add(y) {
        Some(sum) => Some((sum.mantissa(), sum.scale())),
        None => None,
    }
}

/// Subtracts the decimal `b / 10^scale` from `a / 10^scale` with
/// `rust_decimal::Decimal::checked_sub` and hands back the mantissa and the
/// scale of what it returns.
///
/// Trusted: for two decimals of one scale, a difference whose mantissa fits in
/// 96 bits comes back exact and at that scale; one that does not fit comes
/// back as overflow or rounded to fewer fractional digits, never at that
/// scale.
#[verifier::external_body]
fn decimal_checked_sub(a: i128, b: i128, scale: u32) -> (r: Option<(i128, u32)>)
    requires
        fits(a as int),
        fits(b as int),
        scale <= 28,
    ensures
        fits(a - b) ==> r == Some(((a - b) as i128, scale)),
        !fits(a - b) ==> (r matches Some((_, s)) ==> s != scale),
{
    let x = Decimal::from_i128_with_scale(a, scale);
    let y = Decimal::from_i128_with_scale(b, scale);
    match x.checked_sub(y) {
        Some(difference) => Some((difference.mantissa(), difference.scale())),
        None => None,
    }
}

/// Compares the decimals `a / 10^scale` and `b / 10^scale` with the `>` that
/// `rust_decimal` gives `Decimal`.
///
/// Trusted: decimals of one scale are ordered as their mantissas are.
#[verifier::external_body]
fn decimal_greater(a: i128, b: i128, scale: u32) -> (r: bool)
    requires
        fits(a as int),
        fits(b as int),
        scale <= 28,
    ensures
        r == (a > b),
{
    Decimal::from_i128_with_scale(a, scale) > Decimal::from_i128_with_scale(b, scale)
}

impl Amount {
    /// Every amount stays within the 96-bit mantissa of a decimal.
    #[verifier::type_invariant]
    pub open spec fn in_range(self) -> bool {
        fits(self@)
    }

    /// The amount zero.
    pub fn zero() -> (r: Amount)
        ensures
            r@ == 0,
    {
        Amount { units: 0 }
    }

    /// The amount of `units` ten-thousandths, if that many can be held.
    pub fn from_units(units: i128) -> (r: Option<Amount>)
        ensures
            r is Some <==> fits(units as int),
            r matches Some(a) ==> a@ == units,
    {
        if -MAX_UNITS <= units && units <= MAX_UNITS {
            Some(Amount { units })
        } else {
            None
        }
    }

    /// The amount that the decimal `mantissa / 10^scale` is worth, if that
    /// decimal has no more than four significant fractional digits and is
    /// within range. Nothing is rounded.
    pub fn from_decimal_parts(mantissa: i128, scale: u32) -> (r: Option<Amount>)
        ensures
            match r {
                Some(amount) => units_of_decimal(mantissa as int, scale as nat) == Some(amount@),
                None => units_of_decimal(mantissa as int, scale as nat) is None,
            },
    {
        if scale <= SCALE {
            let factor: i128 = match scale {
                0 => 10_000,
                1 => 1_000,
                2 => 100,
                3 => 10,
                _ => 1,
            };
            proof {
                reveal_with_fuel(pow10, 5);
            }
            match mantissa.checked_mul(factor) {
                Some(units) => Amount::from_units(units),
                None => None,
            }
        } else {
            let mut units: i128 = mantissa;
            let mut excess: u32 = scale - SCALE;
            while excess > 0 && units != 0
                invariant
                    units_of_decimal(mantissa as int, scale as nat) == exact_quotient(
                        units as int,
                        pow10(excess as nat),
                    ),
                decreases excess,
            {
                proof {
                    lemma_pow10_is_positive((excess - 1) as nat);
                    lemma_strip_digit(units as int, pow10((excess - 1) as nat));
                }
                if units % 10 != 0 {
                    return None;
                }
                units = units / 10;
                excess = excess - 1;
            }
            proof {
                lemma_pow10_is_positive(excess as nat);
            }
            Amount::from_units(units)
        }
    }

    /// The amount as a number of ten-thousandths.
    pub fn units(&self) -> (u: i128)
        ensures
            u == self@,
            fits(u as int),
    {
        proof {
            use_type_invariant(self);
        }
        self.units
    }

    /// The exact sum of two amounts, or `None` when it cannot be held.
    pub fn checked_add(self, rhs: Amount) -> (r: Option<Amount>)
        ensures
            r is Some <==> fits(self@ + rhs@),
            r matches Some(sum) ==> sum@ == self@ + rhs@,
    {
        proof {
            use_type_invariant(self);
            use_type_invariant(rhs);
        }
        match decimal_checked_add(self.units, rhs.units, SCALE) {
            Some((units, scale)) => if scale == SCALE {
                Some(Amount { units })
            } else {
                None
            },
            None => None,
        }
    }

    /// The exact difference of two amounts, or `None` when it cannot be held.
    pub fn checked_sub(self, rhs: Amount) -> (r: Option<Amount>)
        ensures
            r is Some <==> fits(self@ - rhs@),
            r matches Some(difference) ==> difference@ == self@ - rhs@,
    {
        proof {
            use_type_invariant(self);
            use_type_invariant(rhs);
        }
        match decimal_checked_sub(self.units, rhs.units, SCALE) {
            Some((units, scale)) => if scale == SCALE {
                Some(Amount { units })
            } else {
                None
            },
            None => None,
        }
    }

    /// Whether this amount is strictly greater than `other`.
    pub fn exceeds(self, other: Amount) -> (r: bool)
        ensures
            r == (self@ > other@),
    {
        proof {
            use_type_invariant(self);
            use_type_invariant(other);
        }
        decimal_greater(self.units, other.units, SCALE)
    }
}

} // verus!
