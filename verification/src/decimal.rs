//! The arithmetic of `rust_decimal`, on plain values.
//!
//! A decimal is carried here as a signed mantissa and a scale: the number `mantissa / 10^scale`.
//! The functions of this module hand such pairs to `rust_decimal::Decimal` and take its answer
//! back as a pair. Their contracts are not proved: they state what `rust_decimal` computes.

use rust_decimal::Decimal;
use vstd::prelude::*;

verus! {

/// The largest magnitude that the 96-bit mantissa of a `Decimal` holds: `2^96 - 1`.
pub const MAX_MANTISSA: i128 = 79_228_162_514_264_337_593_543_950_335;

/// The largest scale of a `Decimal`.
pub const MAX_SCALE: u32 = 28;

/// The largest scale of a monetary amount: four places past the decimal point.
pub const MONEY_SCALE: u32 = 4;

/// `m` fits the 96-bit mantissa of a `Decimal`, with either sign.
pub open spec fn is_mantissa(m: int) -> bool {
    -MAX_MANTISSA <= m <= MAX_MANTISSA
}

/// The number `mantissa / 10^scale` counted in ten-thousandths, for a scale of at most four.
pub open spec fn ten_thousandths(mantissa: int, scale: nat) -> int {
    if scale == 0 {
        mantissa * 10000
    } else if scale == 1 {
        mantissa * 1000
    } else if scale == 2 {
        mantissa * 100
    } else if scale == 3 {
        mantissa * 10
    } else {
        mantissa
    }
}

/// A pair that a monetary amount may hold: a mantissa of a `Decimal` with a scale of at most four.
pub open spec fn is_money(mantissa: int, scale: nat) -> bool {
    is_mantissa(mantissa) && scale <= MONEY_SCALE
}

/// A pair whose value, written with four places past the decimal point, still fits a `Decimal`.
/// Sums and differences of such values are exact as long as they stay in this range.
pub open spec fn in_range(mantissa: int, scale: nat) -> bool {
    is_money(mantissa, scale) && is_mantissa(ten_thousandths(mantissa, scale))
}

/// What `Decimal`'s `Display` writes for the decimal with the given sign bit, magnitude and scale.
pub uninterp spec fn decimal_text(negative: bool, magnitude: int, scale: nat) -> Seq<char>;

/// The sum of two decimals, by `Decimal`'s `+` (`Add::add`).
///
/// `Decimal` rounds a sum that has no place in its 96 bits at the larger of the two scales, and
/// panics where even that fails. Claimed here: where both decimals and their sum are in range,
/// it does neither. What comes back is the sum, to the last digit, with a scale of at most
/// four.
#[verifier::external_body]
pub(crate) fn decimal_sum(am: i128, asc: u32, bm: i128, bsc: u32) -> (r: (i128, u32))
    requires
        in_range(am as int, asc as nat),
        in_range(bm as int, bsc as nat),
        is_mantissa(ten_thousandths(am as int, asc as nat) + ten_thousandths(bm as int, bsc as nat)),
    ensures
        is_money(r.0 as int, r.1 as nat),
        ten_thousandths(r.0 as int, r.1 as nat) == ten_thousandths(am as int, asc as nat)
            + ten_thousandths(bm as int, bsc as nat),
{
    let sum = Decimal::from_i128_with_scale(am, asc) + Decimal::from_i128_with_scale(bm, bsc);
    (sum.mantissa(), sum.scale())
}

/// The difference of two decimals, by `Decimal`'s `-` (`Sub::sub`).
///
/// As for the sum: where both decimals and their difference are in range, `Decimal` neither
/// rounds nor panics. What comes back is the difference, to the last digit, with a scale of
/// at most four.
#[verifier::external_body]
pub(crate) fn decimal_difference(am: i128, asc: u32, bm: i128, bsc: u32) -> (r: (i128, u32))
    requires
        in_range(am as int, asc as nat),
        in_range(bm as int, bsc as nat),
        is_mantissa(ten_thousandths(am as int, asc as nat) - ten_thousandths(bm as int, bsc as nat)),
    ensures
        is_money(r.0 as int, r.1 as nat),
        ten_thousandths(r.0 as int, r.1 as nat) == ten_thousandths(am as int, asc as nat)
            - ten_thousandths(bm as int, bsc as nat),
{
    let difference = Decimal::from_i128_with_scale(am, asc) - Decimal::from_i128_with_scale(bm, bsc);
    (difference.mantissa(), difference.scale())
}

/// Whether one decimal is below another, by `Decimal`'s `<` (`PartialOrd::lt`). Claimed here:
/// `Decimal` orders by the numbers, whatever their scales.
#[verifier::external_body]
pub(crate) fn decimal_less(am: i128, asc: u32, bm: i128, bsc: u32) -> (r: bool)
    requires
        is_money(am as int, asc as nat),
        is_money(bm as int, bsc as nat),
    ensures
        r == (ten_thousandths(am as int, asc as nat) < ten_thousandths(bm as int, bsc as nat)),
{
    Decimal::from_i128_with_scale(am, asc) < Decimal::from_i128_with_scale(bm, bsc)
}

/// Whether two decimals are equal, by `Decimal`'s `==` (`PartialEq::eq`). Claimed here:
/// `Decimal` compares the numbers, whatever their scales.
#[verifier::external_body]
pub(crate) fn decimal_equal(am: i128, asc: u32, bm: i128, bsc: u32) -> (r: bool)
    requires
        is_money(am as int, asc as nat),
        is_money(bm as int, bsc as nat),
    ensures
        r == (ten_thousandths(am as int, asc as nat) == ten_thousandths(bm as int, bsc as nat)),
{
    Decimal::from_i128_with_scale(am, asc) == Decimal::from_i128_with_scale(bm, bsc)
}

/// The text of a decimal, by `Decimal`'s `Display` (through `ToString::to_string`). Claimed
/// here: the text depends on the sign bit, the magnitude and the scale alone.
#[verifier::external_body]
pub(crate) fn decimal_to_string(negative: bool, magnitude: u128, scale: u32) -> (r: String)
    requires
        magnitude <= MAX_MANTISSA,
        scale <= MAX_SCALE,
    ensures
        r@ == decimal_text(negative, magnitude as int, scale as nat),
{
    let mut decimal = Decimal::from_i128_with_scale(magnitude as i128, scale);
    decimal.set_sign_negative(negative);
    decimal.to_string()
}

} // verus!
