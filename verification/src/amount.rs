//! Monetary amounts: decimals with at most four places past the decimal point.

use crate::decimal::{
    decimal_difference, decimal_equal, decimal_less, decimal_sum, decimal_text, decimal_to_string,
    is_mantissa, is_money, ten_thousandths, MAX_MANTISSA, MAX_SCALE, MONEY_SCALE,
};
use core::cmp::Ordering;
use vstd::prelude::*;

verus! {

/// A decimal as its sign bit, the magnitude of its mantissa and its scale: the number
/// `magnitude / 10^scale`, negative where the sign bit is set.
#[derive(Debug, Clone, Copy)]
pub struct DecimalParts {
    pub negative: bool,
    pub magnitude: u128,
    pub scale: u32,
}

impl DecimalParts {
    /// The parts are those of a decimal: a magnitude of at most 96 bits and a scale of at most 28.
    pub open spec fn is_decimal(self) -> bool {
        self.magnitude <= MAX_MANTISSA && self.scale <= MAX_SCALE
    }

    /// The parts make a monetary amount: no sign bit and at most four places past the point.
    pub open spec fn is_amount(self) -> bool {
        !self.negative && self.scale <= MONEY_SCALE
    }

    /// The decimal as `Display` writes it.
    pub open spec fn text(self) -> Seq<char> {
        decimal_text(self.negative, self.magnitude as int, self.scale as nat)
    }

    /// The number in ten-thousandths, for a scale of at most four.
    pub open spec fn value(self) -> int {
        if self.negative {
            -ten_thousandths(self.magnitude as int, self.scale as nat)
        } else {
            ten_thousandths(self.magnitude as int, self.scale as nat)
        }
    }
}

/// A monetary amount. Its view is its value in ten-thousandths.
///
/// An amount is made from a nonnegative decimal only. Subtraction may take it below zero.
#[derive(Debug, Clone, Copy)]
pub struct Amount {
    mantissa: i128,
    scale: u32,
}

impl View for Amount {
    type V = int;

    closed spec fn view(&self) -> int {
        ten_thousandths(self.mantissa as int, self.scale as nat)
    }
}

/// The text of the error for a decimal with the sign bit set.
pub open spec fn negative_amount_text(parts: DecimalParts) -> Seq<char> {
    "`"@ + parts.text()
        + "` is not a valid amount. It needs to be a nonnegative decimal number."@
}

/// The text of the error for a decimal with more than four places past the decimal point.
pub open spec fn imprecise_amount_text(parts: DecimalParts) -> Seq<char> {
    "`"@ + parts.text()
        + "` is not a valid amount. It needs to have a precision of no more than four places past the decimal."@
}

/// The text of the error for parts that make no amount.
pub open spec fn rejection_text(parts: DecimalParts) -> Seq<char> {
    if parts.negative {
        negative_amount_text(parts)
    } else {
        imprecise_amount_text(parts)
    }
}

/// The parts of the decimal `num / 10^scale`.
pub open spec fn parts_of(num: i64, scale: u32) -> DecimalParts {
    DecimalParts {
        negative: num < 0,
        magnitude: (if num < 0 { -num } else { num as int }) as u128,
        scale,
    }
}

impl Amount {
    #[verifier::type_invariant]
    spec fn representable(self) -> bool {
        is_money(self.mantissa as int, self.scale as nat)
    }

    /// The amount's value, written with four places past the decimal point, still fits a
    /// decimal. Sums and differences of such amounts are exact while they stay in this range.
    pub open spec fn in_range(self) -> bool {
        is_mantissa(self@)
    }

    /// The amount `num / 10^scale`, or the text of the error where `num` is negative or `scale`
    /// is more than four.
    pub fn new(num: i64, scale: u32) -> (r: Result<Amount, String>)
        requires
            scale <= MAX_SCALE,
        ensures
            match r {
                Ok(a) => num >= 0 && scale <= MONEY_SCALE && a@ == ten_thousandths(
                    num as int,
                    scale as nat,
                ),
                Err(e) => (num < 0 || scale > MONEY_SCALE) && e@ == rejection_text(
                    parts_of(num, scale),
                ),
            },
    {
        let wide: i128 = num as i128;
        let magnitude: u128 = if wide < 0 {
            (-wide) as u128
        } else {
            wide as u128
        };
        Amount::try_from(DecimalParts { negative: num < 0, magnitude, scale })
    }

    /// The amount zero.
    pub fn zero() -> (r: Amount)
        ensures
            r@ == 0,
    {
        Amount { mantissa: 0, scale: 0 }
    }

    /// The amount that the parts of a decimal make, or the text of the error where the sign bit
    /// is set or the scale is more than four.
    pub fn try_from(value: DecimalParts) -> (r: Result<Amount, String>)
        requires
            value.is_decimal(),
        ensures
            match r {
                Ok(a) => value.is_amount() && a@ == value.value(),
                Err(e) => !value.is_amount() && e@ == rejection_text(value),
            },
    {
        if value.negative {
            let text = decimal_to_string(value.negative, value.magnitude, value.scale);
            let message = String::from_str("`").concat(text.as_str()).concat(
                "` is not a valid amount. It needs to be a nonnegative decimal number.",
            );
            return Err(message);
        }
        if value.scale > MONEY_SCALE {
            let text = decimal_to_string(value.negative, value.magnitude, value.scale);
            let message = String::from_str("`").concat(text.as_str()).concat(
                "` is not a valid amount. It needs to have a precision of no more than four places past the decimal.",
            );
            return Err(message);
        }
        Ok(Amount { mantissa: value.magnitude as i128, scale: value.scale })
    }

    /// The sign bit, magnitude and scale of the decimal that holds this amount.
    pub fn parts(&self) -> (r: DecimalParts)
        ensures
            r == self.decimal(),
            r.is_decimal(),
            r.scale <= MONEY_SCALE,
            r.value() == self@,
            r.negative <==> self@ < 0,
    {
        proof {
            use_type_invariant(self);
        }
        if self.mantissa < 0 {
            DecimalParts { negative: true, magnitude: (-self.mantissa) as u128, scale: self.scale }
        } else {
            DecimalParts { negative: false, magnitude: self.mantissa as u128, scale: self.scale }
        }
    }

    /// Whether the amount is below zero.
    pub fn is_negative(&self) -> (r: bool)
        ensures
            r == (self@ < 0),
    {
        proof {
            use_type_invariant(self);
        }
        self.mantissa < 0
    }

    /// Whether the amount is in range.
    pub fn is_in_range(&self) -> (r: bool)
        ensures
            r == self.in_range(),
    {
        proof {
            use_type_invariant(self);
        }
        let factor: i128 = if self.scale == 0 {
            10000
        } else if self.scale == 1 {
            1000
        } else if self.scale == 2 {
            100
        } else if self.scale == 3 {
            10
        } else {
            1
        };
        let value: i128 = self.mantissa * factor;
        -MAX_MANTISSA <= value && value <= MAX_MANTISSA
    }

    /// Whether the sum of two amounts in range is in range.
    pub fn sum_in_range(&self, rhs: &Amount) -> (r: bool)
        requires
            self.in_range(),
            rhs.in_range(),
        ensures
            r == is_mantissa(self@ + rhs@),
    {
        proof {
            use_type_invariant(self);
            use_type_invariant(rhs);
        }
        let sum: i128 = self.ten_thousandths() + rhs.ten_thousandths();
        -MAX_MANTISSA <= sum && sum <= MAX_MANTISSA
    }

    /// Whether the difference of two amounts in range is in range.
    pub fn difference_in_range(&self, rhs: &Amount) -> (r: bool)
        requires
            self.in_range(),
            rhs.in_range(),
        ensures
            r == is_mantissa(self@ - rhs@),
    {
        let difference: i128 = self.ten_thousandths() - rhs.ten_thousandths();
        -MAX_MANTISSA <= difference && difference <= MAX_MANTISSA
    }

    /// The value of an amount in range, in ten-thousandths.
    fn ten_thousandths(&self) -> (r: i128)
        requires
            self.in_range(),
        ensures
            r == self@,
    {
        proof {
            use_type_invariant(self);
        }
        if self.scale == 0 {
            self.mantissa * 10000
        } else if self.scale == 1 {
            self.mantissa * 1000
        } else if self.scale == 2 {
            self.mantissa * 100
        } else if self.scale == 3 {
            self.mantissa * 10
        } else {
            self.mantissa
        }
    }

    /// Adds `rhs` to the amount.
    pub fn add_assign(&mut self, rhs: Amount)
        requires
            old(self).in_range(),
            rhs.in_range(),
            is_mantissa(old(self)@ + rhs@),
        ensures
            final(self)@ == old(self)@ + rhs@,
    {
        proof {
            use_type_invariant(&*self);
            use_type_invariant(&rhs);
        }
        let sum: (i128, u32) = decimal_sum(self.mantissa, self.scale, rhs.mantissa, rhs.scale);
        *self = Amount { mantissa: sum.0, scale: sum.1 };
    }

    /// Subtracts `rhs` from the amount.
    pub fn sub_assign(&mut self, rhs: Amount)
        requires
            old(self).in_range(),
            rhs.in_range(),
            is_mantissa(old(self)@ - rhs@),
        ensures
            final(self)@ == old(self)@ - rhs@,
    {
        proof {
            use_type_invariant(&*self);
            use_type_invariant(&rhs);
        }
        let difference: (i128, u32) = decimal_difference(
            self.mantissa,
            self.scale,
            rhs.mantissa,
            rhs.scale,
        );
        *self = Amount { mantissa: difference.0, scale: difference.1 };
    }

    /// The amount as `Display` writes the decimal that holds it.
    pub fn to_string(&self) -> (r: String)
        ensures
            r@ == self.text(),
    {
        let parts = self.parts();
        decimal_to_string(parts.negative, parts.magnitude, parts.scale)
    }

    /// The sign bit, magnitude and scale of the decimal that holds this amount.
    pub closed spec fn decimal(self) -> DecimalParts {
        DecimalParts {
            negative: self.mantissa < 0,
            magnitude: (if self.mantissa < 0 {
                -self.mantissa
            } else {
                self.mantissa as int
            }) as u128,
            scale: self.scale,
        }
    }

    /// The amount as text: what `Display` writes for the decimal that holds it.
    pub open spec fn text(self) -> Seq<char> {
        self.decimal().text()
    }
}

impl PartialEq for Amount {
    /// Two amounts are equal where their values are, whatever their scales.
    fn eq(&self, other: &Amount) -> (r: bool) {
        proof {
            use_type_invariant(self);
            use_type_invariant(other);
        }
        decimal_equal(self.mantissa, self.scale, other.mantissa, other.scale)
    }
}

impl vstd::std_specs::cmp::PartialEqSpecImpl for Amount {
    open spec fn obeys_eq_spec() -> bool {
        true
    }

    open spec fn eq_spec(&self, other: &Amount) -> bool {
        self@ == other@
    }
}

impl PartialOrd for Amount {
    /// Amounts are ordered by their values.
    fn partial_cmp(&self, other: &Amount) -> (r: Option<Ordering>) {
        proof {
            use_type_invariant(self);
            use_type_invariant(other);
        }
        if decimal_equal(self.mantissa, self.scale, other.mantissa, other.scale) {
            Some(Ordering::Equal)
        } else if decimal_less(self.mantissa, self.scale, other.mantissa, other.scale) {
            Some(Ordering::Less)
        } else {
            Some(Ordering::Greater)
        }
    }
}

impl vstd::std_specs::cmp::PartialOrdSpecImpl for Amount {
    open spec fn obeys_partial_cmp_spec() -> bool {
        true
    }

    open spec fn partial_cmp_spec(&self, other: &Amount) -> Option<Ordering> {
        if self@ == other@ {
            Some(Ordering::Equal)
        } else if self@ < other@ {
            Some(Ordering::Less)
        } else {
            Some(Ordering::Greater)
        }
    }
}

} // verus!
