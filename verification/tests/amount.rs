use payment_engine::{Amount, DecimalParts};
use rust_decimal::prelude::Zero;
use rust_decimal::Decimal;

fn parts(value: Decimal) -> DecimalParts {
    DecimalParts {
        negative: value.is_sign_negative(),
        magnitude: value.mantissa().unsigned_abs(),
        scale: value.scale(),
    }
}

fn decimal(amount: Amount) -> Decimal {
    let parts = amount.parts();
    let mut value = Decimal::from_i128_with_scale(parts.magnitude as i128, parts.scale);
    value.set_sign_negative(parts.negative);
    value
}

#[test]
fn it_accepts_valid_decimal_amounts() {
    let values = [
        // Zero
        Decimal::zero(),
        // Other examples
        Decimal::new(1, 1),
        Decimal::new(1, 2),
        Decimal::new(12, 3),
        Decimal::new(123, 4),
        Decimal::new(99999, 4),
    ];
    for value in values {
        assert!(Amount::try_from(parts(value)).is_ok());
    }
}

#[test]
fn it_rejects_invalid_decimal_amounts() {
    let values = [
        // Negative
        Decimal::new(-1, 1),
        // Precision
        Decimal::new(1, 5),
        Decimal::new(-1, 5),
        Decimal::new(12, 6),
    ];
    for value in values {
        assert!(Amount::try_from(parts(value)).is_err());
    }
}

#[test]
fn new_accepts_what_try_from_accepts() {
    assert!(Amount::new(0, 0).is_ok());
    assert!(Amount::new(1, 4).is_ok());
    assert!(Amount::new(i64::MAX, 0).is_ok());
    assert!(Amount::new(1, 5).is_err());
    assert!(Amount::new(-1, 0).is_err());
    assert!(Amount::new(i64::MIN, 28).is_err());
}

#[test]
fn the_error_names_the_value_and_the_reason() {
    assert_eq!(
        Amount::new(-15, 1).unwrap_err(),
        "`-1.5` is not a valid amount. It needs to be a nonnegative decimal number."
    );
    assert_eq!(
        Amount::new(12, 6).unwrap_err(),
        "`0.000012` is not a valid amount. It needs to have a precision of no more than four places past the decimal."
    );
    // The sign is looked at first.
    assert_eq!(
        Amount::new(-1, 5).unwrap_err(),
        "`-0.00001` is not a valid amount. It needs to be a nonnegative decimal number."
    );
}

#[test]
fn a_negative_zero_is_refused() {
    let mut zero = Decimal::new(0, 2);
    zero.set_sign_negative(true);
    assert_eq!(
        Amount::try_from(parts(zero)).unwrap_err(),
        "`-0.00` is not a valid amount. It needs to be a nonnegative decimal number."
    );
}

#[test]
fn the_largest_decimal_is_an_amount() {
    let amount = Amount::try_from(parts(Decimal::MAX)).unwrap();
    assert_eq!(decimal(amount), Decimal::MAX);
    assert!(!amount.is_in_range());
    assert_eq!(amount.to_string(), "79228162514264337593543950335");
}

#[test]
fn zero_is_zero() {
    assert_eq!(Amount::zero(), Amount::new(0, 4).unwrap());
    assert_eq!(Amount::zero().to_string(), "0");
    assert!(!Amount::zero().is_negative());
    assert!(Amount::zero().is_in_range());
}

#[test]
fn amounts_are_written_with_their_scale() {
    assert_eq!(Amount::new(100000, 4).unwrap().to_string(), "10.0000");
    assert_eq!(Amount::new(15, 1).unwrap().to_string(), "1.5");
    assert_eq!(Amount::new(7, 0).unwrap().to_string(), "7");
    assert_eq!(Amount::new(5, 3).unwrap().to_string(), "0.005");
}

#[test]
fn amounts_are_equal_by_value() {
    assert_eq!(Amount::new(10, 1).unwrap(), Amount::new(1, 0).unwrap());
    assert_eq!(Amount::new(10000, 4).unwrap(), Amount::new(1, 0).unwrap());
    assert_ne!(Amount::new(10001, 4).unwrap(), Amount::new(1, 0).unwrap());
    assert_ne!(Amount::new(1, 1).unwrap(), Amount::new(1, 2).unwrap());
}

#[test]
fn amounts_are_ordered_by_value() {
    let small = Amount::new(9999, 4).unwrap();
    let one = Amount::new(1, 0).unwrap();
    let large = Amount::new(11, 1).unwrap();
    assert!(small < one);
    assert!(one < large);
    assert!(large > small);
    assert!(one <= Amount::new(10, 1).unwrap());
    assert!(one >= Amount::new(10, 1).unwrap());
    assert!(!(one < Amount::new(10, 1).unwrap()));
    assert_eq!(
        small.partial_cmp(&one),
        Some(std::cmp::Ordering::Less)
    );
    assert_eq!(
        one.partial_cmp(&Amount::new(100, 2).unwrap()),
        Some(std::cmp::Ordering::Equal)
    );
    assert_eq!(
        large.partial_cmp(&one),
        Some(std::cmp::Ordering::Greater)
    );
}

#[test]
fn sums_are_exact_across_scales() {
    let mut amount = Amount::new(15, 1).unwrap();
    amount.add_assign(Amount::new(225, 2).unwrap());
    assert_eq!(amount, Amount::new(375, 2).unwrap());
    assert_eq!(amount.to_string(), "3.75");
    amount.add_assign(Amount::new(1, 4).unwrap());
    assert_eq!(amount, Amount::new(37501, 4).unwrap());
    assert_eq!(amount.to_string(), "3.7501");
}

#[test]
fn differences_are_exact_across_scales() {
    let mut amount = Amount::new(10, 0).unwrap();
    amount.sub_assign(Amount::new(25, 2).unwrap());
    assert_eq!(amount, Amount::new(975, 2).unwrap());
    assert_eq!(amount.to_string(), "9.75");
    amount.sub_assign(Amount::new(975, 2).unwrap());
    assert_eq!(amount, Amount::zero());
}

#[test]
fn a_difference_may_fall_below_zero() {
    let mut amount = Amount::new(1, 0).unwrap();
    amount.sub_assign(Amount::new(25, 1).unwrap());
    assert!(amount.is_negative());
    assert!(amount < Amount::zero());
    assert_eq!(amount.to_string(), "-1.5");
    let parts = amount.parts();
    assert!(parts.negative);
    assert_eq!(parts.magnitude, 15);
    assert_eq!(parts.scale, 1);
    amount.add_assign(Amount::new(25, 1).unwrap());
    assert_eq!(amount, Amount::new(1, 0).unwrap());
}

#[test]
fn the_parts_give_the_amount_back() {
    let amount = Amount::new(123456, 3).unwrap();
    let parts = amount.parts();
    assert!(!parts.negative);
    assert_eq!(parts.magnitude, 123456);
    assert_eq!(parts.scale, 3);
    assert_eq!(Amount::try_from(parts).unwrap(), amount);
    assert_eq!(decimal(amount), Decimal::new(123456, 3));
}

#[test]
fn the_range_ends_at_the_largest_mantissa_in_ten_thousandths() {
    let largest: u128 = 79_228_162_514_264_337_593_543_950_335;
    let at_four = Amount::try_from(DecimalParts { negative: false, magnitude: largest, scale: 4 })
        .unwrap();
    assert!(at_four.is_in_range());
    let at_three = Amount::try_from(DecimalParts { negative: false, magnitude: largest, scale: 3 })
        .unwrap();
    assert!(!at_three.is_in_range());
    let whole = Amount::try_from(DecimalParts {
        negative: false,
        magnitude: 7_922_816_251_426_433_759_354_395,
        scale: 0,
    })
    .unwrap();
    assert!(whole.is_in_range());
    let beyond = Amount::try_from(DecimalParts {
        negative: false,
        magnitude: 7_922_816_251_426_433_759_354_396,
        scale: 0,
    })
    .unwrap();
    assert!(!beyond.is_in_range());
}

#[test]
fn a_sum_is_in_range_up_to_the_largest_mantissa() {
    let largest: u128 = 79_228_162_514_264_337_593_543_950_335;
    let top = Amount::try_from(DecimalParts { negative: false, magnitude: largest, scale: 4 })
        .unwrap();
    let unit = Amount::new(1, 4).unwrap();
    assert!(!top.sum_in_range(&unit));
    assert!(top.difference_in_range(&unit));
    assert!(top.sum_in_range(&Amount::zero()));
    let mut below = top;
    below.sub_assign(unit);
    assert!(below.sum_in_range(&unit));
    below.add_assign(unit);
    assert_eq!(below, top);
    let mut bottom = Amount::zero();
    bottom.sub_assign(top);
    assert!(!bottom.difference_in_range(&unit));
    assert!(bottom.sum_in_range(&unit));
}

#[test]
fn the_library_agrees_with_the_decimals() {
    let cases = [(15i64, 1u32, 225i64, 2u32), (0, 0, 12345, 4), (1, 0, 9999, 4), (500, 2, 5, 0)];
    for (am, asc, bm, bsc) in cases {
        let a = Amount::new(am, asc).unwrap();
        let b = Amount::new(bm, bsc).unwrap();
        let mut sum = a;
        sum.add_assign(b);
        assert_eq!(decimal(sum), Decimal::new(am, asc) + Decimal::new(bm, bsc));
        let mut difference = a;
        difference.sub_assign(b);
        assert_eq!(decimal(difference), Decimal::new(am, asc) - Decimal::new(bm, bsc));
        assert_eq!(a < b, Decimal::new(am, asc) < Decimal::new(bm, bsc));
        assert_eq!(a == b, Decimal::new(am, asc) == Decimal::new(bm, bsc));
        assert_eq!(a.to_string(), Decimal::new(am, asc).to_string());
    }
}
