use gideon_tax_core::decimal::Decimal;
use gideon_tax_core::usd_amount::UsdAmount;

#[test]
fn test_from_cents() {
    let m = UsdAmount::from_cents(12345);
    assert_eq!(m.as_cents(), 12345);
    assert_eq!(m.to_string(), "$123.45");
}

#[test]
fn test_from_dollars() {
    let m = UsdAmount::from_dollars(100);
    assert_eq!(m.as_cents(), 10000);
}

#[test]
fn test_rounding() {
    // $123.49 rounds to $123
    let m1 = UsdAmount::from_cents(12349);
    assert_eq!(m1.round_to_dollar().as_cents(), 12300);

    // $123.50 rounds to $124
    let m2 = UsdAmount::from_cents(12350);
    assert_eq!(m2.round_to_dollar().as_cents(), 12400);

    // $123.51 rounds to $124
    let m3 = UsdAmount::from_cents(12351);
    assert_eq!(m3.round_to_dollar().as_cents(), 12400);
}

#[test]
fn test_saturating_sub() {
    let a = UsdAmount::from_dollars(100);
    let b = UsdAmount::from_dollars(150);
    assert_eq!(a.saturating_sub(b), UsdAmount::zero());
    assert_eq!(b.saturating_sub(a), UsdAmount::from_dollars(50));
}

#[test]
fn test_saturating_sub_equal() {
    let a = UsdAmount::from_dollars(100);
    assert_eq!(a.saturating_sub(a), UsdAmount::zero());
}

#[test]
fn test_sum() {
    let amounts = vec![
        UsdAmount::from_dollars(100),
        UsdAmount::from_dollars(200),
        UsdAmount::from_dollars(300),
    ];
    let total: UsdAmount = UsdAmount::sum(&amounts);
    assert_eq!(total, UsdAmount::from_dollars(600));
}

#[test]
fn test_negative_amounts() {
    let neg = UsdAmount::from_dollars(-50);
    let pos = UsdAmount::from_dollars(50);
    let zero = UsdAmount::zero();

    assert!(neg.is_negative());
    assert!(!neg.is_positive());
    assert!(!neg.is_zero());

    assert!(pos.is_positive());
    assert!(!pos.is_negative());
    assert!(!pos.is_zero());

    assert!(zero.is_zero());
    assert!(!zero.is_positive());
    assert!(!zero.is_negative());
}

#[test]
fn test_abs() {
    let neg = UsdAmount::from_dollars(-50);
    let pos = UsdAmount::from_dollars(50);
    assert_eq!(neg.abs(), pos);
    assert_eq!(pos.abs(), pos);
}

#[test]
fn test_rounding_negative() {
    // -$123.49 rounds to -$123
    let m1 = UsdAmount::from_cents(-12349);
    assert_eq!(m1.round_to_dollar(), UsdAmount::from_dollars(-123));

    // -$123.50 rounds to -$124
    let m2 = UsdAmount::from_cents(-12350);
    assert_eq!(m2.round_to_dollar(), UsdAmount::from_dollars(-124));
}

#[test]
fn test_trunc_to_dollar() {
    // Positive: truncates toward zero
    let m1 = UsdAmount::from_cents(12399);
    assert_eq!(m1.trunc_to_dollar(), UsdAmount::from_dollars(123));

    // Negative: truncates toward zero (ceiling)
    let m2 = UsdAmount::from_cents(-12399);
    assert_eq!(m2.trunc_to_dollar(), UsdAmount::from_dollars(-123));
}

#[test]
fn test_round_to_cents() {
    let m = UsdAmount::new(Decimal::new(123456, 3)); // 123.456
    assert_eq!(m.round_to_cents(), UsdAmount::from_cents(12346));

    let m2 = UsdAmount::new(Decimal::new(123454, 3)); // 123.454
    assert_eq!(m2.round_to_cents(), UsdAmount::from_cents(12345));

    let m3 = UsdAmount::new(Decimal::new(123455, 3)); // 123.455
    assert_eq!(m3.round_to_cents(), UsdAmount::from_cents(12346));
}

#[test]
fn test_multiply_rate() {
    let income = UsdAmount::from_dollars(50000);
    let rate = Decimal::new(22, 2); // 22% tax rate
    let tax = income.multiply_rate(rate);
    assert_eq!(tax, UsdAmount::from_dollars(11000));

    // Zero rate
    assert_eq!(income.multiply_rate(Decimal::new(0, 0)), UsdAmount::zero());

    // Rate > 1
    assert_eq!(
        UsdAmount::from_dollars(100).multiply_rate(Decimal::new(15, 1)),
        UsdAmount::from_dollars(150)
    );

    // Negative rate
    assert_eq!(
        UsdAmount::from_dollars(100).multiply_rate(Decimal::new(-1, 1)),
        UsdAmount::from_dollars(-10)
    );
}

#[test]
fn test_min_max() {
    let a = UsdAmount::from_dollars(100);
    let b = UsdAmount::from_dollars(200);

    assert_eq!(a.min(b), a);
    assert_eq!(a.max(b), b);
    assert_eq!(b.min(a), a);
    assert_eq!(b.max(a), b);

    // Same values
    assert_eq!(a.min(a), a);
    assert_eq!(a.max(a), a);
}

#[test]
fn test_subtraction() {
    let a = UsdAmount::from_dollars(200);
    let b = UsdAmount::from_dollars(50);

    assert_eq!(a - b, UsdAmount::from_dollars(150));
    assert_eq!(b - a, UsdAmount::from_dollars(-150));
}

#[test]
fn test_sub_assign() {
    let mut a = UsdAmount::from_dollars(200);
    a -= UsdAmount::from_dollars(50);
    assert_eq!(a, UsdAmount::from_dollars(150));
}

// What the decimal arithmetic gives, against the `rust_decimal` crate itself

fn outside(amount: UsdAmount) -> rust_decimal::Decimal {
    let number = amount.as_decimal();
    let mut outside =
        rust_decimal::Decimal::from_i128_with_scale(number.mantissa(), number.scale());
    outside.set_sign_negative(number.is_sign_negative());
    outside
}

fn inside(number: rust_decimal::Decimal) -> UsdAmount {
    UsdAmount::new(
        Decimal::try_from_parts(number.mantissa(), number.scale(), number.is_sign_negative())
            .unwrap(),
    )
}

/// Mantissa, scale and sign: everything that a decimal number holds.
fn parts(number: rust_decimal::Decimal) -> (i128, u32, bool) {
    (number.mantissa(), number.scale(), number.is_sign_negative())
}

fn minus_zero(scale: u32) -> UsdAmount {
    UsdAmount::new(Decimal::try_from_parts(0, scale, true).unwrap())
}

fn samples() -> Vec<UsdAmount> {
    let mut all = Vec::new();
    all.push(minus_zero(0));
    all.push(minus_zero(3));
    for (mantissa, scale) in [
        (0i64, 0u32),
        (0, 5),
        (1, 0),
        (-1, 0),
        (5, 1),
        (-5, 1),
        (15, 1),
        (-15, 1),
        (25, 1),
        (149, 2),
        (150, 2),
        (-150, 2),
        (151, 2),
        (12_345, 2),
        (-12_345, 2),
        (123_455, 3),
        (-123_455, 3),
        (123_454_999, 6),
        (1_005, 3),
        (-1_005, 3),
        (999, 3),
        (-999, 3),
        (4_999_999_999, 10),
        (5_000_000_000, 10),
        (i64::MAX, 0),
        (i64::MIN, 0),
        (i64::MAX, 28),
        (i64::MIN, 19),
    ] {
        all.push(UsdAmount::new(Decimal::new(mantissa, scale)));
    }
    all
}

#[test]
fn parts_go_to_the_outside_crate_and_back() {
    for amount in samples() {
        let back = inside(outside(amount)).as_decimal();
        assert_eq!(back.parts(), amount.as_decimal().parts());
        assert_eq!(back.mantissa(), amount.as_decimal().mantissa());
        assert_eq!(back.scale(), amount.as_decimal().scale());
        assert_eq!(
            back.is_sign_negative(),
            amount.as_decimal().is_sign_negative()
        );
        assert_eq!(parts(outside(amount)), amount.as_decimal().parts());
    }
}

#[test]
fn rounding_is_half_away_from_zero_as_stated() {
    let cases = [
        ((149, 2), 1),
        ((150, 2), 2),
        ((-149, 2), -1),
        ((-150, 2), -2),
        ((5, 1), 1),
        ((-5, 1), -1),
        ((4, 1), 0),
        ((-4, 1), 0),
        ((25, 1), 3),
        ((-25, 1), -3),
        ((4_999_999_999, 10), 0),
        ((5_000_000_000, 10), 1),
        ((7, 0), 7),
    ];
    for ((mantissa, scale), dollars) in cases {
        let rounded = UsdAmount::new(Decimal::new(mantissa, scale)).round_to_dollar();
        assert_eq!(rounded.as_decimal().mantissa(), dollars);
        assert_eq!(rounded.as_decimal().scale(), 0);
    }
    // Fewer digits than asked for: nothing changes, not even the scale.
    let short = UsdAmount::new(Decimal::new(15, 1)).round_to_cents().as_decimal();
    assert_eq!((short.mantissa(), short.scale()), (15, 1));
    let long = UsdAmount::new(Decimal::new(-123_455, 3)).round_to_cents().as_decimal();
    assert_eq!((long.mantissa(), long.scale()), (-12_346, 2));
}

#[test]
fn rounding_and_truncating_agree_with_the_outside_crate() {
    let strategy = rust_decimal::RoundingStrategy::MidpointAwayFromZero;
    for amount in samples() {
        let number = outside(amount);
        assert_eq!(
            amount.round_to_dollar().as_decimal().parts(),
            parts(number.round_dp_with_strategy(0, strategy))
        );
        assert_eq!(
            amount.round_to_cents().as_decimal().parts(),
            parts(number.round_dp_with_strategy(2, strategy))
        );
        assert_eq!(
            amount.trunc_to_dollar().as_decimal().parts(),
            parts(number.trunc())
        );
        assert_eq!(amount.abs().as_decimal().parts(), parts(number.abs()));
        assert_eq!(amount.is_zero(), number.is_zero());
        assert_eq!(
            amount.is_negative(),
            number.is_sign_negative() && !number.is_zero()
        );
        assert_eq!(
            amount.is_positive(),
            number.is_sign_positive() && !number.is_zero()
        );
    }
}

#[test]
fn zero_keeps_its_sign() {
    // Cutting off the digits of a small negative number leaves a zero that
    // still prints its minus sign.
    let cut = UsdAmount::new(Decimal::new(-5, 1)).trunc_to_dollar();
    assert_eq!(cut.as_decimal().parts(), (0, 0, true));
    assert_eq!(cut.to_string(), "$-0.00");
    assert!(cut.is_zero() && !cut.is_negative() && !cut.is_positive());
    assert_eq!(cut, UsdAmount::zero());
    assert_eq!(cut.abs().as_decimal().parts(), (0, 0, false));
    // Rounding a small negative number to zero gives the plain zero.
    let rounded = UsdAmount::new(Decimal::new(-4, 1)).round_to_dollar();
    assert_eq!(rounded.as_decimal().parts(), (0, 0, false));
    assert_eq!(rounded.to_string(), "$0.00");
    // A zero of either sign keeps it when it is rounded.
    assert_eq!(minus_zero(3).round_to_cents().as_decimal().parts(), (0, 2, true));
    assert_eq!(minus_zero(1).round_to_cents().as_decimal().parts(), (0, 1, true));
    assert_eq!(
        UsdAmount::new(Decimal::new(0, 4)).round_to_dollar().as_decimal().parts(),
        (0, 0, false)
    );
    assert!(!UsdAmount::zero().as_decimal().is_sign_negative());
    assert!(!UsdAmount::from_cents(0).as_decimal().is_sign_negative());
}

#[test]
fn truncating_drops_the_digits_after_the_point() {
    for ((mantissa, scale), whole) in [
        ((12_399, 2), 123),
        ((-12_399, 2), -123),
        ((99, 2), 0),
        ((-99, 2), 0),
        ((5, 0), 5),
        ((i64::MAX, 19), 0),
    ] {
        let truncated = UsdAmount::new(Decimal::new(mantissa, scale))
            .trunc_to_dollar()
            .as_decimal();
        assert_eq!((truncated.mantissa(), truncated.scale()), (whole, 0));
    }
}

#[test]
fn comparisons_go_by_the_number_not_by_its_digits() {
    let one = UsdAmount::from_dollars(1);
    let one_too = UsdAmount::from_cents(100);
    let more = UsdAmount::new(Decimal::new(1_000_001, 6));
    assert_eq!(one, one_too);
    assert!(one <= one_too && one >= one_too);
    assert!(one < more && more > one_too);
    assert_ne!(one, more);
    assert!(UsdAmount::from_cents(-1) < UsdAmount::zero());
    assert!(UsdAmount::new(Decimal::new(-5, 1)) > UsdAmount::new(Decimal::new(-51, 2)));
    assert_eq!(
        one.partial_cmp(&more),
        Some(std::cmp::Ordering::Less)
    );
    for a in samples() {
        for b in samples() {
            assert_eq!(a.partial_cmp(&b), outside(a).partial_cmp(&outside(b)));
            assert_eq!(a == b, outside(a) == outside(b));
            assert_eq!(outside(a.min(b)), outside(a).min(outside(b)));
            assert_eq!(outside(a.max(b)), outside(a).max(outside(b)));
        }
    }
}

#[test]
fn arithmetic_agrees_with_the_outside_crate() {
    for a in samples() {
        for b in samples() {
            assert_eq!(
                a.checked_add(b).map(|sum| sum.as_decimal().parts()),
                outside(a).checked_add(outside(b)).map(parts)
            );
            assert_eq!(
                a.checked_sub(b).map(|difference| difference.as_decimal().parts()),
                outside(a).checked_sub(outside(b)).map(parts)
            );
            assert_eq!(
                a.checked_multiply_rate(b.as_decimal())
                    .map(|product| product.as_decimal().parts()),
                outside(a).checked_mul(outside(b)).map(parts)
            );
        }
    }
}

#[test]
fn sums_keep_the_digits_of_the_decimal_arithmetic() {
    let sum = (UsdAmount::from_cents(150) + UsdAmount::from_dollars(2)).as_decimal();
    assert_eq!((sum.mantissa(), sum.scale()), (350, 2));
    let difference = (UsdAmount::from_dollars(2) - UsdAmount::from_cents(150)).as_decimal();
    assert_eq!((difference.mantissa(), difference.scale()), (50, 2));
    let product = UsdAmount::from_cents(150)
        .multiply_rate(Decimal::new(22, 2))
        .as_decimal();
    assert_eq!((product.mantissa(), product.scale()), (3_300, 4));
    let mut running = UsdAmount::from_cents(5);
    running += UsdAmount::from_cents(7);
    assert_eq!(running, UsdAmount::from_cents(12));
}

#[test]
fn amounts_beyond_the_decimal_range_are_refused() {
    let largest = UsdAmount::new(
        Decimal::try_from_i128_with_scale(79_228_162_514_264_337_593_543_950_335, 0).unwrap(),
    );
    assert_eq!(largest.checked_add(UsdAmount::from_dollars(1)), None);
    assert_eq!(largest.checked_add(largest), None);
    assert_eq!(
        UsdAmount::zero().checked_sub(largest).unwrap().checked_sub(largest),
        None
    );
    assert_eq!(largest.checked_multiply_rate(Decimal::new(2, 0)), None);
    assert_eq!(largest.checked_as_cents(), None);
    let smallest = UsdAmount::zero().checked_sub(largest).unwrap();
    assert_eq!(largest.checked_saturating_sub(smallest), None);
    assert_eq!(
        UsdAmount::checked_sum(&[largest, UsdAmount::from_cents(1), largest]),
        None
    );
    assert_eq!(
        UsdAmount::checked_sum(&[largest, UsdAmount::zero()]),
        Some(largest)
    );
    assert_eq!(
        UsdAmount::from_dollars(3).checked_saturating_sub(UsdAmount::from_dollars(5)),
        Some(UsdAmount::zero())
    );
    assert_eq!(
        UsdAmount::from_dollars(5).checked_saturating_sub(UsdAmount::from_dollars(3)),
        Some(UsdAmount::from_dollars(2))
    );
}

#[test]
fn decimal_parts_must_be_within_limits() {
    let limit = 79_228_162_514_264_337_593_543_950_335i128;
    assert!(Decimal::try_from_i128_with_scale(limit, 28).is_some());
    assert!(Decimal::try_from_i128_with_scale(-limit, 0).is_some());
    assert!(Decimal::try_from_i128_with_scale(limit + 1, 0).is_none());
    assert!(Decimal::try_from_i128_with_scale(-limit - 1, 0).is_none());
    assert!(Decimal::try_from_i128_with_scale(1, 29).is_none());
    // The sign goes with the mantissa, and only zero may take either.
    assert!(Decimal::try_from_parts(5, 0, false).is_some());
    assert!(Decimal::try_from_parts(5, 0, true).is_none());
    assert!(Decimal::try_from_parts(-5, 0, true).is_some());
    assert!(Decimal::try_from_parts(-5, 0, false).is_none());
    assert!(Decimal::try_from_parts(0, 0, true).is_some());
    assert!(Decimal::try_from_parts(0, 0, false).is_some());
    assert_eq!(Decimal::new(-7, 1).parts(), (-7, 1, true));
    assert_eq!(Decimal::new(7, 1).parts(), (7, 1, false));
    assert_eq!(Decimal::new(0, 1).parts(), (0, 1, false));
    for (mantissa, scale) in [(limit, 28), (-limit, 0), (0, 0), (1, 28)] {
        assert!(rust_decimal::Decimal::try_from_i128_with_scale(mantissa, scale).is_ok());
    }
    assert!(rust_decimal::Decimal::try_from_i128_with_scale(limit + 1, 0).is_err());
    assert!(rust_decimal::Decimal::try_from_i128_with_scale(1, 29).is_err());
    let number = Decimal::from_i128_with_scale(-limit, 3);
    assert_eq!((number.mantissa(), number.scale()), (-limit, 3));
}

#[test]
fn cents_are_truncated_and_fall_back_to_zero() {
    assert_eq!(UsdAmount::new(Decimal::new(123_456, 3)).as_cents(), 12_345);
    assert_eq!(UsdAmount::new(Decimal::new(-123_456, 3)).as_cents(), -12_345);
    assert_eq!(UsdAmount::new(Decimal::new(9, 3)).as_cents(), 0);
    assert_eq!(UsdAmount::from_dollars(i64::MAX / 100).as_cents(), i64::MAX / 100 * 100);
    // More cents than an `i64` holds: zero.
    assert_eq!(UsdAmount::from_dollars(i64::MAX).as_cents(), 0);
    assert_eq!(UsdAmount::from_dollars(i64::MIN).as_cents(), 0);
    assert_eq!(UsdAmount::from_dollars(i64::MAX).checked_as_cents(), Some(0));
    assert_eq!(UsdAmount::from_cents(i64::MIN).as_cents(), i64::MIN);
}

#[test]
fn amounts_in_words() {
    assert_eq!(UsdAmount::zero().to_string(), "$0.00");
    assert_eq!(UsdAmount::from_dollars(7).to_string(), "$7.00");
    assert_eq!(UsdAmount::from_cents(-12_345).to_string(), "$-123.45");
    assert_eq!(UsdAmount::from_cents(5).to_string(), "$0.05");
    // Digits past the second are cut off, not rounded.
    assert_eq!(UsdAmount::new(Decimal::new(123_456, 3)).to_string(), "$123.45");
    assert_eq!(UsdAmount::new(Decimal::new(15, 1)).to_string(), "$1.50");
    for amount in samples() {
        assert_eq!(amount.to_string(), format!("${:.2}", outside(amount)));
    }
}

#[test]
fn default_and_conversions() {
    assert_eq!(UsdAmount::default(), UsdAmount::zero());
    let number = Decimal::new(1_999, 2);
    let amount = UsdAmount::from(number);
    assert_eq!(amount, UsdAmount::from_cents(1_999));
    let back = Decimal::from(amount);
    assert_eq!((back.mantissa(), back.scale()), (1_999, 2));
    let zero = UsdAmount::zero().as_decimal();
    assert_eq!((zero.mantissa(), zero.scale()), (0, 0));
}

#[test]
fn sum_adds_from_zero_in_order() {
    assert_eq!(UsdAmount::sum(&[]), UsdAmount::zero());
    let total = UsdAmount::sum(&[
        UsdAmount::from_cents(150),
        UsdAmount::from_dollars(2),
        UsdAmount::from_cents(-25),
    ])
    .as_decimal();
    assert_eq!((total.mantissa(), total.scale()), (325, 2));
    assert_eq!(
        UsdAmount::checked_sum(&[UsdAmount::from_cents(150), UsdAmount::from_dollars(2)]),
        Some(UsdAmount::from_cents(350))
    );
}

// What is stated of rounding, truncating and comparing, worked out here with
// plain integers and held against what the amounts do

fn pow10(exponent: u32) -> i128 {
    10i128.pow(exponent)
}

fn stated_rounding(mantissa: i128, scale: u32, negative: bool, places: u32) -> (i128, u32, bool) {
    if scale <= places {
        return (mantissa, scale, negative);
    }
    let unit = pow10(scale - places);
    let kept = (mantissa.abs() + unit / 2) / unit;
    let rounded = if mantissa < 0 { -kept } else { kept };
    let sign = if mantissa == 0 { negative } else { rounded < 0 };
    (rounded, places, sign)
}

fn stated_whole_part(mantissa: i128, scale: u32) -> i128 {
    let kept = mantissa.abs() / pow10(scale);
    if mantissa < 0 {
        -kept
    } else {
        kept
    }
}

/// The order of `a.0 / 10^a.1` and `b.0 / 10^b.1`, where plain integers can
/// work it out.
fn stated_order(a: (i128, u32), b: (i128, u32)) -> Option<std::cmp::Ordering> {
    let left = a.0.checked_mul(pow10(b.1))?;
    let right = b.0.checked_mul(pow10(a.1))?;
    Some(left.cmp(&right))
}

/// Numbers of every scale up to `most_digits`, from a fixed sequence.
fn many(most_digits: u32) -> Vec<UsdAmount> {
    let mut all = samples();
    let mut state: u64 = 0x9E37_79B9_7F4A_7C15;
    for i in 0..400u32 {
        state = state
            .wrapping_mul(6_364_136_223_846_793_005)
            .wrapping_add(1_442_695_040_888_963_407);
        let spread = state >> (i % 60);
        let mantissa = (spread as i64) >> (i % 7);
        all.push(UsdAmount::new(Decimal::new(mantissa, i % (most_digits + 1))));
    }
    all
}

#[test]
fn rounding_does_what_is_stated_of_it() {
    for amount in many(28) {
        let (mantissa, scale, negative) = amount.as_decimal().parts();
        assert_eq!(
            amount.round_to_dollar().as_decimal().parts(),
            stated_rounding(mantissa, scale, negative, 0)
        );
        assert_eq!(
            amount.round_to_cents().as_decimal().parts(),
            stated_rounding(mantissa, scale, negative, 2)
        );
    }
}

#[test]
fn truncating_does_what_is_stated_of_it() {
    for amount in many(28) {
        let (mantissa, scale, negative) = amount.as_decimal().parts();
        assert_eq!(
            amount.trunc_to_dollar().as_decimal().parts(),
            (stated_whole_part(mantissa, scale), 0, negative)
        );
    }
}

#[test]
fn cents_are_the_whole_part_of_the_hundredfold() {
    for amount in many(19) {
        let (mantissa, scale, _) = amount.as_decimal().parts();
        if scale > 19 {
            continue;
        }
        // The hundredfold, and of it the whole part where an `i64` holds it.
        let whole = stated_whole_part(mantissa * 100, scale);
        let expected = i64::try_from(whole).unwrap_or(0);
        assert_eq!(amount.as_cents(), expected);
        assert_eq!(amount.checked_as_cents(), Some(expected));
    }
}

#[test]
fn comparing_does_what_is_stated_of_it() {
    let all = many(19);
    let mut compared = 0;
    for a in all.iter().step_by(7) {
        for b in all.iter().step_by(5) {
            let left = a.as_decimal();
            let right = b.as_decimal();
            let Some(order) = stated_order(
                (left.mantissa(), left.scale()),
                (right.mantissa(), right.scale()),
            ) else {
                continue;
            };
            compared += 1;
            assert_eq!(a.partial_cmp(b), Some(order));
            assert_eq!(*a == *b, order == std::cmp::Ordering::Equal);
            assert_eq!(*a >= *b, order != std::cmp::Ordering::Less);
            let smaller = if order == std::cmp::Ordering::Greater { b } else { a };
            let larger = if order == std::cmp::Ordering::Greater { a } else { b };
            assert_eq!(a.min(*b).as_decimal().parts(), smaller.as_decimal().parts());
            assert_eq!(a.max(*b).as_decimal().parts(), larger.as_decimal().parts());
        }
    }
    assert!(compared > 4_000);
}
