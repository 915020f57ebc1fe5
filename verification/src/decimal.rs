//! Decimal numbers of 96 bits, and the arithmetic of the `rust_decimal` crate
//! on them.
//!
//! A [`Decimal`] holds what a `rust_decimal::Decimal` holds: a signed
//! mantissa, the number of its digits that follow the decimal point, and the
//! sign, which a mantissa of zero does not show. The arithmetic itself is
//! that crate's: each operation here hands the three parts over, lets that
//! crate compute, and takes three parts back.

use core::cmp::Ordering;
use vstd::prelude::*;

verus! {

/// Most digits that can follow the decimal point.
pub const MAX_SCALE: u32 = 28;

/// Largest mantissa, `2^96 - 1`.
pub const MAX_MANTISSA: i128 = 79_228_162_514_264_337_593_543_950_335;

/// Ten to the power of `exponent`.
pub open spec fn pow10(exponent: nat) -> int
    decreases exponent,
{
    if exponent == 0 {
        1
    } else {
        10 * pow10((exponent - 1) as nat)
    }
}

/// Whether the three are the parts of a decimal number: a mantissa of at
/// most 96 bits, a scale of at most 28, and a sign that agrees with the
/// mantissa wherever the mantissa shows one.
pub open spec fn within_limits(mantissa: i128, scale: u32, negative: bool) -> bool {
    &&& -MAX_MANTISSA <= mantissa <= MAX_MANTISSA
    &&& scale <= MAX_SCALE
    &&& mantissa < 0 ==> negative
    &&& mantissa > 0 ==> !negative
}

/// The parts of what decimal arithmetic gave, where they are the parts of a
/// decimal number, and nothing otherwise.
pub open spec fn accepted(parts: Option<(i128, u32, bool)>) -> Option<(i128, u32, bool)> {
    match parts {
        Some((mantissa, scale, negative)) => if within_limits(mantissa, scale, negative) {
            parts
        } else {
            None
        },
        None => None,
    }
}

/// The magnitude of `value`.
pub open spec fn magnitude(value: int) -> int {
    if value < 0 {
        -value
    } else {
        value
    }
}

/// `magnitude` with the sign of `like`.
pub open spec fn signed_like(like: int, magnitude: int) -> int {
    if like < 0 {
        -magnitude
    } else {
        magnitude
    }
}

/// How `mantissa / 10^scale` stands to `other_mantissa / 10^other_scale`:
/// -1 where it is less, 0 where the two are the same number, 1 where it is
/// greater.
pub open spec fn order_of(
    mantissa: i128,
    scale: u32,
    other_mantissa: i128,
    other_scale: u32,
) -> i8 {
    let left = mantissa * pow10(other_scale as nat);
    let right = other_mantissa * pow10(scale as nat);
    if left < right {
        -1i8
    } else if left == right {
        0i8
    } else {
        1i8
    }
}

/// Mantissa of `mantissa / 10^scale` rounded to `places` digits after the
/// point, a number halfway between two going away from zero. A number that
/// has no more than `places` digits is left as it is.
pub open spec fn rounded_mantissa(mantissa: i128, scale: u32, places: u32) -> int {
    if scale <= places {
        mantissa as int
    } else {
        let unit = pow10((scale - places) as nat);
        signed_like(mantissa as int, (magnitude(mantissa as int) + unit / 2) / unit)
    }
}

/// Scale of a number of `scale` digits once it is rounded to `places`.
pub open spec fn rounded_scale(scale: u32, places: u32) -> u32 {
    if scale <= places {
        scale
    } else {
        places
    }
}

/// Sign of a number once it is rounded to `places`: a zero keeps the sign it
/// has, and a number that rounding brings to zero comes out positive.
pub open spec fn rounded_negative(mantissa: i128, scale: u32, negative: bool, places: u32) -> bool {
    if scale <= places || mantissa == 0 {
        negative
    } else {
        rounded_mantissa(mantissa, scale, places) < 0
    }
}

/// The whole part of `mantissa / 10^scale`: the digits after the point are
/// dropped, whatever the sign.
pub open spec fn whole_part(mantissa: i128, scale: u32) -> int {
    signed_like(mantissa as int, magnitude(mantissa as int) / pow10(scale as nat))
}

/// What `rust_decimal` gives for the product of two decimal numbers: the
/// parts of the product, or nothing where the product is too large.
pub uninterp spec fn decimal_product(
    mantissa: i128,
    scale: u32,
    negative: bool,
    other_mantissa: i128,
    other_scale: u32,
    other_negative: bool,
) -> Option<(i128, u32, bool)>;

/// What `rust_decimal` gives for the sum of two decimal numbers: the parts of
/// the sum, or nothing where the sum is too large.
pub uninterp spec fn decimal_sum(
    mantissa: i128,
    scale: u32,
    negative: bool,
    other_mantissa: i128,
    other_scale: u32,
    other_negative: bool,
) -> Option<(i128, u32, bool)>;

/// What `rust_decimal` gives for the difference of two decimal numbers: the
/// parts of the difference, or nothing where it is too large.
pub uninterp spec fn decimal_difference(
    mantissa: i128,
    scale: u32,
    negative: bool,
    other_mantissa: i128,
    other_scale: u32,
    other_negative: bool,
) -> Option<(i128, u32, bool)>;

/// The text that `rust_decimal` prints for a decimal number when asked for
/// two digits after the point.
pub uninterp spec fn decimal_text(mantissa: i128, scale: u32, negative: bool) -> Seq<char>;

/// A decimal number: `mantissa / 10^scale`, with a mantissa of at most 96
/// bits and a scale of at most 28. Zero has a sign of its own, which shows
/// when the number is printed and nowhere else.
#[derive(Debug, Clone, Copy)]
pub struct Decimal {
    mantissa: i128,
    scale: u32,
    negative: bool,
}

impl Decimal {
    #[verifier::type_invariant]
    spec fn well_formed(self) -> bool {
        within_limits(self.mantissa, self.scale, self.negative)
    }

    /// The mantissa, for use in contracts.
    pub closed spec fn spec_mantissa(&self) -> i128 {
        self.mantissa
    }

    /// The scale, for use in contracts.
    pub closed spec fn spec_scale(&self) -> u32 {
        self.scale
    }

    /// The sign, for use in contracts.
    pub closed spec fn spec_is_sign_negative(&self) -> bool {
        self.negative
    }

    /// The number with the given parts, for use in contracts.
    pub closed spec fn from_parts(mantissa: i128, scale: u32, negative: bool) -> Decimal {
        Decimal { mantissa, scale, negative }
    }

    /// Whether the two are the same number, whatever their scales.
    pub open spec fn same_number(self, other: Decimal) -> bool {
        order_of(self.mantissa(), self.scale(), other.mantissa(), other.scale()) == 0
    }

    /// A number is its three parts and nothing more.
    pub proof fn parts_make_the_number(self)
        ensures
            Decimal::from_parts(self.mantissa(), self.scale(), self.is_sign_negative()) == self,
    {
    }

    /// The parts of a number are the ones it was made from.
    pub proof fn number_has_its_parts(mantissa: i128, scale: u32, negative: bool)
        ensures
            Decimal::from_parts(mantissa, scale, negative).mantissa() == mantissa,
            Decimal::from_parts(mantissa, scale, negative).scale() == scale,
            Decimal::from_parts(mantissa, scale, negative).is_sign_negative() == negative,
    {
    }

    /// The number `num / 10^scale`.
    pub fn new(num: i64, scale: u32) -> (number: Decimal)
        requires
            scale <= MAX_SCALE,
        ensures
            number == Decimal::from_parts(num as i128, scale, num < 0),
            number.mantissa() == num,
            number.scale() == scale,
            number.is_sign_negative() == (num < 0),
    {
        Decimal { mantissa: num as i128, scale, negative: num < 0 }
    }

    /// The number `num / 10^scale`, for a mantissa and a scale within the
    /// limits of a decimal number.
    pub fn from_i128_with_scale(num: i128, scale: u32) -> (number: Decimal)
        requires
            within_limits(num, scale, num < 0),
        ensures
            number == Decimal::from_parts(num, scale, num < 0),
            number.mantissa() == num,
            number.scale() == scale,
            number.is_sign_negative() == (num < 0),
    {
        Decimal { mantissa: num, scale, negative: num < 0 }
    }

    /// The number `num / 10^scale`, where the two are within the limits of a
    /// decimal number.
    pub fn try_from_i128_with_scale(num: i128, scale: u32) -> (number: Option<Decimal>)
        ensures
            number is Some <==> within_limits(num, scale, num < 0),
            number matches Some(number) ==> number == Decimal::from_parts(num, scale, num < 0)
                && number.mantissa() == num && number.scale() == scale
                && number.is_sign_negative() == (num < 0),
    {
        Decimal::try_from_parts(num, scale, num < 0)
    }

    /// The number with the given parts, where they are the parts of a
    /// decimal number.
    pub fn try_from_parts(mantissa: i128, scale: u32, negative: bool) -> (number: Option<Decimal>)
        ensures
            number is Some <==> within_limits(mantissa, scale, negative),
            number matches Some(number) ==> number == Decimal::from_parts(mantissa, scale, negative)
                && number.mantissa() == mantissa && number.scale() == scale
                && number.is_sign_negative() == negative,
    {
        if scale <= MAX_SCALE && -MAX_MANTISSA <= mantissa && mantissa <= MAX_MANTISSA && (mantissa
            >= 0 || negative) && (mantissa <= 0 || !negative) {
            Some(Decimal { mantissa, scale, negative })
        } else {
            None
        }
    }

    /// The three parts of the number: mantissa, scale and sign.
    pub fn parts(&self) -> (parts: (i128, u32, bool))
        ensures
            parts == (self.mantissa(), self.scale(), self.is_sign_negative()),
            within_limits(parts.0, parts.1, parts.2),
    {
        proof {
            use_type_invariant(self);
        }
        (self.mantissa, self.scale, self.negative)
    }

    /// The mantissa: the number without its decimal point.
    #[verifier::when_used_as_spec(spec_mantissa)]
    pub fn mantissa(&self) -> (mantissa: i128)
        ensures
            mantissa == self.mantissa(),
            within_limits(mantissa, self.scale(), self.is_sign_negative()),
    {
        proof {
            use_type_invariant(self);
        }
        self.mantissa
    }

    /// The scale: how many digits of the mantissa follow the decimal point.
    #[verifier::when_used_as_spec(spec_scale)]
    pub fn scale(&self) -> (scale: u32)
        ensures
            scale == self.scale(),
            within_limits(self.mantissa(), scale, self.is_sign_negative()),
    {
        proof {
            use_type_invariant(self);
        }
        self.scale
    }

    /// Whether the number carries a minus sign, which zero may do as well.
    #[verifier::when_used_as_spec(spec_is_sign_negative)]
    pub fn is_sign_negative(&self) -> (negative: bool)
        ensures
            negative == self.is_sign_negative(),
            within_limits(self.mantissa(), self.scale(), negative),
    {
        proof {
            use_type_invariant(self);
        }
        self.negative
    }
}

/// Multiplies with `rust_decimal::Decimal::checked_mul`.
///
/// Trusted, not proved: the product depends on the parts of the two numbers
/// alone.
#[verifier::external_body]
pub(crate) fn checked_product(left: Decimal, right: Decimal) -> (product: Option<(i128, u32, bool)>)
    ensures
        product == decimal_product(
            left.mantissa(),
            left.scale(),
            left.is_sign_negative(),
            right.mantissa(),
            right.scale(),
            right.is_sign_negative(),
        ),
{
    let mut a = rust_decimal::Decimal::from_i128_with_scale(left.mantissa, left.scale);
    a.set_sign_negative(left.negative);
    let mut b = rust_decimal::Decimal::from_i128_with_scale(right.mantissa, right.scale);
    b.set_sign_negative(right.negative);
    match a.checked_mul(b) {
        Some(product) => Some((product.mantissa(), product.scale(), product.is_sign_negative())),
        None => None,
    }
}

/// Adds with `rust_decimal::Decimal::checked_add`.
///
/// Trusted, not proved: the sum depends on the parts of the two numbers
/// alone.
#[verifier::external_body]
pub(crate) fn checked_sum(left: Decimal, right: Decimal) -> (sum: Option<(i128, u32, bool)>)
    ensures
        sum == decimal_sum(
            left.mantissa(),
            left.scale(),
            left.is_sign_negative(),
            right.mantissa(),
            right.scale(),
            right.is_sign_negative(),
        ),
{
    let mut a = rust_decimal::Decimal::from_i128_with_scale(left.mantissa, left.scale);
    a.set_sign_negative(left.negative);
    let mut b = rust_decimal::Decimal::from_i128_with_scale(right.mantissa, right.scale);
    b.set_sign_negative(right.negative);
    match a.checked_add(b) {
        Some(sum) => Some((sum.mantissa(), sum.scale(), sum.is_sign_negative())),
        None => None,
    }
}

/// Subtracts with `rust_decimal::Decimal::checked_sub`.
///
/// Trusted, not proved: the difference depends on the parts of the two
/// numbers alone.
#[verifier::external_body]
pub(crate) fn checked_difference(left: Decimal, right: Decimal) -> (difference: Option<
    (i128, u32, bool),
>)
    ensures
        difference == decimal_difference(
            left.mantissa(),
            left.scale(),
            left.is_sign_negative(),
            right.mantissa(),
            right.scale(),
            right.is_sign_negative(),
        ),
{
    let mut a = rust_decimal::Decimal::from_i128_with_scale(left.mantissa, left.scale);
    a.set_sign_negative(left.negative);
    let mut b = rust_decimal::Decimal::from_i128_with_scale(right.mantissa, right.scale);
    b.set_sign_negative(right.negative);
    match a.checked_sub(b) {
        Some(difference) => {
            Some((difference.mantissa(), difference.scale(), difference.is_sign_negative()))
        },
        None => None,
    }
}

/// Compares with the `Ord` impl of `rust_decimal::Decimal`.
///
/// Trusted, not proved: that impl orders decimal numbers as numbers, without
/// regard to how many digits either one carries or to the sign of a zero.
#[verifier::external_body]
pub(crate) fn compare(left: Decimal, right: Decimal) -> (order: i8)
    ensures
        order == order_of(left.mantissa(), left.scale(), right.mantissa(), right.scale()),
{
    let mut a = rust_decimal::Decimal::from_i128_with_scale(left.mantissa, left.scale);
    a.set_sign_negative(left.negative);
    let mut b = rust_decimal::Decimal::from_i128_with_scale(right.mantissa, right.scale);
    b.set_sign_negative(right.negative);
    match a.cmp(&b) {
        Ordering::Less => -1,
        Ordering::Equal => 0,
        Ordering::Greater => 1,
    }
}

/// Rounds with `rust_decimal::Decimal::round_dp_with_strategy` and the
/// strategy `MidpointAwayFromZero`.
///
/// Trusted, not proved: a number with more than `places` digits after the
/// point comes back with exactly `places`, the last of them raised by one
/// where what was cut off amounts to half a unit or more. Where that leaves
/// nothing of a number that was not zero, the result is the positive zero; a
/// zero keeps its sign. Any other number comes back unchanged.
#[verifier::external_body]
pub(crate) fn round(number: Decimal, places: u32) -> (rounded: (i128, u32, bool))
    requires
        places <= MAX_SCALE,
    ensures
        rounded.0 == rounded_mantissa(number.mantissa(), number.scale(), places),
        rounded.1 == rounded_scale(number.scale(), places),
        rounded.2 == rounded_negative(
            number.mantissa(),
            number.scale(),
            number.is_sign_negative(),
            places,
        ),
{
    let mut a = rust_decimal::Decimal::from_i128_with_scale(number.mantissa, number.scale);
    a.set_sign_negative(number.negative);
    let strategy = rust_decimal::RoundingStrategy::MidpointAwayFromZero;
    let rounded = a.round_dp_with_strategy(places, strategy);
    (rounded.mantissa(), rounded.scale(), rounded.is_sign_negative())
}

/// Truncates with `rust_decimal::Decimal::trunc`.
///
/// Trusted, not proved: the result is the whole part of the number, with no
/// digit after the point and with the sign of the number.
#[verifier::external_body]
pub(crate) fn truncate(number: Decimal) -> (whole: (i128, u32, bool))
    ensures
        whole.0 == whole_part(number.mantissa(), number.scale()),
        whole.1 == 0,
        whole.2 == number.is_sign_negative(),
{
    let mut a = rust_decimal::Decimal::from_i128_with_scale(number.mantissa, number.scale);
    a.set_sign_negative(number.negative);
    let whole = a.trunc();
    (whole.mantissa(), whole.scale(), whole.is_sign_negative())
}

/// Converts with the `ToPrimitive::to_i64` impl of `rust_decimal::Decimal`.
///
/// Trusted, not proved: the result is the whole part of the number where an
/// `i64` can hold it, and nothing where it cannot.
#[verifier::external_body]
pub(crate) fn to_i64(number: Decimal) -> (whole: Option<i64>)
    ensures
        whole is Some <==> i64::MIN <= whole_part(number.mantissa(), number.scale()) <= i64::MAX,
        whole is Some ==> whole->Some_0 == whole_part(number.mantissa(), number.scale()),
{
    let mut a = rust_decimal::Decimal::from_i128_with_scale(number.mantissa, number.scale);
    a.set_sign_negative(number.negative);
    rust_decimal::prelude::ToPrimitive::to_i64(&a)
}

/// Prints with the `Display` impl of `rust_decimal::Decimal`, asking for two
/// digits after the point.
///
/// Trusted, not proved: the text depends on the parts of the number alone.
#[verifier::external_body]
pub(crate) fn print_two_places(number: Decimal) -> (text: String)
    ensures
        text@ == decimal_text(number.mantissa(), number.scale(), number.is_sign_negative()),
{
    let mut a = rust_decimal::Decimal::from_i128_with_scale(number.mantissa, number.scale);
    a.set_sign_negative(number.negative);
    format!("{:.2}", a)
}

} // verus!
