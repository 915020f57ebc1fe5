//! Currency amounts held as decimal numbers, with IRS-compliant rounding.

use crate::decimal::{
    accepted, checked_difference, checked_product, checked_sum, compare, decimal_difference,
    decimal_product, decimal_sum, decimal_text, magnitude, order_of, pow10, print_two_places,
    round, rounded_mantissa, rounded_negative, rounded_scale, to_i64, truncate, whole_part,
    within_limits, Decimal, MAX_MANTISSA, MAX_SCALE,
};
use core::cmp::Ordering;
use vstd::prelude::*;
use vstd::std_specs::cmp::{PartialEqSpecImpl, PartialOrdSpecImpl};
use vstd::std_specs::convert::FromSpecImpl;
use vstd::std_specs::ops::{AddSpecImpl, SubSpecImpl};
use vstd::string::StringExecFns;

verus! {

/// Represents a USD currency amount with cent precision.
///
/// Internally a decimal number, so no floating point is involved. All
/// arithmetic keeps what the decimal arithmetic gives; rounding is explicit.
/// Two amounts are equal where they are the same number, whatever the number
/// of digits that each carries.
#[derive(Debug, Clone, Copy)]
pub struct UsdAmount(Decimal);

/// Whether `amount` is the amount that `parts` are the parts of.
pub open spec fn made_of(amount: UsdAmount, parts: Option<(i128, u32, bool)>) -> bool {
    parts matches Some((mantissa, scale, negative)) && amount == UsdAmount::from_parts(
        mantissa,
        scale,
        negative,
    ) && amount.mantissa() == mantissa && amount.scale() == scale && amount.negative() == negative
}

/// The parts of the sum of two amounts, where it can be held.
pub open spec fn sum_parts(left: UsdAmount, right: UsdAmount) -> Option<(i128, u32, bool)> {
    accepted(
        decimal_sum(
            left.mantissa(),
            left.scale(),
            left.negative(),
            right.mantissa(),
            right.scale(),
            right.negative(),
        ),
    )
}

/// The parts of the difference of two amounts, where it can be held.
pub open spec fn difference_parts(left: UsdAmount, right: UsdAmount) -> Option<
    (i128, u32, bool),
> {
    accepted(
        decimal_difference(
            left.mantissa(),
            left.scale(),
            left.negative(),
            right.mantissa(),
            right.scale(),
            right.negative(),
        ),
    )
}

/// The parts of an amount times a rate, where the product can be held.
pub open spec fn product_parts(amount: UsdAmount, rate: Decimal) -> Option<(i128, u32, bool)> {
    accepted(
        decimal_product(
            amount.mantissa(),
            amount.scale(),
            amount.negative(),
            rate.mantissa(),
            rate.scale(),
            rate.is_sign_negative(),
        ),
    )
}

/// The parts of the hundredfold of an amount, where it can be held.
pub open spec fn hundredfold_parts(amount: UsdAmount) -> Option<(i128, u32, bool)> {
    accepted(
        decimal_product(amount.mantissa(), amount.scale(), amount.negative(), 100, 0, false),
    )
}

/// The parts of the sum of a list of amounts, added up from zero in the
/// order of the list, where every sum on the way can be held.
pub open spec fn total_parts(amounts: Seq<UsdAmount>) -> Option<(i128, u32, bool)>
    decreases amounts.len(),
{
    if amounts.len() == 0 {
        Some((0i128, 0u32, false))
    } else {
        match total_parts(amounts.drop_last()) {
            Some((mantissa, scale, negative)) => accepted(
                decimal_sum(
                    mantissa,
                    scale,
                    negative,
                    amounts.last().mantissa(),
                    amounts.last().scale(),
                    amounts.last().negative(),
                ),
            ),
            None => None,
        }
    }
}

/// The whole cents of an amount whose hundredfold has the given parts: the
/// whole part, or zero where an `i64` cannot hold it.
pub open spec fn whole_cents(mantissa: i128, scale: u32) -> i64 {
    if i64::MIN <= whole_part(mantissa, scale) <= i64::MAX {
        whole_part(mantissa, scale) as i64
    } else {
        0
    }
}

/// The amount that decimal arithmetic gave, where its parts are those of a
/// decimal number.
fn accept(parts: Option<(i128, u32, bool)>) -> (amount: Option<UsdAmount>)
    ensures
        amount is Some <==> accepted(parts) is Some,
        amount matches Some(amount) ==> made_of(amount, parts),
{
    match parts {
        Some((mantissa, scale, negative)) => match Decimal::try_from_parts(
            mantissa,
            scale,
            negative,
        ) {
            Some(number) => Some(UsdAmount(number)),
            None => None,
        },
        None => None,
    }
}

impl UsdAmount {
    /// The decimal number of an amount, for use in contracts.
    pub closed spec fn spec_as_decimal(&self) -> Decimal {
        self.0
    }

    /// The amount of a decimal number, for use in contracts.
    pub closed spec fn spec_new(amount: Decimal) -> UsdAmount {
        UsdAmount(amount)
    }

    /// The amount with the given parts, for use in contracts.
    pub open spec fn from_parts(mantissa: i128, scale: u32, negative: bool) -> UsdAmount {
        UsdAmount::new(Decimal::from_parts(mantissa, scale, negative))
    }

    /// The mantissa of the amount's decimal number.
    pub open spec fn mantissa(&self) -> i128 {
        self.as_decimal().mantissa()
    }

    /// The scale of the amount's decimal number.
    pub open spec fn scale(&self) -> u32 {
        self.as_decimal().scale()
    }

    /// The sign of the amount's decimal number, which zero has as well.
    pub open spec fn negative(&self) -> bool {
        self.as_decimal().is_sign_negative()
    }

    /// Whether the two amounts are the same number of dollars.
    pub open spec fn same_amount(&self, other: &UsdAmount) -> bool {
        order_of(self.mantissa(), self.scale(), other.mantissa(), other.scale()) == 0
    }

    /// An amount is the amount of its decimal number, and the other way round.
    pub proof fn amount_and_number(amount: UsdAmount, number: Decimal)
        ensures
            UsdAmount::new(amount.as_decimal()) == amount,
            UsdAmount::new(number).as_decimal() == number,
    {
    }

    /// Zero dollars.
    pub fn zero() -> (amount: UsdAmount)
        ensures
            made_of(amount, Some((0i128, 0u32, false))),
    {
        UsdAmount(Decimal::new(0, 0))
    }

    /// Create from a decimal value.
    #[verifier::when_used_as_spec(spec_new)]
    pub fn new(amount: Decimal) -> (created: UsdAmount)
        ensures
            created == UsdAmount::new(amount),
            created.as_decimal() == amount,
    {
        UsdAmount(amount)
    }

    /// Create from cents: `from_cents(12345)` is $123.45.
    pub fn from_cents(cents: i64) -> (amount: UsdAmount)
        ensures
            made_of(amount, Some((cents as i128, 2u32, cents < 0))),
    {
        UsdAmount(Decimal::new(cents, 2))
    }

    /// Create from whole dollars.
    pub fn from_dollars(dollars: i64) -> (amount: UsdAmount)
        ensures
            made_of(amount, Some((dollars as i128, 0u32, dollars < 0))),
    {
        UsdAmount(Decimal::new(dollars, 0))
    }

    /// Returns the inner decimal value.
    #[verifier::when_used_as_spec(spec_as_decimal)]
    pub fn as_decimal(&self) -> (number: Decimal)
        ensures
            number == self.as_decimal(),
    {
        self.0
    }

    /// Returns the amount in cents (truncated), or zero where the cents do
    /// not fit. The hundredfold of the amount must be within what a decimal
    /// number can hold; [`UsdAmount::checked_as_cents`] asks nothing.
    pub fn as_cents(&self) -> (cents: i64)
        requires
            hundredfold_parts(*self) is Some,
        ensures
            hundredfold_parts(*self) matches Some((mantissa, scale, _)) && cents == whole_cents(
                mantissa,
                scale,
            ),
    {
        let hundredfold = accept(checked_product(self.0, Decimal::new(100, 0))).unwrap();
        match to_i64(hundredfold.trunc_to_dollar().0) {
            Some(cents) => cents,
            None => 0,
        }
    }

    /// [`UsdAmount::as_cents`] for any amount: nothing where the hundredfold
    /// of the amount is more than a decimal number can hold.
    pub fn checked_as_cents(&self) -> (cents: Option<i64>)
        ensures
            match cents {
                Some(cents) => hundredfold_parts(*self) matches Some((mantissa, scale, _))
                    && cents == whole_cents(mantissa, scale),
                None => hundredfold_parts(*self) is None,
            },
    {
        match accept(checked_product(self.0, Decimal::new(100, 0))) {
            Some(_) => Some(self.as_cents()),
            None => None,
        }
    }

    /// Returns true if the amount is zero.
    pub fn is_zero(&self) -> (zero: bool)
        ensures
            zero == (self.mantissa() == 0),
    {
        self.0.mantissa() == 0
    }

    /// Returns true if the amount is negative.
    pub fn is_negative(&self) -> (negative: bool)
        ensures
            negative == (self.mantissa() < 0),
    {
        self.0.mantissa() < 0
    }

    /// Returns true if the amount is positive.
    pub fn is_positive(&self) -> (positive: bool)
        ensures
            positive == (self.mantissa() > 0),
    {
        self.0.mantissa() > 0
    }

    /// Returns the absolute value.
    pub fn abs(&self) -> (amount: UsdAmount)
        ensures
            amount.mantissa() == (if self.mantissa() < 0 {
                -self.mantissa()
            } else {
                self.mantissa() as int
            }),
            amount.scale() == self.scale(),
            !amount.negative(),
    {
        let mantissa = self.0.mantissa();
        let magnitude = if mantissa < 0 {
            -mantissa
        } else {
            mantissa
        };
        UsdAmount(Decimal::from_i128_with_scale(magnitude, self.0.scale()))
    }

    /// Returns the minimum of two amounts.
    pub fn min(self, other: UsdAmount) -> (amount: UsdAmount)
        ensures
            amount == (if order_of(self.mantissa(), self.scale(), other.mantissa(), other.scale())
                <= 0 {
                self
            } else {
                other
            }),
    {
        if compare(self.0, other.0) <= 0 {
            self
        } else {
            other
        }
    }

    /// Returns the maximum of two amounts.
    pub fn max(self, other: UsdAmount) -> (amount: UsdAmount)
        ensures
            amount == (if order_of(self.mantissa(), self.scale(), other.mantissa(), other.scale())
                <= 0 {
                other
            } else {
                self
            }),
    {
        if compare(self.0, other.0) <= 0 {
            other
        } else {
            self
        }
    }

    /// Round to the nearest dollar (IRS standard for most calculations).
    ///
    /// Per IRS instructions: "Round off cents to whole dollars."
    /// Amounts under 50 cents round down; 50 cents and over round up.
    pub fn round_to_dollar(&self) -> (amount: UsdAmount)
        ensures
            amount.mantissa() == rounded_mantissa(self.mantissa(), self.scale(), 0),
            amount.scale() == 0,
            amount.negative() == rounded_negative(
                self.mantissa(),
                self.scale(),
                self.negative(),
                0,
            ),
    {
        let (mantissa, scale, negative) = self.0.parts();
        proof {
            lemma_rounded_within(mantissa, scale, negative, 0);
        }
        accept(Some(round(self.0, 0))).unwrap()
    }

    /// Truncate to whole dollars (floor for positive, ceiling for negative).
    pub fn trunc_to_dollar(&self) -> (amount: UsdAmount)
        ensures
            amount.mantissa() == whole_part(self.mantissa(), self.scale()),
            amount.scale() == 0,
            amount.negative() == self.negative(),
    {
        let (mantissa, scale, negative) = self.0.parts();
        proof {
            lemma_whole_part_within(mantissa, scale, negative);
        }
        accept(Some(truncate(self.0))).unwrap()
    }

    /// Round to cents (2 decimal places).
    pub fn round_to_cents(&self) -> (amount: UsdAmount)
        ensures
            amount.mantissa() == rounded_mantissa(self.mantissa(), self.scale(), 2),
            amount.scale() == rounded_scale(self.scale(), 2),
            amount.negative() == rounded_negative(
                self.mantissa(),
                self.scale(),
                self.negative(),
                2,
            ),
    {
        let (mantissa, scale, negative) = self.0.parts();
        proof {
            lemma_rounded_within(mantissa, scale, negative, 2);
        }
        accept(Some(round(self.0, 2))).unwrap()
    }
}

impl UsdAmount {
    /// Multiply by a decimal rate (e.g., tax rate). The product must be
    /// within what a decimal number can hold;
    /// [`UsdAmount::checked_multiply_rate`] asks nothing.
    pub fn multiply_rate(&self, rate: Decimal) -> (amount: UsdAmount)
        requires
            product_parts(*self, rate) is Some,
        ensures
            made_of(amount, product_parts(*self, rate)),
    {
        let product = checked_product(self.0, rate);
        accept(product).unwrap()
    }

    /// [`UsdAmount::multiply_rate`] for any amount and rate: nothing where
    /// the product is more than a decimal number can hold.
    pub fn checked_multiply_rate(&self, rate: Decimal) -> (amount: Option<UsdAmount>)
        ensures
            match amount {
                Some(amount) => made_of(amount, product_parts(*self, rate)),
                None => product_parts(*self, rate) is None,
            },
    {
        let product = checked_product(self.0, rate);
        match accept(product) {
            Some(_) => Some(self.multiply_rate(rate)),
            None => None,
        }
    }

    /// The sum of two amounts, or nothing where the sum is more than a
    /// decimal number can hold.
    pub fn checked_add(self, other: UsdAmount) -> (amount: Option<UsdAmount>)
        ensures
            match amount {
                Some(amount) => made_of(amount, sum_parts(self, other)),
                None => sum_parts(self, other) is None,
            },
    {
        let sum = checked_sum(self.0, other.0);
        match accept(sum) {
            Some(_) => Some(self + other),
            None => None,
        }
    }

    /// The difference of two amounts, or nothing where the difference is
    /// more than a decimal number can hold.
    pub fn checked_sub(self, other: UsdAmount) -> (amount: Option<UsdAmount>)
        ensures
            match amount {
                Some(amount) => made_of(amount, difference_parts(self, other)),
                None => difference_parts(self, other) is None,
            },
    {
        let difference = checked_difference(self.0, other.0);
        match accept(difference) {
            Some(_) => Some(self - other),
            None => None,
        }
    }

    /// Adds `other` to the amount in place and says so, or leaves the amount
    /// as it is where the sum is more than a decimal number can hold.
    pub fn checked_add_assign(&mut self, other: UsdAmount) -> (added: bool)
        ensures
            added == (sum_parts(*old(self), other) is Some),
            added ==> made_of(*final(self), sum_parts(*old(self), other)),
            !added ==> *final(self) == *old(self),
    {
        match self.checked_add(other) {
            Some(_) => {
                core::ops::AddAssign::add_assign(self, other);
                true
            },
            None => false,
        }
    }

    /// Subtracts `other` from the amount in place and says so, or leaves the
    /// amount as it is where the difference is more than a decimal number can
    /// hold.
    pub fn checked_sub_assign(&mut self, other: UsdAmount) -> (subtracted: bool)
        ensures
            subtracted == (difference_parts(*old(self), other) is Some),
            subtracted ==> made_of(*final(self), difference_parts(*old(self), other)),
            !subtracted ==> *final(self) == *old(self),
    {
        match self.checked_sub(other) {
            Some(_) => {
                core::ops::SubAssign::sub_assign(self, other);
                true
            },
            None => false,
        }
    }

    /// Saturating subtraction: returns zero if result would be negative.
    /// Where `self` is not below `other`, their difference must be within
    /// what a decimal number can hold;
    /// [`UsdAmount::checked_saturating_sub`] asks nothing.
    pub fn saturating_sub(&self, other: UsdAmount) -> (amount: UsdAmount)
        requires
            order_of(self.mantissa(), self.scale(), other.mantissa(), other.scale()) >= 0
                ==> difference_parts(*self, other) is Some,
        ensures
            order_of(self.mantissa(), self.scale(), other.mantissa(), other.scale()) < 0
                ==> made_of(amount, Some((0i128, 0u32, false))),
            order_of(self.mantissa(), self.scale(), other.mantissa(), other.scale()) >= 0
                ==> made_of(amount, difference_parts(*self, other)),
    {
        if compare(self.0, other.0) >= 0 {
            *self - other
        } else {
            UsdAmount::zero()
        }
    }

    /// [`UsdAmount::saturating_sub`] for any two amounts: nothing where the
    /// difference is called for and is more than a decimal number can hold.
    pub fn checked_saturating_sub(&self, other: UsdAmount) -> (amount: Option<UsdAmount>)
        ensures
            order_of(self.mantissa(), self.scale(), other.mantissa(), other.scale()) < 0
                ==> amount is Some && made_of(amount->Some_0, Some((0i128, 0u32, false))),
            order_of(self.mantissa(), self.scale(), other.mantissa(), other.scale()) >= 0
                ==> match amount {
                Some(amount) => made_of(amount, difference_parts(*self, other)),
                None => difference_parts(*self, other) is None,
            },
    {
        if compare(self.0, other.0) >= 0 {
            match self.checked_sub(other) {
                Some(_) => Some(self.saturating_sub(other)),
                None => None,
            }
        } else {
            Some(self.saturating_sub(other))
        }
    }

    /// Adds up a list of amounts, from zero and in the order of the list.
    /// Every sum on the way must be within what a decimal number can hold;
    /// [`UsdAmount::checked_sum`] asks nothing.
    pub fn sum(amounts: &[UsdAmount]) -> (total: UsdAmount)
        requires
            total_parts(amounts@) is Some,
        ensures
            made_of(total, total_parts(amounts@)),
    {
        let mut total = UsdAmount::zero();
        let mut i: usize = 0;
        while i < amounts.len()
            invariant
                i <= amounts.len(),
                total_parts(amounts@) is Some,
                made_of(total, total_parts(amounts@.take(i as int))),
            decreases amounts.len() - i,
        {
            proof {
                assert(amounts@.take(i + 1).drop_last() =~= amounts@.take(i as int));
                lemma_total_parts_prefix(amounts@, i + 1);
            }
            total = total + amounts[i];
            i = i + 1;
        }
        proof {
            assert(amounts@.take(i as int) =~= amounts@);
        }
        total
    }

    /// [`UsdAmount::sum`] for any list: nothing where a sum on the way is
    /// more than a decimal number can hold.
    pub fn checked_sum(amounts: &[UsdAmount]) -> (total: Option<UsdAmount>)
        ensures
            match total {
                Some(total) => made_of(total, total_parts(amounts@)),
                None => total_parts(amounts@) is None,
            },
    {
        let mut total = UsdAmount::zero();
        let mut i: usize = 0;
        while i < amounts.len()
            invariant
                i <= amounts.len(),
                made_of(total, total_parts(amounts@.take(i as int))),
            decreases amounts.len() - i,
        {
            proof {
                assert(amounts@.take(i + 1).drop_last() =~= amounts@.take(i as int));
            }
            match total.checked_add(amounts[i]) {
                Some(next) => {
                    total = next;
                },
                None => {
                    proof {
                        if total_parts(amounts@) is Some {
                            lemma_total_parts_prefix(amounts@, i + 1);
                        }
                    }
                    return None;
                },
            }
            i = i + 1;
        }
        proof {
            assert(amounts@.take(i as int) =~= amounts@);
        }
        Some(UsdAmount::sum(amounts))
    }

    /// Renders the amount as a dollar sign and the decimal number with two
    /// digits after the point.
    pub fn to_string(&self) -> (text: String)
        ensures
            text@ == seq!['$'] + decimal_text(self.mantissa(), self.scale(), self.negative()),
    {
        proof {
            reveal_strlit("$");
        }
        let mut text = String::new();
        text.append("$");
        let number = print_two_places(self.0);
        text.append(number.as_str());
        proof {
            assert(text@ =~= seq!['$'] + decimal_text(
                self.mantissa(),
                self.scale(),
                self.negative(),
            ));
        }
        text
    }
}

/// Where a list can be added up, so can each of its beginnings.
proof fn lemma_total_parts_prefix(amounts: Seq<UsdAmount>, length: int)
    requires
        0 <= length <= amounts.len(),
        total_parts(amounts) is Some,
    ensures
        total_parts(amounts.take(length)) is Some,
    decreases amounts.len() - length,
{
    if length < amounts.len() {
        lemma_total_parts_prefix(amounts, length + 1);
        assert(amounts.take(length + 1).drop_last() =~= amounts.take(length));
    } else {
        assert(amounts.take(length) =~= amounts);
    }
}

impl Default for UsdAmount {
    fn default() -> (amount: UsdAmount)
        ensures
            made_of(amount, Some((0i128, 0u32, false))),
    {
        UsdAmount::zero()
    }
}

impl core::ops::Add for UsdAmount {
    type Output = UsdAmount;

    fn add(self, other: UsdAmount) -> (sum: UsdAmount)
        ensures
            made_of(sum, sum_parts(self, other)),
    {
        let sum = checked_sum(self.0, other.0);
        accept(sum).unwrap()
    }
}

impl AddSpecImpl for UsdAmount {
    open spec fn obeys_add_spec() -> bool {
        true
    }

    open spec fn add_req(self, other: UsdAmount) -> bool {
        sum_parts(self, other) is Some
    }

    open spec fn add_spec(self, other: UsdAmount) -> UsdAmount {
        UsdAmount::from_parts(
            sum_parts(self, other)->Some_0.0,
            sum_parts(self, other)->Some_0.1,
            sum_parts(self, other)->Some_0.2,
        )
    }
}

impl core::ops::Sub for UsdAmount {
    type Output = UsdAmount;

    fn sub(self, other: UsdAmount) -> (difference: UsdAmount)
        ensures
            made_of(difference, difference_parts(self, other)),
    {
        let difference = checked_difference(self.0, other.0);
        accept(difference).unwrap()
    }
}

impl SubSpecImpl for UsdAmount {
    open spec fn obeys_sub_spec() -> bool {
        true
    }

    open spec fn sub_req(self, other: UsdAmount) -> bool {
        difference_parts(self, other) is Some
    }

    open spec fn sub_spec(self, other: UsdAmount) -> UsdAmount {
        UsdAmount::from_parts(
            difference_parts(self, other)->Some_0.0,
            difference_parts(self, other)->Some_0.1,
            difference_parts(self, other)->Some_0.2,
        )
    }
}

impl Eq for UsdAmount {}

impl core::ops::AddAssign for UsdAmount {
    fn add_assign(&mut self, other: UsdAmount)
        requires
            sum_parts(*old(self), other) is Some,
        ensures
            made_of(*final(self), sum_parts(*old(self), other)),
    {
        *self = *self + other;
    }
}

impl core::ops::SubAssign for UsdAmount {
    fn sub_assign(&mut self, other: UsdAmount)
        requires
            difference_parts(*old(self), other) is Some,
        ensures
            made_of(*final(self), difference_parts(*old(self), other)),
    {
        *self = *self - other;
    }
}

impl From<Decimal> for UsdAmount {
    fn from(number: Decimal) -> (amount: UsdAmount) {
        UsdAmount(number)
    }
}

impl FromSpecImpl<Decimal> for UsdAmount {
    open spec fn obeys_from_spec() -> bool {
        true
    }

    open spec fn from_spec(number: Decimal) -> UsdAmount {
        UsdAmount::new(number)
    }
}

impl From<UsdAmount> for Decimal {
    fn from(amount: UsdAmount) -> (number: Decimal) {
        amount.0
    }
}

impl FromSpecImpl<UsdAmount> for Decimal {
    open spec fn obeys_from_spec() -> bool {
        true
    }

    open spec fn from_spec(amount: UsdAmount) -> Decimal {
        amount.as_decimal()
    }
}

impl PartialEq for UsdAmount {
    fn eq(&self, other: &UsdAmount) -> (same: bool) {
        compare(self.0, other.0) == 0
    }
}

impl PartialEqSpecImpl for UsdAmount {
    open spec fn obeys_eq_spec() -> bool {
        true
    }

    open spec fn eq_spec(&self, other: &UsdAmount) -> bool {
        self.same_amount(other)
    }
}

impl PartialOrd for UsdAmount {
    fn partial_cmp(&self, other: &UsdAmount) -> (order: Option<Ordering>) {
        let order = compare(self.0, other.0);
        if order < 0 {
            Some(Ordering::Less)
        } else if order == 0 {
            Some(Ordering::Equal)
        } else {
            Some(Ordering::Greater)
        }
    }
}

impl PartialOrdSpecImpl for UsdAmount {
    open spec fn obeys_partial_cmp_spec() -> bool {
        true
    }

    open spec fn partial_cmp_spec(&self, other: &UsdAmount) -> Option<Ordering> {
        let order = order_of(self.mantissa(), self.scale(), other.mantissa(), other.scale());
        if order < 0 {
            Some(Ordering::Less)
        } else if order == 0 {
            Some(Ordering::Equal)
        } else {
            Some(Ordering::Greater)
        }
    }
}

/// Ten to any power is at least one.
proof fn lemma_pow10_positive(exponent: nat)
    ensures
        pow10(exponent) >= 1,
    decreases exponent,
{
    if exponent > 0 {
        lemma_pow10_positive((exponent - 1) as nat);
    }
}

/// The whole part of a decimal number is no larger than its mantissa, and
/// lies on the same side of zero.
proof fn lemma_whole_part_within(mantissa: i128, scale: u32, negative: bool)
    requires
        within_limits(mantissa, scale, negative),
    ensures
        within_limits(whole_part(mantissa, scale) as i128, 0, negative),
        whole_part(whole_part(mantissa, scale) as i128, 0) == whole_part(mantissa, scale),
{
    let unit = pow10(scale as nat);
    lemma_pow10_positive(scale as nat);
    let size = magnitude(mantissa as int);
    assert(0 <= size / unit <= size) by (nonlinear_arith)
        requires
            size >= 0,
            unit >= 1,
    ;
    assert(pow10(0) == 1);
}

/// A rounded mantissa is no larger than the mantissa it came from.
proof fn lemma_rounded_within(mantissa: i128, scale: u32, negative: bool, places: u32)
    requires
        within_limits(mantissa, scale, negative),
        places <= MAX_SCALE,
    ensures
        within_limits(
            rounded_mantissa(mantissa, scale, places) as i128,
            rounded_scale(scale, places),
            rounded_negative(mantissa, scale, negative, places),
        ),
        -MAX_MANTISSA <= rounded_mantissa(mantissa, scale, places) <= MAX_MANTISSA,
{
    if scale > places {
        let unit = pow10((scale - places) as nat);
        lemma_pow10_positive((scale - places - 1) as nat);
        assert(unit == 10 * pow10((scale - places - 1) as nat));
        let size = magnitude(mantissa as int);
        assert(0 <= (size + unit / 2) / unit <= size) by (nonlinear_arith)
            requires
                size >= 0,
                unit >= 10,
        ;
    }
}

} // verus!
