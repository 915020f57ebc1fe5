//! Exact US dollar amounts, held as a whole number of cents.

use crate::text::{decimal_digits, digit_char, digit_str, push_decimal};
use core::cmp::Ordering;
use vstd::prelude::*;
use vstd::std_specs::cmp::PartialOrdSpecImpl;
use vstd::std_specs::ops::{AddSpecImpl, MulSpecImpl, NegSpecImpl, SubSpecImpl};
use vstd::string::StringExecFns;

verus! {

/// US dollar amount stored as whole cents for exact arithmetic.
///
/// Every operation works on the underlying `i64` cent count, so no rounding
/// happens unless one of the rounding methods is called. An operation whose
/// mathematical result would leave the `i64` range is excluded by its
/// precondition: amounts of that size (about $92 quadrillion) do not occur
/// on a tax return.
#[derive(Debug, Clone, Copy, PartialEq, Eq, Ord, Hash, Structural)]
pub struct Usd(pub i64);

/// Whether `cents` is a cent count that an amount can hold.
pub open spec fn representable(cents: int) -> bool {
    i64::MIN <= cents <= i64::MAX
}

/// The larger of two integers.
pub open spec fn larger(a: int, b: int) -> int {
    if a >= b {
        a
    } else {
        b
    }
}

/// The smaller of two integers.
pub open spec fn smaller(a: int, b: int) -> int {
    if a <= b {
        a
    } else {
        b
    }
}

/// Largest multiple of one dollar that does not exceed `cents`.
pub open spec fn floor_to_dollar(cents: int) -> int {
    (cents / 100) * 100
}

/// Smallest multiple of one dollar that is not below `cents`.
pub open spec fn ceil_to_dollar(cents: int) -> int {
    -floor_to_dollar(-cents)
}

/// Nearest multiple of one dollar to `cents`, an exact half going up.
pub open spec fn nearest_dollar(cents: int) -> int {
    floor_to_dollar(cents + 50)
}

/// Whole-dollar rounding of `cents`: the magnitude goes to the nearest dollar,
/// an exact half away from zero, and the sign is kept.
pub open spec fn irs_rounded(cents: int) -> int {
    if cents < 0 {
        -nearest_dollar(-cents)
    } else {
        nearest_dollar(cents)
    }
}

/// Sum of the cent counts of `amounts`.
pub open spec fn total_cents(amounts: Seq<Usd>) -> int
    decreases amounts.len(),
{
    if amounts.len() == 0 {
        0
    } else {
        total_cents(amounts.drop_last()) + amounts.last().cents()
    }
}

/// Text of an amount of `cents`: an optional minus sign, a dollar sign, the
/// whole dollars, a point and exactly two digits of cents.
pub open spec fn rendered(cents: int) -> Seq<char> {
    let magnitude = if cents < 0 {
        (-cents) as nat
    } else {
        cents as nat
    };
    let sign = if cents < 0 {
        seq!['-']
    } else {
        Seq::<char>::empty()
    };
    sign + seq!['$'] + decimal_digits(magnitude / 100) + seq![
        '.',
        digit_char((magnitude % 100) / 10),
        digit_char(magnitude % 10),
    ]
}

impl Usd {
    /// The cent count of an amount, for use in contracts.
    pub open spec fn spec_cents(self) -> i64 {
        self.0
    }

    /// Zero dollars.
    pub fn zero() -> (amount: Usd)
        ensures
            amount.cents() == 0,
    {
        Usd(0)
    }

    /// Creates a `Usd` value from a whole-dollar amount.
    pub fn from_dollars(dollars: i64) -> (amount: Usd)
        requires
            representable(dollars * 100),
        ensures
            amount.cents() == dollars * 100,
    {
        Usd(dollars * 100)
    }

    /// Creates a `Usd` value from a cent amount.
    pub fn from_cents(cents: i64) -> (amount: Usd)
        ensures
            amount.cents() == cents,
    {
        Usd(cents)
    }

    /// Returns the total value in cents.
    #[verifier::when_used_as_spec(spec_cents)]
    pub fn cents(self) -> (cents: i64)
        ensures
            cents == self.cents(),
    {
        self.0
    }

    /// The cent count without its sign.
    fn magnitude(self) -> (magnitude: u64)
        ensures
            magnitude == (if self.cents() < 0 {
                -self.cents()
            } else {
                self.cents() as int
            }),
    {
        if self.0 < 0 {
            (-(self.0 + 1)) as u64 + 1
        } else {
            self.0 as u64
        }
    }

    /// Rounds toward positive infinity to a whole dollar.
    pub fn round_up(self) -> (rounded: Usd)
        requires
            representable(ceil_to_dollar(self.cents() as int)),
        ensures
            rounded.cents() == ceil_to_dollar(self.cents() as int),
    {
        let rem: i64 = self.0.checked_rem_euclid(100).unwrap();
        if rem == 0 {
            self
        } else {
            Usd(self.0 + (100 - rem))
        }
    }

    /// Rounds toward negative infinity to a whole dollar.
    pub fn round_down(self) -> (rounded: Usd)
        requires
            representable(floor_to_dollar(self.cents() as int)),
        ensures
            rounded.cents() == floor_to_dollar(self.cents() as int),
    {
        let rem: i64 = self.0.checked_rem_euclid(100).unwrap();
        Usd(self.0 - rem)
    }

    /// Rounds to the nearest whole dollar by the IRS whole-dollar method.
    ///
    /// Amounts below 50 cents are dropped and amounts of 50 cents or more go
    /// to the next dollar. The rule is applied to the magnitude, so negative
    /// amounts round away from zero as well.
    pub fn irs_round(self) -> (rounded: Usd)
        ensures
            rounded.cents() == irs_rounded(self.cents() as int),
    {
        let magnitude: u64 = self.magnitude();
        let rem: u64 = magnitude % 100;
        let whole: u64 = if rem >= 50 {
            magnitude + (100 - rem)
        } else {
            magnitude - rem
        };
        if self.0 < 0 {
            Usd(-(whole as i64))
        } else {
            Usd(whole as i64)
        }
    }

    /// The larger of two amounts.
    pub fn max(self, other: Usd) -> (amount: Usd)
        ensures
            amount == (if self.cents() >= other.cents() {
                self
            } else {
                other
            }),
    {
        if self.0 >= other.0 {
            self
        } else {
            other
        }
    }

    /// The smaller of two amounts.
    pub fn min(self, other: Usd) -> (amount: Usd)
        ensures
            amount == (if self.cents() <= other.cents() {
                self
            } else {
                other
            }),
    {
        if self.0 <= other.0 {
            self
        } else {
            other
        }
    }

    /// Adds up a list of amounts; an empty list gives zero.
    pub fn sum(amounts: &[Usd]) -> (total: Usd)
        requires
            representable(total_cents(amounts@)),
        ensures
            total.cents() == total_cents(amounts@),
    {
        let mut acc: i128 = 0;
        let mut i: usize = 0;
        while i < amounts.len()
            invariant
                i <= amounts.len(),
                acc == total_cents(amounts@.take(i as int)),
                -(i as int) * 0x8000_0000_0000_0000 <= acc <= (i as int) * 0x8000_0000_0000_0000,
            decreases amounts.len() - i,
        {
            proof {
                assert(amounts@.take(i + 1).drop_last() =~= amounts@.take(i as int));
            }
            acc = acc + amounts[i].0 as i128;
            i = i + 1;
        }
        proof {
            assert(amounts@.take(i as int) =~= amounts@);
        }
        Usd(acc as i64)
    }

    /// Renders the amount as `[-]$D.CC`: exactly two digits of cents, and a
    /// leading minus sign only for a negative amount.
    pub fn to_string(&self) -> (text: String)
        ensures
            text@ == rendered(self.cents() as int),
    {
        let magnitude: u64 = self.magnitude();
        let mut text = String::new();
        if self.0 < 0 {
            proof {
                reveal_strlit("-");
            }
            text.append("-");
        }
        proof {
            reveal_strlit("$");
            reveal_strlit(".");
        }
        text.append("$");
        push_decimal(&mut text, magnitude / 100);
        text.append(".");
        let cents: u64 = magnitude % 100;
        text.append(digit_str(cents / 10));
        text.append(digit_str(cents % 10));
        proof {
            assert(text@ =~= rendered(self.cents() as int));
        }
        text
    }
}

/// Whole-dollar rounding is idempotent: rounding a rounded amount changes
/// nothing.
pub proof fn irs_round_idempotent(cents: int)
    ensures
        irs_rounded(irs_rounded(cents)) == irs_rounded(cents),
{
}

/// Whole-dollar rounding gives a whole number of dollars that lies within
/// half a dollar of the amount, and treats an amount and its negative alike.
pub proof fn irs_round_nearest(cents: int)
    ensures
        irs_rounded(cents) % 100 == 0,
        -50 <= irs_rounded(cents) - cents <= 50,
        irs_rounded(-cents) == -irs_rounded(cents),
{
}

/// Rounding down and rounding up give the whole dollars on either side of an
/// amount, and leave a whole number of dollars as it is.
pub proof fn floor_and_ceil_bracket(cents: int)
    ensures
        floor_to_dollar(cents) % 100 == 0,
        ceil_to_dollar(cents) % 100 == 0,
        cents - 100 < floor_to_dollar(cents) <= cents <= ceil_to_dollar(cents) < cents + 100,
        cents % 100 == 0 ==> floor_to_dollar(cents) == cents && ceil_to_dollar(cents) == cents,
{
}

impl Default for Usd {
    fn default() -> (amount: Usd)
        ensures
            amount.cents() == 0,
    {
        Usd(0)
    }
}

impl PartialOrd for Usd {
    fn partial_cmp(&self, other: &Usd) -> (order: Option<Ordering>) {
        if self.0 < other.0 {
            Some(Ordering::Less)
        } else if self.0 == other.0 {
            Some(Ordering::Equal)
        } else {
            Some(Ordering::Greater)
        }
    }
}

impl PartialOrdSpecImpl for Usd {
    open spec fn obeys_partial_cmp_spec() -> bool {
        true
    }

    open spec fn partial_cmp_spec(&self, other: &Usd) -> Option<Ordering> {
        if self.cents() < other.cents() {
            Some(Ordering::Less)
        } else if self.cents() == other.cents() {
            Some(Ordering::Equal)
        } else {
            Some(Ordering::Greater)
        }
    }
}

impl core::ops::Add for Usd {
    type Output = Usd;

    fn add(self, rhs: Usd) -> (sum: Usd) {
        Usd(self.0 + rhs.0)
    }
}

impl AddSpecImpl for Usd {
    open spec fn obeys_add_spec() -> bool {
        true
    }

    open spec fn add_req(self, rhs: Usd) -> bool {
        representable(self.cents() + rhs.cents())
    }

    open spec fn add_spec(self, rhs: Usd) -> Usd {
        Usd((self.cents() + rhs.cents()) as i64)
    }
}

impl core::ops::Sub for Usd {
    type Output = Usd;

    fn sub(self, rhs: Usd) -> (difference: Usd) {
        Usd(self.0 - rhs.0)
    }
}

impl SubSpecImpl for Usd {
    open spec fn obeys_sub_spec() -> bool {
        true
    }

    open spec fn sub_req(self, rhs: Usd) -> bool {
        representable(self.cents() - rhs.cents())
    }

    open spec fn sub_spec(self, rhs: Usd) -> Usd {
        Usd((self.cents() - rhs.cents()) as i64)
    }
}

impl core::ops::Neg for Usd {
    type Output = Usd;

    fn neg(self) -> (negated: Usd) {
        Usd(-self.0)
    }
}

impl NegSpecImpl for Usd {
    open spec fn obeys_neg_spec() -> bool {
        true
    }

    open spec fn neg_req(self) -> bool {
        representable(-self.cents())
    }

    open spec fn neg_spec(self) -> Usd {
        Usd((-self.cents()) as i64)
    }
}

impl core::ops::Mul<i64> for Usd {
    type Output = Usd;

    fn mul(self, rhs: i64) -> (product: Usd) {
        Usd(self.0 * rhs)
    }
}

impl MulSpecImpl<i64> for Usd {
    open spec fn obeys_mul_spec() -> bool {
        true
    }

    open spec fn mul_req(self, rhs: i64) -> bool {
        representable(self.cents() * rhs)
    }

    open spec fn mul_spec(self, rhs: i64) -> Usd {
        Usd((self.cents() * rhs) as i64)
    }
}

} // verus!
