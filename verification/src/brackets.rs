//! The progressive bracket lookup, which lives in the `us_tax_brackets` crate.

use crate::types::usd::irs_rounded;
use crate::types::{FilingStatus, TaxYear, Usd};
use us_tax_brackets::FilingStatus as Status;
use us_tax_brackets::TaxYear as Year;
use vstd::prelude::*;

verus! {

/// Why the bracket lookup gave no tax.
#[derive(Debug, Clone, Copy, PartialEq, Eq, Structural)]
pub enum TaxError {
    /// The taxable income handed in was negative.
    NegativeIncome,
    /// No bracket of the year's tables covers the income.
    NoBracketFound,
}

/// What the bracket tables of `year` give for `status` at a taxable income of
/// `taxable_dollars` whole dollars: the tax in whole dollars, or the reason
/// why there is none.
pub uninterp spec fn bracket_tax(
    year: TaxYear,
    status: FilingStatus,
    taxable_dollars: i64,
) -> Result<i64, TaxError>;

/// Looks up the regular tax with `us_tax_brackets::compute_tax`, each year,
/// status and error going over to its namesake in that crate and back.
///
/// Trusted, not proved: the lookup depends on its three arguments alone, it
/// rejects a negative income as such, and it gives a tax of zero on an income
/// of zero. Every other figure comes from the tables that that crate embeds.
#[verifier::external_body]
fn lookup_tax(
    year: TaxYear,
    status: FilingStatus,
    taxable_dollars: i64,
) -> (found: Result<i64, TaxError>)
    ensures
        found == bracket_tax(year, status, taxable_dollars),
        taxable_dollars < 0 ==> found is Err && found->Err_0 == TaxError::NegativeIncome,
        taxable_dollars == 0 ==> found is Ok && found->Ok_0 == 0,
{
    let year = match year {
        TaxYear::Y2023 => Year::Y2023, TaxYear::Y2024 => Year::Y2024, TaxYear::Y2025 => Year::Y2025,
    };
    let status = match status {
        FilingStatus::Single => Status::Single,
        FilingStatus::MarriedFilingJointly => Status::MarriedFilingJointly,
        FilingStatus::MarriedFilingSeparately => Status::MarriedFilingSeparately,
        FilingStatus::HeadOfHousehold => Status::HeadOfHousehold,
        FilingStatus::QualifyingSurvivingSpouse => Status::QualifyingSurvivingSpouse,
    };
    match us_tax_brackets::compute_tax(year, status, taxable_dollars) {
        Ok(tax) => Ok(tax),
        Err(us_tax_brackets::TaxError::NegativeIncome) => Err(TaxError::NegativeIncome),
        Err(us_tax_brackets::TaxError::NoBracketFound) => Err(TaxError::NoBracketFound),
    }
}

/// The whole dollars that the bracket lookup gets for an income of `cents`.
pub open spec fn whole_dollars(cents: int) -> i64 {
    (irs_rounded(cents) / 100) as i64
}

/// The regular tax on `taxable_income`, in whole dollars: the income is
/// rounded to whole dollars and looked up in the bracket tables of `year`
/// for `status`.
///
/// An income that rounds to less than nothing is rejected, an income that
/// rounds to nothing is not taxed, and any other gets what the tables hold.
pub fn regular_tax(
    year: TaxYear,
    status: FilingStatus,
    taxable_income: Usd,
) -> (found: Result<i64, TaxError>)
    ensures
        found == bracket_tax(year, status, whole_dollars(taxable_income.cents() as int)),
        taxable_income.cents() <= -50 ==> found == Err::<i64, TaxError>(TaxError::NegativeIncome),
        -50 < taxable_income.cents() < 50 ==> found == Ok::<i64, TaxError>(0),
{
    let rounded: i64 = taxable_income.irs_round().cents();
    let taxable_dollars: i64 = rounded.checked_div_euclid(100).unwrap();
    lookup_tax(year, status, taxable_dollars)
}

/// The words in which the bracket lookup reports `error`.
pub open spec fn error_message(error: TaxError) -> Seq<char> {
    match error {
        TaxError::NegativeIncome => "taxable income cannot be negative"@,
        TaxError::NoBracketFound => "no matching tax bracket found"@,
    }
}

/// Renders `error` with the `Display` impl of `us_tax_brackets::TaxError`.
///
/// Trusted, not proved: that impl writes one fixed sentence per variant, the
/// two that `error_message` holds.
#[verifier::external_body]
fn describe(error: TaxError) -> (text: String)
    ensures
        text@ == error_message(error),
{
    match error {
        TaxError::NegativeIncome => us_tax_brackets::TaxError::NegativeIncome.to_string(),
        TaxError::NoBracketFound => us_tax_brackets::TaxError::NoBracketFound.to_string(),
    }
}

impl TaxError {
    /// The error in words.
    pub fn to_string(&self) -> (text: String)
        ensures
            text@ == error_message(*self),
    {
        describe(*self)
    }
}

} // verus!
