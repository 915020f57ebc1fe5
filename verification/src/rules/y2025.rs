//! The rule set of tax year 2025.

use crate::rules::{per_box, typical_base, TaxYearRules, YearConstants};
use crate::types::{FilingStatus, TaxYear, Usd};
use vstd::prelude::*;

verus! {

/// IRS-published parameters for tax year 2025 (filed in 2026).
///
/// See: <https://www.irs.gov/instructions/i1040gi#en_US_2025_publink1000158207>
pub struct Rules2025;

impl TaxYearRules for Rules2025 {
    open spec fn constants(&self) -> YearConstants {
        YearConstants {
            year: TaxYear::Y2025,
            single_mfs_base: Usd(1_575_000),
            mfj_qss_base: Usd(3_150_000),
            hoh_base: Usd(2_362_500),
            additional_unmarried: Usd(200_000),
            additional_married: Usd(160_000),
            dependent_earned_income_addition: Usd(45_000),
            dependent_minimum: Usd(135_000),
        }
    }

    fn year(&self) -> (year: TaxYear) {
        TaxYear::Y2025
    }

    fn single_mfs_typical_standard_deduction(&self) -> (amount: Usd) {
        Usd::from_dollars(15_750)
    }

    fn mfj_qss_typical_standard_deduction(&self) -> (amount: Usd) {
        Usd::from_dollars(31_500)
    }

    fn hoh_typical_standard_deduction(&self) -> (amount: Usd) {
        Usd::from_dollars(23_625)
    }

    fn additional_deduction_unmarried(&self) -> (amount: Usd) {
        Usd::from_dollars(2_000)
    }

    fn additional_deduction_married(&self) -> (amount: Usd) {
        Usd::from_dollars(1_600)
    }

    fn dependent_earned_income_addition(&self) -> (amount: Usd) {
        Usd::from_dollars(450)
    }

    fn dependent_minimum_deduction(&self) -> (amount: Usd) {
        Usd::from_dollars(1_350)
    }
}

/// The figures of 2025 are in order: no addition per box is negative, and the
/// dependent minimum lies below the base of every status.
pub proof fn figures_in_order(status: FilingStatus)
    ensures
        per_box(Rules2025.constants(), status).cents() >= 0,
        Rules2025.constants().dependent_minimum.cents() <= typical_base(
            Rules2025.constants(),
            status,
        ).cents(),
{
}

} // verus!
