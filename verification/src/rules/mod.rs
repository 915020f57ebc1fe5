//! Year-versioned rule parameters and the standard-deduction algorithm that
//! every tax year shares.

pub mod y2025;

use crate::types::usd::{larger, representable, smaller};
use crate::types::{Filer, FilingStatus, TaxYear, Usd};
use vstd::prelude::*;

verus! {

/// The published figures of one tax year: what a rule set is, seen as data.
pub struct YearConstants {
    /// The tax year the figures belong to.
    pub year: TaxYear,
    /// Base standard deduction for Single or Married Filing Separately.
    pub single_mfs_base: Usd,
    /// Base standard deduction for Married Filing Jointly or Qualifying Surviving Spouse.
    pub mfj_qss_base: Usd,
    /// Base standard deduction for Head of Household.
    pub hoh_base: Usd,
    /// Addition per checked box for Single or Head of Household.
    pub additional_unmarried: Usd,
    /// Addition per checked box for the married statuses.
    pub additional_married: Usd,
    /// Amount added to a dependent's earned income before clamping.
    pub dependent_earned_income_addition: Usd,
    /// Least standard deduction of a dependent.
    pub dependent_minimum: Usd,
}

/// Input to [`TaxYearRules::standard_deduction`].
///
/// When `filing_status` is [`FilingStatus::MarriedFilingSeparately`], a
/// `spouse` may only be provided if the spouse had no income, is not filing
/// a return, and cannot be claimed as a dependent on another person's return.
/// The caller answers for that; nothing here checks it.
pub struct DeductionParams {
    pub filing_status: FilingStatus,
    pub taxpayer: Filer,
    pub spouse: Option<Filer>,
    /// `true` if the taxpayer can be claimed as a dependent on another
    /// person's return, **or** if filing jointly and the spouse can be.
    pub is_dependent: bool,
    pub is_dual_status_alien: bool,
    pub spouse_itemizes: bool,
    pub earned_income: Usd,
}

/// Base standard deduction of a status, before any addition.
pub open spec fn typical_base(rules: YearConstants, status: FilingStatus) -> Usd {
    match status {
        FilingStatus::Single | FilingStatus::MarriedFilingSeparately => rules.single_mfs_base,
        FilingStatus::MarriedFilingJointly | FilingStatus::QualifyingSurvivingSpouse => {
            rules.mfj_qss_base
        },
        FilingStatus::HeadOfHousehold => rules.hoh_base,
    }
}

/// Addition that one checked box is worth under a status.
pub open spec fn per_box(rules: YearConstants, status: FilingStatus) -> Usd {
    if status.is_unmarried() {
        rules.additional_unmarried
    } else {
        rules.additional_married
    }
}

/// Number of checked boxes that count: the taxpayer's, and under a married
/// status those of the spouse as well, where one is given.
pub open spec fn counted_boxes(params: DeductionParams) -> int {
    if params.filing_status.is_unmarried() {
        params.taxpayer.checked_boxes() as int
    } else {
        params.taxpayer.checked_boxes() + (match params.spouse {
            Some(spouse) => spouse.checked_boxes() as int,
            None => 0,
        })
    }
}

/// Cents added for the checked boxes.
pub open spec fn additional_cents(rules: YearConstants, params: DeductionParams) -> int {
    per_box(rules, params.filing_status).cents() * counted_boxes(params)
}

/// Whether the deduction is zero whatever else holds: a dual-status alien, or
/// a separate return whose other spouse itemizes.
pub open spec fn zero_override(params: DeductionParams) -> bool {
    params.is_dual_status_alien || (params.filing_status == FilingStatus::MarriedFilingSeparately
        && params.spouse_itemizes)
}

/// A dependent's base: earned income plus the year's addition, raised to the
/// dependent minimum and then capped by the ordinary base of the status.
pub open spec fn dependent_base_cents(rules: YearConstants, params: DeductionParams) -> int {
    smaller(
        larger(
            params.earned_income.cents() + rules.dependent_earned_income_addition.cents(),
            rules.dependent_minimum.cents() as int,
        ),
        typical_base(rules, params.filing_status).cents() as int,
    )
}

/// The part of the deduction that does not come from checked boxes.
pub open spec fn base_portion_cents(rules: YearConstants, params: DeductionParams) -> int {
    if params.is_dependent {
        dependent_base_cents(rules, params)
    } else {
        typical_base(rules, params.filing_status).cents() as int
    }
}

/// The standard deduction, in cents.
pub open spec fn standard_deduction_cents(rules: YearConstants, params: DeductionParams) -> int {
    if zero_override(params) {
        0
    } else {
        base_portion_cents(rules, params) + additional_cents(rules, params)
    }
}

/// Whether every amount met on the way to the standard deduction can be held.
pub open spec fn deduction_representable(rules: YearConstants, params: DeductionParams) -> bool {
    zero_override(params) || {
        &&& representable(additional_cents(rules, params))
        &&& params.is_dependent ==> representable(
            params.earned_income.cents() + rules.dependent_earned_income_addition.cents(),
        )
        &&& representable(standard_deduction_cents(rules, params))
    }
}

/// Checking more boxes never lowers the standard deduction, as long as the
/// year's addition per box is not negative: of two sets of parameters that
/// differ in the filers alone, the one with more counted boxes has the
/// deduction that is at least as large.
pub proof fn deduction_grows_with_boxes(
    rules: YearConstants,
    fewer: DeductionParams,
    more: DeductionParams,
)
    requires
        per_box(rules, fewer.filing_status).cents() >= 0,
        more.filing_status == fewer.filing_status,
        more.is_dependent == fewer.is_dependent,
        more.is_dual_status_alien == fewer.is_dual_status_alien,
        more.spouse_itemizes == fewer.spouse_itemizes,
        more.earned_income == fewer.earned_income,
        counted_boxes(fewer) <= counted_boxes(more),
    ensures
        additional_cents(rules, fewer) >= 0,
        standard_deduction_cents(rules, fewer) <= standard_deduction_cents(rules, more),
{
    let rate = per_box(rules, fewer.filing_status).cents() as int;
    let few = counted_boxes(fewer);
    let many = counted_boxes(more);
    assert(0 <= rate * few <= rate * many) by (nonlinear_arith)
        requires
            rate >= 0,
            0 <= few <= many,
    ;
}

/// A dependent's deduction, the addition for boxes left aside, never exceeds
/// the ordinary base of the status, and is never below the dependent minimum
/// unless that minimum is itself above the base.
pub proof fn dependent_base_bounds(rules: YearConstants, params: DeductionParams)
    ensures
        dependent_base_cents(rules, params) <= typical_base(rules, params.filing_status).cents(),
        rules.dependent_minimum.cents() <= typical_base(rules, params.filing_status).cents()
            ==> rules.dependent_minimum.cents() <= dependent_base_cents(rules, params),
        params.is_dependent && !zero_override(params) ==> standard_deduction_cents(rules, params)
            - additional_cents(rules, params) == dependent_base_cents(rules, params),
{
}

/// Year-specific tax parameters consumed by [`crate::spine::compute_spine`].
///
/// Each tax year gets its own implementation that supplies the IRS-published
/// dollar amounts. The [`standard_deduction`](TaxYearRules::standard_deduction)
/// algorithm is a provided method that combines them, the same for every year.
pub trait TaxYearRules {
    /// The figures that this rule set supplies. A rule set states them here,
    /// and its methods are then held to them; of a rule set that states none
    /// nothing is known.
    open spec fn constants(&self) -> YearConstants {
        arbitrary()
    }

    /// The tax year that these rules implement.
    fn year(&self) -> (year: TaxYear)
        ensures
            year == self.constants().year,
    ;

    /// Base standard deduction for Single or MFS filers.
    fn single_mfs_typical_standard_deduction(&self) -> (amount: Usd)
        ensures
            amount == self.constants().single_mfs_base,
    ;

    /// Base standard deduction for MFJ or QSS filers.
    fn mfj_qss_typical_standard_deduction(&self) -> (amount: Usd)
        ensures
            amount == self.constants().mfj_qss_base,
    ;

    /// Base standard deduction for Head of Household filers.
    fn hoh_typical_standard_deduction(&self) -> (amount: Usd)
        ensures
            amount == self.constants().hoh_base,
    ;

    /// Per-box addition for Single or Head of Household filers.
    fn additional_deduction_unmarried(&self) -> (amount: Usd)
        ensures
            amount == self.constants().additional_unmarried,
    ;

    /// Per-box addition for MFJ, MFS, or QSS filers.
    fn additional_deduction_married(&self) -> (amount: Usd)
        ensures
            amount == self.constants().additional_married,
    ;

    /// Amount added to a dependent's earned income before clamping.
    fn dependent_earned_income_addition(&self) -> (amount: Usd)
        ensures
            amount == self.constants().dependent_earned_income_addition,
    ;

    /// Minimum standard deduction for a dependent filer.
    fn dependent_minimum_deduction(&self) -> (amount: Usd)
        ensures
            amount == self.constants().dependent_minimum,
    ;

    /// Base standard deduction before any age/blindness additions.
    fn typical_standard_deduction(&self, status: FilingStatus) -> (base: Usd)
        ensures
            base == typical_base(self.constants(), status),
    {
        match status {
            FilingStatus::Single | FilingStatus::MarriedFilingSeparately => {
                self.single_mfs_typical_standard_deduction()
            },
            FilingStatus::MarriedFilingJointly | FilingStatus::QualifyingSurvivingSpouse => {
                self.mfj_qss_typical_standard_deduction()
            },
            FilingStatus::HeadOfHousehold => self.hoh_typical_standard_deduction(),
        }
    }

    /// Computes the full standard deduction from year-specific constants.
    ///
    /// Returns $0 for dual-status aliens or MFS when spouse itemizes.
    /// Otherwise applies the dependent formula or the typical base, plus
    /// an additional amount per qualifying age/blindness box.
    fn standard_deduction(&self, params: &DeductionParams) -> (deduction: Usd)
        requires
            deduction_representable(self.constants(), *params),
        ensures
            deduction.cents() == standard_deduction_cents(self.constants(), *params),
            params.is_dual_status_alien ==> deduction.cents() == 0,
            params.filing_status == FilingStatus::MarriedFilingSeparately && params.spouse_itemizes
                ==> deduction.cents() == 0,
    {
        // Zero-deduction overrides come before anything else.
        if params.is_dual_status_alien {
            return Usd::zero();
        }
        if params.filing_status == FilingStatus::MarriedFilingSeparately && params.spouse_itemizes {
            return Usd::zero();
        }
        let base = self.typical_standard_deduction(params.filing_status);

        // Additional amount per qualifying box.
        let per_box = if params.filing_status.is_unmarried() {
            self.additional_deduction_unmarried()
        } else {
            self.additional_deduction_married()
        };
        let boxes: i64 = if params.filing_status.is_unmarried() {
            params.taxpayer.checked_boxes()
        } else {
            params.taxpayer.checked_boxes() + (match params.spouse {
                Some(spouse) => spouse.checked_boxes(),
                None => 0,
            })
        };

        // Dependent or ordinary base.
        let base_portion = if params.is_dependent {
            clamp_dependent_base(
                params.earned_income,
                self.dependent_earned_income_addition(),
                self.dependent_minimum_deduction(),
                base,
            )
        } else {
            base
        };
        add_boxes(base_portion, per_box, boxes)
    }
}

/// A dependent's base: `earned_income + addition`, raised to `floor` where it
/// is below, and then cut to `base` where it is above.
fn clamp_dependent_base(earned_income: Usd, addition: Usd, floor: Usd, base: Usd) -> (capped: Usd)
    requires
        representable(earned_income.cents() + addition.cents()),
    ensures
        capped.cents() == smaller(
            larger(earned_income.cents() + addition.cents(), floor.cents() as int),
            base.cents() as int,
        ),
{
    let earned_plus = Usd::from_cents(earned_income.cents() + addition.cents());
    earned_plus.max(floor).min(base)
}

/// `base_portion` plus `per_box` for each of `boxes` checked boxes.
fn add_boxes(base_portion: Usd, per_box: Usd, boxes: i64) -> (deduction: Usd)
    requires
        representable(per_box.cents() * boxes),
        representable(base_portion.cents() + per_box.cents() * boxes),
    ensures
        deduction.cents() == base_portion.cents() + per_box.cents() * boxes,
{
    Usd::from_cents(base_portion.cents() + per_box.cents() * boxes)
}

} // verus!
