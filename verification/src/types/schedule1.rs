//! Schedule 1: additional income and adjustments to income, line by line.

use crate::types::usd::representable;
use crate::types::Usd;
use vstd::prelude::*;

verus! {

/// Additional income sources from Schedule 1, Part I.
///
/// Each field corresponds to a line on the form. The `total()` method
/// produces line 10, which feeds into Form 1040 total income.
#[derive(Debug, Clone)]
pub struct AdditionalIncome {
    // Lines 1-7
    pub taxable_refunds: Usd,
    pub alimony_received: Usd,
    pub business_income: Usd,
    pub other_gains: Usd,
    pub rental_real_estate: Usd,
    pub farm_income: Usd,
    pub unemployment_compensation: Usd,

    // Lines 8a-8z (other income)
    pub nol_deduction: Usd,
    pub gambling_income: Usd,
    pub cancellation_of_debt: Usd,
    pub foreign_earned_income_exclusion: Usd,
    pub income_form_8853: Usd,
    pub income_form_8889: Usd,
    pub alaska_permanent_fund: Usd,
    pub jury_duty_pay: Usd,
    pub prizes_and_awards: Usd,
    pub activity_not_for_profit: Usd,
    pub stock_options: Usd,
    pub rental_personal_property: Usd,
    pub olympic_medals: Usd,
    pub section_951a_inclusion: Usd,
    pub section_951a_a_inclusion: Usd,
    pub excess_business_loss_adj: Usd,
    pub able_distributions: Usd,
    pub scholarship_grants: Usd,
    pub medicaid_waiver: Usd,
    pub nonqualified_deferred_comp: Usd,
    pub wages_while_incarcerated: Usd,
    pub digital_assets: Usd,
    pub other_income: Usd,
}

impl AdditionalIncome {
    /// The value with every line at zero.
    pub open spec fn zeroed() -> AdditionalIncome {
        AdditionalIncome {
            taxable_refunds: Usd(0),
            alimony_received: Usd(0),
            business_income: Usd(0),
            other_gains: Usd(0),
            rental_real_estate: Usd(0),
            farm_income: Usd(0),
            unemployment_compensation: Usd(0),
            nol_deduction: Usd(0),
            gambling_income: Usd(0),
            cancellation_of_debt: Usd(0),
            foreign_earned_income_exclusion: Usd(0),
            income_form_8853: Usd(0),
            income_form_8889: Usd(0),
            alaska_permanent_fund: Usd(0),
            jury_duty_pay: Usd(0),
            prizes_and_awards: Usd(0),
            activity_not_for_profit: Usd(0),
            stock_options: Usd(0),
            rental_personal_property: Usd(0),
            olympic_medals: Usd(0),
            section_951a_inclusion: Usd(0),
            section_951a_a_inclusion: Usd(0),
            excess_business_loss_adj: Usd(0),
            able_distributions: Usd(0),
            scholarship_grants: Usd(0),
            medicaid_waiver: Usd(0),
            nonqualified_deferred_comp: Usd(0),
            wages_while_incarcerated: Usd(0),
            digital_assets: Usd(0),
            other_income: Usd(0),
        }
    }

    /// Sum of lines 8a-8z, which is line 9, in cents.
    pub open spec fn other_income_cents(self) -> int {
        self.nol_deduction.cents()
            + self.gambling_income.cents()
            + self.cancellation_of_debt.cents()
            + self.foreign_earned_income_exclusion.cents()
            + self.income_form_8853.cents()
            + self.income_form_8889.cents()
            + self.alaska_permanent_fund.cents()
            + self.jury_duty_pay.cents()
            + self.prizes_and_awards.cents()
            + self.activity_not_for_profit.cents()
            + self.stock_options.cents()
            + self.rental_personal_property.cents()
            + self.olympic_medals.cents()
            + self.section_951a_inclusion.cents()
            + self.section_951a_a_inclusion.cents()
            + self.excess_business_loss_adj.cents()
            + self.able_distributions.cents()
            + self.scholarship_grants.cents()
            + self.medicaid_waiver.cents()
            + self.nonqualified_deferred_comp.cents()
            + self.wages_while_incarcerated.cents()
            + self.digital_assets.cents()
            + self.other_income.cents()
    }

    /// Sum of lines 1-7 and line 9, which is line 10, in cents.
    pub open spec fn total_cents(self) -> int {
        self.taxable_refunds.cents()
            + self.alimony_received.cents()
            + self.business_income.cents()
            + self.other_gains.cents()
            + self.rental_real_estate.cents()
            + self.farm_income.cents()
            + self.unemployment_compensation.cents()
            + self.other_income_cents()
    }

    /// Sum of lines 8a-8z, which is line 9, too wide to overflow.
    fn other_income_wide(&self) -> (sum: i128)
        ensures
            sum == self.other_income_cents(),
    {
        self.nol_deduction.cents() as i128
            + self.gambling_income.cents() as i128
            + self.cancellation_of_debt.cents() as i128
            + self.foreign_earned_income_exclusion.cents() as i128
            + self.income_form_8853.cents() as i128
            + self.income_form_8889.cents() as i128
            + self.alaska_permanent_fund.cents() as i128
            + self.jury_duty_pay.cents() as i128
            + self.prizes_and_awards.cents() as i128
            + self.activity_not_for_profit.cents() as i128
            + self.stock_options.cents() as i128
            + self.rental_personal_property.cents() as i128
            + self.olympic_medals.cents() as i128
            + self.section_951a_inclusion.cents() as i128
            + self.section_951a_a_inclusion.cents() as i128
            + self.excess_business_loss_adj.cents() as i128
            + self.able_distributions.cents() as i128
            + self.scholarship_grants.cents() as i128
            + self.medicaid_waiver.cents() as i128
            + self.nonqualified_deferred_comp.cents() as i128
            + self.wages_while_incarcerated.cents() as i128
            + self.digital_assets.cents() as i128
            + self.other_income.cents() as i128
    }

    /// Sum of lines 8a-8z, which is line 9.
    pub fn total_other_income(&self) -> (total: Usd)
        requires
            representable(self.other_income_cents()),
        ensures
            total.cents() == self.other_income_cents(),
    {
        Usd::from_cents(self.other_income_wide() as i64)
    }

    /// Sum of lines 1-7 and line 9, which is line 10.
    pub fn total(&self) -> (total: Usd)
        requires
            representable(self.total_cents()),
        ensures
            total.cents() == self.total_cents(),
    {
        let sum: i128 = self.taxable_refunds.cents() as i128
            + self.alimony_received.cents() as i128
            + self.business_income.cents() as i128
            + self.other_gains.cents() as i128
            + self.rental_real_estate.cents() as i128
            + self.farm_income.cents() as i128
            + self.unemployment_compensation.cents() as i128
            + self.other_income_wide();
        Usd::from_cents(sum as i64)
    }
}

impl Default for AdditionalIncome {
    fn default() -> (empty: AdditionalIncome)
        ensures
            empty == AdditionalIncome::zeroed(),
    {
        AdditionalIncome {
            taxable_refunds: Usd(0),
            alimony_received: Usd(0),
            business_income: Usd(0),
            other_gains: Usd(0),
            rental_real_estate: Usd(0),
            farm_income: Usd(0),
            unemployment_compensation: Usd(0),
            nol_deduction: Usd(0),
            gambling_income: Usd(0),
            cancellation_of_debt: Usd(0),
            foreign_earned_income_exclusion: Usd(0),
            income_form_8853: Usd(0),
            income_form_8889: Usd(0),
            alaska_permanent_fund: Usd(0),
            jury_duty_pay: Usd(0),
            prizes_and_awards: Usd(0),
            activity_not_for_profit: Usd(0),
            stock_options: Usd(0),
            rental_personal_property: Usd(0),
            olympic_medals: Usd(0),
            section_951a_inclusion: Usd(0),
            section_951a_a_inclusion: Usd(0),
            excess_business_loss_adj: Usd(0),
            able_distributions: Usd(0),
            scholarship_grants: Usd(0),
            medicaid_waiver: Usd(0),
            nonqualified_deferred_comp: Usd(0),
            wages_while_incarcerated: Usd(0),
            digital_assets: Usd(0),
            other_income: Usd(0),
        }
    }
}

/// Adjustments to income from Schedule 1, Part II.
///
/// Each field corresponds to a line on the form. The `total()` method
/// produces line 26, which is subtracted from total income to arrive at AGI.
#[derive(Debug, Clone)]
pub struct Adjustments {
    // Lines 11-23
    pub educator_expenses: Usd,
    pub business_expenses_reservists: Usd,
    pub hsa_deduction: Usd,
    pub moving_expenses: Usd,
    pub se_tax_deduction: Usd,
    pub se_retirement_plans: Usd,
    pub se_health_insurance: Usd,
    pub early_withdrawal_penalty: Usd,
    pub alimony_paid: Usd,
    pub ira_deduction: Usd,
    pub student_loan_interest: Usd,
    pub archer_msa_deduction: Usd,

    // Lines 24a-24z (other adjustments)
    pub jury_duty_pay: Usd,
    pub rental_personal_property: Usd,
    pub olympic_medals: Usd,
    pub reforestation: Usd,
    pub supplemental_unemployment: Usd,
    pub contributions_501c18d: Usd,
    pub chaplain_contributions: Usd,
    pub attorney_fees_discrimination: Usd,
    pub attorney_fees_whistleblower: Usd,
    pub housing_deduction_2555: Usd,
    pub excess_deductions_67e: Usd,
    pub other_adjustments: Usd,
}

impl Adjustments {
    /// The value with every line at zero.
    pub open spec fn zeroed() -> Adjustments {
        Adjustments {
            educator_expenses: Usd(0),
            business_expenses_reservists: Usd(0),
            hsa_deduction: Usd(0),
            moving_expenses: Usd(0),
            se_tax_deduction: Usd(0),
            se_retirement_plans: Usd(0),
            se_health_insurance: Usd(0),
            early_withdrawal_penalty: Usd(0),
            alimony_paid: Usd(0),
            ira_deduction: Usd(0),
            student_loan_interest: Usd(0),
            archer_msa_deduction: Usd(0),
            jury_duty_pay: Usd(0),
            rental_personal_property: Usd(0),
            olympic_medals: Usd(0),
            reforestation: Usd(0),
            supplemental_unemployment: Usd(0),
            contributions_501c18d: Usd(0),
            chaplain_contributions: Usd(0),
            attorney_fees_discrimination: Usd(0),
            attorney_fees_whistleblower: Usd(0),
            housing_deduction_2555: Usd(0),
            excess_deductions_67e: Usd(0),
            other_adjustments: Usd(0),
        }
    }

    /// Sum of lines 24a-24z, which is line 25, in cents.
    pub open spec fn other_adjustments_cents(self) -> int {
        self.jury_duty_pay.cents()
            + self.rental_personal_property.cents()
            + self.olympic_medals.cents()
            + self.reforestation.cents()
            + self.supplemental_unemployment.cents()
            + self.contributions_501c18d.cents()
            + self.chaplain_contributions.cents()
            + self.attorney_fees_discrimination.cents()
            + self.attorney_fees_whistleblower.cents()
            + self.housing_deduction_2555.cents()
            + self.excess_deductions_67e.cents()
            + self.other_adjustments.cents()
    }

    /// Sum of lines 11-23 and line 25, which is line 26, in cents.
    pub open spec fn total_cents(self) -> int {
        self.educator_expenses.cents()
            + self.business_expenses_reservists.cents()
            + self.hsa_deduction.cents()
            + self.moving_expenses.cents()
            + self.se_tax_deduction.cents()
            + self.se_retirement_plans.cents()
            + self.se_health_insurance.cents()
            + self.early_withdrawal_penalty.cents()
            + self.alimony_paid.cents()
            + self.ira_deduction.cents()
            + self.student_loan_interest.cents()
            + self.archer_msa_deduction.cents()
            + self.other_adjustments_cents()
    }

    /// Sum of lines 24a-24z, which is line 25, too wide to overflow.
    fn other_adjustments_wide(&self) -> (sum: i128)
        ensures
            sum == self.other_adjustments_cents(),
    {
        self.jury_duty_pay.cents() as i128
            + self.rental_personal_property.cents() as i128
            + self.olympic_medals.cents() as i128
            + self.reforestation.cents() as i128
            + self.supplemental_unemployment.cents() as i128
            + self.contributions_501c18d.cents() as i128
            + self.chaplain_contributions.cents() as i128
            + self.attorney_fees_discrimination.cents() as i128
            + self.attorney_fees_whistleblower.cents() as i128
            + self.housing_deduction_2555.cents() as i128
            + self.excess_deductions_67e.cents() as i128
            + self.other_adjustments.cents() as i128
    }

    /// Sum of lines 24a-24z, which is line 25.
    pub fn total_other_adjustments(&self) -> (total: Usd)
        requires
            representable(self.other_adjustments_cents()),
        ensures
            total.cents() == self.other_adjustments_cents(),
    {
        Usd::from_cents(self.other_adjustments_wide() as i64)
    }

    /// Sum of lines 11-23 and line 25, which is line 26.
    pub fn total(&self) -> (total: Usd)
        requires
            representable(self.total_cents()),
        ensures
            total.cents() == self.total_cents(),
    {
        let sum: i128 = self.educator_expenses.cents() as i128
            + self.business_expenses_reservists.cents() as i128
            + self.hsa_deduction.cents() as i128
            + self.moving_expenses.cents() as i128
            + self.se_tax_deduction.cents() as i128
            + self.se_retirement_plans.cents() as i128
            + self.se_health_insurance.cents() as i128
            + self.early_withdrawal_penalty.cents() as i128
            + self.alimony_paid.cents() as i128
            + self.ira_deduction.cents() as i128
            + self.student_loan_interest.cents() as i128
            + self.archer_msa_deduction.cents() as i128
            + self.other_adjustments_wide();
        Usd::from_cents(sum as i64)
    }
}

impl Default for Adjustments {
    fn default() -> (empty: Adjustments)
        ensures
            empty == Adjustments::zeroed(),
    {
        Adjustments {
            educator_expenses: Usd(0),
            business_expenses_reservists: Usd(0),
            hsa_deduction: Usd(0),
            moving_expenses: Usd(0),
            se_tax_deduction: Usd(0),
            se_retirement_plans: Usd(0),
            se_health_insurance: Usd(0),
            early_withdrawal_penalty: Usd(0),
            alimony_paid: Usd(0),
            ira_deduction: Usd(0),
            student_loan_interest: Usd(0),
            archer_msa_deduction: Usd(0),
            jury_duty_pay: Usd(0),
            rental_personal_property: Usd(0),
            olympic_medals: Usd(0),
            reforestation: Usd(0),
            supplemental_unemployment: Usd(0),
            contributions_501c18d: Usd(0),
            chaplain_contributions: Usd(0),
            attorney_fees_discrimination: Usd(0),
            attorney_fees_whistleblower: Usd(0),
            housing_deduction_2555: Usd(0),
            excess_deductions_67e: Usd(0),
            other_adjustments: Usd(0),
        }
    }
}

} // verus!
