//! The pipeline from income to refund or amount owed.
//!
//! Follows the standard 1040 flow: income, adjustments, adjusted gross
//! income, deductions, taxable income, regular tax, additional tax, credits
//! (nonrefundable, then refundable), payments, and at last the refund or the
//! amount owed. Stages that nothing feeds yet still get their zero entry, so
//! that every ledger has the same keys.

mod ledger;

pub use ledger::{Key, Ledger, STAGES};

use crate::brackets::{bracket_tax, error_message, regular_tax, whole_dollars, TaxError};
use crate::rules::{
    additional_cents, counted_boxes, standard_deduction_cents, typical_base, DeductionParams,
    TaxYearRules, YearConstants,
};
use crate::text::{decimal_digits, push_decimal};
use crate::types::usd::{larger, representable};
use crate::types::{Filer, FilingStatus, TaxYear, Usd};
use vstd::prelude::*;
use vstd::std_specs::convert::FromSpecImpl;
use vstd::string::StringExecFns;

verus! {

/// What the pipeline is told about a return.
pub struct ReturnInput {
    pub tax_year: TaxYear,
    pub filing_status: FilingStatus,
    pub w2_wages: Usd,
    pub fed_withholding: Usd,
}

/// Why the pipeline produced no ledger.
#[derive(Debug, Clone, Copy, PartialEq, Eq, Structural)]
pub enum SpineError {
    /// The return is for another year than the rules.
    YearMismatch { input: TaxYear, rules: TaxYear },
    /// The bracket lookup failed; its error is kept as the cause.
    TaxComputeError(TaxError),
}

/// The words of a pipeline error.
pub open spec fn spine_error_message(error: SpineError) -> Seq<char> {
    match error {
        SpineError::YearMismatch { input, rules } => "tax year mismatch: input="@ + decimal_digits(
            input.number() as nat,
        ) + ", rules="@ + decimal_digits(rules.number() as nat),
        SpineError::TaxComputeError(cause) => "tax computation error: "@ + error_message(cause),
    }
}

impl SpineError {
    /// The error in words.
    pub fn to_string(&self) -> (text: String)
        ensures
            text@ == spine_error_message(*self),
    {
        let mut text = String::new();
        match self {
            SpineError::YearMismatch { input, rules } => {
                text.append("tax year mismatch: input=");
                push_decimal(&mut text, input.number() as u64);
                text.append(", rules=");
                push_decimal(&mut text, rules.number() as u64);
            },
            SpineError::TaxComputeError(cause) => {
                text.append("tax computation error: ");
                let message = cause.to_string();
                text.append(message.as_str());
            },
        }
        proof {
            assert(text@ =~= spine_error_message(*self));
        }
        text
    }

    /// The error underneath this one, where there is one.
    pub fn source(&self) -> (cause: Option<TaxError>)
        ensures
            cause == (match *self {
                SpineError::TaxComputeError(cause) => Some(cause),
                SpineError::YearMismatch { .. } => None,
            }),
    {
        match self {
            SpineError::TaxComputeError(cause) => Some(*cause),
            SpineError::YearMismatch { .. } => None,
        }
    }
}

impl From<TaxError> for SpineError {
    fn from(cause: TaxError) -> (error: SpineError) {
        SpineError::TaxComputeError(cause)
    }
}

impl FromSpecImpl<TaxError> for SpineError {
    open spec fn obeys_from_spec() -> bool {
        true
    }

    open spec fn from_spec(cause: TaxError) -> SpineError {
        SpineError::TaxComputeError(cause)
    }
}

/// The deduction parameters that the pipeline derives from a return today:
/// the filing status, and nothing else set.
pub open spec fn plain_params(status: FilingStatus) -> DeductionParams {
    DeductionParams {
        filing_status: status,
        taxpayer: Filer { is_65_or_older: false, is_blind: false },
        spouse: None,
        is_dependent: false,
        is_dual_status_alien: false,
        spouse_itemizes: false,
        earned_income: Usd(0),
    }
}

/// Cents deducted from the adjusted gross income of `input`.
pub open spec fn deduction_cents(rules: YearConstants, input: ReturnInput) -> int {
    standard_deduction_cents(rules, plain_params(input.filing_status))
}

/// Taxable income of `input` in cents: what the deduction leaves of the
/// wages, and never less than nothing.
pub open spec fn taxable_cents(rules: YearConstants, input: ReturnInput) -> int {
    larger(input.w2_wages.cents() - deduction_cents(rules, input), 0)
}

/// Taxable income of `input` in whole dollars, as the bracket lookup gets it.
pub open spec fn taxable_whole_dollars(rules: YearConstants, input: ReturnInput) -> i64 {
    whole_dollars(taxable_cents(rules, input))
}

/// Cents of total tax that go with a regular tax of `tax_dollars`.
pub open spec fn total_tax_cents(tax_dollars: int) -> int {
    larger(tax_dollars * 100, 0)
}

/// Cents that the ledger of `input` holds at stage `key`, once the bracket
/// lookup has given a regular tax of `tax_dollars`.
pub open spec fn stage_cents(
    rules: YearConstants,
    input: ReturnInput,
    tax_dollars: int,
    key: Key,
) -> int {
    match key {
        Key::TotalIncome => input.w2_wages.cents() as int,
        Key::Adjustments => 0,
        Key::AGI => input.w2_wages.cents() as int,
        Key::Deductions => deduction_cents(rules, input),
        Key::TaxableIncome => taxable_cents(rules, input),
        Key::RegularTax => tax_dollars * 100,
        Key::AdditionalTax => 0,
        Key::TotalTaxPreCredits => tax_dollars * 100,
        Key::NonRefundableCredits => 0,
        Key::TaxAfterNonRefundableCredits => total_tax_cents(tax_dollars),
        Key::RefundableCredits => 0,
        Key::TotalTax => total_tax_cents(tax_dollars),
        Key::Withholding => input.fed_withholding.cents() as int,
        Key::EstimatedPayments => 0,
        Key::TotalPayments => input.fed_withholding.cents() as int,
        Key::Refund => larger(input.fed_withholding.cents() - total_tax_cents(tax_dollars), 0),
        Key::AmountOwed => larger(total_tax_cents(tax_dollars) - input.fed_withholding.cents(), 0),
    }
}

/// The ledger of `input` for a regular tax of `tax_dollars`: every stage,
/// each with its amount.
pub open spec fn ledger_of(rules: YearConstants, input: ReturnInput, tax_dollars: int) -> Map<
    Key,
    Usd,
> {
    Map::new(|key: Key| true, |key: Key| Usd(stage_cents(rules, input, tax_dollars, key) as i64))
}

/// Whether the wages less the deduction can be held.
pub open spec fn income_representable(rules: YearConstants, input: ReturnInput) -> bool {
    representable(input.w2_wages.cents() - deduction_cents(rules, input))
}

/// Whether every amount of the ledger of `input` can be held, for a regular
/// tax of `tax_dollars`.
pub open spec fn amounts_representable(
    rules: YearConstants,
    input: ReturnInput,
    tax_dollars: int,
) -> bool {
    &&& income_representable(rules, input)
    &&& representable(tax_dollars * 100)
    &&& representable(input.fed_withholding.cents() - total_tax_cents(tax_dollars))
    &&& representable(total_tax_cents(tax_dollars) - input.fed_withholding.cents())
}

/// What the pipeline makes of `input` once the bracket lookup has answered
/// with `found`.
pub open spec fn spine_outcome(
    rules: YearConstants,
    input: ReturnInput,
    found: Result<i64, TaxError>,
) -> Result<Map<Key, Usd>, SpineError> {
    if input.tax_year != rules.year {
        Err(SpineError::YearMismatch { input: input.tax_year, rules: rules.year })
    } else {
        match found {
            Ok(tax_dollars) => Ok(ledger_of(rules, input, tax_dollars as int)),
            Err(cause) => Err(SpineError::TaxComputeError(cause)),
        }
    }
}

/// What the bracket tables answer for `input`.
pub open spec fn bracket_answer(rules: YearConstants, input: ReturnInput) -> Result<i64, TaxError> {
    bracket_tax(input.tax_year, input.filing_status, taxable_whole_dollars(rules, input))
}

/// Whether the pipeline can hold every amount that it meets on `input`. A
/// return for another year than the rules meets none.
pub open spec fn spine_representable(rules: YearConstants, input: ReturnInput) -> bool {
    input.tax_year == rules.year ==> {
        &&& income_representable(rules, input)
        &&& bracket_answer(rules, input) matches Ok(tax_dollars) ==> amounts_representable(
            rules,
            input,
            tax_dollars as int,
        )
    }
}

/// Whether refund and amount owed settle the difference between total
/// payments and total tax: the one that the difference calls for holds it,
/// and the other is zero.
pub open spec fn settled(ledger: Map<Key, Usd>) -> bool {
    let tax = ledger[Key::TotalTax].cents();
    let paid = ledger[Key::TotalPayments].cents();
    let refund = ledger[Key::Refund].cents();
    let owed = ledger[Key::AmountOwed].cents();
    &&& refund == 0 || owed == 0
    &&& tax > paid ==> owed == tax - paid && refund == 0
    &&& tax <= paid ==> refund == paid - tax && owed == 0
}

/// A pipeline result with the ledger seen as a map.
pub open spec fn outcome_view(outcome: Result<Ledger, SpineError>) -> Result<
    Map<Key, Usd>,
    SpineError,
> {
    match outcome {
        Ok(ledger) => Ok(ledger@),
        Err(error) => Err(error),
    }
}

/// With nothing but the filing status set, the standard deduction is the
/// base deduction of the status.
pub proof fn plain_deduction_is_base(rules: YearConstants, input: ReturnInput)
    ensures
        deduction_cents(rules, input) == typical_base(rules, input.filing_status).cents(),
{
    let params = plain_params(input.filing_status);
    assert(counted_boxes(params) == 0);
    assert(additional_cents(rules, params) == 0);
}

/// Where its amounts can be held, the ledger of a return holds at every
/// stage the amount that the stage calls for, and its refund and amount owed
/// settle the difference between payments and tax: at most one of the two is
/// more than zero.
pub proof fn ledger_of_holds_and_settles(
    rules: YearConstants,
    input: ReturnInput,
    tax_dollars: int,
)
    requires
        amounts_representable(rules, input, tax_dollars),
    ensures
        forall|key: Key| #[trigger] ledger_of(rules, input, tax_dollars).dom().contains(key),
        forall|key: Key| #[trigger]
            ledger_of(rules, input, tax_dollars)[key].cents() == stage_cents(
                rules,
                input,
                tax_dollars,
                key,
            ),
        settled(ledger_of(rules, input, tax_dollars)),
{
    plain_deduction_is_base(rules, input);
}

/// The standard deduction of a return with nothing but its filing status set.
fn plain_deduction<R: TaxYearRules + ?Sized>(rules: &R, status: FilingStatus) -> (deduction: Usd)
    ensures
        deduction.cents() == standard_deduction_cents(rules.constants(), plain_params(status)),
{
    let params = DeductionParams {
        filing_status: status,
        taxpayer: Filer::default(),
        spouse: None,
        is_dependent: false,
        is_dual_status_alien: false,
        spouse_itemizes: false,
        earned_income: Usd::zero(),
    };
    proof {
        assert(params == plain_params(status));
        assert(counted_boxes(params) == 0);
        assert(additional_cents(rules.constants(), params) == 0);
    }
    rules.standard_deduction(&params)
}

/// The stages that follow the bracket lookup: what the pipeline makes of
/// `input` once the lookup has answered with `found`, a regular tax in whole
/// dollars or the reason why there is none.
pub fn complete_spine<R: TaxYearRules + ?Sized>(
    rules: &R,
    input: &ReturnInput,
    found: Result<i64, TaxError>,
) -> (outcome: Result<Ledger, SpineError>)
    requires
        input.tax_year == rules.constants().year ==> (found matches Ok(tax_dollars)
            ==> amounts_representable(rules.constants(), *input, tax_dollars as int)),
    ensures
        outcome_view(outcome) == spine_outcome(rules.constants(), *input, found),
        outcome matches Ok(ledger) ==> ledger.is_complete() && settled(ledger@),
{
    let rules_year = rules.year();
    if input.tax_year != rules_year {
        return Err(SpineError::YearMismatch { input: input.tax_year, rules: rules_year });
    }
    let regular_tax = match found {
        Ok(regular_tax_dollars) => Usd::from_dollars(regular_tax_dollars),
        Err(cause) => {
            return Err(SpineError::from(cause));
        },
    };

    let total_income = input.w2_wages;
    let adjustments = Usd::zero();
    let agi = total_income - adjustments;

    let deductions = plain_deduction(rules, input.filing_status);
    let taxable_income = (agi - deductions).max(Usd::zero());

    let additional_tax = Usd::zero();
    let total_tax_pre_credits = regular_tax + additional_tax;

    let nonrefundable_credits = Usd::zero();
    let tax_after_nonrefundable = (total_tax_pre_credits - nonrefundable_credits).max(Usd::zero());

    let refundable_credits = Usd::zero();
    let total_tax = tax_after_nonrefundable - refundable_credits;

    let withholding = input.fed_withholding;
    let estimated_payments = Usd::zero();
    let total_payments = withholding + estimated_payments;

    let net = total_payments - total_tax;
    let refund = net.max(Usd::zero());
    let owed = (Usd::zero() - net).max(Usd::zero());

    let mut ledger = Ledger::new();
    ledger.insert(Key::TotalIncome, total_income);
    ledger.insert(Key::Adjustments, adjustments);
    ledger.insert(Key::AGI, agi);
    ledger.insert(Key::Deductions, deductions);
    ledger.insert(Key::TaxableIncome, taxable_income);
    ledger.insert(Key::RegularTax, regular_tax);
    ledger.insert(Key::AdditionalTax, additional_tax);
    ledger.insert(Key::TotalTaxPreCredits, total_tax_pre_credits);
    ledger.insert(Key::NonRefundableCredits, nonrefundable_credits);
    ledger.insert(Key::TaxAfterNonRefundableCredits, tax_after_nonrefundable);
    ledger.insert(Key::RefundableCredits, refundable_credits);
    ledger.insert(Key::TotalTax, total_tax);
    ledger.insert(Key::Withholding, withholding);
    ledger.insert(Key::EstimatedPayments, estimated_payments);
    ledger.insert(Key::TotalPayments, total_payments);
    ledger.insert(Key::Refund, refund);
    ledger.insert(Key::AmountOwed, owed);
    proof {
        assert(ledger@ =~= ledger_of(rules.constants(), *input, found->Ok_0 as int));
    }
    Ok(ledger)
}

/// Computes the core Form 1040 workflow and returns a [`Ledger`] of results.
///
/// Returns [`SpineError::YearMismatch`] if `input.tax_year` differs from
/// `rules.year()`, before anything else is computed, and
/// [`SpineError::TaxComputeError`] if the bracket lookup fails. Otherwise the
/// ledger holds every stage. Where the bracket tables answer with an amount
/// too large to be held, the precondition does not hold: see
/// [`try_compute_spine`].
pub fn compute_spine<R: TaxYearRules + ?Sized>(
    rules: &R,
    input: &ReturnInput,
) -> (outcome: Result<Ledger, SpineError>)
    requires
        spine_representable(rules.constants(), *input),
    ensures
        outcome_view(outcome) == spine_outcome(
            rules.constants(),
            *input,
            bracket_answer(rules.constants(), *input),
        ),
        input.tax_year != rules.constants().year ==> outcome is Err && outcome->Err_0 == (
        SpineError::YearMismatch { input: input.tax_year, rules: rules.constants().year }),
        outcome matches Ok(ledger) ==> ledger.is_complete() && settled(ledger@),
        input.tax_year == rules.constants().year && taxable_whole_dollars(rules.constants(), *input)
            == 0 ==> bracket_answer(rules.constants(), *input) == Ok::<i64, TaxError>(0),
{
    let rules_year = rules.year();
    if input.tax_year != rules_year {
        return Err(SpineError::YearMismatch { input: input.tax_year, rules: rules_year });
    }
    let deductions = plain_deduction(rules, input.filing_status);
    let taxable_income = (input.w2_wages - deductions).max(Usd::zero());
    let found = regular_tax(input.tax_year, input.filing_status, taxable_income);
    complete_spine(rules, input, found)
}

/// [`compute_spine`] for any input: `None` where an amount of the ledger
/// would be too large to be held, and else what [`compute_spine`] returns.
pub fn try_compute_spine<R: TaxYearRules + ?Sized>(
    rules: &R,
    input: &ReturnInput,
) -> (outcome: Option<Result<Ledger, SpineError>>)
    ensures
        outcome is Some <==> spine_representable(rules.constants(), *input),
        outcome matches Some(result) ==> {
            &&& outcome_view(result) == spine_outcome(
                rules.constants(),
                *input,
                bracket_answer(rules.constants(), *input),
            )
            &&& result matches Ok(ledger) ==> ledger.is_complete() && settled(ledger@)
        },
        input.tax_year == rules.constants().year && income_representable(rules.constants(), *input)
            && taxable_whole_dollars(rules.constants(), *input) == 0 ==> bracket_answer(
            rules.constants(),
            *input,
        ) == Ok::<i64, TaxError>(0),
{
    if input.tax_year != rules.year() {
        return Some(compute_spine(rules, input));
    }
    let deductions = plain_deduction(rules, input.filing_status);
    let after_deductions = match input.w2_wages.cents().checked_sub(deductions.cents()) {
        Some(cents) => Usd::from_cents(cents),
        None => {
            return None;
        },
    };
    let taxable_income = after_deductions.max(Usd::zero());
    match regular_tax(input.tax_year, input.filing_status, taxable_income) {
        Ok(regular_tax_dollars) => {
            let paid: i64 = input.fed_withholding.cents();
            let total_tax: i64 = match regular_tax_dollars.checked_mul(100) {
                Some(cents) => if cents >= 0 {
                    cents
                } else {
                    0
                },
                None => {
                    return None;
                },
            };
            if paid.checked_sub(total_tax).is_none() || total_tax.checked_sub(paid).is_none() {
                return None;
            }
            Some(compute_spine(rules, input))
        },
        Err(_) => Some(compute_spine(rules, input)),
    }
}

} // verus!
