use gideon_tax_core::w2::{
    Box12Code, Box12Entry, EmployerName, EmployersUseGrp, IrsW2, OtherDeductionBenefit,
    StandardOrNonStandardCd, UsAddress, W2LocalTaxGrp, W2SecurityInformation, W2StateTaxGrp,
};
use gideon_tax_core::Usd;

#[test]
fn blank_statement_has_nothing_filled_in() {
    let w2 = IrsW2::default();
    assert!(w2.employee_ssn.is_none());
    assert!(w2.employer_name.is_none());
    assert!(w2.employee_us_address.is_none());
    assert!(w2.wages_amt.is_none());
    assert!(w2.withholding_amt.is_none());
    assert!(w2.nonqualified_plans_amt.is_none());
    assert!(w2.statutory_employee_ind.is_none());
    assert!(w2.box_12.is_none());
    assert!(w2.other_deductions_benefits_grp.is_none());
    assert!(w2.w2_state_local_tax_grp.is_none());
    assert!(w2.standard_or_non_standard_cd.is_none());
    assert!(w2.employers_use_grp.is_none());
    assert!(w2.w2_security_information.is_none());
}

#[test]
fn blank_parts_have_nothing_filled_in() {
    let address = UsAddress::default();
    assert!(address.address_line_1_txt.is_none() && address.address_line_2_txt.is_none());
    let name = EmployerName::default();
    assert!(name.business_name_line_1_txt.is_none() && name.business_name_line_2_txt.is_none());
    let state = W2StateTaxGrp::default();
    assert!(state.state_abbrev.is_none() && state.w2_local_tax_grp.is_none());
    let local = W2LocalTaxGrp::default();
    assert!(local.local_wages_amt.is_none() && local.locality_nm.is_none());
    let security = W2SecurityInformation::default();
    assert!(security.w2_download_failed_attempt_cnt.is_none());
    let _ = EmployersUseGrp::default();
}

#[test]
fn statement_holds_what_is_entered() {
    let w2 = IrsW2 {
        employee_nm: Some(String::from("Pat Doe")),
        wages_amt: Some(Usd::from_dollars(50_000)),
        withholding_amt: Some(Usd::from_dollars(5_000)),
        retirement_plan_ind: Some(true),
        box_12: Some(vec![Box12Entry {
            code: Box12Code::D,
            amount: Usd::from_dollars(3_000),
        }]),
        other_deductions_benefits_grp: Some(vec![OtherDeductionBenefit {
            description: Some(String::from("union dues")),
            amount: Some(Usd::from_cents(12_345)),
        }]),
        w2_state_local_tax_grp: Some(vec![W2StateTaxGrp {
            state_abbrev: Some(String::from("NY")),
            state_wages_amt: Some(Usd::from_dollars(50_000)),
            w2_local_tax_grp: Some(vec![W2LocalTaxGrp {
                locality_nm: Some(String::from("NYC")),
                ..Default::default()
            }]),
            ..Default::default()
        }]),
        standard_or_non_standard_cd: Some(StandardOrNonStandardCd::Standard),
        ..Default::default()
    };
    let copy = w2.clone();
    assert_eq!(copy.employee_nm.as_deref(), Some("Pat Doe"));
    assert_eq!(copy.wages_amt, Some(Usd::from_dollars(50_000)));
    let entries = copy.box_12.unwrap();
    assert_eq!(entries.len(), 1);
    assert_eq!(entries[0].code, Box12Code::D);
    assert_ne!(entries[0].code, Box12Code::DD);
    assert_eq!(entries[0].amount, Usd::from_dollars(3_000));
    let states = copy.w2_state_local_tax_grp.unwrap();
    assert_eq!(states[0].state_abbrev.as_deref(), Some("NY"));
    assert_eq!(
        states[0].w2_local_tax_grp.as_ref().unwrap()[0]
            .locality_nm
            .as_deref(),
        Some("NYC")
    );
    assert_eq!(
        copy.standard_or_non_standard_cd,
        Some(StandardOrNonStandardCd::Standard)
    );
    assert_ne!(
        StandardOrNonStandardCd::Standard,
        StandardOrNonStandardCd::NonStandard
    );
}
