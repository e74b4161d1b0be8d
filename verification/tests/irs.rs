//! Tests of the bracket engine and the withholding tables.

use payroll_pt::irs::brackets::{
    brackets_for_year, escalao, taxes, year_2019, year_2021, year_2022,
};
use payroll_pt::irs::withholding::{
    retention_tables_2022, retention_tables_for_year, tax, RetentionTables,
};
use payroll_pt::irs::IrsError;
use payroll_pt::units::money::Money;
use payroll_pt::units::rate::{Frequency, Rate};
use payroll_pt::FamilyElement;

fn yearly(micros: i128) -> Rate {
    Rate::new_yearly(Money::from_micros(micros))
}

#[test]
fn taxes_of_fourteen_thousand() {
    // 14000.00 less the 4104.00 floor leaves 9896.00: the first bracket
    // contributes 7116.00 at 14.5%, the rest 2780.00 at 23%.
    let t = year_2022();
    let r = taxes(&yearly(14_000_000_000), &t);
    assert_eq!(r.value().micros(), 1_671_220_000);
}

#[test]
fn taxes_is_zero_up_to_the_exempt_floor() {
    let t = year_2022();
    assert_eq!(taxes(&yearly(0), &t).value().micros(), 0);
    assert_eq!(taxes(&yearly(4_104_000_000), &t).value().micros(), 0);
    assert_eq!(taxes(&yearly(2_000_000_000), &t).value().micros(), 0);
    // One euro above the floor is taxed at the first bracket's rate.
    assert_eq!(taxes(&yearly(4_105_000_000), &t).value().micros(), 145_000);
}

#[test]
fn taxes_is_monotonic_and_continuous() {
    let t = year_2022();
    let mut prev: i128 = 0;
    let mut income: i128 = 0;
    // Sample the function across all brackets, crossing each bound.
    while income <= 90_000_000_000 {
        let cur = taxes(&yearly(income), &t).value().micros();
        // Never decreasing, and never growing faster than the income.
        assert!(cur >= prev);
        assert!(cur - prev <= 1_000_000_000);
        prev = cur;
        income += 1_000_000_000;
    }
}

#[test]
fn other_years_tables_exist() {
    assert_eq!(year_2021().brackets.len(), 6);
    assert_eq!(year_2019().brackets.len(), 6);
    assert!(matches!(brackets_for_year(2022), Ok(_)));
    assert!(matches!(brackets_for_year(2020), Err(IrsError::UnsupportedYear)));
}

#[test]
fn escalao_matches_bracket_and_reproduces_taxes() {
    let t = year_2022();
    // 9896.00 falls in the second bracket (7116.00 .. 10736.00) at 23%.
    let a = Money::from_micros(9_896_000_000);
    let m = escalao(&a, &t);
    assert_eq!(m.index, 1);
    assert_eq!(m.rate.ppm(), 230_000);
    assert_eq!(m.bound.unwrap().micros(), 10_736_000_000);
    // The linear form rate*amount - deduction reproduces the scaled
    // bracket sum: 1671.22 in micro-euro ppm units.
    let linear = m.rate.ppm() as i128 * a.micros() - m.deduction_scaled;
    assert_eq!(linear, 1_671_220_000_000_000);
}

#[test]
fn escalao_below_first_bound_matches_first_bracket() {
    let t = year_2022();
    let a = Money::from_micros(1_000_000_000);
    let m = escalao(&a, &t);
    assert_eq!(m.index, 0);
    assert_eq!(m.rate.ppm(), 145_000);
    assert_eq!(m.deduction_scaled, 0);
    assert_eq!(m.bound.unwrap().micros(), 7_116_000_000);
}

#[test]
fn escalao_top_bracket_is_unbounded() {
    let t = year_2022();
    let m = escalao(&Money::from_micros(100_000_000_000), &t);
    assert_eq!(m.index, 8);
    assert!(m.bound.is_none());
    assert_eq!(m.rate.ppm(), 480_000);
}

fn unmarried() -> FamilyElement {
    FamilyElement { casado: false, titular_unico: false, dependentes: 0 }
}

#[test]
fn withholding_lookup_2022() {
    let tables = retention_tables_2022();
    let t = tables.for_family(&unmarried());
    // 1000.00 matches the 1005.00 row: 11.3% with no dependents.
    assert_eq!(t.rate_for(&Money::from_micros(1_000_000_000), 0).ppm(), 113_000);
    // Exactly at a threshold the row still matches.
    assert_eq!(t.rate_for(&Money::from_micros(710_000_000), 0).ppm(), 0);
    assert_eq!(t.rate_for(&Money::from_micros(710_010_000), 0).ppm(), 18_000);
    // Above every threshold the top row applies.
    assert_eq!(t.rate_for(&Money::from_micros(30_000_000_000), 0).ppm(), 438_000);
    // The dependents column caps at five or more.
    assert_eq!(t.rate_for(&Money::from_micros(1_143_000_000), 7).ppm(), 2_000);
    assert_eq!(t.rate_for(&Money::from_micros(1_143_000_000), 4).ppm(), 27_000);
}

#[test]
fn withholding_table_selection() {
    let tables = retention_tables_2022();
    let single_earner = FamilyElement { casado: true, titular_unico: true, dependentes: 0 };
    let dual_earner = FamilyElement { casado: true, titular_unico: false, dependentes: 0 };
    let g = Money::from_micros(740_000_000);
    assert_eq!(tables.for_family(&unmarried()).rate_for(&g, 0).ppm(), 45_000);
    assert_eq!(tables.for_family(&single_earner).rate_for(&g, 0).ppm(), 33_000);
    assert_eq!(tables.for_family(&dual_earner).rate_for(&g, 0).ppm(), 45_000);
}

#[test]
fn withholding_is_monotonic_in_gross_pay() {
    let tables = retention_tables_2022();
    for family in [
        unmarried(),
        FamilyElement { casado: true, titular_unico: true, dependentes: 2 },
        FamilyElement { casado: true, titular_unico: false, dependentes: 5 },
    ] {
        let t = tables.for_family(&family);
        let mut gross: i128 = 0;
        let mut prev: u64 = 0;
        while gross <= 30_000_000_000 {
            let r = t.rate_for(&Money::from_micros(gross), family.dependentes).ppm();
            assert!(r >= prev);
            prev = r;
            gross += 100_000_000;
        }
    }
}

#[test]
fn withholding_rejects_non_monthly_periods() {
    let tables = retention_tables_2022();
    let yearly_pay = Rate::new_yearly(Money::from_micros(1_000_000_000));
    assert!(matches!(tables.tax(&yearly_pay, &unmarried()), Err(IrsError::NonMonthlyPeriod)));
    let monthly_pay = Rate::new(Money::from_micros(1_000_000_000), Frequency::Monthly14);
    assert_eq!(tables.tax(&monthly_pay, &unmarried()).unwrap().ppm(), 113_000);
    // At the first threshold the withheld rate is zero for every table.
    let threshold_pay = Rate::new(Money::from_micros(710_000_000), Frequency::Monthly14);
    assert_eq!(tables.tax(&threshold_pay, &unmarried()).unwrap().ppm(), 0);
    // The year-2022 helper behaves the same.
    assert_eq!(tax(&monthly_pay, &unmarried()).unwrap().ppm(), 113_000);
    assert!(matches!(tax(&yearly_pay, &unmarried()), Err(IrsError::NonMonthlyPeriod)));
}

#[test]
fn retention_tables_hold_the_published_rows() {
    let tables = retention_tables_2022();
    assert_eq!(tables.nao_casado.lines.len(), 35);
    assert_eq!(tables.casado_titular_unico.lines.len(), 35);
    assert_eq!(tables.casado_dois_titulares.lines.len(), 35);
    // First threshold and top-row rate of each table.
    assert_eq!(tables.nao_casado.lines[0].limit.micros(), 710_000_000);
    assert_eq!(tables.nao_casado.top.d0, 438_000);
    assert_eq!(tables.casado_titular_unico.top.d0, 403_000);
    assert_eq!(tables.casado_dois_titulares.top.d5, 425_000);
}

#[test]
fn retention_tables_by_year() {
    assert!(matches!(retention_tables_for_year(2022), Ok(RetentionTables { .. })));
    assert!(matches!(retention_tables_for_year(2021), Err(IrsError::UnsupportedYear)));
}
