//! Tests of the work-accident insurance policy costs.

use payroll_pt::insurances::work_accidents::{Context, GeneralPolicy};
use payroll_pt::salary::Salary;
use payroll_pt::units::money::{Money, TaxRate};

fn assert_close(micros: i128, expected_micros: i128) {
    // Within half a cent, as the reference figures are rounded.
    let diff = micros - expected_micros;
    assert!(diff.abs() < 4_900, "got {} expected {}", micros, expected_micros);
}

fn policy() -> GeneralPolicy {
    GeneralPolicy::new(TaxRate::from_ppm(5_500), Money::from_micros(5_000_000))
}

#[test]
fn creation_cost() {
    let ctx = Context::default();
    let ins = policy();
    // 5.00 under four percent stamp duty and the two percent levy: 5.30.
    assert_close(ins.record_cost(&ctx).micros(), 5_300_000);
}

#[test]
fn first_three_workers() {
    let ctx = Context::default();
    let pol = policy();
    let salaries = vec![
        Salary::new(Money::from_micros(800_000_000), Some(false), Money::zero()),
        Salary::new(Money::from_micros(800_000_000), Some(false), Money::zero()),
        // 8.85 an hour, 52 weeks of 20 hours, over twelve months: 767.00.
        Salary::new(Money::from_micros(767_000_000), None, Money::zero()),
    ];
    let mut capital: i128 = 0;
    let mut total: i128 = 0;
    for s in salaries.iter() {
        capital += pol.coverage_capital(s).value().micros();
        total += pol.total_cost(s, &ctx).value().micros();
    }
    assert_close(capital, 35_446_680_000);
    // 65.69 * 4 + 0.25 unaccounted for in the reference figures.
    assert_close(total, 65_690_000 * 4 + 250_000);
    // 71.06 + 65.69 * 3 + 0.18 unaccounted for.
    assert_close(pol.record_cost(&ctx).micros() + total, 71_060_000 + 65_690_000 * 3 + 180_000);
}

#[test]
fn four_workers() {
    let ctx = Context::default();
    let pol = policy();
    let salaries = vec![
        Salary::new(Money::from_micros(800_000_000), Some(false), Money::zero()),
        Salary::new(Money::from_micros(800_000_000), Some(false), Money::zero()),
        Salary::new(Money::from_micros(1_270_000_000), Some(true), Money::zero()),
        Salary::new(Money::from_micros(2_364_000_000), Some(true), Money::zero()),
    ];
    let mut capital: i128 = 0;
    let mut total: i128 = 0;
    for s in salaries.iter() {
        capital += pol.coverage_capital(s).value().micros();
        total += pol.total_cost(s, &ctx).value().micros();
    }
    assert_close(capital, 79_277_600_000);
    assert_close(total, 588_240_000);
}

#[test]
fn policy_cost_components() {
    let ctx = Context::default();
    let pol = policy();
    let s = Salary::new(Money::from_micros(1_000_000_000), None, Money::zero());
    // Capital 14000: premium 77.00, accident fund 21.00, levy on the
    // premium 1.54.
    assert_eq!(pol.coverage_capital(&s).value().micros(), 14_000_000_000);
    assert_eq!(pol.premium(&s).value().micros(), 77_000_000);
    assert_eq!(pol.fat_cost(&s, &ctx).value().micros(), 21_000_000);
    assert_eq!(pol.inem_cost(&s, &ctx).value().micros(), 1_540_000);
}
