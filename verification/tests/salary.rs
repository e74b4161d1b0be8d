//! Tests of the salary headings and their composition.

use payroll_pt::irs::brackets::year_2022;
use payroll_pt::irs::withholding::retention_tables_2022;
use payroll_pt::salary::{
    BaseSalary, Context, Heading, MealAllowance, RetirementFunds, Salary, StateTaxes,
    TravelExpenses,
};
use payroll_pt::units::money::{Money, TaxRate};
use payroll_pt::units::rate::{Frequency, Rate};

fn assert_close(yearly: Rate, expected_micros: i128) {
    // Within a thousandth of a euro, as the published figures are given.
    let diff = yearly.value().micros() - expected_micros;
    assert!(diff.abs() < 1_000, "got {} expected {}", yearly.value().micros(), expected_micros);
}

#[test]
fn base_salary_company_cost() {
    let ctx = Context::default();
    let cost = BaseSalary::new(Money::from_micros(1_000_000_000)).company_cost(&ctx);
    // 1000.00 * (1.2375 + 0.01) * 14
    assert_close(cost, 17_465_000_000);
}

#[test]
fn meal_allowance_company_cost() {
    let ctx = Context::default();
    assert_close(MealAllowance::at_ceiling(None).company_cost(&ctx), 0);
    // 4.77 * 22 * 11
    assert_close(MealAllowance::at_ceiling(Some(false)).company_cost(&ctx), 1_154_340_000);
    // 7.63 * 22 * 11 * 1.0078 + 4.00
    assert_close(MealAllowance::at_ceiling(Some(true)).company_cost(&ctx), 1_864_862_388);
}

#[test]
fn travel_expenses_company_cost() {
    let mut ctx = Context::default();
    ctx.company_tsu = TaxRate::from_ppm(237_500);
    ctx.salary_guarantee_fund_tax = TaxRate::from_ppm(10_000);
    let salary_cost = BaseSalary::new(Money::from_micros(1_000_000_000)).company_cost(&ctx);
    assert_close(salary_cost, 17_465_000_000);
}

#[test]
fn retirement_fund_company_cost() {
    let ctx = Context::default();
    let cost = RetirementFunds::new(Money::from_micros(1_000_000_000)).company_cost(&ctx);
    // 1000.00 * 12 * 1.02
    assert_close(cost, 12_240_000_000);
}

#[test]
fn travel_surcharge_applies_only_when_not_imputed() {
    let mut ctx = Context::default();
    let travel = TravelExpenses {
        monthly: Rate::new(Money::from_micros(400_000_000), Frequency::Monthly11),
    };
    // Not invoiced onward: 400.00 * 11 * 1.05.
    assert_close(travel.company_cost(&ctx), 4_620_000_000);
    ctx.impute_travel_expenses = true;
    assert_close(travel.company_cost(&ctx), 4_400_000_000);
}

#[test]
fn heading_variants_dispatch() {
    let salary = Salary::new(Money::from_micros(1_000_000_000), Some(true), Money::from_micros(
        400_000_000,
    ));
    let headings = salary.headings();
    assert_eq!(headings.len(), 4);
    assert!(matches!(headings[0], Heading::Base(_)));
    assert!(matches!(headings[1], Heading::Meal(_)));
    assert!(matches!(headings[2], Heading::Travel(_)));
    assert!(matches!(headings[3], Heading::Retirement(_)));
    assert_eq!(headings[0].gross_payment().value().micros(), 1_000_000_000);
    // 7.63 a day over 242 workdays, spread over eleven months.
    assert_eq!(headings[1].gross_payment().value().micros(), 167_860_000);
    assert_eq!(headings[2].gross_payment().value().micros(), 400_000_000);
    assert_eq!(headings[3].gross_payment().value().micros(), 0);
    let ctx = Context::default();
    assert_eq!(headings[3].company_cost(&ctx).value().micros(), 0);
    // Meal and travel carry no taxable parcel at the ceiling; the base
    // salary is fully taxable.
    assert_eq!(headings[0].irs_taxable_parcel().value().micros(), 1_000_000_000);
    assert_eq!(headings[1].irs_taxable_parcel().value().micros(), 0);
    assert_eq!(headings[1].ss_taxable_parcel().value().micros(), 0);
    assert_eq!(headings[2].irs_taxable_parcel().value().micros(), 0);
}

#[test]
fn scenario_base_salary_1000_year_2022() {
    // Base salary 1000.00 paid fourteen times, no meal card, no travel, no
    // retirement, unmarried single earner without dependents, 2022 tables.
    let salary = Salary::new(Money::from_micros(1_000_000_000), None, Money::zero());
    let ctx = Context::default();
    let tables = retention_tables_2022();
    let brackets = year_2022();

    // Employer cost: 14000 * 1.2475 plus the work-accident insurance
    // 103.845 computed from a capital of 14000.
    let cost = salary.company_cost(&ctx);
    assert_eq!(cost.value().micros(), 17_568_845_000);

    // Each paycheck of 1000.00 loses 11% social security and 11.3%
    // withholding (the 1005.00 table row), keeping 777.00.
    let plan = salary.yearly_plan_withhold_net(&ctx, &tables);
    assert_eq!(plan.regular.micros(), 777_000_000);
    assert_eq!(plan.vacation.micros(), 777_000_000);
    assert_eq!(plan.bonus.micros(), 777_000_000);
    assert_eq!(plan.yearly_total().value().micros(), 10_878_000_000);

    // The exact yearly liability: 14000 - 1540 social security - 1671.22
    // bracket tax on 14000 (7116.00 at 14.5%, the rest at 23%).
    let real = salary.yearly_plan_real_net(&ctx, &brackets);
    assert_eq!(real.value().micros(), 10_788_780_000);
}

#[test]
fn scenario_meal_card_versus_cash_same_daily_amount() {
    // The same nominal daily amount, below both tax-free ceilings: the
    // card variant costs the employer more (card tax and fixed card cost)
    // while the net-pay treatment is identical.
    let ctx = Context::default();
    let daily = Money::from_micros(4_500_000);
    let card = MealAllowance::new(Some(true), daily);
    let cash = MealAllowance::new(Some(false), daily);

    assert_eq!(card.gross_payment().value().micros(), 99_000_000);
    assert_eq!(cash.gross_payment().value().micros(), 99_000_000);
    assert_eq!(card.irs_taxable_parcel().value().micros(), 0);
    assert_eq!(cash.irs_taxable_parcel().value().micros(), 0);
    assert_eq!(card.ss_taxable_parcel().value().micros(), 0);
    assert_eq!(cash.ss_taxable_parcel().value().micros(), 0);

    let card_cost = card.company_cost(&ctx).value().micros();
    let cash_cost = cash.company_cost(&ctx).value().micros();
    assert_eq!(cash_cost, 1_089_000_000);
    assert_eq!(card_cost, 1_101_494_200);
    assert!(card_cost > cash_cost);
}

#[test]
fn meal_allowance_above_ceiling_becomes_taxable() {
    // A daily 8.00 exceeds the card ceiling by 0.37 and the cash ceiling
    // by 3.23; the excess converts to the monthly taxable parcel.
    let daily = Money::from_micros(8_000_000);
    let card = MealAllowance::new(Some(true), daily);
    let cash = MealAllowance::new(Some(false), daily);
    assert_eq!(card.irs_taxable_parcel().value().micros(), 8_140_000);
    assert_eq!(cash.irs_taxable_parcel().value().micros(), 71_060_000);
}

#[test]
fn withholding_net_tracks_real_net() {
    // The withholding approximation stays within a few percent of the
    // exact yearly liability.
    let ctx = Context::default();
    let tables = retention_tables_2022();
    let brackets = year_2022();
    for (base, card, aid) in [
        (1_000_000_000i128, None, 0i128),
        (1_270_000_000, Some(true), 400_000_000),
        (2_364_000_000, Some(true), 450_000_000),
        (5_611_000_000, Some(true), 400_000_000),
    ] {
        let salary = Salary::new(Money::from_micros(base), card, Money::from_micros(aid));
        let withheld = salary.yearly_plan_withhold_net(&ctx, &tables).yearly_total();
        let real = salary.yearly_plan_real_net(&ctx, &brackets);
        let diff = withheld.value().micros() - real.value().micros();
        assert!(diff.abs() * 20 < real.value().micros());
    }
}

#[test]
fn state_taxes_default_rates() {
    let t = StateTaxes::default();
    assert_eq!(t.company_tsu.ppm(), 237_500);
    assert_eq!(t.worker_tsu.ppm(), 110_000);
    assert_eq!(t.salary_guarantee_fund_tax.ppm(), 10_000);
    let s = payroll_pt::ss::Taxes::default();
    assert_eq!(s.company_tsu.ppm(), 237_500);
    assert_eq!(payroll_pt::ss::CAT_A, 347_500);
    assert_eq!(payroll_pt::ss::CAT_B, 149_800);
    assert_eq!(payroll_pt::ss::SegSocVarCatB::M25.points(), -25);
    assert_eq!(payroll_pt::ss::SegSocVarCatB::P10.points(), 10);
}
