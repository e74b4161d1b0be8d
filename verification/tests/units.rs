//! Tests of the money, frequency and yearly-plan unit layer.

use payroll_pt::units::money::{Money, TaxRate};
use payroll_pt::units::rate::{actual_workdays_in_year, Frequency, Rate};
use payroll_pt::units::yearly_plan::YearlyPlan;
use payroll_pt::units::UnitsError;

#[test]
fn money_basics() {
    let m = Money::from_cents(123_45);
    assert_eq!(m.micros(), 123_450_000);
    assert_eq!(m.cents_trunc(), 12_345);
    let n = Money::from_micros(-5_000_000);
    assert_eq!(n.abs().micros(), 5_000_000);
    assert_eq!(m.add(n).micros(), 118_450_000);
    assert_eq!(m.sub(n).micros(), 128_450_000);
    assert_eq!(n.positive_difference(m).micros(), 0);
    assert_eq!(m.positive_difference(n).micros(), 128_450_000);
    assert!(n.lt(&m));
    assert!(n.le(&m));
}

#[test]
fn money_times_rate_is_exact() {
    // 1846.46 at 0.78% is exactly 14.402388.
    let loaded = Money::from_micros(1_846_460_000);
    let card_tax = TaxRate::from_ppm(7_800);
    assert_eq!(loaded.times_rate(card_tax).micros(), 14_402_388);
    // Scaling by one returns the amount unchanged.
    assert_eq!(loaded.times_rate(TaxRate::from_ppm(1_000_000)).micros(), 1_846_460_000);
    // Division floors: 10 split three ways is 3.333333.
    assert_eq!(Money::from_micros(10_000_000).div_int(3).micros(), 3_333_333);
}

#[test]
fn division_truncates_toward_zero_for_negative_amounts() {
    assert_eq!(Money::from_micros(-10_000_000).div_int(3).micros(), -3_333_333);
    assert_eq!(Money::from_micros(-12_345_678).cents_trunc(), -1_234);
    let mut q = Rate::new(Money::from_micros(-14_000_000), Frequency::Monthly14);
    q.change_frequency(Frequency::Yearly);
    assert_eq!(q.value().micros(), -196_000_000);
    // Retagging back recovers the negative value exactly.
    q.change_frequency(Frequency::Monthly14);
    assert_eq!(q.value().micros(), -14_000_000);
    assert!(matches!(Rate::default().freq, Frequency::Yearly));
    assert_eq!(Rate::default().value().micros(), 0);
}

#[test]
fn frequency_ratios() {
    assert_eq!(Frequency::Yearly.ratio_to_yearly(), 1);
    assert_eq!(Frequency::Monthly.ratio_to_yearly(), 12);
    assert_eq!(Frequency::Monthly11.ratio_to_yearly(), 11);
    assert_eq!(Frequency::Monthly14.ratio_to_yearly(), 14);
    assert_eq!(Frequency::Hourly.ratio_to_yearly(), 2080);
    assert_eq!(Frequency::Workdaily.ratio_to_yearly(), 229);
    assert_eq!(actual_workdays_in_year(2022, 22), 229);
}

#[test]
fn as_yearly_is_idempotent_and_round_trips() {
    let q = Rate::new(Money::from_cents(123_45), Frequency::Monthly14);
    let y1 = q.as_yearly();
    let y2 = y1.as_yearly();
    assert_eq!(y1.value().micros(), 123_450_000 * 14);
    assert_eq!(y2.value().micros(), y1.value().micros());
    assert!(matches!(y2.freq, Frequency::Yearly));
    // Converting to yearly and retagging back recovers the value exactly.
    let mut back = y1;
    back.change_frequency(Frequency::Monthly14);
    assert_eq!(back.value().micros(), 123_450_000);
    assert!(matches!(back.freq, Frequency::Monthly14));
}

#[test]
fn change_frequency_rescales() {
    let mut q = Rate::new(Money::from_micros(1_200_000_000), Frequency::Monthly);
    q.change_frequency(Frequency::Yearly);
    assert_eq!(q.value().micros(), 14_400_000_000);
    q.change_frequency(Frequency::Monthly11);
    assert_eq!(q.value().micros(), 14_400_000_000 / 11);
}

#[test]
fn add_rejects_period_mismatch() {
    let a = Rate::new(Money::from_micros(1_000_000), Frequency::Monthly);
    let b = Rate::new(Money::from_micros(1_000_000), Frequency::Monthly11);
    assert!(matches!(a.add(&b), Err(UnitsError::PeriodIsDifferent)));
    assert!(matches!(a.sub(&b), Err(UnitsError::PeriodIsDifferent)));
    let c = a.add(&a).unwrap();
    assert_eq!(c.value().micros(), 2_000_000);
    assert!(matches!(c.freq, Frequency::Monthly));
}

#[test]
fn rate_scalar_ops_keep_the_frequency() {
    let q = Rate::new(Money::from_micros(10_000_000), Frequency::Monthly);
    let tripled = q.times_int(3);
    assert_eq!(tripled.value().micros(), 30_000_000);
    assert!(matches!(tripled.freq, Frequency::Monthly));
    assert_eq!(q.div_int(3).value().micros(), 3_333_333);
    assert_eq!(q.neg().value().micros(), -10_000_000);
    assert_eq!(q.times_rate(TaxRate::from_ppm(110_000)).value().micros(), 1_100_000);
}

#[test]
fn comparisons_normalize_to_yearly() {
    let monthly = Rate::new(Money::from_micros(1_200_000_000), Frequency::Monthly);
    let yearly = Rate::new_yearly(Money::from_micros(14_400_000_000));
    assert!(monthly.eq(&yearly));
    let smaller = Rate::new_yearly(Money::from_micros(14_399_999_999));
    assert!(!monthly.eq(&smaller));
    assert!(matches!(smaller.partial_cmp(&monthly), Some(core::cmp::Ordering::Less)));
    assert!(matches!(monthly.partial_cmp(&yearly), Some(core::cmp::Ordering::Equal)));
    assert!(matches!(monthly.partial_cmp(&smaller), Some(core::cmp::Ordering::Greater)));
}

#[test]
fn yearly_plan_yearly_total() {
    let plan = YearlyPlan {
        regular: Money::from_micros(1_000_000_000),
        vacation: Money::from_micros(20_000_000),
        bonus: Money::from_micros(3_000_000),
    };
    assert!(plan.yearly_total().eq(&Rate::new_yearly(Money::from_micros(11_026_000_000))));
}

#[test]
fn yearly_plan_addassign_monthly_regular() {
    let mut plan = YearlyPlan::default();
    plan.add_monthly(&Rate::new(Money::from_micros(1_000_000), Frequency::Monthly));
    assert!(plan.regular == Money::from_micros(1_000_000));
    assert!(plan.vacation == Money::from_micros(1_000_000));
    assert!(plan.bonus == Money::from_micros(0));
}

#[test]
fn yearly_plan_addassign_monthly_useful() {
    let mut plan = YearlyPlan::default();
    plan.add_monthly(&Rate::new(Money::from_micros(1_000_000), Frequency::Monthly11));
    assert!(plan.regular == Money::from_micros(1_000_000));
    assert!(plan.vacation == Money::from_micros(0));
    assert!(plan.bonus == Money::from_micros(0));
}

#[test]
fn yearly_plan_addassign_monthly_bonus() {
    let mut plan = YearlyPlan::default();
    plan.add_monthly(&Rate::new(Money::from_micros(1_000_000), Frequency::Monthly14));
    assert!(plan.regular == Money::from_micros(1_000_000));
    assert!(plan.vacation == Money::from_micros(1_000_000));
    assert!(plan.bonus == Money::from_micros(1_000_000));
}

#[test]
fn fourteen_payments_total_fourteen_times_the_value() {
    // A stream paid fourteen times a year feeds every bucket with the
    // monthly value, and the yearly total is value*11 + value + value*2.
    let mut plan = YearlyPlan::default();
    plan.add_monthly(&Rate::new(Money::from_micros(123_000_000), Frequency::Monthly14));
    assert_eq!(plan.regular.micros(), 123_000_000);
    assert_eq!(plan.vacation.micros(), 123_000_000);
    assert_eq!(plan.bonus.micros(), 123_000_000);
    assert_eq!(plan.yearly_total().value().micros(), 14 * 123_000_000);
}

#[test]
fn yearly_plan_map_and_combine() {
    let plan = YearlyPlan {
        regular: Money::from_micros(1_000_000),
        vacation: Money::from_micros(2_000_000),
        bonus: Money::from_micros(3_000_000),
    };
    let doubled = plan.map(|m: Money| m.add(m));
    assert_eq!(doubled.regular.micros(), 2_000_000);
    assert_eq!(doubled.vacation.micros(), 4_000_000);
    assert_eq!(doubled.bonus.micros(), 6_000_000);
    let summed = plan.combine(doubled, |a: Money, b: Money| a.add(b));
    assert_eq!(summed.regular.micros(), 3_000_000);
    assert_eq!(summed.vacation.micros(), 6_000_000);
    assert_eq!(summed.bonus.micros(), 9_000_000);
    let diff = doubled.sub(plan);
    assert!(diff == plan);
    let back = diff.add(plan);
    assert!(back == doubled);
}
