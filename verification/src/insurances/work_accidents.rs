//! Work-accident insurance: premiums and levies on a salary's coverage
//! capital.
//!
//! The coverage capital of a policy over one salary is the yearly base pay
//! plus the yearly meal allowance. The premium, the accident-fund charge,
//! stamp duty and the emergency-service levy all follow from that capital
//! by the configured rates.

use crate::salary::{coverage_capital_spec, Salary, PAY_LIMIT};
use crate::units::money::{scaled, Money, TaxRate, RATE_ONE};
use crate::units::rate::{Frequency, Rate};
use vstd::prelude::*;

verus! {

broadcast use {crate::units::money::lemma_money_view_range, crate::units::money::lemma_rate_view_range};

/// The levy and duty rates that apply to work-accident policies.
#[derive(Clone, Copy, Debug)]
pub struct Context {
    /// Emergency-service levy on premiums.
    pub inem_tax: TaxRate,
    /// Accident-fund charge on the coverage capital.
    pub fat_tax: TaxRate,
    /// Stamp duty on premiums.
    pub stamp_duty: TaxRate,
}

impl Context {
    /// All rates are at most one.
    pub open spec fn wf(self) -> bool {
        self.inem_tax@ <= RATE_ONE && self.fat_tax@ <= RATE_ONE && self.stamp_duty@ <= RATE_ONE
    }
}

impl Default for Context {
    /// The published rates: two percent emergency-service levy, 0.15%
    /// accident fund, four percent stamp duty.
    fn default() -> (r: Self)
        ensures
            r.wf(),
            r.inem_tax@ == 20_000,
            r.fat_tax@ == 1_500,
            r.stamp_duty@ == 40_000,
    {
        Context {
            inem_tax: TaxRate::from_ppm(20_000),
            fat_tax: TaxRate::from_ppm(1_500),
            stamp_duty: TaxRate::from_ppm(40_000),
        }
    }
}

/// A general work-accident policy: a premium rate on the coverage capital
/// and a fixed cost for creating or changing the policy record.
#[derive(Clone, Copy, Debug)]
pub struct GeneralPolicy {
    /// Premium rate on the coverage capital.
    pub premium_rate: TaxRate,
    /// Fixed cost of creating or changing the policy record.
    pub record_cost: Money,
}

impl GeneralPolicy {
    /// The policy's rate and record cost are within range.
    pub open spec fn wf(self) -> bool {
        self.premium_rate@ <= RATE_ONE && 0 <= self.record_cost@ <= PAY_LIMIT as int
    }

    /// A policy from its premium rate and record cost.
    pub fn new(premium_rate: TaxRate, record_cost: Money) -> (r: GeneralPolicy)
        requires
            premium_rate@ <= RATE_ONE,
            0 <= record_cost@ <= PAY_LIMIT as int,
        ensures
            r.wf(),
            r.premium_rate == premium_rate,
            r.record_cost == record_cost,
    {
        GeneralPolicy { premium_rate, record_cost }
    }

    /// The cost of creating or changing the policy record: the fixed cost
    /// under stamp duty and the emergency-service levy.
    pub fn record_cost(&self, ctx: &Context) -> (r: Money)
        requires
            self.wf(),
            ctx.wf(),
        ensures
            r@ == scaled(self.record_cost@, RATE_ONE + ctx.stamp_duty@ + ctx.inem_tax@),
            0 <= r@,
    {
        let factor = TaxRate::from_ppm(RATE_ONE + ctx.stamp_duty.ppm() + ctx.inem_tax.ppm());
        self.record_cost.times_rate(factor)
    }

    /// The coverage capital of one salary: its yearly base pay plus its
    /// yearly meal allowance.
    pub fn coverage_capital(&self, salary: &Salary) -> (r: Rate)
        requires
            salary.wf(),
        ensures
            r.freq == Frequency::Yearly,
            r.value@ == coverage_capital_spec(*salary),
            0 <= r.value@ <= 1_000 * (PAY_LIMIT as int),
    {
        let base_y = salary.base_salary.gross_payment().as_yearly();
        let meal_y = salary.meal_allowance.gross_payment().as_yearly();
        Rate::new_yearly(base_y.value.add(meal_y.value))
    }

    /// The yearly premium of the policy over one salary.
    pub fn premium(&self, salary: &Salary) -> (r: Rate)
        requires
            self.wf(),
            salary.wf(),
        ensures
            r.freq == Frequency::Yearly,
            r.value@ == scaled(coverage_capital_spec(*salary), self.premium_rate@),
            0 <= r.value@ <= 1_000 * (PAY_LIMIT as int),
    {
        let capital = self.coverage_capital(salary);
        Rate::new_yearly(capital.value.times_rate(self.premium_rate))
    }

    /// The yearly accident-fund charge of the policy over one salary.
    pub fn fat_cost(&self, salary: &Salary, ctx: &Context) -> (r: Rate)
        requires
            self.wf(),
            salary.wf(),
            ctx.wf(),
        ensures
            r.freq == Frequency::Yearly,
            r.value@ == scaled(coverage_capital_spec(*salary), ctx.fat_tax@),
            0 <= r.value@,
    {
        let capital = self.coverage_capital(salary);
        Rate::new_yearly(capital.value.times_rate(ctx.fat_tax))
    }

    /// The yearly emergency-service levy of the policy over one salary.
    pub fn inem_cost(&self, salary: &Salary, ctx: &Context) -> (r: Rate)
        requires
            self.wf(),
            salary.wf(),
            ctx.wf(),
        ensures
            r.freq == Frequency::Yearly,
            r.value@ == scaled(
                scaled(coverage_capital_spec(*salary), self.premium_rate@),
                ctx.inem_tax@,
            ),
            0 <= r.value@,
    {
        let premium = self.premium(salary);
        Rate::new_yearly(premium.value.times_rate(ctx.inem_tax))
    }

    /// The total yearly cost of the policy over one salary: premium and
    /// accident-fund rates on the capital, under the emergency-service levy
    /// and stamp duty.
    pub fn total_cost(&self, salary: &Salary, ctx: &Context) -> (r: Rate)
        requires
            self.wf(),
            salary.wf(),
            ctx.wf(),
        ensures
            r.freq == Frequency::Yearly,
            r.value@ == scaled(
                scaled(coverage_capital_spec(*salary), self.premium_rate@ + ctx.fat_tax@),
                RATE_ONE + ctx.inem_tax@ + ctx.stamp_duty@,
            ),
            0 <= r.value@,
    {
        let capital = self.coverage_capital(salary);
        let base = capital.value.times_rate(self.premium_rate.add(ctx.fat_tax));
        let factor = TaxRate::from_ppm(RATE_ONE + ctx.inem_tax.ppm() + ctx.stamp_duty.ppm());
        Rate::new_yearly(base.times_rate(factor))
    }
}

} // verus!
