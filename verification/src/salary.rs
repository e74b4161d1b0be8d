//! Salary headings and their composition into employer cost and net pay.
//!
//! A salary package is a fixed set of headings: base salary, meal allowance,
//! travel expense reimbursement and a retirement fund contribution. Each
//! heading reports its own gross payment, the portions of it subject to
//! social security and to income tax, and its cost to the employer. The
//! aggregate composes the headings into the employer's total cost, the net
//! pay plan under per-paycheck withholding, and the net pay under the exact
//! yearly bracket tax.

use crate::irs::brackets::{taxes, taxes_micros, BracketTable};
use crate::irs::withholding::{dep_col, lookup_ppm, table_for, RetentionTables};
use crate::non_taxation_limits::{DEFAULT_WORKDAYS_IN_YEAR, SUBSIDIO_REFEICAO, VALE_REFEICAO};
use crate::units::money::{
    lemma_scaled_bounds, pos_diff, scaled, Money, TaxRate, MONEY_LIMIT, RATE_ONE,
};
use crate::units::rate::{Frequency, Rate};
use crate::units::yearly_plan::{plan_total, YearlyPlan};
use crate::FamilyElement;
use vstd::arithmetic::div_mod::{lemma_div_of0, lemma_div_pos_is_pos};
use vstd::arithmetic::mul::lemma_mul_nonnegative;
use vstd::prelude::*;

verus! {

broadcast use {crate::units::money::lemma_money_view_range, crate::units::money::lemma_rate_view_range};

/// Largest monthly payment amount a salary heading accepts, in micro-euros.
pub const PAY_LIMIT: i128 = 1_000_000_000_000_000_000;

/// Shared configuration of one payroll computation run: the tax year, the
/// family situation and the state-mandated rates.
#[derive(Clone, Copy, Debug)]
pub struct Context {
    /// The tax year whose tables apply.
    pub year: u32,
    /// The tax payer's family situation.
    pub family: FamilyElement,
    /// Vacation days of the work contract.
    pub vacation_days: u32,
    /// Fixed yearly cost of keeping a meal card.
    pub meal_card_cost: Rate,
    /// Rate charged on amounts loaded onto a meal card.
    pub meal_card_tax: TaxRate,
    /// Salary guarantee fund rate.
    pub salary_guarantee_fund_tax: TaxRate,
    /// Employer's social-security rate.
    pub company_tsu: TaxRate,
    /// Worker's social-security rate.
    pub worker_tsu: TaxRate,
    /// Whether travel expenses are invoiced onward to a client.
    pub impute_travel_expenses: bool,
    /// Surcharge on travel expenses not invoiced to a client.
    pub unimputed_travel_expenses_tax: TaxRate,
    /// Work-accident insurance premium rate.
    pub work_insurance_tax: TaxRate,
    /// Work-accident fund rate on insurance capital.
    pub work_accident_fund_tax: TaxRate,
    /// Stamp duty on insurance premiums.
    pub insurance_stamp_tax: TaxRate,
    /// Emergency-service levy on insurance premiums.
    pub insurance_inem_tax: TaxRate,
}

impl Context {
    /// All rates are at most one and the meal-card cost is a yearly amount
    /// within range.
    pub open spec fn wf(self) -> bool {
        &&& self.meal_card_cost.freq == Frequency::Yearly
        &&& 0 <= self.meal_card_cost.value@ <= PAY_LIMIT as int
        &&& self.meal_card_tax@ <= RATE_ONE
        &&& self.salary_guarantee_fund_tax@ <= RATE_ONE
        &&& self.company_tsu@ <= RATE_ONE
        &&& self.worker_tsu@ <= RATE_ONE
        &&& self.unimputed_travel_expenses_tax@ <= RATE_ONE
        &&& self.work_insurance_tax@ <= RATE_ONE
        &&& self.work_accident_fund_tax@ <= RATE_ONE
        &&& self.insurance_stamp_tax@ <= RATE_ONE
        &&& self.insurance_inem_tax@ <= RATE_ONE
    }
}

impl Default for Context {
    /// The 2022 configuration: the published state rates, a meal card of
    /// four per year at 0.78%, and an unmarried single earner without
    /// dependents.
    fn default() -> (r: Self)
        ensures
            r.wf(),
            r.year == 2022,
            r.family == (FamilyElement { casado: false, titular_unico: false, dependentes: 0 }),
            r.vacation_days == 22,
            r.meal_card_cost.value@ == 4_000_000,
            r.meal_card_cost.freq == Frequency::Yearly,
            r.meal_card_tax@ == 7_800,
            r.salary_guarantee_fund_tax@ == 10_000,
            r.company_tsu@ == crate::ss::EMPRESA,
            r.worker_tsu@ == crate::ss::TRABALHADOR,
            !r.impute_travel_expenses,
            r.unimputed_travel_expenses_tax@ == 50_000,
            r.work_insurance_tax@ == 5_500,
            r.work_accident_fund_tax@ == 1_500,
            r.insurance_stamp_tax@ == 40_000,
            r.insurance_inem_tax@ == 25_000,
    {
        Context {
            year: 2022,
            family: FamilyElement { casado: false, titular_unico: false, dependentes: 0 },
            vacation_days: 22,
            meal_card_cost: Rate::new_yearly(Money::from_micros(4_000_000)),
            meal_card_tax: TaxRate::from_ppm(7_800),
            salary_guarantee_fund_tax: TaxRate::from_ppm(10_000),
            company_tsu: TaxRate::from_ppm(crate::ss::EMPRESA),
            worker_tsu: TaxRate::from_ppm(crate::ss::TRABALHADOR),
            impute_travel_expenses: false,
            unimputed_travel_expenses_tax: TaxRate::from_ppm(50_000),
            work_insurance_tax: TaxRate::from_ppm(5_500),
            work_accident_fund_tax: TaxRate::from_ppm(1_500),
            insurance_stamp_tax: TaxRate::from_ppm(40_000),
            insurance_inem_tax: TaxRate::from_ppm(25_000),
        }
    }
}

/// The state-mandated rates alone, without the per-run configuration.
#[derive(Clone, Copy, Debug, PartialEq, Eq, Structural)]
pub struct StateTaxes {
    /// Salary guarantee fund rate.
    pub salary_guarantee_fund_tax: TaxRate,
    /// Employer's social-security rate.
    pub company_tsu: TaxRate,
    /// Worker's social-security rate.
    pub worker_tsu: TaxRate,
    /// Surcharge on travel expenses not invoiced to a client.
    pub unimputed_travel_expenses_tax: TaxRate,
    /// Work-accident fund rate on insurance capital.
    pub work_accident_fund_tax: TaxRate,
    /// Stamp duty on insurance premiums.
    pub insurance_stamp_tax: TaxRate,
    /// Emergency-service levy on insurance premiums.
    pub insurance_inem_tax: TaxRate,
}

impl Default for StateTaxes {
    /// The rates in force in the modeled tax year.
    fn default() -> (r: Self)
        ensures
            r.salary_guarantee_fund_tax@ == 10_000,
            r.company_tsu@ == crate::ss::EMPRESA,
            r.worker_tsu@ == crate::ss::TRABALHADOR,
            r.unimputed_travel_expenses_tax@ == 50_000,
            r.work_accident_fund_tax@ == 1_500,
            r.insurance_stamp_tax@ == 40_000,
            r.insurance_inem_tax@ == 25_000,
    {
        StateTaxes {
            salary_guarantee_fund_tax: TaxRate::from_ppm(10_000),
            company_tsu: TaxRate::from_ppm(crate::ss::EMPRESA),
            worker_tsu: TaxRate::from_ppm(crate::ss::TRABALHADOR),
            unimputed_travel_expenses_tax: TaxRate::from_ppm(50_000),
            work_accident_fund_tax: TaxRate::from_ppm(1_500),
            insurance_stamp_tax: TaxRate::from_ppm(40_000),
            insurance_inem_tax: TaxRate::from_ppm(25_000),
        }
    }
}

/// The kind of a travel assignment, for allowance classification.
#[derive(Clone, Copy, Debug, PartialEq, Eq, Structural)]
pub enum Deslocacao {
    /// International travel of a director.
    InternacionalDirector,
    /// International travel of other workers.
    InternacionalOutros,
    /// Domestic travel of a director.
    NacionalDirector,
    /// Domestic travel of other workers.
    NacionalOutros,
}

/// The tax-free daily meal ceiling of a meal-allowance mode: higher for a
/// card than for cash, zero when there is no allowance.
pub open spec fn meal_daily_ceiling(on_card: Option<bool>) -> int {
    match on_card {
        Some(true) => VALE_REFEICAO as int,
        Some(false) => SUBSIDIO_REFEICAO as int,
        None => 0,
    }
}

/// A daily allowance converted to a payment of each of the eleven plain
/// months: the year's workdays at the daily amount, spread over eleven
/// payments (floor division).
pub open spec fn daily_to_monthly(daily: int) -> int {
    daily * (DEFAULT_WORKDAYS_IN_YEAR as int) / 11
}

/// The base salary: a monthly amount paid fourteen times a year, fully
/// subject to both social security and income tax.
#[derive(Clone, Copy, Debug)]
pub struct BaseSalary {
    /// The monthly payment, paid fourteen times a year.
    pub monthly: Rate,
}

impl BaseSalary {
    /// The heading is well formed.
    pub open spec fn wf(self) -> bool {
        self.monthly.freq == Frequency::Monthly14 && 0 <= self.monthly.value@ <= PAY_LIMIT as int
    }

    /// Employer cost: the yearly gross plus the employer's social-security
    /// contribution and the salary guarantee fund.
    pub open spec fn company_cost_spec(self, ctx: Context) -> int {
        scaled(
            self.monthly.value@ * 14,
            RATE_ONE + ctx.company_tsu@ + ctx.salary_guarantee_fund_tax@,
        )
    }

    /// A base salary from its monthly amount.
    pub fn new(monthly: Money) -> (r: BaseSalary)
        requires
            0 <= monthly@ <= PAY_LIMIT as int,
        ensures
            r.wf(),
            r.monthly.value == monthly,
            r.monthly.freq == Frequency::Monthly14,
    {
        BaseSalary { monthly: Rate::new(monthly, Frequency::Monthly14) }
    }

    /// The monthly payment.
    pub fn monthly(&self) -> (r: Rate)
        ensures
            r == self.monthly,
    {
        self.monthly
    }

    /// The gross payment of the heading.
    pub fn gross_payment(&self) -> (r: Rate)
        ensures
            r == self.monthly,
    {
        self.monthly
    }

    /// The portion subject to social security: the whole payment.
    pub fn ss_taxable_parcel(&self) -> (r: Rate)
        ensures
            r == self.monthly,
    {
        self.monthly
    }

    /// The portion subject to income tax: the whole payment.
    pub fn irs_taxable_parcel(&self) -> (r: Rate)
        ensures
            r == self.monthly,
    {
        self.monthly
    }

    /// The yearly cost of the heading to the employer.
    pub fn company_cost(&self, ctx: &Context) -> (r: Rate)
        requires
            self.wf(),
            ctx.wf(),
        ensures
            r.freq == Frequency::Yearly,
            r.value@ == self.company_cost_spec(*ctx),
            0 <= r.value@ <= 10_000 * (PAY_LIMIT as int),
    {
        let yearly = self.monthly.as_yearly();
        let factor = TaxRate::from_ppm(
            RATE_ONE + ctx.company_tsu.ppm() + ctx.salary_guarantee_fund_tax.ppm(),
        );
        Rate::new_yearly(yearly.value.times_rate(factor))
    }
}

/// The meal allowance: a daily amount for each working day, paid over the
/// eleven plain months, in cash or on a meal card; the slice of the daily
/// amount above the mode's tax-free ceiling is taxable.
#[derive(Clone, Copy, Debug)]
pub struct MealAllowance {
    /// `None`: no allowance; `Some(true)`: paid onto a meal card;
    /// `Some(false)`: paid in cash.
    pub on_card: Option<bool>,
    /// The nominal daily amount.
    pub daily: Money,
}

/// The monthly gross payment of a meal allowance.
pub open spec fn meal_gross_m(m: MealAllowance) -> int {
    if m.on_card is None {
        0
    } else {
        daily_to_monthly(m.daily@)
    }
}

/// The monthly taxable portion of a meal allowance: the conversion of the
/// slice of the daily amount above the mode's ceiling.
pub open spec fn meal_taxable_m(m: MealAllowance) -> int {
    if m.on_card is None {
        0
    } else {
        daily_to_monthly(pos_diff(m.daily@, meal_daily_ceiling(m.on_card)))
    }
}

/// The yearly employer cost of a meal allowance: the yearly amount paid,
/// plus, on a card, the card's fixed cost and the card tax on the loaded
/// amount.
pub open spec fn meal_company_cost_spec(m: MealAllowance, ctx: Context) -> int {
    let yearly = meal_gross_m(m) * 11;
    if m.on_card == Some(true) {
        yearly + ctx.meal_card_cost.value@ + scaled(yearly, ctx.meal_card_tax@)
    } else {
        yearly
    }
}

impl MealAllowance {
    /// The heading is well formed.
    pub open spec fn wf(self) -> bool {
        0 <= self.daily@ <= PAY_LIMIT as int
    }

    /// A meal allowance from its mode and nominal daily amount.
    pub fn new(on_card: Option<bool>, daily: Money) -> (r: MealAllowance)
        requires
            0 <= daily@ <= PAY_LIMIT as int,
        ensures
            r.wf(),
            r.on_card == on_card,
            r.daily == daily,
    {
        MealAllowance { on_card, daily }
    }

    /// A meal allowance whose daily amount sits exactly at the mode's
    /// tax-free ceiling, as commonly granted.
    pub fn at_ceiling(on_card: Option<bool>) -> (r: MealAllowance)
        ensures
            r.wf(),
            r.on_card == on_card,
            r.daily@ == meal_daily_ceiling(on_card),
    {
        let daily = match on_card {
            Some(true) => Money::from_micros(VALE_REFEICAO),
            Some(false) => Money::from_micros(SUBSIDIO_REFEICAO),
            None => Money::zero(),
        };
        MealAllowance { on_card, daily }
    }

    /// The gross payment of the heading, over the eleven plain months.
    pub fn gross_payment(&self) -> (r: Rate)
        requires
            self.wf(),
        ensures
            r.freq == Frequency::Monthly11,
            r.value@ == meal_gross_m(*self),
            0 <= r.value@ <= self.daily@ * (DEFAULT_WORKDAYS_IN_YEAR as int),
    {
        match self.on_card {
            None => Rate::new(Money::zero(), Frequency::Monthly11),
            Some(_) => {
                let yearly = self.daily.times_int(DEFAULT_WORKDAYS_IN_YEAR);
                Rate::new(yearly.div_int(11), Frequency::Monthly11)
            },
        }
    }

    /// The portion subject to social security: the same as the income-tax
    /// portion.
    pub fn ss_taxable_parcel(&self) -> (r: Rate)
        requires
            self.wf(),
        ensures
            r.freq == Frequency::Monthly11,
            r.value@ == meal_taxable_m(*self),
            0 <= r.value@ <= self.daily@ * (DEFAULT_WORKDAYS_IN_YEAR as int),
    {
        self.irs_taxable_parcel()
    }

    /// The portion subject to income tax: the conversion of the slice of
    /// the daily amount above the mode's tax-free ceiling.
    pub fn irs_taxable_parcel(&self) -> (r: Rate)
        requires
            self.wf(),
        ensures
            r.freq == Frequency::Monthly11,
            r.value@ == meal_taxable_m(*self),
            0 <= r.value@ <= self.daily@ * (DEFAULT_WORKDAYS_IN_YEAR as int),
    {
        match self.on_card {
            None => Rate::new(Money::zero(), Frequency::Monthly11),
            Some(card) => {
                let ceiling = if card {
                    Money::from_micros(VALE_REFEICAO)
                } else {
                    Money::from_micros(SUBSIDIO_REFEICAO)
                };
                let excess = self.daily.positive_difference(ceiling);
                let yearly = excess.times_int(DEFAULT_WORKDAYS_IN_YEAR);
                proof {
                    vstd::arithmetic::mul::lemma_mul_inequality(
                        excess@,
                        self.daily@,
                        DEFAULT_WORKDAYS_IN_YEAR as int,
                    );
                }
                Rate::new(yearly.div_int(11), Frequency::Monthly11)
            },
        }
    }

    /// The yearly cost of the heading to the employer.
    pub fn company_cost(&self, ctx: &Context) -> (r: Rate)
        requires
            self.wf(),
            ctx.wf(),
        ensures
            r.freq == Frequency::Yearly,
            r.value@ == meal_company_cost_spec(*self, *ctx),
            0 <= r.value@ <= 10_000 * (PAY_LIMIT as int),
    {
        let gross = self.gross_payment();
        let yearly = gross.value.times_int(11);
        if matches!(self.on_card, Some(true)) {
            let card = ctx.meal_card_cost.value.add(yearly.times_rate(ctx.meal_card_tax));
            Rate::new_yearly(yearly.add(card))
        } else {
            Rate::new_yearly(yearly)
        }
    }
}

/// For one nominal daily amount, the on-card and off-card meal modes pay
/// the same gross amount; at or below the cash ceiling neither mode leaves
/// a taxable parcel; and whenever the card carries a positive fixed cost,
/// the card mode costs the employer strictly more than the cash mode.
pub proof fn lemma_card_vs_cash(daily: Money, ctx: Context)
    requires
        ctx.wf(),
        0 <= daily@,
    ensures
        meal_gross_m((MealAllowance { on_card: Some(true), daily })) == meal_gross_m(
            (MealAllowance { on_card: Some(false), daily }),
        ),
        daily@ <= SUBSIDIO_REFEICAO as int ==> meal_taxable_m(
            (MealAllowance { on_card: Some(true), daily }),
        ) == 0 && meal_taxable_m((MealAllowance { on_card: Some(false), daily })) == 0,
        ctx.meal_card_cost.value@ > 0 ==> meal_company_cost_spec(
            (MealAllowance { on_card: Some(true), daily }),
            ctx,
        ) > meal_company_cost_spec((MealAllowance { on_card: Some(false), daily }), ctx),
{
    let card = MealAllowance { on_card: Some(true), daily };
    let cash = MealAllowance { on_card: Some(false), daily };
    if daily@ <= SUBSIDIO_REFEICAO as int {
        // Below both ceilings the excess is zero, and a zero daily amount
        // converts to a zero monthly parcel.
        assert(pos_diff(daily@, meal_daily_ceiling(Some(true))) == 0);
        assert(pos_diff(daily@, meal_daily_ceiling(Some(false))) == 0);
        assert(daily_to_monthly(0) == 0) by {
            lemma_div_of0(11);
        }
    }
    // The card cost adds the fixed card cost and a nonnegative card tax on
    // top of the same yearly amount.
    lemma_mul_nonnegative(daily@, DEFAULT_WORKDAYS_IN_YEAR as int);
    lemma_div_pos_is_pos(daily@ * (DEFAULT_WORKDAYS_IN_YEAR as int), 11);
    lemma_scaled_bounds(meal_gross_m(card) * 11, ctx.meal_card_tax@);
}

/// The travel expense reimbursement: a monthly amount over the eleven plain
/// months, free of both taxes, surcharged to the employer when not invoiced
/// onward to a client.
#[derive(Clone, Copy, Debug)]
pub struct TravelExpenses {
    /// The monthly reimbursement, over the eleven plain months.
    pub monthly: Rate,
}

/// The yearly employer cost of the travel reimbursement.
pub open spec fn travel_company_cost_spec(t: TravelExpenses, ctx: Context) -> int {
    let yearly = t.monthly.value@ * 11;
    if !ctx.impute_travel_expenses {
        scaled(yearly, RATE_ONE + ctx.unimputed_travel_expenses_tax@)
    } else {
        yearly
    }
}

impl TravelExpenses {
    /// The heading is well formed.
    pub open spec fn wf(self) -> bool {
        self.monthly.freq == Frequency::Monthly11 && 0 <= self.monthly.value@ <= PAY_LIMIT as int
    }

    /// The gross payment of the heading.
    pub fn gross_payment(&self) -> (r: Rate)
        ensures
            r == self.monthly,
    {
        self.monthly
    }

    /// The portion subject to social security: none.
    pub fn ss_taxable_parcel(&self) -> (r: Rate)
        ensures
            r.freq == Frequency::Monthly11,
            r.value@ == 0,
    {
        Rate::new(Money::zero(), Frequency::Monthly11)
    }

    /// The portion subject to income tax: none.
    pub fn irs_taxable_parcel(&self) -> (r: Rate)
        ensures
            r.freq == Frequency::Monthly11,
            r.value@ == 0,
    {
        Rate::new(Money::zero(), Frequency::Monthly11)
    }

    /// The yearly cost of the heading to the employer.
    pub fn company_cost(&self, ctx: &Context) -> (r: Rate)
        requires
            self.wf(),
            ctx.wf(),
        ensures
            r.freq == Frequency::Yearly,
            r.value@ == travel_company_cost_spec(*self, *ctx),
            0 <= r.value@ <= 10_000 * (PAY_LIMIT as int),
    {
        let yearly = self.monthly.as_yearly();
        if !ctx.impute_travel_expenses {
            let factor = TaxRate::from_ppm(RATE_ONE + ctx.unimputed_travel_expenses_tax.ppm());
            Rate::new_yearly(yearly.value.times_rate(factor))
        } else {
            yearly
        }
    }
}

/// The retirement fund contribution: a monthly amount paid twelve times a
/// year, free of social security, subject to income tax, with a fixed two
/// percent handling surcharge to the employer.
#[derive(Clone, Copy, Debug)]
pub struct RetirementFunds {
    /// The monthly contribution, paid twelve times a year.
    pub monthly: Rate,
}

/// The yearly employer cost of the retirement contribution.
pub open spec fn retirement_company_cost_spec(rf: RetirementFunds) -> int {
    scaled(rf.monthly.value@, RATE_ONE + 20_000) * 12
}

impl RetirementFunds {
    /// The heading is well formed.
    pub open spec fn wf(self) -> bool {
        self.monthly.freq == Frequency::Monthly && 0 <= self.monthly.value@ <= PAY_LIMIT as int
    }

    /// A retirement contribution from its monthly amount.
    pub fn new(monthly: Money) -> (r: RetirementFunds)
        requires
            0 <= monthly@ <= PAY_LIMIT as int,
        ensures
            r.wf(),
            r.monthly.value == monthly,
            r.monthly.freq == Frequency::Monthly,
    {
        RetirementFunds { monthly: Rate::new(monthly, Frequency::Monthly) }
    }

    /// The gross payment of the heading.
    pub fn gross_payment(&self) -> (r: Rate)
        ensures
            r == self.monthly,
    {
        self.monthly
    }

    /// The portion subject to social security: none.
    pub fn ss_taxable_parcel(&self) -> (r: Rate)
        ensures
            r.freq == Frequency::Monthly,
            r.value@ == 0,
    {
        Rate::new(Money::zero(), Frequency::Monthly)
    }

    /// The portion subject to income tax: the whole payment.
    pub fn irs_taxable_parcel(&self) -> (r: Rate)
        ensures
            r == self.monthly,
    {
        self.monthly
    }

    /// The yearly cost of the heading to the employer.
    pub fn company_cost(&self, _ctx: &Context) -> (r: Rate)
        requires
            self.wf(),
        ensures
            r.freq == Frequency::Yearly,
            r.value@ == retirement_company_cost_spec(*self),
            0 <= r.value@ <= 10_000 * (PAY_LIMIT as int),
    {
        let monthly = self.monthly.value.times_rate(TaxRate::from_ppm(RATE_ONE + 20_000));
        Rate::new_yearly(monthly.times_int(12))
    }
}

/// One salary heading, as a closed set of variants.
#[derive(Clone, Copy, Debug)]
pub enum Heading {
    /// The base salary.
    Base(BaseSalary),
    /// The meal allowance.
    Meal(MealAllowance),
    /// The travel expense reimbursement.
    Travel(TravelExpenses),
    /// The retirement fund contribution.
    Retirement(RetirementFunds),
}

impl Heading {
    /// The heading is well formed.
    pub open spec fn wf(self) -> bool {
        match self {
            Heading::Base(b) => b.wf(),
            Heading::Meal(m) => m.wf(),
            Heading::Travel(t) => t.wf(),
            Heading::Retirement(rf) => rf.wf(),
        }
    }

    /// The gross payment of the heading.
    pub fn gross_payment(&self) -> (r: Rate)
        requires
            self.wf(),
        ensures
            r.value@ == match *self {
                Heading::Base(b) => b.monthly.value@,
                Heading::Meal(m) => meal_gross_m(m),
                Heading::Travel(t) => t.monthly.value@,
                Heading::Retirement(rf) => rf.monthly.value@,
            },
            r.freq == match *self {
                Heading::Base(_) => Frequency::Monthly14,
                Heading::Meal(_) => Frequency::Monthly11,
                Heading::Travel(t) => t.monthly.freq,
                Heading::Retirement(_) => Frequency::Monthly,
            },
    {
        match self {
            Heading::Base(b) => b.gross_payment(),
            Heading::Meal(m) => m.gross_payment(),
            Heading::Travel(t) => t.gross_payment(),
            Heading::Retirement(rf) => rf.gross_payment(),
        }
    }

    /// The portion of the gross payment subject to social security.
    pub fn ss_taxable_parcel(&self) -> (r: Rate)
        requires
            self.wf(),
        ensures
            r.value@ == match *self {
                Heading::Base(b) => b.monthly.value@,
                Heading::Meal(m) => meal_taxable_m(m),
                Heading::Travel(_) => 0,
                Heading::Retirement(_) => 0,
            },
    {
        match self {
            Heading::Base(b) => b.ss_taxable_parcel(),
            Heading::Meal(m) => m.ss_taxable_parcel(),
            Heading::Travel(t) => t.ss_taxable_parcel(),
            Heading::Retirement(rf) => rf.ss_taxable_parcel(),
        }
    }

    /// The portion of the gross payment subject to income tax.
    pub fn irs_taxable_parcel(&self) -> (r: Rate)
        requires
            self.wf(),
        ensures
            r.value@ == match *self {
                Heading::Base(b) => b.monthly.value@,
                Heading::Meal(m) => meal_taxable_m(m),
                Heading::Travel(_) => 0,
                Heading::Retirement(rf) => rf.monthly.value@,
            },
    {
        match self {
            Heading::Base(b) => b.irs_taxable_parcel(),
            Heading::Meal(m) => m.irs_taxable_parcel(),
            Heading::Travel(t) => t.irs_taxable_parcel(),
            Heading::Retirement(rf) => rf.irs_taxable_parcel(),
        }
    }

    /// The yearly cost of the heading to the employer.
    pub fn company_cost(&self, ctx: &Context) -> (r: Rate)
        requires
            self.wf(),
            ctx.wf(),
        ensures
            r.freq == Frequency::Yearly,
            r.value@ == match *self {
                Heading::Base(b) => b.company_cost_spec(*ctx),
                Heading::Meal(m) => meal_company_cost_spec(m, *ctx),
                Heading::Travel(t) => travel_company_cost_spec(t, *ctx),
                Heading::Retirement(rf) => retirement_company_cost_spec(rf),
            },
    {
        match self {
            Heading::Base(b) => b.company_cost(ctx),
            Heading::Meal(m) => m.company_cost(ctx),
            Heading::Travel(t) => t.company_cost(ctx),
            Heading::Retirement(rf) => rf.company_cost(ctx),
        }
    }
}

/// A whole salary package: the four headings of the modeled contract.
#[derive(Clone, Copy, Debug)]
pub struct Salary {
    /// The base salary.
    pub base_salary: BaseSalary,
    /// The meal allowance.
    pub meal_allowance: MealAllowance,
    /// The travel expense reimbursement.
    pub travel_expenses: TravelExpenses,
    /// The retirement fund contribution.
    pub retirement_funds: RetirementFunds,
}

/// The monthly base salary amount.
pub open spec fn base_m(s: Salary) -> int {
    s.base_salary.monthly.value@
}

/// The monthly meal allowance amount.
pub open spec fn meal_m(s: Salary) -> int {
    meal_gross_m(s.meal_allowance)
}

/// The monthly travel reimbursement amount.
pub open spec fn travel_m(s: Salary) -> int {
    s.travel_expenses.monthly.value@
}

/// The monthly retirement contribution amount.
pub open spec fn ret_m(s: Salary) -> int {
    s.retirement_funds.monthly.value@
}

/// The gross payment plan of the package, by bucket: base pay feeds all
/// three buckets, the retirement contribution feeds regular and vacation,
/// meal and travel feed only the regular bucket.
pub open spec fn gross_regular(s: Salary) -> int {
    base_m(s) + meal_m(s) + travel_m(s) + ret_m(s)
}

/// The vacation bucket of the gross plan.
pub open spec fn gross_vacation(s: Salary) -> int {
    base_m(s) + ret_m(s)
}

/// The bonus bucket of the gross plan.
pub open spec fn gross_bonus(s: Salary) -> int {
    base_m(s)
}

/// The regular bucket of the social-security-taxable plan.
pub open spec fn ss_regular(s: Salary) -> int {
    base_m(s) + meal_taxable_m(s.meal_allowance)
}

/// The vacation bucket of the social-security-taxable plan.
pub open spec fn ss_vacation(s: Salary) -> int {
    base_m(s)
}

/// The bonus bucket of the social-security-taxable plan.
pub open spec fn ss_bonus(s: Salary) -> int {
    base_m(s)
}

/// The regular bucket of the income-taxable plan.
pub open spec fn irs_regular(s: Salary) -> int {
    base_m(s) + meal_taxable_m(s.meal_allowance) + ret_m(s)
}

/// The vacation bucket of the income-taxable plan.
pub open spec fn irs_vacation(s: Salary) -> int {
    base_m(s) + ret_m(s)
}

/// The bonus bucket of the income-taxable plan.
pub open spec fn irs_bonus(s: Salary) -> int {
    base_m(s)
}

/// The amount withheld from one gross payment under the given tables: the
/// payment scaled by the rate its own amount looks up.
pub open spec fn withheld_of(b: int, tables: RetentionTables, family: FamilyElement) -> int {
    scaled(
        b,
        lookup_ppm(
            b,
            table_for(tables, family).lines@,
            table_for(tables, family).top,
            dep_col(family.dependentes as int),
        ),
    )
}

/// The net contribution of one bucket: its gross payment, minus the
/// worker's social security on the taxable parcel, minus the withholding on
/// the income-taxable parcel.
pub open spec fn net_of(g: int, sp: int, ip: int, ctx: Context, tables: RetentionTables) -> int {
    g - scaled(sp, ctx.worker_tsu@) - withheld_of(ip, tables, ctx.family)
}

/// The insurance capital of the package: the yearly base pay plus the
/// yearly meal allowance.
pub open spec fn coverage_capital_spec(s: Salary) -> int {
    base_m(s) * 14 + meal_m(s) * 11
}

/// The yearly work-accident insurance cost: premium and accident-fund
/// charge on the capital, under stamp duty, plus the emergency-service levy
/// on the premium.
pub open spec fn insurance_spec(s: Salary, ctx: Context) -> int {
    let capital = coverage_capital_spec(s);
    let premium = scaled(capital, ctx.work_insurance_tax@);
    let fat = scaled(capital, ctx.work_accident_fund_tax@);
    scaled(premium + fat, RATE_ONE + ctx.insurance_stamp_tax@) + scaled(
        premium,
        ctx.insurance_inem_tax@,
    )
}

/// The total yearly employer cost of the package: the four headings' costs
/// plus the work-accident insurance.
pub open spec fn company_cost_spec(s: Salary, ctx: Context) -> int {
    s.base_salary.company_cost_spec(ctx) + meal_company_cost_spec(s.meal_allowance, ctx)
        + travel_company_cost_spec(s.travel_expenses, ctx) + retirement_company_cost_spec(
        s.retirement_funds,
    ) + insurance_spec(s, ctx)
}

/// The yearly net pay under the exact bracket tax: the yearly total of the
/// gross plan net of worker social security, minus the bracket tax on the
/// yearly income-taxable total.
pub open spec fn real_net_spec(s: Salary, ctx: Context, t: BracketTable) -> int {
    plan_total(
        gross_regular(s) - scaled(ss_regular(s), ctx.worker_tsu@),
        gross_vacation(s) - scaled(ss_vacation(s), ctx.worker_tsu@),
        gross_bonus(s) - scaled(ss_bonus(s), ctx.worker_tsu@),
    ) - taxes_micros(plan_total(irs_regular(s), irs_vacation(s), irs_bonus(s)), t)
}

impl Salary {
    /// All four headings are well formed.
    pub open spec fn wf(self) -> bool {
        self.base_salary.wf() && self.meal_allowance.wf() && self.travel_expenses.wf()
            && self.retirement_funds.wf()
    }

    /// A salary package from a monthly base pay, a meal-allowance mode
    /// (granted at the mode's tax-free ceiling) and a monthly travel
    /// reimbursement, without retirement contributions.
    pub fn new(base: Money, meal_card: Option<bool>, cost_aid: Money) -> (r: Salary)
        requires
            0 <= base@ <= PAY_LIMIT as int,
            0 <= cost_aid@ <= PAY_LIMIT as int,
        ensures
            r.wf(),
            r.base_salary.monthly.value == base,
            r.meal_allowance.on_card == meal_card,
            r.meal_allowance.daily@ == meal_daily_ceiling(meal_card),
            r.travel_expenses.monthly.value == cost_aid,
            r.travel_expenses.monthly.freq == Frequency::Monthly11,
            r.retirement_funds.monthly.value@ == 0,
    {
        Salary {
            base_salary: BaseSalary::new(base),
            meal_allowance: MealAllowance::at_ceiling(meal_card),
            travel_expenses: TravelExpenses { monthly: Rate::new(cost_aid, Frequency::Monthly11) },
            retirement_funds: RetirementFunds::new(Money::zero()),
        }
    }

    /// The four headings of the package, in order.
    pub fn headings(&self) -> (r: Vec<Heading>)
        ensures
            r@.len() == 4,
            r@[0] == Heading::Base(self.base_salary),
            r@[1] == Heading::Meal(self.meal_allowance),
            r@[2] == Heading::Travel(self.travel_expenses),
            r@[3] == Heading::Retirement(self.retirement_funds),
    {
        let mut v: Vec<Heading> = Vec::new();
        v.push(Heading::Base(self.base_salary));
        v.push(Heading::Meal(self.meal_allowance));
        v.push(Heading::Travel(self.travel_expenses));
        v.push(Heading::Retirement(self.retirement_funds));
        v
    }

    /// The yearly work-accident insurance cost of the package.
    pub fn work_accidents_insurance(&self, ctx: &Context) -> (r: Rate)
        requires
            self.wf(),
            ctx.wf(),
        ensures
            r.freq == Frequency::Yearly,
            r.value@ == insurance_spec(*self, *ctx),
            0 <= r.value@ <= 10_000 * (PAY_LIMIT as int),
    {
        let base_y = self.base_salary.gross_payment().as_yearly();
        let meal_y = self.meal_allowance.gross_payment().as_yearly();
        let capital = base_y.value.add(meal_y.value);
        let premium = capital.times_rate(ctx.work_insurance_tax);
        let fat = capital.times_rate(ctx.work_accident_fund_tax);
        let stamped = premium.add(fat).times_rate(
            TaxRate::from_ppm(RATE_ONE + ctx.insurance_stamp_tax.ppm()),
        );
        let inem = premium.times_rate(ctx.insurance_inem_tax);
        Rate::new_yearly(stamped.add(inem))
    }

    /// The total yearly cost of the package to the employer.
    pub fn company_cost(&self, ctx: &Context) -> (r: Rate)
        requires
            self.wf(),
            ctx.wf(),
        ensures
            r.freq == Frequency::Yearly,
            r.value@ == company_cost_spec(*self, *ctx),
    {
        let c1 = self.base_salary.company_cost(ctx);
        let c2 = self.meal_allowance.company_cost(ctx);
        let c3 = self.travel_expenses.company_cost(ctx);
        let c4 = self.retirement_funds.company_cost(ctx);
        let c5 = self.work_accidents_insurance(ctx);
        Rate::new_yearly(c1.value.add(c2.value).add(c3.value).add(c4.value).add(c5.value))
    }

    /// The gross, social-security-taxable and income-taxable payment plans
    /// of the package.
    fn plans(&self) -> (r: (YearlyPlan, YearlyPlan, YearlyPlan))
        requires
            self.wf(),
        ensures
            r.0.regular@ == gross_regular(*self),
            r.0.vacation@ == gross_vacation(*self),
            r.0.bonus@ == gross_bonus(*self),
            r.1.regular@ == ss_regular(*self),
            r.1.vacation@ == ss_vacation(*self),
            r.1.bonus@ == ss_bonus(*self),
            r.2.regular@ == irs_regular(*self),
            r.2.vacation@ == irs_vacation(*self),
            r.2.bonus@ == irs_bonus(*self),
            r.0.ok() && r.1.ok() && r.2.ok(),
            0 <= r.1.regular@ && 0 <= r.1.vacation@ && 0 <= r.1.bonus@,
            0 <= r.2.regular@ && 0 <= r.2.vacation@ && 0 <= r.2.bonus@,
    {
        let mut gross = YearlyPlan::zero();
        gross.add_monthly(&self.base_salary.gross_payment());
        gross.add_monthly(&self.meal_allowance.gross_payment());
        gross.add_monthly(&self.travel_expenses.gross_payment());
        gross.add_monthly(&self.retirement_funds.gross_payment());
        let mut ss = YearlyPlan::zero();
        ss.add_monthly(&self.base_salary.ss_taxable_parcel());
        ss.add_monthly(&self.meal_allowance.ss_taxable_parcel());
        ss.add_monthly(&self.travel_expenses.ss_taxable_parcel());
        ss.add_monthly(&self.retirement_funds.ss_taxable_parcel());
        let mut irs = YearlyPlan::zero();
        irs.add_monthly(&self.base_salary.irs_taxable_parcel());
        irs.add_monthly(&self.meal_allowance.irs_taxable_parcel());
        irs.add_monthly(&self.travel_expenses.irs_taxable_parcel());
        irs.add_monthly(&self.retirement_funds.irs_taxable_parcel());
        (gross, ss, irs)
    }

    /// The yearly net payment plan under per-paycheck withholding: each
    /// bucket keeps its gross payment minus the worker's social security on
    /// the taxable parcel and minus the withholding that the income-taxable
    /// parcel's own amount looks up.
    pub fn yearly_plan_withhold_net(&self, ctx: &Context, tables: &RetentionTables) -> (r:
        YearlyPlan)
        requires
            self.wf(),
            ctx.wf(),
            tables.wf(),
        ensures
            r.regular@ == net_of(gross_regular(*self), ss_regular(*self), irs_regular(*self), *ctx, *tables),
            r.vacation@ == net_of(gross_vacation(*self), ss_vacation(*self), irs_vacation(*self), *ctx, *tables),
            r.bonus@ == net_of(gross_bonus(*self), ss_bonus(*self), irs_bonus(*self), *ctx, *tables),
    {
        let (gross, ss, irs) = self.plans();
        let ss_cut = ss.times_rate(ctx.worker_tsu);
        let withheld = YearlyPlan {
            regular: withhold_one(irs.regular, ctx, tables),
            vacation: withhold_one(irs.vacation, ctx, tables),
            bonus: withhold_one(irs.bonus, ctx, tables),
        };
        gross.sub(ss_cut).sub(withheld)
    }

    /// The yearly net pay under the exact bracket tax: the yearly total of
    /// the gross plan net of worker social security, minus the bracket tax
    /// on the yearly income-taxable total.
    pub fn yearly_plan_real_net(&self, ctx: &Context, brackets: &BracketTable) -> (r: Rate)
        requires
            self.wf(),
            ctx.wf(),
            brackets.wf(),
        ensures
            r.freq == Frequency::Yearly,
            r.value@ == real_net_spec(*self, *ctx, *brackets),
    {
        let (gross, ss, irs) = self.plans();
        let net_base = gross.sub(ss.times_rate(ctx.worker_tsu)).yearly_total();
        let irs_total = irs.yearly_total();
        let tax = taxes(&irs_total, brackets);
        Rate::new_yearly(net_base.value.sub(tax.value))
    }
}

/// The withholding applied to one gross bucket payment: the bucket amount
/// scaled by the rate its own amount looks up under the given tables.
fn withhold_one(b: Money, ctx: &Context, tables: &RetentionTables) -> (r: Money)
    requires
        tables.wf(),
        0 <= b@ <= MONEY_LIMIT as int,
    ensures
        r@ == withheld_of(b@, *tables, ctx.family),
        0 <= r@ <= b@,
{
    let rate = match tables.tax(&Rate::new(b, Frequency::Monthly), &ctx.family) {
        Ok(t) => t,
        Err(_) => {
            proof {
                assert(false);
            }
            TaxRate::zero()
        },
    };
    b.times_rate(rate)
}

} // verus!
