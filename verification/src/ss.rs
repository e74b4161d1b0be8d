//! Social-security (TSU) contribution rates and related state-tax data.

use crate::units::money::TaxRate;
use vstd::prelude::*;

verus! {

/// Worker's social-security contribution rate, in parts per million.
pub const TRABALHADOR: u64 = 110_000;

/// Employer's social-security contribution rate, in parts per million.
pub const EMPRESA: u64 = 237_500;

/// Salary guarantee fund rate, in parts per million.
pub const FUNDO_GARANTIA_SALARIAL: u64 = 10_000;

/// Category B contribution rate: 21.4% on a 70% incidence base, in parts
/// per million.
pub const CAT_B: u64 = 149_800;

/// Category A total contribution rate: worker plus employer.
pub const CAT_A: u64 = TRABALHADOR + EMPRESA;

/// The state-mandated rates that payroll computations share.
#[derive(Clone, Copy, Debug, PartialEq, Eq, Structural)]
pub struct Taxes {
    /// Salary guarantee fund rate.
    pub salary_guarantee_fund_tax: TaxRate,
    /// Employer's social-security rate.
    pub company_tsu: TaxRate,
    /// Worker's social-security rate.
    pub worker_tsu: TaxRate,
    /// Surcharge on travel expenses not invoiced to a client.
    pub unimputed_travel_expenses_tax: TaxRate,
    /// Work-accident fund rate on insurance capital.
    pub work_accident_fund_tax: TaxRate,
    /// Stamp duty on insurance premiums.
    pub insurance_stamp_tax: TaxRate,
    /// Emergency-service levy on insurance premiums.
    pub insurance_inem_tax: TaxRate,
}

impl Default for Taxes {
    /// The rates in force in the modeled tax year.
    fn default() -> (r: Self)
        ensures
            r.salary_guarantee_fund_tax@ == 10_000,
            r.company_tsu@ == EMPRESA,
            r.worker_tsu@ == TRABALHADOR,
            r.unimputed_travel_expenses_tax@ == 50_000,
            r.work_accident_fund_tax@ == 1_500,
            r.insurance_stamp_tax@ == 40_000,
            r.insurance_inem_tax@ == 25_000,
    {
        Taxes {
            salary_guarantee_fund_tax: TaxRate::from_ppm(10_000),
            company_tsu: TaxRate::from_ppm(EMPRESA),
            worker_tsu: TaxRate::from_ppm(TRABALHADOR),
            unimputed_travel_expenses_tax: TaxRate::from_ppm(50_000),
            work_accident_fund_tax: TaxRate::from_ppm(1_500),
            insurance_stamp_tax: TaxRate::from_ppm(40_000),
            insurance_inem_tax: TaxRate::from_ppm(25_000),
        }
    }
}

/// Variation, in percent points, that a category B worker may elect on the
/// contribution base.
#[derive(Clone, Copy, Debug, PartialEq, Eq, Structural)]
pub enum SegSocVarCatB {
    /// Twenty-five points below the base.
    M25,
    /// Twenty points below the base.
    M20,
    /// Fifteen points below the base.
    M15,
    /// Ten points below the base.
    M10,
    /// Five points below the base.
    M05,
    /// The unchanged base.
    Zero,
    /// Five points above the base.
    P05,
    /// Ten points above the base.
    P10,
    /// Fifteen points above the base.
    P15,
    /// Twenty points above the base.
    P20,
    /// Twenty-five points above the base.
    P25,
}

/// The signed percent-point variation that the election stands for.
pub open spec fn cat_b_variation_points(v: SegSocVarCatB) -> int {
    match v {
        SegSocVarCatB::M25 => -25,
        SegSocVarCatB::M20 => -20,
        SegSocVarCatB::M15 => -15,
        SegSocVarCatB::M10 => -10,
        SegSocVarCatB::M05 => -5,
        SegSocVarCatB::Zero => 0,
        SegSocVarCatB::P05 => 5,
        SegSocVarCatB::P10 => 10,
        SegSocVarCatB::P15 => 15,
        SegSocVarCatB::P20 => 20,
        SegSocVarCatB::P25 => 25,
    }
}

impl SegSocVarCatB {
    /// The signed percent-point variation that the election stands for.
    pub fn points(&self) -> (r: i32)
        ensures
            r == cat_b_variation_points(*self),
    {
        match self {
            SegSocVarCatB::M25 => -25,
            SegSocVarCatB::M20 => -20,
            SegSocVarCatB::M15 => -15,
            SegSocVarCatB::M10 => -10,
            SegSocVarCatB::M05 => -5,
            SegSocVarCatB::Zero => 0,
            SegSocVarCatB::P05 => 5,
            SegSocVarCatB::P10 => 10,
            SegSocVarCatB::P15 => 15,
            SegSocVarCatB::P20 => 20,
            SegSocVarCatB::P25 => 25,
        }
    }
}

} // verus!
