//! Portuguese payroll economics: dimensioned monetary quantities tagged with a
//! payment frequency, progressive income-tax brackets, withholding-table
//! lookup, and the composition of salary headings into net pay and employer
//! cost.
//!
//! All amounts are held in micro-euros (`1_000_000` micros to the euro) and
//! all tax rates in parts per million, so every computation is exact integer
//! arithmetic with a single floor division per rate application.

pub mod category;
pub mod insurances;
pub mod irs;
pub mod non_taxation_limits;
pub mod salary;
pub mod ss;
pub mod units;

use vstd::prelude::*;

verus! {

/// Marital and household situation of the tax payer, used to select the
/// withholding table and the rate column within it.
#[derive(Clone, Copy, Debug, PartialEq, Eq, Structural)]
pub struct FamilyElement {
    /// Married.
    pub casado: bool,
    /// Married couple with a single earner.
    pub titular_unico: bool,
    /// Number of dependents in the household.
    pub dependentes: usize,
}

impl Default for FamilyElement {
    /// Unmarried, dual-earner (flag unused when unmarried), no dependents.
    fn default() -> (r: Self)
        ensures
            !r.casado,
            !r.titular_unico,
            r.dependentes == 0,
    {
        FamilyElement { casado: false, titular_unico: false, dependentes: 0 }
    }
}

} // verus!
