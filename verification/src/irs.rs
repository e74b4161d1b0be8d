//! Income tax (IRS): progressive bracket taxation and withholding-table
//! lookup.

pub mod brackets;
pub mod withholding;

use vstd::prelude::*;

verus! {

/// How a payment relates to income tax.
#[derive(Clone, Copy, Debug, PartialEq, Eq, Structural)]
pub enum Taxing {
    /// Not subject to income tax.
    Exempt,
    /// Subject to income tax, settled only with the yearly bracket tax.
    Taxed,
    /// Subject to income tax and withheld from each paycheck.
    TaxedWitheld,
}

/// The fiscal status of the tax payer.
#[derive(Clone, Copy, Debug, PartialEq, Eq, Structural)]
pub enum EstatutoFiscal {
    /// Taxed on worldwide income.
    Residente,
    /// Half of dependent-work and professional income excluded from taxation.
    ExResidente,
    /// Flat-rate taxation of high-added-value activities; foreign income may
    /// be exempt.
    ResidenteNaoHabitual,
    /// Taxed only on income obtained in the country.
    NaoResidente,
}

/// Failures of the income-tax layer.
#[derive(Clone, Copy, Debug, PartialEq, Eq, Structural)]
pub enum IrsError {
    /// A withholding lookup was asked for a quantity that is not paid with
    /// one of the monthly calendars.
    NonMonthlyPeriod,
    /// No tax tables are supplied for the requested year.
    UnsupportedYear,
}

} // verus!
