//! Non-taxation ceilings of the modeled tax year, in micro-euros.

use vstd::prelude::*;

verus! {

/// Daily meal subsidy paid in cash that stays free of tax.
pub const SUBSIDIO_REFEICAO: i128 = 4_770_000;

/// Daily meal subsidy paid on a meal card that stays free of tax.
pub const VALE_REFEICAO: i128 = 7_630_000;

/// Per-kilometre reimbursement for use of the worker's own car that stays
/// free of tax.
pub const AJUDAS_CUSTO_KM: i128 = 360_000;

/// Daily travel allowance that stays free of tax.
pub const AJUDAS_CUSTO_DIA: i128 = 50_200_000;

/// Yearly category B income below which no withholding is owed.
pub const ISENCAO_RETENCAO_CAT_B: i128 = 10_000_000_000;

/// Workdays counted in a year when converting a daily allowance to a
/// monthly payment: eleven months of twenty-two working days.
pub const DEFAULT_WORKDAYS_IN_YEAR: u64 = 242;

} // verus!
