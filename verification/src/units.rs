//! Monetary units: exact fixed-point money, tax rates, payment frequencies,
//! frequency-tagged quantities and the three-bucket yearly payment plan.

pub mod money;
pub mod rate;
pub mod yearly_plan;

use vstd::prelude::*;

verus! {

/// Failures of the unit layer.
#[derive(Clone, Copy, Debug, PartialEq, Eq, Structural)]
pub enum UnitsError {
    /// Two quantities with different periods were combined directly; callers
    /// must first normalize both to a common period, generally yearly.
    PeriodIsDifferent,
}

impl UnitsError {
    /// A short description of the failure.
    pub fn message(&self) -> &'static str {
        match self {
            UnitsError::PeriodIsDifferent => "quantities with different periods can't be used in binary ops",
        }
    }
}

} // verus!
