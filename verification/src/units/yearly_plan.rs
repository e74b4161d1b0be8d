//! The three-bucket yearly payment plan.
//!
//! Monthly payment streams accumulate into three buckets: `regular` monthly
//! payments, a once-yearly `vacation` bonus and a twice-yearly `bonus`
//! allocation. Which buckets a stream feeds depends only on how many times a
//! year it is paid: eleven payments feed `regular` alone, twelve feed
//! `regular` and `vacation`, fourteen feed all three. The yearly total of a
//! plan follows the fixed pay calendar: `regular * 11 + vacation + bonus * 2`.

use crate::units::money::{Money, TaxRate, MONEY_LIMIT, RATE_LIMIT, RATE_ONE};
use crate::units::rate::{is_monthly, Frequency, Rate};
use vstd::prelude::*;

verus! {

/// Largest bucket amount the plan operations accept; small enough that the
/// yearly-total formula stays within the range of [`Money`] arithmetic.
pub const PLAN_LIMIT: i128 = 62_500_000_000_000_000_000_000_000_000;

/// The fixed yearly-total formula of the modeled pay calendar.
pub open spec fn plan_total(regular: int, vacation: int, bonus: int) -> int {
    regular * 11 + vacation + bonus * 2
}

/// Accumulated monthly-equivalent payments, split by bucket.
#[derive(Clone, Copy, Debug, PartialEq, Eq, Structural)]
pub struct YearlyPlan {
    /// Paid with every one of the eleven plain months.
    pub regular: Money,
    /// The once-yearly vacation bonus installment.
    pub vacation: Money,
    /// The twice-yearly bonus installment.
    pub bonus: Money,
}

impl YearlyPlan {
    /// Every bucket lies in the range the plan operations accept.
    pub open spec fn ok(self) -> bool {
        &&& -(PLAN_LIMIT as int) <= self.regular@ <= PLAN_LIMIT as int
        &&& -(PLAN_LIMIT as int) <= self.vacation@ <= PLAN_LIMIT as int
        &&& -(PLAN_LIMIT as int) <= self.bonus@ <= PLAN_LIMIT as int
    }

    /// The empty plan.
    pub fn zero() -> (r: YearlyPlan)
        ensures
            r.regular@ == 0,
            r.vacation@ == 0,
            r.bonus@ == 0,
    {
        YearlyPlan { regular: Money::zero(), vacation: Money::zero(), bonus: Money::zero() }
    }

    /// Adds one monthly payment stream to the plan, feeding the buckets that
    /// its payment calendar reaches.
    pub fn add_monthly(&mut self, q: &Rate)
        requires
            is_monthly(q.freq),
            old(self).ok(),
            q.ok(),
        ensures
            final(self).regular@ == old(self).regular@ + q.value@,
            final(self).vacation@ == old(self).vacation@ + if q.freq != Frequency::Monthly11 {
                q.value@
            } else {
                0
            },
            final(self).bonus@ == old(self).bonus@ + if q.freq == Frequency::Monthly14 {
                q.value@
            } else {
                0
            },
    {
        match q.freq {
            Frequency::Monthly => {
                self.regular = self.regular.add(q.value);
                self.vacation = self.vacation.add(q.value);
            },
            Frequency::Monthly11 => {
                self.regular = self.regular.add(q.value);
            },
            _ => {
                self.regular = self.regular.add(q.value);
                self.vacation = self.vacation.add(q.value);
                self.bonus = self.bonus.add(q.value);
            },
        }
    }

    /// The plan reduced to a single yearly quantity by the fixed formula of
    /// the pay calendar.
    pub fn yearly_total(&self) -> (r: Rate)
        requires
            self.ok(),
        ensures
            r.freq == Frequency::Yearly,
            r.value@ == plan_total(self.regular@, self.vacation@, self.bonus@),
    {
        let r11 = self.regular.times_int(11);
        let b2 = self.bonus.times_int(2);
        Rate::new_yearly(r11.add(self.vacation).add(b2))
    }

    /// The image of the plan under a function applied to each bucket.
    pub fn map<F: Fn(Money) -> Money>(self, f: F) -> (r: YearlyPlan)
        requires
            call_requires(f, (self.regular,)),
            call_requires(f, (self.vacation,)),
            call_requires(f, (self.bonus,)),
        ensures
            call_ensures(f, (self.regular,), r.regular),
            call_ensures(f, (self.vacation,), r.vacation),
            call_ensures(f, (self.bonus,), r.bonus),
    {
        YearlyPlan { regular: f(self.regular), vacation: f(self.vacation), bonus: f(self.bonus) }
    }

    /// The bucket-wise combination of two plans under a function.
    pub fn combine<F: Fn(Money, Money) -> Money>(self, other: YearlyPlan, f: F) -> (r: YearlyPlan)
        requires
            call_requires(f, (self.regular, other.regular)),
            call_requires(f, (self.vacation, other.vacation)),
            call_requires(f, (self.bonus, other.bonus)),
        ensures
            call_ensures(f, (self.regular, other.regular), r.regular),
            call_ensures(f, (self.vacation, other.vacation), r.vacation),
            call_ensures(f, (self.bonus, other.bonus), r.bonus),
    {
        YearlyPlan {
            regular: f(self.regular, other.regular),
            vacation: f(self.vacation, other.vacation),
            bonus: f(self.bonus, other.bonus),
        }
    }

    /// Bucket-wise sum of two plans.
    pub fn add(self, rhs: YearlyPlan) -> (r: YearlyPlan)
        requires
            self.ok(),
            rhs.ok(),
        ensures
            r.regular@ == self.regular@ + rhs.regular@,
            r.vacation@ == self.vacation@ + rhs.vacation@,
            r.bonus@ == self.bonus@ + rhs.bonus@,
    {
        YearlyPlan {
            regular: self.regular.add(rhs.regular),
            vacation: self.vacation.add(rhs.vacation),
            bonus: self.bonus.add(rhs.bonus),
        }
    }

    /// Bucket-wise difference of two plans.
    pub fn sub(self, rhs: YearlyPlan) -> (r: YearlyPlan)
        requires
            self.ok(),
            rhs.ok(),
        ensures
            r.regular@ == self.regular@ - rhs.regular@,
            r.vacation@ == self.vacation@ - rhs.vacation@,
            r.bonus@ == self.bonus@ - rhs.bonus@,
    {
        YearlyPlan {
            regular: self.regular.sub(rhs.regular),
            vacation: self.vacation.sub(rhs.vacation),
            bonus: self.bonus.sub(rhs.bonus),
        }
    }

    /// Every bucket scaled by the same rate.
    pub fn times_rate(self, rate: TaxRate) -> (r: YearlyPlan)
        requires
            0 <= self.regular@ <= MONEY_LIMIT as int,
            0 <= self.vacation@ <= MONEY_LIMIT as int,
            0 <= self.bonus@ <= MONEY_LIMIT as int,
            rate@ <= RATE_LIMIT,
        ensures
            r.regular@ == crate::units::money::scaled(self.regular@, rate@),
            r.vacation@ == crate::units::money::scaled(self.vacation@, rate@),
            r.bonus@ == crate::units::money::scaled(self.bonus@, rate@),
            rate@ <= RATE_ONE ==> r.regular@ <= self.regular@ && r.vacation@ <= self.vacation@
                && r.bonus@ <= self.bonus@,
            0 <= r.regular@ && 0 <= r.vacation@ && 0 <= r.bonus@,
    {
        YearlyPlan {
            regular: self.regular.times_rate(rate),
            vacation: self.vacation.times_rate(rate),
            bonus: self.bonus.times_rate(rate),
        }
    }
}

impl Default for YearlyPlan {
    /// The empty plan.
    fn default() -> (r: Self)
        ensures
            r.regular@ == 0,
            r.vacation@ == 0,
            r.bonus@ == 0,
    {
        YearlyPlan::zero()
    }
}

/// A quantity paid fourteen times a year contributes its monthly value to
/// all three buckets, and the yearly total of that contribution is
/// `value * 11 + value + value * 2`, which is fourteen times the value.
pub proof fn lemma_fourteen_payments_total(v: int)
    ensures
        plan_total(v, v, v) == v * 11 + v + v * 2,
        plan_total(v, v, v) == 14 * v,
{
}

} // verus!
