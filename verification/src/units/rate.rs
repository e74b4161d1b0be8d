//! Payment frequencies and frequency-tagged monetary quantities.
//!
//! A [`Rate`] pairs an amount with the [`Frequency`] at which it is paid.
//! Quantities of equal frequency combine directly; quantities of different
//! frequencies must first be normalized explicitly, generally to yearly.
//! Equality and ordering always compare yearly-normalized values.

use crate::units::money::{div_trunc, Money};
use crate::units::UnitsError;
use vstd::arithmetic::div_mod::lemma_div_multiples_vanish;
use vstd::arithmetic::mul::{lemma_mul_is_commutative, lemma_mul_nonnegative};
use vstd::prelude::*;

verus! {

/// How often a quantity recurs within a year.
#[derive(Clone, Copy, Debug, PartialEq, Eq, Structural, Hash)]
pub enum Frequency {
    /// Paid once a year.
    Yearly,
    /// Paid twelve times a year.
    Monthly,
    /// Paid eleven times a year.
    Monthly11,
    /// Paid fourteen times a year: the common Portuguese salary calendar
    /// with holiday and Christmas installments.
    Monthly14,
    /// Paid for each hour of a forty-hour week, every week of the year.
    Hourly,
    /// Paid once per working day of the year.
    Workdaily,
}

/// How many payments of the given frequency make up a year.
pub open spec fn freq_ratio(f: Frequency) -> int {
    match f {
        Frequency::Yearly => 1,
        Frequency::Monthly => 12,
        Frequency::Monthly11 => 11,
        Frequency::Monthly14 => 14,
        Frequency::Hourly => (40 * 52) as int,
        Frequency::Workdaily => (251 - 22) as int,
    }
}

/// The yearly-normalized value of an amount paid with frequency `f`.
pub open spec fn to_yearly(v: int, f: Frequency) -> int {
    v * freq_ratio(f)
}

/// The value of an amount after retagging it from frequency `from` to
/// frequency `to`: scale up to yearly, then divide by the target ratio,
/// truncating toward zero.
pub open spec fn change_spec(v: int, from: Frequency, to: Frequency) -> int {
    div_trunc(v * freq_ratio(from), freq_ratio(to))
}

/// Whether the frequency is one of the monthly payment calendars.
pub open spec fn is_monthly(f: Frequency) -> bool {
    f == Frequency::Monthly || f == Frequency::Monthly11 || f == Frequency::Monthly14
}

impl Frequency {
    /// The number of payments of this frequency in a year.
    pub fn ratio_to_yearly(self) -> (r: u64)
        ensures
            r == freq_ratio(self),
            1 <= r <= 2080,
    {
        match self {
            Frequency::Yearly => 1,
            Frequency::Monthly => 12,
            Frequency::Monthly11 => 11,
            Frequency::Monthly14 => 14,
            Frequency::Hourly => 40 * 52,
            Frequency::Workdaily => 251 - 22,
        }
    }
}

/// Working days of the named calendar year that remain after subtracting the
/// worker's vacation days.
pub fn actual_workdays_in_year(year: u32, vacation_days: u32) -> (r: u32)
    requires
        year == 2022,
        vacation_days <= 251,
    ensures
        r == 251 - vacation_days,
{
    251 - vacation_days
}

/// An amount paid with a certain frequency.
#[derive(Clone, Copy, Debug)]
pub struct Rate {
    /// The amount of one payment.
    pub value: Money,
    /// How often the payment recurs.
    pub freq: Frequency,
}

impl Rate {
    /// The amount lies in the range the arithmetic operations accept.
    pub open spec fn ok(self) -> bool {
        self.value.ok()
    }

    /// The yearly-normalized value of this quantity.
    pub open spec fn yearly_value(self) -> int {
        to_yearly(self.value@, self.freq)
    }

    /// A quantity from an amount and a frequency.
    pub fn new(value: Money, freq: Frequency) -> (r: Rate)
        ensures
            r.value == value,
            r.freq == freq,
    {
        Rate { value, freq }
    }

    /// A yearly quantity.
    pub fn new_yearly(value: Money) -> (r: Rate)
        ensures
            r.value == value,
            r.freq == Frequency::Yearly,
    {
        Rate { value, freq: Frequency::Yearly }
    }

    /// The zero yearly quantity.
    pub fn zero() -> (r: Rate)
        ensures
            r.value@ == 0,
            r.freq == Frequency::Yearly,
    {
        Rate { value: Money::zero(), freq: Frequency::Yearly }
    }

    /// The amount of one payment.
    pub fn value(&self) -> (r: Money)
        ensures
            r == self.value,
    {
        self.value
    }

    /// A reference to the amount of one payment.
    pub fn value_ref(&self) -> (r: &Money)
        ensures
            r == self.value,
    {
        &self.value
    }

    /// The same quantity expressed as a yearly payment.
    pub fn as_yearly(&self) -> (r: Rate)
        requires
            self.ok(),
        ensures
            r.freq == Frequency::Yearly,
            r.value@ == self.yearly_value(),
    {
        Rate { value: self.value.times_int(self.freq.ratio_to_yearly()), freq: Frequency::Yearly }
    }

    /// Retags the quantity to the given frequency, rescaling the amount by
    /// the ratio of the two frequencies (truncating toward zero).
    pub fn change_frequency(&mut self, freq: Frequency)
        requires
            old(self).ok(),
        ensures
            final(self).freq == freq,
            final(self).value@ == change_spec(old(self).value@, old(self).freq, freq),
    {
        let src = self.freq.ratio_to_yearly();
        let tgt = freq.ratio_to_yearly();
        self.value = self.value.times_int(src).div_int(tgt);
        self.freq = freq;
    }

    /// Sum of two quantities of the same frequency; quantities of different
    /// frequencies do not combine directly.
    pub fn add(&self, rhs: &Rate) -> (r: Result<Rate, UnitsError>)
        requires
            self.ok(),
            rhs.ok(),
        ensures
            r is Ok <==> self.freq == rhs.freq,
            r is Ok ==> r->Ok_0.freq == self.freq && r->Ok_0.value@ == self.value@ + rhs.value@,
            r is Err ==> r->Err_0 == UnitsError::PeriodIsDifferent,
    {
        if self.freq == rhs.freq {
            Ok(Rate { value: self.value.add(rhs.value), freq: self.freq })
        } else {
            Err(UnitsError::PeriodIsDifferent)
        }
    }

    /// Difference of two quantities of the same frequency.
    pub fn sub(&self, rhs: &Rate) -> (r: Result<Rate, UnitsError>)
        requires
            self.ok(),
            rhs.ok(),
        ensures
            r is Ok <==> self.freq == rhs.freq,
            r is Ok ==> r->Ok_0.freq == self.freq && r->Ok_0.value@ == self.value@ - rhs.value@,
            r is Err ==> r->Err_0 == UnitsError::PeriodIsDifferent,
    {
        if self.freq == rhs.freq {
            Ok(Rate { value: self.value.sub(rhs.value), freq: self.freq })
        } else {
            Err(UnitsError::PeriodIsDifferent)
        }
    }

    /// The quantity scaled by an integer factor; the frequency is kept.
    pub fn times_int(&self, k: u64) -> (r: Rate)
        requires
            self.ok(),
            k <= crate::units::money::SCALE,
        ensures
            r.freq == self.freq,
            r.value@ == self.value@ * k,
    {
        Rate { value: self.value.times_int(k), freq: self.freq }
    }

    /// The quantity divided by a positive integer, truncated toward zero;
    /// the frequency is kept.
    pub fn div_int(&self, d: u64) -> (r: Rate)
        requires
            i128::MIN < self.value@,
            1 <= d,
        ensures
            r.freq == self.freq,
            r.value@ == div_trunc(self.value@, d as int),
    {
        Rate { value: self.value.div_int(d), freq: self.freq }
    }

    /// The negated quantity; the frequency is kept.
    pub fn neg(&self) -> (r: Rate)
        requires
            self.ok(),
        ensures
            r.freq == self.freq,
            r.value@ == -self.value@,
    {
        Rate { value: self.value.neg(), freq: self.freq }
    }

    /// The quantity scaled by a tax rate; the frequency is kept.
    pub fn times_rate(&self, rate: crate::units::money::TaxRate) -> (r: Rate)
        requires
            0 <= self.value@ <= crate::units::money::MONEY_LIMIT as int,
            rate@ <= crate::units::money::RATE_LIMIT,
        ensures
            r.freq == self.freq,
            r.value@ == crate::units::money::scaled(self.value@, rate@),
    {
        Rate { value: self.value.times_rate(rate), freq: self.freq }
    }

    /// Whether the two quantities have the same yearly-normalized value.
    pub fn eq(&self, rhs: &Rate) -> (r: bool)
        requires
            self.ok(),
            rhs.ok(),
        ensures
            r == (self.yearly_value() == rhs.yearly_value()),
    {
        self.as_yearly().value.micros() == rhs.as_yearly().value.micros()
    }

    /// Orders the two quantities by their yearly-normalized values.
    pub fn partial_cmp(&self, rhs: &Rate) -> (r: Option<core::cmp::Ordering>)
        requires
            self.ok(),
            rhs.ok(),
        ensures
            r is Some,
            r->0 == core::cmp::Ordering::Less <==> self.yearly_value() < rhs.yearly_value(),
            r->0 == core::cmp::Ordering::Equal <==> self.yearly_value() == rhs.yearly_value(),
            r->0 == core::cmp::Ordering::Greater <==> self.yearly_value() > rhs.yearly_value(),
    {
        let a = self.as_yearly().value.micros();
        let b = rhs.as_yearly().value.micros();
        if a < b {
            Some(core::cmp::Ordering::Less)
        } else if a == b {
            Some(core::cmp::Ordering::Equal)
        } else {
            Some(core::cmp::Ordering::Greater)
        }
    }
}

/// Normalizing to yearly is idempotent: a yearly quantity normalizes to
/// itself, so normalizing twice equals normalizing once.
pub proof fn lemma_as_yearly_idempotent(v: int, f: Frequency)
    ensures
        to_yearly(to_yearly(v, f), Frequency::Yearly) == to_yearly(v, f),
{
}

/// Converting a quantity to yearly and then retagging the result back to the
/// original frequency recovers the original value exactly, for positive and
/// negative amounts alike.
pub proof fn lemma_yearly_round_trip(v: int, f: Frequency)
    ensures
        change_spec(to_yearly(v, f), Frequency::Yearly, f) == v,
{
    let r = freq_ratio(f);
    assert(to_yearly(v, f) * freq_ratio(Frequency::Yearly) == v * r) by {
        lemma_mul_is_commutative(v * r, 1);
    }
    if v >= 0 {
        lemma_mul_nonnegative(v, r);
        lemma_mul_is_commutative(v, r);
        lemma_div_multiples_vanish(v, r);
    } else {
        assert(-(v * r) == (-v) * r && v * r < 0) by (nonlinear_arith)
            requires
                v < 0,
                1 <= r,
        ;
        lemma_mul_is_commutative(-v, r);
        lemma_div_multiples_vanish(-v, r);
    }
}

impl Default for Rate {
    /// The zero yearly quantity.
    fn default() -> (r: Self)
        ensures
            r.value@ == 0,
            r.freq == Frequency::Yearly,
    {
        Rate::zero()
    }
}

} // verus!
