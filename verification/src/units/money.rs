//! Exact fixed-point money and tax rates.
//!
//! A [`Money`] value is a signed count of micro-euros; a [`TaxRate`] is a
//! fraction in parts per million. Applying a rate to an amount multiplies
//! the two counts and floors the result back to micro-euros, the single
//! rounding step of the whole library.

use vstd::arithmetic::div_mod::{
    lemma_div_by_multiple, lemma_div_is_ordered, lemma_div_pos_is_pos,
};
use vstd::arithmetic::mul::{lemma_mul_inequality, lemma_mul_nonnegative, lemma_mul_upper_bound};
use vstd::prelude::*;

verus! {

/// Micro-euros in one euro, and the denominator of a rate in parts per million.
pub const SCALE: u64 = 1_000_000;

/// A rate of exactly one (100%), in parts per million.
pub const RATE_ONE: u64 = 1_000_000;

/// Largest rate the library works with: ten times the base amount.
pub const RATE_LIMIT: u64 = 10_000_000;

/// Operational range of an amount in micro-euros; amounts within it can be
/// scaled by any rate up to [`RATE_LIMIT`] without leaving `i128`.
pub const MONEY_LIMIT: i128 = 1_000_000_000_000_000_000_000_000_000_000;

/// The amount, in micro-euros, that results from applying a rate of `ppm`
/// parts per million to `amount` micro-euros (floor division).
pub open spec fn scaled(amount: int, ppm: int) -> int {
    amount * ppm / (SCALE as int)
}

/// Division truncated toward zero, as machine division of signed counts
/// rounds: the floor quotient for a nonnegative dividend, its mirror image
/// for a negative one.
pub open spec fn div_trunc(a: int, d: int) -> int {
    if a >= 0 {
        a / d
    } else {
        -((-a) / d)
    }
}

/// `max(a - b, 0)`: the positive part of a difference.
pub open spec fn pos_diff(a: int, b: int) -> int {
    if a >= b {
        a - b
    } else {
        0
    }
}

/// Bounds of one rate application, shared by every function that scales an
/// amount by a rate.
pub proof fn lemma_scaled_bounds(amount: int, ppm: int)
    requires
        0 <= amount,
        0 <= ppm <= RATE_LIMIT,
    ensures
        0 <= amount * ppm,
        amount * ppm <= amount * (RATE_LIMIT as int),
        0 <= scaled(amount, ppm) <= 10 * amount,
        ppm <= RATE_ONE ==> scaled(amount, ppm) <= amount,
        ppm == RATE_ONE ==> scaled(amount, ppm) == amount,
{
    lemma_mul_nonnegative(amount, ppm);
    lemma_mul_upper_bound(amount, amount, ppm, RATE_LIMIT as int);
    lemma_mul_inequality(ppm, RATE_LIMIT as int, amount);
    assert(amount * (RATE_LIMIT as int) == (10 * amount) * (SCALE as int)) by (nonlinear_arith);
    lemma_div_pos_is_pos(amount * ppm, SCALE as int);
    lemma_div_is_ordered(amount * ppm, (10 * amount) * (SCALE as int), SCALE as int);
    lemma_div_by_multiple(10 * amount, SCALE as int);
    if ppm <= RATE_ONE {
        lemma_mul_inequality(ppm, RATE_ONE as int, amount);
        assert(amount * (RATE_ONE as int) == amount * (SCALE as int)) by (nonlinear_arith);
        lemma_div_is_ordered(amount * ppm, amount * (SCALE as int), SCALE as int);
        lemma_div_by_multiple(amount, SCALE as int);
    }
}

/// A monetary amount: a signed count of micro-euros.
///
/// The view of a `Money` is that count as a mathematical integer.
#[derive(Clone, Copy, Debug, PartialEq, Eq, Structural, PartialOrd, Ord, Hash)]
pub struct Money {
    micros: i128,
}

impl View for Money {
    type V = int;

    closed spec fn view(&self) -> int {
        self.micros as int
    }
}

impl Money {
    /// The amount lies in the range every arithmetic operation accepts.
    pub open spec fn ok(self) -> bool {
        -(MONEY_LIMIT as int) <= self@ <= MONEY_LIMIT as int
    }

    /// An amount given directly in micro-euros.
    pub fn from_micros(micros: i128) -> (m: Money)
        ensures
            m@ == micros,
    {
        Money { micros }
    }

    /// An amount given in cents of a euro.
    pub fn from_cents(cents: i64) -> (m: Money)
        ensures
            m@ == cents * 10_000,
    {
        Money { micros: (cents as i128) * 10_000 }
    }

    /// The zero amount.
    pub fn zero() -> (m: Money)
        ensures
            m@ == 0,
    {
        Money { micros: 0 }
    }

    /// The amount as a count of micro-euros.
    pub fn micros(&self) -> (r: i128)
        ensures
            r == self@,
    {
        self.micros
    }

    /// The whole-cent part of the amount, truncated toward zero.
    pub fn cents_trunc(&self) -> (r: i128)
        requires
            self.ok(),
        ensures
            r == div_trunc(self@, 10_000),
    {
        if self.micros >= 0 {
            ((self.micros as u128) / 10_000) as i128
        } else {
            -((((-self.micros) as u128) / 10_000) as i128)
        }
    }

    /// Sum of two amounts.
    pub fn add(self, rhs: Money) -> (r: Money)
        requires
            self.ok(),
            rhs.ok(),
        ensures
            r@ == self@ + rhs@,
    {
        Money { micros: self.micros + rhs.micros }
    }

    /// Difference of two amounts.
    pub fn sub(self, rhs: Money) -> (r: Money)
        requires
            self.ok(),
            rhs.ok(),
        ensures
            r@ == self@ - rhs@,
    {
        Money { micros: self.micros - rhs.micros }
    }

    /// The negated amount.
    pub fn neg(self) -> (r: Money)
        requires
            self.ok(),
        ensures
            r@ == -self@,
    {
        Money { micros: -self.micros }
    }

    /// The absolute value of the amount.
    pub fn abs(&self) -> (r: Money)
        requires
            self.ok(),
        ensures
            r@ == if self@ >= 0 { self@ } else { -self@ },
    {
        if self.micros >= 0 {
            *self
        } else {
            Money { micros: -self.micros }
        }
    }

    /// `max(self - rhs, 0)`: how far `self` exceeds `rhs`, or zero.
    pub fn positive_difference(self, rhs: Money) -> (r: Money)
        requires
            self.ok(),
            rhs.ok(),
        ensures
            r@ == pos_diff(self@, rhs@),
    {
        if self.micros >= rhs.micros {
            Money { micros: self.micros - rhs.micros }
        } else {
            Money { micros: 0 }
        }
    }

    /// Whether `self <= rhs`.
    pub fn le(&self, rhs: &Money) -> (r: bool)
        ensures
            r == (self@ <= rhs@),
    {
        self.micros <= rhs.micros
    }

    /// Whether `self < rhs`.
    pub fn lt(&self, rhs: &Money) -> (r: bool)
        ensures
            r == (self@ < rhs@),
    {
        self.micros < rhs.micros
    }

    /// The amount scaled by a rate: `self * rate`, floored to micro-euros.
    pub fn times_rate(&self, rate: TaxRate) -> (r: Money)
        requires
            0 <= self@ <= MONEY_LIMIT as int,
            rate@ <= RATE_LIMIT,
        ensures
            r@ == scaled(self@, rate@),
            0 <= r@ <= 10 * self@,
            rate@ <= RATE_ONE ==> r@ <= self@,
    {
        proof {
            lemma_scaled_bounds(self@, rate@);
        }
        let p: u128 = (self.micros as u128) * (rate.ppm as u128);
        let q: u128 = p / (SCALE as u128);
        Money { micros: q as i128 }
    }

    /// The amount multiplied by a plain integer factor.
    pub fn times_int(&self, k: u64) -> (r: Money)
        requires
            self.ok(),
            k <= SCALE,
        ensures
            r@ == self@ * k,
            -(MONEY_LIMIT as int) * (SCALE as int) <= r@ <= (MONEY_LIMIT as int) * (SCALE as int),
    {
        proof {
            lemma_mul_bounds_symmetric(self@, MONEY_LIMIT as int, k as int, SCALE as int);
        }
        Money { micros: self.micros * (k as i128) }
    }

    /// The amount divided by a plain positive integer, truncated toward
    /// zero.
    pub fn div_int(&self, d: u64) -> (r: Money)
        requires
            i128::MIN < self@,
            1 <= d,
        ensures
            r@ == div_trunc(self@, d as int),
            0 <= self@ ==> 0 <= r@ <= self@,
            self@ <= 0 ==> self@ <= r@ <= 0,
    {
        if self.micros >= 0 {
            proof {
                lemma_div_pos_is_pos(self@, d as int);
                vstd::arithmetic::div_mod::lemma_div_nonincreasing(self@, d as int);
            }
            let q: u128 = (self.micros as u128) / (d as u128);
            Money { micros: q as i128 }
        } else {
            proof {
                lemma_div_pos_is_pos(-self@, d as int);
                vstd::arithmetic::div_mod::lemma_div_nonincreasing(-self@, d as int);
            }
            let q: u128 = ((-self.micros) as u128) / (d as u128);
            Money { micros: -(q as i128) }
        }
    }
}

/// `|a| <= abound` and `0 <= k <= kbound` bound the product `a * k` by
/// `abound * kbound` in absolute value.
pub proof fn lemma_mul_bounds_symmetric(a: int, abound: int, k: int, kbound: int)
    requires
        -abound <= a <= abound,
        0 <= abound,
        0 <= k <= kbound,
    ensures
        -(abound * kbound) <= a * k <= abound * kbound,
{
    assert(-(abound * kbound) <= a * k <= abound * kbound) by (nonlinear_arith)
        requires
            -abound <= a <= abound,
            0 <= abound,
            0 <= k <= kbound,
    ;
}

/// The amount with the given micro-euro count, for writing concrete
/// amounts inside specifications.
pub closed spec fn money_from(micros: int) -> Money {
    Money { micros: micros as i128 }
}

/// The view of a spec-level amount is its micro-euro count, whenever the
/// count fits the machine representation.
pub broadcast proof fn lemma_money_from_view(micros: int)
    requires
        i128::MIN <= micros <= i128::MAX,
    ensures
        (#[trigger] money_from(micros))@ == micros,
{
}

/// Two amounts with the same view are the same amount.
pub proof fn lemma_money_view_injective(a: Money, b: Money)
    requires
        a@ == b@,
    ensures
        a == b,
{
}

/// Range of every [`Money`] view: the value a signed 128-bit count can hold.
pub broadcast proof fn lemma_money_view_range(m: Money)
    ensures
        i128::MIN <= #[trigger] m@ <= i128::MAX,
{
}

/// Range of every [`TaxRate`] view: the value an unsigned 64-bit count can
/// hold.
pub broadcast proof fn lemma_rate_view_range(r: TaxRate)
    ensures
        0 <= #[trigger] r@ <= u64::MAX,
{
}

/// A tax rate in parts per million of the base amount.
///
/// The view of a `TaxRate` is that count as a mathematical integer.
#[derive(Clone, Copy, Debug, PartialEq, Eq, Structural, PartialOrd, Ord, Hash)]
pub struct TaxRate {
    ppm: u64,
}

impl View for TaxRate {
    type V = int;

    closed spec fn view(&self) -> int {
        self.ppm as int
    }
}

impl TaxRate {
    /// A rate given in parts per million.
    pub fn from_ppm(ppm: u64) -> (r: TaxRate)
        ensures
            r@ == ppm,
    {
        TaxRate { ppm }
    }

    /// The zero rate.
    pub fn zero() -> (r: TaxRate)
        ensures
            r@ == 0,
    {
        TaxRate { ppm: 0 }
    }

    /// The rate as a count of parts per million.
    pub fn ppm(&self) -> (r: u64)
        ensures
            r == self@,
    {
        self.ppm
    }

    /// Sum of two rates.
    pub fn add(self, rhs: TaxRate) -> (r: TaxRate)
        requires
            self@ + rhs@ <= RATE_LIMIT,
        ensures
            r@ == self@ + rhs@,
    {
        TaxRate { ppm: self.ppm + rhs.ppm }
    }

    /// One plus the rate: the factor that applies the rate on top of the
    /// base amount.
    pub fn one_plus(self) -> (r: TaxRate)
        requires
            self@ + RATE_ONE <= RATE_LIMIT,
        ensures
            r@ == RATE_ONE + self@,
    {
        TaxRate { ppm: RATE_ONE + self.ppm }
    }
}

} // verus!
