//! Progressive marginal-bracket income taxation.
//!
//! A table is an ascending sequence of bounded brackets plus the marginal
//! rate of the unbounded top bracket. The tax owed on a yearly taxable
//! amount, after an exempt floor is subtracted, is the sum of each
//! bracket's rate applied to the slice of the amount that falls inside it.
//! The whole sum is accumulated in micro-euro × parts-per-million units and
//! floored back to micro-euros by one final division.

use crate::units::money::{pos_diff, Money, TaxRate, MONEY_LIMIT, RATE_LIMIT, RATE_ONE, SCALE};
use crate::units::rate::{Frequency, Rate};
use vstd::arithmetic::div_mod::{
    lemma_div_by_multiple, lemma_div_is_ordered, lemma_div_pos_is_pos, lemma_fundamental_div_mod,
    lemma_hoist_over_denominator, lemma_mod_division_less_than_divisor,
};
use vstd::arithmetic::mul::{
    lemma_mul_inequality, lemma_mul_is_commutative, lemma_mul_is_distributive_sub,
    lemma_mul_nonnegative,
};
use vstd::prelude::*;

verus! {

broadcast use {crate::units::money::lemma_money_view_range, crate::units::money::lemma_rate_view_range};

/// Yearly exempt floor subtracted from taxable income before the brackets
/// apply, in micro-euros (4104.00 of the modeled currency).
pub const IRS_EXEMPT_FLOOR: i128 = 4_104_000_000;

/// One bracket: the slice of income up to `bound` (and above the previous
/// bracket's bound) is taxed at the marginal rate `tax`.
#[derive(Clone, Copy, Debug)]
pub struct Bracket {
    /// Upper bound of the bracket, as a yearly amount.
    pub bound: Money,
    /// Marginal rate applied within the bracket.
    pub tax: TaxRate,
}

impl Bracket {
    /// A bracket from its yearly upper bound and marginal rate.
    pub fn new(bound: Money, tax: TaxRate) -> (r: Bracket)
        ensures
            r.bound == bound,
            r.tax == tax,
    {
        Bracket { bound, tax }
    }

    /// The upper bound of the bracket as a yearly quantity.
    pub fn rate(self) -> (r: Rate)
        ensures
            r.value == self.bound,
            r.freq == Frequency::Yearly,
    {
        Rate::new_yearly(self.bound)
    }

    /// The marginal rate of the bracket.
    pub fn tax(self) -> (r: TaxRate)
        ensures
            r == self.tax,
    {
        self.tax
    }
}

/// Well-formedness of the bounded brackets: bounds within range and
/// ascending, marginal rates at most one.
pub open spec fn brackets_wf(s: Seq<Bracket>) -> bool {
    &&& forall|i: int|
        0 <= i < s.len() ==> 0 <= (#[trigger] s[i]).bound@ <= MONEY_LIMIT as int && s[i].tax@
            <= RATE_ONE
    &&& forall|i: int| 0 < i < s.len() ==> s[i - 1].bound@ <= (#[trigger] s[i]).bound@
}

/// An ordered bracket table: the bounded brackets, ascending by bound, and
/// the marginal rate of the unbounded bracket above them all.
#[derive(Clone, Debug)]
pub struct BracketTable {
    /// The bounded brackets, ascending by bound.
    pub brackets: Vec<Bracket>,
    /// Marginal rate of the unbounded top bracket.
    pub top_tax: TaxRate,
}

impl BracketTable {
    /// The table is well formed.
    pub open spec fn wf(self) -> bool {
        &&& brackets_wf(self.brackets@)
        &&& self.top_tax@ <= RATE_ONE
    }

    /// An empty table: every amount is taxed at the given flat rate.
    pub fn new(top_tax: TaxRate) -> (t: BracketTable)
        requires
            top_tax@ <= RATE_ONE,
        ensures
            t.wf(),
            t.brackets@.len() == 0,
            t.top_tax == top_tax,
    {
        BracketTable { brackets: Vec::new(), top_tax }
    }

    /// Appends a bracket above all brackets pushed so far.
    pub fn push_bracket(&mut self, bound: Money, tax: TaxRate)
        requires
            old(self).wf(),
            0 <= bound@ <= MONEY_LIMIT as int,
            tax@ <= RATE_ONE,
            old(self).brackets@.len() > 0 ==> old(self).brackets@.last().bound@ <= bound@,
        ensures
            final(self).wf(),
            final(self).brackets@ == old(self).brackets@.push(Bracket { bound, tax }),
            final(self).top_tax == old(self).top_tax,
    {
        self.brackets.push(Bracket { bound, tax });
    }
}

/// The tax owed on amount `a`, in micro-euro × parts-per-million units,
/// summed over the brackets of `s` that start at the previous bound `prev`,
/// with `top` the marginal rate above the last bound.
pub open spec fn taxes_scaled(a: int, s: Seq<Bracket>, top: int, prev: int) -> int
    decreases s.len(),
{
    if s.len() == 0 {
        top * (a - prev)
    } else if a < s[0].bound@ {
        s[0].tax@ * (a - prev)
    } else {
        s[0].tax@ * (s[0].bound@ - prev) + taxes_scaled(a, s.skip(1), top, s[0].bound@)
    }
}

/// The scaled tax owed on a taxable amount `a` under a whole table.
pub open spec fn taxes_scaled_total(a: int, t: BracketTable) -> int {
    taxes_scaled(a, t.brackets@, t.top_tax@, 0)
}

/// The tax owed on a yearly income, in micro-euros: the exempt floor is
/// subtracted (clamping at zero), the brackets are applied, and the scaled
/// sum is floored back to micro-euros.
pub open spec fn taxes_micros(income: int, t: BracketTable) -> int {
    taxes_scaled_total(pos_diff(income, IRS_EXEMPT_FLOOR as int), t) / (SCALE as int)
}

/// The index of the first bracket whose bound exceeds `a`, or the length of
/// the sequence when `a` reaches the unbounded top bracket.
pub open spec fn bracket_index(a: int, s: Seq<Bracket>) -> int
    decreases s.len(),
{
    if s.len() == 0 {
        0
    } else if a < s[0].bound@ {
        0
    } else {
        1 + bracket_index(a, s.skip(1))
    }
}

/// Every marginal rate of the brackets is at most `m`.
pub open spec fn rates_bounded(s: Seq<Bracket>, m: int) -> bool {
    forall|i: int| 0 <= i < s.len() ==> (#[trigger] s[i]).tax@ <= m
}

/// Monotonicity, the Lipschitz bound and nonnegativity of the scaled
/// bracket sum: between two amounts the tax grows by at least zero and by
/// at most `m` per unit of amount, for any `m` that bounds every marginal
/// rate of the table.
pub proof fn lemma_taxes_scaled_bounds_by(
    a1: int,
    a2: int,
    s: Seq<Bracket>,
    top: int,
    prev: int,
    m: int,
)
    requires
        brackets_wf(s),
        rates_bounded(s, m),
        0 <= top <= m,
        s.len() > 0 ==> prev <= s[0].bound@,
        prev <= a1 <= a2,
    ensures
        0 <= taxes_scaled(a1, s, top, prev) <= m * (a1 - prev),
        0 <= taxes_scaled(a2, s, top, prev) - taxes_scaled(a1, s, top, prev) <= m * (a2 - a1),
    decreases s.len(),
{
    if s.len() == 0 {
        lemma_mul_nonnegative(top, a1 - prev);
        lemma_mul_inequality(top, m, a1 - prev);
        lemma_mul_is_distributive_sub(top, a2 - prev, a1 - prev);
        lemma_mul_nonnegative(top, a2 - a1);
        lemma_mul_inequality(top, m, a2 - a1);
    } else {
        let b0 = s[0].bound@;
        let t0 = s[0].tax@;
        assert(0 <= t0 <= m && 0 <= b0);
        if a2 < b0 {
            lemma_mul_nonnegative(t0, a1 - prev);
            lemma_mul_inequality(t0, m, a1 - prev);
            lemma_mul_is_distributive_sub(t0, a2 - prev, a1 - prev);
            lemma_mul_nonnegative(t0, a2 - a1);
            lemma_mul_inequality(t0, m, a2 - a1);
        } else {
            let rest = s.skip(1);
            assert(brackets_wf(rest)) by {
                assert(forall|i: int| 0 <= i < rest.len() ==> rest[i] == s[i + 1]);
            }
            assert(rest.len() > 0 ==> b0 <= rest[0].bound@);
            if a1 < b0 {
                // a1 stops inside the first bracket, a2 goes past it.
                assert(rates_bounded(rest, m)) by {
                    assert(forall|i: int| 0 <= i < rest.len() ==> rest[i] == s[i + 1]);
                }
                lemma_taxes_scaled_bounds_by(a2, a2, rest, top, b0, m);
                lemma_mul_nonnegative(t0, a1 - prev);
                lemma_mul_inequality(t0, m, a1 - prev);
                lemma_mul_nonnegative(t0, b0 - prev);
                lemma_mul_inequality(t0, m, b0 - prev);
                lemma_mul_is_distributive_sub(t0, b0 - prev, a1 - prev);
                lemma_mul_nonnegative(t0, b0 - a1);
                lemma_mul_inequality(t0, m, b0 - a1);
                assert(m * (b0 - a1) + m * (a2 - b0) == m * (a2 - a1)) by {
                    lemma_mul_is_distributive_sub(m, b0, a1);
                    lemma_mul_is_distributive_sub(m, a2, b0);
                    lemma_mul_is_distributive_sub(m, a2, a1);
                }
            } else {
                // Both amounts go past the first bracket.
                assert(rates_bounded(rest, m)) by {
                    assert(forall|i: int| 0 <= i < rest.len() ==> rest[i] == s[i + 1]);
                }
                lemma_taxes_scaled_bounds_by(a1, a2, rest, top, b0, m);
                lemma_mul_nonnegative(t0, b0 - prev);
                lemma_mul_inequality(t0, m, b0 - prev);
                assert(m * (b0 - prev) + m * (a1 - b0) == m * (a1 - prev)) by {
                    lemma_mul_is_distributive_sub(m, b0, prev);
                    lemma_mul_is_distributive_sub(m, a1, b0);
                    lemma_mul_is_distributive_sub(m, a1, prev);
                }
            }
        }
    }
}

/// The bounds above with the full rate of one, as every well-formed table
/// admits.
pub proof fn lemma_taxes_scaled_bounds(a1: int, a2: int, s: Seq<Bracket>, top: int, prev: int)
    requires
        brackets_wf(s),
        0 <= top <= RATE_ONE,
        s.len() > 0 ==> prev <= s[0].bound@,
        prev <= a1 <= a2,
    ensures
        0 <= taxes_scaled(a1, s, top, prev) <= RATE_ONE * (a1 - prev),
        0 <= taxes_scaled(a2, s, top, prev) - taxes_scaled(a1, s, top, prev) <= RATE_ONE * (a2
            - a1),
{
    assert(rates_bounded(s, RATE_ONE as int));
    lemma_taxes_scaled_bounds_by(a1, a2, s, top, prev, RATE_ONE as int);
}

/// The bracket tax is zero up to the exempt floor, never decreases with
/// income, and never grows faster than income itself: it is a continuous,
/// non-decreasing, 1-Lipschitz function of the yearly amount.
pub proof fn lemma_taxes_monotone_continuous(income1: int, income2: int, t: BracketTable)
    requires
        t.wf(),
        income1 <= income2,
    ensures
        income1 <= IRS_EXEMPT_FLOOR ==> taxes_micros(income1, t) == 0,
        0 <= taxes_micros(income1, t) <= taxes_micros(income2, t),
        taxes_micros(income2, t) - taxes_micros(income1, t) <= income2 - income1,
{
    let a1 = pos_diff(income1, IRS_EXEMPT_FLOOR as int);
    let a2 = pos_diff(income2, IRS_EXEMPT_FLOOR as int);
    let s = t.brackets@;
    let top = t.top_tax@;
    lemma_taxes_scaled_bounds(a1, a2, s, top, 0);
    let t1 = taxes_scaled(a1, s, top, 0);
    let t2 = taxes_scaled(a2, s, top, 0);
    lemma_div_pos_is_pos(t1, SCALE as int);
    lemma_div_is_ordered(t1, t2, SCALE as int);
    if income1 <= IRS_EXEMPT_FLOOR {
        assert(a1 == 0);
        assert(t1 == 0);
    }
    // Lipschitz across the final floor division: t2 <= t1 + RATE_ONE * (a2 - a1)
    // and RATE_ONE == SCALE, so the quotients differ by at most a2 - a1.
    assert(RATE_ONE * (a2 - a1) == (a2 - a1) * (SCALE as int)) by (nonlinear_arith);
    lemma_div_is_ordered(t2, t1 + (a2 - a1) * (SCALE as int), SCALE as int);
    lemma_hoist_over_denominator(t1, a2 - a1, SCALE as nat);
    assert(a2 - a1 <= income2 - income1);
}

/// The sharper Lipschitz bound: the tax grows at most by the largest
/// marginal rate per unit of income. For any `m` bounding every rate of the
/// table, the scaled sum grows by at most `m` per unit, and the floored
/// micro-euro tax by at most the corresponding quotient plus one micro-euro
/// of rounding.
pub proof fn lemma_taxes_lipschitz_by_max_rate(income1: int, income2: int, t: BracketTable, m: int)
    requires
        t.wf(),
        income1 <= income2,
        rates_bounded(t.brackets@, m),
        0 <= t.top_tax@ <= m,
    ensures
        0 <= taxes_scaled_total(pos_diff(income2, IRS_EXEMPT_FLOOR as int), t)
            - taxes_scaled_total(pos_diff(income1, IRS_EXEMPT_FLOOR as int), t) <= m * (income2
            - income1),
        taxes_micros(income2, t) - taxes_micros(income1, t) <= m * (income2 - income1) / (
        SCALE as int) + 1,
{
    let a1 = pos_diff(income1, IRS_EXEMPT_FLOOR as int);
    let a2 = pos_diff(income2, IRS_EXEMPT_FLOOR as int);
    let s = t.brackets@;
    let top = t.top_tax@;
    let big = SCALE as int;
    lemma_taxes_scaled_bounds_by(a1, a2, s, top, 0, m);
    let t1 = taxes_scaled(a1, s, top, 0);
    let t2 = taxes_scaled(a2, s, top, 0);
    let d = m * (income2 - income1);
    assert(m * (a2 - a1) <= d) by {
        lemma_mul_inequality(a2 - a1, income2 - income1, m);
        lemma_mul_is_commutative(a2 - a1, m);
        lemma_mul_is_commutative(income2 - income1, m);
    }
    lemma_mul_nonnegative(m, income2 - income1);
    // Push the bound through the final floor division: with t1 == big*q + r
    // and r < big, the quotient of t1 + d exceeds the quotient of t1 by at
    // most d/big + 1.
    lemma_fundamental_div_mod(t1, big);
    lemma_mod_division_less_than_divisor(t1, big);
    let q = t1 / big;
    let r = t1 % big;
    assert(t1 + d == big * q + (r + d));
    assert((big * q + (r + d)) / big == q + (r + d) / big) by {
        lemma_hoist_over_denominator(r + d, q, SCALE as nat);
        lemma_mul_is_commutative(q, big);
    }
    assert((r + d) / big <= d / big + 1) by {
        lemma_div_is_ordered(r + d, d + big, big);
        lemma_hoist_over_denominator(d, 1, SCALE as nat);
    }
    lemma_div_is_ordered(t2, t1 + d, big);
}

/// `ppm * seg` computed exactly in executable code.
fn mul_ppm(ppm: u64, seg: i128) -> (r: i128)
    requires
        0 <= seg <= MONEY_LIMIT as int,
        ppm <= RATE_LIMIT,
    ensures
        r == ppm * seg,
        0 <= r,
    {
    proof {
        lemma_mul_nonnegative(ppm as int, seg as int);
        vstd::arithmetic::mul::lemma_mul_upper_bound(
            ppm as int,
            RATE_LIMIT as int,
            seg as int,
            MONEY_LIMIT as int,
        );
    }
    ((ppm as u128) * (seg as u128)) as i128
}

/// Walks the bounded brackets below amount `a`: returns the matched index,
/// the bound below the matched bracket and the scaled tax accumulated over
/// the brackets walked past.
fn walk_brackets(a: i128, table: &BracketTable) -> (r: (usize, i128, i128))
    requires
        table.wf(),
        0 <= a <= MONEY_LIMIT as int,
    ensures
        r.0 == bracket_index(a as int, table.brackets@),
        r.0 <= table.brackets@.len(),
        r.1 == if r.0 == 0 {
            0
        } else {
            table.brackets@[r.0 - 1].bound@
        },
        0 <= r.1 <= a,
        r.0 < table.brackets@.len() ==> a < table.brackets@[r.0 as int].bound@,
        taxes_scaled_total(a as int, *table) == r.2 + taxes_scaled(
            a as int,
            table.brackets@.skip(r.0 as int),
            table.top_tax@,
            r.1 as int,
        ),
        0 <= r.2 <= RATE_ONE * a,
{
    let s_len = table.brackets.len();
    let mut i: usize = 0;
    let mut prev: i128 = 0;
    let mut acc: i128 = 0;
    let ghost s = table.brackets@;
    let ghost top = table.top_tax@;
    proof {
        assert(s.skip(0) == s);
    }
    while i < s_len && table.brackets[i].bound.micros() <= a
        invariant
            table.wf(),
            0 <= a <= MONEY_LIMIT as int,
            s == table.brackets@,
            top == table.top_tax@,
            s_len == s.len(),
            0 <= i <= s_len,
            prev == if i == 0 {
                0int
            } else {
                s[i - 1].bound@
            },
            0 <= prev <= a,
            taxes_scaled_total(a as int, *table) == acc + taxes_scaled(
                a as int,
                s.skip(i as int),
                top,
                prev as int,
            ),
            0 <= acc <= RATE_ONE * a,
            forall|j: int| 0 <= j < i ==> (#[trigger] s[j]).bound@ <= a,
        decreases s_len - i,
    {
        let b = table.brackets[i].bound.micros();
        let t = table.brackets[i].tax.ppm();
        proof {
            assert(s.skip(i as int)[0] == s[i as int]);
            assert(s.skip(i as int).skip(1) == s.skip(i + 1)) by {
                assert(s.skip(i as int).skip(1) =~= s.skip(i + 1));
            }
            assert(brackets_wf(s.skip(i + 1))) by {
                assert(forall|j: int|
                    0 <= j < s.skip(i + 1).len() ==> #[trigger] s.skip(i + 1)[j] == s[i + 1 + j]);
            }
            assert(s.skip(i + 1).len() > 0 ==> s[i as int].bound@ <= s.skip(i + 1)[0].bound@);
            lemma_taxes_scaled_bounds(a as int, a as int, s.skip(i + 1), top, s[i as int].bound@);
            lemma_taxes_scaled_bounds(a as int, a as int, s.skip(i as int), top, prev as int);
            lemma_taxes_scaled_bounds(a as int, a as int, s, top, 0);
        }
        let seg = mul_ppm(t, b - prev);
        acc = acc + seg;
        prev = b;
        i = i + 1;
        proof {
            assert(taxes_scaled(a as int, s.skip(i - 1), top, s[i - 1].bound@ - (s[i
                - 1].bound@ - prev)) == taxes_scaled(a as int, s.skip(i - 1), top, prev as int));
        }
    }
    proof {
        if i < s_len {
            assert(s.skip(i as int)[0] == s[i as int]);
            assert(a < s[i as int].bound@);
            assert(i == bracket_index(a as int, s)) by {
                lemma_bracket_index_split(a as int, s, i as int);
            }
        } else {
            assert(s.skip(i as int).len() == 0);
            assert(i == bracket_index(a as int, s)) by {
                lemma_bracket_index_split(a as int, s, i as int);
            }
        }
        lemma_taxes_scaled_bounds(a as int, a as int, s.skip(i as int), top, prev as int);
    }
    (i, prev, acc)
}

/// When every bracket before `i` has its bound at or below `a`, and either
/// `i` is past the end or bracket `i`'s bound exceeds `a`, then `i` is the
/// matched bracket index for `a`.
proof fn lemma_bracket_index_split(a: int, s: Seq<Bracket>, i: int)
    requires
        0 <= i <= s.len(),
        forall|j: int| 0 <= j < i ==> (#[trigger] s[j]).bound@ <= a,
        i < s.len() ==> a < s[i].bound@,
    ensures
        bracket_index(a, s) == i,
    decreases s.len(),
{
    if s.len() == 0 {
    } else if i == 0 {
    } else {
        assert(s[0].bound@ <= a);
        assert(forall|j: int| 0 <= j < i - 1 ==> (#[trigger] s.skip(1)[j]) == s[j + 1]);
        assert(i - 1 < s.skip(1).len() ==> a < s.skip(1)[i - 1].bound@);
        lemma_bracket_index_split(a, s.skip(1), i - 1);
    }
}

/// The total yearly bracket tax on a yearly taxable income.
///
/// The exempt floor is subtracted first, clamping at zero; the result is
/// between zero and the floored amount itself.
pub fn taxes(income: &Rate, table: &BracketTable) -> (r: Rate)
    requires
        income.freq == Frequency::Yearly,
        income.ok(),
        table.wf(),
    ensures
        r.freq == Frequency::Yearly,
        r.value@ == taxes_micros(income.value@, *table),
        0 <= r.value@ <= pos_diff(income.value@, IRS_EXEMPT_FLOOR as int),
{
    let value = income.value.positive_difference(Money::from_micros(IRS_EXEMPT_FLOOR));
    let a = value.micros();
    let (i, prev, acc) = walk_brackets(a, table);
    let top_rate: u64 = if i < table.brackets.len() {
        table.brackets[i].tax.ppm()
    } else {
        table.top_tax.ppm()
    };
    proof {
        let s = table.brackets@;
        let top = table.top_tax@;
        if i < s.len() {
            assert(s.skip(i as int)[0] == s[i as int]);
        }
        lemma_taxes_scaled_bounds(a as int, a as int, s.skip(i as int), top, prev as int);
        lemma_mul_nonnegative(top_rate as int, a - prev);
        lemma_mul_inequality(top_rate as int, RATE_ONE as int, a - prev);
    }
    let last = mul_ppm(top_rate, a - prev);
    let total: i128 = acc + last;
    proof {
        let s = table.brackets@;
        let top = table.top_tax@;
        if i < s.len() {
            assert(taxes_scaled(a as int, s.skip(i as int), top, prev as int) == s[i as int].tax@
                * (a - prev));
        } else {
            assert(s.skip(i as int).len() == 0);
        }
        assert(total == taxes_scaled_total(a as int, *table));
        lemma_taxes_scaled_bounds(a as int, a as int, s, top, 0);
        lemma_div_pos_is_pos(total as int, SCALE as int);
        assert(RATE_ONE * a == a * (SCALE as int)) by (nonlinear_arith);
        lemma_div_is_ordered(total as int, a * (SCALE as int), SCALE as int);
        lemma_div_by_multiple(a as int, SCALE as int);
    }
    let q: i128 = ((total as u128) / (SCALE as u128)) as i128;
    Rate::new_yearly(Money::from_micros(q))
}

/// The bracket matched by a taxable amount, with the data of the equivalent
/// linear tax formula.
#[derive(Clone, Copy, Debug)]
pub struct BracketMatch {
    /// Index of the matched bracket; the table length when the amount
    /// reaches the unbounded top bracket.
    pub index: usize,
    /// Upper bound of the matched bracket; `None` for the unbounded top.
    pub bound: Option<Money>,
    /// Marginal rate of the matched bracket.
    pub rate: TaxRate,
    /// Constant term of the linear formula, in micro-euro × parts-per-million
    /// units: `rate * amount - deduction` equals the scaled bracket sum.
    pub deduction_scaled: i128,
}

/// Finds the bracket that a yearly taxable amount falls into and the
/// accumulated deduction (`a_abater`) of the equivalent linear tax formula.
///
/// For every amount, the matched rate times the amount minus the returned
/// deduction reproduces the scaled bracket sum exactly; an amount below the
/// first bound matches the first bracket with a zero deduction.
pub fn escalao(amount: &Money, table: &BracketTable) -> (r: BracketMatch)
    requires
        0 <= amount@ <= MONEY_LIMIT as int,
        table.wf(),
    ensures
        r.index == bracket_index(amount@, table.brackets@),
        r.index < table.brackets@.len() ==> r.bound == Some(
            table.brackets@[r.index as int].bound,
        ) && r.rate == table.brackets@[r.index as int].tax,
        r.index == table.brackets@.len() ==> r.bound is None && r.rate == table.top_tax,
        r.rate@ * amount@ - r.deduction_scaled == taxes_scaled_total(amount@, *table),
{
    let a = amount.micros();
    let (i, prev, acc) = walk_brackets(a, table);
    let matched_rate: TaxRate = if i < table.brackets.len() {
        table.brackets[i].tax
    } else {
        table.top_tax
    };
    let bound: Option<Money> = if i < table.brackets.len() {
        Some(table.brackets[i].bound)
    } else {
        None
    };
    proof {
        let s = table.brackets@;
        let top = table.top_tax@;
        if i < s.len() {
            assert(s.skip(i as int)[0] == s[i as int]);
            assert(taxes_scaled(a as int, s.skip(i as int), top, prev as int) == s[i as int].tax@
                * (a - prev));
        } else {
            assert(s.skip(i as int).len() == 0);
        }
        lemma_mul_nonnegative(matched_rate@, prev as int);
        lemma_mul_inequality(matched_rate@, RATE_ONE as int, prev as int);
        lemma_mul_is_distributive_sub(matched_rate@, a as int, a - prev);
    }
    let rp = mul_ppm(matched_rate.ppm(), prev);
    let ded: i128 = rp - acc;
    proof {
        assert(matched_rate@ * (a as int) - matched_rate@ * (a - prev) == matched_rate@
            * (prev as int)) by {
            lemma_mul_is_distributive_sub(matched_rate@, a as int, a - prev);
        }
    }
    BracketMatch { index: i, bound, rate: matched_rate, deduction_scaled: ded }
}

/// The table holds exactly the published 2022 brackets.
pub open spec fn is_brackets_2022(t: BracketTable) -> bool {
    &&& t.brackets@.len() == 8
    &&& t.top_tax@ == 480_000
    &&& t.brackets@[0].bound@ == 7_116_000_000 && t.brackets@[0].tax@ == 145_000
    &&& t.brackets@[1].bound@ == 10_736_000_000 && t.brackets@[1].tax@ == 230_000
    &&& t.brackets@[2].bound@ == 15_216_000_000 && t.brackets@[2].tax@ == 265_000
    &&& t.brackets@[3].bound@ == 19_696_000_000 && t.brackets@[3].tax@ == 285_000
    &&& t.brackets@[4].bound@ == 25_076_000_000 && t.brackets@[4].tax@ == 350_000
    &&& t.brackets@[5].bound@ == 36_757_000_000 && t.brackets@[5].tax@ == 370_000
    &&& t.brackets@[6].bound@ == 48_033_000_000 && t.brackets@[6].tax@ == 435_000
    &&& t.brackets@[7].bound@ == 75_009_000_000 && t.brackets@[7].tax@ == 450_000
}

/// The table holds exactly the published 2021 brackets.
pub open spec fn is_brackets_2021(t: BracketTable) -> bool {
    &&& t.brackets@.len() == 6
    &&& t.top_tax@ == 480_000
    &&& t.brackets@[0].bound@ == 7_112_000_000 && t.brackets@[0].tax@ == 145_000
    &&& t.brackets@[1].bound@ == 10_732_000_000 && t.brackets@[1].tax@ == 230_000
    &&& t.brackets@[2].bound@ == 20_322_000_000 && t.brackets@[2].tax@ == 285_000
    &&& t.brackets@[3].bound@ == 25_075_000_000 && t.brackets@[3].tax@ == 350_000
    &&& t.brackets@[4].bound@ == 36_967_000_000 && t.brackets@[4].tax@ == 370_000
    &&& t.brackets@[5].bound@ == 80_882_000_000 && t.brackets@[5].tax@ == 450_000
}

/// The table holds exactly the published 2019 brackets.
pub open spec fn is_brackets_2019(t: BracketTable) -> bool {
    &&& t.brackets@.len() == 6
    &&& t.top_tax@ == 480_000
    &&& t.brackets@[0].bound@ == 7_091_000_000 && t.brackets@[0].tax@ == 145_000
    &&& t.brackets@[1].bound@ == 10_700_000_000 && t.brackets@[1].tax@ == 230_000
    &&& t.brackets@[2].bound@ == 20_261_000_000 && t.brackets@[2].tax@ == 285_000
    &&& t.brackets@[3].bound@ == 25_000_000_000 && t.brackets@[3].tax@ == 350_000
    &&& t.brackets@[4].bound@ == 36_856_000_000 && t.brackets@[4].tax@ == 370_000
    &&& t.brackets@[5].bound@ == 80_640_000_000 && t.brackets@[5].tax@ == 450_000
}

/// The bracket table of tax year 2022.
pub fn year_2022() -> (t: BracketTable)
    ensures
        t.wf(),
        is_brackets_2022(t),
{
    let mut t = BracketTable::new(TaxRate::from_ppm(480_000));
    t.push_bracket(Money::from_micros(7_116_000_000), TaxRate::from_ppm(145_000));
    t.push_bracket(Money::from_micros(10_736_000_000), TaxRate::from_ppm(230_000));
    t.push_bracket(Money::from_micros(15_216_000_000), TaxRate::from_ppm(265_000));
    t.push_bracket(Money::from_micros(19_696_000_000), TaxRate::from_ppm(285_000));
    t.push_bracket(Money::from_micros(25_076_000_000), TaxRate::from_ppm(350_000));
    t.push_bracket(Money::from_micros(36_757_000_000), TaxRate::from_ppm(370_000));
    t.push_bracket(Money::from_micros(48_033_000_000), TaxRate::from_ppm(435_000));
    t.push_bracket(Money::from_micros(75_009_000_000), TaxRate::from_ppm(450_000));
    t
}

/// The bracket table of tax year 2021.
pub fn year_2021() -> (t: BracketTable)
    ensures
        t.wf(),
        is_brackets_2021(t),
{
    let mut t = BracketTable::new(TaxRate::from_ppm(480_000));
    t.push_bracket(Money::from_micros(7_112_000_000), TaxRate::from_ppm(145_000));
    t.push_bracket(Money::from_micros(10_732_000_000), TaxRate::from_ppm(230_000));
    t.push_bracket(Money::from_micros(20_322_000_000), TaxRate::from_ppm(285_000));
    t.push_bracket(Money::from_micros(25_075_000_000), TaxRate::from_ppm(350_000));
    t.push_bracket(Money::from_micros(36_967_000_000), TaxRate::from_ppm(370_000));
    t.push_bracket(Money::from_micros(80_882_000_000), TaxRate::from_ppm(450_000));
    t
}

/// The bracket table of tax year 2019.
pub fn year_2019() -> (t: BracketTable)
    ensures
        t.wf(),
        is_brackets_2019(t),
{
    let mut t = BracketTable::new(TaxRate::from_ppm(480_000));
    t.push_bracket(Money::from_micros(7_091_000_000), TaxRate::from_ppm(145_000));
    t.push_bracket(Money::from_micros(10_700_000_000), TaxRate::from_ppm(230_000));
    t.push_bracket(Money::from_micros(20_261_000_000), TaxRate::from_ppm(285_000));
    t.push_bracket(Money::from_micros(25_000_000_000), TaxRate::from_ppm(350_000));
    t.push_bracket(Money::from_micros(36_856_000_000), TaxRate::from_ppm(370_000));
    t.push_bracket(Money::from_micros(80_640_000_000), TaxRate::from_ppm(450_000));
    t
}

/// The bracket table of the requested tax year; years without a supplied
/// table are reported, never defaulted.
pub fn brackets_for_year(year: u32) -> (r: Result<BracketTable, crate::irs::IrsError>)
    ensures
        r is Ok <==> (year == 2019 || year == 2021 || year == 2022),
        r is Ok ==> r->Ok_0.wf(),
        year == 2022 && r is Ok ==> is_brackets_2022(r->Ok_0),
        year == 2021 && r is Ok ==> is_brackets_2021(r->Ok_0),
        year == 2019 && r is Ok ==> is_brackets_2019(r->Ok_0),
        r is Err ==> r->Err_0 == crate::irs::IrsError::UnsupportedYear,
{
    if year == 2022 {
        Ok(year_2022())
    } else if year == 2021 {
        Ok(year_2021())
    } else if year == 2019 {
        Ok(year_2019())
    } else {
        Err(crate::irs::IrsError::UnsupportedYear)
    }
}

} // verus!
