//! Withholding-rate lookup tables.
//!
//! A retention table is an ascending sequence of gross-pay thresholds, each
//! carrying one withholding rate per dependents count (zero through five or
//! more), closed off by the rates of the unbounded top row. A monthly gross
//! payment matches the first row whose threshold reaches it; the rate in the
//! matched row under the dependents column is withheld from that payment.
//! Three tables exist per tax year, selected by marital status and by
//! whether a married couple has a single earner.

use crate::irs::IrsError;
use crate::units::money::{
    lemma_money_view_injective, money_from, Money, TaxRate, MONEY_LIMIT, RATE_ONE,
};
use crate::units::rate::{is_monthly, Rate};
use crate::FamilyElement;
use vstd::prelude::*;

verus! {

broadcast use {
    crate::units::money::lemma_money_from_view,
    crate::units::money::lemma_money_view_range,
    crate::units::money::lemma_rate_view_range,
};

/// One withholding rate per dependents count, in parts per million; the
/// last column stands for five or more dependents.
#[derive(Clone, Copy, Debug, PartialEq, Eq, Structural)]
pub struct RateRow {
    /// Rate for no dependents.
    pub d0: u64,
    /// Rate for one dependent.
    pub d1: u64,
    /// Rate for two dependents.
    pub d2: u64,
    /// Rate for three dependents.
    pub d3: u64,
    /// Rate for four dependents.
    pub d4: u64,
    /// Rate for five or more dependents.
    pub d5: u64,
}

impl RateRow {
    /// The rate of the column for `d` dependents.
    pub open spec fn col(self, d: int) -> int {
        if d <= 0 {
            self.d0 as int
        } else if d == 1 {
            self.d1 as int
        } else if d == 2 {
            self.d2 as int
        } else if d == 3 {
            self.d3 as int
        } else if d == 4 {
            self.d4 as int
        } else {
            self.d5 as int
        }
    }

    /// Every column is a rate of at most one.
    pub open spec fn ok(self) -> bool {
        forall|d: int| 0 <= d < 6 ==> #[trigger] self.col(d) <= RATE_ONE as int
    }

    /// A row from its six columns.
    pub fn new(d0: u64, d1: u64, d2: u64, d3: u64, d4: u64, d5: u64) -> (r: RateRow)
        ensures
            r == (RateRow { d0, d1, d2, d3, d4, d5 }),
    {
        RateRow { d0, d1, d2, d3, d4, d5 }
    }

    /// The rate of the column for `d` dependents.
    pub fn at(&self, d: usize) -> (r: u64)
        requires
            d < 6,
        ensures
            r == self.col(d as int),
    {
        if d == 0 {
            self.d0
        } else if d == 1 {
            self.d1
        } else if d == 2 {
            self.d2
        } else if d == 3 {
            self.d3
        } else if d == 4 {
            self.d4
        } else {
            self.d5
        }
    }
}

/// Row `a` is at most row `b` in every column.
pub open spec fn row_le(a: RateRow, b: RateRow) -> bool {
    forall|d: int| 0 <= d < 6 ==> #[trigger] a.col(d) <= b.col(d)
}

/// One threshold row of a retention table.
#[derive(Clone, Copy, Debug, PartialEq, Eq, Structural)]
pub struct RetentionLine {
    /// Gross payments up to this threshold match this row.
    pub limit: Money,
    /// The withholding rates of the row, by dependents count.
    pub rates: RateRow,
}

/// The column used for a household with `n` dependents: `n`, capped at the
/// "five or more" column.
pub open spec fn dep_col(n: int) -> int {
    if n < 5 {
        n
    } else {
        5
    }
}

/// The withholding rate, in parts per million, that a gross payment `g`
/// matches: the rate of the first line whose threshold reaches `g`, in the
/// column for `d` dependents; the top row when no threshold reaches it.
pub open spec fn lookup_ppm(g: int, lines: Seq<RetentionLine>, top: RateRow, d: int) -> int
    decreases lines.len(),
{
    if lines.len() == 0 {
        top.col(d)
    } else if g <= lines[0].limit@ {
        lines[0].rates.col(d)
    } else {
        lookup_ppm(g, lines.skip(1), top, d)
    }
}

/// One withholding table: ascending threshold rows closed by the top row.
#[derive(Clone, Debug)]
pub struct RetentionTable {
    /// The bounded threshold rows, ascending by threshold.
    pub lines: Vec<RetentionLine>,
    /// The rates of the unbounded top row.
    pub top: RateRow,
}

impl RetentionTable {
    /// The table is well formed: thresholds ascend strictly, every rate is
    /// at most one, and every column never decreases from row to row nor
    /// from any row to the top row.
    pub open spec fn wf(self) -> bool {
        &&& forall|i: int|
            0 <= i < self.lines@.len() ==> 0 <= (#[trigger] self.lines@[i]).limit@
                <= MONEY_LIMIT as int && self.lines@[i].rates.ok()
        &&& forall|i: int|
            0 < i < self.lines@.len() ==> self.lines@[i - 1].limit@ < (
            #[trigger] self.lines@[i]).limit@
        &&& forall|i: int, j: int|
            0 <= i <= j < self.lines@.len() ==> row_le(
                (#[trigger] self.lines@[i]).rates,
                (#[trigger] self.lines@[j]).rates,
            )
        &&& forall|i: int|
            0 <= i < self.lines@.len() ==> row_le((#[trigger] self.lines@[i]).rates, self.top)
        &&& self.top.ok()
    }

    /// An empty table: every payment is withheld at the top row's rates.
    pub fn new(top: RateRow) -> (t: RetentionTable)
        requires
            top.ok(),
        ensures
            t.wf(),
            t.lines@.len() == 0,
            t.top == top,
    {
        RetentionTable { lines: Vec::new(), top }
    }

    /// Appends a threshold row above all rows pushed so far.
    pub fn push_line(&mut self, limit: Money, rates: RateRow)
        requires
            old(self).wf(),
            0 <= limit@ <= MONEY_LIMIT as int,
            rates.ok(),
            row_le(rates, old(self).top),
            old(self).lines@.len() > 0 ==> old(self).lines@.last().limit@ < limit@ && row_le(
                old(self).lines@.last().rates,
                rates,
            ),
        ensures
            final(self).wf(),
            final(self).lines@ == old(self).lines@.push(RetentionLine { limit, rates }),
            final(self).lines@.len() == old(self).lines@.len() + 1,
            final(self).lines@.last() == (RetentionLine { limit, rates }),
            final(self).top == old(self).top,
    {
        let ghost pre = self.lines@;
        self.lines.push(RetentionLine { limit, rates });
        proof {
            let post = self.lines@;
            assert forall|i: int, j: int| 0 <= i <= j < post.len() implies row_le(
                (#[trigger] post[i]).rates,
                (#[trigger] post[j]).rates,
            ) by {
                if j < pre.len() {
                } else if i < pre.len() {
                    assert(row_le(pre[i].rates, pre[pre.len() - 1].rates));
                    assert(forall|d: int|
                        0 <= d < 6 ==> #[trigger] post[i].rates.col(d) <= rates.col(d));
                }
            }
        }
    }

    /// The withholding rate that a gross monthly payment matches, in the
    /// column for the given dependents count.
    pub fn rate_for(&self, gross: &Money, dependentes: usize) -> (r: TaxRate)
        requires
            self.wf(),
        ensures
            r@ == lookup_ppm(gross@, self.lines@, self.top, dep_col(dependentes as int)),
            r@ <= RATE_ONE,
    {
        let col: usize = if dependentes < 5 {
            dependentes
        } else {
            5
        };
        let n = self.lines.len();
        let mut i: usize = 0;
        let ghost ls = self.lines@;
        proof {
            assert(ls.skip(0) == ls);
        }
        while i < n && self.lines[i].limit.lt(gross)
            invariant
                self.wf(),
                ls == self.lines@,
                n == ls.len(),
                0 <= i <= n,
                col == dep_col(dependentes as int),
                col < 6,
                lookup_ppm(gross@, ls, self.top, col as int) == lookup_ppm(
                    gross@,
                    ls.skip(i as int),
                    self.top,
                    col as int,
                ),
            decreases n - i,
        {
            proof {
                assert(ls.skip(i as int)[0] == ls[i as int]);
                assert(ls.skip(i as int).skip(1) =~= ls.skip(i + 1));
            }
            i = i + 1;
        }
        if i < n {
            proof {
                assert(ls.skip(i as int)[0] == ls[i as int]);
            }
            TaxRate::from_ppm(self.lines[i].rates.at(col))
        } else {
            proof {
                assert(ls.skip(i as int).len() == 0);
            }
            TaxRate::from_ppm(self.top.at(col))
        }
    }
}

/// Every rate the lookup can return is at least `lo` when every row of the
/// table, top row included, is at least `lo` in the looked-up column.
proof fn lemma_lookup_lower(g: int, lines: Seq<RetentionLine>, top: RateRow, d: int, lo: int)
    requires
        0 <= d < 6,
        forall|i: int| 0 <= i < lines.len() ==> lo <= (#[trigger] lines[i]).rates.col(d),
        lo <= top.col(d),
    ensures
        lo <= lookup_ppm(g, lines, top, d),
    decreases lines.len(),
{
    if lines.len() == 0 {
    } else if g <= lines[0].limit@ {
    } else {
        assert(forall|i: int|
            0 <= i < lines.skip(1).len() ==> #[trigger] lines.skip(1)[i] == lines[i + 1]);
        lemma_lookup_lower(g, lines.skip(1), top, d, lo);
    }
}

/// The withholding lookup is monotonic: for a fixed dependents count, a
/// larger gross payment never matches a smaller rate.
pub proof fn lemma_lookup_monotonic(g1: int, g2: int, t: RetentionTable, d: int)
    requires
        t.wf(),
        g1 <= g2,
        0 <= d < 6,
    ensures
        lookup_ppm(g1, t.lines@, t.top, d) <= lookup_ppm(g2, t.lines@, t.top, d),
{
    lemma_lookup_monotonic_lines(g1, g2, t.lines@, t.top, d);
}

/// The inductive core of the monotonicity lemma, over the rows.
proof fn lemma_lookup_monotonic_lines(
    g1: int,
    g2: int,
    lines: Seq<RetentionLine>,
    top: RateRow,
    d: int,
)
    requires
        0 <= d < 6,
        forall|i: int, j: int|
            0 <= i <= j < lines.len() ==> row_le(
                (#[trigger] lines[i]).rates,
                (#[trigger] lines[j]).rates,
            ),
        forall|i: int| 0 <= i < lines.len() ==> row_le((#[trigger] lines[i]).rates, top),
        g1 <= g2,
    ensures
        lookup_ppm(g1, lines, top, d) <= lookup_ppm(g2, lines, top, d),
    decreases lines.len(),
{
    if lines.len() == 0 {
    } else if g2 <= lines[0].limit@ {
        // Both match the first row.
    } else if g1 <= lines[0].limit@ {
        // g1 matches the first row, g2 matches deeper in the table, where
        // every rate is at least the first row's.
        let lo = lines[0].rates.col(d);
        assert(forall|i: int|
            0 <= i < lines.skip(1).len() ==> #[trigger] lines.skip(1)[i] == lines[i + 1]);
        assert(forall|i: int|
            0 <= i < lines.skip(1).len() ==> lo <= #[trigger] lines.skip(1)[i].rates.col(d)) by {
            assert(forall|i: int|
                0 <= i < lines.skip(1).len() ==> row_le(
                    lines[0].rates,
                    (#[trigger] lines.skip(1)[i]).rates,
                ));
        }
        lemma_lookup_lower(g2, lines.skip(1), top, d, lo);
    } else {
        assert(forall|i: int|
            0 <= i < lines.skip(1).len() ==> #[trigger] lines.skip(1)[i] == lines[i + 1]);
        lemma_lookup_monotonic_lines(g1, g2, lines.skip(1), top, d);
    }
}

/// The three withholding tables of one tax year, selected by marital status
/// and by whether a married couple has a single earner.
#[derive(Clone, Debug)]
pub struct RetentionTables {
    /// Table for an unmarried tax payer.
    pub nao_casado: RetentionTable,
    /// Table for a married couple with a single earner.
    pub casado_titular_unico: RetentionTable,
    /// Table for a married couple with two earners.
    pub casado_dois_titulares: RetentionTable,
}

/// The table that a family's situation selects.
pub open spec fn table_for(tables: RetentionTables, family: FamilyElement) -> RetentionTable {
    if family.casado {
        if family.titular_unico {
            tables.casado_titular_unico
        } else {
            tables.casado_dois_titulares
        }
    } else {
        tables.nao_casado
    }
}

impl RetentionTables {
    /// All three tables are well formed.
    pub open spec fn wf(self) -> bool {
        self.nao_casado.wf() && self.casado_titular_unico.wf() && self.casado_dois_titulares.wf()
    }

    /// The table that the family's situation selects.
    pub fn for_family(&self, family: &FamilyElement) -> (r: &RetentionTable)
        ensures
            *r == table_for(*self, *family),
    {
        if family.casado {
            if family.titular_unico {
                &self.casado_titular_unico
            } else {
                &self.casado_dois_titulares
            }
        } else {
            &self.nao_casado
        }
    }

    /// The withholding rate to apply to one gross payment of a monthly
    /// calendar; a payment of any other frequency is rejected. The rate is
    /// returned ready to multiply, already divided down from the table's
    /// percentage form.
    pub fn tax(&self, gross: &Rate, family: &FamilyElement) -> (r: Result<TaxRate, IrsError>)
        requires
            self.wf(),
        ensures
            r is Ok <==> is_monthly(gross.freq),
            r is Ok ==> r->Ok_0@ == lookup_ppm(
                gross.value@,
                table_for(*self, *family).lines@,
                table_for(*self, *family).top,
                dep_col(family.dependentes as int),
            ) && r->Ok_0@ <= RATE_ONE,
            r is Err ==> r->Err_0 == IrsError::NonMonthlyPeriod,
    {
        if !matches!(gross.freq, crate::units::rate::Frequency::Monthly
            | crate::units::rate::Frequency::Monthly11
            | crate::units::rate::Frequency::Monthly14) {
            return Err(IrsError::NonMonthlyPeriod);
        }
        let table = self.for_family(family);
        Ok(table.rate_for(&gross.value, family.dependentes))
    }
}

/// The rates of the unbounded top row of the 2022 table for unmarried tax payers.
pub open spec fn nao_casado_2022_top() -> RateRow {
    RateRow { d0: 438_000, d1: 436_000, d2: 433_000, d3: 424_000, d4: 420_000, d5: 407_000 }
}

/// The bounded rows of the 2022 table for unmarried tax payers, as published.
pub open spec fn nao_casado_2022_rows() -> Seq<RetentionLine> {
    seq![
        RetentionLine { limit: money_from(710_000_000), rates: RateRow { d0: 0, d1: 0, d2: 0, d3: 0, d4: 0, d5: 0 } },
        RetentionLine { limit: money_from(720_000_000), rates: RateRow { d0: 18_000, d1: 2_000, d2: 0, d3: 0, d4: 0, d5: 0 } },
        RetentionLine { limit: money_from(740_000_000), rates: RateRow { d0: 45_000, d1: 6_000, d2: 0, d3: 0, d4: 0, d5: 0 } },
        RetentionLine { limit: money_from(754_000_000), rates: RateRow { d0: 63_000, d1: 8_000, d2: 0, d3: 0, d4: 0, d5: 0 } },
        RetentionLine { limit: money_from(814_000_000), rates: RateRow { d0: 79_000, d1: 45_000, d2: 10_000, d3: 0, d4: 0, d5: 0 } },
        RetentionLine { limit: money_from(922_000_000), rates: RateRow { d0: 101_000, d1: 67_000, d2: 35_000, d3: 0, d4: 0, d5: 0 } },
        RetentionLine { limit: money_from(1_005_000_000), rates: RateRow { d0: 113_000, d1: 79_000, d2: 57_000, d3: 14_000, d4: 0, d5: 0 } },
        RetentionLine { limit: money_from(1_065_000_000), rates: RateRow { d0: 121_000, d1: 88_000, d2: 65_000, d3: 33_000, d4: 0, d5: 0 } },
        RetentionLine { limit: money_from(1_143_000_000), rates: RateRow { d0: 131_000, d1: 107_000, d2: 83_000, d3: 51_000, d4: 27_000, d5: 2_000 } },
        RetentionLine { limit: money_from(1_225_000_000), rates: RateRow { d0: 141_000, d1: 118_000, d2: 93_000, d3: 61_000, d4: 36_000, d5: 12_000 } },
        RetentionLine { limit: money_from(1_321_000_000), rates: RateRow { d0: 152_000, d1: 128_000, d2: 105_000, d3: 70_000, d4: 46_000, d5: 22_000 } },
        RetentionLine { limit: money_from(1_424_000_000), rates: RateRow { d0: 162_000, d1: 138_000, d2: 114_000, d3: 80_000, d4: 65_000, d5: 40_000 } },
        RetentionLine { limit: money_from(1_562_000_000), rates: RateRow { d0: 172_000, d1: 148_000, d2: 123_000, d3: 100_000, d4: 75_000, d5: 50_000 } },
        RetentionLine { limit: money_from(1_711_000_000), rates: RateRow { d0: 186_000, d1: 163_000, d2: 148_000, d3: 114_000, d4: 89_000, d5: 65_000 } },
        RetentionLine { limit: money_from(1_870_000_000), rates: RateRow { d0: 199_000, d1: 182_000, d2: 173_000, d3: 145_000, d4: 125_000, d5: 117_000 } },
        RetentionLine { limit: money_from(1_977_000_000), rates: RateRow { d0: 209_000, d1: 193_000, d2: 182_000, d3: 155_000, d4: 145_000, d5: 125_000 } },
        RetentionLine { limit: money_from(2_090_000_000), rates: RateRow { d0: 219_000, d1: 202_000, d2: 192_000, d3: 164_000, d4: 155_000, d5: 135_000 } },
        RetentionLine { limit: money_from(2_218_000_000), rates: RateRow { d0: 228_000, d1: 213_000, d2: 203_000, d3: 175_000, d4: 165_000, d5: 145_000 } },
        RetentionLine { limit: money_from(2_367_000_000), rates: RateRow { d0: 238_000, d1: 222_000, d2: 213_000, d3: 185_000, d4: 176_000, d5: 155_000 } },
        RetentionLine { limit: money_from(2_535_000_000), rates: RateRow { d0: 248_000, d1: 242_000, d2: 222_000, d3: 204_000, d4: 185_000, d5: 176_000 } },
        RetentionLine { limit: money_from(2_767_000_000), rates: RateRow { d0: 258_000, d1: 251_000, d2: 233_000, d3: 214_000, d4: 194_000, d5: 185_000 } },
        RetentionLine { limit: money_from(3_104_000_000), rates: RateRow { d0: 270_000, d1: 264_000, d2: 245_000, d3: 225_000, d4: 206_000, d5: 196_000 } },
        RetentionLine { limit: money_from(3_534_000_000), rates: RateRow { d0: 286_000, d1: 283_000, d2: 268_000, d3: 252_000, d4: 246_000, d5: 230_000 } },
        RetentionLine { limit: money_from(4_118_000_000), rates: RateRow { d0: 297_000, d1: 295_000, d2: 277_000, d3: 262_000, d4: 256_000, d5: 250_000 } },
        RetentionLine { limit: money_from(4_650_000_000), rates: RateRow { d0: 314_000, d1: 310_000, d2: 294_000, d3: 276_000, d4: 270_000, d5: 265_000 } },
        RetentionLine { limit: money_from(5_194_000_000), rates: RateRow { d0: 323_000, d1: 318_000, d2: 313_000, d3: 289_000, d4: 280_000, d5: 274_000 } },
        RetentionLine { limit: money_from(5_880_000_000), rates: RateRow { d0: 333_000, d1: 328_000, d2: 322_000, d3: 298_000, d4: 292_000, d5: 284_000 } },
        RetentionLine { limit: money_from(6_727_000_000), rates: RateRow { d0: 353_000, d1: 349_000, d2: 341_000, d3: 322_000, d4: 318_000, d5: 315_000 } },
        RetentionLine { limit: money_from(7_939_000_000), rates: RateRow { d0: 363_000, d1: 359_000, d2: 355_000, d3: 342_000, d4: 328_000, d5: 324_000 } },
        RetentionLine { limit: money_from(9_560_000_000), rates: RateRow { d0: 382_000, d1: 378_000, d2: 374_000, d3: 362_000, d4: 358_000, d5: 344_000 } },
        RetentionLine { limit: money_from(11_282_000_000), rates: RateRow { d0: 392_000, d1: 388_000, d2: 384_000, d3: 375_000, d4: 367_000, d5: 354_000 } },
        RetentionLine { limit: money_from(18_854_000_000), rates: RateRow { d0: 402_000, d1: 398_000, d2: 394_000, d3: 385_000, d4: 381_000, d5: 364_000 } },
        RetentionLine { limit: money_from(20_221_000_000), rates: RateRow { d0: 412_000, d1: 408_000, d2: 404_000, d3: 395_000, d4: 391_000, d5: 373_000 } },
        RetentionLine { limit: money_from(22_749_000_000), rates: RateRow { d0: 419_000, d1: 417_000, d2: 414_000, d3: 405_000, d4: 401_000, d5: 385_000 } },
        RetentionLine { limit: money_from(25_276_000_000), rates: RateRow { d0: 429_000, d1: 427_000, d2: 423_000, d3: 414_000, d4: 411_000, d5: 397_000 } },
    ]
}

/// The table holds exactly the published 2022 rows for unmarried tax payers.
pub open spec fn is_nao_casado_2022(t: RetentionTable) -> bool {
    t.lines@ == nao_casado_2022_rows() && t.top == nao_casado_2022_top()
}

/// The rates of the unbounded top row of the 2022 table for married single-earner couples.
pub open spec fn casado_titular_unico_2022_top() -> RateRow {
    RateRow { d0: 403_000, d1: 402_000, d2: 401_000, d3: 394_000, d4: 392_000, d5: 380_000 }
}

/// The bounded rows of the 2022 table for married single-earner couples, as published.
pub open spec fn casado_titular_unico_2022_rows() -> Seq<RetentionLine> {
    seq![
        RetentionLine { limit: money_from(710_000_000), rates: RateRow { d0: 0, d1: 0, d2: 0, d3: 0, d4: 0, d5: 0 } },
        RetentionLine { limit: money_from(740_000_000), rates: RateRow { d0: 33_000, d1: 0, d2: 0, d3: 0, d4: 0, d5: 0 } },
        RetentionLine { limit: money_from(754_000_000), rates: RateRow { d0: 33_000, d1: 0, d2: 0, d3: 0, d4: 0, d5: 0 } },
        RetentionLine { limit: money_from(794_000_000), rates: RateRow { d0: 47_000, d1: 9_000, d2: 0, d3: 0, d4: 0, d5: 0 } },
        RetentionLine { limit: money_from(836_000_000), rates: RateRow { d0: 56_000, d1: 18_000, d2: 9_000, d3: 0, d4: 0, d5: 0 } },
        RetentionLine { limit: money_from(886_000_000), rates: RateRow { d0: 65_000, d1: 37_000, d2: 12_000, d3: 0, d4: 0, d5: 0 } },
        RetentionLine { limit: money_from(974_000_000), rates: RateRow { d0: 73_000, d1: 46_000, d2: 29_000, d3: 0, d4: 0, d5: 0 } },
        RetentionLine { limit: money_from(1_081_000_000), rates: RateRow { d0: 81_000, d1: 55_000, d2: 37_000, d3: 10_000, d4: 0, d5: 0 } },
        RetentionLine { limit: money_from(1_225_000_000), rates: RateRow { d0: 92_000, d1: 69_000, d2: 47_000, d3: 20_000, d4: 0, d5: 0 } },
        RetentionLine { limit: money_from(1_404_000_000), rates: RateRow { d0: 107_000, d1: 89_000, d2: 71_000, d3: 43_000, d4: 26_000, d5: 17_000 } },
        RetentionLine { limit: money_from(1_629_000_000), rates: RateRow { d0: 117_000, d1: 100_000, d2: 81_000, d3: 63_000, d4: 45_000, d5: 27_000 } },
        RetentionLine { limit: money_from(1_733_000_000), rates: RateRow { d0: 131_000, d1: 114_000, d2: 106_000, d3: 77_000, d4: 59_000, d5: 51_000 } },
        RetentionLine { limit: money_from(1_849_000_000), rates: RateRow { d0: 140_000, d1: 124_000, d2: 117_000, d3: 90_000, d4: 73_000, d5: 65_000 } },
        RetentionLine { limit: money_from(1_998_000_000), rates: RateRow { d0: 150_000, d1: 133_000, d2: 125_000, d3: 100_000, d4: 92_000, d5: 74_000 } },
        RetentionLine { limit: money_from(2_157_000_000), rates: RateRow { d0: 160_000, d1: 143_000, d2: 135_000, d3: 109_000, d4: 102_000, d5: 85_000 } },
        RetentionLine { limit: money_from(2_347_000_000), rates: RateRow { d0: 170_000, d1: 163_000, d2: 146_000, d3: 119_000, d4: 111_000, d5: 95_000 } },
        RetentionLine { limit: money_from(2_566_000_000), rates: RateRow { d0: 178_000, d1: 172_000, d2: 156_000, d3: 138_000, d4: 121_000, d5: 114_000 } },
        RetentionLine { limit: money_from(2_934_000_000), rates: RateRow { d0: 189_000, d1: 182_000, d2: 166_000, d3: 148_000, d4: 131_000, d5: 123_000 } },
        RetentionLine { limit: money_from(3_356_000_000), rates: RateRow { d0: 215_000, d1: 214_000, d2: 198_000, d3: 184_000, d4: 171_000, d5: 167_000 } },
        RetentionLine { limit: money_from(3_611_000_000), rates: RateRow { d0: 224_000, d1: 223_000, d2: 210_000, d3: 194_000, d4: 190_000, d5: 176_000 } },
        RetentionLine { limit: money_from(3_882_000_000), rates: RateRow { d0: 234_000, d1: 233_000, d2: 220_000, d3: 206_000, d4: 200_000, d5: 186_000 } },
        RetentionLine { limit: money_from(4_210_000_000), rates: RateRow { d0: 244_000, d1: 243_000, d2: 229_000, d3: 216_000, d4: 212_000, d5: 206_000 } },
        RetentionLine { limit: money_from(4_604_000_000), rates: RateRow { d0: 259_000, d1: 253_000, d2: 239_000, d3: 225_000, d4: 221_000, d5: 218_000 } },
        RetentionLine { limit: money_from(5_076_000_000), rates: RateRow { d0: 269_000, d1: 263_000, d2: 259_000, d3: 235_000, d4: 231_000, d5: 227_000 } },
        RetentionLine { limit: money_from(5_654_000_000), rates: RateRow { d0: 278_000, d1: 272_000, d2: 269_000, d3: 245_000, d4: 241_000, d5: 237_000 } },
        RetentionLine { limit: money_from(6_381_000_000), rates: RateRow { d0: 288_000, d1: 282_000, d2: 278_000, d3: 255_000, d4: 251_000, d5: 247_000 } },
        RetentionLine { limit: money_from(7_323_000_000), rates: RateRow { d0: 297_000, d1: 296_000, d2: 292_000, d3: 270_000, d4: 269_000, d5: 267_000 } },
        RetentionLine { limit: money_from(8_441_000_000), rates: RateRow { d0: 307_000, d1: 306_000, d2: 304_000, d3: 290_000, d4: 278_000, d5: 276_000 } },
        RetentionLine { limit: money_from(9_336_000_000), rates: RateRow { d0: 321_000, d1: 320_000, d2: 319_000, d3: 307_000, d4: 293_000, d5: 291_000 } },
        RetentionLine { limit: money_from(10_448_000_000), rates: RateRow { d0: 331_000, d1: 330_000, d2: 328_000, d3: 317_000, d4: 315_000, d5: 300_000 } },
        RetentionLine { limit: money_from(14_013_000_000), rates: RateRow { d0: 344_000, d1: 343_000, d2: 338_000, d3: 326_000, d4: 324_000, d5: 313_000 } },
        RetentionLine { limit: money_from(20_118_000_000), rates: RateRow { d0: 364_000, d1: 363_000, d2: 362_000, d3: 351_000, d4: 349_000, d5: 337_000 } },
        RetentionLine { limit: money_from(22_749_000_000), rates: RateRow { d0: 373_000, d1: 372_000, d2: 371_000, d3: 365_000, d4: 359_000, d5: 347_000 } },
        RetentionLine { limit: money_from(25_276_000_000), rates: RateRow { d0: 383_000, d1: 382_000, d2: 381_000, d3: 374_000, d4: 372_000, d5: 357_000 } },
        RetentionLine { limit: money_from(28_309_000_000), rates: RateRow { d0: 393_000, d1: 392_000, d2: 391_000, d3: 384_000, d4: 382_000, d5: 370_000 } },
    ]
}

/// The table holds exactly the published 2022 rows for married single-earner couples.
pub open spec fn is_casado_titular_unico_2022(t: RetentionTable) -> bool {
    t.lines@ == casado_titular_unico_2022_rows() && t.top == casado_titular_unico_2022_top()
}

/// The rates of the unbounded top row of the 2022 table for married dual-earner couples.
pub open spec fn casado_dois_titulares_2022_top() -> RateRow {
    RateRow { d0: 438_000, d1: 437_000, d2: 436_000, d3: 429_000, d4: 427_000, d5: 425_000 }
}

/// The bounded rows of the 2022 table for married dual-earner couples, as published.
pub open spec fn casado_dois_titulares_2022_rows() -> Seq<RetentionLine> {
    seq![
        RetentionLine { limit: money_from(710_000_000), rates: RateRow { d0: 0, d1: 0, d2: 0, d3: 0, d4: 0, d5: 0 } },
        RetentionLine { limit: money_from(720_000_000), rates: RateRow { d0: 18_000, d1: 17_000, d2: 0, d3: 0, d4: 0, d5: 0 } },
        RetentionLine { limit: money_from(740_000_000), rates: RateRow { d0: 45_000, d1: 34_000, d2: 5_000, d3: 0, d4: 0, d5: 0 } },
        RetentionLine { limit: money_from(754_000_000), rates: RateRow { d0: 63_000, d1: 37_000, d2: 10_000, d3: 0, d4: 0, d5: 0 } },
        RetentionLine { limit: money_from(814_000_000), rates: RateRow { d0: 79_000, d1: 51_000, d2: 34_000, d3: 25_000, d4: 6_000, d5: 0 } },
        RetentionLine { limit: money_from(922_000_000), rates: RateRow { d0: 101_000, d1: 73_000, d2: 65_000, d3: 38_000, d4: 31_000, d5: 12_000 } },
        RetentionLine { limit: money_from(1_005_000_000), rates: RateRow { d0: 113_000, d1: 86_000, d2: 78_000, d3: 51_000, d4: 44_000, d5: 31_000 } },
        RetentionLine { limit: money_from(1_065_000_000), rates: RateRow { d0: 121_000, d1: 95_000, d2: 86_000, d3: 60_000, d4: 48_000, d5: 39_000 } },
        RetentionLine { limit: money_from(1_143_000_000), rates: RateRow { d0: 131_000, d1: 114_000, d2: 106_000, d3: 79_000, d4: 71_000, d5: 53_000 } },
        RetentionLine { limit: money_from(1_225_000_000), rates: RateRow { d0: 141_000, d1: 124_000, d2: 115_000, d3: 89_000, d4: 80_000, d5: 63_000 } },
        RetentionLine { limit: money_from(1_321_000_000), rates: RateRow { d0: 151_000, d1: 144_000, d2: 126_000, d3: 107_000, d4: 90_000, d5: 81_000 } },
        RetentionLine { limit: money_from(1_424_000_000), rates: RateRow { d0: 161_000, d1: 153_000, d2: 136_000, d3: 119_000, d4: 100_000, d5: 92_000 } },
        RetentionLine { limit: money_from(1_562_000_000), rates: RateRow { d0: 171_000, d1: 164_000, d2: 146_000, d3: 128_000, d4: 111_000, d5: 102_000 } },
        RetentionLine { limit: money_from(1_711_000_000), rates: RateRow { d0: 185_000, d1: 177_000, d2: 161_000, d3: 143_000, d4: 134_000, d5: 117_000 } },
        RetentionLine { limit: money_from(1_870_000_000), rates: RateRow { d0: 199_000, d1: 193_000, d2: 176_000, d3: 160_000, d4: 152_000, d5: 135_000 } },
        RetentionLine { limit: money_from(1_977_000_000), rates: RateRow { d0: 209_000, d1: 204_000, d2: 185_000, d3: 169_000, d4: 161_000, d5: 145_000 } },
        RetentionLine { limit: money_from(2_090_000_000), rates: RateRow { d0: 219_000, d1: 214_000, d2: 196_000, d3: 177_000, d4: 170_000, d5: 163_000 } },
        RetentionLine { limit: money_from(2_218_000_000), rates: RateRow { d0: 228_000, d1: 223_000, d2: 207_000, d3: 189_000, d4: 179_000, d5: 173_000 } },
        RetentionLine { limit: money_from(2_367_000_000), rates: RateRow { d0: 238_000, d1: 234_000, d2: 226_000, d3: 199_000, d4: 191_000, d5: 182_000 } },
        RetentionLine { limit: money_from(2_535_000_000), rates: RateRow { d0: 248_000, d1: 244_000, d2: 236_000, d3: 210_000, d4: 202_000, d5: 194_000 } },
        RetentionLine { limit: money_from(2_767_000_000), rates: RateRow { d0: 257_000, d1: 252_000, d2: 246_000, d3: 219_000, d4: 212_000, d5: 204_000 } },
        RetentionLine { limit: money_from(3_104_000_000), rates: RateRow { d0: 269_000, d1: 265_000, d2: 257_000, d3: 231_000, d4: 223_000, d5: 216_000 } },
        RetentionLine { limit: money_from(3_534_000_000), rates: RateRow { d0: 285_000, d1: 284_000, d2: 280_000, d3: 257_000, d4: 253_000, d5: 249_000 } },
        RetentionLine { limit: money_from(4_118_000_000), rates: RateRow { d0: 296_000, d1: 295_000, d2: 290_000, d3: 276_000, d4: 263_000, d5: 259_000 } },
        RetentionLine { limit: money_from(4_650_000_000), rates: RateRow { d0: 314_000, d1: 311_000, d2: 307_000, d3: 290_000, d4: 277_000, d5: 273_000 } },
        RetentionLine { limit: money_from(5_194_000_000), rates: RateRow { d0: 323_000, d1: 320_000, d2: 316_000, d3: 303_000, d4: 296_000, d5: 283_000 } },
        RetentionLine { limit: money_from(5_880_000_000), rates: RateRow { d0: 333_000, d1: 330_000, d2: 326_000, d3: 313_000, d4: 309_000, d5: 292_000 } },
        RetentionLine { limit: money_from(6_727_000_000), rates: RateRow { d0: 352_000, d1: 350_000, d2: 345_000, d3: 338_000, d4: 336_000, d5: 334_000 } },
        RetentionLine { limit: money_from(7_939_000_000), rates: RateRow { d0: 362_000, d1: 360_000, d2: 358_000, d3: 347_000, d4: 346_000, d5: 344_000 } },
        RetentionLine { limit: money_from(9_560_000_000), rates: RateRow { d0: 381_000, d1: 379_000, d2: 377_000, d3: 366_000, d4: 364_000, d5: 363_000 } },
        RetentionLine { limit: money_from(11_282_000_000), rates: RateRow { d0: 391_000, d1: 389_000, d2: 387_000, d3: 380_000, d4: 374_000, d5: 372_000 } },
        RetentionLine { limit: money_from(18_854_000_000), rates: RateRow { d0: 401_000, d1: 399_000, d2: 397_000, d3: 390_000, d4: 388_000, d5: 382_000 } },
        RetentionLine { limit: money_from(20_221_000_000), rates: RateRow { d0: 411_000, d1: 409_000, d2: 407_000, d3: 400_000, d4: 398_000, d5: 392_000 } },
        RetentionLine { limit: money_from(22_749_000_000), rates: RateRow { d0: 418_000, d1: 417_000, d2: 416_000, d3: 410_000, d4: 408_000, d5: 404_000 } },
        RetentionLine { limit: money_from(25_276_000_000), rates: RateRow { d0: 428_000, d1: 427_000, d2: 426_000, d3: 419_000, d4: 417_000, d5: 415_000 } },
    ]
}

/// The table holds exactly the published 2022 rows for married dual-earner couples.
pub open spec fn is_casado_dois_titulares_2022(t: RetentionTable) -> bool {
    t.lines@ == casado_dois_titulares_2022_rows() && t.top == casado_dois_titulares_2022_top()
}

/// All three tables hold exactly the published 2022 rows.
pub open spec fn is_tables_2022(t: RetentionTables) -> bool {
    is_nao_casado_2022(t.nao_casado) && is_casado_titular_unico_2022(t.casado_titular_unico)
        && is_casado_dois_titulares_2022(t.casado_dois_titulares)
}

/// The withholding rate that the published 2022 tables give one gross
/// monthly payment, by family situation and dependents count.
pub open spec fn lookup_2022_ppm(g: int, family: FamilyElement) -> int {
    if family.casado {
        if family.titular_unico {
            lookup_ppm(
                g,
                casado_titular_unico_2022_rows(),
                casado_titular_unico_2022_top(),
                dep_col(family.dependentes as int),
            )
        } else {
            lookup_ppm(
                g,
                casado_dois_titulares_2022_rows(),
                casado_dois_titulares_2022_top(),
                dep_col(family.dependentes as int),
            )
        }
    } else {
        lookup_ppm(g, nao_casado_2022_rows(), nao_casado_2022_top(), dep_col(family.dependentes as int))
    }
}

/// A prefix of a sequence grows into the next longer prefix by appending
/// the sequence's next element.
proof fn lemma_subrange_extend<T>(s: Seq<T>, k: int)
    requires
        0 <= k < s.len(),
    ensures
        s.subrange(0, k).push(s[k]) == s.subrange(0, k + 1),
{
    assert(s.subrange(0, k).push(s[k]) =~= s.subrange(0, k + 1));
}

/// Appends row `k` of the spec-level row sequence to a table whose rows so
/// far are exactly the sequence's first `k` rows.
fn push_spec_row(
    t: &mut RetentionTable,
    Ghost(rows): Ghost<Seq<RetentionLine>>,
    k: usize,
    limit_micros: i128,
    rates: RateRow,
)
    requires
        old(t).wf(),
        old(t).lines@ == rows.subrange(0, k as int),
        (k as int) < rows.len(),
        rows[k as int].limit@ == limit_micros,
        rows[k as int].rates == rates,
        0 <= limit_micros <= MONEY_LIMIT as int,
        rates.ok(),
        row_le(rates, old(t).top),
        k > 0 ==> rows[k - 1].limit@ < limit_micros && row_le(rows[k - 1].rates, rates),
    ensures
        final(t).wf(),
        final(t).top == old(t).top,
        final(t).lines@ == rows.subrange(0, k + 1),
{
    proof {
        assert(old(t).lines@.len() == k);
        if k > 0 {
            assert(old(t).lines@.last() == rows[k - 1]);
        }
    }
    let limit = Money::from_micros(limit_micros);
    t.push_line(limit, rates);
    proof {
        lemma_money_view_injective(limit, rows[k as int].limit);
        assert(t.lines@.last() == rows[k as int]);
        lemma_subrange_extend(rows, k as int);
        assert(t.lines@ =~= rows.subrange(0, k + 1));
    }
}

/// Rows 0 through 6 of the 2022 table for unmarried tax payers.
fn nao_casado_2022_part0(t: &mut RetentionTable)
    requires
        old(t).wf(),
        old(t).top == nao_casado_2022_top(),
        old(t).lines@ == nao_casado_2022_rows().subrange(0, 0),
    ensures
        final(t).wf(),
        final(t).top == old(t).top,
        final(t).lines@ == nao_casado_2022_rows().subrange(0, 7),
{
    push_spec_row(t, Ghost(nao_casado_2022_rows()), 0, 710_000_000, RateRow::new(0, 0, 0, 0, 0, 0));
    push_spec_row(t, Ghost(nao_casado_2022_rows()), 1, 720_000_000, RateRow::new(18_000, 2_000, 0, 0, 0, 0));
    push_spec_row(t, Ghost(nao_casado_2022_rows()), 2, 740_000_000, RateRow::new(45_000, 6_000, 0, 0, 0, 0));
    push_spec_row(t, Ghost(nao_casado_2022_rows()), 3, 754_000_000, RateRow::new(63_000, 8_000, 0, 0, 0, 0));
    push_spec_row(t, Ghost(nao_casado_2022_rows()), 4, 814_000_000, RateRow::new(79_000, 45_000, 10_000, 0, 0, 0));
    push_spec_row(t, Ghost(nao_casado_2022_rows()), 5, 922_000_000, RateRow::new(101_000, 67_000, 35_000, 0, 0, 0));
    push_spec_row(t, Ghost(nao_casado_2022_rows()), 6, 1_005_000_000, RateRow::new(113_000, 79_000, 57_000, 14_000, 0, 0));
}

/// Rows 7 through 13 of the 2022 table for unmarried tax payers.
fn nao_casado_2022_part1(t: &mut RetentionTable)
    requires
        old(t).wf(),
        old(t).top == nao_casado_2022_top(),
        old(t).lines@ == nao_casado_2022_rows().subrange(0, 7),
    ensures
        final(t).wf(),
        final(t).top == old(t).top,
        final(t).lines@ == nao_casado_2022_rows().subrange(0, 14),
{
    push_spec_row(t, Ghost(nao_casado_2022_rows()), 7, 1_065_000_000, RateRow::new(121_000, 88_000, 65_000, 33_000, 0, 0));
    push_spec_row(t, Ghost(nao_casado_2022_rows()), 8, 1_143_000_000, RateRow::new(131_000, 107_000, 83_000, 51_000, 27_000, 2_000));
    push_spec_row(t, Ghost(nao_casado_2022_rows()), 9, 1_225_000_000, RateRow::new(141_000, 118_000, 93_000, 61_000, 36_000, 12_000));
    push_spec_row(t, Ghost(nao_casado_2022_rows()), 10, 1_321_000_000, RateRow::new(152_000, 128_000, 105_000, 70_000, 46_000, 22_000));
    push_spec_row(t, Ghost(nao_casado_2022_rows()), 11, 1_424_000_000, RateRow::new(162_000, 138_000, 114_000, 80_000, 65_000, 40_000));
    push_spec_row(t, Ghost(nao_casado_2022_rows()), 12, 1_562_000_000, RateRow::new(172_000, 148_000, 123_000, 100_000, 75_000, 50_000));
    push_spec_row(t, Ghost(nao_casado_2022_rows()), 13, 1_711_000_000, RateRow::new(186_000, 163_000, 148_000, 114_000, 89_000, 65_000));
}

/// Rows 14 through 20 of the 2022 table for unmarried tax payers.
fn nao_casado_2022_part2(t: &mut RetentionTable)
    requires
        old(t).wf(),
        old(t).top == nao_casado_2022_top(),
        old(t).lines@ == nao_casado_2022_rows().subrange(0, 14),
    ensures
        final(t).wf(),
        final(t).top == old(t).top,
        final(t).lines@ == nao_casado_2022_rows().subrange(0, 21),
{
    push_spec_row(t, Ghost(nao_casado_2022_rows()), 14, 1_870_000_000, RateRow::new(199_000, 182_000, 173_000, 145_000, 125_000, 117_000));
    push_spec_row(t, Ghost(nao_casado_2022_rows()), 15, 1_977_000_000, RateRow::new(209_000, 193_000, 182_000, 155_000, 145_000, 125_000));
    push_spec_row(t, Ghost(nao_casado_2022_rows()), 16, 2_090_000_000, RateRow::new(219_000, 202_000, 192_000, 164_000, 155_000, 135_000));
    push_spec_row(t, Ghost(nao_casado_2022_rows()), 17, 2_218_000_000, RateRow::new(228_000, 213_000, 203_000, 175_000, 165_000, 145_000));
    push_spec_row(t, Ghost(nao_casado_2022_rows()), 18, 2_367_000_000, RateRow::new(238_000, 222_000, 213_000, 185_000, 176_000, 155_000));
    push_spec_row(t, Ghost(nao_casado_2022_rows()), 19, 2_535_000_000, RateRow::new(248_000, 242_000, 222_000, 204_000, 185_000, 176_000));
    push_spec_row(t, Ghost(nao_casado_2022_rows()), 20, 2_767_000_000, RateRow::new(258_000, 251_000, 233_000, 214_000, 194_000, 185_000));
}

/// Rows 21 through 27 of the 2022 table for unmarried tax payers.
fn nao_casado_2022_part3(t: &mut RetentionTable)
    requires
        old(t).wf(),
        old(t).top == nao_casado_2022_top(),
        old(t).lines@ == nao_casado_2022_rows().subrange(0, 21),
    ensures
        final(t).wf(),
        final(t).top == old(t).top,
        final(t).lines@ == nao_casado_2022_rows().subrange(0, 28),
{
    push_spec_row(t, Ghost(nao_casado_2022_rows()), 21, 3_104_000_000, RateRow::new(270_000, 264_000, 245_000, 225_000, 206_000, 196_000));
    push_spec_row(t, Ghost(nao_casado_2022_rows()), 22, 3_534_000_000, RateRow::new(286_000, 283_000, 268_000, 252_000, 246_000, 230_000));
    push_spec_row(t, Ghost(nao_casado_2022_rows()), 23, 4_118_000_000, RateRow::new(297_000, 295_000, 277_000, 262_000, 256_000, 250_000));
    push_spec_row(t, Ghost(nao_casado_2022_rows()), 24, 4_650_000_000, RateRow::new(314_000, 310_000, 294_000, 276_000, 270_000, 265_000));
    push_spec_row(t, Ghost(nao_casado_2022_rows()), 25, 5_194_000_000, RateRow::new(323_000, 318_000, 313_000, 289_000, 280_000, 274_000));
    push_spec_row(t, Ghost(nao_casado_2022_rows()), 26, 5_880_000_000, RateRow::new(333_000, 328_000, 322_000, 298_000, 292_000, 284_000));
    push_spec_row(t, Ghost(nao_casado_2022_rows()), 27, 6_727_000_000, RateRow::new(353_000, 349_000, 341_000, 322_000, 318_000, 315_000));
}

/// Rows 28 through 34 of the 2022 table for unmarried tax payers.
fn nao_casado_2022_part4(t: &mut RetentionTable)
    requires
        old(t).wf(),
        old(t).top == nao_casado_2022_top(),
        old(t).lines@ == nao_casado_2022_rows().subrange(0, 28),
    ensures
        final(t).wf(),
        final(t).top == old(t).top,
        final(t).lines@ == nao_casado_2022_rows().subrange(0, 35),
{
    push_spec_row(t, Ghost(nao_casado_2022_rows()), 28, 7_939_000_000, RateRow::new(363_000, 359_000, 355_000, 342_000, 328_000, 324_000));
    push_spec_row(t, Ghost(nao_casado_2022_rows()), 29, 9_560_000_000, RateRow::new(382_000, 378_000, 374_000, 362_000, 358_000, 344_000));
    push_spec_row(t, Ghost(nao_casado_2022_rows()), 30, 11_282_000_000, RateRow::new(392_000, 388_000, 384_000, 375_000, 367_000, 354_000));
    push_spec_row(t, Ghost(nao_casado_2022_rows()), 31, 18_854_000_000, RateRow::new(402_000, 398_000, 394_000, 385_000, 381_000, 364_000));
    push_spec_row(t, Ghost(nao_casado_2022_rows()), 32, 20_221_000_000, RateRow::new(412_000, 408_000, 404_000, 395_000, 391_000, 373_000));
    push_spec_row(t, Ghost(nao_casado_2022_rows()), 33, 22_749_000_000, RateRow::new(419_000, 417_000, 414_000, 405_000, 401_000, 385_000));
    push_spec_row(t, Ghost(nao_casado_2022_rows()), 34, 25_276_000_000, RateRow::new(429_000, 427_000, 423_000, 414_000, 411_000, 397_000));
}

/// The 2022 withholding table for unmarried tax payers, holding exactly the
/// published rows.
fn nao_casado_2022() -> (t: RetentionTable)
    ensures
        t.wf(),
        is_nao_casado_2022(t),
{
    let mut t = RetentionTable::new(RateRow::new(438_000, 436_000, 433_000, 424_000, 420_000, 407_000));
    proof {
        assert(t.lines@ =~= nao_casado_2022_rows().subrange(0, 0));
    }
    nao_casado_2022_part0(&mut t);
    nao_casado_2022_part1(&mut t);
    nao_casado_2022_part2(&mut t);
    nao_casado_2022_part3(&mut t);
    nao_casado_2022_part4(&mut t);
    proof {
        assert(nao_casado_2022_rows().subrange(0, 35) =~= nao_casado_2022_rows());
    }
    t
}

/// Rows 0 through 6 of the 2022 table for married single-earner couples.
fn casado_titular_unico_2022_part0(t: &mut RetentionTable)
    requires
        old(t).wf(),
        old(t).top == casado_titular_unico_2022_top(),
        old(t).lines@ == casado_titular_unico_2022_rows().subrange(0, 0),
    ensures
        final(t).wf(),
        final(t).top == old(t).top,
        final(t).lines@ == casado_titular_unico_2022_rows().subrange(0, 7),
{
    push_spec_row(t, Ghost(casado_titular_unico_2022_rows()), 0, 710_000_000, RateRow::new(0, 0, 0, 0, 0, 0));
    push_spec_row(t, Ghost(casado_titular_unico_2022_rows()), 1, 740_000_000, RateRow::new(33_000, 0, 0, 0, 0, 0));
    push_spec_row(t, Ghost(casado_titular_unico_2022_rows()), 2, 754_000_000, RateRow::new(33_000, 0, 0, 0, 0, 0));
    push_spec_row(t, Ghost(casado_titular_unico_2022_rows()), 3, 794_000_000, RateRow::new(47_000, 9_000, 0, 0, 0, 0));
    push_spec_row(t, Ghost(casado_titular_unico_2022_rows()), 4, 836_000_000, RateRow::new(56_000, 18_000, 9_000, 0, 0, 0));
    push_spec_row(t, Ghost(casado_titular_unico_2022_rows()), 5, 886_000_000, RateRow::new(65_000, 37_000, 12_000, 0, 0, 0));
    push_spec_row(t, Ghost(casado_titular_unico_2022_rows()), 6, 974_000_000, RateRow::new(73_000, 46_000, 29_000, 0, 0, 0));
}

/// Rows 7 through 13 of the 2022 table for married single-earner couples.
fn casado_titular_unico_2022_part1(t: &mut RetentionTable)
    requires
        old(t).wf(),
        old(t).top == casado_titular_unico_2022_top(),
        old(t).lines@ == casado_titular_unico_2022_rows().subrange(0, 7),
    ensures
        final(t).wf(),
        final(t).top == old(t).top,
        final(t).lines@ == casado_titular_unico_2022_rows().subrange(0, 14),
{
    push_spec_row(t, Ghost(casado_titular_unico_2022_rows()), 7, 1_081_000_000, RateRow::new(81_000, 55_000, 37_000, 10_000, 0, 0));
    push_spec_row(t, Ghost(casado_titular_unico_2022_rows()), 8, 1_225_000_000, RateRow::new(92_000, 69_000, 47_000, 20_000, 0, 0));
    push_spec_row(t, Ghost(casado_titular_unico_2022_rows()), 9, 1_404_000_000, RateRow::new(107_000, 89_000, 71_000, 43_000, 26_000, 17_000));
    push_spec_row(t, Ghost(casado_titular_unico_2022_rows()), 10, 1_629_000_000, RateRow::new(117_000, 100_000, 81_000, 63_000, 45_000, 27_000));
    push_spec_row(t, Ghost(casado_titular_unico_2022_rows()), 11, 1_733_000_000, RateRow::new(131_000, 114_000, 106_000, 77_000, 59_000, 51_000));
    push_spec_row(t, Ghost(casado_titular_unico_2022_rows()), 12, 1_849_000_000, RateRow::new(140_000, 124_000, 117_000, 90_000, 73_000, 65_000));
    push_spec_row(t, Ghost(casado_titular_unico_2022_rows()), 13, 1_998_000_000, RateRow::new(150_000, 133_000, 125_000, 100_000, 92_000, 74_000));
}

/// Rows 14 through 20 of the 2022 table for married single-earner couples.
fn casado_titular_unico_2022_part2(t: &mut RetentionTable)
    requires
        old(t).wf(),
        old(t).top == casado_titular_unico_2022_top(),
        old(t).lines@ == casado_titular_unico_2022_rows().subrange(0, 14),
    ensures
        final(t).wf(),
        final(t).top == old(t).top,
        final(t).lines@ == casado_titular_unico_2022_rows().subrange(0, 21),
{
    push_spec_row(t, Ghost(casado_titular_unico_2022_rows()), 14, 2_157_000_000, RateRow::new(160_000, 143_000, 135_000, 109_000, 102_000, 85_000));
    push_spec_row(t, Ghost(casado_titular_unico_2022_rows()), 15, 2_347_000_000, RateRow::new(170_000, 163_000, 146_000, 119_000, 111_000, 95_000));
    push_spec_row(t, Ghost(casado_titular_unico_2022_rows()), 16, 2_566_000_000, RateRow::new(178_000, 172_000, 156_000, 138_000, 121_000, 114_000));
    push_spec_row(t, Ghost(casado_titular_unico_2022_rows()), 17, 2_934_000_000, RateRow::new(189_000, 182_000, 166_000, 148_000, 131_000, 123_000));
    push_spec_row(t, Ghost(casado_titular_unico_2022_rows()), 18, 3_356_000_000, RateRow::new(215_000, 214_000, 198_000, 184_000, 171_000, 167_000));
    push_spec_row(t, Ghost(casado_titular_unico_2022_rows()), 19, 3_611_000_000, RateRow::new(224_000, 223_000, 210_000, 194_000, 190_000, 176_000));
    push_spec_row(t, Ghost(casado_titular_unico_2022_rows()), 20, 3_882_000_000, RateRow::new(234_000, 233_000, 220_000, 206_000, 200_000, 186_000));
}

/// Rows 21 through 27 of the 2022 table for married single-earner couples.
fn casado_titular_unico_2022_part3(t: &mut RetentionTable)
    requires
        old(t).wf(),
        old(t).top == casado_titular_unico_2022_top(),
        old(t).lines@ == casado_titular_unico_2022_rows().subrange(0, 21),
    ensures
        final(t).wf(),
        final(t).top == old(t).top,
        final(t).lines@ == casado_titular_unico_2022_rows().subrange(0, 28),
{
    push_spec_row(t, Ghost(casado_titular_unico_2022_rows()), 21, 4_210_000_000, RateRow::new(244_000, 243_000, 229_000, 216_000, 212_000, 206_000));
    push_spec_row(t, Ghost(casado_titular_unico_2022_rows()), 22, 4_604_000_000, RateRow::new(259_000, 253_000, 239_000, 225_000, 221_000, 218_000));
    push_spec_row(t, Ghost(casado_titular_unico_2022_rows()), 23, 5_076_000_000, RateRow::new(269_000, 263_000, 259_000, 235_000, 231_000, 227_000));
    push_spec_row(t, Ghost(casado_titular_unico_2022_rows()), 24, 5_654_000_000, RateRow::new(278_000, 272_000, 269_000, 245_000, 241_000, 237_000));
    push_spec_row(t, Ghost(casado_titular_unico_2022_rows()), 25, 6_381_000_000, RateRow::new(288_000, 282_000, 278_000, 255_000, 251_000, 247_000));
    push_spec_row(t, Ghost(casado_titular_unico_2022_rows()), 26, 7_323_000_000, RateRow::new(297_000, 296_000, 292_000, 270_000, 269_000, 267_000));
    push_spec_row(t, Ghost(casado_titular_unico_2022_rows()), 27, 8_441_000_000, RateRow::new(307_000, 306_000, 304_000, 290_000, 278_000, 276_000));
}

/// Rows 28 through 34 of the 2022 table for married single-earner couples.
fn casado_titular_unico_2022_part4(t: &mut RetentionTable)
    requires
        old(t).wf(),
        old(t).top == casado_titular_unico_2022_top(),
        old(t).lines@ == casado_titular_unico_2022_rows().subrange(0, 28),
    ensures
        final(t).wf(),
        final(t).top == old(t).top,
        final(t).lines@ == casado_titular_unico_2022_rows().subrange(0, 35),
{
    push_spec_row(t, Ghost(casado_titular_unico_2022_rows()), 28, 9_336_000_000, RateRow::new(321_000, 320_000, 319_000, 307_000, 293_000, 291_000));
    push_spec_row(t, Ghost(casado_titular_unico_2022_rows()), 29, 10_448_000_000, RateRow::new(331_000, 330_000, 328_000, 317_000, 315_000, 300_000));
    push_spec_row(t, Ghost(casado_titular_unico_2022_rows()), 30, 14_013_000_000, RateRow::new(344_000, 343_000, 338_000, 326_000, 324_000, 313_000));
    push_spec_row(t, Ghost(casado_titular_unico_2022_rows()), 31, 20_118_000_000, RateRow::new(364_000, 363_000, 362_000, 351_000, 349_000, 337_000));
    push_spec_row(t, Ghost(casado_titular_unico_2022_rows()), 32, 22_749_000_000, RateRow::new(373_000, 372_000, 371_000, 365_000, 359_000, 347_000));
    push_spec_row(t, Ghost(casado_titular_unico_2022_rows()), 33, 25_276_000_000, RateRow::new(383_000, 382_000, 381_000, 374_000, 372_000, 357_000));
    push_spec_row(t, Ghost(casado_titular_unico_2022_rows()), 34, 28_309_000_000, RateRow::new(393_000, 392_000, 391_000, 384_000, 382_000, 370_000));
}

/// The 2022 withholding table for married single-earner couples, holding exactly the
/// published rows.
fn casado_titular_unico_2022() -> (t: RetentionTable)
    ensures
        t.wf(),
        is_casado_titular_unico_2022(t),
{
    let mut t = RetentionTable::new(RateRow::new(403_000, 402_000, 401_000, 394_000, 392_000, 380_000));
    proof {
        assert(t.lines@ =~= casado_titular_unico_2022_rows().subrange(0, 0));
    }
    casado_titular_unico_2022_part0(&mut t);
    casado_titular_unico_2022_part1(&mut t);
    casado_titular_unico_2022_part2(&mut t);
    casado_titular_unico_2022_part3(&mut t);
    casado_titular_unico_2022_part4(&mut t);
    proof {
        assert(casado_titular_unico_2022_rows().subrange(0, 35) =~= casado_titular_unico_2022_rows());
    }
    t
}

/// Rows 0 through 6 of the 2022 table for married dual-earner couples.
fn casado_dois_titulares_2022_part0(t: &mut RetentionTable)
    requires
        old(t).wf(),
        old(t).top == casado_dois_titulares_2022_top(),
        old(t).lines@ == casado_dois_titulares_2022_rows().subrange(0, 0),
    ensures
        final(t).wf(),
        final(t).top == old(t).top,
        final(t).lines@ == casado_dois_titulares_2022_rows().subrange(0, 7),
{
    push_spec_row(t, Ghost(casado_dois_titulares_2022_rows()), 0, 710_000_000, RateRow::new(0, 0, 0, 0, 0, 0));
    push_spec_row(t, Ghost(casado_dois_titulares_2022_rows()), 1, 720_000_000, RateRow::new(18_000, 17_000, 0, 0, 0, 0));
    push_spec_row(t, Ghost(casado_dois_titulares_2022_rows()), 2, 740_000_000, RateRow::new(45_000, 34_000, 5_000, 0, 0, 0));
    push_spec_row(t, Ghost(casado_dois_titulares_2022_rows()), 3, 754_000_000, RateRow::new(63_000, 37_000, 10_000, 0, 0, 0));
    push_spec_row(t, Ghost(casado_dois_titulares_2022_rows()), 4, 814_000_000, RateRow::new(79_000, 51_000, 34_000, 25_000, 6_000, 0));
    push_spec_row(t, Ghost(casado_dois_titulares_2022_rows()), 5, 922_000_000, RateRow::new(101_000, 73_000, 65_000, 38_000, 31_000, 12_000));
    push_spec_row(t, Ghost(casado_dois_titulares_2022_rows()), 6, 1_005_000_000, RateRow::new(113_000, 86_000, 78_000, 51_000, 44_000, 31_000));
}

/// Rows 7 through 13 of the 2022 table for married dual-earner couples.
fn casado_dois_titulares_2022_part1(t: &mut RetentionTable)
    requires
        old(t).wf(),
        old(t).top == casado_dois_titulares_2022_top(),
        old(t).lines@ == casado_dois_titulares_2022_rows().subrange(0, 7),
    ensures
        final(t).wf(),
        final(t).top == old(t).top,
        final(t).lines@ == casado_dois_titulares_2022_rows().subrange(0, 14),
{
    push_spec_row(t, Ghost(casado_dois_titulares_2022_rows()), 7, 1_065_000_000, RateRow::new(121_000, 95_000, 86_000, 60_000, 48_000, 39_000));
    push_spec_row(t, Ghost(casado_dois_titulares_2022_rows()), 8, 1_143_000_000, RateRow::new(131_000, 114_000, 106_000, 79_000, 71_000, 53_000));
    push_spec_row(t, Ghost(casado_dois_titulares_2022_rows()), 9, 1_225_000_000, RateRow::new(141_000, 124_000, 115_000, 89_000, 80_000, 63_000));
    push_spec_row(t, Ghost(casado_dois_titulares_2022_rows()), 10, 1_321_000_000, RateRow::new(151_000, 144_000, 126_000, 107_000, 90_000, 81_000));
    push_spec_row(t, Ghost(casado_dois_titulares_2022_rows()), 11, 1_424_000_000, RateRow::new(161_000, 153_000, 136_000, 119_000, 100_000, 92_000));
    push_spec_row(t, Ghost(casado_dois_titulares_2022_rows()), 12, 1_562_000_000, RateRow::new(171_000, 164_000, 146_000, 128_000, 111_000, 102_000));
    push_spec_row(t, Ghost(casado_dois_titulares_2022_rows()), 13, 1_711_000_000, RateRow::new(185_000, 177_000, 161_000, 143_000, 134_000, 117_000));
}

/// Rows 14 through 20 of the 2022 table for married dual-earner couples.
fn casado_dois_titulares_2022_part2(t: &mut RetentionTable)
    requires
        old(t).wf(),
        old(t).top == casado_dois_titulares_2022_top(),
        old(t).lines@ == casado_dois_titulares_2022_rows().subrange(0, 14),
    ensures
        final(t).wf(),
        final(t).top == old(t).top,
        final(t).lines@ == casado_dois_titulares_2022_rows().subrange(0, 21),
{
    push_spec_row(t, Ghost(casado_dois_titulares_2022_rows()), 14, 1_870_000_000, RateRow::new(199_000, 193_000, 176_000, 160_000, 152_000, 135_000));
    push_spec_row(t, Ghost(casado_dois_titulares_2022_rows()), 15, 1_977_000_000, RateRow::new(209_000, 204_000, 185_000, 169_000, 161_000, 145_000));
    push_spec_row(t, Ghost(casado_dois_titulares_2022_rows()), 16, 2_090_000_000, RateRow::new(219_000, 214_000, 196_000, 177_000, 170_000, 163_000));
    push_spec_row(t, Ghost(casado_dois_titulares_2022_rows()), 17, 2_218_000_000, RateRow::new(228_000, 223_000, 207_000, 189_000, 179_000, 173_000));
    push_spec_row(t, Ghost(casado_dois_titulares_2022_rows()), 18, 2_367_000_000, RateRow::new(238_000, 234_000, 226_000, 199_000, 191_000, 182_000));
    push_spec_row(t, Ghost(casado_dois_titulares_2022_rows()), 19, 2_535_000_000, RateRow::new(248_000, 244_000, 236_000, 210_000, 202_000, 194_000));
    push_spec_row(t, Ghost(casado_dois_titulares_2022_rows()), 20, 2_767_000_000, RateRow::new(257_000, 252_000, 246_000, 219_000, 212_000, 204_000));
}

/// Rows 21 through 27 of the 2022 table for married dual-earner couples.
fn casado_dois_titulares_2022_part3(t: &mut RetentionTable)
    requires
        old(t).wf(),
        old(t).top == casado_dois_titulares_2022_top(),
        old(t).lines@ == casado_dois_titulares_2022_rows().subrange(0, 21),
    ensures
        final(t).wf(),
        final(t).top == old(t).top,
        final(t).lines@ == casado_dois_titulares_2022_rows().subrange(0, 28),
{
    push_spec_row(t, Ghost(casado_dois_titulares_2022_rows()), 21, 3_104_000_000, RateRow::new(269_000, 265_000, 257_000, 231_000, 223_000, 216_000));
    push_spec_row(t, Ghost(casado_dois_titulares_2022_rows()), 22, 3_534_000_000, RateRow::new(285_000, 284_000, 280_000, 257_000, 253_000, 249_000));
    push_spec_row(t, Ghost(casado_dois_titulares_2022_rows()), 23, 4_118_000_000, RateRow::new(296_000, 295_000, 290_000, 276_000, 263_000, 259_000));
    push_spec_row(t, Ghost(casado_dois_titulares_2022_rows()), 24, 4_650_000_000, RateRow::new(314_000, 311_000, 307_000, 290_000, 277_000, 273_000));
    push_spec_row(t, Ghost(casado_dois_titulares_2022_rows()), 25, 5_194_000_000, RateRow::new(323_000, 320_000, 316_000, 303_000, 296_000, 283_000));
    push_spec_row(t, Ghost(casado_dois_titulares_2022_rows()), 26, 5_880_000_000, RateRow::new(333_000, 330_000, 326_000, 313_000, 309_000, 292_000));
    push_spec_row(t, Ghost(casado_dois_titulares_2022_rows()), 27, 6_727_000_000, RateRow::new(352_000, 350_000, 345_000, 338_000, 336_000, 334_000));
}

/// Rows 28 through 34 of the 2022 table for married dual-earner couples.
fn casado_dois_titulares_2022_part4(t: &mut RetentionTable)
    requires
        old(t).wf(),
        old(t).top == casado_dois_titulares_2022_top(),
        old(t).lines@ == casado_dois_titulares_2022_rows().subrange(0, 28),
    ensures
        final(t).wf(),
        final(t).top == old(t).top,
        final(t).lines@ == casado_dois_titulares_2022_rows().subrange(0, 35),
{
    push_spec_row(t, Ghost(casado_dois_titulares_2022_rows()), 28, 7_939_000_000, RateRow::new(362_000, 360_000, 358_000, 347_000, 346_000, 344_000));
    push_spec_row(t, Ghost(casado_dois_titulares_2022_rows()), 29, 9_560_000_000, RateRow::new(381_000, 379_000, 377_000, 366_000, 364_000, 363_000));
    push_spec_row(t, Ghost(casado_dois_titulares_2022_rows()), 30, 11_282_000_000, RateRow::new(391_000, 389_000, 387_000, 380_000, 374_000, 372_000));
    push_spec_row(t, Ghost(casado_dois_titulares_2022_rows()), 31, 18_854_000_000, RateRow::new(401_000, 399_000, 397_000, 390_000, 388_000, 382_000));
    push_spec_row(t, Ghost(casado_dois_titulares_2022_rows()), 32, 20_221_000_000, RateRow::new(411_000, 409_000, 407_000, 400_000, 398_000, 392_000));
    push_spec_row(t, Ghost(casado_dois_titulares_2022_rows()), 33, 22_749_000_000, RateRow::new(418_000, 417_000, 416_000, 410_000, 408_000, 404_000));
    push_spec_row(t, Ghost(casado_dois_titulares_2022_rows()), 34, 25_276_000_000, RateRow::new(428_000, 427_000, 426_000, 419_000, 417_000, 415_000));
}

/// The 2022 withholding table for married dual-earner couples, holding exactly the
/// published rows.
fn casado_dois_titulares_2022() -> (t: RetentionTable)
    ensures
        t.wf(),
        is_casado_dois_titulares_2022(t),
{
    let mut t = RetentionTable::new(RateRow::new(438_000, 437_000, 436_000, 429_000, 427_000, 425_000));
    proof {
        assert(t.lines@ =~= casado_dois_titulares_2022_rows().subrange(0, 0));
    }
    casado_dois_titulares_2022_part0(&mut t);
    casado_dois_titulares_2022_part1(&mut t);
    casado_dois_titulares_2022_part2(&mut t);
    casado_dois_titulares_2022_part3(&mut t);
    casado_dois_titulares_2022_part4(&mut t);
    proof {
        assert(casado_dois_titulares_2022_rows().subrange(0, 35) =~= casado_dois_titulares_2022_rows());
    }
    t
}

/// The three withholding tables of tax year 2022, holding exactly the
/// published rows.
pub fn retention_tables_2022() -> (t: RetentionTables)
    ensures
        t.wf(),
        is_tables_2022(t),
{
    RetentionTables {
        nao_casado: nao_casado_2022(),
        casado_titular_unico: casado_titular_unico_2022(),
        casado_dois_titulares: casado_dois_titulares_2022(),
    }
}

/// The withholding tables of the requested tax year; years without supplied
/// tables are reported, never defaulted.
pub fn retention_tables_for_year(year: u32) -> (r: Result<RetentionTables, IrsError>)
    ensures
        r is Ok <==> year == 2022,
        r is Ok ==> r->Ok_0.wf() && is_tables_2022(r->Ok_0),
        r is Err ==> r->Err_0 == IrsError::UnsupportedYear,
{
    if year == 2022 {
        Ok(retention_tables_2022())
    } else {
        Err(IrsError::UnsupportedYear)
    }
}

/// The withholding rate of one gross monthly payment under the published
/// 2022 tables.
pub fn tax(gross: &Rate, family: &FamilyElement) -> (r: Result<TaxRate, IrsError>)
    ensures
        r is Ok <==> is_monthly(gross.freq),
        r is Ok ==> r->Ok_0@ == lookup_2022_ppm(gross.value@, *family) && r->Ok_0@ <= RATE_ONE,
        r is Err ==> r->Err_0 == IrsError::NonMonthlyPeriod,
{
    let tables = retention_tables_2022();
    tables.tax(gross, family)
}

} // verus!
