use vstd::prelude::*;

verus! {

/// Amounts are held as whole ten-thousandths of the currency unit: `19.90`
/// is `199_000`.
pub const AMOUNT_SCALE: i64 = 10_000;

/// `v` rounded to a whole hundredth of the currency unit (a multiple of 100
/// in ten-thousandths), halves away from zero.
pub open spec fn round2_spec(v: int) -> int {
    if v >= 0 {
        ((v + 50) / 100) * 100
    } else {
        -(((-v + 50) / 100) * 100)
    }
}

/// Rounds an amount to two decimal places, halves away from zero.
pub fn round2(val: i64) -> (r: i64)
    ensures
        r == round2_spec(val as int),
{
    let v = val as i128;
    if v >= 0 {
        let q = (v + 50) / 100;
        assert(q <= 92233720368547758);
        (q * 100) as i64
    } else {
        let q = (-v + 50) / 100;
        assert(q <= 92233720368547758);
        (-(q * 100)) as i64
    }
}

/// Rounding an amount that is already rounded leaves it as it is.
pub proof fn lemma_round2_idempotent(v: int)
    ensures
        round2_spec(round2_spec(v)) == round2_spec(v),
{
    if v >= 0 {
        let q = (v + 50) / 100;
        assert(q >= 0);
        assert((q * 100 + 50) / 100 == q) by (nonlinear_arith)
            requires
                q >= 0,
        ;
    } else {
        let q = (-v + 50) / 100;
        assert(q >= 0);
        assert((q * 100 + 50) / 100 == q) by (nonlinear_arith)
            requires
                q >= 0,
        ;
        if q == 0 {
            assert(round2_spec(v) == 0);
        }
    }
}

/// Zero rounds to zero (integers have no negative zero).
pub proof fn lemma_round2_zero()
    ensures
        round2_spec(0) == 0,
{
}

/// Sum of a sequence of amounts.
pub open spec fn sum_of(s: Seq<i64>) -> int
    decreases s.len(),
{
    if s.len() == 0 {
        0
    } else {
        sum_of(s.drop_last()) + s.last()
    }
}

/// Count and rounded total of the payments that one processor handled.
#[derive(Clone, Copy, Debug, PartialEq, Eq)]
pub struct SummaryData {
    pub total_requests: i64,
    pub total_amount: i64,
}

/// Totals of both processors: `default` is the primary, `fallback` the secondary.
#[derive(Clone, Copy, Debug, PartialEq, Eq)]
pub struct PaymentsSummary {
    pub default: SummaryData,
    pub fallback: SummaryData,
}

/// The totals of a list of amounts, when the count and the sum fit in `i64`.
pub open spec fn summary_of(s: Seq<i64>) -> Option<SummaryData> {
    if s.len() <= i64::MAX && i64::MIN <= sum_of(s) <= i64::MAX {
        Some(SummaryData { total_requests: s.len() as i64, total_amount: round2_spec(sum_of(s)) as i64 })
    } else {
        None
    }
}

impl SummaryData {
    pub fn zero() -> (r: SummaryData)
        ensures
            r == (SummaryData { total_requests: 0, total_amount: 0 }),
    {
        SummaryData { total_requests: 0, total_amount: 0 }
    }

    /// Counts the amounts and sums them, the sum rounded to two decimals.
    /// `None` when the count or the sum does not fit in `i64`.
    pub fn of_amounts(amounts: &Vec<i64>) -> (r: Option<SummaryData>)
        ensures
            r == summary_of(amounts@),
    {
        let mut acc: i128 = 0;
        let mut i: usize = 0;
        while i < amounts.len()
            invariant
                i <= amounts.len(),
                acc == sum_of(amounts@.take(i as int)),
                -(i as int) * 0x8000_0000_0000_0000 <= acc <= (i as int) * 0x8000_0000_0000_0000,
            decreases amounts.len() - i,
        {
            assert(amounts@.take(i as int + 1).drop_last() == amounts@.take(i as int));
            acc = acc + amounts[i] as i128;
            i = i + 1;
        }
        assert(amounts@.take(amounts.len() as int) == amounts@);
        if amounts.len() as u128 > i64::MAX as u128 || acc < i64::MIN as i128 || acc > i64::MAX as i128 {
            None
        } else {
            Some(SummaryData { total_requests: amounts.len() as i64, total_amount: round2(acc as i64) })
        }
    }
}

impl PaymentsSummary {
    /// Totals with nothing counted on either side.
    pub fn zero() -> (r: PaymentsSummary)
        ensures
            r.default == (SummaryData { total_requests: 0, total_amount: 0 }),
            r.fallback == (SummaryData { total_requests: 0, total_amount: 0 }),
    {
        PaymentsSummary { default: SummaryData::zero(), fallback: SummaryData::zero() }
    }

    /// Totals from the amounts each processor recorded in the queried window.
    pub fn of_amounts(default_amounts: &Vec<i64>, fallback_amounts: &Vec<i64>) -> (r: Option<PaymentsSummary>)
        ensures
            r is Some <==> (summary_of(default_amounts@) is Some && summary_of(fallback_amounts@) is Some),
            r matches Some(t) ==> Some(t.default) == summary_of(default_amounts@) && Some(t.fallback)
                == summary_of(fallback_amounts@),
    {
        let d = SummaryData::of_amounts(default_amounts);
        let f = SummaryData::of_amounts(fallback_amounts);
        match (d, f) {
            (Some(d), Some(f)) => Some(PaymentsSummary { default: d, fallback: f }),
            _ => None,
        }
    }
}

} // verus!
