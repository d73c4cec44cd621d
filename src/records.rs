use vstd::prelude::*;

verus! {

/// Visitors counted on one day of the reporting period.
pub struct TimeseriesPoint {
    /// A calendar date such as `2021-05-14`.
    pub date: String,
    pub visitors: Option<u64>,
}

/// Totals over the reporting period, each of which may be missing.
pub struct AggregateTotals {
    pub visitors: Option<u64>,
    pub pageviews: Option<u64>,
    /// A percentage.
    pub bounce_rate: Option<u64>,
    /// In seconds.
    pub visit_duration: Option<u64>,
}

/// Totals with every missing value set to zero.
#[derive(Clone, Copy, Debug, PartialEq, Eq, Structural)]
pub struct Totals {
    pub visitors: u64,
    pub pageviews: u64,
    pub bounce_rate: u64,
    pub visit_duration: u64,
}

/// One row of a ranked breakdown: a traffic source or a page path.
pub struct BreakdownRow {
    pub label: String,
    pub visitors: Option<u64>,
    /// The bounce percentage, as its decimal writing (`"37.5"`).
    pub bounce_rate: Option<String>,
}

/// A breakdown row with every missing value set to zero.
pub struct NormalizedRow {
    pub label: String,
    pub visitors: u64,
    pub bounce_rate: String,
}

/// A missing count counts as zero.
pub open spec fn or_zero(v: Option<u64>) -> u64 {
    match v {
        Some(n) => n,
        None => 0,
    }
}

/// A missing rate reads as zero.
pub open spec fn rate_or_zero(v: Option<String>) -> Seq<char> {
    match v {
        Some(s) => s@,
        None => seq!['0'],
    }
}

pub fn count_or_zero(v: Option<u64>) -> (r: u64)
    ensures
        r == or_zero(v),
{
    match v {
        Some(n) => n,
        None => 0,
    }
}

impl AggregateTotals {
    pub fn normalize(&self) -> (r: Totals)
        ensures
            r.visitors == or_zero(self.visitors),
            r.pageviews == or_zero(self.pageviews),
            r.bounce_rate == or_zero(self.bounce_rate),
            r.visit_duration == or_zero(self.visit_duration),
    {
        Totals {
            visitors: count_or_zero(self.visitors),
            pageviews: count_or_zero(self.pageviews),
            bounce_rate: count_or_zero(self.bounce_rate),
            visit_duration: count_or_zero(self.visit_duration),
        }
    }
}

impl BreakdownRow {
    pub fn normalize(&self) -> (r: NormalizedRow)
        ensures
            r.label@ == self.label@,
            r.visitors == or_zero(self.visitors),
            r.bounce_rate@ == rate_or_zero(self.bounce_rate),
    {
        let bounce_rate = match &self.bounce_rate {
            Some(s) => s.clone(),
            None => {
                proof {
                    reveal_strlit("0");
                }
                String::from_str("0")
            },
        };
        NormalizedRow {
            label: self.label.clone(),
            visitors: count_or_zero(self.visitors),
            bounce_rate,
        }
    }
}

/// Normalizes each row, keeping their order.
pub fn normalize_rows(rows: &Vec<BreakdownRow>) -> (r: Vec<NormalizedRow>)
    ensures
        r.len() == rows.len(),
        forall|i: int|
            0 <= i < rows.len() ==> {
                &&& (#[trigger] r[i]).label@ == rows[i].label@
                &&& r[i].visitors == or_zero(rows[i].visitors)
                &&& r[i].bounce_rate@ == rate_or_zero(rows[i].bounce_rate)
            },
{
    let mut out: Vec<NormalizedRow> = Vec::new();
    let mut i: usize = 0;
    while i < rows.len()
        invariant
            0 <= i <= rows.len(),
            out.len() == i,
            forall|j: int|
                0 <= j < i ==> {
                    &&& (#[trigger] out[j]).label@ == rows[j].label@
                    &&& out[j].visitors == or_zero(rows[j].visitors)
                    &&& out[j].bounce_rate@ == rate_or_zero(rows[j].bounce_rate)
                },
        decreases rows.len() - i,
    {
        out.push(rows[i].normalize());
        i = i + 1;
    }
    out
}

} // verus!
