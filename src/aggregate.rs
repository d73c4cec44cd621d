use crate::records::{or_zero, TimeseriesPoint};
use vstd::prelude::*;

verus! {

/// The short label of a date: its last two characters, the day of the month.
/// A date shorter than that is padded with zeros on the left.
pub open spec fn label_of(date: Seq<char>) -> Seq<char> {
    if date.len() >= 2 {
        date.subrange(date.len() - 2, date.len() as int)
    } else {
        Seq::new((2 - date.len()) as nat, |i: int| '0') + date
    }
}

/// Sum of the visitor counts of the first `k` points, a missing count being zero.
pub open spec fn visitors_upto(points: Seq<TimeseriesPoint>, k: int) -> int
    decreases k,
{
    if k <= 0 {
        0
    } else {
        visitors_upto(points, k - 1) + or_zero(points[k - 1].visitors)
    }
}

/// What the chart shows: one `(label, visitors)` bar per point, in order, and the sum of the
/// visitors.
pub struct DashboardDataset {
    pub bars: Vec<(String, u64)>,
    pub total: u128,
}

/// The label of a date.
pub fn label(date: &str) -> (r: String)
    ensures
        r@ == label_of(date@),
        r@.len() == 2,
{
    let n = date.unicode_len();
    if n >= 2 {
        String::from_str(date.substring_char(n - 2, n))
    } else if n == 1 {
        proof {
            reveal_strlit("0");
        }
        let r = String::from_str("0").concat(date);
        assert(r@ =~= label_of(date@));
        r
    } else {
        proof {
            reveal_strlit("00");
        }
        let r = String::from_str("00");
        assert(r@ =~= label_of(date@));
        r
    }
}

/// A label is its own label: deriving it once more changes nothing.
pub proof fn lemma_label_idempotent(date: Seq<char>)
    ensures
        label_of(label_of(date)) == label_of(date),
{
    let l = label_of(date);
    assert(l.len() == 2);
    assert(l.subrange(0, 2) =~= l);
}

/// Labels each point and adds up the visitors, keeping the points' order.
pub fn aggregate(points: &Vec<TimeseriesPoint>) -> (r: DashboardDataset)
    ensures
        r.bars.len() == points.len(),
        forall|i: int|
            0 <= i < points.len() ==> {
                &&& (#[trigger] r.bars[i]).0@ == label_of(points[i].date@)
                &&& r.bars[i].1 == or_zero(points[i].visitors)
            },
        r.total == visitors_upto(points@, points.len() as int),
{
    let mut bars: Vec<(String, u64)> = Vec::new();
    let mut total: u128 = 0;
    let mut i: usize = 0;
    while i < points.len()
        invariant
            0 <= i <= points.len(),
            bars.len() == i,
            forall|j: int|
                0 <= j < i ==> {
                    &&& (#[trigger] bars[j]).0@ == label_of(points[j].date@)
                    &&& bars[j].1 == or_zero(points[j].visitors)
                },
            total == visitors_upto(points@, i as int),
            total <= 18446744073709551615 * i,
        decreases points.len() - i,
    {
        let p = &points[i];
        let visitors: u64 = match p.visitors {
            Some(v) => v,
            None => 0,
        };
        bars.push((label(p.date.as_str()), visitors));
        total = total + visitors as u128;
        i = i + 1;
    }
    DashboardDataset { bars, total }
}

} // verus!
