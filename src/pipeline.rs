use crate::aggregate::{aggregate, label_of};
use crate::layout::{Constraint, Rect};
use crate::panels::{
    bar_views, build_panels, full_rects, is_chart, is_summary, is_table, row_cells, simple_rect,
    Mode, Panel,
};
use crate::records::{
    normalize_rows, or_zero, rate_or_zero, AggregateTotals, BreakdownRow, NormalizedRow,
    TimeseriesPoint,
};
use crate::text::decimal;
use vstd::prelude::*;

verus! {

/// The chart's bars for a timeseries: each point's label and visitors, in order.
pub open spec fn point_bars(points: Seq<TimeseriesPoint>) -> Seq<(Seq<char>, u64)> {
    points.map_values(|p: TimeseriesPoint| (label_of(p.date@), or_zero(p.visitors)))
}

/// The table cells for breakdown rows: visitors, label, bounce rate and a percent sign, in order.
pub open spec fn breakdown_cells(rows: Seq<BreakdownRow>) -> Seq<Seq<Seq<char>>> {
    rows.map_values(
        |r: BreakdownRow|
            seq![
                decimal(or_zero(r.visitors) as nat),
                r.label@,
                rate_or_zero(r.bounce_rate) + seq!['%'],
            ],
    )
}

/// From the fetched records to the panels to draw and where to draw them.
pub fn dashboard(
    mode: Mode,
    area: Rect,
    points: &Vec<TimeseriesPoint>,
    totals: &AggregateTotals,
    sources: &Vec<BreakdownRow>,
    pages: &Vec<BreakdownRow>,
) -> (r: Vec<(Panel, Rect)>)
    requires
        area.wf(),
    ensures
        mode == Mode::Simple ==> {
            &&& r.len() == 1
            &&& is_chart(r[0].0, point_bars(points@), Constraint::Percentage(100))
            &&& r[0].1 == simple_rect(area)
        },
        mode == Mode::Full ==> {
            &&& r.len() == 7
            &&& forall|i: int| 0 <= i < 7 ==> (#[trigger] r[i]).1 == full_rects(area)[i]
            &&& is_summary(r[0].0, "Total Visitors"@, decimal(or_zero(totals.visitors) as nat))
            &&& is_summary(r[1].0, "Total Pageviews"@, decimal(or_zero(totals.pageviews) as nat))
            &&& is_summary(
                r[2].0,
                "Bounce Rate"@,
                decimal(or_zero(totals.bounce_rate) as nat) + seq!['%'],
            )
            &&& is_summary(
                r[3].0,
                "Visit Duration"@,
                decimal(or_zero(totals.visit_duration) as nat) + seq!['s'],
            )
            &&& is_chart(r[4].0, point_bars(points@), Constraint::Min(10))
            &&& is_table(r[5].0, "Top Sources"@, "Source"@, breakdown_cells(sources@))
            &&& is_table(r[6].0, "Top Pages"@, "Page"@, breakdown_cells(pages@))
        },
{
    let data = aggregate(points);
    assert(bar_views(data.bars@) =~= point_bars(points@));
    let normalized = totals.normalize();
    let source_rows = normalize_rows(sources);
    let page_rows = normalize_rows(pages);
    assert(source_rows@.map_values(|r: NormalizedRow| row_cells(r)) =~= breakdown_cells(sources@));
    assert(page_rows@.map_values(|r: NormalizedRow| row_cells(r)) =~= breakdown_cells(pages@));
    build_panels(mode, area, &data, &normalized, &source_rows, &page_rows)
}

} // verus!
