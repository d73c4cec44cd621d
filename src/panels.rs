use crate::aggregate::DashboardDataset;
use crate::layout::{
    lemma_partition_tiles, lemma_shrink_wf, partition, segments, shrink, Constraint, Direction,
    Rect,
};
use crate::records::{NormalizedRow, Totals};
use crate::text::{decimal, decimal_text, with_suffix};
use vstd::prelude::*;

verus! {

/// Which dashboard to lay out.
#[derive(Clone, Copy, Debug, PartialEq, Eq, Structural)]
pub enum Mode {
    /// The bar chart alone.
    Simple,
    /// Four summary cells, the bar chart, and the two breakdown tables.
    Full,
}

/// A table: a header row, the column widths, then one row of cells per record.
pub struct Table {
    pub header: Vec<String>,
    pub widths: Vec<Constraint>,
    pub rows: Vec<Vec<String>>,
}

/// What a panel shows inside its frame.
pub enum Content {
    /// A single figure, centered below a blank line.
    Summary(String),
    /// One bar per `(label, value)` pair.
    Bars(Vec<(String, u64)>),
    Table(Table),
}

/// A titled, framed region of the dashboard and the rule that sized it.
pub struct Panel {
    pub title: String,
    pub constraint: Constraint,
    pub content: Content,
}

pub open spec fn views(cells: Seq<String>) -> Seq<Seq<char>> {
    cells.map_values(|s: String| s@)
}

/// The cells of a breakdown row: visitors, label, bounce rate with a percent sign.
pub open spec fn row_cells(r: NormalizedRow) -> Seq<Seq<char>> {
    seq![decimal(r.visitors as nat), r.label@, r.bounce_rate@ + seq!['%']]
}

/// Each bar as its label's characters and its value.
pub open spec fn bar_views(bars: Seq<(String, u64)>) -> Seq<(Seq<char>, u64)> {
    bars.map_values(|b: (String, u64)| (b.0@, b.1))
}

/// Each row as the characters of its cells.
pub open spec fn row_views(rows: Seq<Vec<String>>) -> Seq<Seq<Seq<char>>> {
    rows.map_values(|r: Vec<String>| views(r@))
}

pub open spec fn is_summary(p: Panel, title: Seq<char>, value: Seq<char>) -> bool {
    &&& p.title@ == title
    &&& p.constraint == Constraint::Percentage(25)
    &&& p.content matches Content::Summary(s) && s@ == value
}

pub open spec fn is_chart(p: Panel, bars: Seq<(Seq<char>, u64)>, c: Constraint) -> bool {
    &&& p.title@ == "Stats"@
    &&& p.constraint == c
    &&& p.content matches Content::Bars(b) && bar_views(b@) == bars
}

pub open spec fn is_table(
    p: Panel,
    title: Seq<char>,
    column: Seq<char>,
    rows: Seq<Seq<Seq<char>>>,
) -> bool {
    &&& p.title@ == title
    &&& p.constraint == Constraint::Percentage(50)
    &&& p.content matches Content::Table(t) && {
        &&& views(t.header@) == seq!["Visitors"@, column, "BNC"@]
        &&& t.widths@ == seq![
            Constraint::Length(10),
            Constraint::Min(16),
            Constraint::Length(5),
        ]
        &&& row_views(t.rows@) == rows
    }
}

/// The regions of the full dashboard, in panel order: four summary cells, the chart, two tables.
pub open spec fn full_rects(area: Rect) -> Seq<Rect> {
    let bands = segments(
        shrink(area, 1),
        Direction::Vertical,
        seq![Constraint::Length(5), Constraint::Min(10), Constraint::Length(16)],
    );
    let cells = segments(
        shrink(bands[0], 0),
        Direction::Horizontal,
        seq![
            Constraint::Percentage(25),
            Constraint::Percentage(25),
            Constraint::Percentage(25),
            Constraint::Percentage(25),
        ],
    );
    let halves = segments(
        shrink(bands[2], 0),
        Direction::Horizontal,
        seq![Constraint::Percentage(50), Constraint::Percentage(50)],
    );
    cells + seq![bands[1]] + halves
}

/// The region of the simple dashboard's chart.
pub open spec fn simple_rect(area: Rect) -> Rect {
    segments(shrink(area, 1), Direction::Vertical, seq![Constraint::Percentage(100)])[0]
}

fn summary_panel(title: &str, value: String) -> (r: Panel)
    ensures
        is_summary(r, title@, value@),
{
    Panel {
        title: String::from_str(title),
        constraint: Constraint::Percentage(25),
        content: Content::Summary(value),
    }
}

fn copy_bars(bars: &Vec<(String, u64)>) -> (r: Vec<(String, u64)>)
    ensures
        bar_views(r@) == bar_views(bars@),
{
    let mut out: Vec<(String, u64)> = Vec::new();
    let mut i: usize = 0;
    while i < bars.len()
        invariant
            0 <= i <= bars.len(),
            out.len() == i,
            forall|j: int| 0 <= j < i ==> (#[trigger] out[j]).0@ == bars[j].0@ && out[j].1 == bars[j].1,
        decreases bars.len() - i,
    {
        out.push((bars[i].0.clone(), bars[i].1));
        i = i + 1;
    }
    assert(bar_views(out@) =~= bar_views(bars@));
    out
}

fn chart_panel(bars: &Vec<(String, u64)>, constraint: Constraint) -> (r: Panel)
    ensures
        is_chart(r, bar_views(bars@), constraint),
{
    Panel {
        title: String::from_str("Stats"),
        constraint,
        content: Content::Bars(copy_bars(bars)),
    }
}

/// The cells of one breakdown row.
pub fn table_row(row: &NormalizedRow) -> (r: Vec<String>)
    ensures
        views(r@) == row_cells(*row),
{
    proof {
        reveal_strlit("%");
        assert("%"@ =~= seq!['%']);
    }
    let r = vec![
        decimal_text(row.visitors),
        row.label.clone(),
        with_suffix(row.bounce_rate.clone(), "%"),
    ];
    assert(views(r@)[2] == row_cells(*row)[2]);
    assert(views(r@) =~= row_cells(*row));
    r
}

fn table_panel(title: &str, column: &str, rows: &Vec<NormalizedRow>) -> (r: Panel)
    ensures
        is_table(r, title@, column@, rows@.map_values(|r: NormalizedRow| row_cells(r))),
{
    let header = vec![String::from_str("Visitors"), String::from_str(column), String::from_str("BNC")];
    assert(views(header@) =~= seq!["Visitors"@, column@, "BNC"@]);
    let mut cells: Vec<Vec<String>> = Vec::new();
    let mut i: usize = 0;
    while i < rows.len()
        invariant
            0 <= i <= rows.len(),
            cells.len() == i,
            forall|j: int| 0 <= j < i ==> views(#[trigger] cells[j]@) == row_cells(rows[j]),
        decreases rows.len() - i,
    {
        cells.push(table_row(&rows[i]));
        i = i + 1;
    }
    assert(row_views(cells@) =~= rows@.map_values(|r: NormalizedRow| row_cells(r)));
    Panel {
        title: String::from_str(title),
        constraint: Constraint::Percentage(50),
        content: Content::Table(
            Table {
                header,
                widths: vec![Constraint::Length(10), Constraint::Min(16), Constraint::Length(5)],
                rows: cells,
            },
        ),
    }
}

/// The panels of the dashboard in `mode`, each with the region of `area` it is drawn in.
///
/// The full dashboard takes a margin of one cell, then stacks a band of five rows of four equal
/// summary cells, the chart (at least ten rows), and a band of sixteen rows split in two equal
/// halves for the source and page tables. The simple dashboard gives the whole margined area to
/// the chart.
pub fn build_panels(
    mode: Mode,
    area: Rect,
    data: &DashboardDataset,
    totals: &Totals,
    sources: &Vec<NormalizedRow>,
    pages: &Vec<NormalizedRow>,
) -> (r: Vec<(Panel, Rect)>)
    requires
        area.wf(),
    ensures
        mode == Mode::Simple ==> {
            &&& r.len() == 1
            &&& is_chart(r[0].0, bar_views(data.bars@), Constraint::Percentage(100))
            &&& r[0].1 == simple_rect(area)
        },
        mode == Mode::Full ==> {
            &&& r.len() == 7
            &&& forall|i: int| 0 <= i < 7 ==> (#[trigger] r[i]).1 == full_rects(area)[i]
            &&& is_summary(r[0].0, "Total Visitors"@, decimal(totals.visitors as nat))
            &&& is_summary(r[1].0, "Total Pageviews"@, decimal(totals.pageviews as nat))
            &&& is_summary(r[2].0, "Bounce Rate"@, decimal(totals.bounce_rate as nat) + seq!['%'])
            &&& is_summary(r[3].0, "Visit Duration"@, decimal(totals.visit_duration as nat) + seq!['s'])
            &&& is_chart(r[4].0, bar_views(data.bars@), Constraint::Min(10))
            &&& is_table(r[5].0, "Top Sources"@, "Source"@, sources@.map_values(|r: NormalizedRow| row_cells(r)))
            &&& is_table(r[6].0, "Top Pages"@, "Page"@, pages@.map_values(|r: NormalizedRow| row_cells(r)))
        },
{
    proof {
        reveal_strlit("%");
        reveal_strlit("s");
        assert("%"@ =~= seq!['%']);
        assert("s"@ =~= seq!['s']);
    }
    let mut out: Vec<(Panel, Rect)> = Vec::new();
    match mode {
        Mode::Simple => {
            let whole = vec![Constraint::Percentage(100)];
            let regions = partition(area, Direction::Vertical, 1, &whole);
            assert(whole@ =~= seq![Constraint::Percentage(100)]);
            out.push((chart_panel(&data.bars, Constraint::Percentage(100)), regions[0]));
        },
        Mode::Full => {
            let band_rules = vec![Constraint::Length(5), Constraint::Min(10), Constraint::Length(16)];
            let bands = partition(area, Direction::Vertical, 1, &band_rules);
            proof {
                lemma_partition_tiles(area, Direction::Vertical, 1, band_rules@);
                lemma_shrink_wf(area, 1);
                assert(shrink(area, 1).encloses(bands[0]));
                assert(shrink(area, 1).encloses(bands[2]));
            }
            let cell_rules = vec![
                Constraint::Percentage(25),
                Constraint::Percentage(25),
                Constraint::Percentage(25),
                Constraint::Percentage(25),
            ];
            let cells = partition(bands[0], Direction::Horizontal, 0, &cell_rules);
            let half_rules = vec![Constraint::Percentage(50), Constraint::Percentage(50)];
            let halves = partition(bands[2], Direction::Horizontal, 0, &half_rules);
            out.push((summary_panel("Total Visitors", decimal_text(totals.visitors)), cells[0]));
            out.push((summary_panel("Total Pageviews", decimal_text(totals.pageviews)), cells[1]));
            out.push(
                (
                    summary_panel("Bounce Rate", with_suffix(decimal_text(totals.bounce_rate), "%")),
                    cells[2],
                ),
            );
            out.push(
                (
                    summary_panel(
                        "Visit Duration",
                        with_suffix(decimal_text(totals.visit_duration), "s"),
                    ),
                    cells[3],
                ),
            );
            out.push((chart_panel(&data.bars, Constraint::Min(10)), bands[1]));
            out.push((table_panel("Top Sources", "Source", sources), halves[0]));
            out.push((table_panel("Top Pages", "Page", pages), halves[1]));
            assert forall|i: int| 0 <= i < 7 implies (#[trigger] out[i]).1 == full_rects(area)[i] by {
                assert(band_rules@ =~= seq![Constraint::Length(5), Constraint::Min(10), Constraint::Length(16)]);
            }
        },
    }
    out
}

} // verus!
