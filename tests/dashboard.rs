use conclusive::aggregate::{aggregate, label};
use conclusive::layout::{partition, Constraint, Direction, Rect};
use conclusive::panels::{build_panels, table_row, Content, Mode, Panel};
use conclusive::pipeline::dashboard;
use conclusive::records::{
    normalize_rows, AggregateTotals, BreakdownRow, NormalizedRow, TimeseriesPoint, Totals,
};
use conclusive::text::{decimal_text, with_suffix};
use conclusive::TUI;

fn point(date: &str, visitors: Option<u64>) -> TimeseriesPoint {
    TimeseriesPoint { date: date.to_string(), visitors }
}

fn row(label: &str, visitors: Option<u64>, bounce_rate: Option<&str>) -> BreakdownRow {
    BreakdownRow {
        label: label.to_string(),
        visitors,
        bounce_rate: bounce_rate.map(|s| s.to_string()),
    }
}

fn no_totals() -> AggregateTotals {
    AggregateTotals { visitors: None, pageviews: None, bounce_rate: None, visit_duration: None }
}

fn rect(x: u16, y: u16, width: u16, height: u16) -> Rect {
    Rect { x, y, width, height }
}

fn bars_of(p: &Panel) -> &Vec<(String, u64)> {
    match &p.content {
        Content::Bars(b) => b,
        _ => panic!("not a chart"),
    }
}

fn summary_of(p: &Panel) -> &str {
    match &p.content {
        Content::Summary(s) => s,
        _ => panic!("not a summary"),
    }
}

fn table_rows(p: &Panel) -> Vec<Vec<String>> {
    match &p.content {
        Content::Table(t) => t.rows.clone(),
        _ => panic!("not a table"),
    }
}

#[test]
fn timeseries_scenario_labels_defaults_and_total() {
    let points = vec![
        point("2021-05-01", Some(10)),
        point("2021-05-02", None),
        point("2021-05-03", Some(5)),
    ];
    let data = aggregate(&points);
    let expected: Vec<(String, u64)> =
        vec![("01".to_string(), 10), ("02".to_string(), 0), ("03".to_string(), 5)];
    assert_eq!(data.bars, expected);
    assert_eq!(data.total, 15);
}

#[test]
fn total_is_sum_of_counts_with_missing_as_zero() {
    let points = vec![
        point("2021-06-28", Some(u64::MAX)),
        point("2021-06-29", Some(u64::MAX)),
        point("2021-06-30", None),
        point("2021-07-01", Some(3)),
    ];
    let data = aggregate(&points);
    assert_eq!(data.total, 2 * (u64::MAX as u128) + 3);
    assert_eq!(data.bars.len(), 4);
    assert_eq!(data.bars[2], ("30".to_string(), 0));
}

#[test]
fn empty_timeseries_aggregates_to_nothing() {
    let data = aggregate(&Vec::new());
    assert!(data.bars.is_empty());
    assert_eq!(data.total, 0);
}

#[test]
fn label_is_last_two_characters() {
    assert_eq!(label("2021-05-14"), "14");
    assert_eq!(label("2021-05-14"), label("2021-05-14"));
    assert_eq!(label(&label("2021-05-14")), "14");
    assert_eq!(label("ab"), "ab");
    assert_eq!(label("2021-05-é9"), "é9");
}

#[test]
fn short_dates_are_padded_with_zeros() {
    assert_eq!(label("7"), "07");
    assert_eq!(label(""), "00");
}

#[test]
fn aggregate_totals_scenario() {
    let totals = AggregateTotals {
        visitors: None,
        pageviews: Some(42),
        bounce_rate: None,
        visit_duration: Some(120),
    };
    assert_eq!(
        totals.normalize(),
        Totals { visitors: 0, pageviews: 42, bounce_rate: 0, visit_duration: 120 }
    );
}

#[test]
fn missing_fields_normalize_to_zero() {
    assert_eq!(
        no_totals().normalize(),
        Totals { visitors: 0, pageviews: 0, bounce_rate: 0, visit_duration: 0 }
    );
    let n = row("google", None, None).normalize();
    assert_eq!(n.label, "google");
    assert_eq!(n.visitors, 0);
    assert_eq!(n.bounce_rate, "0");
    let m = row("/blog", Some(7), Some("37.5")).normalize();
    assert_eq!(m.visitors, 7);
    assert_eq!(m.bounce_rate, "37.5");
}

#[test]
fn decimal_writing() {
    assert_eq!(decimal_text(0), "0");
    assert_eq!(decimal_text(7), "7");
    assert_eq!(decimal_text(10), "10");
    assert_eq!(decimal_text(120), "120");
    assert_eq!(decimal_text(u64::MAX), "18446744073709551615");
    assert_eq!(with_suffix(decimal_text(42), "%"), "42%");
}

#[test]
fn vertical_bands_of_full_layout_scenario() {
    let bands = partition(
        rect(0, 0, 120, 20),
        Direction::Vertical,
        1,
        &vec![Constraint::Length(5), Constraint::Min(10), Constraint::Length(16)],
    );
    assert_eq!(bands.len(), 3);
    let heights: u16 = bands.iter().map(|r| r.height).sum();
    assert_eq!(heights, 18);
    assert_eq!(bands[0], rect(1, 1, 118, 5));
    assert_eq!(bands[1], rect(1, 6, 118, 10));
    assert_eq!(bands[2], rect(1, 16, 118, 3));
}

#[test]
fn min_segment_takes_the_spare_rows() {
    let bands = partition(
        rect(0, 0, 120, 40),
        Direction::Vertical,
        1,
        &vec![Constraint::Length(5), Constraint::Min(10), Constraint::Length(16)],
    );
    assert_eq!(bands[0], rect(1, 1, 118, 5));
    assert_eq!(bands[1], rect(1, 6, 118, 17));
    assert_eq!(bands[2], rect(1, 23, 118, 16));
}

#[test]
fn four_quarters_of_width_one_hundred() {
    let cells = partition(
        rect(0, 0, 100, 5),
        Direction::Horizontal,
        0,
        &vec![Constraint::Percentage(25); 4],
    );
    assert_eq!(cells.len(), 4);
    for (i, c) in cells.iter().enumerate() {
        assert_eq!(c.width, 25);
        assert_eq!(c.x, 25 * i as u16);
        assert_eq!(c.height, 5);
    }
}

#[test]
fn full_mode_summary_cells_are_a_quarter_each() {
    let panels = build_panels(
        Mode::Full,
        rect(0, 0, 102, 40),
        &aggregate(&Vec::new()),
        &no_totals().normalize(),
        &Vec::new(),
        &Vec::new(),
    );
    assert_eq!(panels.len(), 7);
    for i in 0..4 {
        assert_eq!(panels[i].1.width, 25);
        assert_eq!(panels[i].1.height, 5);
    }
    assert_eq!(panels[0].1.x, 1);
    assert_eq!(panels[3].1.x, 76);
}

#[test]
fn rounding_remainder_goes_to_last_segment() {
    let parts = partition(
        rect(0, 0, 10, 1),
        Direction::Horizontal,
        0,
        &vec![Constraint::Percentage(1), Constraint::Percentage(1), Constraint::Percentage(1)],
    );
    assert_eq!(parts[0].width, 3);
    assert_eq!(parts[1].width, 3);
    assert_eq!(parts[2].width, 4);
    let halves = partition(
        rect(0, 0, 11, 4),
        Direction::Horizontal,
        0,
        &vec![Constraint::Percentage(50), Constraint::Percentage(50)],
    );
    assert_eq!(halves[0], rect(0, 0, 5, 4));
    assert_eq!(halves[1], rect(5, 0, 6, 4));
}

#[test]
fn partition_tiles_margined_region() {
    let region = rect(3, 2, 57, 31);
    let rules = vec![
        Constraint::Length(4),
        Constraint::Percentage(30),
        Constraint::Min(2),
        Constraint::Percentage(45),
        Constraint::Length(1),
    ];
    let parts = partition(region, Direction::Vertical, 2, &rules);
    let area: u32 = parts.iter().map(|r| r.width as u32 * r.height as u32).sum();
    assert_eq!(area, 53 * 27);
    let mut y = 4;
    for p in &parts {
        assert_eq!(p.x, 5);
        assert_eq!(p.width, 53);
        assert_eq!(p.y, y);
        y += p.height;
    }
    assert_eq!(y, 4 + 27);
}

#[test]
fn margin_larger_than_region_leaves_empty_segments() {
    let parts = partition(rect(4, 4, 3, 3), Direction::Horizontal, 2, &vec![Constraint::Min(1)]);
    assert_eq!(parts, vec![rect(4, 4, 0, 0)]);
}

#[test]
fn simple_layout_with_empty_timeseries() {
    let panels = dashboard(
        Mode::Simple,
        rect(0, 0, 80, 24),
        &Vec::new(),
        &no_totals(),
        &Vec::new(),
        &Vec::new(),
    );
    assert_eq!(panels.len(), 1);
    assert_eq!(panels[0].0.title, "Stats");
    assert!(bars_of(&panels[0].0).is_empty());
    assert_eq!(panels[0].0.constraint, Constraint::Percentage(100));
    assert_eq!(panels[0].1, rect(1, 1, 78, 22));
}

#[test]
fn missing_bounce_rates_render_as_zero_percent() {
    let sources = vec![row("google.com", Some(120), None), row("Direct / None", Some(80), None)];
    let panels = dashboard(
        Mode::Full,
        rect(0, 0, 120, 40),
        &Vec::new(),
        &no_totals(),
        &sources,
        &Vec::new(),
    );
    assert_eq!(panels[5].0.title, "Top Sources");
    assert_eq!(
        table_rows(&panels[5].0),
        vec![
            vec!["120".to_string(), "google.com".to_string(), "0%".to_string()],
            vec!["80".to_string(), "Direct / None".to_string(), "0%".to_string()],
        ]
    );
    assert!(table_rows(&panels[6].0).is_empty());
}

#[test]
fn full_dashboard_panels() {
    let points = vec![point("2021-05-01", Some(10)), point("2021-05-02", None)];
    let totals = AggregateTotals {
        visitors: Some(1234),
        pageviews: Some(5678),
        bounce_rate: Some(43),
        visit_duration: None,
    };
    let pages = vec![row("/", Some(9), Some("12.5")), row("/about", None, Some("100"))];
    let panels =
        dashboard(Mode::Full, rect(0, 0, 120, 40), &points, &totals, &Vec::new(), &pages);
    let titles: Vec<&str> = panels.iter().map(|p| p.0.title.as_str()).collect();
    assert_eq!(
        titles,
        vec![
            "Total Visitors",
            "Total Pageviews",
            "Bounce Rate",
            "Visit Duration",
            "Stats",
            "Top Sources",
            "Top Pages"
        ]
    );
    assert_eq!(summary_of(&panels[0].0), "1234");
    assert_eq!(summary_of(&panels[1].0), "5678");
    assert_eq!(summary_of(&panels[2].0), "43%");
    assert_eq!(summary_of(&panels[3].0), "0s");
    assert_eq!(
        bars_of(&panels[4].0),
        &vec![("01".to_string(), 10), ("02".to_string(), 0)]
    );
    assert_eq!(panels[4].0.constraint, Constraint::Min(10));
    assert_eq!(panels[4].1, rect(1, 6, 118, 17));
    assert_eq!(panels[5].1, rect(1, 23, 59, 16));
    assert_eq!(panels[6].1, rect(60, 23, 59, 16));
    assert_eq!(
        table_rows(&panels[6].0),
        vec![
            vec!["9".to_string(), "/".to_string(), "12.5%".to_string()],
            vec!["0".to_string(), "/about".to_string(), "100%".to_string()],
        ]
    );
    match &panels[6].0.content {
        Content::Table(t) => {
            assert_eq!(t.header, vec!["Visitors", "Page", "BNC"]);
            assert_eq!(
                t.widths,
                vec![Constraint::Length(10), Constraint::Min(16), Constraint::Length(5)]
            );
        },
        _ => panic!("not a table"),
    }
}

#[test]
fn rows_keep_their_order() {
    let rows = normalize_rows(&vec![row("b", Some(1), None), row("a", Some(2), Some("5"))]);
    assert_eq!(rows[0].label, "b");
    assert_eq!(rows[1].label, "a");
    let cells = table_row(&NormalizedRow {
        label: "x".to_string(),
        visitors: 3,
        bounce_rate: "7".to_string(),
    });
    assert_eq!(cells, vec!["3", "x", "7%"]);
}

#[test]
fn tui_keeps_its_bars() {
    let t = TUI::new(vec![("01".to_string(), 4)]);
    assert_eq!(t.stats, vec![("01".to_string(), 4)]);
}
