use shamir_charts::chart::Chart;
use shamir_charts::coords::{Interval, Point};
use shamir_charts::figures::{
    cube, cubic, identity, quadratic, shamir, shamir_alternate_multiple,
    shamir_alternate_single, shamir_polynomial, square, Figure, DIMENSIONS, REACH,
};
use shamir_charts::style::{Color, Mark};

const ONE: i64 = 1_000_000_000;

fn labels(chart: &Chart) -> Vec<&str> {
    chart
        .series
        .iter()
        .filter_map(|s| s.legend.as_ref().map(|entry| entry.label.as_str()))
        .collect()
}

fn discs(chart: &Chart, color: Color) -> Vec<Point> {
    chart
        .series
        .iter()
        .filter(|s| s.color == color && matches!(s.mark, Mark::Disc { .. }))
        .flat_map(|s| s.points.iter().copied())
        .collect()
}

fn check_common(figure: &Figure, file_name: &str, title: &str) {
    assert_eq!(figure.directory, "plots");
    assert_eq!(figure.file_name, file_name);
    assert_eq!(figure.chart.title, title);
    assert_eq!((figure.chart.frame.width, figure.chart.frame.height), (640, 480));
    assert_eq!(figure.chart.series[0].color, Color::Black);
    assert_eq!(figure.chart.series[1].color, Color::Blue);
}

#[test]
fn figures_are_640_by_480() {
    assert_eq!(DIMENSIONS, (640, 480));
}

#[test]
fn identity_is_exact() {
    assert_eq!(identity(3_000), 3 * ONE);
    assert_eq!(identity(-1), -1_000_000);
    assert_eq!(identity(0), 0);
    assert_eq!(identity(REACH), 1_000 * ONE);
}

#[test]
fn square_is_exact() {
    assert_eq!(square(-4_000), 16 * ONE);
    assert_eq!(square(1), 1_000);
    assert_eq!(square(5_100), 26_010_000_000);
    assert_eq!(square(-REACH), 1_000_000 * ONE);
}

#[test]
fn cube_is_exact() {
    assert_eq!(cube(-2_000), -8 * ONE);
    assert_eq!(cube(1), 1);
    assert_eq!(cube(2_500), 15_625_000_000);
    assert_eq!(cube(REACH), 1_000_000_000_000_000_000);
    assert_eq!(cube(-REACH), -1_000_000_000_000_000_000);
}

#[test]
fn shamir_polynomial_is_exact() {
    assert_eq!(shamir_polynomial(0), 5 * ONE);
    assert_eq!(shamir_polynomial(1_000), 6 * ONE);
    assert_eq!(shamir_polynomial(-1_000), -2 * ONE);
    assert_eq!(shamir_polynomial(2_000), 13 * ONE);
    assert_eq!(shamir_polynomial(-2_000), -27 * ONE);
    assert_eq!(shamir_polynomial(3_000), 38 * ONE);
    assert_eq!(shamir_polynomial(1_500), 8 * ONE);
    assert_eq!(shamir_polynomial(-2_500), -50 * ONE);
    assert_eq!(shamir_polynomial(1), 5_001_997_002);
    assert_eq!(shamir_polynomial(REACH), 1_997_002_005 * ONE);
    assert_eq!(shamir_polynomial(-REACH), -2_003_001_995 * ONE);
}

#[test]
fn line_figure() {
    let figure = shamir_charts::figures::line();
    check_common(&figure, "line.svg", "Two Points are Uniquely Determined by a Line");
    let chart = &figure.chart;
    assert_eq!(chart.frame.x_range, Interval { start: 2_500, end: 4_500 });
    assert_eq!(chart.frame.y_range, Interval { start: 2 * ONE, end: 4_500_000_000 });
    assert_eq!(chart.mesh.x_labels, 2);
    assert_eq!(labels(chart), vec!["x", "Shares"]);
    assert_eq!(
        discs(chart, Color::Red),
        vec![Point { x: 3_000, y: 3 * ONE }, Point { x: 4_000, y: 4 * ONE }]
    );
    assert!(discs(chart, Color::Green).is_empty());
    assert_eq!(chart.series[1].points.len(), 2_000);
}

#[test]
fn quadratic_figure() {
    let figure = quadratic();
    check_common(&figure, "quadratic.svg", "Three Points are Uniquely Determined by a Parabola");
    let chart = &figure.chart;
    assert_eq!(chart.frame.x_range, Interval { start: -5_100, end: 5_100 });
    assert_eq!(chart.frame.y_range, Interval { start: -ONE, end: 26 * ONE });
    assert_eq!(chart.mesh.x_labels, 3);
    assert_eq!(labels(chart), vec!["x²", "Shares"]);
    assert_eq!(
        discs(chart, Color::Red),
        vec![
            Point { x: -4_000, y: 16 * ONE },
            Point { x: 1_000, y: ONE },
            Point { x: 4_000, y: 16 * ONE },
        ]
    );
    assert!(discs(chart, Color::Green).is_empty());
    assert_eq!(chart.series[1].points.len(), 10_200);
}

#[test]
fn cubic_figure() {
    let figure = cubic();
    check_common(&figure, "cubic.svg", "Four Points are Uniquely Determined by a Cubic");
    let chart = &figure.chart;
    assert_eq!(chart.frame.x_range, Interval { start: -2_500, end: 2_500 });
    assert_eq!(chart.frame.y_range, Interval { start: -20 * ONE, end: 20 * ONE });
    assert_eq!(chart.mesh.x_labels, 4);

    // exactly one curve
    let curves: Vec<_> = chart
        .series
        .iter()
        .filter(|s| s.legend.is_some() && matches!(s.mark, Mark::Path { .. }))
        .collect();
    assert_eq!(curves.len(), 1);
    assert_eq!(curves[0].points.len(), 5_000);
    assert!(curves[0].points.iter().all(|p| p.y == p.x * p.x * p.x));

    // exactly four shares, at the given abscissas, on the cubic
    assert_eq!(
        discs(chart, Color::Red),
        vec![
            Point { x: -2_000, y: -8 * ONE },
            Point { x: -1_000, y: -ONE },
            Point { x: 1_000, y: ONE },
            Point { x: 2_000, y: 8 * ONE },
        ]
    );

    // no secret, and a legend of two
    assert!(discs(chart, Color::Green).is_empty());
    assert_eq!(labels(chart), vec!["x³", "Shares"]);
    assert_eq!(chart.series.len(), 3);
}

#[test]
fn shamir_figure() {
    let figure = shamir();
    check_common(&figure, "shamir.svg", "Shamir's Secret Sharing");
    let chart = &figure.chart;
    assert_eq!(chart.frame.x_range, Interval { start: -2_100, end: 2_400 });
    assert_eq!(chart.frame.y_range, Interval { start: -30 * ONE, end: 20 * ONE });
    assert_eq!(chart.mesh.x_labels, 5);
    assert_eq!(labels(chart), vec!["2x³ - 3x² + 2x + 5", "Shares", "Secret"]);
    assert_eq!(
        discs(chart, Color::Red),
        vec![
            Point { x: -2_000, y: -27 * ONE },
            Point { x: -1_000, y: -2 * ONE },
            Point { x: 1_000, y: 6 * ONE },
            Point { x: 2_000, y: 13 * ONE },
        ]
    );
    assert_eq!(discs(chart, Color::Green), vec![Point { x: 0, y: 5 * ONE }]);
    assert_eq!(chart.series[1].points.len(), 4_500);
}

#[test]
fn shamir_alternate_single_figure() {
    let figure = shamir_alternate_single();
    check_common(
        &figure,
        "shamir_alternate_single.svg",
        "Shamir's Secret Sharing: Alternate Single Share",
    );
    let chart = &figure.chart;
    assert_eq!(chart.frame.x_range, Interval { start: -1_100, end: 3_400 });
    assert_eq!(chart.frame.y_range, Interval { start: -30 * ONE, end: 60 * ONE });
    assert_eq!(chart.mesh.x_labels, 5);
    assert_eq!(labels(chart), vec!["2x³ - 3x² + 2x + 5", "Shares", "Secret"]);
    assert_eq!(
        discs(chart, Color::Red),
        vec![
            Point { x: -1_000, y: -2 * ONE },
            Point { x: 1_000, y: 6 * ONE },
            Point { x: 2_000, y: 13 * ONE },
            Point { x: 3_000, y: 38 * ONE },
        ]
    );
    assert_eq!(discs(chart, Color::Green), vec![Point { x: 0, y: 5 * ONE }]);
}

#[test]
fn shamir_alternate_multiple_figure() {
    let figure = shamir_alternate_multiple();
    check_common(
        &figure,
        "shamir_alternate_multiple.svg",
        "Shamir's Secret Sharing: Alternate Multiple Shares",
    );
    let chart = &figure.chart;
    assert_eq!(chart.frame.x_range, Interval { start: -2_700, end: 3_000 });
    assert_eq!(chart.frame.y_range, Interval { start: -70 * ONE, end: 60 * ONE });
    assert_eq!(chart.mesh.x_labels, 5);
    assert_eq!(labels(chart), vec!["2x³ - 3x² + 2x + 5", "Shares", "Secret"]);
    assert_eq!(
        discs(chart, Color::Red),
        vec![
            Point { x: -2_500, y: -50 * ONE },
            Point { x: -1_500, y: -11_500_000_000 },
            Point { x: 1_500, y: 8 * ONE },
            Point { x: 2_500, y: 22_500_000_000 },
        ]
    );
    assert_eq!(discs(chart, Color::Green), vec![Point { x: 0, y: 5 * ONE }]);
    assert_eq!(chart.series[1].points.len(), 5_700);
}

#[test]
fn figures_are_the_same_every_time() {
    assert_eq!(shamir(), shamir());
    assert_eq!(cubic(), cubic());
}
