//! Building a chart: the request is checked, the frame and the mesh are laid
//! out, and the series are drawn one after another.

use crate::chart::{
    legend_entries, lemma_legend_entries_push, one_if, Chart, ChartView, Frame, LegendBox, LegendEntry,
    LegendEntryView, Mesh, Series, SeriesView,
};
use crate::coords::{lemma_sample_grid_rises, sample_abscissas, sample_grid, Interval, Point};
use crate::layout::{
    house_frame, house_legend, house_mesh, request_error, ChartError, Request, LABEL_DECIMALS,
    LEGEND_GLYPH_AREA, LEGEND_OPACITY, MARGIN, TITLE_SIZE, X_LABEL_AREA, Y_LABELS, Y_LABEL_AREA,
};
use crate::style::{
    annotated_disc, disc_glyph, plain_path, segment_glyph, Color, Corner, Glyph, Mark, Paint,
    Typeface, DISC_RADIUS, PLAIN_STROKE, SEGMENT_LENGTH, SEGMENT_STROKE, TEXT_DX, TEXT_DY,
    TEXT_SIZE,
};
use vstd::prelude::*;

verus! {

/// Legend label of the shares.
pub open spec fn shares_label() -> Seq<char> {
    "Shares"@
}

/// Legend label of the secret.
pub open spec fn secret_label() -> Seq<char> {
    "Secret"@
}

/// The black line that marks where the secret lives: straight up the whole
/// y-range at x = 0. The legend does not mention it.
pub open spec fn reference_line(y_range: Interval) -> SeriesView {
    SeriesView {
        mark: plain_path(),
        color: Color::Black,
        points: seq![Point { x: 0, y: y_range.start }, Point { x: 0, y: y_range.end }],
        legend: None,
    }
}

/// `points` stand at the abscissas `xs`, in their order, and each lies on the
/// curve: its ordinate is a value that `f` returns for its abscissa.
pub open spec fn on_curve<F: Fn(i64) -> i64>(f: F, points: Seq<Point>, xs: Seq<i64>) -> bool {
    &&& points.len() == xs.len()
    &&& forall|i: int|
        0 <= i < points.len() ==> (#[trigger] points[i]).x == xs[i] && f.ensures(
            (xs[i],),
            points[i].y,
        )
}

/// `s` is the curve of `f` over `x_range`: a blue path through the samples,
/// known to the legend by `label` and a short stroke.
pub open spec fn is_curve<F: Fn(i64) -> i64>(
    s: SeriesView,
    f: F,
    label: Seq<char>,
    x_range: Interval,
) -> bool {
    &&& s.mark == plain_path()
    &&& s.color == Color::Blue
    &&& s.legend == Some(LegendEntryView { label, glyph: segment_glyph() })
    &&& on_curve(f, s.points, sample_grid(x_range))
}

/// `s` shows the shares of `f` at `xs`: red annotated discs, known to the
/// legend as "Shares".
pub open spec fn is_shares<F: Fn(i64) -> i64>(s: SeriesView, f: F, xs: Seq<i64>) -> bool {
    &&& s.mark == annotated_disc()
    &&& s.color == Color::Red
    &&& s.legend == Some(LegendEntryView { label: shares_label(), glyph: disc_glyph() })
    &&& on_curve(f, s.points, xs)
}

/// `s` shows the secret of `f`: one green annotated disc on the curve at
/// x = 0, known to the legend as "Secret".
pub open spec fn is_secret<F: Fn(i64) -> i64>(s: SeriesView, f: F) -> bool {
    &&& s.mark == annotated_disc()
    &&& s.color == Color::Green
    &&& s.legend == Some(LegendEntryView { label: secret_label(), glyph: disc_glyph() })
    &&& on_curve(f, s.points, seq![0i64])
}

/// `after` is `before` with one more series drawn on top.
pub open spec fn one_more_series(after: ChartView, before: ChartView) -> bool {
    &&& after.title == before.title
    &&& after.frame == before.frame
    &&& after.mesh == before.mesh
    &&& after.legend == before.legend
    &&& after.series.len() == before.series.len() + 1
    &&& after.series.drop_last() == before.series
}

/// `f` may be called wherever the chart of `request` evaluates it: on the
/// sampling grid of the x-range, at the shares, and at x = 0 if the secret is
/// shown.
pub open spec fn can_evaluate<F: Fn(i64) -> i64>(f: F, request: Request) -> bool {
    &&& forall|x: i64| request.x_range.start <= x < request.x_range.end ==> f.requires((x,))
    &&& forall|i: int|
        0 <= i < request.shares.len() ==> f.requires((#[trigger] request.shares[i],))
    &&& request.secret ==> f.requires((0i64,))
}

/// Number of series in the chart of a request: the reference line and the
/// curve, the shares if there are any, and the secret if it is shown.
pub open spec fn series_count(shares: nat, secret: bool) -> nat {
    2 + one_if(shares > 0) + one_if(secret)
}

/// Number of legend entries in the chart of a request: one for the curve, one
/// for the shares if there are any, and one for the secret if it is shown.
pub open spec fn legend_count(shares: nat, secret: bool) -> nat {
    1 + one_if(shares > 0) + one_if(secret)
}

/// `chart` is a chart of `request` and the curve `f`: it has the house
/// frame, mesh and legend box, and, from bottom to top, the reference line,
/// the curve, the shares if there are any, and the secret if it is shown.
pub open spec fn depicts<F: Fn(i64) -> i64>(chart: ChartView, request: Request, f: F) -> bool {
    &&& chart.title == request.title
    &&& chart.frame == house_frame(request.dimensions, request.x_range, request.y_range)
    &&& chart.mesh == house_mesh(request.shares.len(), request.secret)
    &&& chart.legend == house_legend()
    &&& chart.series.len() == series_count(request.shares.len(), request.secret)
    &&& chart.series[0] == reference_line(request.y_range)
    &&& is_curve(chart.series[1], f, request.label, request.x_range)
    &&& request.shares.len() > 0 ==> is_shares(chart.series[2], f, request.shares)
    &&& request.secret ==> is_secret(chart.series.last(), f)
}

/// Evaluates `polynomial` at every abscissa of `xs`.
fn plot<F: Fn(i64) -> i64>(polynomial: &F, xs: &[i64]) -> (points: Vec<Point>)
    requires
        forall|i: int| 0 <= i < xs@.len() ==> polynomial.requires((#[trigger] xs@[i],)),
    ensures
        on_curve(*polynomial, points@, xs@),
{
    let mut points: Vec<Point> = Vec::new();
    let mut i: usize = 0;
    while i < xs.len()
        invariant
            i <= xs@.len(),
            points@.len() == i,
            forall|k: int| 0 <= k < xs@.len() ==> polynomial.requires((#[trigger] xs@[k],)),
            forall|k: int|
                0 <= k < i ==> (#[trigger] points@[k]).x == xs@[k] && polynomial.ensures(
                    (xs@[k],),
                    points@[k].y,
                ),
        decreases xs@.len() - i,
    {
        let x: i64 = xs[i];
        let y: i64 = polynomial(x);
        points.push(Point { x, y });
        i += 1;
    }
    points
}

/// Puts `series` on top of the chart.
fn push_series(chart: &mut Chart, series: Series)
    ensures
        one_more_series(final(chart)@, old(chart)@),
        final(chart)@.series.last() == series@,
        legend_entries(final(chart)@.series) == legend_entries(old(chart)@.series) + one_if(
            series.legend is Some,
        ),
{
    let ghost before = chart@.series;
    chart.series.push(series);
    proof {
        assert(chart@.series =~= before.push(series@));
        assert(chart@.series.drop_last() =~= before);
        lemma_legend_entries_push(before, series@);
    }
}

/// Draws the curve of `polynomial` over `x_range` as a blue path and enters
/// it in the legend under `polynomial_str`.
///
/// The curve is sampled at the start of the range and then step by step for
/// as long as the abscissa stays inside the range.
pub fn draw_polynomial<F: Fn(i64) -> i64>(
    chart: &mut Chart,
    polynomial: &F,
    polynomial_str: &str,
    x_range: Interval,
)
    requires
        x_range.steps() <= usize::MAX,
        forall|x: i64| x_range.start <= x < x_range.end ==> polynomial.requires((x,)),
    ensures
        one_more_series(final(chart)@, old(chart)@),
        is_curve(final(chart)@.series.last(), *polynomial, polynomial_str@, x_range),
        legend_entries(final(chart)@.series) == legend_entries(old(chart)@.series) + 1,
{
    let xs = sample_abscissas(x_range);
    proof {
        lemma_sample_grid_rises(x_range);
    }
    let points = plot(polynomial, xs.as_slice());
    let entry = LegendEntry {
        label: String::from_str(polynomial_str),
        glyph: Glyph::Segment { length: SEGMENT_LENGTH, stroke_width: SEGMENT_STROKE },
    };
    let series = Series {
        mark: Mark::Path { stroke_width: PLAIN_STROKE },
        color: Color::Blue,
        points,
        legend: Some(entry),
    };
    push_series(chart, series);
}

/// Draws the shares of `polynomial` at `shares_x` as red discs, each with its
/// coordinate pair beside it, and enters them in the legend once, as
/// "Shares". Without shares nothing is drawn and the legend stays as it is.
pub fn draw_shares<F: Fn(i64) -> i64>(chart: &mut Chart, polynomial: &F, shares_x: &[i64])
    requires
        forall|i: int|
            0 <= i < shares_x@.len() ==> polynomial.requires((#[trigger] shares_x@[i],)),
    ensures
        shares_x@.len() == 0 ==> final(chart)@ == old(chart)@,
        shares_x@.len() > 0 ==> {
            &&& one_more_series(final(chart)@, old(chart)@)
            &&& is_shares(final(chart)@.series.last(), *polynomial, shares_x@)
        },
        legend_entries(final(chart)@.series) == legend_entries(old(chart)@.series) + one_if(
            shares_x@.len() > 0,
        ),
{
    if shares_x.len() == 0 {
        return ;
    }
    let points = plot(polynomial, shares_x);
    let entry = LegendEntry {
        label: String::from_str("Shares"),
        glyph: Glyph::Disc { radius: DISC_RADIUS },
    };
    let series = Series {
        mark: Mark::Disc {
            radius: DISC_RADIUS,
            text_dx: TEXT_DX,
            text_dy: TEXT_DY,
            text_size: TEXT_SIZE,
        },
        color: Color::Red,
        points,
        legend: Some(entry),
    };
    push_series(chart, series);
}

/// Draws the secret of `polynomial`, its value at x = 0, as a green disc
/// with its coordinate pair beside it, and enters it in the legend as
/// "Secret".
pub fn draw_secret<F: Fn(i64) -> i64>(chart: &mut Chart, polynomial: &F)
    requires
        polynomial.requires((0i64,)),
    ensures
        one_more_series(final(chart)@, old(chart)@),
        is_secret(final(chart)@.series.last(), *polynomial),
        legend_entries(final(chart)@.series) == legend_entries(old(chart)@.series) + 1,
{
    let secret = Point { x: 0, y: polynomial(0) };
    let mut points: Vec<Point> = Vec::new();
    points.push(secret);
    let entry = LegendEntry {
        label: String::from_str("Secret"),
        glyph: Glyph::Disc { radius: DISC_RADIUS },
    };
    let series = Series {
        mark: Mark::Disc {
            radius: DISC_RADIUS,
            text_dx: TEXT_DX,
            text_dy: TEXT_DY,
            text_size: TEXT_SIZE,
        },
        color: Color::Green,
        points,
        legend: Some(entry),
    };
    push_series(chart, series);
}

/// Builds the chart of a polynomial, its shares and, if asked for, its
/// secret.
///
/// A surface without width or height is turned down first, an axis range
/// that does not rise after it. Otherwise the chart gets the house frame and
/// mesh, a black reference line at x = 0, which is always drawn, then the
/// curve, the shares, the secret and the legend box. The x-axis gets one tick
/// label for every highlighted point. Shares outside the x-range stay in the
/// chart; they fall outside the picture when it is painted.
///
/// * `title` - what is written above the chart
/// * `dimensions` - width and height of the surface, in pixels
/// * `x_range` - the abscissas that are shown, in thousandths
/// * `y_range` - the ordinates that are shown, in billionths
/// * `polynomial` - the curve, from an abscissa in thousandths to an ordinate
///   in billionths
/// * `polynomial_str` - how the legend names the curve
/// * `shares_x` - the abscissas of the shares, in thousandths
/// * `secret` - whether the secret is shown
pub fn create_chart<F: Fn(i64) -> i64>(
    title: &str,
    dimensions: (u32, u32),
    x_range: Interval,
    y_range: Interval,
    polynomial: F,
    polynomial_str: &str,
    shares_x: &[i64],
    secret: bool,
) -> (r: Result<Chart, ChartError>)
    requires
        request_error(dimensions, x_range, y_range) is None ==> {
            &&& x_range.steps() <= usize::MAX
            &&& secret ==> shares_x@.len() < usize::MAX
            &&& can_evaluate(
                polynomial,
                (Request {
                    title: title@,
                    dimensions,
                    x_range,
                    y_range,
                    label: polynomial_str@,
                    shares: shares_x@,
                    secret,
                }),
            )
        },
    ensures
        match r {
            Ok(chart) => {
                &&& request_error(dimensions, x_range, y_range) is None
                &&& depicts(
                    chart@,
                    (Request {
                        title: title@,
                        dimensions,
                        x_range,
                        y_range,
                        label: polynomial_str@,
                        shares: shares_x@,
                        secret,
                    }),
                    polynomial,
                )
                &&& legend_entries(chart@.series) == legend_count(shares_x@.len(), secret)
            },
            Err(e) => request_error(dimensions, x_range, y_range) == Some(e),
        },
{
    if dimensions.0 == 0 || dimensions.1 == 0 {
        return Err(ChartError::Surface);
    }
    if x_range.start >= x_range.end || y_range.start >= y_range.end {
        return Err(ChartError::Construction);
    }
    let x_labels_count: usize = shares_x.len() + if secret {
        1
    } else {
        0
    };
    let mut chart = Chart {
        title: String::from_str(title),
        frame: Frame {
            width: dimensions.0,
            height: dimensions.1,
            background: Paint { color: Color::Black, opacity_percent: 0 },
            typeface: Typeface::SansSerif,
            title_size: TITLE_SIZE,
            margin: MARGIN,
            x_label_area: X_LABEL_AREA,
            y_label_area: Y_LABEL_AREA,
            x_range,
            y_range,
        },
        mesh: Mesh {
            x_labels: x_labels_count,
            y_labels: Y_LABELS,
            grid_lines: false,
            label_decimals: LABEL_DECIMALS,
        },
        series: Vec::new(),
        legend: LegendBox {
            corner: Corner::LowerRight,
            border: Color::Black,
            background: Paint { color: Color::White, opacity_percent: LEGEND_OPACITY },
            glyph_area: LEGEND_GLYPH_AREA,
        },
    };
    assert(chart@.series =~= Seq::<SeriesView>::empty());

    // the vertical line at x = 0
    let mut vertical_line: Vec<Point> = Vec::new();
    vertical_line.push(Point { x: 0, y: y_range.start });
    vertical_line.push(Point { x: 0, y: y_range.end });
    push_series(
        &mut chart,
        Series {
            mark: Mark::Path { stroke_width: PLAIN_STROKE },
            color: Color::Black,
            points: vertical_line,
            legend: None,
        },
    );
    assert(chart@.series[0].points =~= reference_line(y_range).points);

    // the polynomial, the shares and the secret
    proof {
        let request = Request {
            title: title@,
            dimensions,
            x_range,
            y_range,
            label: polynomial_str@,
            shares: shares_x@,
            secret,
        };
        assert forall|i: int| 0 <= i < shares_x@.len() implies polynomial.requires(
            (#[trigger] shares_x@[i],),
        ) by {
            assert(request.shares[i] == shares_x@[i]);
        }
    }
    draw_polynomial(&mut chart, &polynomial, polynomial_str, x_range);
    let ghost with_curve = chart@.series;
    draw_shares(&mut chart, &polynomial, shares_x);
    let ghost with_shares = chart@.series;
    if secret {
        draw_secret(&mut chart, &polynomial);
    }
    proof {
        assert(with_curve.drop_last()[0] == with_curve[0]);
        if shares_x@.len() > 0 {
            assert(with_shares.drop_last() == with_curve);
            assert(with_shares[0] == with_curve[0]);
            assert(with_shares[1] == with_curve[1]);
        }
        if secret {
            assert(chart@.series.drop_last() == with_shares);
            assert(chart@.series[0] == with_shares[0]);
            assert(chart@.series[1] == with_shares[1]);
            if shares_x@.len() > 0 {
                assert(chart@.series[2] == with_shares[2]);
            }
        }
    }
    Ok(chart)
}

} // verus!
