//! What holds of every chart that the library builds.

use crate::chart::{legend_entries, ChartView, LegendEntryView, SeriesView};
use crate::coords::{lemma_sample_grid_rises, sample_grid, Interval, Point, STEP};
use crate::draw::{
    depicts, legend_count, on_curve, reference_line, secret_label, shares_label,
};
use crate::layout::{
    house_frame, house_legend, house_mesh, request_error, ChartError, Request,
};
use crate::style::{annotated_disc, disc_glyph, plain_path, segment_glyph, Color};
use vstd::prelude::*;

verus! {

/// `f` returns one value for every abscissa: two calls on the same abscissa
/// cannot differ.
pub open spec fn single_valued<F: Fn(i64) -> i64>(f: F) -> bool {
    forall|x: i64, y: i64, z: i64|
        #[trigger] f.ensures((x,), y) && #[trigger] f.ensures((x,), z) ==> y == z
}

/// `f` returns `value(x)` for every abscissa `x`.
pub open spec fn computes<F: Fn(i64) -> i64>(f: F, value: spec_fn(int) -> int) -> bool {
    forall|x: i64, y: i64| #[trigger] f.ensures((x,), y) ==> y == value(x as int)
}

/// The points of the curve `value` at the abscissas `xs`.
pub open spec fn trace(value: spec_fn(int) -> int, xs: Seq<i64>) -> Seq<Point> {
    Seq::new(xs.len(), |i: int| Point { x: xs[i], y: value(xs[i] as int) as i64 })
}

/// The series of the curve `value` over `x_range`.
pub open spec fn curve_series(value: spec_fn(int) -> int, label: Seq<char>, x_range: Interval)
    -> SeriesView {
    SeriesView {
        mark: plain_path(),
        color: Color::Blue,
        points: trace(value, sample_grid(x_range)),
        legend: Some(LegendEntryView { label, glyph: segment_glyph() }),
    }
}

/// The series of the shares of `value` at `xs`.
pub open spec fn shares_series(value: spec_fn(int) -> int, xs: Seq<i64>) -> SeriesView {
    SeriesView {
        mark: annotated_disc(),
        color: Color::Red,
        points: trace(value, xs),
        legend: Some(LegendEntryView { label: shares_label(), glyph: disc_glyph() }),
    }
}

/// The series of the secret of `value`.
pub open spec fn secret_series(value: spec_fn(int) -> int) -> SeriesView {
    SeriesView {
        mark: annotated_disc(),
        color: Color::Green,
        points: trace(value, seq![0i64]),
        legend: Some(LegendEntryView { label: secret_label(), glyph: disc_glyph() }),
    }
}

/// The chart of `request` and of the curve `value`.
pub open spec fn chart_of(request: Request, value: spec_fn(int) -> int) -> ChartView {
    ChartView {
        title: request.title,
        frame: house_frame(request.dimensions, request.x_range, request.y_range),
        mesh: house_mesh(request.shares.len(), request.secret),
        series: seq![
            reference_line(request.y_range),
            curve_series(value, request.label, request.x_range),
        ] + if request.shares.len() > 0 {
            seq![shares_series(value, request.shares)]
        } else {
            Seq::empty()
        } + if request.secret {
            seq![secret_series(value)]
        } else {
            Seq::empty()
        },
        legend: house_legend(),
    }
}

/// Points on the curve of a function that computes `value` are the trace of
/// `value`.
proof fn lemma_on_curve_is_trace<F: Fn(i64) -> i64>(
    f: F,
    value: spec_fn(int) -> int,
    points: Seq<Point>,
    xs: Seq<i64>,
)
    requires
        on_curve(f, points, xs),
        computes(f, value),
    ensures
        points == trace(value, xs),
{
    assert forall|i: int| 0 <= i < points.len() implies points[i] == trace(value, xs)[i] by {
        assert(f.ensures((xs[i],), points[i].y));
    }
    assert(points =~= trace(value, xs));
}

/// A chart is a function of what was asked for: where the curve computes
/// `value`, a chart of the request is the chart of the request and `value`,
/// down to the last point.
pub proof fn lemma_chart_is_determined<F: Fn(i64) -> i64>(
    chart: ChartView,
    request: Request,
    f: F,
    value: spec_fn(int) -> int,
)
    requires
        depicts(chart, request, f),
        computes(f, value),
    ensures
        chart == chart_of(request, value),
{
    let exact = chart_of(request, value);
    lemma_on_curve_is_trace(f, value, chart.series[1].points, sample_grid(request.x_range));
    if request.shares.len() > 0 {
        lemma_on_curve_is_trace(f, value, chart.series[2].points, request.shares);
    }
    if request.secret {
        lemma_on_curve_is_trace(f, value, chart.series.last().points, seq![0i64]);
    }
    assert(chart.series =~= exact.series);
}

/// Drawing is repeatable: two charts of the same request and the same
/// single-valued curve are equal.
pub proof fn lemma_same_request_same_chart<F: Fn(i64) -> i64>(
    first: ChartView,
    second: ChartView,
    request: Request,
    f: F,
)
    requires
        depicts(first, request, f),
        depicts(second, request, f),
        single_valued(f),
    ensures
        first == second,
{
    let value = |x: int| (choose|y: i64| #[trigger] f.ensures((x as i64,), y)) as int;
    assert forall|x: i64, y: i64| #[trigger] f.ensures((x,), y) implies y == value(x as int) by {
        let chosen = choose|z: i64| #[trigger] f.ensures((x,), z);
        assert(f.ensures((x,), chosen));
    }
    lemma_chart_is_determined(first, request, f, value);
    lemma_chart_is_determined(second, request, f, value);
}

/// The legend has one entry for the curve, one for the shares if there are
/// any, and one for the secret if it is shown.
pub proof fn lemma_legend_entry_count<F: Fn(i64) -> i64>(chart: ChartView, request: Request, f: F)
    requires
        depicts(chart, request, f),
    ensures
        legend_entries(chart.series) == legend_count(request.shares.len(), request.secret),
{
    let s = chart.series;
    reveal_with_fuel(legend_entries, 5);
    let s1 = s.drop_last();
    if s1.len() > 0 {
        let s2 = s1.drop_last();
        if s2.len() > 0 {
            let s3 = s2.drop_last();
            if s3.len() > 0 {
                let s4 = s3.drop_last();
            }
        }
    }
}

/// Every share is drawn at its own abscissa, in the order of the request,
/// and lies on the curve.
pub proof fn lemma_shares_lie_on_curve<F: Fn(i64) -> i64>(
    chart: ChartView,
    request: Request,
    f: F,
    i: int,
)
    requires
        depicts(chart, request, f),
        0 <= i < request.shares.len(),
    ensures
        chart.series[2].points.len() == request.shares.len(),
        chart.series[2].points[i].x == request.shares[i],
        f.ensures((request.shares[i],), chart.series[2].points[i].y),
{
}

/// The secret, when it is shown, is a single point at x = 0 on the curve,
/// whatever the shares are.
pub proof fn lemma_secret_stands_at_origin<F: Fn(i64) -> i64>(
    chart: ChartView,
    request: Request,
    f: F,
)
    requires
        depicts(chart, request, f),
        request.secret,
    ensures
        chart.series.last().points.len() == 1,
        chart.series.last().points[0].x == 0,
        f.ensures((0i64,), chart.series.last().points[0].y),
{
    assert(seq![0i64][0] == 0);
}

/// The curve is sampled from the start of the x-range in single steps: the
/// abscissas rise strictly, the first is the start of the range, each next
/// one is a step further, and the last is the last step below the end.
pub proof fn lemma_curve_abscissas_rise<F: Fn(i64) -> i64>(
    chart: ChartView,
    request: Request,
    f: F,
)
    requires
        depicts(chart, request, f),
        request.x_range.rises(),
    ensures
        chart.series[1].points.len() == request.x_range.end - request.x_range.start,
        chart.series[1].points.first().x == request.x_range.start,
        chart.series[1].points.last().x == request.x_range.end - STEP,
        forall|i: int|
            0 < i < chart.series[1].points.len() ==> (#[trigger] chart.series[1].points[i]).x
                == chart.series[1].points[i - 1].x + STEP,
        forall|i: int, j: int|
            0 <= i < j < chart.series[1].points.len() ==> (#[trigger] chart.series[1].points[i]).x
                < (#[trigger] chart.series[1].points[j]).x,
{
    lemma_sample_grid_rises(request.x_range);
    let points = chart.series[1].points;
    let grid = sample_grid(request.x_range);
    assert forall|i: int| 0 <= i < points.len() implies (#[trigger] points[i]).x == grid[i] by {}
    assert forall|i: int, j: int| 0 <= i < j < points.len() implies (#[trigger] points[i]).x < (
    #[trigger] points[j]).x by {
        assert(grid[i] < grid[j]);
    }
}

/// Without shares nothing stands for them: the chart holds the reference
/// line and the curve, then the secret if it is shown, and no red series.
pub proof fn lemma_no_shares_no_discs<F: Fn(i64) -> i64>(
    chart: ChartView,
    request: Request,
    f: F,
)
    requires
        depicts(chart, request, f),
        request.shares.len() == 0,
    ensures
        chart.series.len() == if request.secret {
            3nat
        } else {
            2nat
        },
        forall|k: int| 0 <= k < chart.series.len() ==> (#[trigger] chart.series[k]).color != Color::Red,
{
}

/// A request whose x-range holds nothing is always turned down, and for the
/// range where the surface is sound.
pub proof fn lemma_empty_range_is_refused(
    dimensions: (u32, u32),
    x_range: Interval,
    y_range: Interval,
)
    requires
        x_range.start >= x_range.end,
    ensures
        request_error(dimensions, x_range, y_range) is Some,
        dimensions.0 > 0 && dimensions.1 > 0 ==> request_error(dimensions, x_range, y_range)
            == Some(ChartError::Construction),
{
}

} // verus!
