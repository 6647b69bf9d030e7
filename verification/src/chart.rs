//! The chart: a frame, an axis mesh, the series in the order in which they
//! are painted, and the legend box.

use crate::coords::{Interval, Point};
use crate::style::{Color, Corner, Glyph, Mark, Paint, Typeface};
use vstd::prelude::*;

verus! {

/// The drawing surface and the coordinate system laid on it.
#[derive(Clone, Copy, Debug, PartialEq, Eq, Structural)]
pub struct Frame {
    /// Size of the surface in pixels.
    pub width: u32,
    pub height: u32,
    /// What the surface is filled with before anything is painted.
    pub background: Paint,
    /// Typeface of the title and of every other text.
    pub typeface: Typeface,
    /// Size of the title's letters.
    pub title_size: u32,
    /// Free space around the chart, in pixels.
    pub margin: u32,
    /// Height of the strip below the plot that holds the x-axis labels.
    pub x_label_area: u32,
    /// Width of the strip left of the plot that holds the y-axis labels.
    pub y_label_area: u32,
    /// The part of the plane that the plot shows.
    pub x_range: Interval,
    pub y_range: Interval,
}

/// The axes and their tick labels.
#[derive(Clone, Copy, Debug, PartialEq, Eq, Structural)]
pub struct Mesh {
    /// Number of tick labels along each axis.
    pub x_labels: usize,
    pub y_labels: usize,
    /// Whether grid lines are drawn across the plot.
    pub grid_lines: bool,
    /// Decimal places to which a tick label is rounded.
    pub label_decimals: u32,
}

/// The box that holds the legend.
#[derive(Clone, Copy, Debug, PartialEq, Eq, Structural)]
pub struct LegendBox {
    pub corner: Corner,
    pub border: Color,
    pub background: Paint,
    /// Width of the strip that holds the glyphs, in pixels.
    pub glyph_area: u32,
}

/// What a series shows in the legend.
#[derive(Clone, Debug, PartialEq, Eq)]
pub struct LegendEntry {
    pub label: String,
    pub glyph: Glyph,
}

/// A legend entry as a mathematical value.
pub struct LegendEntryView {
    pub label: Seq<char>,
    pub glyph: Glyph,
}

impl View for LegendEntry {
    type V = LegendEntryView;

    open spec fn view(&self) -> LegendEntryView {
        LegendEntryView { label: self.label@, glyph: self.glyph }
    }
}

/// Points that are painted alike, with what stands for them in the legend.
#[derive(Clone, Debug, PartialEq, Eq)]
pub struct Series {
    pub mark: Mark,
    pub color: Color,
    pub points: Vec<Point>,
    /// `None` for a series that the legend does not mention.
    pub legend: Option<LegendEntry>,
}

/// A series as a mathematical value.
pub struct SeriesView {
    pub mark: Mark,
    pub color: Color,
    pub points: Seq<Point>,
    pub legend: Option<LegendEntryView>,
}

impl View for Series {
    type V = SeriesView;

    open spec fn view(&self) -> SeriesView {
        SeriesView {
            mark: self.mark,
            color: self.color,
            points: self.points@,
            legend: match self.legend {
                Some(entry) => Some(entry@),
                None => None,
            },
        }
    }
}

/// A whole chart. A drawing program paints the background, the title and the
/// mesh, then the series from first to last, then the legend.
#[derive(Clone, Debug, PartialEq, Eq)]
pub struct Chart {
    pub title: String,
    pub frame: Frame,
    pub mesh: Mesh,
    pub series: Vec<Series>,
    pub legend: LegendBox,
}

/// A chart as a mathematical value.
pub struct ChartView {
    pub title: Seq<char>,
    pub frame: Frame,
    pub mesh: Mesh,
    pub series: Seq<SeriesView>,
    pub legend: LegendBox,
}

impl View for Chart {
    type V = ChartView;

    open spec fn view(&self) -> ChartView {
        ChartView {
            title: self.title@,
            frame: self.frame,
            mesh: self.mesh,
            series: self.series.deep_view(),
            legend: self.legend,
        }
    }
}

impl DeepView for Series {
    type V = SeriesView;

    open spec fn deep_view(&self) -> SeriesView {
        self@
    }
}

/// One if `condition` holds, zero if not.
pub open spec fn one_if(condition: bool) -> nat {
    if condition {
        1
    } else {
        0
    }
}

/// Number of series that the legend mentions.
pub open spec fn legend_entries(series: Seq<SeriesView>) -> nat
    decreases series.len(),
{
    if series.len() == 0 {
        0
    } else {
        legend_entries(series.drop_last()) + one_if(series.last().legend is Some)
    }
}

/// One more series adds one legend entry if the legend mentions it, and none
/// if it does not.
pub proof fn lemma_legend_entries_push(series: Seq<SeriesView>, s: SeriesView)
    ensures
        legend_entries(series.push(s)) == legend_entries(series) + one_if(s.legend is Some),
{
    assert(series.push(s).drop_last() =~= series);
}

} // verus!
