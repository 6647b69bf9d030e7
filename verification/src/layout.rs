//! What every chart has in common, and what is asked of a single one.

use crate::chart::{one_if, Frame, LegendBox, Mesh};
use crate::coords::Interval;
use crate::style::{Color, Corner, Paint, Typeface};
use vstd::prelude::*;

verus! {

/// Why a chart could not be built.
#[derive(Clone, Copy, Debug, PartialEq, Eq, Structural)]
pub enum ChartError {
    /// The drawing surface has no width or no height.
    Surface,
    /// An axis range is empty or falls, so no coordinate system fits it.
    Construction,
}

/// Size of the title's letters.
pub const TITLE_SIZE: u32 = 32;

/// Free space around the chart, in pixels.
pub const MARGIN: u32 = 5;

/// Height of the strip for the x-axis labels, in pixels.
pub const X_LABEL_AREA: u32 = 35;

/// Width of the strip for the y-axis labels, in pixels.
pub const Y_LABEL_AREA: u32 = 40;

/// Number of tick labels along the y-axis.
pub const Y_LABELS: usize = 5;

/// Decimal places of a tick label.
pub const LABEL_DECIMALS: u32 = 0;

/// Opacity of the legend's background.
pub const LEGEND_OPACITY: u8 = 80;

/// Width of the legend's glyph strip, in pixels.
pub const LEGEND_GLYPH_AREA: u32 = 10;

/// What is asked of a chart, as a mathematical value; the curve itself is
/// handed over beside it.
pub struct Request {
    /// What is written above the chart.
    pub title: Seq<char>,
    /// Width and height of the surface, in pixels.
    pub dimensions: (u32, u32),
    /// The part of the plane that is shown.
    pub x_range: Interval,
    pub y_range: Interval,
    /// How the legend names the curve.
    pub label: Seq<char>,
    /// The abscissas of the shares.
    pub shares: Seq<i64>,
    /// Whether the secret is shown.
    pub secret: bool,
}

/// The error with which a request is turned down, if it is. The surface is
/// looked at first, the ranges after it.
pub open spec fn request_error(dimensions: (u32, u32), x_range: Interval, y_range: Interval)
    -> Option<ChartError> {
    if dimensions.0 == 0 || dimensions.1 == 0 {
        Some(ChartError::Surface)
    } else if !x_range.rises() || !y_range.rises() {
        Some(ChartError::Construction)
    } else {
        None
    }
}

/// The frame of every chart: a transparent surface of the given size, a
/// narrow margin, and room for the axis labels below and left of the plot.
pub open spec fn house_frame(dimensions: (u32, u32), x_range: Interval, y_range: Interval)
    -> Frame {
    Frame {
        width: dimensions.0,
        height: dimensions.1,
        background: Paint { color: Color::Black, opacity_percent: 0 },
        typeface: Typeface::SansSerif,
        title_size: TITLE_SIZE,
        margin: MARGIN,
        x_label_area: X_LABEL_AREA,
        y_label_area: Y_LABEL_AREA,
        x_range,
        y_range,
    }
}

/// The mesh of every chart: no grid lines, whole numbers as tick labels,
/// five of them along the y-axis, and along the x-axis one for every
/// highlighted point.
pub open spec fn house_mesh(shares: nat, secret: bool) -> Mesh {
    Mesh {
        x_labels: (shares + one_if(secret)) as usize,
        y_labels: Y_LABELS,
        grid_lines: false,
        label_decimals: LABEL_DECIMALS,
    }
}

/// The legend box of every chart: in the lower right corner, framed in
/// black, on white through which the plot still shows.
pub open spec fn house_legend() -> LegendBox {
    LegendBox {
        corner: Corner::LowerRight,
        border: Color::Black,
        background: Paint { color: Color::White, opacity_percent: LEGEND_OPACITY },
        glyph_area: LEGEND_GLYPH_AREA,
    }
}

} // verus!
