//! The vocabulary in which a chart says how it wants to be painted.

use vstd::prelude::*;

verus! {

/// The colours a chart uses.
#[derive(Clone, Copy, Debug, PartialEq, Eq, Structural)]
pub enum Color {
    Black,
    Blue,
    Green,
    Red,
    White,
}

/// A colour laid on with an opacity between 0 (nothing shows) and 100
/// (nothing shows through).
#[derive(Clone, Copy, Debug, PartialEq, Eq, Structural)]
pub struct Paint {
    pub color: Color,
    pub opacity_percent: u8,
}

/// The typefaces a chart uses.
#[derive(Clone, Copy, Debug, PartialEq, Eq, Structural)]
pub enum Typeface {
    SansSerif,
}

/// How the points of a series are shown.
#[derive(Clone, Copy, Debug, PartialEq, Eq, Structural)]
pub enum Mark {
    /// Straight strokes from each point to the next.
    Path { stroke_width: u32 },
    /// A filled disc on every point, with the point's coordinate pair written
    /// beside it: the text stands `text_dx` pixels to the right of the point
    /// and `text_dy` pixels below it.
    Disc { radius: u32, text_dx: i32, text_dy: i32, text_size: u32 },
}

/// The small picture that stands for a series in the legend.
#[derive(Clone, Copy, Debug, PartialEq, Eq, Structural)]
pub enum Glyph {
    /// A short level stroke.
    Segment { length: u32, stroke_width: u32 },
    /// A filled disc.
    Disc { radius: u32 },
}

/// The corner of the plotting area in which the legend stands.
#[derive(Clone, Copy, Debug, PartialEq, Eq, Structural)]
pub enum Corner {
    UpperLeft,
    UpperRight,
    LowerLeft,
    LowerRight,
}

/// Width of the stroke of a path that asks for nothing special.
pub const PLAIN_STROKE: u32 = 1;

/// Radius of the disc on a highlighted point, in pixels.
pub const DISC_RADIUS: u32 = 5;

/// Where the coordinate pair stands relative to its point, in pixels.
pub const TEXT_DX: i32 = 1;

pub const TEXT_DY: i32 = 10;

/// Size of the coordinate pair's letters.
pub const TEXT_SIZE: u32 = 15;

/// Length and width of the stroke that stands for a curve in the legend.
pub const SEGMENT_LENGTH: u32 = 10;

pub const SEGMENT_STROKE: u32 = 2;

/// The mark of a curve and of the reference line.
pub open spec fn plain_path() -> Mark {
    Mark::Path { stroke_width: PLAIN_STROKE }
}

/// The mark of a highlighted point.
pub open spec fn annotated_disc() -> Mark {
    Mark::Disc { radius: DISC_RADIUS, text_dx: TEXT_DX, text_dy: TEXT_DY, text_size: TEXT_SIZE }
}

/// The legend glyph of a curve.
pub open spec fn segment_glyph() -> Glyph {
    Glyph::Segment { length: SEGMENT_LENGTH, stroke_width: SEGMENT_STROKE }
}

/// The legend glyph of highlighted points.
pub open spec fn disc_glyph() -> Glyph {
    Glyph::Disc { radius: DISC_RADIUS }
}

} // verus!
