//! Plans for charts that show a polynomial curve, the shares sampled from it
//! and the secret it hides above the origin.
//!
//! The library decides everything about a chart except how it is painted: it
//! checks the request, lays out the frame and the axes, samples the curve,
//! places the highlighted points and registers the legend entries. The result
//! is a [`chart::Chart`], a plain description that a drawing program walks
//! through from top to bottom.
//!
//! All coordinates are fixed-point integers. See [`coords`] for the units.

pub mod chart;
pub mod coords;
pub mod draw;
pub mod figures;
pub mod laws;
pub mod layout;
pub mod style;
