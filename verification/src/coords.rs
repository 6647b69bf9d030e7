//! Fixed-point coordinates and the grid on which a curve is sampled.
//!
//! Abscissas count thousandths, so that one unit is exactly one sampling
//! step. Ordinates count billionths, the cube of a thousandth: a polynomial of
//! degree three or less with whole coefficients then takes an exact value at
//! every abscissa, and nothing is ever rounded.

use plotters::coord::combinators::IntoLinspace;
use plotters::coord::ranged1d::DiscreteRanged;
use vstd::prelude::*;

verus! {

/// Abscissa units in a distance of one.
pub const X_UNITS_PER_ONE: i64 = 1_000;

/// Ordinate units in a distance of one.
pub const Y_UNITS_PER_ONE: i64 = 1_000_000_000;

/// Distance between two neighbouring curve samples, in abscissa units.
pub const STEP: i64 = 1;

/// A point of the plane: `x` in abscissa units, `y` in ordinate units.
#[derive(Clone, Copy, Debug, PartialEq, Eq, Structural)]
pub struct Point {
    pub x: i64,
    pub y: i64,
}

/// The half-open interval from `start` up to, but not including, `end`, in
/// the units of its axis.
#[derive(Clone, Copy, Debug, PartialEq, Eq, Structural)]
pub struct Interval {
    pub start: i64,
    pub end: i64,
}

impl Interval {
    /// An interval holds something exactly when it rises.
    pub open spec fn rises(self) -> bool {
        self.start < self.end
    }

    /// Number of curve samples that fit into the interval.
    pub open spec fn steps(self) -> nat {
        if self.rises() {
            lattice(self.start as int, self.end as int, STEP as int).len()
        } else {
            0
        }
    }
}

/// The values from `start` upwards, `step` apart, that lie below `end`.
pub open spec fn lattice(start: int, end: int, step: int) -> Seq<i64> {
    Seq::new(((end - start + step - 1) / step) as nat, |i: int| (start + i * step) as i64)
}

/// The abscissas at which a curve over `range` is sampled: the start of the
/// range, then one step further each time, for as long as the abscissa lies
/// inside the range.
pub open spec fn sample_grid(range: Interval) -> Seq<i64> {
    if range.rises() {
        lattice(range.start as int, range.end as int, STEP as int)
    } else {
        Seq::empty()
    }
}

/// What plotters' sampler makes of a range from `start` to `end`: the
/// lattice of a range that holds more than one step, and nothing of a
/// shorter one.
pub open spec fn linspace(start: i64, end: i64, step: i64) -> Seq<i64> {
    if start + step < end {
        lattice(start as int, end as int, step as int)
    } else {
        Seq::empty()
    }
}

/// Calls plotters' `IntoLinspace::step` on the range `start..end` and
/// collects what `DiscreteRanged::values` walks over.
///
/// The contract claims what `Linspace::compute_grid_values` does on a range
/// that does not fall: when the start and the start plus one step both lie
/// below the end it pushes the start, adds the step, and goes on while the
/// value is below the end; otherwise it pushes nothing. The requirement
/// leaves out falling ranges and steps that are not positive, on which that
/// loop would not stop, and values to which the step cannot be added.
#[verifier::external_body]
fn linspace_values(start: i64, end: i64, step: i64) -> (xs: Vec<i64>)
    requires
        start <= end,
        0 < step,
        start + step <= i64::MAX,
        end - 1 + step <= i64::MAX,
    ensures
        xs@ == linspace(start, end, step),
{
    (start..end).step(step).values().collect()
}

/// Samples the abscissas of a curve over `range`.
///
/// The grid comes from plotters' sampler, which yields nothing for a range
/// that is no longer than one step; here every rising range begins with its
/// start.
pub fn sample_abscissas(range: Interval) -> (xs: Vec<i64>)
    requires
        range.steps() <= usize::MAX,
    ensures
        xs@ == sample_grid(range),
{
    if range.start >= range.end {
        Vec::new()
    } else if range.start >= range.end - STEP {
        let mut xs: Vec<i64> = Vec::new();
        xs.push(range.start);
        assert(xs@ =~= sample_grid(range));
        xs
    } else {
        linspace_values(range.start, range.end, STEP)
    }
}

/// The sampled abscissas rise strictly, start at the start of the range, keep
/// one step apart and stay below its end.
pub proof fn lemma_sample_grid_rises(range: Interval)
    ensures
        sample_grid(range).len() == range.steps(),
        range.rises() ==> sample_grid(range).len() == range.end - range.start,
        range.rises() ==> sample_grid(range).first() == range.start,
        range.rises() ==> sample_grid(range).last() == range.end - STEP,
        forall|i: int|
            0 <= i < sample_grid(range).len() ==> range.start <= #[trigger] sample_grid(range)[i]
                < range.end,
        forall|i: int|
            0 < i < sample_grid(range).len() ==> #[trigger] sample_grid(range)[i] == sample_grid(
                range,
            )[i - 1] + STEP,
        forall|i: int, j: int|
            0 <= i < j < sample_grid(range).len() ==> #[trigger] sample_grid(range)[i]
                < #[trigger] sample_grid(range)[j],
{
}

} // verus!
