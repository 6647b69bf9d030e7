//! The six figures: which curve each one shows, over which part of the
//! plane, with which shares, and where it is kept.

use crate::chart::Chart;
use crate::coords::Interval;
use crate::draw::create_chart;
use crate::laws::{chart_of, lemma_chart_is_determined};
use crate::layout::Request;
use vstd::prelude::*;

verus! {

/// Width and height of every figure, in pixels.
pub const DIMENSIONS: (u32, u32) = (640, 480);

/// The curves of the figures take abscissas from minus to plus this many
/// units, a thousand to either side of the origin.
pub const REACH: i64 = 1_000_000;

/// A chart together with the place where its picture is kept.
#[derive(Clone, Debug, PartialEq, Eq)]
pub struct Figure {
    /// The directory of the picture, relative to where the program runs.
    pub directory: String,
    /// The name of the picture's file in that directory.
    pub file_name: String,
    pub chart: Chart,
}

/// The ordinate of x at the abscissa `x`.
pub open spec fn identity_value(x: int) -> int {
    1_000_000 * x
}

/// The ordinate of x² at the abscissa `x`.
pub open spec fn square_value(x: int) -> int {
    1_000 * x * x
}

/// The ordinate of x³ at the abscissa `x`.
pub open spec fn cube_value(x: int) -> int {
    x * x * x
}

/// The ordinate of 2x³ - 3x² + 2x + 5 at the abscissa `x`.
pub open spec fn shamir_value(x: int) -> int {
    2 * x * x * x - 3_000 * x * x + 2_000_000 * x + 5_000_000_000
}

proof fn lemma_powers_in_reach(x: int)
    requires
        -REACH <= x <= REACH,
    ensures
        0 <= x * x <= 1_000_000_000_000,
        -1_000_000_000_000_000_000 <= x * x * x <= 1_000_000_000_000_000_000,
{
    assert(0 <= x * x <= 1_000_000_000_000) by (nonlinear_arith)
        requires
            -1_000_000 <= x <= 1_000_000,
    ;
    assert(-1_000_000_000_000_000_000 <= x * x * x <= 1_000_000_000_000_000_000)
        by (nonlinear_arith)
        requires
            -1_000_000 <= x <= 1_000_000,
            0 <= x * x <= 1_000_000_000_000,
    ;
}

/// The curve y = x.
pub fn identity(x: i64) -> (y: i64)
    requires
        -REACH <= x <= REACH,
    ensures
        y == identity_value(x as int),
{
    1_000_000 * x
}

/// The curve y = x².
pub fn square(x: i64) -> (y: i64)
    requires
        -REACH <= x <= REACH,
    ensures
        y == square_value(x as int),
{
    proof {
        lemma_powers_in_reach(x as int);
    }
    let x2: i64 = x * x;
    assert(1_000 * x * x == 1_000 * (x * x)) by (nonlinear_arith);
    1_000 * x2
}

/// The curve y = x³.
pub fn cube(x: i64) -> (y: i64)
    requires
        -REACH <= x <= REACH,
    ensures
        y == cube_value(x as int),
{
    proof {
        lemma_powers_in_reach(x as int);
    }
    let x2: i64 = x * x;
    x2 * x
}

/// The curve y = 2x³ - 3x² + 2x + 5.
pub fn shamir_polynomial(x: i64) -> (y: i64)
    requires
        -REACH <= x <= REACH,
    ensures
        y == shamir_value(x as int),
{
    proof {
        lemma_powers_in_reach(x as int);
    }
    let x2: i64 = x * x;
    let x3: i64 = x2 * x;
    assert(2 * x * x * x == 2 * (x * x * x)) by (nonlinear_arith);
    assert(3_000 * x * x == 3_000 * (x * x)) by (nonlinear_arith);
    2 * x3 - 3_000 * x2 + 2_000_000 * x + 5_000_000_000
}

/// What the figure of the line asks for.
pub open spec fn line_request() -> Request {
    Request {
        title: "Two Points are Uniquely Determined by a Line"@,
        dimensions: DIMENSIONS,
        x_range: Interval { start: 2_500, end: 4_500 },
        y_range: Interval { start: 2_000_000_000, end: 4_500_000_000 },
        label: "x"@,
        shares: seq![3_000i64, 4_000i64],
        secret: false,
    }
}

/// A line through two shares. The chosen polynomial is x.
pub fn line() -> (figure: Figure)
    ensures
        figure.directory@ == "plots"@,
        figure.file_name@ == "line.svg"@,
        figure.chart@ == chart_of(line_request(), |x: int| identity_value(x)),
{
    let mut shares_x: Vec<i64> = Vec::new();
    shares_x.push(3_000);
    shares_x.push(4_000);
    assert(shares_x@ =~= line_request().shares);
    let chart = create_chart(
        "Two Points are Uniquely Determined by a Line",
        DIMENSIONS,
        Interval { start: 2_500, end: 4_500 },
        Interval { start: 2_000_000_000, end: 4_500_000_000 },
        identity,
        "x",
        shares_x.as_slice(),
        false,
    ).unwrap();
    proof {
        lemma_chart_is_determined(chart@, line_request(), identity, |x: int| identity_value(x));
    }
    Figure {
        directory: String::from_str("plots"),
        file_name: String::from_str("line.svg"),
        chart,
    }
}

/// What the figure of the parabola asks for.
pub open spec fn quadratic_request() -> Request {
    Request {
        title: "Three Points are Uniquely Determined by a Parabola"@,
        dimensions: DIMENSIONS,
        x_range: Interval { start: -5_100i64, end: 5_100 },
        y_range: Interval { start: -1_000_000_000i64, end: 26_000_000_000 },
        label: "x²"@,
        shares: seq![-4_000i64, 1_000i64, 4_000i64],
        secret: false,
    }
}

/// A parabola through three shares. The chosen polynomial is x².
pub fn quadratic() -> (figure: Figure)
    ensures
        figure.directory@ == "plots"@,
        figure.file_name@ == "quadratic.svg"@,
        figure.chart@ == chart_of(quadratic_request(), |x: int| square_value(x)),
{
    let mut shares_x: Vec<i64> = Vec::new();
    shares_x.push(-4_000);
    shares_x.push(1_000);
    shares_x.push(4_000);
    assert(shares_x@ =~= quadratic_request().shares);
    let chart = create_chart(
        "Three Points are Uniquely Determined by a Parabola",
        DIMENSIONS,
        Interval { start: -5_100, end: 5_100 },
        Interval { start: -1_000_000_000, end: 26_000_000_000 },
        square,
        "x²",
        shares_x.as_slice(),
        false,
    ).unwrap();
    proof {
        lemma_chart_is_determined(chart@, quadratic_request(), square, |x: int| square_value(x));
    }
    Figure {
        directory: String::from_str("plots"),
        file_name: String::from_str("quadratic.svg"),
        chart,
    }
}

/// What the figure of the cubic asks for.
pub open spec fn cubic_request() -> Request {
    Request {
        title: "Four Points are Uniquely Determined by a Cubic"@,
        dimensions: DIMENSIONS,
        x_range: Interval { start: -2_500i64, end: 2_500 },
        y_range: Interval { start: -20_000_000_000i64, end: 20_000_000_000 },
        label: "x³"@,
        shares: seq![-2_000i64, -1_000i64, 1_000i64, 2_000i64],
        secret: false,
    }
}

/// A cubic through four shares. The chosen polynomial is x³.
pub fn cubic() -> (figure: Figure)
    ensures
        figure.directory@ == "plots"@,
        figure.file_name@ == "cubic.svg"@,
        figure.chart@ == chart_of(cubic_request(), |x: int| cube_value(x)),
{
    let mut shares_x: Vec<i64> = Vec::new();
    shares_x.push(-2_000);
    shares_x.push(-1_000);
    shares_x.push(1_000);
    shares_x.push(2_000);
    assert(shares_x@ =~= cubic_request().shares);
    let chart = create_chart(
        "Four Points are Uniquely Determined by a Cubic",
        DIMENSIONS,
        Interval { start: -2_500, end: 2_500 },
        Interval { start: -20_000_000_000, end: 20_000_000_000 },
        cube,
        "x³",
        shares_x.as_slice(),
        false,
    ).unwrap();
    proof {
        lemma_chart_is_determined(chart@, cubic_request(), cube, |x: int| cube_value(x));
    }
    Figure {
        directory: String::from_str("plots"),
        file_name: String::from_str("cubic.svg"),
        chart,
    }
}

/// What the figure of the secret sharing asks for.
pub open spec fn shamir_request() -> Request {
    Request {
        title: "Shamir's Secret Sharing"@,
        dimensions: DIMENSIONS,
        x_range: Interval { start: -2_100i64, end: 2_400 },
        y_range: Interval { start: -30_000_000_000i64, end: 20_000_000_000 },
        label: "2x³ - 3x² + 2x + 5"@,
        shares: seq![-2_000i64, -1_000i64, 1_000i64, 2_000i64],
        secret: true,
    }
}

/// A polynomial, four of its shares and the secret. The chosen polynomial is
/// 2x³ - 3x² + 2x + 5.
pub fn shamir() -> (figure: Figure)
    ensures
        figure.directory@ == "plots"@,
        figure.file_name@ == "shamir.svg"@,
        figure.chart@ == chart_of(shamir_request(), |x: int| shamir_value(x)),
{
    let mut shares_x: Vec<i64> = Vec::new();
    shares_x.push(-2_000);
    shares_x.push(-1_000);
    shares_x.push(1_000);
    shares_x.push(2_000);
    assert(shares_x@ =~= shamir_request().shares);
    let chart = create_chart(
        "Shamir's Secret Sharing",
        DIMENSIONS,
        Interval { start: -2_100, end: 2_400 },
        Interval { start: -30_000_000_000, end: 20_000_000_000 },
        shamir_polynomial,
        "2x³ - 3x² + 2x + 5",
        shares_x.as_slice(),
        true,
    ).unwrap();
    proof {
        lemma_chart_is_determined(chart@, shamir_request(), shamir_polynomial, |x: int| shamir_value(x));
    }
    Figure {
        directory: String::from_str("plots"),
        file_name: String::from_str("shamir.svg"),
        chart,
    }
}

/// What the figure of the secret sharing with one share exchanged asks for.
pub open spec fn shamir_alternate_single_request() -> Request {
    Request {
        title: "Shamir's Secret Sharing: Alternate Single Share"@,
        dimensions: DIMENSIONS,
        x_range: Interval { start: -1_100i64, end: 3_400 },
        y_range: Interval { start: -30_000_000_000i64, end: 60_000_000_000 },
        label: "2x³ - 3x² + 2x + 5"@,
        shares: seq![-1_000i64, 1_000i64, 2_000i64, 3_000i64],
        secret: true,
    }
}

/// The same polynomial and secret with one share exchanged for another. The
/// chosen polynomial is 2x³ - 3x² + 2x + 5.
pub fn shamir_alternate_single() -> (figure: Figure)
    ensures
        figure.directory@ == "plots"@,
        figure.file_name@ == "shamir_alternate_single.svg"@,
        figure.chart@ == chart_of(shamir_alternate_single_request(), |x: int| shamir_value(x)),
{
    let mut shares_x: Vec<i64> = Vec::new();
    shares_x.push(-1_000);
    shares_x.push(1_000);
    shares_x.push(2_000);
    shares_x.push(3_000);
    assert(shares_x@ =~= shamir_alternate_single_request().shares);
    let chart = create_chart(
        "Shamir's Secret Sharing: Alternate Single Share",
        DIMENSIONS,
        Interval { start: -1_100, end: 3_400 },
        Interval { start: -30_000_000_000, end: 60_000_000_000 },
        shamir_polynomial,
        "2x³ - 3x² + 2x + 5",
        shares_x.as_slice(),
        true,
    ).unwrap();
    proof {
        lemma_chart_is_determined(chart@, shamir_alternate_single_request(), shamir_polynomial, |x: int| shamir_value(x));
    }
    Figure {
        directory: String::from_str("plots"),
        file_name: String::from_str("shamir_alternate_single.svg"),
        chart,
    }
}

/// What the figure of the secret sharing with all shares exchanged asks for.
pub open spec fn shamir_alternate_multiple_request() -> Request {
    Request {
        title: "Shamir's Secret Sharing: Alternate Multiple Shares"@,
        dimensions: DIMENSIONS,
        x_range: Interval { start: -2_700i64, end: 3_000 },
        y_range: Interval { start: -70_000_000_000i64, end: 60_000_000_000 },
        label: "2x³ - 3x² + 2x + 5"@,
        shares: seq![-2_500i64, -1_500i64, 1_500i64, 2_500i64],
        secret: true,
    }
}

/// The same polynomial and secret with every share exchanged for another.
/// The chosen polynomial is 2x³ - 3x² + 2x + 5.
pub fn shamir_alternate_multiple() -> (figure: Figure)
    ensures
        figure.directory@ == "plots"@,
        figure.file_name@ == "shamir_alternate_multiple.svg"@,
        figure.chart@ == chart_of(shamir_alternate_multiple_request(), |x: int| shamir_value(x)),
{
    let mut shares_x: Vec<i64> = Vec::new();
    shares_x.push(-2_500);
    shares_x.push(-1_500);
    shares_x.push(1_500);
    shares_x.push(2_500);
    assert(shares_x@ =~= shamir_alternate_multiple_request().shares);
    let chart = create_chart(
        "Shamir's Secret Sharing: Alternate Multiple Shares",
        DIMENSIONS,
        Interval { start: -2_700, end: 3_000 },
        Interval { start: -70_000_000_000, end: 60_000_000_000 },
        shamir_polynomial,
        "2x³ - 3x² + 2x + 5",
        shares_x.as_slice(),
        true,
    ).unwrap();
    proof {
        lemma_chart_is_determined(chart@, shamir_alternate_multiple_request(), shamir_polynomial, |x: int| shamir_value(x));
    }
    Figure {
        directory: String::from_str("plots"),
        file_name: String::from_str("shamir_alternate_multiple.svg"),
        chart,
    }
}

} // verus!
