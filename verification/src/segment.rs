//! Path commands and the strokes that they ask for.
use vstd::prelude::*;
use crate::geometry::CoordinatePair;

verus! {

/// One command of a path expression. With `abs` the numbers are
/// coordinates, without it they are offsets from the current point.
#[derive(Debug, PartialEq, Clone, Copy)]
pub enum PathSegment<T> {
    MoveTo { abs: bool, x: T, y: T },
    LineTo { abs: bool, x: T, y: T },
    HorizontalLineTo { abs: bool, x: T },
    VerticalLineTo { abs: bool, y: T },
    CurveTo { abs: bool, x1: T, y1: T, x2: T, y2: T, x: T, y: T },
    SmoothCurveTo { abs: bool, x2: T, y2: T, x: T, y: T },
    Quadratic { abs: bool, x1: T, y1: T, x: T, y: T },
    SmoothQuadratic { abs: bool, x: T, y: T },
    EllipticalArc {
        abs: bool,
        rx: T,
        ry: T,
        x_axis_rotation: T,
        large_arc: bool,
        sweep: bool,
        x: T,
        y: T,
    },
    ClosePath { abs: bool },
}

/// Where the first control point of a cubic curve lies.
#[derive(Debug, PartialEq, Clone, Copy)]
pub enum FirstControl<T> {
    /// As the command states it: a position with `abs`, else an offset from
    /// the start of the curve.
    Given(CoordinatePair<T>),
    /// The start of the curve moved by `to - ctrl2`, where `ctrl2` and `to`
    /// are the second control point and the end of the previous curve
    /// command, both as that command states them.
    Mirrored { ctrl2: CoordinatePair<T>, to: CoordinatePair<T> },
    /// The start of the curve itself.
    Start,
}

/// An elliptical arc between two positions: the radii, the rotation of the
/// x axis in degrees and the two flags.
#[derive(Debug, PartialEq, Clone, Copy)]
pub struct ArcCommand<T> {
    pub from: CoordinatePair<T>,
    pub to: CoordinatePair<T>,
    pub rx: T,
    pub ry: T,
    pub x_axis_rotation: T,
    pub large_arc: bool,
    pub sweep: bool,
}

/// One cubic curve of a chain: its two control points and its end, all as
/// positions. It starts where the curve before it ends.
#[derive(Debug, PartialEq, Clone, Copy)]
pub struct ChainLink<T> {
    pub ctrl1: CoordinatePair<T>,
    pub ctrl2: CoordinatePair<T>,
    pub to: CoordinatePair<T>,
}

/// What an elliptical arc comes to once its geometry is known.
#[derive(Debug, PartialEq)]
pub enum ArcShape<T> {
    /// Start and end coincide: the arc is left out.
    Nothing,
    /// The arc is flat: a straight line to its end.
    Line,
    /// A chain of cubic curves from the start of the arc to its end.
    Curves { curves: Vec<ChainLink<T>> },
}

/// A curve that is to be flattened, all its points as positions.
#[derive(Debug, PartialEq, Clone, Copy)]
pub enum Stroke<T> {
    /// A cubic curve.
    Cubic {
        from: CoordinatePair<T>,
        ctrl1: CoordinatePair<T>,
        ctrl2: CoordinatePair<T>,
        to: CoordinatePair<T>,
    },
    /// A quadratic curve.
    Quadratic { from: CoordinatePair<T>, ctrl: CoordinatePair<T>, to: CoordinatePair<T> },
}

} // verus!
