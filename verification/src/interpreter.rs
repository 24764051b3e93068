//! The state machine that walks over the commands of one path expression.
use vstd::prelude::*;
use crate::current_line::{added, too_short_text, CurrentLine, LineState};
use crate::error::{concat, text_view, Error, ErrorView};
use crate::geometry::{apart, difference, offset, resolve, resolved, sum, CoordinatePair, Polyline};
use crate::segment::{ArcCommand, ArcShape, ChainLink, FirstControl, PathSegment, Stroke};

verus! {

/// The state of the interpreter: the line in progress and the polylines
/// that were emitted so far.
pub struct Machine<T> {
    pub line: LineState<T>,
    pub lines: Seq<Seq<CoordinatePair<T>>>,
}

impl<T> Machine<T> {
    /// The state before the first command of a path expression.
    pub open spec fn start() -> Self {
        Machine { line: LineState::empty(), lines: Seq::empty() }
    }

    /// Emits the line in progress if it is valid; else nothing changes, and
    /// a later command goes on with the points that are there.
    pub open spec fn flush(self) -> Self {
        if self.line.is_valid() {
            Machine { line: self.line.finished(), lines: self.lines.push(self.line.points) }
        } else {
            self
        }
    }

    /// The state after `pair` was appended to the line in progress.
    pub open spec fn with_pushed(self, pair: CoordinatePair<T>) -> Self {
        Machine { line: self.line.push(pair), lines: self.lines }
    }

    /// The state with another line in progress.
    pub open spec fn with_line(self, line: LineState<T>) -> Self {
        Machine { line, lines: self.lines }
    }

    /// The state after the points of a stroke were appended.
    pub open spec fn extend(self, points: Seq<CoordinatePair<T>>) -> Self {
        Machine { line: self.line.extend(points), lines: self.lines }
    }
}

/// The text of the error for a horizontal line without a current point.
pub open spec fn horizontal_on_empty_text() -> Seq<char> {
    "Invalid state: HorizontalLineTo on emtpy CurrentLine"@
}

/// The text of the error for a vertical line without a current point.
pub open spec fn vertical_on_empty_text() -> Seq<char> {
    "Invalid state: VerticalLineTo on emtpy CurrentLine"@
}

/// The text of the error for a cubic curve without a current point.
pub open spec fn cubic_on_empty_text() -> Seq<char> {
    "Invalid state: CurveTo or SmoothCurveTo on empty CurrentLine"@
}

/// The text of the error for a smooth cubic curve that neither follows a
/// curve nor has a current point.
pub open spec fn smooth_without_reference_text() -> Seq<char> {
    "Invalid state: SmoothCurveTo without a reference point"@
}

/// The text of the error for a quadratic curve without a current point.
pub open spec fn quadratic_on_empty_text() -> Seq<char> {
    "Invalid state: Quadratic on empty CurrentLine"@
}

/// The text of the error for an arc without a current point.
pub open spec fn arc_on_empty_text() -> Seq<char> {
    "Invalid state: EllipticalArc on empty CurrentLine"@
}

/// The text of the error for a smooth quadratic curve, which is not
/// supported.
pub open spec fn unsupported_text() -> Seq<char> {
    "Unsupported path segment: SmoothQuadratic"@
}

/// The text of the error for closing a line of fewer than two points.
pub open spec fn close_text() -> Seq<char> {
    "Invalid state: "@ + ErrorView::Polyline(too_short_text()).message()
}

/// How a smooth cubic command finds its first control point: by mirroring
/// where the command before it was a cubic curve, smooth or not, and at the
/// start of the curve after any other command or none.
pub open spec fn first_control<T>(prev: Option<PathSegment<T>>) -> FirstControl<T> {
    match prev {
        Some(PathSegment::CurveTo { x2, y2, x, y, .. }) => FirstControl::Mirrored {
            ctrl2: CoordinatePair { x: x2, y: y2 },
            to: CoordinatePair { x, y },
        },
        Some(PathSegment::SmoothCurveTo { x2, y2, x, y, .. }) => FirstControl::Mirrored {
            ctrl2: CoordinatePair { x: x2, y: y2 },
            to: CoordinatePair { x, y },
        },
        _ => FirstControl::Start,
    }
}

/// A chain of curves with the end of its last curve set to `end`, so that
/// the chain ends there exactly, whatever rounding did to it.
pub open spec fn ending_at<T>(curves: Seq<ChainLink<T>>, end: CoordinatePair<T>) -> Seq<ChainLink<T>> {
    if curves.len() == 0 {
        curves
    } else {
        curves.update(
            curves.len() - 1,
            ChainLink { ctrl1: curves.last().ctrl1, ctrl2: curves.last().ctrl2, to: end },
        )
    }
}

/// The stroke for the curve at position `i` of a chain that starts at
/// `from`: it starts where the curve before it ends.
pub open spec fn link<T>(from: CoordinatePair<T>, curves: Seq<ChainLink<T>>, i: int) -> Stroke<T> {
    Stroke::Cubic {
        from: if i == 0 {
            from
        } else {
            curves[i - 1].to
        },
        ctrl1: curves[i].ctrl1,
        ctrl2: curves[i].ctrl2,
        to: curves[i].to,
    }
}

/// Whether `points` are possible points of the curves of a chain from
/// position `i` on, behind the points in `found`: every curve gives the
/// points that `eval` computes for its stroke, in the order of the chain.
pub open spec fn chain_drawn<T, Ev: Fn(Stroke<T>, T) -> Vec<CoordinatePair<T>>>(
    eval: &Ev,
    tol: T,
    from: CoordinatePair<T>,
    curves: Seq<ChainLink<T>>,
    i: int,
    found: Seq<CoordinatePair<T>>,
    points: Seq<CoordinatePair<T>>,
) -> bool
    decreases curves.len() - i,
{
    if i < 0 {
        false
    } else if i >= curves.len() {
        points == found
    } else {
        exists|part: Vec<CoordinatePair<T>>|
            #[trigger] eval.ensures((link(from, curves, i), tol), part) && chain_drawn(
                eval,
                tol,
                from,
                curves,
                i + 1,
                found + part@,
                points,
            )
    }
}

/// Whether `points` are possible points of an arc from `from` to `end`
/// with the shape `shape`: none where start and end coincide; the end
/// alone where the arc is flat; else the points of its chain of curves,
/// which is made to end at `end` exactly.
pub open spec fn shaped<T, Ev: Fn(Stroke<T>, T) -> Vec<CoordinatePair<T>>>(
    eval: &Ev,
    tol: T,
    from: CoordinatePair<T>,
    end: CoordinatePair<T>,
    shape: ArcShape<T>,
    points: Seq<CoordinatePair<T>>,
) -> bool {
    match shape {
        ArcShape::Nothing => points == Seq::<CoordinatePair<T>>::empty(),
        ArcShape::Line => points == seq![end],
        ArcShape::Curves { curves } => chain_drawn(
            eval,
            tol,
            from,
            ending_at(curves@, end),
            0,
            Seq::empty(),
            points,
        ),
    }
}

/// Whether `c1` is a possible first control point of a cubic curve from
/// `from`: what the command states, resolved; or `from` moved by the way
/// from the second control point of the curve before to its end; or `from`
/// itself.
pub open spec fn first_at<T, Plus: Fn(T, T) -> T, Minus: Fn(T, T) -> T>(
    plus: &Plus,
    minus: &Minus,
    abs: bool,
    from: CoordinatePair<T>,
    ctrl1: FirstControl<T>,
    c1: CoordinatePair<T>,
) -> bool {
    match ctrl1 {
        FirstControl::Given(given) => resolved(plus, abs, from, given, c1),
        FirstControl::Mirrored { ctrl2, to } => exists|d: CoordinatePair<T>|
            #[trigger] difference(minus, to, ctrl2, d) && sum(plus, from, d, c1),
        FirstControl::Start => c1 == from,
    }
}

/// Whether `points` are possible points of a cubic curve from `from`
/// whose second control point and end the command states as `ctrl2` and
/// `to`: what `eval` computes for the curve between the resolved points.
pub open spec fn cubic_drawn<
    T,
    Plus: Fn(T, T) -> T,
    Minus: Fn(T, T) -> T,
    Ev: Fn(Stroke<T>, T) -> Vec<CoordinatePair<T>>,
>(
    plus: &Plus,
    minus: &Minus,
    eval: &Ev,
    tol: T,
    abs: bool,
    from: CoordinatePair<T>,
    ctrl1: FirstControl<T>,
    ctrl2: CoordinatePair<T>,
    to: CoordinatePair<T>,
    points: Seq<CoordinatePair<T>>,
) -> bool {
    exists|c1: CoordinatePair<T>, c2: CoordinatePair<T>, end: CoordinatePair<T>, part: Vec<CoordinatePair<T>>|
        #[trigger] eval.ensures((Stroke::Cubic { from, ctrl1: c1, ctrl2: c2, to: end }, tol), part)
            && part@ == points && first_at(plus, minus, abs, from, ctrl1, c1) && resolved(
            plus,
            abs,
            from,
            ctrl2,
            c2,
        ) && resolved(plus, abs, from, to, end)
}

/// Whether `points` are possible points of a quadratic curve from `from`
/// whose control point and end the command states as `ctrl` and `to`.
pub open spec fn quadratic_drawn<T, Plus: Fn(T, T) -> T, Ev: Fn(Stroke<T>, T) -> Vec<CoordinatePair<T>>>(
    plus: &Plus,
    eval: &Ev,
    tol: T,
    abs: bool,
    from: CoordinatePair<T>,
    ctrl: CoordinatePair<T>,
    to: CoordinatePair<T>,
    points: Seq<CoordinatePair<T>>,
) -> bool {
    exists|c: CoordinatePair<T>, end: CoordinatePair<T>, part: Vec<CoordinatePair<T>>|
        #[trigger] eval.ensures((Stroke::Quadratic { from, ctrl: c, to: end }, tol), part) && part@
            == points && resolved(plus, abs, from, ctrl, c) && resolved(plus, abs, from, to, end)
}

/// Whether `points` are possible points of the arc that `segment` states,
/// from `from`: those of the shape that `arc` finds for the arc to the
/// resolved end point.
pub open spec fn arc_drawn<
    T,
    Plus: Fn(T, T) -> T,
    Ev: Fn(Stroke<T>, T) -> Vec<CoordinatePair<T>>,
    Ar: Fn(ArcCommand<T>) -> ArcShape<T>,
>(
    plus: &Plus,
    eval: &Ev,
    arc: &Ar,
    tol: T,
    segment: PathSegment<T>,
    from: CoordinatePair<T>,
    points: Seq<CoordinatePair<T>>,
) -> bool {
    exists|end: CoordinatePair<T>, shape: ArcShape<T>|
        #[trigger] arc.ensures((arc_command(segment, from, end),), shape) && resolved(
            plus,
            segment->EllipticalArc_abs,
            from,
            CoordinatePair { x: segment->EllipticalArc_x, y: segment->EllipticalArc_y },
            end,
        ) && shaped(eval, tol, from, end, shape, points)
}

/// The arc that an arc command states, between the positions `from` and
/// `end`.
pub open spec fn arc_command<T>(
    segment: PathSegment<T>,
    from: CoordinatePair<T>,
    end: CoordinatePair<T>,
) -> ArcCommand<T> {
    ArcCommand {
        from,
        to: end,
        rx: segment->EllipticalArc_rx,
        ry: segment->EllipticalArc_ry,
        x_axis_rotation: segment->EllipticalArc_x_axis_rotation,
        large_arc: segment->EllipticalArc_large_arc,
        sweep: segment->EllipticalArc_sweep,
    }
}

/// Whether `points` are possible points that the curve or arc command
/// `segment`, which follows `prev`, adds to a line that ends in `from`.
pub open spec fn curve_drawn<
    T,
    Plus: Fn(T, T) -> T,
    Minus: Fn(T, T) -> T,
    Ev: Fn(Stroke<T>, T) -> Vec<CoordinatePair<T>>,
    Ar: Fn(ArcCommand<T>) -> ArcShape<T>,
>(
    plus: &Plus,
    minus: &Minus,
    eval: &Ev,
    arc: &Ar,
    tol: T,
    segment: PathSegment<T>,
    prev: Option<PathSegment<T>>,
    from: CoordinatePair<T>,
    points: Seq<CoordinatePair<T>>,
) -> bool {
    match segment {
        PathSegment::CurveTo { abs, x1, y1, x2, y2, x, y } => cubic_drawn(
            plus,
            minus,
            eval,
            tol,
            abs,
            from,
            FirstControl::Given(CoordinatePair { x: x1, y: y1 }),
            CoordinatePair { x: x2, y: y2 },
            CoordinatePair { x, y },
            points,
        ),
        PathSegment::SmoothCurveTo { abs, x2, y2, x, y } => cubic_drawn(
            plus,
            minus,
            eval,
            tol,
            abs,
            from,
            first_control(prev),
            CoordinatePair { x: x2, y: y2 },
            CoordinatePair { x, y },
            points,
        ),
        PathSegment::Quadratic { abs, x1, y1, x, y } => quadratic_drawn(
            plus,
            eval,
            tol,
            abs,
            from,
            CoordinatePair { x: x1, y: y1 },
            CoordinatePair { x, y },
            points,
        ),
        PathSegment::EllipticalArc { .. } => arc_drawn(plus, eval, arc, tol, segment, from, points),
        _ => false,
    }
}

/// The text of the error for a curve or arc command without a current
/// point.
pub open spec fn no_current_point_text<T>(segment: PathSegment<T>, prev: Option<PathSegment<T>>) -> Seq<
    char,
> {
    match segment {
        PathSegment::CurveTo { .. } => cubic_on_empty_text(),
        PathSegment::SmoothCurveTo { .. } => if first_control(prev) is Start {
            smooth_without_reference_text()
        } else {
            cubic_on_empty_text()
        },
        PathSegment::Quadratic { .. } => quadratic_on_empty_text(),
        _ => arc_on_empty_text(),
    }
}

/// Whether `after` is a possible line after a horizontal or vertical line
/// command on a line that ends in `last`: one point more, which keeps the
/// coordinate that the command does not state; the other is what the
/// command states, with `abs`, or that of `last` moved by it.
pub open spec fn straight_added<T, Plus: Fn(T, T) -> T>(
    plus: &Plus,
    segment: PathSegment<T>,
    last: CoordinatePair<T>,
    before: LineState<T>,
    after: LineState<T>,
) -> bool {
    &&& after.points.len() > 0
    &&& after == before.push(after.points.last())
    &&& match segment {
        PathSegment::HorizontalLineTo { abs, x } => {
            &&& after.points.last().y == last.y
            &&& if abs {
                after.points.last().x == x
            } else {
                plus.ensures((last.x, x), after.points.last().x)
            }
        },
        PathSegment::VerticalLineTo { abs, y } => {
            &&& after.points.last().x == last.x
            &&& if abs {
                after.points.last().y == y
            } else {
                plus.ensures((last.y, y), after.points.last().y)
            }
        },
        _ => false,
    }
}

/// One transition of the state machine: whether `out` is a possible
/// outcome of the command `segment`, which follows `prev`, in the state
/// `m`. A moveto emits the line in progress, if it is valid, and adds its
/// point; a lineto adds its point; the other line, curve and arc commands
/// need a current point and add their points behind it; closing needs two
/// points. An error leaves no state.
pub open spec fn stepped<
    T,
    Plus: Fn(T, T) -> T,
    Minus: Fn(T, T) -> T,
    Ev: Fn(Stroke<T>, T) -> Vec<CoordinatePair<T>>,
    Ar: Fn(ArcCommand<T>) -> ArcShape<T>,
>(
    plus: &Plus,
    minus: &Minus,
    eval: &Ev,
    arc: &Ar,
    tol: T,
    segment: PathSegment<T>,
    prev: Option<PathSegment<T>>,
    m: Machine<T>,
    out: Result<Machine<T>, ErrorView>,
) -> bool {
    match segment {
        PathSegment::MoveTo { abs, x, y } => {
            &&& out is Ok
            &&& out->Ok_0.lines == m.flush().lines
            &&& added(plus, abs, m.flush().line, CoordinatePair { x, y }, out->Ok_0.line)
        },
        PathSegment::LineTo { abs, x, y } => {
            &&& out is Ok
            &&& out->Ok_0.lines == m.lines
            &&& added(plus, abs, m.line, CoordinatePair { x, y }, out->Ok_0.line)
        },
        PathSegment::HorizontalLineTo { .. } => match m.line.last_pair() {
            Some(last) => {
                &&& out is Ok
                &&& out->Ok_0.lines == m.lines
                &&& straight_added(plus, segment, last, m.line, out->Ok_0.line)
            },
            None => out == Err::<Machine<T>, ErrorView>(
                ErrorView::PathParse(horizontal_on_empty_text()),
            ),
        },
        PathSegment::VerticalLineTo { .. } => match m.line.last_pair() {
            Some(last) => {
                &&& out is Ok
                &&& out->Ok_0.lines == m.lines
                &&& straight_added(plus, segment, last, m.line, out->Ok_0.line)
            },
            None => out == Err::<Machine<T>, ErrorView>(ErrorView::PathParse(vertical_on_empty_text())),
        },
        PathSegment::SmoothQuadratic { .. } => out == Err::<Machine<T>, ErrorView>(
            ErrorView::PathParse(unsupported_text()),
        ),
        PathSegment::ClosePath { .. } => if m.line.points.len() >= 2 {
            out == Ok::<Machine<T>, ErrorView>(m.with_line(m.line.closed()))
        } else {
            out == Err::<Machine<T>, ErrorView>(ErrorView::PathParse(close_text()))
        },
        _ => match m.line.last_pair() {
            Some(from) => {
                &&& out is Ok
                &&& exists|points: Seq<CoordinatePair<T>>|
                    #[trigger] curve_drawn(plus, minus, eval, arc, tol, segment, prev, from, points)
                        && out->Ok_0 == m.extend(points)
            },
            None => out == Err::<Machine<T>, ErrorView>(
                ErrorView::PathParse(no_current_point_text(segment, prev)),
            ),
        },
    }
}

/// The polylines of a vector, each as the sequence of its points.
pub open spec fn lines_view<T>(lines: Vec<Polyline<T>>) -> Seq<Seq<CoordinatePair<T>>> {
    lines@.map_values(|line: Polyline<T>| line@)
}

/// The state that a line accumulator and a vector of polylines stand for.
pub open spec fn machine<T>(line: CurrentLine<T>, lines: Vec<Polyline<T>>) -> Machine<T> {
    Machine { line: line@, lines: lines_view(lines) }
}

/// Emit the current line if it is valid.
fn flush<T: Copy>(current_line: &mut CurrentLine<T>, lines: &mut Vec<Polyline<T>>)
    ensures
        machine(*final(current_line), *final(lines)) == machine(*old(current_line), *old(lines)).flush(),
{
    if current_line.is_valid() {
        let finished = current_line.finish();
        lines.push(finished);
        assert(lines_view(*lines) =~= lines_view(*old(lines)).push(finished@));
    }
}

/// Where a smooth cubic command that follows `prev` finds its first
/// control point.
pub fn mirror<T: Copy>(prev: Option<PathSegment<T>>) -> (r: FirstControl<T>)
    ensures
        r == first_control(prev),
{
    match prev {
        Some(PathSegment::CurveTo { x2, y2, x, y, .. }) => FirstControl::Mirrored {
            ctrl2: CoordinatePair { x: x2, y: y2 },
            to: CoordinatePair { x, y },
        },
        Some(PathSegment::SmoothCurveTo { x2, y2, x, y, .. }) => FirstControl::Mirrored {
            ctrl2: CoordinatePair { x: x2, y: y2 },
            to: CoordinatePair { x, y },
        },
        _ => FirstControl::Start,
    }
}

/// Helper for both `CurveTo` and `SmoothCurveTo`: resolves the points of
/// the curve against the current point, flattens the curve and appends its
/// points to the line. Without a current point it fails and leaves the
/// line as it was.
pub(crate) fn _handle_cubic_curve<
    T: Copy,
    Plus: Fn(T, T) -> T,
    Minus: Fn(T, T) -> T,
    Ev: Fn(Stroke<T>, T) -> Vec<CoordinatePair<T>>,
>(
    current_line: &mut CurrentLine<T>,
    tol: T,
    abs: bool,
    ctrl1: FirstControl<T>,
    ctrl2: CoordinatePair<T>,
    to: CoordinatePair<T>,
    plus: &Plus,
    minus: &Minus,
    eval: &Ev,
) -> (r: Result<(), Error>)
    requires
        forall|a: T, b: T| plus.requires((a, b)),
        forall|a: T, b: T| minus.requires((a, b)),
        forall|stroke: Stroke<T>| eval.requires((stroke, tol)),
    ensures
        match old(current_line)@.last_pair() {
            Some(from) => r is Ok && exists|points: Seq<CoordinatePair<T>>|
                #[trigger] cubic_drawn(plus, minus, eval, tol, abs, from, ctrl1, ctrl2, to, points)
                    && final(current_line)@ == old(current_line)@.extend(points),
            None => r is Err && r->Err_0@ == ErrorView::PathParse(cubic_on_empty_text())
                && final(current_line)@ == old(current_line)@,
        },
{
    let from = match current_line.last_pair() {
        Some(from) => from,
        None => {
            return Err(
                Error::PathParse(
                    "Invalid state: CurveTo or SmoothCurveTo on empty CurrentLine".to_string(),
                ),
            );
        },
    };
    let c1 = match ctrl1 {
        FirstControl::Given(given) => resolve(abs, from, given, plus),
        FirstControl::Mirrored { ctrl2: prev_ctrl2, to: prev_to } => {
            let d = apart(prev_to, prev_ctrl2, minus);
            offset(from, d, plus)
        },
        FirstControl::Start => from,
    };
    let c2 = resolve(abs, from, ctrl2, plus);
    let end = resolve(abs, from, to, plus);
    let part = eval(Stroke::Cubic { from, ctrl1: c1, ctrl2: c2, to: end }, tol);
    current_line.extend(&part);
    assert(eval.ensures((Stroke::Cubic { from, ctrl1: c1, ctrl2: c2, to: end }, tol), part)
        && first_at(plus, minus, abs, from, ctrl1, c1));
    assert(cubic_drawn(plus, minus, eval, tol, abs, from, ctrl1, ctrl2, to, part@));
    Ok(())
}

/// The points of a chain of curves from `from`, the last curve ending at
/// `end`.
fn draw_chain<T: Copy, Ev: Fn(Stroke<T>, T) -> Vec<CoordinatePair<T>>>(
    from: CoordinatePair<T>,
    curves: &Vec<ChainLink<T>>,
    end: CoordinatePair<T>,
    tol: T,
    eval: &Ev,
) -> (r: Vec<CoordinatePair<T>>)
    requires
        forall|stroke: Stroke<T>| eval.requires((stroke, tol)),
    ensures
        chain_drawn(eval, tol, from, ending_at(curves@, end), 0, Seq::empty(), r@),
{
    let ghost chain = ending_at(curves@, end);
    let mut out: Vec<CoordinatePair<T>> = Vec::new();
    let n: usize = curves.len();
    let mut start = from;
    let mut i: usize = 0;
    while i < n
        invariant
            n == curves@.len(),
            i <= n,
            chain == ending_at(curves@, end),
            start == (if i == 0 {
                from
            } else {
                curves@[i - 1].to
            }),
            forall|stroke: Stroke<T>| eval.requires((stroke, tol)),
            forall|points: Seq<CoordinatePair<T>>| #[trigger]
                chain_drawn(eval, tol, from, chain, i as int, out@, points) ==> chain_drawn(
                    eval,
                    tol,
                    from,
                    chain,
                    0,
                    Seq::empty(),
                    points,
                ),
        decreases n - i,
    {
        let curve = curves[i];
        let to = if i == n - 1 {
            end
        } else {
            curve.to
        };
        let stroke = Stroke::Cubic { from: start, ctrl1: curve.ctrl1, ctrl2: curve.ctrl2, to };
        assert(stroke == link(from, chain, i as int));
        let mut part = eval(stroke, tol);
        let ghost seen = part;
        let ghost before = out@;
        out.append(&mut part);
        assert forall|points: Seq<CoordinatePair<T>>| #[trigger]
            chain_drawn(eval, tol, from, chain, i as int + 1, out@, points) implies chain_drawn(
            eval,
            tol,
            from,
            chain,
            i as int,
            before,
            points,
        ) by {
            assert(eval.ensures((link(from, chain, i as int), tol), seen));
            assert(out@ == before + seen@);
        }
        start = curve.to;
        i = i + 1;
    }
    assert(chain_drawn(eval, tol, from, chain, n as int, out@, out@));
    out
}

/// Computes the points of an arc from `from` to `end` whose shape is
/// `shape`: none, the end alone, or the points of the chain of curves,
/// each curve flattened by `eval`.
pub fn draw_arc<T: Copy, Ev: Fn(Stroke<T>, T) -> Vec<CoordinatePair<T>>>(
    from: CoordinatePair<T>,
    end: CoordinatePair<T>,
    shape: &ArcShape<T>,
    tol: T,
    eval: &Ev,
) -> (r: Vec<CoordinatePair<T>>)
    requires
        forall|stroke: Stroke<T>| eval.requires((stroke, tol)),
    ensures
        shaped(eval, tol, from, end, *shape, r@),
{
    match shape {
        ArcShape::Nothing => Vec::new(),
        ArcShape::Line => {
            let mut points: Vec<CoordinatePair<T>> = Vec::new();
            points.push(end);
            assert(points@ =~= seq![end]);
            points
        },
        ArcShape::Curves { curves } => draw_chain(from, curves, end, tol, eval),
    }
}

/// Performs one transition of the state machine for `segment`, which
/// follows `prev_segment`: updates the line and the emitted polylines.
/// `plus` and `minus` add and subtract two numbers, `eval` flattens a
/// curve with tolerance `tol`, and `arc` finds the shape of an arc.
pub fn parse_path_segment<
    T: Copy,
    Plus: Fn(T, T) -> T,
    Minus: Fn(T, T) -> T,
    Ev: Fn(Stroke<T>, T) -> Vec<CoordinatePair<T>>,
    Ar: Fn(ArcCommand<T>) -> ArcShape<T>,
>(
    segment: &PathSegment<T>,
    prev_segment: Option<PathSegment<T>>,
    current_line: &mut CurrentLine<T>,
    tol: T,
    lines: &mut Vec<Polyline<T>>,
    plus: &Plus,
    minus: &Minus,
    eval: &Ev,
    arc: &Ar,
) -> (r: Result<(), Error>)
    requires
        forall|a: T, b: T| plus.requires((a, b)),
        forall|a: T, b: T| minus.requires((a, b)),
        forall|stroke: Stroke<T>| eval.requires((stroke, tol)),
        forall|command: ArcCommand<T>| arc.requires((command,)),
    ensures
        stepped(
            plus,
            minus,
            eval,
            arc,
            tol,
            *segment,
            prev_segment,
            machine(*old(current_line), *old(lines)),
            step_view(r, machine(*final(current_line), *final(lines))),
        ),
        r is Err ==> machine(*final(current_line), *final(lines)) == machine(
            *old(current_line),
            *old(lines),
        ),
{
    let ghost before = machine(*current_line, *lines);
    match *segment {
        PathSegment::MoveTo { abs, x, y } => {
            flush(current_line, lines);
            current_line.add(abs, CoordinatePair::new(x, y), plus);
            Ok(())
        },
        PathSegment::LineTo { abs, x, y } => {
            current_line.add(abs, CoordinatePair::new(x, y), plus);
            Ok(())
        },
        PathSegment::HorizontalLineTo { abs, x } => match current_line.last_pair() {
            Some(last) => {
                let px = if abs {
                    x
                } else {
                    plus(last.x, x)
                };
                current_line.add_absolute(CoordinatePair::new(px, last.y));
                Ok(())
            },
            None => Err(
                Error::PathParse("Invalid state: HorizontalLineTo on emtpy CurrentLine".to_string()),
            ),
        },
        PathSegment::VerticalLineTo { abs, y } => match current_line.last_pair() {
            Some(last) => {
                let py = if abs {
                    y
                } else {
                    plus(last.y, y)
                };
                current_line.add_absolute(CoordinatePair::new(last.x, py));
                Ok(())
            },
            None => Err(
                Error::PathParse("Invalid state: VerticalLineTo on emtpy CurrentLine".to_string()),
            ),
        },
        PathSegment::CurveTo { abs, x1, y1, x2, y2, x, y } => {
            let r = _handle_cubic_curve(
                current_line,
                tol,
                abs,
                FirstControl::Given(CoordinatePair::new(x1, y1)),
                CoordinatePair::new(x2, y2),
                CoordinatePair::new(x, y),
                plus,
                minus,
                eval,
            );
            proof {
                if before.line.last_pair() is Some {
                    let from = before.line.last_pair()->Some_0;
                    let points = choose|points: Seq<CoordinatePair<T>>|
                        #[trigger] cubic_drawn(
                            plus,
                            minus,
                            eval,
                            tol,
                            abs,
                            from,
                            FirstControl::Given(CoordinatePair { x: x1, y: y1 }),
                            CoordinatePair { x: x2, y: y2 },
                            CoordinatePair { x, y },
                            points,
                        ) && current_line@ == before.line.extend(points);
                    assert(curve_drawn(plus, minus, eval, arc, tol, *segment, prev_segment, from, points));
                    assert(machine(*current_line, *lines) == before.extend(points));
                }
            }
            r
        },
        PathSegment::SmoothCurveTo { abs, x2, y2, x, y } => {
            let ctrl1 = mirror(prev_segment);
            if current_line.last_pair().is_none() {
                if let FirstControl::Start = ctrl1 {
                    return Err(
                        Error::PathParse(
                            "Invalid state: SmoothCurveTo without a reference point".to_string(),
                        ),
                    );
                }
            }
            let r = _handle_cubic_curve(
                current_line,
                tol,
                abs,
                ctrl1,
                CoordinatePair::new(x2, y2),
                CoordinatePair::new(x, y),
                plus,
                minus,
                eval,
            );
            proof {
                if before.line.last_pair() is Some {
                    let from = before.line.last_pair()->Some_0;
                    let points = choose|points: Seq<CoordinatePair<T>>|
                        #[trigger] cubic_drawn(
                            plus,
                            minus,
                            eval,
                            tol,
                            abs,
                            from,
                            first_control(prev_segment),
                            CoordinatePair { x: x2, y: y2 },
                            CoordinatePair { x, y },
                            points,
                        ) && current_line@ == before.line.extend(points);
                    assert(curve_drawn(plus, minus, eval, arc, tol, *segment, prev_segment, from, points));
                    assert(machine(*current_line, *lines) == before.extend(points));
                }
            }
            r
        },
        PathSegment::Quadratic { abs, x1, y1, x, y } => match current_line.last_pair() {
            Some(from) => {
                let c = resolve(abs, from, CoordinatePair::new(x1, y1), plus);
                let end = resolve(abs, from, CoordinatePair::new(x, y), plus);
                let part = eval(Stroke::Quadratic { from, ctrl: c, to: end }, tol);
                current_line.extend(&part);
                assert(eval.ensures((Stroke::Quadratic { from, ctrl: c, to: end }, tol), part));
                assert(curve_drawn(plus, minus, eval, arc, tol, *segment, prev_segment, from, part@));
                assert(machine(*current_line, *lines) == before.extend(part@));
                Ok(())
            },
            None => Err(Error::PathParse("Invalid state: Quadratic on empty CurrentLine".to_string())),
        },
        PathSegment::SmoothQuadratic { .. } => Err(
            Error::PathParse("Unsupported path segment: SmoothQuadratic".to_string()),
        ),
        PathSegment::EllipticalArc { abs, rx, ry, x_axis_rotation, large_arc, sweep, x, y } => {
            match current_line.last_pair() {
                Some(from) => {
                    let end = resolve(abs, from, CoordinatePair::new(x, y), plus);
                    let command = ArcCommand { from, to: end, rx, ry, x_axis_rotation, large_arc, sweep };
                    assert(command == arc_command(*segment, from, end));
                    let shape = arc(command);
                    let part = draw_arc(from, end, &shape, tol, eval);
                    current_line.extend(&part);
                    assert(arc.ensures((arc_command(*segment, from, end),), shape) && shaped(
                        eval,
                        tol,
                        from,
                        end,
                        shape,
                        part@,
                    ));
                    assert(curve_drawn(plus, minus, eval, arc, tol, *segment, prev_segment, from, part@));
                    assert(machine(*current_line, *lines) == before.extend(part@));
                    Ok(())
                },
                None => Err(
                    Error::PathParse("Invalid state: EllipticalArc on empty CurrentLine".to_string()),
                ),
            }
        },
        PathSegment::ClosePath { .. } => match current_line.close() {
            Ok(()) => Ok(()),
            Err(e) => {
                let inner = e.message();
                Err(Error::PathParse(concat("Invalid state: ", inner.as_str())))
            },
        },
    }
}

/// What a call of [`parse_path_segment`] comes to: the state that it
/// leaves, or the error's value.
pub open spec fn step_view<T>(r: Result<(), Error>, after: Machine<T>) -> Result<Machine<T>, ErrorView> {
    match r {
        Ok(_) => Ok(after),
        Err(e) => Err(e@),
    }
}

/// The command before the one at position `k`.
pub open spec fn previous<T>(segments: Seq<PathSegment<T>>, k: int) -> Option<PathSegment<T>> {
    if k > 0 {
        Some(segments[k - 1])
    } else {
        None
    }
}

/// What two results of interpreting a path have in common for contracts:
/// the emitted polylines as sequences of points, or the error's value.
pub open spec fn result_view<T>(r: Result<Vec<Polyline<T>>, Error>) -> Result<
    Seq<Seq<CoordinatePair<T>>>,
    ErrorView,
> {
    match r {
        Ok(lines) => Ok(lines_view(lines)),
        Err(e) => Err(e@),
    }
}

/// How a walk over the commands ends: with the error that cut the command
/// stream short, if there is one, else with the emitted polylines and the
/// line in progress, if that is valid.
pub open spec fn end_of_path<T>(m: Machine<T>, failure: Option<Seq<char>>) -> Result<
    Seq<Seq<CoordinatePair<T>>>,
    ErrorView,
> {
    match failure {
        Some(text) => Err(ErrorView::PathParse(text)),
        None => Ok(m.flush().lines),
    }
}

/// Whether `res` is a possible result of interpreting the commands from
/// position `k` on, starting in state `m`: the first command that fails
/// ends the walk with its error; else the walk goes on from the state that
/// the command leaves.
pub open spec fn outcome<
    T,
    Plus: Fn(T, T) -> T,
    Minus: Fn(T, T) -> T,
    Ev: Fn(Stroke<T>, T) -> Vec<CoordinatePair<T>>,
    Ar: Fn(ArcCommand<T>) -> ArcShape<T>,
>(
    plus: &Plus,
    minus: &Minus,
    eval: &Ev,
    arc: &Ar,
    tol: T,
    segments: Seq<PathSegment<T>>,
    failure: Option<Seq<char>>,
    k: int,
    m: Machine<T>,
    res: Result<Seq<Seq<CoordinatePair<T>>>, ErrorView>,
) -> bool
    decreases segments.len() - k,
{
    if k < 0 {
        false
    } else if k >= segments.len() {
        res == end_of_path(m, failure)
    } else {
        exists|out: Result<Machine<T>, ErrorView>|
            #[trigger] stepped(plus, minus, eval, arc, tol, segments[k], previous(segments, k), m, out)
                && match out {
                Err(e) => res == Err::<Seq<Seq<CoordinatePair<T>>>, ErrorView>(e),
                Ok(next) => outcome(plus, minus, eval, arc, tol, segments, failure, k + 1, next, res),
            }
    }
}

/// Interprets the commands of one path in order and returns the polylines
/// that they draw. `failure` is the error that cut the command stream short
/// behind the last of `segments`, if there is one: it is reported unless a
/// command fails before.
pub fn interpret<
    T: Copy,
    Plus: Fn(T, T) -> T,
    Minus: Fn(T, T) -> T,
    Ev: Fn(Stroke<T>, T) -> Vec<CoordinatePair<T>>,
    Ar: Fn(ArcCommand<T>) -> ArcShape<T>,
>(
    segments: &Vec<PathSegment<T>>,
    failure: Option<String>,
    tol: T,
    plus: &Plus,
    minus: &Minus,
    eval: &Ev,
    arc: &Ar,
) -> (r: Result<Vec<Polyline<T>>, Error>)
    requires
        forall|a: T, b: T| plus.requires((a, b)),
        forall|a: T, b: T| minus.requires((a, b)),
        forall|stroke: Stroke<T>| eval.requires((stroke, tol)),
        forall|command: ArcCommand<T>| arc.requires((command,)),
    ensures
        outcome(
            plus,
            minus,
            eval,
            arc,
            tol,
            segments@,
            text_view(failure),
            0,
            Machine::start(),
            result_view(r),
        ),
{
    let ghost cut: Option<Seq<char>> = text_view(failure);
    let mut lines: Vec<Polyline<T>> = Vec::new();
    let mut line: CurrentLine<T> = CurrentLine::new();
    assert(lines_view(lines) =~= Seq::empty());
    let n: usize = segments.len();
    let mut k: usize = 0;
    while k < n
        invariant
            n == segments@.len(),
            k <= n,
            cut == text_view(failure),
            forall|a: T, b: T| plus.requires((a, b)),
            forall|a: T, b: T| minus.requires((a, b)),
            forall|stroke: Stroke<T>| eval.requires((stroke, tol)),
            forall|command: ArcCommand<T>| arc.requires((command,)),
            forall|res: Result<Seq<Seq<CoordinatePair<T>>>, ErrorView>|
                #[trigger] outcome(
                    plus,
                    minus,
                    eval,
                    arc,
                    tol,
                    segments@,
                    cut,
                    k as int,
                    machine(line, lines),
                    res,
                ) ==> outcome(plus, minus, eval, arc, tol, segments@, cut, 0, Machine::start(), res),
        decreases n - k,
    {
        let prev_segment: Option<PathSegment<T>> = if k > 0 {
            Some(segments[k - 1])
        } else {
            None
        };
        let ghost before = machine(line, lines);
        let stepped = parse_path_segment(
            &segments[k],
            prev_segment,
            &mut line,
            tol,
            &mut lines,
            plus,
            minus,
            eval,
            arc,
        );
        let ghost out = step_view(stepped, machine(line, lines));
        assert(self::stepped(
            plus,
            minus,
            eval,
            arc,
            tol,
            segments@[k as int],
            previous(segments@, k as int),
            before,
            out,
        ));
        match stepped {
            Ok(()) => {
                assert forall|res: Result<Seq<Seq<CoordinatePair<T>>>, ErrorView>|
                    #[trigger] outcome(
                        plus,
                        minus,
                        eval,
                        arc,
                        tol,
                        segments@,
                        cut,
                        k as int + 1,
                        machine(line, lines),
                        res,
                    ) implies outcome(plus, minus, eval, arc, tol, segments@, cut, k as int, before, res) by {}
            },
            Err(e) => {
                assert(outcome(plus, minus, eval, arc, tol, segments@, cut, k as int, before, Err(e@)));
                return Err(e);
            },
        }
        k = k + 1;
    }
    let ghost last = machine(line, lines);
    match failure {
        Some(text) => {
            assert(outcome(
                plus,
                minus,
                eval,
                arc,
                tol,
                segments@,
                cut,
                n as int,
                last,
                Err(ErrorView::PathParse(text@)),
            ));
            Err(Error::PathParse(text))
        },
        None => {
            if line.is_valid() {
                let finished = line.finish();
                lines.push(finished);
                assert(lines_view(lines) =~= last.lines.push(finished@));
            }
            assert(outcome(plus, minus, eval, arc, tol, segments@, cut, n as int, last, Ok(lines_view(lines))));
            Ok(lines)
        },
    }
}

} // verus!
