//! What holds of every walk over the commands of a path.
use vstd::prelude::*;
use crate::current_line::{added, LineState};
use crate::error::ErrorView;
use crate::geometry::{resolved, sum, CoordinatePair};
use crate::interpreter::{arc_drawn, curve_drawn, outcome, previous, shaped, stepped, Machine};
use crate::segment::{ArcCommand, ArcShape, PathSegment, Stroke};

verus! {

/// Every polyline that was emitted has at least two points.
pub open spec fn all_valid<T>(lines: Seq<Seq<CoordinatePair<T>>>) -> bool {
    forall|i: int| 0 <= i < lines.len() ==> (#[trigger] lines[i]).len() >= 2
}

/// Takes a walk one command further: the outcome of the command at
/// position `k`, which either is the error of the whole walk or leaves the
/// state from which the walk goes on.
pub proof fn walk_on<
    T,
    Plus: Fn(T, T) -> T,
    Minus: Fn(T, T) -> T,
    Ev: Fn(Stroke<T>, T) -> Vec<CoordinatePair<T>>,
    Ar: Fn(ArcCommand<T>) -> ArcShape<T>,
>(
    plus: &Plus,
    minus: &Minus,
    eval: &Ev,
    arc: &Ar,
    tol: T,
    segments: Seq<PathSegment<T>>,
    failure: Option<Seq<char>>,
    k: int,
    m: Machine<T>,
    res: Result<Seq<Seq<CoordinatePair<T>>>, ErrorView>,
) -> (out: Result<Machine<T>, ErrorView>)
    requires
        0 <= k < segments.len(),
        outcome(plus, minus, eval, arc, tol, segments, failure, k, m, res),
    ensures
        stepped(plus, minus, eval, arc, tol, segments[k], previous(segments, k), m, out),
        match out {
            Err(e) => res == Err::<Seq<Seq<CoordinatePair<T>>>, ErrorView>(e),
            Ok(next) => outcome(plus, minus, eval, arc, tol, segments, failure, k + 1, next, res),
        },
{
    choose|out: Result<Machine<T>, ErrorView>|
        #[trigger] stepped(plus, minus, eval, arc, tol, segments[k], previous(segments, k), m, out) && match out {
            Err(e) => res == Err::<Seq<Seq<CoordinatePair<T>>>, ErrorView>(e),
            Ok(next) => outcome(plus, minus, eval, arc, tol, segments, failure, k + 1, next, res),
        }
}

/// Adding a coordinate pair, as a position or as an offset, makes the line
/// longer by exactly one point and leaves the rest as it was.
pub proof fn adding_grows_by_one<T, Plus: Fn(T, T) -> T>(
    plus: &Plus,
    abs: bool,
    before: LineState<T>,
    pair: CoordinatePair<T>,
    after: LineState<T>,
)
    requires
        added(plus, abs, before, pair, after),
    ensures
        after.points.len() == before.points.len() + 1,
        after == before.push(after.points.last()),
        resolves_to(plus, before.reference(), (abs, pair), after.points.last()),
{
    if !abs && before.reference() is Some {
        let p = choose|p: CoordinatePair<T>|
            #[trigger] sum(plus, before.reference()->Some_0, pair, p) && after == before.push(p);
    }
}

/// One transition emits no polyline of fewer than two points, and fails
/// with a path error if it fails.
pub proof fn step_keeps_lines_valid<
    T,
    Plus: Fn(T, T) -> T,
    Minus: Fn(T, T) -> T,
    Ev: Fn(Stroke<T>, T) -> Vec<CoordinatePair<T>>,
    Ar: Fn(ArcCommand<T>) -> ArcShape<T>,
>(
    plus: &Plus,
    minus: &Minus,
    eval: &Ev,
    arc: &Ar,
    tol: T,
    segment: PathSegment<T>,
    prev: Option<PathSegment<T>>,
    m: Machine<T>,
    out: Result<Machine<T>, ErrorView>,
)
    requires
        stepped(plus, minus, eval, arc, tol, segment, prev, m, out),
        all_valid(m.lines),
    ensures
        out is Ok ==> all_valid(out->Ok_0.lines),
        out is Err ==> out->Err_0 is PathParse,
        all_valid(m.flush().lines),
{
}

/// A line of fewer than two points never reaches the output: whatever the
/// commands are and whatever points they add, every polyline of a
/// successful result has at least two points.
pub proof fn short_lines_are_dropped<
    T,
    Plus: Fn(T, T) -> T,
    Minus: Fn(T, T) -> T,
    Ev: Fn(Stroke<T>, T) -> Vec<CoordinatePair<T>>,
    Ar: Fn(ArcCommand<T>) -> ArcShape<T>,
>(
    plus: &Plus,
    minus: &Minus,
    eval: &Ev,
    arc: &Ar,
    tol: T,
    segments: Seq<PathSegment<T>>,
    failure: Option<Seq<char>>,
    k: int,
    m: Machine<T>,
    res: Result<Seq<Seq<CoordinatePair<T>>>, ErrorView>,
)
    requires
        outcome(plus, minus, eval, arc, tol, segments, failure, k, m, res),
        all_valid(m.lines),
        res is Ok,
    ensures
        all_valid(res->Ok_0),
    decreases segments.len() - k,
{
    if k < segments.len() {
        let out = walk_on(plus, minus, eval, arc, tol, segments, failure, k, m, res);
        step_keeps_lines_valid(plus, minus, eval, arc, tol, segments[k], previous(segments, k), m, out);
        short_lines_are_dropped(plus, minus, eval, arc, tol, segments, failure, k + 1, out->Ok_0, res);
    }
}

/// A path that holds a smooth quadratic command anywhere at or behind
/// position `k` fails with a path error, and so yields no polyline at all,
/// even where the commands before it were valid.
pub proof fn smooth_quadratic_is_rejected<
    T,
    Plus: Fn(T, T) -> T,
    Minus: Fn(T, T) -> T,
    Ev: Fn(Stroke<T>, T) -> Vec<CoordinatePair<T>>,
    Ar: Fn(ArcCommand<T>) -> ArcShape<T>,
>(
    plus: &Plus,
    minus: &Minus,
    eval: &Ev,
    arc: &Ar,
    tol: T,
    segments: Seq<PathSegment<T>>,
    failure: Option<Seq<char>>,
    k: int,
    m: Machine<T>,
    res: Result<Seq<Seq<CoordinatePair<T>>>, ErrorView>,
    j: int,
)
    requires
        outcome(plus, minus, eval, arc, tol, segments, failure, k, m, res),
        0 <= k <= j < segments.len(),
        segments[j] is SmoothQuadratic,
    ensures
        res is Err,
        res->Err_0 is PathParse,
    decreases segments.len() - k,
{
    let out = walk_on(plus, minus, eval, arc, tol, segments, failure, k, m, res);
    if out is Ok {
        smooth_quadratic_is_rejected(plus, minus, eval, arc, tol, segments, failure, k + 1, out->Ok_0, res, j);
    }
}

/// Any walk fails with a path error or succeeds: no other kind of error
/// comes out of the interpreter.
pub proof fn only_path_errors<
    T,
    Plus: Fn(T, T) -> T,
    Minus: Fn(T, T) -> T,
    Ev: Fn(Stroke<T>, T) -> Vec<CoordinatePair<T>>,
    Ar: Fn(ArcCommand<T>) -> ArcShape<T>,
>(
    plus: &Plus,
    minus: &Minus,
    eval: &Ev,
    arc: &Ar,
    tol: T,
    segments: Seq<PathSegment<T>>,
    failure: Option<Seq<char>>,
    k: int,
    m: Machine<T>,
    res: Result<Seq<Seq<CoordinatePair<T>>>, ErrorView>,
)
    requires
        outcome(plus, minus, eval, arc, tol, segments, failure, k, m, res),
        res is Err,
    ensures
        res->Err_0 is PathParse,
    decreases segments.len() - k,
{
    if k < segments.len() {
        let out = walk_on(plus, minus, eval, arc, tol, segments, failure, k, m, res);
        if out is Ok {
            only_path_errors(plus, minus, eval, arc, tol, segments, failure, k + 1, out->Ok_0, res);
        }
    }
}

/// The path `M a L b M c L d`, each command with coordinates or with
/// offsets.
pub open spec fn two_lines_path<T>(
    a: (bool, CoordinatePair<T>),
    b: (bool, CoordinatePair<T>),
    c: (bool, CoordinatePair<T>),
    d: (bool, CoordinatePair<T>),
) -> Seq<PathSegment<T>> {
    seq![
        PathSegment::MoveTo { abs: a.0, x: a.1.x, y: a.1.y },
        PathSegment::LineTo { abs: b.0, x: b.1.x, y: b.1.y },
        PathSegment::MoveTo { abs: c.0, x: c.1.x, y: c.1.y },
        PathSegment::LineTo { abs: d.0, x: d.1.x, y: d.1.y },
    ]
}

/// What a command with a coordinate pair resolves to: with coordinates,
/// and at the very start of a path, the pair itself; with offsets the
/// reference point moved by the pair.
pub open spec fn resolves_to<T, Plus: Fn(T, T) -> T>(
    plus: &Plus,
    reference: Option<CoordinatePair<T>>,
    command: (bool, CoordinatePair<T>),
    point: CoordinatePair<T>,
) -> bool {
    match reference {
        Some(base) => resolved(plus, command.0, base, command.1, point),
        None => point == command.1,
    }
}

/// A moveto is a boundary between polylines: the path `M a L b M c L d`
/// always gives exactly two polylines of two points each, whether its
/// commands are written with coordinates or with offsets. The first
/// polyline starts at `a`; every other point is the one its command
/// states, or the point before it moved by the offset that it states.
pub proof fn moveto_separates_lines<
    T,
    Plus: Fn(T, T) -> T,
    Minus: Fn(T, T) -> T,
    Ev: Fn(Stroke<T>, T) -> Vec<CoordinatePair<T>>,
    Ar: Fn(ArcCommand<T>) -> ArcShape<T>,
>(
    plus: &Plus,
    minus: &Minus,
    eval: &Ev,
    arc: &Ar,
    tol: T,
    a: (bool, CoordinatePair<T>),
    b: (bool, CoordinatePair<T>),
    c: (bool, CoordinatePair<T>),
    d: (bool, CoordinatePair<T>),
    res: Result<Seq<Seq<CoordinatePair<T>>>, ErrorView>,
)
    requires
        outcome(plus, minus, eval, arc, tol, two_lines_path(a, b, c, d), None, 0, Machine::start(), res),
    ensures
        res is Ok,
        res->Ok_0.len() == 2,
        res->Ok_0[0].len() == 2,
        res->Ok_0[1].len() == 2,
        res->Ok_0[0][0] == a.1,
        resolves_to(plus, Some(a.1), b, res->Ok_0[0][1]),
        resolves_to(plus, Some(res->Ok_0[0][1]), c, res->Ok_0[1][0]),
        resolves_to(plus, Some(res->Ok_0[1][0]), d, res->Ok_0[1][1]),
{
    let segments = two_lines_path(a, b, c, d);
    let at_start = Machine::<T>::start();
    let first_out = walk_on(plus, minus, eval, arc, tol, segments, None, 0, at_start, res);
    let first = first_out->Ok_0;
    adding_grows_by_one(plus, a.0, at_start.line, a.1, first.line);
    assert(first.line.points =~= seq![a.1]);
    let second_out = walk_on(plus, minus, eval, arc, tol, segments, None, 1, first, res);
    let second = second_out->Ok_0;
    adding_grows_by_one(plus, b.0, first.line, b.1, second.line);
    let p = second.line.points.last();
    assert(second.line.points =~= seq![a.1, p]);
    let third_out = walk_on(plus, minus, eval, arc, tol, segments, None, 2, second, res);
    let third = third_out->Ok_0;
    adding_grows_by_one(plus, c.0, second.flush().line, c.1, third.line);
    let q = third.line.points.last();
    assert(third.line.points =~= seq![q]);
    let fourth_out = walk_on(plus, minus, eval, arc, tol, segments, None, 3, third, res);
    let fourth = fourth_out->Ok_0;
    adding_grows_by_one(plus, d.0, third.line, d.1, fourth.line);
    let r = fourth.line.points.last();
    assert(fourth.line.points =~= seq![q, r]);
    assert(fourth.flush().lines =~= seq![seq![a.1, p], seq![q, r]]);
}

/// A relative moveto behind a line that can be emitted goes on from the
/// end of that line: the line is emitted, and the new line is the one
/// point that is the last point of the emitted line moved by the offset.
pub proof fn relative_moveto_continues<
    T,
    Plus: Fn(T, T) -> T,
    Minus: Fn(T, T) -> T,
    Ev: Fn(Stroke<T>, T) -> Vec<CoordinatePair<T>>,
    Ar: Fn(ArcCommand<T>) -> ArcShape<T>,
>(
    plus: &Plus,
    minus: &Minus,
    eval: &Ev,
    arc: &Ar,
    tol: T,
    m: Machine<T>,
    prev: Option<PathSegment<T>>,
    x: T,
    y: T,
    out: Result<Machine<T>, ErrorView>,
)
    requires
        m.line.is_valid(),
        stepped(plus, minus, eval, arc, tol, PathSegment::MoveTo { abs: false, x, y }, prev, m, out),
    ensures
        out is Ok,
        out->Ok_0.lines == m.lines.push(m.line.points),
        out->Ok_0.line.prev_end == Some(m.line.points.last()),
        out->Ok_0.line.points.len() == 1,
        sum(plus, m.line.points.last(), CoordinatePair { x, y }, out->Ok_0.line.points[0]),
{
    adding_grows_by_one(plus, false, m.flush().line, CoordinatePair { x, y }, out->Ok_0.line);
}

/// An arc whose start and end coincide adds no point: where `arc` finds
/// nothing to draw, an arc command on a line with a current point leaves
/// the state as it was.
pub proof fn coinciding_arc_adds_nothing<
    T,
    Plus: Fn(T, T) -> T,
    Minus: Fn(T, T) -> T,
    Ev: Fn(Stroke<T>, T) -> Vec<CoordinatePair<T>>,
    Ar: Fn(ArcCommand<T>) -> ArcShape<T>,
>(
    plus: &Plus,
    minus: &Minus,
    eval: &Ev,
    arc: &Ar,
    tol: T,
    segment: PathSegment<T>,
    prev: Option<PathSegment<T>>,
    m: Machine<T>,
    out: Result<Machine<T>, ErrorView>,
)
    requires
        segment is EllipticalArc,
        m.line.points.len() > 0,
        stepped(plus, minus, eval, arc, tol, segment, prev, m, out),
        forall|command: ArcCommand<T>, shape: ArcShape<T>| #[trigger]
            arc.ensures((command,), shape) ==> shape is Nothing,
    ensures
        out == Ok::<Machine<T>, ErrorView>(m),
{
    let from = m.line.points.last();
    let points = choose|points: Seq<CoordinatePair<T>>|
        #[trigger] curve_drawn(plus, minus, eval, arc, tol, segment, prev, from, points) && out->Ok_0 == m.extend(
            points,
        );
    assert(arc_drawn(plus, eval, arc, tol, segment, from, points));
    assert(m.line.points + points =~= m.line.points);
}

/// A flat arc is a straight line: where `arc` finds a line, an arc command
/// on a line with a current point adds exactly one point, the end point
/// that the command states, resolved.
pub proof fn flat_arc_is_one_point<
    T,
    Plus: Fn(T, T) -> T,
    Minus: Fn(T, T) -> T,
    Ev: Fn(Stroke<T>, T) -> Vec<CoordinatePair<T>>,
    Ar: Fn(ArcCommand<T>) -> ArcShape<T>,
>(
    plus: &Plus,
    minus: &Minus,
    eval: &Ev,
    arc: &Ar,
    tol: T,
    segment: PathSegment<T>,
    prev: Option<PathSegment<T>>,
    m: Machine<T>,
    out: Result<Machine<T>, ErrorView>,
)
    requires
        segment is EllipticalArc,
        m.line.points.len() > 0,
        stepped(plus, minus, eval, arc, tol, segment, prev, m, out),
        forall|command: ArcCommand<T>, shape: ArcShape<T>| #[trigger]
            arc.ensures((command,), shape) ==> shape is Line,
    ensures
        out is Ok,
        out->Ok_0.lines == m.lines,
        out->Ok_0.line.points.len() == m.line.points.len() + 1,
        out->Ok_0.line == m.line.push(out->Ok_0.line.points.last()),
        resolved(
            plus,
            segment->EllipticalArc_abs,
            m.line.points.last(),
            CoordinatePair { x: segment->EllipticalArc_x, y: segment->EllipticalArc_y },
            out->Ok_0.line.points.last(),
        ),
{
    let from = m.line.points.last();
    let points = choose|points: Seq<CoordinatePair<T>>|
        #[trigger] curve_drawn(plus, minus, eval, arc, tol, segment, prev, from, points) && out->Ok_0 == m.extend(
            points,
        );
    assert(arc_drawn(plus, eval, arc, tol, segment, from, points));
    let (end, shape) = choose|end: CoordinatePair<T>, shape: ArcShape<T>|
        #[trigger] arc.ensures((crate::interpreter::arc_command(segment, from, end),), shape)
            && resolved(
            plus,
            segment->EllipticalArc_abs,
            from,
            CoordinatePair { x: segment->EllipticalArc_x, y: segment->EllipticalArc_y },
            end,
        ) && shaped(eval, tol, from, end, shape, points);
    assert(m.line.points + points =~= m.line.points.push(end));
}

} // verus!
