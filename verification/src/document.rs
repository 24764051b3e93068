//! Assembling the polylines of a whole document.
use vstd::prelude::*;
use crate::error::{text_view, Error, ErrorView};
use crate::geometry::{CoordinatePair, Polyline};
use crate::interpreter::{interpret, lines_view, outcome, result_view, Machine};
use crate::segment::{ArcCommand, ArcShape, PathSegment, Stroke};
use crate::simplify::simplify;
use crate::transform::{matrix_view, moved, moved_copy, parse_transform, transform_outcome, Matrix};
use crate::xml::{markup_of, parse_xml, paths_from, paths_view};

verus! {

/// Whether `out` is a possible result of moving every point of every
/// polyline of `lines` with `apply` under the matrix `t`.
pub open spec fn all_moved<T, App: Fn(&Matrix<T>, CoordinatePair<T>) -> CoordinatePair<T>>(
    apply: &App,
    t: Matrix<T>,
    lines: Seq<Seq<CoordinatePair<T>>>,
    out: Seq<Seq<CoordinatePair<T>>>,
) -> bool {
    &&& out.len() == lines.len()
    &&& forall|i: int| 0 <= i < lines.len() ==> #[trigger] moved(apply, t, lines[i], out[i])
}

/// Whether `res` is a possible result for a path element whose path data
/// drew `drawn`: an error stays; without a transform the polylines stay;
/// with one, it is parsed, which may fail, and applied to every point.
pub open spec fn placed<
    T,
    Num: Fn(&String) -> Option<T>,
    App: Fn(&Matrix<T>, CoordinatePair<T>) -> CoordinatePair<T>,
>(
    number: &Num,
    apply: &App,
    transform: Option<String>,
    drawn: Result<Seq<Seq<CoordinatePair<T>>>, ErrorView>,
    res: Result<Seq<Seq<CoordinatePair<T>>>, ErrorView>,
) -> bool {
    match drawn {
        Err(e) => res == drawn,
        Ok(lines) => match transform {
            None => res == drawn,
            Some(t) => exists|m: Result<Matrix<T>, ErrorView>| #[trigger]
                transform_outcome(number, t@, m) && match m {
                    Err(e) => res == Err::<Seq<Seq<CoordinatePair<T>>>, ErrorView>(e),
                    Ok(matrix) => res is Ok && all_moved(apply, matrix, lines, res->Ok_0),
                },
        },
    }
}

/// Whether `drawn` is a possible result of interpreting the path data
/// `expr`, which `tokenize` splits into commands and, where the data is
/// malformed, the error behind the last command that it could read.
pub open spec fn path_outcome<
    T,
    Tok: Fn(&String) -> (Vec<PathSegment<T>>, Option<String>),
    Plus: Fn(T, T) -> T,
    Minus: Fn(T, T) -> T,
    Ev: Fn(Stroke<T>, T) -> Vec<CoordinatePair<T>>,
    Ar: Fn(ArcCommand<T>) -> ArcShape<T>,
>(
    tokenize: &Tok,
    plus: &Plus,
    minus: &Minus,
    eval: &Ev,
    arc: &Ar,
    tol: T,
    expr: String,
    drawn: Result<Seq<Seq<CoordinatePair<T>>>, ErrorView>,
) -> bool {
    exists|tokens: (Vec<PathSegment<T>>, Option<String>)| #[trigger]
        tokenize.ensures((&expr,), tokens) && outcome(
            plus,
            minus,
            eval,
            arc,
            tol,
            tokens.0@,
            text_view(tokens.1),
            0,
            Machine::start(),
            drawn,
        )
}

/// Whether `res` is a possible result for one path element: its path data
/// is interpreted, then its transform, if it has one, is parsed and
/// applied.
pub open spec fn element_outcome<
    T,
    Tok: Fn(&String) -> (Vec<PathSegment<T>>, Option<String>),
    Plus: Fn(T, T) -> T,
    Minus: Fn(T, T) -> T,
    Ev: Fn(Stroke<T>, T) -> Vec<CoordinatePair<T>>,
    Ar: Fn(ArcCommand<T>) -> ArcShape<T>,
    Num: Fn(&String) -> Option<T>,
    App: Fn(&Matrix<T>, CoordinatePair<T>) -> CoordinatePair<T>,
>(
    tokenize: &Tok,
    plus: &Plus,
    minus: &Minus,
    eval: &Ev,
    arc: &Ar,
    number: &Num,
    apply: &App,
    tol: T,
    path: (String, Option<String>),
    res: Result<Seq<Seq<CoordinatePair<T>>>, ErrorView>,
) -> bool {
    exists|drawn: Result<Seq<Seq<CoordinatePair<T>>>, ErrorView>| #[trigger]
        path_outcome(tokenize, plus, minus, eval, arc, tol, path.0, drawn) && placed(
            number,
            apply,
            path.1,
            drawn,
            res,
        )
}

/// Whether `res` is a possible result of converting the path elements from
/// position `k` on, behind the polylines in `found`: the polylines of all
/// elements in document order, or the error of the first element that
/// fails.
pub open spec fn assembled<
    T,
    Tok: Fn(&String) -> (Vec<PathSegment<T>>, Option<String>),
    Plus: Fn(T, T) -> T,
    Minus: Fn(T, T) -> T,
    Ev: Fn(Stroke<T>, T) -> Vec<CoordinatePair<T>>,
    Ar: Fn(ArcCommand<T>) -> ArcShape<T>,
    Num: Fn(&String) -> Option<T>,
    App: Fn(&Matrix<T>, CoordinatePair<T>) -> CoordinatePair<T>,
>(
    tokenize: &Tok,
    plus: &Plus,
    minus: &Minus,
    eval: &Ev,
    arc: &Ar,
    number: &Num,
    apply: &App,
    tol: T,
    paths: Seq<(String, Option<String>)>,
    k: int,
    found: Seq<Seq<CoordinatePair<T>>>,
    res: Result<Seq<Seq<CoordinatePair<T>>>, ErrorView>,
) -> bool
    decreases paths.len() - k,
{
    if k < 0 {
        false
    } else if k >= paths.len() {
        res == Ok::<Seq<Seq<CoordinatePair<T>>>, ErrorView>(found)
    } else {
        exists|one: Result<Seq<Seq<CoordinatePair<T>>>, ErrorView>| #[trigger]
            element_outcome(tokenize, plus, minus, eval, arc, number, apply, tol, paths[k], one) && match one {
                Err(e) => res == one,
                Ok(lines) => assembled(tokenize, plus, minus, eval, arc, number, apply, tol, paths, k + 1, found + lines, res),
            }
    }
}

/// Whether `res` is a possible result of converting the document `svg`:
/// an error where the markup is malformed; else what its path elements
/// give, in document order.
pub open spec fn document_outcome<
    T,
    Tok: Fn(&String) -> (Vec<PathSegment<T>>, Option<String>),
    Plus: Fn(T, T) -> T,
    Minus: Fn(T, T) -> T,
    Ev: Fn(Stroke<T>, T) -> Vec<CoordinatePair<T>>,
    Ar: Fn(ArcCommand<T>) -> ArcShape<T>,
    Num: Fn(&String) -> Option<T>,
    App: Fn(&Matrix<T>, CoordinatePair<T>) -> CoordinatePair<T>,
>(
    tokenize: &Tok,
    plus: &Plus,
    minus: &Minus,
    eval: &Ev,
    arc: &Ar,
    number: &Num,
    apply: &App,
    tol: T,
    svg: Seq<char>,
    res: Result<Seq<Seq<CoordinatePair<T>>>, ErrorView>,
) -> bool {
    match paths_from(markup_of(svg), 0, Seq::empty()) {
        Err(e) => res == Err::<Seq<Seq<CoordinatePair<T>>>, ErrorView>(e),
        Ok(found) => exists|paths: Vec<(String, Option<String>)>|
            paths_view(paths) == found && #[trigger] assembled(
                tokenize,
                plus,
                minus,
                eval,
                arc,
                number,
                apply,
                tol,
                paths@,
                0,
                Seq::empty(),
                res,
            ),
    }
}

/// Interprets the path data `expr`: `tokenize` splits it into commands,
/// `plus` and `minus` resolve offsets, `arc` finds the shape of every arc,
/// and `eval` flattens every curve with tolerance `tol`.
pub fn parse_path<
    T: Copy,
    Tok: Fn(&String) -> (Vec<PathSegment<T>>, Option<String>),
    Plus: Fn(T, T) -> T,
    Minus: Fn(T, T) -> T,
    Ev: Fn(Stroke<T>, T) -> Vec<CoordinatePair<T>>,
    Ar: Fn(ArcCommand<T>) -> ArcShape<T>,
>(expr: &String, tol: T, tokenize: &Tok, plus: &Plus, minus: &Minus, eval: &Ev, arc: &Ar) -> (r: Result<Vec<Polyline<T>>, Error>)
    requires
        forall|text: &String| tokenize.requires((text,)),
        forall|a: T, b: T| plus.requires((a, b)),
        forall|a: T, b: T| minus.requires((a, b)),
        forall|stroke: Stroke<T>| eval.requires((stroke, tol)),
        forall|command: ArcCommand<T>| arc.requires((command,)),
    ensures
        path_outcome(tokenize, plus, minus, eval, arc, tol, *expr, result_view(r)),
{
    let tokens = tokenize(expr);
    let ghost seen = tokens;
    let (segments, failure) = tokens;
    let r = interpret(&segments, failure, tol, plus, minus, eval, arc);
    assert(tokenize.ensures((expr,), seen) && outcome(
        plus,
        minus,
        eval,
        arc,
        tol,
        seen.0@,
        text_view(seen.1),
        0,
        Machine::start(),
        result_view(r),
    ));
    r
}

/// All polylines of `lines`, every point moved with `apply` under `t`.
fn transform_all<T: Copy, App: Fn(&Matrix<T>, CoordinatePair<T>) -> CoordinatePair<T>>(
    lines: Vec<Polyline<T>>,
    t: &Matrix<T>,
    apply: &App,
) -> (r: Vec<Polyline<T>>)
    requires
        forall|p: CoordinatePair<T>| apply.requires((t, p)),
    ensures
        all_moved(apply, *t, lines_view(lines), lines_view(r)),
{
    let mut out: Vec<Polyline<T>> = Vec::new();
    let n: usize = lines.len();
    let mut i: usize = 0;
    while i < n
        invariant
            n == lines@.len(),
            i <= n,
            out@.len() == i,
            forall|p: CoordinatePair<T>| apply.requires((t, p)),
            forall|j: int| 0 <= j < i ==> #[trigger] moved(apply, *t, lines@[j]@, out@[j]@),
        decreases n - i,
    {
        let line = moved_copy(&lines[i], t, apply);
        out.push(line);
        i = i + 1;
    }
    assert forall|j: int| 0 <= j < lines_view(lines).len() implies #[trigger] moved(
        apply,
        *t,
        lines_view(lines)[j],
        lines_view(out)[j],
    ) by {
        assert(moved(apply, *t, lines@[j]@, out@[j]@));
    }
    out
}

/// Converts one path element: interprets its path data and applies its
/// transform, if it has one.
pub fn convert_path<
    T: Copy,
    Tok: Fn(&String) -> (Vec<PathSegment<T>>, Option<String>),
    Plus: Fn(T, T) -> T,
    Minus: Fn(T, T) -> T,
    Ev: Fn(Stroke<T>, T) -> Vec<CoordinatePair<T>>,
    Ar: Fn(ArcCommand<T>) -> ArcShape<T>,
    Num: Fn(&String) -> Option<T>,
    App: Fn(&Matrix<T>, CoordinatePair<T>) -> CoordinatePair<T>,
>(
    path: &(String, Option<String>),
    tol: T,
    tokenize: &Tok,
    plus: &Plus,
    minus: &Minus,
    eval: &Ev,
    arc: &Ar,
    number: &Num,
    apply: &App,
) -> (r: Result<Vec<Polyline<T>>, Error>)
    requires
        forall|text: &String| tokenize.requires((text,)),
        forall|a: T, b: T| plus.requires((a, b)),
        forall|a: T, b: T| minus.requires((a, b)),
        forall|stroke: Stroke<T>| eval.requires((stroke, tol)),
        forall|command: ArcCommand<T>| arc.requires((command,)),
        forall|text: &String| number.requires((text,)),
        forall|t: &Matrix<T>, p: CoordinatePair<T>| apply.requires((t, p)),
    ensures
        element_outcome(tokenize, plus, minus, eval, arc, number, apply, tol, *path, result_view(r)),
{
    let drawn = parse_path(&path.0, tol, tokenize, plus, minus, eval, arc);
    let ghost seen = result_view(drawn);
    let lines = match drawn {
        Ok(lines) => lines,
        Err(e) => {
            assert(placed(number, apply, path.1, seen, Err(e@)));
            return Err(e);
        },
    };
    match &path.1 {
        None => {
            assert(placed(number, apply, path.1, seen, Ok(lines_view(lines))));
            Ok(lines)
        },
        Some(expr) => {
            let parsed = parse_transform(expr.as_str(), number);
            let ghost m = matrix_view(parsed);
            match parsed {
                Err(e) => {
                    assert(transform_outcome(number, expr@, m));
                    assert(placed(number, apply, path.1, seen, Err(e@)));
                    Err(e)
                },
                Ok(t) => {
                    let out = transform_all(lines, &t, apply);
                    assert(transform_outcome(number, expr@, m));
                    assert(placed(number, apply, path.1, seen, Ok(lines_view(out))));
                    Ok(out)
                },
            }
        },
    }
}

/// Converts a document without simplifying it first: finds its path
/// elements and converts each; the first error ends the conversion.
pub fn parse_document<
    T: Copy,
    Tok: Fn(&String) -> (Vec<PathSegment<T>>, Option<String>),
    Plus: Fn(T, T) -> T,
    Minus: Fn(T, T) -> T,
    Ev: Fn(Stroke<T>, T) -> Vec<CoordinatePair<T>>,
    Ar: Fn(ArcCommand<T>) -> ArcShape<T>,
    Num: Fn(&String) -> Option<T>,
    App: Fn(&Matrix<T>, CoordinatePair<T>) -> CoordinatePair<T>,
>(svg: &str, tol: T, tokenize: &Tok, plus: &Plus, minus: &Minus, eval: &Ev, arc: &Ar, number: &Num, apply: &App) -> (r: Result<
    Vec<Polyline<T>>,
    Error,
>)
    requires
        forall|text: &String| tokenize.requires((text,)),
        forall|a: T, b: T| plus.requires((a, b)),
        forall|a: T, b: T| minus.requires((a, b)),
        forall|stroke: Stroke<T>| eval.requires((stroke, tol)),
        forall|command: ArcCommand<T>| arc.requires((command,)),
        forall|text: &String| number.requires((text,)),
        forall|t: &Matrix<T>, p: CoordinatePair<T>| apply.requires((t, p)),
    ensures
        document_outcome(tokenize, plus, minus, eval, arc, number, apply, tol, svg@, result_view(r)),
{
    let paths = match parse_xml(svg) {
        Ok(paths) => paths,
        Err(e) => {
            return Err(e);
        },
    };
    let mut polylines: Vec<Polyline<T>> = Vec::new();
    assert(lines_view(polylines) =~= Seq::empty());
    let n: usize = paths.len();
    let mut k: usize = 0;
    while k < n
        invariant
            n == paths@.len(),
            k <= n,
            paths_from(markup_of(svg@), 0, Seq::empty()) == Ok::<
                Seq<(Seq<char>, Option<Seq<char>>)>,
                ErrorView,
            >(paths_view(paths)),
            forall|text: &String| tokenize.requires((text,)),
            forall|a: T, b: T| plus.requires((a, b)),
        forall|a: T, b: T| minus.requires((a, b)),
        forall|stroke: Stroke<T>| eval.requires((stroke, tol)),
        forall|command: ArcCommand<T>| arc.requires((command,)),
            forall|text: &String| number.requires((text,)),
            forall|t: &Matrix<T>, p: CoordinatePair<T>| apply.requires((t, p)),
            forall|res: Result<Seq<Seq<CoordinatePair<T>>>, ErrorView>| #[trigger]
                assembled(
                    tokenize,
                    plus,
                    minus,
                    eval,
                    arc,
                    number,
                    apply,
                    tol,
                    paths@,
                    k as int,
                    lines_view(polylines),
                    res,
                ) ==> assembled(tokenize, plus, minus, eval, arc, number, apply, tol, paths@, 0, Seq::empty(), res),
        decreases n - k,
    {
        let ghost before = lines_view(polylines);
        let one = convert_path(&paths[k], tol, tokenize, plus, minus, eval, arc, number, apply);
        let ghost seen = result_view(one);
        match one {
            Ok(lines) => {
                let mut lines = lines;
                polylines.append(&mut lines);
                assert(lines_view(polylines) =~= before + seen->Ok_0);
                assert forall|res: Result<Seq<Seq<CoordinatePair<T>>>, ErrorView>| #[trigger]
                    assembled(
                        tokenize,
                        plus,
                        minus,
                        eval,
                        arc,
                        number,
                        apply,
                        tol,
                        paths@,
                        k as int + 1,
                        lines_view(polylines),
                        res,
                    ) implies assembled(
                    tokenize,
                    plus,
                    minus,
                    eval,
                    arc,
                    number,
                    apply,
                    tol,
                    paths@,
                    k as int,
                    before,
                    res,
                ) by {
                    assert(element_outcome(tokenize, plus, minus, eval, arc, number, apply, tol, paths@[k as int], seen));
                }
            },
            Err(e) => {
                assert(element_outcome(tokenize, plus, minus, eval, arc, number, apply, tol, paths@[k as int], seen));
                assert(assembled(tokenize, plus, minus, eval, arc, number, apply, tol, paths@, k as int, before, Err(e@)));
                return Err(e);
            },
        }
        k = k + 1;
    }
    assert(assembled(tokenize, plus, minus, eval, arc, number, apply, tol, paths@, n as int, lines_view(polylines), Ok(lines_view(polylines))));
    Ok(polylines)
}

/// Parse an SVG string into a vector of [`Polyline`]s.
///
/// The arithmetic is the caller's: `tokenize` splits path data into
/// commands, `plus` and `minus` add and subtract two numbers, `eval`
/// flattens a curve, `arc` finds the shape of an arc, `number` reads a
/// matrix element and `apply` moves a point under a matrix. The `tol`
/// parameter controls the flattening tolerance, which `eval` receives with
/// every curve.
///
/// If `preprocess` is set, the document is simplified first, which
/// resolves all transforms into matrices; where that fails the error is
/// reported, else the simplified document is converted in place of the
/// given one.
pub fn parse<
    T: Copy,
    Tok: Fn(&String) -> (Vec<PathSegment<T>>, Option<String>),
    Plus: Fn(T, T) -> T,
    Minus: Fn(T, T) -> T,
    Ev: Fn(Stroke<T>, T) -> Vec<CoordinatePair<T>>,
    Ar: Fn(ArcCommand<T>) -> ArcShape<T>,
    Num: Fn(&String) -> Option<T>,
    App: Fn(&Matrix<T>, CoordinatePair<T>) -> CoordinatePair<T>,
>(
    svg: &str,
    tol: T,
    preprocess: bool,
    tokenize: &Tok,
    plus: &Plus,
    minus: &Minus,
    eval: &Ev,
    arc: &Ar,
    number: &Num,
    apply: &App,
) -> (r: Result<Vec<Polyline<T>>, Error>)
    requires
        forall|text: &String| tokenize.requires((text,)),
        forall|a: T, b: T| plus.requires((a, b)),
        forall|a: T, b: T| minus.requires((a, b)),
        forall|stroke: Stroke<T>| eval.requires((stroke, tol)),
        forall|command: ArcCommand<T>| arc.requires((command,)),
        forall|text: &String| number.requires((text,)),
        forall|t: &Matrix<T>, p: CoordinatePair<T>| apply.requires((t, p)),
    ensures
        !preprocess ==> document_outcome(tokenize, plus, minus, eval, arc, number, apply, tol, svg@, result_view(r)),
        preprocess ==> (r is Err && r->Err_0@ is Usvg) || exists|simplified: Seq<char>| #[trigger]
            document_outcome(tokenize, plus, minus, eval, arc, number, apply, tol, simplified, result_view(r)),
{
    if preprocess {
        match simplify(svg) {
            Ok(simplified) => {
                let r = parse_document(simplified.as_str(), tol, tokenize, plus, minus, eval, arc, number, apply);
                assert(document_outcome(tokenize, plus, minus, eval, arc, number, apply, tol, simplified@, result_view(r)));
                r
            },
            Err(text) => Err(Error::Usvg(text)),
        }
    } else {
        parse_document(svg, tol, tokenize, plus, minus, eval, arc, number, apply)
    }
}

} // verus!
