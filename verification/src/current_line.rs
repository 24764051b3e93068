//! The accumulator for the polyline that is being drawn.
use vstd::prelude::*;
use crate::error::Error;
use crate::geometry::{offset, sum, CoordinatePair, Polyline};

verus! {

/// The mathematical value of a [`CurrentLine`].
pub struct LineState<T> {
    /// The points of the line in progress.
    pub points: Seq<CoordinatePair<T>>,
    /// The last point of the line that was finished or closed most recently.
    pub prev_end: Option<CoordinatePair<T>>,
}

impl<T> LineState<T> {
    /// The state at the start of a path expression.
    pub open spec fn empty() -> Self {
        LineState { points: Seq::empty(), prev_end: None }
    }

    /// A line can be emitted only if it has more than one point.
    pub open spec fn is_valid(self) -> bool {
        self.points.len() > 1
    }

    /// The last point of the line in progress.
    pub open spec fn last_pair(self) -> Option<CoordinatePair<T>> {
        if self.points.len() > 0 {
            Some(self.points.last())
        } else {
            None
        }
    }

    /// The point against which a relative coordinate pair is resolved: the
    /// last point of the line in progress; on an empty line the end of the
    /// previous line; at the very start of a path none.
    pub open spec fn reference(self) -> Option<CoordinatePair<T>> {
        if self.points.len() > 0 {
            Some(self.points.last())
        } else {
            self.prev_end
        }
    }

    /// The state after `pair` was appended.
    pub open spec fn push(self, pair: CoordinatePair<T>) -> Self {
        LineState { points: self.points.push(pair), prev_end: self.prev_end }
    }

    /// The state after `pairs` were appended in order.
    pub open spec fn extend(self, pairs: Seq<CoordinatePair<T>>) -> Self {
        LineState { points: self.points + pairs, prev_end: self.prev_end }
    }

    /// The state after a line of at least two points was closed.
    pub open spec fn closed(self) -> Self {
        LineState { points: self.points.push(self.points[0]), prev_end: Some(self.points[0]) }
    }

    /// The state after the line in progress was handed out.
    pub open spec fn finished(self) -> Self {
        LineState { points: Seq::empty(), prev_end: self.last_pair() }
    }
}

/// Whether `after` is a possible state after `pair` was added to `before`
/// as an offset: it is resolved against the last point of the line; on an
/// empty line against the end of the previous line; at the very start of a
/// path it is taken as a position.
pub open spec fn added_relative<T, Plus: Fn(T, T) -> T>(
    plus: &Plus,
    before: LineState<T>,
    pair: CoordinatePair<T>,
    after: LineState<T>,
) -> bool {
    match before.reference() {
        Some(base) => exists|p: CoordinatePair<T>|
            #[trigger] sum(plus, base, pair, p) && after == before.push(p),
        None => after == before.push(pair),
    }
}

/// Whether `after` is a possible state after `pair` was added to `before`,
/// as a position with `abs` and as an offset without it.
pub open spec fn added<T, Plus: Fn(T, T) -> T>(
    plus: &Plus,
    abs: bool,
    before: LineState<T>,
    pair: CoordinatePair<T>,
    after: LineState<T>,
) -> bool {
    if abs {
        after == before.push(pair)
    } else {
        added_relative(plus, before, pair, after)
    }
}

/// The text of the error for closing a line of fewer than two points.
pub open spec fn too_short_text() -> Seq<char> {
    "Lines with less than 2 coordinate pairs cannot be closed."@
}

/// Simple data structure that acts as a [`Polyline`] buffer.
#[derive(Debug, PartialEq)]
pub struct CurrentLine<T> {
    /// The polyline containing the coordinate pairs for the current line.
    line: Polyline<T>,
    /// The end of the previous polyline if the path expression contains
    /// multiple polylines.
    prev_end: Option<CoordinatePair<T>>,
}

impl<T> View for CurrentLine<T> {
    type V = LineState<T>;

    closed spec fn view(&self) -> LineState<T> {
        LineState { points: self.line@, prev_end: self.prev_end }
    }
}

impl<T: Copy> CurrentLine<T> {
    pub fn new() -> (r: Self)
        ensures
            r@ == LineState::<T>::empty(),
    {
        Self { line: Polyline::new(), prev_end: None }
    }

    /// Add a [`CoordinatePair`] to the internal polyline.
    pub fn add_absolute(&mut self, pair: CoordinatePair<T>)
        ensures
            final(self)@ == old(self)@.push(pair),
    {
        self.line.push(pair);
    }

    /// Add a relative [`CoordinatePair`] to the internal polyline. It is
    /// resolved against the last point of the line; on an empty line
    /// against the end of the previous line; at the very start of a path
    /// it is taken as a position. `plus` adds two numbers.
    pub fn add_relative<Plus: Fn(T, T) -> T>(&mut self, pair: CoordinatePair<T>, plus: &Plus)
        requires
            forall|a: T, b: T| plus.requires((a, b)),
        ensures
            added_relative(plus, old(self)@, pair, final(self)@),
    {
        match self.reference() {
            Some(base) => {
                let p = offset(base, pair, plus);
                self.add_absolute(p);
            },
            None => {
                self.add_absolute(pair);
            },
        }
    }

    /// Add a [`CoordinatePair`] to the internal polyline, as a position with
    /// `abs` and as an offset without it.
    pub fn add<Plus: Fn(T, T) -> T>(&mut self, abs: bool, pair: CoordinatePair<T>, plus: &Plus)
        requires
            forall|a: T, b: T| plus.requires((a, b)),
        ensures
            added(plus, abs, old(self)@, pair, final(self)@),
    {
        if abs {
            self.add_absolute(pair);
        } else {
            self.add_relative(pair, plus);
        }
    }

    /// The point against which a relative [`CoordinatePair`] is resolved.
    pub fn reference(&self) -> (r: Option<CoordinatePair<T>>)
        ensures
            r == self@.reference(),
    {
        match self.line.last() {
            Some(last) => Some(last),
            None => self.prev_end,
        }
    }

    /// Add all of `pairs` to the internal polyline, in order.
    pub fn extend(&mut self, pairs: &Vec<CoordinatePair<T>>)
        ensures
            final(self)@ == old(self)@.extend(pairs@),
    {
        let n: usize = pairs.len();
        let mut i: usize = 0;
        while i < n
            invariant
                n == pairs@.len(),
                i <= n,
                self@.prev_end == old(self)@.prev_end,
                self@.points == old(self)@.points + pairs@.take(i as int),
            decreases n - i,
        {
            self.line.push(pairs[i]);
            assert(pairs@.take(i as int + 1) == pairs@.take(i as int).push(pairs@[i as int]));
            assert(self@.points == old(self)@.points + pairs@.take(i as int + 1));
            i = i + 1;
        }
        assert(pairs@.take(n as int) == pairs@);
    }

    /// A polyline is only valid if it has more than 1 [`CoordinatePair`].
    pub fn is_valid(&self) -> (r: bool)
        ensures
            r == self@.is_valid(),
    {
        self.line.len() > 1
    }

    /// Return the last [`CoordinatePair`] (if the line is not empty).
    pub fn last_pair(&self) -> (r: Option<CoordinatePair<T>>)
        ensures
            r == self@.last_pair(),
    {
        self.line.last()
    }

    /// Return the last x coordinate (if the line is not empty).
    pub fn last_x(&self) -> (r: Option<T>)
        ensures
            r == (match self@.last_pair() {
                Some(pair) => Some(pair.x),
                None => None,
            }),
    {
        match self.line.last() {
            Some(pair) => Some(pair.x),
            None => None,
        }
    }

    /// Return the last y coordinate (if the line is not empty).
    pub fn last_y(&self) -> (r: Option<T>)
        ensures
            r == (match self@.last_pair() {
                Some(pair) => Some(pair.y),
                None => None,
            }),
    {
        match self.line.last() {
            Some(pair) => Some(pair.y),
            None => None,
        }
    }

    /// Close the line by adding the first entry to the end. A line of
    /// fewer than two points cannot be closed and is left as it is.
    pub fn close(&mut self) -> (r: Result<(), Error>)
        ensures
            old(self)@.points.len() >= 2 ==> r is Ok && final(self)@ == old(self)@.closed(),
            old(self)@.points.len() < 2 ==> final(self)@ == old(self)@ && r is Err
                && r->Err_0@ == crate::error::ErrorView::Polyline(too_short_text()),
    {
        if self.line.len() < 2 {
            Err(Error::Polyline("Lines with less than 2 coordinate pairs cannot be closed.".to_string()))
        } else {
            let first = self.line.get(0);
            self.line.push(first);
            self.prev_end = Some(first);
            Ok(())
        }
    }

    /// Replace the internal [`Polyline`] with a new instance and return the
    /// previously stored [`Polyline`].
    pub fn finish(&mut self) -> (r: Polyline<T>)
        ensures
            r@ == old(self)@.points,
            final(self)@ == old(self)@.finished(),
    {
        self.prev_end = self.line.last();
        let mut tmp = Polyline::new();
        core::mem::swap(&mut self.line, &mut tmp);
        tmp
    }
}

} // verus!
