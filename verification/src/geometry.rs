//! Coordinate pairs and polylines.
use vstd::prelude::*;

verus! {

/// A pair of x and y coordinates over the scalar type `T`.
#[derive(Debug, PartialEq, Clone, Copy)]
pub struct CoordinatePair<T> {
    pub x: T,
    pub y: T,
}

impl<T> CoordinatePair<T> {
    pub fn new(x: T, y: T) -> (r: Self)
        ensures
            r == (CoordinatePair { x, y }),
    {
        Self { x, y }
    }
}

impl<T> From<(T, T)> for CoordinatePair<T> {
    fn from(val: (T, T)) -> (r: Self) {
        Self { x: val.0, y: val.1 }
    }
}

impl<T> vstd::std_specs::convert::FromSpecImpl<(T, T)> for CoordinatePair<T> {
    open spec fn obeys_from_spec() -> bool {
        true
    }

    open spec fn from_spec(val: (T, T)) -> Self {
        CoordinatePair { x: val.0, y: val.1 }
    }
}

/// A polyline is a sequence of [`CoordinatePair`]s.
#[derive(Debug, PartialEq)]
pub struct Polyline<T>(Vec<CoordinatePair<T>>);

impl<T> View for Polyline<T> {
    type V = Seq<CoordinatePair<T>>;

    closed spec fn view(&self) -> Seq<CoordinatePair<T>> {
        self.0@
    }
}

impl<T> Polyline<T> {
    /// Create a new, empty polyline.
    pub fn new() -> (r: Self)
        ensures
            r@ == Seq::<CoordinatePair<T>>::empty(),
    {
        Polyline(Vec::new())
    }

    /// Create a new polyline from a vector.
    pub fn from_vec(vec: Vec<CoordinatePair<T>>) -> (r: Self)
        ensures
            r@ == vec@,
    {
        Polyline(vec)
    }

    /// Unwrap and return the inner vector.
    pub fn unwrap(self) -> (r: Vec<CoordinatePair<T>>)
        ensures
            r@ == self@,
    {
        self.0
    }

    /// Borrow the inner vector.
    pub fn as_ref(&self) -> (r: &Vec<CoordinatePair<T>>)
        ensures
            r@ == self@,
    {
        &self.0
    }

    /// The number of coordinate pairs.
    pub fn len(&self) -> (r: usize)
        ensures
            r == self@.len(),
    {
        self.0.len()
    }

    /// Whether the polyline holds no coordinate pair.
    pub fn is_empty(&self) -> (r: bool)
        ensures
            r == (self@.len() == 0),
    {
        self.0.len() == 0
    }

    /// Append a coordinate pair.
    pub fn push(&mut self, pair: CoordinatePair<T>)
        ensures
            final(self)@ == old(self)@.push(pair),
    {
        self.0.push(pair);
    }
}

impl<T: Copy> Polyline<T> {
    /// The coordinate pair at position `id`.
    pub fn get(&self, id: usize) -> (r: CoordinatePair<T>)
        requires
            id < self@.len(),
        ensures
            r == self@[id as int],
    {
        self.0[id]
    }

    /// The last coordinate pair, if there is one.
    pub fn last(&self) -> (r: Option<CoordinatePair<T>>)
        ensures
            r == (if self@.len() == 0 {
                None
            } else {
                Some(self@.last())
            }),
    {
        let n: usize = self.0.len();
        if n == 0 {
            None
        } else {
            Some(self.0[n - 1])
        }
    }
}

impl<T> Default for Polyline<T> {
    fn default() -> (r: Self)
        ensures
            r@ == Seq::<CoordinatePair<T>>::empty(),
    {
        Polyline(Vec::new())
    }
}

/// Whether `p` is a possible sum of `a` and `b`, coordinate by coordinate,
/// where `plus` adds two numbers.
pub open spec fn sum<T, Plus: Fn(T, T) -> T>(
    plus: &Plus,
    a: CoordinatePair<T>,
    b: CoordinatePair<T>,
    p: CoordinatePair<T>,
) -> bool {
    plus.ensures((a.x, b.x), p.x) && plus.ensures((a.y, b.y), p.y)
}

/// Whether `d` is a possible difference of `a` and `b`, coordinate by
/// coordinate, where `minus` subtracts its second number from its first.
pub open spec fn difference<T, Minus: Fn(T, T) -> T>(
    minus: &Minus,
    a: CoordinatePair<T>,
    b: CoordinatePair<T>,
    d: CoordinatePair<T>,
) -> bool {
    minus.ensures((a.x, b.x), d.x) && minus.ensures((a.y, b.y), d.y)
}

/// Whether `p` is a possible position for what a command states as
/// `given`: with `abs` it is `given` itself, else `from` moved by `given`.
pub open spec fn resolved<T, Plus: Fn(T, T) -> T>(
    plus: &Plus,
    abs: bool,
    from: CoordinatePair<T>,
    given: CoordinatePair<T>,
    p: CoordinatePair<T>,
) -> bool {
    if abs {
        p == given
    } else {
        sum(plus, from, given, p)
    }
}

/// The point `base` moved by `delta`.
pub fn offset<T: Copy, Plus: Fn(T, T) -> T>(
    base: CoordinatePair<T>,
    delta: CoordinatePair<T>,
    plus: &Plus,
) -> (p: CoordinatePair<T>)
    requires
        forall|a: T, b: T| plus.requires((a, b)),
    ensures
        sum(plus, base, delta, p),
{
    let x = plus(base.x, delta.x);
    let y = plus(base.y, delta.y);
    CoordinatePair { x, y }
}

/// The way from `b` to `a`.
pub fn apart<T: Copy, Minus: Fn(T, T) -> T>(
    a: CoordinatePair<T>,
    b: CoordinatePair<T>,
    minus: &Minus,
) -> (d: CoordinatePair<T>)
    requires
        forall|a: T, b: T| minus.requires((a, b)),
    ensures
        difference(minus, a, b, d),
{
    let x = minus(a.x, b.x);
    let y = minus(a.y, b.y);
    CoordinatePair { x, y }
}

/// The position of what a command states as `given`.
pub fn resolve<T: Copy, Plus: Fn(T, T) -> T>(
    abs: bool,
    from: CoordinatePair<T>,
    given: CoordinatePair<T>,
    plus: &Plus,
) -> (p: CoordinatePair<T>)
    requires
        forall|a: T, b: T| plus.requires((a, b)),
    ensures
        resolved(plus, abs, from, given, p),
{
    if abs {
        given
    } else {
        offset(from, given, plus)
    }
}

} // verus!
