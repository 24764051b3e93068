//! Transform expressions in matrix form.
use vstd::prelude::*;
use crate::error::{concat, Error, ErrorView};
use crate::geometry::{CoordinatePair, Polyline};

verus! {

/// The affine transformation `matrix(a b c d e f)`.
#[derive(Debug, PartialEq, Clone, Copy)]
pub struct Matrix<T> {
    pub a: T,
    pub b: T,
    pub c: T,
    pub d: T,
    pub e: T,
    pub f: T,
}

/// Whether a character is whitespace as `str::trim` of std understands it:
/// whether it has the Unicode property `White_Space`.
pub uninterp spec fn white_space(c: char) -> bool;

/// The number of whitespace characters at the start of a text.
pub open spec fn leading(text: Seq<char>) -> nat
    decreases text.len(),
{
    if text.len() > 0 && white_space(text[0]) {
        1 + leading(text.skip(1))
    } else {
        0
    }
}

/// The number of whitespace characters at the end of a text.
pub open spec fn trailing(text: Seq<char>) -> nat
    decreases text.len(),
{
    if text.len() > 0 && white_space(text.last()) {
        1 + trailing(text.drop_last())
    } else {
        0
    }
}

/// What `str::trim` of std returns: the text without the whitespace at its
/// start and at its end.
pub open spec fn trimmed(text: Seq<char>) -> Seq<char> {
    if leading(text) >= text.len() {
        Seq::empty()
    } else {
        text.subrange(leading(text) as int, text.len() - trailing(text))
    }
}

/// The word that ends where a text ends or whitespace follows: none where
/// nothing was gathered.
pub open spec fn gathered(word: Seq<char>) -> Seq<Seq<char>> {
    if word.len() > 0 {
        seq![word]
    } else {
        Seq::empty()
    }
}

/// The words of a text from position `i` on, where `word` holds the
/// characters of the word in progress.
pub open spec fn words_from(text: Seq<char>, i: int, word: Seq<char>) -> Seq<Seq<char>>
    decreases text.len() - i,
{
    if i < 0 || i >= text.len() {
        gathered(word)
    } else if white_space(text[i]) {
        gathered(word) + words_from(text, i + 1, Seq::empty())
    } else {
        words_from(text, i + 1, word.push(text[i]))
    }
}

/// What `str::split_whitespace` of std yields: the parts of the text
/// between whitespace, in order, none of them empty.
pub open spec fn words(text: Seq<char>) -> Seq<Seq<char>> {
    words_from(text, 0, Seq::empty())
}

/// `str::trim` of std: the part of the text from its first character that
/// is no whitespace to its last.
#[verifier::external_body]
fn trim(text: &str) -> (r: &str)
    ensures
        r@ == trimmed(text@),
        r@.len() > 0 ==> !white_space(r@[0]) && !white_space(r@.last()),
{
    text.trim()
}

/// `str::strip_prefix` of std: the text behind `prefix`, if the text starts
/// with it.
#[verifier::external_body]
fn strip_prefix<'a>(text: &'a str, prefix: &str) -> (r: Option<&'a str>)
    ensures
        match r {
            Some(rest) => text@ == prefix@ + rest@,
            None => !prefix@.is_prefix_of(text@),
        },
{
    text.strip_prefix(prefix)
}

/// `str::strip_suffix` of std with a character: the text before `last`, if
/// the text ends with it.
#[verifier::external_body]
fn strip_suffix(text: &str, last: char) -> (r: Option<&str>)
    ensures
        match r {
            Some(rest) => text@ == rest@.push(last),
            None => text@.len() == 0 || text@.last() != last,
        },
{
    text.strip_suffix(last)
}

/// `str::split_whitespace` of std, every part as a text of its own: the
/// text is split at any amount of whitespace, and no part is empty.
#[verifier::external_body]
fn split_whitespace(text: &str) -> (r: Vec<String>)
    ensures
        texts_view(r) == words(text@),
{
    text.split_whitespace().map(str::to_string).collect()
}

/// The texts of a vector as plain values.
pub open spec fn texts_view(texts: Vec<String>) -> Seq<Seq<char>> {
    texts@.map_values(|t: String| t@)
}

/// An error text that quotes the transform expression.
pub open spec fn quoted(head: Seq<char>, transform: Seq<char>) -> Seq<char> {
    head + transform + "'"@
}

/// How a transform expression in matrix form starts.
pub open spec fn matrix_prefix() -> Seq<char> {
    "matrix("@
}

/// The start of the error text for a transform that is no matrix.
pub open spec fn only_matrix_text() -> Seq<char> {
    "Only 'matrix' transform supported in transform '"@
}

/// The start of the error text for a matrix without its closing parenthesis.
pub open spec fn missing_parenthesis_text() -> Seq<char> {
    "Missing closing parenthesis in transform '"@
}

/// The start of the error text for a matrix element that is no number.
pub open spec fn invalid_elements_text() -> Seq<char> {
    "Invalid matrix elements in transform '"@
}

/// The start of the error text for a matrix that has not six elements.
pub open spec fn invalid_number_text() -> Seq<char> {
    "Invalid number of matrix elements in transform '"@
}

/// What stands between `matrix(` and `)` in a transform expression that
/// has no whitespace around it; a transform error where the expression
/// does not start with `matrix(`, and another where it does not end with
/// `)`.
pub open spec fn body_of(text: Seq<char>) -> Result<Seq<char>, ErrorView> {
    if !matrix_prefix().is_prefix_of(text) {
        Err(ErrorView::Transform(quoted(only_matrix_text(), text)))
    } else {
        let rest = text.skip(matrix_prefix().len() as int);
        if rest.len() == 0 || rest.last() != ')' {
            Err(ErrorView::Transform(quoted(missing_parenthesis_text(), text)))
        } else {
            Ok(rest.drop_last())
        }
    }
}

/// The elements of a transform expression: the expression without the
/// whitespace around it must start with `matrix(` and end with `)`; the
/// elements are what stands between the two, split at whitespace.
pub open spec fn elements_of(transform: Seq<char>) -> Result<Seq<Seq<char>>, ErrorView> {
    match body_of(trimmed(transform)) {
        Ok(body) => Ok(words(body)),
        Err(e) => Err(e),
    }
}

/// The error with `head`, the quoted expression and a closing quote as its
/// text.
fn quote(head: &str, transform: &str) -> (r: String)
    ensures
        r@ == quoted(head@, transform@),
{
    let start = concat(head, transform);
    concat(start.as_str(), "'")
}

/// Extract what stands between `matrix(` and `)` from a transform
/// expression that has no whitespace around it.
pub fn matrix_body<'a>(text: &'a str) -> (r: Result<&'a str, Error>)
    ensures
        match body_of(text@) {
            Ok(body) => r is Ok && r->Ok_0@ == body,
            Err(e) => r is Err && r->Err_0@ == e,
        },
{
    match strip_prefix(text, "matrix(") {
        None => Err(Error::Transform(quote("Only 'matrix' transform supported in transform '", text))),
        Some(rest) => {
            assert(rest@ =~= text@.skip(matrix_prefix().len() as int));
            match strip_suffix(rest, ')') {
                None => Err(
                    Error::Transform(quote("Missing closing parenthesis in transform '", text)),
                ),
                Some(inner) => {
                    assert(inner@ =~= rest@.drop_last());
                    Ok(inner)
                },
            }
        },
    }
}

/// Extract the elements of a matrix from a transform expression, each as
/// it is written.
pub fn matrix_elements(transform: &str) -> (r: Result<Vec<String>, Error>)
    ensures
        match elements_of(transform@) {
            Ok(elements) => r is Ok && texts_view(r->Ok_0) == elements,
            Err(e) => r is Err && r->Err_0@ == e,
        },
{
    match matrix_body(trim(transform)) {
        Ok(body) => Ok(split_whitespace(body)),
        Err(e) => Err(e),
    }
}

/// Whether `number` may read `text` as a number.
pub open spec fn accepted<T, Num: Fn(&String) -> Option<T>>(number: &Num, text: String) -> bool {
    exists|v: T| #[trigger] number.ensures((&text,), Some(v))
}

/// Whether `res` is a possible result of reading the elements `texts` of
/// the transform expression `text` as numbers with `number`: a matrix of
/// the six numbers; an error where `number` refuses an element; else an
/// error where the elements are not six.
pub open spec fn numbers_outcome<T, Num: Fn(&String) -> Option<T>>(
    number: &Num,
    texts: Seq<String>,
    text: Seq<char>,
    res: Result<Matrix<T>, ErrorView>,
) -> bool {
    match res {
        Ok(m) => {
            &&& texts.len() == 6
            &&& number.ensures((&texts[0],), Some(m.a))
            &&& number.ensures((&texts[1],), Some(m.b))
            &&& number.ensures((&texts[2],), Some(m.c))
            &&& number.ensures((&texts[3],), Some(m.d))
            &&& number.ensures((&texts[4],), Some(m.e))
            &&& number.ensures((&texts[5],), Some(m.f))
        },
        Err(e) => {
            ||| {
                &&& e == ErrorView::Transform(quoted(invalid_elements_text(), text))
                &&& exists|i: int|
                    0 <= i < texts.len() && #[trigger] number.ensures((&texts[i],), None::<T>)
            }
            ||| {
                &&& e == ErrorView::Transform(quoted(invalid_number_text(), text))
                &&& texts.len() != 6
                &&& forall|i: int| 0 <= i < texts.len() ==> #[trigger] accepted(number, texts[i])
            }
        },
    }
}

/// Whether `res` is a possible result of parsing `transform`, where
/// `number` reads one element as a number.
pub open spec fn transform_outcome<T, Num: Fn(&String) -> Option<T>>(
    number: &Num,
    transform: Seq<char>,
    res: Result<Matrix<T>, ErrorView>,
) -> bool {
    match elements_of(transform) {
        Err(e) => res == Err::<Matrix<T>, ErrorView>(e),
        Ok(elements) => exists|texts: Vec<String>|
            texts_view(texts) == elements && #[trigger] numbers_outcome(
                number,
                texts@,
                trimmed(transform),
                res,
            ),
    }
}

/// What a result of [`parse_transform`] is for contracts.
pub open spec fn matrix_view<T>(r: Result<Matrix<T>, Error>) -> Result<Matrix<T>, ErrorView> {
    match r {
        Ok(m) => Ok(m),
        Err(e) => Err(e@),
    }
}

/// Reads the elements `texts` of the transform expression `text` as the
/// numbers of a matrix, each with `number`.
pub fn matrix_of<T: Copy, Num: Fn(&String) -> Option<T>>(
    texts: &Vec<String>,
    text: &str,
    number: &Num,
) -> (r: Result<Matrix<T>, Error>)
    requires
        forall|text: &String| number.requires((text,)),
    ensures
        numbers_outcome(number, texts@, text@, matrix_view(r)),
{
    let mut values: Vec<T> = Vec::new();
    let n: usize = texts.len();
    let mut i: usize = 0;
    while i < n
        invariant
            n == texts@.len(),
            i <= n,
            values@.len() == i,
            forall|text: &String| number.requires((text,)),
            forall|j: int| 0 <= j < i ==> #[trigger] number.ensures((&texts@[j],), Some(values@[j])),
            forall|j: int| 0 <= j < i ==> #[trigger] accepted(number, texts@[j]),
        decreases n - i,
    {
        match number(&texts[i]) {
            Some(v) => {
                values.push(v);
            },
            None => {
                assert(number.ensures((&texts@[i as int],), None::<T>));
                return Err(Error::Transform(quote("Invalid matrix elements in transform '", text)));
            },
        }
        i = i + 1;
    }
    if n != 6 {
        return Err(Error::Transform(quote("Invalid number of matrix elements in transform '", text)));
    }
    Ok(Matrix { a: values[0], b: values[1], c: values[2], d: values[3], e: values[4], f: values[5] })
}

/// Parse an SVG transformation into a [`Matrix`]. Only matrix
/// transformations are supported; `number` reads one element as a number.
pub fn parse_transform<T: Copy, Num: Fn(&String) -> Option<T>>(transform: &str, number: &Num) -> (r:
    Result<Matrix<T>, Error>)
    requires
        forall|text: &String| number.requires((text,)),
    ensures
        transform_outcome(number, transform@, matrix_view(r)),
{
    match matrix_elements(transform) {
        Ok(texts) => {
            let r = matrix_of(&texts, trim(transform), number);
            assert(numbers_outcome(number, texts@, trimmed(transform@), matrix_view(r)));
            r
        },
        Err(e) => Err(e),
    }
}

/// Whether `out` is a possible result of moving every point of `line`
/// with `apply` under the matrix `t`.
pub open spec fn moved<T, App: Fn(&Matrix<T>, CoordinatePair<T>) -> CoordinatePair<T>>(
    apply: &App,
    t: Matrix<T>,
    line: Seq<CoordinatePair<T>>,
    out: Seq<CoordinatePair<T>>,
) -> bool {
    &&& out.len() == line.len()
    &&& forall|i: int| 0 <= i < line.len() ==> #[trigger] apply.ensures((&t, line[i]), out[i])
}

impl<T: Copy> CoordinatePair<T> {
    /// Apply a 2D transformation, which `apply` computes.
    pub fn transform<App: Fn(&Matrix<T>, CoordinatePair<T>) -> CoordinatePair<T>>(
        &mut self,
        t: &Matrix<T>,
        apply: &App,
    )
        requires
            forall|p: CoordinatePair<T>| apply.requires((t, p)),
        ensures
            apply.ensures((t, *old(self)), *final(self)),
    {
        let p = apply(t, *self);
        *self = p;
    }
}

/// A copy of `line` with every point moved with `apply` under `t`.
pub(crate) fn moved_copy<T: Copy, App: Fn(&Matrix<T>, CoordinatePair<T>) -> CoordinatePair<T>>(
    line: &Polyline<T>,
    t: &Matrix<T>,
    apply: &App,
) -> (r: Polyline<T>)
    requires
        forall|p: CoordinatePair<T>| apply.requires((t, p)),
    ensures
        moved(apply, *t, line@, r@),
{
    let mut out: Polyline<T> = Polyline::new();
    let n: usize = line.len();
    let mut i: usize = 0;
    while i < n
        invariant
            n == line@.len(),
            i <= n,
            out@.len() == i,
            forall|p: CoordinatePair<T>| apply.requires((t, p)),
            forall|j: int| 0 <= j < i ==> #[trigger] apply.ensures((t, line@[j]), out@[j]),
        decreases n - i,
    {
        let mut p = line.get(i);
        p.transform(t, apply);
        out.push(p);
        i = i + 1;
    }
    out
}

impl<T: Copy> Polyline<T> {
    /// Apply a transformation to all coordinate pairs.
    pub fn transform<App: Fn(&Matrix<T>, CoordinatePair<T>) -> CoordinatePair<T>>(
        self,
        t: &Matrix<T>,
        apply: &App,
    ) -> (r: Self)
        requires
            forall|p: CoordinatePair<T>| apply.requires((t, p)),
        ensures
            moved(apply, *t, self@, r@),
    {
        moved_copy(&self, t, apply)
    }
}

} // verus!
