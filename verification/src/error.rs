//! The closed set of errors.
use vstd::prelude::*;
use vstd::string::StringExecFns;

verus! {

/// Why a document could not be converted.
#[derive(Debug)]
pub enum Error {
    /// The markup is malformed.
    SvgParse(String),
    /// The markup could not be simplified.
    Usvg(String),
    /// The path data is malformed, or a command came in a state that does
    /// not allow it.
    PathParse(String),
    /// A polyline operation was not possible.
    Polyline(String),
    /// A transform expression is not supported.
    Transform(String),
}

/// The mathematical value of an [`Error`]: its kind and its text.
pub enum ErrorView {
    SvgParse(Seq<char>),
    Usvg(Seq<char>),
    PathParse(Seq<char>),
    Polyline(Seq<char>),
    Transform(Seq<char>),
}

impl View for Error {
    type V = ErrorView;

    open spec fn view(&self) -> ErrorView {
        match self {
            Error::SvgParse(s) => ErrorView::SvgParse(s@),
            Error::Usvg(s) => ErrorView::Usvg(s@),
            Error::PathParse(s) => ErrorView::PathParse(s@),
            Error::Polyline(s) => ErrorView::Polyline(s@),
            Error::Transform(s) => ErrorView::Transform(s@),
        }
    }
}

impl ErrorView {
    /// The text that describes the error to a reader.
    pub open spec fn message(self) -> Seq<char> {
        match self {
            ErrorView::SvgParse(s) => "SVG parse error: "@ + s,
            ErrorView::Usvg(s) => "Could not simplify SVG with usvg: "@ + s,
            ErrorView::PathParse(s) => "SVG path parse error: "@ + s,
            ErrorView::Polyline(s) => "Polyline error: "@ + s,
            ErrorView::Transform(s) => "Transform error: "@ + s,
        }
    }
}

/// The characters of an optional text.
pub open spec fn text_view(text: Option<String>) -> Option<Seq<char>> {
    match text {
        Some(t) => Some(t@),
        None => None,
    }
}

/// The concatenation of two texts.
pub(crate) fn concat(head: &str, tail: &str) -> (r: String)
    ensures
        r@ == head@ + tail@,
{
    let mut text = String::new();
    text.append(head);
    text.append(tail);
    assert(text@ =~= head@ + tail@);
    text
}

impl Error {
    /// The text that describes the error to a reader.
    pub fn message(&self) -> (r: String)
        ensures
            r@ == self@.message(),
    {
        match self {
            Error::SvgParse(s) => concat("SVG parse error: ", s.as_str()),
            Error::Usvg(s) => concat("Could not simplify SVG with usvg: ", s.as_str()),
            Error::PathParse(s) => concat("SVG path parse error: ", s.as_str()),
            Error::Polyline(s) => concat("Polyline error: ", s.as_str()),
            Error::Transform(s) => concat("Transform error: ", s.as_str()),
        }
    }
}

} // verus!
