//! Convert SVG path data into polylines (polygonal chains).
//!
//! The crate works for any number type `T`. It holds the line accumulator,
//! the path-command state machine, which resolves every command against
//! the running cursor and rebuilds the control point that a smooth curve
//! leaves out, the chaining of the curves that an arc is made of, the
//! extraction of path elements from markup and the parsing of transform
//! expressions. The arithmetic itself is the caller's: functions that add
//! and subtract two numbers, flatten a curve, find the shape of an arc,
//! split path data into commands, read a number and move a point under a
//! matrix. Every contract says what comes out in terms of what those
//! functions return.
pub mod current_line;
pub mod document;
pub mod error;
pub mod geometry;
pub mod interpreter;
pub mod laws;
pub mod segment;
pub mod simplify;
pub mod transform;
pub mod xml;

pub use current_line::{CurrentLine, LineState};
pub use document::{convert_path, parse, parse_document, parse_path};
pub use error::{Error, ErrorView};
pub use geometry::{apart, offset, resolve, CoordinatePair, Polyline};
pub use interpreter::{draw_arc, interpret, parse_path_segment, Machine};
pub use segment::{ArcCommand, ArcShape, ChainLink, FirstControl, PathSegment, Stroke};
pub use transform::{matrix_body, matrix_elements, matrix_of, parse_transform, Matrix};
pub use xml::{parse_xml, path_of, path_of_tag, select_path, Attribute, Markup, Tag};
