//! Simplifying a document before it is converted.
use vstd::prelude::*;

verus! {

/// `usvg::Tree::from_str` with the default options, then
/// `usvg::Tree::to_string` with the default options: the document in
/// simplified form, or the text of the error of `usvg`, as its `Display`
/// gives it. What comes back may depend on files that the document refers
/// to, so nothing is stated of it.
#[verifier::external_body]
pub(crate) fn simplify(svg: &str) -> (r: Result<String, String>) {
    let options = usvg::Options::default();
    match usvg::Tree::from_str(svg, &options.to_ref()) {
        Ok(tree) => Ok(tree.to_string(&usvg::XmlOptions::default())),
        Err(e) => Err(e.to_string()),
    }
}

} // verus!
