//! Reading SVG documents with `usvg`.

use vstd::prelude::*;
use resvg::usvg;
use crate::error::MartiniError;

verus! {

#[verifier::external_type_specification]
#[verifier::external_body]
pub struct ExSvgTree(usvg::Tree);

/// Names whether `usvg::Tree::from_data` with the default options reads the
/// bytes as an SVG document: whether they are UTF-8 (or gzip-compressed UTF-8)
/// XML of an SVG with a valid size. External images that fail to load are
/// skipped, not refused, so this depends on the bytes alone.
pub uninterp spec fn svg_parses(data: Seq<u8>) -> bool;

/// Names the message of the `usvg::Error` that `usvg::Tree::from_data` with the
/// default options gives for bytes it does not read, as its `Display` writes it.
pub uninterp spec fn svg_error_text(data: Seq<u8>) -> Seq<char>;

/// `usvg::Tree::from_data` with `usvg::Options::default()`; an error is
/// returned as its message.
#[verifier::external_body]
fn svg_parse(data: &[u8]) -> (r: Result<usvg::Tree, String>)
    ensures
        r is Ok <==> svg_parses(data@),
        r matches Err(m) ==> m@ == svg_error_text(data@),
{
    match usvg::Tree::from_data(data, &usvg::Options::default()) {
        Ok(t) => Ok(t),
        Err(e) => Err(e.to_string()),
    }
}

/// Parses an SVG document: the tree when `usvg` reads the bytes, otherwise an
/// SVG parsing error with `usvg`'s message.
pub fn parse_svg(data: &[u8]) -> (r: Result<usvg::Tree, MartiniError>)
    ensures
        r is Ok <==> svg_parses(data@),
        r matches Err(e) ==> (e matches MartiniError::SvgParse(m) && m@ == svg_error_text(data@)),
{
    match svg_parse(data) {
        Ok(t) => Ok(t),
        Err(m) => Err(MartiniError::SvgParse(m)),
    }
}

} // verus!
