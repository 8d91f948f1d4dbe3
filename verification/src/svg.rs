//! Reading SVG documents, before the window renders them at the size it needs.
use vstd::prelude::*;

verus! {

#[verifier::external_type_specification]
#[verifier::external_body]
pub struct ExSvgTree(usvg::Tree);

/// Whether `usvg::Tree::from_data`, with the default options, accepts the bytes as an
/// SVG document. Image files that a document links to and that cannot be loaded are
/// skipped, so acceptance depends on the bytes alone.
pub uninterp spec fn svg_parses(data: Seq<u8>) -> bool;

/// Whether the bytes start with the two bytes that mark gzip-compressed data.
pub open spec fn gzip_magic(data: Seq<u8>) -> bool {
    data.len() >= 2 && data[0] == 0x1f && data[1] == 0x8b
}

/// Parses SVG bytes with `usvg::Tree::from_data` and the default options: a tree
/// exactly when the bytes are accepted, and bytes that are neither gzip-compressed
/// nor UTF-8 are never accepted. The tree also holds image files read from disk.
#[verifier::external_body]
fn tree_from_data(data: &[u8]) -> (r: Option<usvg::Tree>)
    ensures
        r is Some <==> svg_parses(data@),
        !gzip_magic(data@) && !vstd::utf8::valid_utf8(data@) ==> r is None,
{
    usvg::Tree::from_data(data, &usvg::Options::default()).ok()
}

/// The document tree of an SVG file's bytes, or `None` when they do not parse.
/// Bytes that are neither gzip-compressed nor UTF-8 never parse.
pub fn parse_svg(data: &[u8]) -> (r: Option<usvg::Tree>)
    ensures
        r is Some <==> svg_parses(data@),
        !gzip_magic(data@) && !vstd::utf8::valid_utf8(data@) ==> r is None,
{
    tree_from_data(data)
}

} // verus!
