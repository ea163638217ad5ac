//! Loading SVG documents into renderable scenes.

use std::sync::Arc;
use vstd::prelude::*;
use vstd::string::StringSliceAdditionalSpecFns;

use crate::error::VectorLoaderError;

verus! {

#[verifier::external_type_specification]
#[verifier::external_body]
pub struct ExSvgDocument(svg_imaging::SvgDocument);

#[verifier::external_type_specification]
#[verifier::external_body]
pub struct ExRecordedScene(imaging::record::Scene);

#[verifier::external_type_specification]
#[verifier::external_body]
pub struct ExSize(imaging::kurbo::Size);

/// Whether the bytes parse as an SVG document.
pub uninterp spec fn svg_parses(bytes: Seq<u8>) -> bool;

/// The size of the SVG document the bytes parse to.
pub uninterp spec fn svg_size(bytes: Seq<u8>) -> imaging::kurbo::Size;

/// The size of a parsed SVG document.
pub uninterp spec fn document_size(document: svg_imaging::SvgDocument) -> imaging::kurbo::Size;

/// Whether `bytes` start with the gzip identification bytes, which mark a
/// compressed SVG.
pub open spec fn is_svgz(bytes: Seq<u8>) -> bool {
    bytes.len() >= 2 && bytes[0] == 0x1f && bytes[1] == 0x8b
}

/// Parses an SVG document, with the system's fonts available for its text.
///
/// Trusted: builds `svg_imaging::ParseOptions::default()`, loads the system
/// fonts into its font database, and calls `svg_imaging::SvgDocument::from_data`.
/// Whether parsing succeeds depends on the bytes alone (fonts only change how
/// text is drawn) and is named `svg_parses`. The one fact claimed beyond the
/// name is from usvg's `Tree::from_data`: uncompressed input that is not
/// valid UTF-8 is rejected. The document's size comes from the root's
/// `width`, `height` and `viewBox` attributes, not from the fonts, so it is a
/// function of the bytes: `svg_size`. What else the document holds is not
/// stated (its text depends on the machine's fonts).
#[verifier::external_body]
fn parse_svg_document(bytes: &[u8]) -> (document: Result<svg_imaging::SvgDocument, svg_imaging::Error>)
    ensures
        document is Ok == svg_parses(bytes@),
        document matches Ok(d) ==> document_size(d) == svg_size(bytes@),
        !is_svgz(bytes@) && !vstd::utf8::valid_utf8(bytes@) ==> document is Err,
{
    let mut options = svg_imaging::ParseOptions::default();
    options.fontdb_mut().load_system_fonts();
    svg_imaging::SvgDocument::from_data(bytes, &options)
}

/// Renders a parsed SVG document into a new recorded scene.
///
/// Trusted: calls `svg_imaging::SvgDocument::render` with a painter over a new
/// `imaging::record::Scene` and the default render options. Its source
/// always returns `Ok`, which is claimed; the scene's contents are not
/// stated.
#[verifier::external_body]
fn render_svg_document(document: &svg_imaging::SvgDocument) -> (scene: Result<imaging::record::Scene, svg_imaging::Error>)
    ensures
        scene is Ok,
{
    let mut scene = imaging::record::Scene::new();
    let report = document.render(
        &mut imaging::Painter::new(&mut scene),
        &svg_imaging::RenderOptions::default(),
    );
    report.map(|_| scene)
}

/// The size of a parsed SVG document in user-space units.
///
/// Trusted: calls `svg_imaging::SvgDocument::size`, which reads the size the
/// document was parsed with: `document_size` of it.
#[verifier::external_body]
fn svg_document_size(document: &svg_imaging::SvgDocument) -> (size: imaging::kurbo::Size)
    ensures
        size == document_size(*document),
{
    document.size()
}

/// A parsed SVG, recorded as a scene, with its size.
pub struct VelloSvg {
    /// The recorded drawing.
    pub scene: Arc<imaging::record::Scene>,
    /// The document's size in user-space units.
    pub size: imaging::kurbo::Size,
}

/// Deserialize an SVG file from bytes.
pub fn load_svg_from_bytes(bytes: &[u8]) -> (asset: Result<VelloSvg, VectorLoaderError>)
    ensures
        asset is Ok == svg_parses(bytes@),
        asset matches Ok(a) ==> a.size == svg_size(bytes@),
        asset is Err ==> asset->Err_0 is VelloSvg,
        !is_svgz(bytes@) && !vstd::utf8::valid_utf8(bytes@) ==> asset is Err,
{
    let document = match parse_svg_document(bytes) {
        Ok(document) => document,
        Err(e) => return Err(VectorLoaderError::VelloSvg(e)),
    };
    let scene = match render_svg_document(&document) {
        Ok(scene) => scene,
        Err(e) => return Err(VectorLoaderError::VelloSvg(e)),
    };
    let size = svg_document_size(&document);
    Ok(VelloSvg { scene: Arc::new(scene), size })
}

/// Deserialize an SVG file from a string slice: its UTF-8 bytes are parsed,
/// so it succeeds exactly when loading those bytes does, with the same size.
pub fn load_svg_from_str(svg_str: &str) -> (asset: Result<VelloSvg, VectorLoaderError>)
    ensures
        asset is Ok == svg_parses(svg_str.spec_bytes()),
        asset matches Ok(a) ==> a.size == svg_size(svg_str.spec_bytes()),
        asset is Err ==> asset->Err_0 is VelloSvg,
{
    let bytes = svg_str.as_bytes();
    load_svg_from_bytes(bytes)
}

} // verus!
