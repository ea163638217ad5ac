//! The parsed form of a Lottie document, and which documents the runtime
//! import can convert: it stops, rather than returning, on a layer transform
//! without a single rotation, on a group transform with a split rotation or
//! position, on the `Add` and `HardMix` layer blend modes, and on the
//! malformed keyframes described in `lottie_keyframes`. Those documents are
//! found here before conversion.

use vstd::prelude::*;

use crate::lottie_keyframes::{
    layer_properties_supported, shape_properties_supported, transform_scalars_supported,
};

use velato::schema::assets::AnyAsset;
use velato::schema::helpers::transform::{AnyTransformP, AnyTransformR};
use velato::schema::helpers::transform::Transform;
use velato::schema::layers::visual::VisualLayer;
use velato::schema::layers::AnyLayer;
use velato::schema::shapes::AnyShape;
use velato::schema::Animation;

verus! {

#[verifier::external_type_specification]
#[verifier::external_body]
pub struct ExAnimation(Animation);

#[verifier::external_type_specification]
#[verifier::external_body]
pub struct ExAnyLayer(AnyLayer);

#[verifier::external_type_specification]
#[verifier::external_body]
pub struct ExAnyAsset(AnyAsset);

#[verifier::external_type_specification]
#[verifier::external_body]
pub struct ExAnyShape(AnyShape);

#[verifier::external_type_specification]
#[verifier::external_body]
pub struct ExVisualLayer(VisualLayer);

#[verifier::external_type_specification]
#[verifier::external_body]
pub struct ExTransform(Transform);

/// How a transform gives its rotation.
#[derive(Clone, Copy, Debug, PartialEq, Eq, Structural)]
pub enum RotationKind {
    /// No rotation is given.
    Missing,
    /// One rotation value.
    Single,
    /// Rotations split by axis.
    Split,
}

/// The code of the `Add` blend mode in a Lottie document (`bm`).
pub const BLEND_ADD: u8 = 16;

/// The code of the `HardMix` blend mode in a Lottie document (`bm`).
pub const BLEND_HARD_MIX: u8 = 17;

/// The parsed document of some bytes.
pub uninterp spec fn lottie_schema(bytes: Seq<u8>) -> Animation;

/// The layers of a document's main composition.
pub uninterp spec fn main_layers(animation: Animation) -> Seq<AnyLayer>;

/// The assets of a document, if it lists any.
pub uninterp spec fn asset_list(animation: Animation) -> Option<Seq<AnyAsset>>;

/// The layers of an asset that is a precomposition.
pub uninterp spec fn precomp_layers(asset: AnyAsset) -> Option<Seq<AnyLayer>>;

/// The visual part of a layer (of any kind).
pub uninterp spec fn visual_part(layer: AnyLayer) -> VisualLayer;

/// The shapes of a layer that is a shape layer.
pub uninterp spec fn shape_list(layer: AnyLayer) -> Option<Seq<AnyShape>>;

/// A layer's `hidden` flag.
pub uninterp spec fn hidden_flag(visual: VisualLayer) -> Option<bool>;

/// A layer's transform.
pub uninterp spec fn layer_transform(visual: VisualLayer) -> Transform;

/// The code of a layer's blend mode, if it names one.
pub uninterp spec fn blend_mode(visual: VisualLayer) -> Option<u8>;

/// How a transform gives its rotation.
pub uninterp spec fn rotation_kind(transform: Transform) -> RotationKind;

/// Whether a transform gives its position split by axis.
pub uninterp spec fn position_split(transform: Transform) -> bool;

/// The items of a shape that is a group.
pub uninterp spec fn group_items(shape: AnyShape) -> Option<Seq<AnyShape>>;

/// The transform of a shape that is a group transform.
pub uninterp spec fn shape_transform(shape: AnyShape) -> Option<Transform>;

/// Parses Lottie JSON into its document form.
///
/// Trusted: calls `velato::schema::Animation::from_slice` and wraps a serde
/// error as `velato::Error::Json`. This is the parse that
/// `velato::Composition::from_slice` makes first, so it succeeds exactly when
/// that does (`lottie_parses`); the document is a function of the bytes,
/// named `lottie_schema`, and so is the error, `lottie_parse_error`. Empty
/// input is no JSON value and is rejected.
#[verifier::external_body]
pub(crate) fn parse_lottie_schema(bytes: &[u8]) -> (animation: Result<Animation, velato::Error>)
    ensures
        animation is Ok == crate::lottie::lottie_parses(bytes@),
        animation matches Ok(a) ==> a == lottie_schema(bytes@),
        animation matches Err(e) ==> e == crate::lottie::lottie_parse_error(bytes@),
        bytes@.len() == 0 ==> animation is Err,
{
    Animation::from_slice(bytes).map_err(velato::Error::from)
}

/// Trusted: reads the document's `composition.layers` field.
#[verifier::external_body]
fn read_main_layers(animation: &Animation) -> (layers: &Vec<AnyLayer>)
    ensures
        layers@ == main_layers(*animation),
{
    &animation.composition.layers
}

/// Trusted: reads the document's `assets` field.
#[verifier::external_body]
fn read_assets(animation: &Animation) -> (assets: Option<&Vec<AnyAsset>>)
    ensures
        match assets {
            Some(v) => asset_list(*animation) == Some(v@),
            None => asset_list(*animation) is None,
        },
{
    animation.assets.as_ref()
}

/// Trusted: the `composition.layers` of a precomposition asset; `None` for
/// an image asset.
#[verifier::external_body]
fn read_precomp_layers(asset: &AnyAsset) -> (layers: Option<&Vec<AnyLayer>>)
    ensures
        match layers {
            Some(v) => precomp_layers(*asset) == Some(v@),
            None => precomp_layers(*asset) is None,
        },
{
    match asset {
        AnyAsset::Precomposition(precomp) => Some(&precomp.composition.layers),
        AnyAsset::Image(_) => None,
    }
}

/// Trusted: the `visual_layer` field of whichever kind of layer it is.
#[verifier::external_body]
fn read_visual(layer: &AnyLayer) -> (visual: &VisualLayer)
    ensures
        *visual == visual_part(*layer),
{
    match layer {
        AnyLayer::Precomposition(l) => &l.visual_layer,
        AnyLayer::Solid(l) => &l.visual_layer,
        AnyLayer::Shape(l) => &l.visual_layer,
        AnyLayer::Null(l) => &l.visual_layer,
        AnyLayer::Image(l) => &l.visual_layer,
    }
}

/// Trusted: the `shapes` of a shape layer; `None` for other kinds.
#[verifier::external_body]
fn read_shapes(layer: &AnyLayer) -> (shapes: Option<&Vec<AnyShape>>)
    ensures
        match shapes {
            Some(v) => shape_list(*layer) == Some(v@),
            None => shape_list(*layer) is None,
        },
{
    match layer {
        AnyLayer::Shape(l) => Some(&l.shapes),
        _ => None,
    }
}

/// Trusted: reads the `layer.hidden` field of a visual layer.
#[verifier::external_body]
fn read_hidden(visual: &VisualLayer) -> (hidden: Option<bool>)
    ensures
        hidden == hidden_flag(*visual),
{
    visual.layer.hidden
}

/// Trusted: reads the `transform` field of a visual layer.
#[verifier::external_body]
pub(crate) fn read_layer_transform(visual: &VisualLayer) -> (transform: &Transform)
    ensures
        *transform == layer_transform(*visual),
{
    &visual.transform
}

/// Trusted: reads the `blend_mode` field of a visual layer as its code
/// (the enum's `u8` representation, which is the number the document holds).
#[verifier::external_body]
fn read_blend_mode(visual: &VisualLayer) -> (mode: Option<u8>)
    ensures
        mode == blend_mode(*visual),
{
    visual.blend_mode.as_ref().map(|mode| mode.clone() as u8)
}

/// Trusted: tells apart the variants of a transform's `rotation` field.
#[verifier::external_body]
fn read_rotation_kind(transform: &Transform) -> (kind: RotationKind)
    ensures
        kind == rotation_kind(*transform),
{
    match &transform.rotation {
        None => RotationKind::Missing,
        Some(AnyTransformR::Rotation(_)) => RotationKind::Single,
        Some(AnyTransformR::SplitRotation { .. }) => RotationKind::Split,
    }
}

/// Trusted: tells apart the variants of a transform's `position` field.
#[verifier::external_body]
fn read_position_split(transform: &Transform) -> (split: bool)
    ensures
        split == position_split(*transform),
{
    match &transform.position {
        AnyTransformP::Position(_) => false,
        AnyTransformP::SplitPosition(_) => true,
    }
}

/// Trusted: the `shapes` of a group shape; `None` for other shapes.
#[verifier::external_body]
fn read_group_items(shape: &AnyShape) -> (items: Option<&Vec<AnyShape>>)
    ensures
        match items {
            Some(v) => group_items(*shape) == Some(v@),
            None => group_items(*shape) is None,
        },
{
    match shape {
        AnyShape::Group(group) => Some(&group.shapes),
        _ => None,
    }
}

/// Trusted: the `transform` of a group transform shape; `None` for other
/// shapes.
#[verifier::external_body]
fn read_shape_transform(shape: &AnyShape) -> (transform: Option<&Transform>)
    ensures
        match transform {
            Some(t) => shape_transform(*shape) == Some(*t),
            None => shape_transform(*shape) is None,
        },
{
    match shape {
        AnyShape::Transform(t) => Some(&t.transform),
        _ => None,
    }
}

/// How deep groups may nest inside a shape layer for the document to be
/// imported.
pub const GROUP_DEPTH_LIMIT: usize = 64;

/// Whether a layer transform can be imported: it gives one rotation value.
pub open spec fn layer_transform_ok(t: Transform) -> bool {
    rotation_kind(t) == RotationKind::Single
}

/// Whether a layer blend mode can be imported: neither `Add` nor `HardMix`.
pub open spec fn blend_ok(mode: Option<u8>) -> bool {
    mode != Some(BLEND_ADD) && mode != Some(BLEND_HARD_MIX)
}

/// Whether a group transform can be imported: neither its rotation nor its
/// position is split.
pub open spec fn group_transform_ok(t: Transform) -> bool {
    rotation_kind(t) != RotationKind::Split && !position_split(t)
}

/// Whether one item of a group can be imported: a group transform must be
/// importable, and a nested group's items must be, nested at most `depth`
/// further levels.
pub open spec fn item_ok(item: AnyShape, depth: nat) -> bool
    decreases depth, 0nat,
{
    match shape_transform(item) {
        Some(t) => group_transform_ok(t) && crate::lottie_keyframes::transform_scalars_ok(t),
        None => crate::lottie_keyframes::shape_properties_ok(item) && match group_items(item) {
            Some(sub) => depth > 0 && items_ok(sub, (depth - 1) as nat),
            None => true,
        },
    }
}

/// Whether all items of a group can be imported.
pub open spec fn items_ok(items: Seq<AnyShape>, depth: nat) -> bool
    decreases depth, 1nat,
{
    forall|i: int| 0 <= i < items.len() ==> item_ok(#[trigger] items[i], depth)
}

/// Whether the shapes of a shape layer can be imported: the animated
/// properties of each, and the items of each group among them (a transform
/// outside any group is not read).
pub open spec fn layer_shapes_ok(shapes: Seq<AnyShape>) -> bool {
    forall|i: int|
        0 <= i < shapes.len() ==> crate::lottie_keyframes::shape_properties_ok(#[trigger] shapes[i])
            && match group_items(shapes[i]) {
            Some(sub) => items_ok(sub, GROUP_DEPTH_LIMIT as nat),
            None => true,
        }
}

/// Whether a layer can be imported. Every layer's transform, blend mode and
/// masks are read; the shapes only of a shape layer that is not hidden.
pub open spec fn layer_ok(layer: AnyLayer) -> bool {
    let visual = visual_part(layer);
    &&& layer_transform_ok(layer_transform(visual))
    &&& blend_ok(blend_mode(visual))
    &&& crate::lottie_keyframes::layer_properties_ok(layer, visual, hidden_flag(visual) == Some(true))
    &&& hidden_flag(visual) != Some(true) ==> match shape_list(layer) {
        Some(shapes) => layer_shapes_ok(shapes),
        None => true,
    }
}

/// Whether every layer of a list can be imported.
pub open spec fn layers_ok(layers: Seq<AnyLayer>) -> bool {
    forall|i: int| 0 <= i < layers.len() ==> layer_ok(#[trigger] layers[i])
}

/// Whether a parsed document can be imported: the layers of its main
/// composition and of every precomposition asset can.
pub open spec fn importable(animation: Animation) -> bool {
    &&& layers_ok(main_layers(animation))
    &&& match asset_list(animation) {
        Some(assets) => forall|i: int|
            0 <= i < assets.len() ==> match precomp_layers(#[trigger] assets[i]) {
                Some(layers) => layers_ok(layers),
                None => true,
            },
        None => true,
    }
}

fn item_supported(item: &AnyShape, depth: usize) -> (ok: bool)
    ensures
        ok == item_ok(*item, depth as nat),
    decreases depth, 0nat,
{
    match read_shape_transform(item) {
        Some(t) => read_rotation_kind(t) != RotationKind::Split && !read_position_split(t)
            && transform_scalars_supported(t),
        None => shape_properties_supported(item) && match read_group_items(item) {
            Some(sub) => depth > 0 && items_supported(sub, depth - 1),
            None => true,
        },
    }
}

fn items_supported(items: &Vec<AnyShape>, depth: usize) -> (ok: bool)
    ensures
        ok == items_ok(items@, depth as nat),
    decreases depth, 1nat,
{
    let mut i: usize = 0;
    while i < items.len()
        invariant
            i <= items@.len(),
            forall|j: int| 0 <= j < i ==> item_ok(#[trigger] items@[j], depth as nat),
        decreases items@.len() - i,
    {
        if !item_supported(&items[i], depth) {
            return false;
        }
        i = i + 1;
    }
    true
}

fn layer_supported(layer: &AnyLayer) -> (ok: bool)
    ensures
        ok == layer_ok(*layer),
{
    let visual = read_visual(layer);
    if read_rotation_kind(read_layer_transform(visual)) != RotationKind::Single {
        return false;
    }
    match read_blend_mode(visual) {
        Some(code) => {
            if code == BLEND_ADD || code == BLEND_HARD_MIX {
                return false;
            }
        },
        None => {},
    }
    let hidden = match read_hidden(visual) {
        Some(true) => true,
        _ => false,
    };
    if !layer_properties_supported(layer, visual, hidden) {
        return false;
    }
    if hidden {
        return true;
    }
    let shapes = match read_shapes(layer) {
        None => {
            return true;
        },
        Some(shapes) => shapes,
    };
    let mut i: usize = 0;
    while i < shapes.len()
        invariant
            i <= shapes@.len(),
            hidden_flag(visual_part(*layer)) != Some(true),
            shape_list(*layer) == Some(shapes@),
            forall|j: int|
                0 <= j < i ==> crate::lottie_keyframes::shape_properties_ok(#[trigger] shapes@[j])
                    && match group_items(shapes@[j]) {
                    Some(sub) => items_ok(sub, GROUP_DEPTH_LIMIT as nat),
                    None => true,
                },
        decreases shapes@.len() - i,
    {
        if !shape_properties_supported(&shapes[i]) {
            return false;
        }
        match read_group_items(&shapes[i]) {
            Some(sub) => {
                if !items_supported(sub, GROUP_DEPTH_LIMIT) {
                    proof {
                        assert(group_items(shapes@[i as int]) == Some(sub@));
                        assert(!layer_shapes_ok(shapes@));
                    }
                    return false;
                }
            },
            None => {},
        }
        i = i + 1;
    }
    true
}

fn layers_supported(layers: &Vec<AnyLayer>) -> (ok: bool)
    ensures
        ok == layers_ok(layers@),
{
    let mut i: usize = 0;
    while i < layers.len()
        invariant
            i <= layers@.len(),
            forall|j: int| 0 <= j < i ==> layer_ok(#[trigger] layers@[j]),
        decreases layers@.len() - i,
    {
        if !layer_supported(&layers[i]) {
            return false;
        }
        i = i + 1;
    }
    true
}

/// Whether a parsed document can be imported into a runtime composition.
pub fn lottie_importable(animation: &Animation) -> (ok: bool)
    ensures
        ok == importable(*animation),
{
    if !layers_supported(read_main_layers(animation)) {
        return false;
    }
    let assets = match read_assets(animation) {
        None => {
            return true;
        },
        Some(assets) => assets,
    };
    let mut i: usize = 0;
    while i < assets.len()
        invariant
            i <= assets@.len(),
            asset_list(*animation) == Some(assets@),
            forall|j: int|
                0 <= j < i ==> match precomp_layers(#[trigger] assets@[j]) {
                    Some(layers) => layers_ok(layers),
                    None => true,
                },
        decreases assets@.len() - i,
    {
        match read_precomp_layers(&assets[i]) {
            Some(layers) => {
                if !layers_supported(layers) {
                    return false;
                }
            },
            None => {},
        }
        i = i + 1;
    }
    true
}

} // verus!
