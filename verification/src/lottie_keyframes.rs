//! The animated properties of a parsed Lottie document that the runtime
//! import reads, and whether their keyframes are well formed enough for it:
//! the import asserts that an easing handle given as an array has exactly
//! one component, indexes the first value of every scalar keyframe, and
//! looks back from an animated path's first keyframe when it has no start
//! shape (an index below zero, which stops a build with overflow checks).
//! Documents that break one of these are found here before import. Two
//! checks reach a little further than the import: the first keyframe of an
//! animated path must give a start shape in every build, and a mask's
//! opacity is checked whenever the mask has a path, also when the import
//! would drop that path without reading the opacity.

use vstd::prelude::*;

use velato::schema::animated_properties::keyframe::Keyframe;
use velato::schema::animated_properties::keyframe_base::KeyframeBase;
use velato::schema::animated_properties::keyframe_bezier_handle::{
    KeyframeBezierHandle, KeyframeComponent,
};
use velato::schema::animated_properties::animated_property::AnimatedPropertyK;
use velato::schema::animated_properties::shape_keyframe::ShapeKeyframe;
use velato::schema::animated_properties::shape_property::{ShapeProperty, ShapePropertyK};
use velato::schema::animated_properties::value::FloatValue;
use velato::schema::constants::star_type::StarType;
use velato::schema::helpers::mask::Mask;
use velato::schema::helpers::transform::{AnyTransformP, AnyTransformR, Transform};
use velato::schema::layers::visual::VisualLayer;
use velato::schema::layers::AnyLayer;
use velato::schema::shapes::repeater::RepeaterShape;
use velato::schema::shapes::AnyShape;

verus! {

#[verifier::external_type_specification]
#[verifier::external_body]
pub struct ExFloatValue(FloatValue);

#[verifier::external_type_specification]
#[verifier::external_body]
pub struct ExKeyframe(Keyframe);

#[verifier::external_type_specification]
#[verifier::external_body]
pub struct ExKeyframeBase(KeyframeBase);

#[verifier::external_type_specification]
#[verifier::external_body]
pub struct ExKeyframeBezierHandle(KeyframeBezierHandle);

#[verifier::external_type_specification]
#[verifier::external_body]
pub struct ExShapeKeyframe(ShapeKeyframe);

#[verifier::external_type_specification]
#[verifier::external_body]
pub struct ExShapeProperty(ShapeProperty);

#[verifier::external_type_specification]
#[verifier::external_body]
pub struct ExMask(Mask);

#[verifier::external_type_specification]
#[verifier::external_body]
pub struct ExRepeaterShape(RepeaterShape);

/// The keyframes of a scalar property, if it is animated.
pub uninterp spec fn scalar_keyframes(value: FloatValue) -> Option<Seq<Keyframe>>;

/// The timing part of a keyframe.
pub uninterp spec fn keyframe_base(keyframe: Keyframe) -> KeyframeBase;

/// The number of values a keyframe gives.
pub uninterp spec fn keyframe_value_len(keyframe: Keyframe) -> nat;

/// A keyframe's incoming easing handle.
pub uninterp spec fn in_tangent(base: KeyframeBase) -> Option<KeyframeBezierHandle>;

/// A keyframe's outgoing easing handle.
pub uninterp spec fn out_tangent(base: KeyframeBase) -> Option<KeyframeBezierHandle>;

/// The length of a handle's x component when it is an array (`None` for a
/// single number).
pub uninterp spec fn handle_x_len(handle: KeyframeBezierHandle) -> Option<nat>;

/// The length of a handle's y component when it is an array.
pub uninterp spec fn handle_y_len(handle: KeyframeBezierHandle) -> Option<nat>;

/// The keyframes of a path property, if it is animated.
pub uninterp spec fn path_keyframes(property: ShapeProperty) -> Option<Seq<ShapeKeyframe>>;

/// The timing part of a path keyframe.
pub uninterp spec fn path_keyframe_base(keyframe: ShapeKeyframe) -> KeyframeBase;

/// Whether a path keyframe gives a start shape.
pub uninterp spec fn path_keyframe_has_start(keyframe: ShapeKeyframe) -> bool;

/// The single rotation of a transform, or the z rotation of a split one.
pub uninterp spec fn rotation_value(transform: Transform) -> Option<FloatValue>;

/// The x and y values of a transform's split position.
pub uninterp spec fn split_position_values(transform: Transform) -> Seq<FloatValue>;

/// The skew, skew axis and opacity a transform gives, in that order.
pub uninterp spec fn transform_extras(transform: Transform) -> Seq<FloatValue>;

/// The masks of a layer.
pub uninterp spec fn layer_masks(visual: VisualLayer) -> Seq<Mask>;

/// A mask's path.
pub uninterp spec fn mask_path(mask: Mask) -> Option<ShapeProperty>;

/// A mask's opacity.
pub uninterp spec fn mask_opacity(mask: Mask) -> Option<FloatValue>;

/// The time remapping of a precomposition layer.
pub uninterp spec fn time_remap(layer: AnyLayer) -> Option<FloatValue>;

/// The scalar properties that a shape of its kind always carries: a fill's
/// opacity, a stroke's width and opacity, a gradient stroke's width, a
/// rectangle's corner radius, a star's outer radius, outer roundness,
/// rotation and points, a trim's start, end and offset.
pub uninterp spec fn shape_scalars(shape: AnyShape) -> Seq<FloatValue>;

/// The colour keyframes of a gradient fill or stroke, if animated.
pub uninterp spec fn gradient_keyframes(shape: AnyShape) -> Option<Seq<Keyframe>>;

/// The path property of a path shape.
pub uninterp spec fn path_property(shape: AnyShape) -> Option<ShapeProperty>;

/// Whether a polystar shape is a polygon.
pub uninterp spec fn star_is_polygon(shape: AnyShape) -> Option<bool>;

/// The inner radius and inner roundness a polystar gives, in that order.
pub uninterp spec fn star_inner(shape: AnyShape) -> Seq<FloatValue>;

/// The repeater of a repeater shape.
pub uninterp spec fn repeater_of(shape: AnyShape) -> Option<RepeaterShape>;

/// A repeater's `hidden` flag.
pub uninterp spec fn repeater_hidden(repeater: RepeaterShape) -> Option<bool>;

/// A repeater's transform.
pub uninterp spec fn repeater_transform(repeater: RepeaterShape) -> Transform;

/// A repeater's copies, and the offset, start and end opacity it gives.
pub uninterp spec fn repeater_scalars(repeater: RepeaterShape) -> Seq<FloatValue>;

/// Trusted: the keyframes of a scalar property's `AnimatedValue`; `None`
/// for a static value.
#[verifier::external_body]
fn read_scalar_keyframes(value: &FloatValue) -> (keyframes: Option<&Vec<Keyframe>>)
    ensures
        match keyframes {
            Some(v) => scalar_keyframes(*value) == Some(v@),
            None => scalar_keyframes(*value) is None,
        },
{
    match &value.animated_property.value {
        AnimatedPropertyK::AnimatedValue(keyframes) => Some(keyframes),
        AnimatedPropertyK::Static(_) => None,
    }
}

/// Trusted: reads a keyframe's `base` field.
#[verifier::external_body]
fn read_keyframe_base(keyframe: &Keyframe) -> (base: &KeyframeBase)
    ensures
        *base == keyframe_base(*keyframe),
{
    &keyframe.base
}

/// Trusted: the length of a keyframe's `value` vector.
#[verifier::external_body]
fn read_keyframe_value_len(keyframe: &Keyframe) -> (len: usize)
    ensures
        len as nat == keyframe_value_len(*keyframe),
{
    keyframe.value.len()
}

/// Trusted: reads a keyframe base's `in_tangent` field.
#[verifier::external_body]
fn read_in_tangent(base: &KeyframeBase) -> (handle: Option<&KeyframeBezierHandle>)
    ensures
        match handle {
            Some(h) => in_tangent(*base) == Some(*h),
            None => in_tangent(*base) is None,
        },
{
    base.in_tangent.as_ref()
}

/// Trusted: reads a keyframe base's `out_tangent` field.
#[verifier::external_body]
fn read_out_tangent(base: &KeyframeBase) -> (handle: Option<&KeyframeBezierHandle>)
    ensures
        match handle {
            Some(h) => out_tangent(*base) == Some(*h),
            None => out_tangent(*base) is None,
        },
{
    base.out_tangent.as_ref()
}

/// Trusted: the length of a handle's x component if it is an array.
#[verifier::external_body]
fn read_handle_x_len(handle: &KeyframeBezierHandle) -> (len: Option<usize>)
    ensures
        match len {
            Some(n) => handle_x_len(*handle) == Some(n as nat),
            None => handle_x_len(*handle) is None,
        },
{
    match &handle.x_coordinate {
        KeyframeComponent::ArrayOfValues(values) => Some(values.len()),
        KeyframeComponent::SingleValue(_) => None,
    }
}

/// Trusted: the length of a handle's y component if it is an array.
#[verifier::external_body]
fn read_handle_y_len(handle: &KeyframeBezierHandle) -> (len: Option<usize>)
    ensures
        match len {
            Some(n) => handle_y_len(*handle) == Some(n as nat),
            None => handle_y_len(*handle) is None,
        },
{
    match &handle.y_coordinate {
        KeyframeComponent::ArrayOfValues(values) => Some(values.len()),
        KeyframeComponent::SingleValue(_) => None,
    }
}

/// Trusted: the keyframes of a path property's `Animated` value; `None` for
/// a static path.
#[verifier::external_body]
fn read_path_keyframes(property: &ShapeProperty) -> (keyframes: Option<&Vec<ShapeKeyframe>>)
    ensures
        match keyframes {
            Some(v) => path_keyframes(*property) == Some(v@),
            None => path_keyframes(*property) is None,
        },
{
    match &property.value {
        ShapePropertyK::Animated(keyframes) => Some(keyframes),
        ShapePropertyK::Static(_) => None,
    }
}

/// Trusted: reads a path keyframe's `base` field.
#[verifier::external_body]
fn read_path_keyframe_base(keyframe: &ShapeKeyframe) -> (base: &KeyframeBase)
    ensures
        *base == path_keyframe_base(*keyframe),
{
    &keyframe.base
}

/// Trusted: whether a path keyframe's `start` field is given.
#[verifier::external_body]
fn read_path_keyframe_has_start(keyframe: &ShapeKeyframe) -> (has_start: bool)
    ensures
        has_start == path_keyframe_has_start(*keyframe),
{
    keyframe.start.is_some()
}

/// Trusted: the value of a transform's `Rotation`, or the `z_rotation` of
/// a `SplitRotation`; `None` when no rotation is given.
#[verifier::external_body]
fn read_rotation_value(transform: &Transform) -> (value: Option<&FloatValue>)
    ensures
        match value {
            Some(v) => rotation_value(*transform) == Some(*v),
            None => rotation_value(*transform) is None,
        },
{
    match &transform.rotation {
        Some(AnyTransformR::Rotation(value)) => Some(value),
        Some(AnyTransformR::SplitRotation { z_rotation, .. }) => Some(z_rotation),
        None => None,
    }
}

/// Trusted: the `x` and `y` values of a `SplitPosition`; none for a
/// position given whole.
#[verifier::external_body]
fn read_split_position_values(transform: &Transform) -> (values: Vec<&FloatValue>)
    ensures
        values@.map_values(|v: &FloatValue| *v) == split_position_values(*transform),
{
    match &transform.position {
        AnyTransformP::SplitPosition(split) => vec![&split.x, &split.y],
        AnyTransformP::Position(_) => vec![],
    }
}

/// Trusted: the `skew`, `skew_axis` and `opacity` fields that are given,
/// in that order.
#[verifier::external_body]
fn read_transform_extras(transform: &Transform) -> (values: Vec<&FloatValue>)
    ensures
        values@.map_values(|v: &FloatValue| *v) == transform_extras(*transform),
{
    [transform.skew.as_ref(), transform.skew_axis.as_ref(), transform.opacity.as_ref()].into_iter().flatten().collect()
}

/// Trusted: a visual layer's `masks_properties`, none when absent.
#[verifier::external_body]
fn read_layer_masks(visual: &VisualLayer) -> (masks: &[Mask])
    ensures
        masks@ == layer_masks(*visual),
{
    visual.masks_properties.as_deref().unwrap_or(&[])
}

/// Trusted: reads a mask's `shape` field.
#[verifier::external_body]
fn read_mask_path(mask: &Mask) -> (path: Option<&ShapeProperty>)
    ensures
        match path {
            Some(p) => mask_path(*mask) == Some(*p),
            None => mask_path(*mask) is None,
        },
{
    mask.shape.as_ref()
}

/// Trusted: reads a mask's `opacity` field.
#[verifier::external_body]
fn read_mask_opacity(mask: &Mask) -> (opacity: Option<&FloatValue>)
    ensures
        match opacity {
            Some(o) => mask_opacity(*mask) == Some(*o),
            None => mask_opacity(*mask) is None,
        },
{
    mask.opacity.as_ref()
}

/// Trusted: the `time_remap` of a precomposition layer; `None` for other
/// kinds.
#[verifier::external_body]
fn read_time_remap(layer: &AnyLayer) -> (remap: Option<&FloatValue>)
    ensures
        match remap {
            Some(r) => time_remap(*layer) == Some(*r),
            None => time_remap(*layer) is None,
        },
{
    match layer {
        AnyLayer::Precomposition(l) => l.time_remap.as_ref(),
        _ => None,
    }
}

/// Trusted: the scalar fields each shape kind always has, as listed at
/// `shape_scalars`; none for other kinds.
#[verifier::external_body]
fn read_shape_scalars(shape: &AnyShape) -> (values: Vec<&FloatValue>)
    ensures
        values@.map_values(|v: &FloatValue| *v) == shape_scalars(*shape),
{
    match shape {
        AnyShape::Fill(s) => vec![&s.shape_style.opacity],
        AnyShape::Stroke(s) => vec![&s.base_stroke.width, &s.shape_style.opacity],
        AnyShape::GradientStroke(s) => vec![&s.base_stroke.width],
        AnyShape::Rectangle(s) => vec![&s.rounded_corner_radius],
        AnyShape::PolyStar(s) => vec![&s.outer_radius, &s.outer_roundness, &s.rotation, &s.points],
        AnyShape::Trim(s) => vec![&s.start, &s.end, &s.offset],
        _ => vec![],
    }
}

/// Trusted: the keyframes of the `gradient.colors` of a gradient fill or
/// stroke when they are animated; `None` otherwise.
#[verifier::external_body]
fn read_gradient_keyframes(shape: &AnyShape) -> (keyframes: Option<&Vec<Keyframe>>)
    ensures
        match keyframes {
            Some(v) => gradient_keyframes(*shape) == Some(v@),
            None => gradient_keyframes(*shape) is None,
        },
{
    let colors = match shape {
        AnyShape::GradientFill(s) => &s.gradient.colors,
        AnyShape::GradientStroke(s) => &s.gradient.colors,
        _ => return None,
    };
    match &colors.colors.animated_property.value {
        AnimatedPropertyK::AnimatedValue(keyframes) => Some(keyframes),
        AnimatedPropertyK::Static(_) => None,
    }
}

/// Trusted: the `shape_property` of a path shape; `None` for other kinds.
#[verifier::external_body]
fn read_path_property(shape: &AnyShape) -> (property: Option<&ShapeProperty>)
    ensures
        match property {
            Some(p) => path_property(*shape) == Some(*p),
            None => path_property(*shape) is None,
        },
{
    match shape {
        AnyShape::Path(s) => Some(&s.shape_property),
        _ => None,
    }
}

/// Trusted: whether a polystar's `star_type` is `Polygon`; `None` for other
/// kinds.
#[verifier::external_body]
fn read_star_is_polygon(shape: &AnyShape) -> (polygon: Option<bool>)
    ensures
        polygon == star_is_polygon(*shape),
{
    match shape {
        AnyShape::PolyStar(s) => Some(matches!(s.star_type, StarType::Polygon)),
        _ => None,
    }
}

/// Trusted: the `inner_radius` and `inner_roundness` a polystar gives, in
/// that order; none for other kinds.
#[verifier::external_body]
fn read_star_inner(shape: &AnyShape) -> (values: Vec<&FloatValue>)
    ensures
        values@.map_values(|v: &FloatValue| *v) == star_inner(*shape),
{
    match shape {
        AnyShape::PolyStar(s) => [s.inner_radius.as_ref(), s.inner_roundness.as_ref()].into_iter().flatten().collect(),
        _ => vec![],
    }
}

/// Trusted: the repeater of a repeater shape; `None` for other kinds.
#[verifier::external_body]
fn read_repeater(shape: &AnyShape) -> (repeater: Option<&RepeaterShape>)
    ensures
        match repeater {
            Some(r) => repeater_of(*shape) == Some(*r),
            None => repeater_of(*shape) is None,
        },
{
    match shape {
        AnyShape::Repeater(r) => Some(r),
        _ => None,
    }
}

/// Trusted: reads a repeater's `modifier.graphic_element.hidden` field.
#[verifier::external_body]
fn read_repeater_hidden(repeater: &RepeaterShape) -> (hidden: Option<bool>)
    ensures
        hidden == repeater_hidden(*repeater),
{
    repeater.modifier.graphic_element.hidden
}

/// Trusted: reads a repeater's `transform.transform.transform` field.
#[verifier::external_body]
fn read_repeater_transform(repeater: &RepeaterShape) -> (transform: &Transform)
    ensures
        *transform == repeater_transform(*repeater),
{
    &repeater.transform.transform.transform
}

/// Trusted: a repeater's `copies`, then the `offset`, `start_opacity` and
/// `end_opacity` that are given.
#[verifier::external_body]
fn read_repeater_scalars(repeater: &RepeaterShape) -> (values: Vec<&FloatValue>)
    ensures
        values@.map_values(|v: &FloatValue| *v) == repeater_scalars(*repeater),
{
    let t = &repeater.transform;
    [Some(&repeater.copies), repeater.offset.as_ref(), t.start_opacity.as_ref(), t.end_opacity.as_ref()].into_iter().flatten().collect()
}

/// Whether the import accepts an easing handle: each component is a single
/// number or an array of exactly one.
pub open spec fn handle_ok(handle: KeyframeBezierHandle) -> bool {
    &&& (handle_x_len(handle) is None || handle_x_len(handle) == Some(1nat))
    &&& (handle_y_len(handle) is None || handle_y_len(handle) == Some(1nat))
}

/// Whether the import accepts a keyframe's easing handles.
pub open spec fn tangents_ok(base: KeyframeBase) -> bool {
    &&& (in_tangent(base) matches Some(h) ==> handle_ok(h))
    &&& (out_tangent(base) matches Some(h) ==> handle_ok(h))
}

/// Whether the import accepts a scalar property: every keyframe has
/// acceptable handles and at least one value.
pub open spec fn scalar_ok(value: FloatValue) -> bool {
    match scalar_keyframes(value) {
        Some(ks) => forall|i: int|
            0 <= i < ks.len() ==> tangents_ok(keyframe_base(#[trigger] ks[i]))
                && keyframe_value_len(ks[i]) >= 1,
        None => true,
    }
}

/// Whether the import accepts every scalar property of a list.
pub open spec fn scalars_ok(values: Seq<FloatValue>) -> bool {
    forall|i: int| 0 <= i < values.len() ==> scalar_ok(#[trigger] values[i])
}

/// Whether the import accepts the colour keyframes of a gradient shape.
pub open spec fn gradient_ok(shape: AnyShape) -> bool {
    match gradient_keyframes(shape) {
        Some(ks) => forall|i: int| 0 <= i < ks.len() ==> tangents_ok(keyframe_base(#[trigger] ks[i])),
        None => true,
    }
}

/// Whether the import accepts a path property: every keyframe has
/// acceptable handles, and the first one gives a start shape.
pub open spec fn path_ok(property: ShapeProperty) -> bool {
    match path_keyframes(property) {
        Some(ks) => forall|i: int|
            0 <= i < ks.len() ==> tangents_ok(path_keyframe_base(#[trigger] ks[i])) && (i == 0
                ==> path_keyframe_has_start(ks[i])),
        None => true,
    }
}

/// Whether the import accepts the scalars of a layer or group transform:
/// its rotation, split position values, skew, skew axis and opacity.
pub open spec fn transform_scalars_ok(transform: Transform) -> bool {
    &&& (rotation_value(transform) matches Some(r) ==> scalar_ok(r))
    &&& scalars_ok(split_position_values(transform))
    &&& scalars_ok(transform_extras(transform))
}

/// Whether the import accepts a layer's masks: the path of each mask that
/// has one, and then its opacity.
pub open spec fn masks_ok(masks: Seq<Mask>) -> bool {
    forall|i: int|
        0 <= i < masks.len() ==> match mask_path(#[trigger] masks[i]) {
            Some(p) => path_ok(p) && (mask_opacity(masks[i]) matches Some(o) ==> scalar_ok(o)),
            None => true,
        }
}

/// Whether the import accepts a repeater: a hidden one is not read; else its
/// rotation, split position values, copies, offset and opacities.
pub open spec fn repeater_ok(repeater: RepeaterShape) -> bool {
    repeater_hidden(repeater) == Some(true) || {
        let t = repeater_transform(repeater);
        &&& (rotation_value(t) matches Some(r) ==> scalar_ok(r))
        &&& scalars_ok(split_position_values(t))
        &&& scalars_ok(repeater_scalars(repeater))
    }
}

/// Whether the import accepts the animated properties of a shape (not the
/// items of a group, which are checked one by one).
pub open spec fn shape_properties_ok(shape: AnyShape) -> bool {
    &&& scalars_ok(shape_scalars(shape))
    &&& gradient_ok(shape)
    &&& (path_property(shape) matches Some(p) ==> path_ok(p))
    &&& (star_is_polygon(shape) == Some(false) ==> scalars_ok(star_inner(shape)))
    &&& (repeater_of(shape) matches Some(r) ==> repeater_ok(r))
}

/// Whether the import accepts the animated properties of a layer: its
/// transform and masks, and, unless hidden, a precomposition's time
/// remapping.
pub open spec fn layer_properties_ok(layer: AnyLayer, visual: VisualLayer, hidden: bool) -> bool {
    &&& transform_scalars_ok(layer_transform_of(visual))
    &&& masks_ok(layer_masks(visual))
    &&& (!hidden ==> (time_remap(layer) matches Some(r) ==> scalar_ok(r)))
}

/// A layer's transform (the name shared with the layer outline).
pub open spec fn layer_transform_of(visual: VisualLayer) -> Transform {
    crate::lottie_schema::layer_transform(visual)
}

fn handle_supported(handle: &KeyframeBezierHandle) -> (ok: bool)
    ensures
        ok == handle_ok(*handle),
{
    let x_ok = match read_handle_x_len(handle) {
        Some(n) => n == 1,
        None => true,
    };
    let y_ok = match read_handle_y_len(handle) {
        Some(n) => n == 1,
        None => true,
    };
    x_ok && y_ok
}

fn tangents_supported(base: &KeyframeBase) -> (ok: bool)
    ensures
        ok == tangents_ok(*base),
{
    let in_ok = match read_in_tangent(base) {
        Some(h) => handle_supported(h),
        None => true,
    };
    let out_ok = match read_out_tangent(base) {
        Some(h) => handle_supported(h),
        None => true,
    };
    in_ok && out_ok
}

/// Whether the import accepts a scalar property.
pub fn scalar_supported(value: &FloatValue) -> (ok: bool)
    ensures
        ok == scalar_ok(*value),
{
    let ks = match read_scalar_keyframes(value) {
        None => {
            return true;
        },
        Some(ks) => ks,
    };
    let mut i: usize = 0;
    while i < ks.len()
        invariant
            i <= ks@.len(),
            scalar_keyframes(*value) == Some(ks@),
            forall|j: int|
                0 <= j < i ==> tangents_ok(keyframe_base(#[trigger] ks@[j])) && keyframe_value_len(
                    ks@[j],
                ) >= 1,
        decreases ks@.len() - i,
    {
        let k = &ks[i];
        if !tangents_supported(read_keyframe_base(k)) || read_keyframe_value_len(k) == 0 {
            proof {
                assert(!(tangents_ok(keyframe_base(ks@[i as int])) && keyframe_value_len(ks@[i as int])
                    >= 1));
                let kss = scalar_keyframes(*value)->0;
                assert(kss == ks@);
                assert(kss[i as int] == ks@[i as int]);
                assert(!scalar_ok(*value));
            }
            return false;
        }
        i = i + 1;
    }
    true
}

fn scalars_supported(values: &Vec<&FloatValue>) -> (ok: bool)
    ensures
        ok == scalars_ok(values@.map_values(|v: &FloatValue| *v)),
{
    let ghost vs = values@.map_values(|v: &FloatValue| *v);
    let mut i: usize = 0;
    while i < values.len()
        invariant
            i <= values@.len(),
            vs == values@.map_values(|v: &FloatValue| *v),
            forall|j: int| 0 <= j < i ==> scalar_ok(#[trigger] vs[j]),
        decreases values@.len() - i,
    {
        if !scalar_supported(values[i]) {
            assert(vs[i as int] == *values@[i as int]);
            return false;
        }
        assert(vs[i as int] == *values@[i as int]);
        i = i + 1;
    }
    true
}

fn gradient_supported(shape: &AnyShape) -> (ok: bool)
    ensures
        ok == gradient_ok(*shape),
{
    let ks = match read_gradient_keyframes(shape) {
        None => {
            return true;
        },
        Some(ks) => ks,
    };
    let mut i: usize = 0;
    while i < ks.len()
        invariant
            i <= ks@.len(),
            gradient_keyframes(*shape) == Some(ks@),
            forall|j: int| 0 <= j < i ==> tangents_ok(keyframe_base(#[trigger] ks@[j])),
        decreases ks@.len() - i,
    {
        if !tangents_supported(read_keyframe_base(&ks[i])) {
            proof {
                let kss = gradient_keyframes(*shape)->0;
                assert(kss[i as int] == ks@[i as int]);
                assert(!gradient_ok(*shape));
            }
            return false;
        }
        i = i + 1;
    }
    true
}

fn path_supported(property: &ShapeProperty) -> (ok: bool)
    ensures
        ok == path_ok(*property),
{
    let ks = match read_path_keyframes(property) {
        None => {
            return true;
        },
        Some(ks) => ks,
    };
    let mut i: usize = 0;
    while i < ks.len()
        invariant
            i <= ks@.len(),
            path_keyframes(*property) == Some(ks@),
            forall|j: int|
                0 <= j < i ==> tangents_ok(path_keyframe_base(#[trigger] ks@[j])) && (j == 0
                    ==> path_keyframe_has_start(ks@[j])),
        decreases ks@.len() - i,
    {
        let k = &ks[i];
        if !tangents_supported(read_path_keyframe_base(k)) {
            proof {
                let kss = path_keyframes(*property)->0;
                assert(kss[i as int] == ks@[i as int]);
                assert(!path_ok(*property));
            }
            return false;
        }
        if i == 0 && !read_path_keyframe_has_start(k) {
            proof {
                let kss = path_keyframes(*property)->0;
                assert(kss[0] == ks@[0]);
                assert(!path_keyframe_has_start(kss[0]));
                assert(!path_ok(*property));
            }
            return false;
        }
        i = i + 1;
    }
    true
}

/// Whether the import accepts the scalars of a layer or group transform.
pub fn transform_scalars_supported(transform: &Transform) -> (ok: bool)
    ensures
        ok == transform_scalars_ok(*transform),
{
    let rotation_ok = match read_rotation_value(transform) {
        Some(r) => scalar_supported(r),
        None => true,
    };
    rotation_ok && scalars_supported(&read_split_position_values(transform)) && scalars_supported(
        &read_transform_extras(transform),
    )
}

fn masks_supported(masks: &[Mask]) -> (ok: bool)
    ensures
        ok == masks_ok(masks@),
{
    let mut i: usize = 0;
    while i < masks.len()
        invariant
            i <= masks@.len(),
            forall|j: int|
                0 <= j < i ==> match mask_path(#[trigger] masks@[j]) {
                    Some(p) => path_ok(p) && (mask_opacity(masks@[j]) matches Some(o) ==> scalar_ok(
                        o,
                    )),
                    None => true,
                },
        decreases masks@.len() - i,
    {
        let m = &masks[i];
        match read_mask_path(m) {
            Some(p) => {
                if !path_supported(p) {
                    return false;
                }
                match read_mask_opacity(m) {
                    Some(o) => {
                        if !scalar_supported(o) {
                            return false;
                        }
                    },
                    None => {},
                }
            },
            None => {},
        }
        i = i + 1;
    }
    true
}

fn repeater_supported(repeater: &RepeaterShape) -> (ok: bool)
    ensures
        ok == repeater_ok(*repeater),
{
    match read_repeater_hidden(repeater) {
        Some(true) => {
            return true;
        },
        _ => {},
    }
    let t = read_repeater_transform(repeater);
    let rotation_ok = match read_rotation_value(t) {
        Some(r) => scalar_supported(r),
        None => true,
    };
    rotation_ok && scalars_supported(&read_split_position_values(t)) && scalars_supported(
        &read_repeater_scalars(repeater),
    )
}

/// Whether the import accepts the animated properties of a shape.
pub fn shape_properties_supported(shape: &AnyShape) -> (ok: bool)
    ensures
        ok == shape_properties_ok(*shape),
{
    if !scalars_supported(&read_shape_scalars(shape)) || !gradient_supported(shape) {
        return false;
    }
    match read_path_property(shape) {
        Some(p) => {
            if !path_supported(p) {
                return false;
            }
        },
        None => {},
    }
    match read_star_is_polygon(shape) {
        Some(false) => {
            if !scalars_supported(&read_star_inner(shape)) {
                return false;
            }
        },
        _ => {},
    }
    match read_repeater(shape) {
        Some(r) => repeater_supported(r),
        None => true,
    }
}

/// Whether the import accepts the animated properties of a layer.
pub fn layer_properties_supported(layer: &AnyLayer, visual: &VisualLayer, hidden: bool) -> (ok: bool)
    requires
        *visual == crate::lottie_schema::visual_part(*layer),
    ensures
        ok == layer_properties_ok(*layer, *visual, hidden),
{
    if !transform_scalars_supported(crate::lottie_schema::read_layer_transform(visual)) {
        return false;
    }
    if !masks_supported(read_layer_masks(visual)) {
        return false;
    }
    if hidden {
        return true;
    }
    match read_time_remap(layer) {
        Some(r) => scalar_supported(r),
        None => true,
    }
}

} // verus!
