//! Which variable font axes and which font style a text style asks of its
//! font. Axis values are carried as the bit patterns of their `f32`s: the
//! rules here only decide which of them are passed on, and in what order.

use vstd::prelude::*;

verus! {

/// A variable font axis.
#[derive(Clone, Copy, Debug, PartialEq, Eq, Structural)]
pub enum FontAxis {
    /// Weight (`wght`).
    Weight,
    /// Width (`wdth`).
    Width,
    /// Optical size (`opsz`).
    OpticalSize,
    /// Grade (`GRAD`).
    Grade,
    /// Thick stroke (`XOPQ`).
    ThickStroke,
    /// Thin stroke (`YOPQ`).
    ThinStroke,
    /// Counter width (`XTRA`).
    CounterWidth,
    /// Uppercase height (`YTUC`).
    UppercaseHeight,
    /// Lowercase height (`YTLC`).
    LowercaseHeight,
    /// Ascender height (`YTAS`).
    AscenderHeight,
    /// Descender depth (`YTDE`).
    DescenderDepth,
    /// Figure height (`YTFI`).
    FigureHeight,
}

/// The OpenType tag of an axis.
pub open spec fn axis_tag(axis: FontAxis) -> Seq<char> {
    match axis {
        FontAxis::Weight => "wght"@,
        FontAxis::Width => "wdth"@,
        FontAxis::OpticalSize => "opsz"@,
        FontAxis::Grade => "GRAD"@,
        FontAxis::ThickStroke => "XOPQ"@,
        FontAxis::ThinStroke => "YOPQ"@,
        FontAxis::CounterWidth => "XTRA"@,
        FontAxis::UppercaseHeight => "YTUC"@,
        FontAxis::LowercaseHeight => "YTLC"@,
        FontAxis::AscenderHeight => "YTAS"@,
        FontAxis::DescenderDepth => "YTDE"@,
        FontAxis::FigureHeight => "YTFI"@,
    }
}

impl FontAxis {
    /// The axis's OpenType tag.
    pub fn tag(&self) -> (t: &'static str)
        ensures
            t@ == axis_tag(*self),
    {
        match self {
            FontAxis::Weight => "wght",
            FontAxis::Width => "wdth",
            FontAxis::OpticalSize => "opsz",
            FontAxis::Grade => "GRAD",
            FontAxis::ThickStroke => "XOPQ",
            FontAxis::ThinStroke => "YOPQ",
            FontAxis::CounterWidth => "XTRA",
            FontAxis::UppercaseHeight => "YTUC",
            FontAxis::LowercaseHeight => "YTLC",
            FontAxis::AscenderHeight => "YTAS",
            FontAxis::DescenderDepth => "YTDE",
            FontAxis::FigureHeight => "YTFI",
        }
    }
}

/// The variable axes of a font, each value as the bits of its `f32`. Each
/// axis is optional and only takes effect if the font supports it.
#[derive(Clone, Copy, Debug, PartialEq, Eq, Hash, Structural)]
pub struct FontAxisBits {
    pub weight: Option<u32>,
    pub width: Option<u32>,
    pub optical_size: Option<u32>,
    /// Mutually exclusive with `slant`: if italic is set, slant is ignored.
    pub italic: bool,
    pub slant: Option<u32>,
    pub grade: Option<u32>,
    pub thick_stroke: Option<u32>,
    pub thin_stroke: Option<u32>,
    pub counter_width: Option<u32>,
    pub uppercase_height: Option<u32>,
    pub lowercase_height: Option<u32>,
    pub ascender_height: Option<u32>,
    pub descender_depth: Option<u32>,
    pub figure_height: Option<u32>,
}

/// One variation setting: an axis and the bits of its value.
#[derive(Clone, Copy, Debug, PartialEq, Eq, Structural)]
pub struct AxisSetting {
    pub axis: FontAxis,
    pub value_bits: u32,
}

/// The font style a text style asks for, beside the variation settings.
#[derive(Clone, Copy, Debug, PartialEq, Eq, Structural)]
pub enum FontStyleChoice {
    /// The font's default style is kept.
    Unchanged,
    /// The italic style.
    Italic,
    /// The oblique style at the given angle (bits of an `f32`, in degrees).
    Oblique(u32),
}

/// The setting for `axis` if a value is given, else nothing.
pub open spec fn setting_if(axis: FontAxis, value: Option<u32>) -> Seq<AxisSetting> {
    match value {
        Some(bits) => seq![AxisSetting { axis, value_bits: bits }],
        None => Seq::empty(),
    }
}

/// The variation settings of the given axes: every axis with a value, in
/// the order weight, width, optical size, grade, thick stroke, thin stroke,
/// counter width, uppercase height, lowercase height, ascender height,
/// descender depth, figure height. Italic and slant are styles, no settings.
pub open spec fn axis_settings(a: FontAxisBits) -> Seq<AxisSetting> {
    setting_if(FontAxis::Weight, a.weight) + setting_if(FontAxis::Width, a.width) + setting_if(
        FontAxis::OpticalSize,
        a.optical_size,
    ) + setting_if(FontAxis::Grade, a.grade) + setting_if(FontAxis::ThickStroke, a.thick_stroke)
        + setting_if(FontAxis::ThinStroke, a.thin_stroke) + setting_if(
        FontAxis::CounterWidth,
        a.counter_width,
    ) + setting_if(FontAxis::UppercaseHeight, a.uppercase_height) + setting_if(
        FontAxis::LowercaseHeight,
        a.lowercase_height,
    ) + setting_if(FontAxis::AscenderHeight, a.ascender_height) + setting_if(
        FontAxis::DescenderDepth,
        a.descender_depth,
    ) + setting_if(FontAxis::FigureHeight, a.figure_height)
}

/// The style of the given axes: italic if asked for, else oblique at the
/// slant if one is given, else unchanged.
pub open spec fn style_choice(a: FontAxisBits) -> FontStyleChoice {
    if a.italic {
        FontStyleChoice::Italic
    } else {
        match a.slant {
            Some(bits) => FontStyleChoice::Oblique(bits),
            None => FontStyleChoice::Unchanged,
        }
    }
}

/// What a font receives from a text style's axes.
pub struct AxisStyling {
    /// The style to push, if any.
    pub style: FontStyleChoice,
    /// The variation settings, in order.
    pub settings: Vec<AxisSetting>,
}

fn push_setting(settings: &mut Vec<AxisSetting>, axis: FontAxis, value: Option<u32>)
    ensures
        final(settings)@ == old(settings)@ + setting_if(axis, value),
{
    if let Some(bits) = value {
        settings.push(AxisSetting { axis, value_bits: bits });
    } else {
        assert(old(settings)@ + setting_if(axis, value) =~= old(settings)@);
    }
}

/// The style and the variation settings that a text style's font axes ask
/// of the font.
pub fn variable_axes(axes: &FontAxisBits) -> (styling: AxisStyling)
    ensures
        styling.style == style_choice(*axes),
        styling.settings@ == axis_settings(*axes),
{
    let mut settings: Vec<AxisSetting> = Vec::new();
    push_setting(&mut settings, FontAxis::Weight, axes.weight);
    assert(settings@ == setting_if(FontAxis::Weight, axes.weight));
    push_setting(&mut settings, FontAxis::Width, axes.width);
    push_setting(&mut settings, FontAxis::OpticalSize, axes.optical_size);
    push_setting(&mut settings, FontAxis::Grade, axes.grade);
    push_setting(&mut settings, FontAxis::ThickStroke, axes.thick_stroke);
    push_setting(&mut settings, FontAxis::ThinStroke, axes.thin_stroke);
    push_setting(&mut settings, FontAxis::CounterWidth, axes.counter_width);
    push_setting(&mut settings, FontAxis::UppercaseHeight, axes.uppercase_height);
    push_setting(&mut settings, FontAxis::LowercaseHeight, axes.lowercase_height);
    push_setting(&mut settings, FontAxis::AscenderHeight, axes.ascender_height);
    push_setting(&mut settings, FontAxis::DescenderDepth, axes.descender_depth);
    push_setting(&mut settings, FontAxis::FigureHeight, axes.figure_height);
    let style = if axes.italic {
        FontStyleChoice::Italic
    } else {
        match axes.slant {
            Some(bits) => FontStyleChoice::Oblique(bits),
            None => FontStyleChoice::Unchanged,
        }
    };
    AxisStyling { style, settings }
}

/// Italic wins over slant: when italic is set, the slant does not change
/// what the font receives.
pub proof fn lemma_italic_ignores_slant(a: FontAxisBits, slant: Option<u32>)
    requires
        a.italic,
    ensures
        style_choice(FontAxisBits { slant, ..a }) == style_choice(a),
        style_choice(a) == FontStyleChoice::Italic,
        axis_settings(FontAxisBits { slant, ..a }) == axis_settings(a),
{
}

/// The value that the given axes hold for one axis.
pub open spec fn axis_field(a: FontAxisBits, axis: FontAxis) -> Option<u32> {
    match axis {
        FontAxis::Weight => a.weight,
        FontAxis::Width => a.width,
        FontAxis::OpticalSize => a.optical_size,
        FontAxis::Grade => a.grade,
        FontAxis::ThickStroke => a.thick_stroke,
        FontAxis::ThinStroke => a.thin_stroke,
        FontAxis::CounterWidth => a.counter_width,
        FontAxis::UppercaseHeight => a.uppercase_height,
        FontAxis::LowercaseHeight => a.lowercase_height,
        FontAxis::AscenderHeight => a.ascender_height,
        FontAxis::DescenderDepth => a.descender_depth,
        FontAxis::FigureHeight => a.figure_height,
    }
}

/// The position of an axis in the order in which settings are passed on.
pub open spec fn axis_rank(axis: FontAxis) -> int {
    match axis {
        FontAxis::Weight => 0,
        FontAxis::Width => 1,
        FontAxis::OpticalSize => 2,
        FontAxis::Grade => 3,
        FontAxis::ThickStroke => 4,
        FontAxis::ThinStroke => 5,
        FontAxis::CounterWidth => 6,
        FontAxis::UppercaseHeight => 7,
        FontAxis::LowercaseHeight => 8,
        FontAxis::AscenderHeight => 9,
        FontAxis::DescenderDepth => 10,
        FontAxis::FigureHeight => 11,
    }
}

/// `s` passes on exactly the axes of rank below `k` that have a value, each
/// with its own value, in rank order.
pub open spec fn settings_cover(a: FontAxisBits, s: Seq<AxisSetting>, k: int) -> bool {
    &&& forall|i: int|
        0 <= i < s.len() ==> axis_field(a, #[trigger] s[i].axis) == Some(s[i].value_bits)
            && axis_rank(s[i].axis) < k
    &&& forall|i: int, j: int|
        0 <= i < j < s.len() ==> axis_rank(#[trigger] s[i].axis) < axis_rank(#[trigger] s[j].axis)
    &&& forall|ax: FontAxis|
        axis_rank(ax) < k && #[trigger] axis_field(a, ax) is Some ==> s.contains(
            AxisSetting { axis: ax, value_bits: axis_field(a, ax)->0 },
        )
}

proof fn lemma_cover_step(a: FontAxisBits, s: Seq<AxisSetting>, k: int, axis: FontAxis)
    requires
        settings_cover(a, s, k),
        axis_rank(axis) == k,
    ensures
        settings_cover(a, s + setting_if(axis, axis_field(a, axis)), k + 1),
{
    let t = s + setting_if(axis, axis_field(a, axis));
    assert forall|i: int| 0 <= i < s.len() implies t[i] == s[i] by {}
    assert forall|ax: FontAxis|
        axis_rank(ax) < k + 1 && #[trigger] axis_field(a, ax) is Some implies t.contains(
            AxisSetting { axis: ax, value_bits: axis_field(a, ax)->0 },
        ) by {
        let e = AxisSetting { axis: ax, value_bits: axis_field(a, ax)->0 };
        if axis_rank(ax) < k {
            let i = choose|i: int| 0 <= i < s.len() && s[i] == e;
            assert(t[i] == e);
        } else {
            assert(ax == axis);
            assert(t[s.len() as int] == e);
        }
    }
}

/// Every variation setting carries the value of its own axis field (a
/// setting on the width axis has the bits of `width`, one on the optical
/// size axis those of `optical_size`, and so on), a setting for an axis is
/// present exactly when its field holds a value, and no axis comes twice:
/// the settings follow the fixed axis order.
pub proof fn lemma_settings_carry_their_axis(a: FontAxisBits)
    ensures
        ({
            let s = axis_settings(a);
            &&& forall|i: int|
                0 <= i < s.len() ==> axis_field(a, #[trigger] s[i].axis) == Some(s[i].value_bits)
            &&& forall|ax: FontAxis|
                (exists|i: int| 0 <= i < s.len() && #[trigger] s[i].axis == ax) <==> (axis_field(
                    a,
                    ax,
                ) is Some)
            &&& forall|i: int, j: int|
                0 <= i < j < s.len() ==> axis_rank(#[trigger] s[i].axis) < axis_rank(
                    #[trigger] s[j].axis,
                )
        }),
{
    let e = Seq::<AxisSetting>::empty();
    lemma_cover_step(a, e, 0, FontAxis::Weight);
    assert(e + setting_if(FontAxis::Weight, a.weight) =~= setting_if(FontAxis::Weight, a.weight));
    let s1 = setting_if(FontAxis::Weight, a.weight);
    lemma_cover_step(a, s1, 1, FontAxis::Width);
    let s2 = s1 + setting_if(FontAxis::Width, a.width);
    lemma_cover_step(a, s2, 2, FontAxis::OpticalSize);
    let s3 = s2 + setting_if(FontAxis::OpticalSize, a.optical_size);
    lemma_cover_step(a, s3, 3, FontAxis::Grade);
    let s4 = s3 + setting_if(FontAxis::Grade, a.grade);
    lemma_cover_step(a, s4, 4, FontAxis::ThickStroke);
    let s5 = s4 + setting_if(FontAxis::ThickStroke, a.thick_stroke);
    lemma_cover_step(a, s5, 5, FontAxis::ThinStroke);
    let s6 = s5 + setting_if(FontAxis::ThinStroke, a.thin_stroke);
    lemma_cover_step(a, s6, 6, FontAxis::CounterWidth);
    let s7 = s6 + setting_if(FontAxis::CounterWidth, a.counter_width);
    lemma_cover_step(a, s7, 7, FontAxis::UppercaseHeight);
    let s8 = s7 + setting_if(FontAxis::UppercaseHeight, a.uppercase_height);
    lemma_cover_step(a, s8, 8, FontAxis::LowercaseHeight);
    let s9 = s8 + setting_if(FontAxis::LowercaseHeight, a.lowercase_height);
    lemma_cover_step(a, s9, 9, FontAxis::AscenderHeight);
    let s10 = s9 + setting_if(FontAxis::AscenderHeight, a.ascender_height);
    lemma_cover_step(a, s10, 10, FontAxis::DescenderDepth);
    let s11 = s10 + setting_if(FontAxis::DescenderDepth, a.descender_depth);
    lemma_cover_step(a, s11, 11, FontAxis::FigureHeight);
    let s = axis_settings(a);
    assert(s == s11 + setting_if(FontAxis::FigureHeight, a.figure_height));
    assert(settings_cover(a, s, 12));
    assert forall|ax: FontAxis|
        (exists|i: int| 0 <= i < s.len() && #[trigger] s[i].axis == ax) <==> (axis_field(
            a,
            ax,
        ) is Some) by {
        if axis_field(a, ax) is Some {
            let w = AxisSetting { axis: ax, value_bits: axis_field(a, ax)->0 };
            assert(s.contains(w));
            let i = choose|i: int| 0 <= i < s.len() && s[i] == w;
            assert(s[i].axis == ax);
        }
    }
}

} // verus!
