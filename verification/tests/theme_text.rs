use bevy_vello::font_loader::{font_from_first_family, load_into_font_context};
use bevy_vello::font_axes::{variable_axes, AxisSetting, FontAxis, FontAxisBits, FontStyleChoice};
use bevy_vello::text::{AnchorFraction, VelloFont, VelloLottieAnchor, VelloTextAlign, VelloTextAnchor};
use bevy_vello::theme::{ColorPaletteSwap, LayerOutline, Theme};

#[test]
fn theme_add_edit_get() {
    let mut theme = Theme::<u32>::new().add("bg", 1).add("fg", 2).add("bg", 3);
    assert_eq!(theme.get("bg"), Some(&3));
    assert_eq!(theme.get("fg"), Some(&2));
    assert_eq!(theme.get("none"), None);
    theme.edit("fg", 5).edit("new", 6);
    assert_eq!(theme.get("fg"), Some(&5));
    assert_eq!(theme.get("new"), Some(&6));
    assert_eq!(Theme::<u32>::default().get("bg"), None);
}

#[test]
fn palette_swap_add_edit() {
    let mut swap = ColorPaletteSwap::<u8>::empty().add("layer", 1);
    swap.edit("layer", 2);
    let _ = swap;
}

#[test]
fn font_defaults_family() {
    let font = VelloFont::new(vec![1, 2, 3]);
    assert_eq!(font.family_name, "Fira Mono");
    assert_eq!(font.bytes, vec![1, 2, 3]);
}

#[test]
fn anchor_grid() {
    assert_eq!(VelloTextAnchor::default(), VelloTextAnchor::Center);
    assert_eq!(VelloTextAnchor::TopLeft.column(), AnchorFraction::Zero);
    assert_eq!(VelloTextAnchor::TopLeft.row(), AnchorFraction::Zero);
    assert_eq!(VelloTextAnchor::Center.column(), AnchorFraction::Half);
    assert_eq!(VelloTextAnchor::Right.row(), AnchorFraction::Half);
    assert_eq!(VelloTextAnchor::BottomRight.column(), AnchorFraction::Whole);
    assert_eq!(VelloTextAnchor::BottomLeft.row(), AnchorFraction::Whole);
    assert_eq!(VelloTextAlign::default(), VelloTextAlign::Start);
    assert_eq!(VelloLottieAnchor::default(), VelloLottieAnchor::Center);
}

#[test]
fn theme_get_mut_edits_in_place() {
    let mut theme = Theme::<u32>::new().add("bg", 1);
    if let Some(c) = theme.get_mut("bg") {
        *c = 10;
    }
    assert_eq!(theme.get("bg"), Some(&10));
    assert!(theme.get_mut("missing").is_none());
}

#[test]
fn variable_axes_in_fixed_order_with_style() {
    let axes = FontAxisBits {
        weight: Some(700.0f32.to_bits()),
        width: None,
        optical_size: None,
        italic: false,
        slant: Some((-10.0f32).to_bits()),
        grade: Some(50.0f32.to_bits()),
        thick_stroke: None,
        thin_stroke: None,
        counter_width: None,
        uppercase_height: None,
        lowercase_height: None,
        ascender_height: None,
        descender_depth: None,
        figure_height: Some(1.5f32.to_bits()),
    };
    let styling = variable_axes(&axes);
    assert_eq!(styling.style, FontStyleChoice::Oblique((-10.0f32).to_bits()));
    assert_eq!(
        styling.settings,
        vec![
            AxisSetting { axis: FontAxis::Weight, value_bits: 700.0f32.to_bits() },
            AxisSetting { axis: FontAxis::Grade, value_bits: 50.0f32.to_bits() },
            AxisSetting { axis: FontAxis::FigureHeight, value_bits: 1.5f32.to_bits() },
        ]
    );
    let tags: Vec<&str> = styling.settings.iter().map(|s| s.axis.tag()).collect();
    assert_eq!(tags, vec!["wght", "GRAD", "YTFI"]);

    let italic = variable_axes(&FontAxisBits { italic: true, ..axes });
    assert_eq!(italic.style, FontStyleChoice::Italic);
    assert_eq!(italic.settings, styling.settings);

    let plain = variable_axes(&FontAxisBits { slant: None, weight: None, grade: None, figure_height: None, ..axes });
    assert_eq!(plain.style, FontStyleChoice::Unchanged);
    assert!(plain.settings.is_empty());
}

#[test]
fn font_is_named_after_its_first_family() {
    let font = font_from_first_family(vec![1, 2, 3], Some("Fira Sans".to_string())).unwrap();
    assert_eq!(font.family_name, "Fira Sans");
    assert_eq!(font.bytes, vec![1, 2, 3]);
    assert!(font_from_first_family(vec![1], None).is_none());
}

#[test]
fn data_that_registers_no_family_makes_no_font() {
    let mut font_context = parley::FontContext::new();
    assert!(load_into_font_context(&mut font_context, vec![0, 1, 2, 3]).is_none());
    assert!(load_into_font_context(&mut font_context, vec![]).is_none());
}

#[test]
fn recolor_targets_only_named_shape_layers() {
    let theme = Theme::new().add("bg", 1u8).add("fg", 2u8);
    let layers = vec![
        LayerOutline { name: "bg".to_string(), has_shapes: true },
        LayerOutline { name: "fg".to_string(), has_shapes: false },
        LayerOutline { name: "other".to_string(), has_shapes: true },
        LayerOutline { name: "fg".to_string(), has_shapes: true },
    ];
    assert_eq!(theme.recolor_targets(&layers), vec![Some(&1u8), None, None, Some(&2u8)]);
}
