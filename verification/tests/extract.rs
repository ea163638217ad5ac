use bevy_vello::extract::on_camera_layer;
use bevy_vello::extract::{count_extracted, should_extract_ui, should_extract_world, ExtractCandidate};

fn c(view: bool, inherited: bool, loaded: bool, layer: bool) -> ExtractCandidate {
    ExtractCandidate {
        view_visible: view,
        inherited_visible: inherited,
        asset_loaded: loaded,
        on_camera_layer: layer,
    }
}

#[test]
fn world_needs_view_visibility_ui_does_not() {
    let hidden_from_view = c(false, true, true, true);
    assert!(!should_extract_world(&hidden_from_view));
    assert!(should_extract_ui(&hidden_from_view));
    assert!(should_extract_world(&c(true, true, true, true)));
    assert!(!should_extract_ui(&c(true, true, false, true)));
    assert!(!should_extract_ui(&c(true, true, true, false)));
}

#[test]
fn counts_drawn_entities() {
    let cs = vec![c(true, true, true, true), c(false, true, true, true), c(true, false, true, true)];
    assert_eq!(count_extracted(&cs, true), 1);
    assert_eq!(count_extracted(&cs, false), 2);
    assert_eq!(count_extracted(&vec![], true), 0);
}

#[test]
fn render_layers_default_to_layer_zero() {
    // An entity without layers is on layer 0, as is a camera without layers.
    assert!(on_camera_layer(&None, &vec![None]));
    assert!(on_camera_layer(&None, &vec![Some(vec![3]), Some(vec![0, 5])]));
    assert!(!on_camera_layer(&None, &vec![Some(vec![1, 2])]));
    assert!(on_camera_layer(&Some(vec![4, 2]), &vec![Some(vec![1]), Some(vec![2])]));
    assert!(!on_camera_layer(&Some(vec![4, 2]), &vec![None, Some(vec![1, 3])]));
    assert!(!on_camera_layer(&Some(vec![]), &vec![None]));
    assert!(!on_camera_layer(&None, &vec![]));
}
