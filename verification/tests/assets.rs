use std::io::Write;

use bevy_vello::compression::{decompress_gzip, try_decompress_gzip};
use bevy_vello::error::VectorLoaderError;
use bevy_vello::loader::{
    font_extensions, lottie_extensions, lottie_loader_accepts, svg_extensions, svg_loader_accepts,
};
use bevy_vello::lottie::{distinct_names, load_lottie_from_bytes, load_lottie_from_str, LottieExt, Metadata};
use bevy_vello::svg::{load_svg_from_bytes, load_svg_from_str};

const SVG: &str = "<svg xmlns='http://www.w3.org/2000/svg' width='16' height='8'>\
<rect x='1' y='1' width='14' height='6' fill='#3465a4'/></svg>";

const LOTTIE: &str = r#"{"v":"5.7.4","fr":30,"ip":0,"op":60,"w":100,"h":50,"layers":[]}"#;

#[test]
fn svg_from_str_parses_size() {
    let asset = load_svg_from_str(SVG).expect("valid svg");
    assert_eq!(asset.size.width, 16.0);
    assert_eq!(asset.size.height, 8.0);
}

#[test]
fn svg_from_bytes_rejects_invalid_utf8_and_garbage() {
    let err = load_svg_from_bytes(&[0xff, 0xfe, 0x00]).err().expect("must fail");
    assert!(matches!(err, VectorLoaderError::VelloSvg(_)));
    assert!(load_svg_from_str("not an svg").is_err());
}

#[test]
fn lottie_parses_and_rejects() {
    let asset = load_lottie_from_str(LOTTIE).expect("valid lottie");
    assert_eq!(asset.composition.width, 100);
    assert_eq!(asset.composition.height, 50);
    assert!(asset.composition.get_layers().is_empty());
    let meta = Metadata { composition: asset.composition.clone() };
    assert!(meta.get_layers().is_empty());
    let err = load_lottie_from_bytes(b"").err().expect("empty input must fail");
    assert!(matches!(err, VectorLoaderError::Velato(_)));
    assert!(load_lottie_from_str("{").is_err());
}

#[test]
fn distinct_names_keep_first_occurrence() {
    let names = vec!["a".to_string(), "b".to_string(), "a".to_string(), "c".to_string(), "b".to_string()];
    assert_eq!(distinct_names(names), vec!["a".to_string(), "b".to_string(), "c".to_string()]);
}

fn gzip(text: &str) -> Vec<u8> {
    let mut e = flate2::write::GzEncoder::new(Vec::new(), flate2::Compression::default());
    e.write_all(text.as_bytes()).unwrap();
    e.finish().unwrap()
}

#[test]
fn gzip_round_trip() {
    let data = gzip("hello lottie");
    assert_eq!(decompress_gzip(&data), "hello lottie");
    assert_eq!(try_decompress_gzip(&data), Some("hello lottie".to_string()));
}

#[test]
fn gzip_rejects_plain_data() {
    assert_eq!(try_decompress_gzip(b"hello"), None);
    assert_eq!(try_decompress_gzip(b""), None);
}

#[test]
fn loader_extensions() {
    assert!(svg_loader_accepts("svg"));
    assert!(svg_loader_accepts("icon.svg"));
    assert!(!svg_loader_accepts("sv"));
    assert!(!svg_loader_accepts("json"));
    assert!(lottie_loader_accepts("json"));
    assert!(!lottie_loader_accepts("jsonl"));
    assert!(!lottie_loader_accepts("svg"));
    assert_eq!(svg_extensions(), vec!["svg"]);
    assert_eq!(lottie_extensions(), vec!["json"]);
    assert_eq!(font_extensions(), vec!["ttf"]);
}

const LOTTIE_LAYERS: &str = r#"{"v":"5.7.4","fr":30,"ip":0,"op":60,"w":100,"h":50,"layers":[
{"ty":3,"nm":"a","ind":1,"ip":0,"op":60,"st":0,"ks":{"p":{"a":0,"k":[0,0,0]},"r":{"a":0,"k":0}}},
{"ty":3,"nm":"b","ind":2,"ip":0,"op":60,"st":0,"ks":{"p":{"a":0,"k":[0,0,0]},"r":{"a":0,"k":0}}},
{"ty":3,"nm":"a","ind":3,"ip":0,"op":60,"st":0,"ks":{"p":{"a":0,"k":[0,0,0]},"r":{"a":0,"k":0}}}]}"#;

#[test]
fn layer_names_in_order_and_distinct() {
    let asset = load_lottie_from_str(LOTTIE_LAYERS).expect("valid lottie");
    let meta = Metadata { composition: asset.composition.clone() };
    assert_eq!(meta.get_layers(), vec!["a".to_string(), "b".to_string(), "a".to_string()]);
    let mut distinct = asset.composition.get_layers();
    distinct.sort();
    assert_eq!(distinct, vec!["a".to_string(), "b".to_string()]);
}

fn lottie_with_layer(layer: &str) -> String {
    format!(r#"{{"v":"5.7.4","fr":30,"ip":0,"op":60,"w":100,"h":50,"layers":[{layer}]}}"#)
}

#[test]
fn unsupported_lottie_features_are_rejected_not_imported() {
    // A layer transform without a rotation.
    let no_rotation = lottie_with_layer(
        r#"{"ty":3,"nm":"a","ind":1,"ip":0,"op":60,"st":0,"ks":{"p":{"a":0,"k":[0,0,0]}}}"#,
    );
    assert!(matches!(load_lottie_from_str(&no_rotation), Err(VectorLoaderError::UnsupportedLottie)));
    // The `Add` blend mode.
    let add_blend = lottie_with_layer(
        r#"{"ty":3,"nm":"a","ind":1,"ip":0,"op":60,"st":0,"bm":16,"ks":{"p":{"a":0,"k":[0,0,0]},"r":{"a":0,"k":0}}}"#,
    );
    assert!(matches!(load_lottie_from_str(&add_blend), Err(VectorLoaderError::UnsupportedLottie)));
    // A supported blend mode imports.
    let multiply = lottie_with_layer(
        r#"{"ty":3,"nm":"a","ind":1,"ip":0,"op":60,"st":0,"bm":1,"ks":{"p":{"a":0,"k":[0,0,0]},"r":{"a":0,"k":0}}}"#,
    );
    assert!(load_lottie_from_str(&multiply).is_ok());
    // Malformed JSON is a parse error, not an unsupported feature.
    assert!(matches!(load_lottie_from_str("{"), Err(VectorLoaderError::Velato(_))));
}

#[test]
fn split_group_transform_position_is_rejected() {
    let layer = |p: &str| {
        lottie_with_layer(&format!(
            r#"{{"ty":4,"nm":"s","ind":1,"ip":0,"op":60,"st":0,"ks":{{"p":{{"a":0,"k":[0,0,0]}},"r":{{"a":0,"k":0}}}},"shapes":[{{"ty":"gr","it":[{{"ty":"tr","p":{p}}}]}}]}}"#
        ))
    };
    let split = layer(r#"{"s":true,"x":{"a":0,"k":0},"y":{"a":0,"k":0}}"#);
    assert!(matches!(load_lottie_from_str(&split), Err(VectorLoaderError::UnsupportedLottie)));
    let single = layer(r#"{"a":0,"k":[0,0]}"#);
    assert!(load_lottie_from_str(&single).is_ok());
}

fn lottie_with_rotation(rotation: &str) -> String {
    lottie_with_layer(&format!(
        r#"{{"ty":3,"nm":"a","ind":1,"ip":0,"op":60,"st":0,"ks":{{"p":{{"a":0,"k":[0,0,0]}},"r":{rotation}}}}}"#
    ))
}

#[test]
fn malformed_scalar_keyframes_are_rejected_not_imported() {
    // Well-formed keyframes import.
    let fine = lottie_with_rotation(
        r#"{"a":1,"k":[{"t":0,"s":[0],"i":{"x":[0.5],"y":[1]},"o":{"x":0.5,"y":0}},{"t":60,"s":[90]}]}"#,
    );
    assert!(load_lottie_from_str(&fine).is_ok());
    // An easing handle given as an array of two.
    let two = lottie_with_rotation(
        r#"{"a":1,"k":[{"t":0,"s":[0],"i":{"x":[0.5,0.5],"y":[1]}},{"t":60,"s":[90]}]}"#,
    );
    assert!(matches!(load_lottie_from_str(&two), Err(VectorLoaderError::UnsupportedLottie)));
    // A scalar keyframe without a value.
    let empty = lottie_with_rotation(r#"{"a":1,"k":[{"t":0,"s":[]},{"t":60,"s":[90]}]}"#);
    assert!(matches!(load_lottie_from_str(&empty), Err(VectorLoaderError::UnsupportedLottie)));
}
