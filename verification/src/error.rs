//! Errors that loading a vector asset can end in.

use vstd::prelude::*;

verus! {

#[verifier::external_type_specification]
#[verifier::external_body]
pub struct ExIoError(std::io::Error);

#[verifier::external_type_specification]
#[verifier::external_body]
pub struct ExUtf8Error(std::str::Utf8Error);

#[verifier::external_type_specification]
#[verifier::external_body]
pub struct ExSvgError(svg_imaging::Error);

#[verifier::external_type_specification]
#[verifier::external_body]
pub struct ExLottieError(velato::Error);

/// Why a vector asset could not be loaded.
#[derive(Debug)]
pub enum VectorLoaderError {
    /// The file could not be read.
    Io(std::io::Error),
    /// The file is not valid UTF-8.
    FromStrUtf8(std::str::Utf8Error),
    /// The SVG could not be parsed.
    VelloSvg(svg_imaging::Error),
    /// The Lottie could not be parsed.
    Velato(velato::Error),
    /// The Lottie parsed, but uses a feature the runtime import does not
    /// support: a layer transform without a single rotation, a group
    /// transform with a split rotation or position, the `Add` or `HardMix`
    /// blend mode, or groups nested too deep.
    UnsupportedLottie,
}

} // verus!
