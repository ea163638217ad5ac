//! Verified core of a vector-graphics integration: lottie player state
//! machines, playback decisions, text layout caching and font axes, themes,
//! render extraction and picking decisions, and asset loading.

pub mod compression;
pub mod convert;
pub mod error;
pub mod extract;
pub mod float_bits;
pub mod font_axes;
pub mod font_loader;
pub mod layout_cache;
pub mod loader;
pub mod picking;
pub mod lottie;
pub mod lottie_keyframes;
pub mod lottie_schema;
pub mod playback;
pub mod player;
pub mod strings;
pub mod svg;
pub mod text;
pub mod theme;
