//! Which files the asset loaders accept, by extension.

use vstd::prelude::*;
use vstd::string::StringSliceAdditionalSpecFns;

verus! {

/// Whether `s` ends with the bytes of `suffix`.
pub open spec fn ends_with_bytes(s: Seq<u8>, suffix: Seq<u8>) -> bool {
    s.len() >= suffix.len() && s.subrange(s.len() - suffix.len(), s.len() as int) == suffix
}

/// The extensions the SVG loader is registered for.
pub fn svg_extensions() -> (e: Vec<&'static str>)
    ensures
        e@.len() == 1 && e@[0]@ == "svg"@,
{
    let mut e = Vec::new();
    e.push("svg");
    e
}

/// The extensions the Lottie loader is registered for.
pub fn lottie_extensions() -> (e: Vec<&'static str>)
    ensures
        e@.len() == 1 && e@[0]@ == "json"@,
{
    let mut e = Vec::new();
    e.push("json");
    e
}

/// The extensions the font loader is registered for.
pub fn font_extensions() -> (e: Vec<&'static str>)
    ensures
        e@.len() == 1 && e@[0]@ == "ttf"@,
{
    let mut e = Vec::new();
    e.push("ttf");
    e
}

/// Whether the SVG loader parses a file with the given full extension: it
/// must end in `svg` (so `svg` itself, or a compound like `icon.svg`).
pub fn svg_loader_accepts(extension: &str) -> (accepts: bool)
    ensures
        accepts == ends_with_bytes(extension.spec_bytes(), seq![0x73u8, 0x76u8, 0x67u8]),
{
    let b = extension.as_bytes();
    let n = b.len();
    if n < 3 {
        return false;
    }
    let r = b[n - 3] == 0x73u8 && b[n - 2] == 0x76u8 && b[n - 1] == 0x67u8;
    proof {
        let suffix = seq![0x73u8, 0x76u8, 0x67u8];
        let tail = b@.subrange(n - 3, n as int);
        if r {
            assert(tail =~= suffix);
        } else {
            assert(tail[0] != suffix[0] || tail[1] != suffix[1] || tail[2] != suffix[2]);
        }
    }
    r
}

/// Whether the Lottie loader parses a file with the given extension: it must
/// be exactly `json`.
pub fn lottie_loader_accepts(extension: &str) -> (accepts: bool)
    ensures
        accepts == (extension.spec_bytes() == seq![0x6au8, 0x73u8, 0x6fu8, 0x6eu8]),
{
    let b = extension.as_bytes();
    let r = b.len() == 4 && b[0] == 0x6au8 && b[1] == 0x73u8 && b[2] == 0x6fu8 && b[3] == 0x6eu8;
    proof {
        let json = seq![0x6au8, 0x73u8, 0x6fu8, 0x6eu8];
        if r {
            assert(b@ =~= json);
        } else if b@.len() == 4 {
            assert(b@[0] != json[0] || b@[1] != json[1] || b@[2] != json[2] || b@[3] != json[3]);
        }
    }
    r
}

} // verus!
