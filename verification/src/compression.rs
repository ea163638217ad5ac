//! Gzip decompression of text assets.

use vstd::prelude::*;

verus! {

/// The text that a gzip stream decompresses to, when it is a complete gzip
/// stream whose contents are valid UTF-8.
pub uninterp spec fn gzip_text(content: Seq<u8>) -> Option<Seq<char>>;

/// Whether `content` starts with the gzip identification bytes.
pub open spec fn has_gzip_magic(content: Seq<u8>) -> bool {
    content.len() >= 2 && content[0] == 0x1f && content[1] == 0x8b
}

/// Decompresses a gzip stream into a string.
///
/// Trusted: reads `flate2::read::GzDecoder` over `content` to its end with
/// `Read::read_to_string`. The result depends on the bytes alone and is named
/// `gzip_text`; what that is for a given stream is not stated. The one fact
/// claimed beyond the name is that flate2's header parser rejects input that
/// does not begin with the gzip identification bytes.
#[verifier::external_body]
fn gunzip_to_string(content: &[u8]) -> (text: Option<String>)
    ensures
        text is Some == gzip_text(content@) is Some,
        text is Some ==> text->0@ == gzip_text(content@)->0,
        !has_gzip_magic(content@) ==> text is None,
{
    let mut decoder = flate2::read::GzDecoder::new(content);
    let mut s = String::new();
    match std::io::Read::read_to_string(&mut decoder, &mut s) {
        Ok(_) => Some(s),
        Err(_) => None,
    }
}

/// Decompresses gzip data to plaintext. The data must be a complete gzip
/// stream of UTF-8 text.
pub fn decompress_gzip(content: &[u8]) -> (text: String)
    requires
        gzip_text(content@) is Some,
    ensures
        text@ == gzip_text(content@)->0,
{
    gunzip_to_string(content).unwrap()
}

/// Decompresses gzip data to plaintext, or `None` when the data is not a
/// complete gzip stream of UTF-8 text.
pub fn try_decompress_gzip(content: &[u8]) -> (text: Option<String>)
    ensures
        text is Some == gzip_text(content@) is Some,
        text is Some ==> text->0@ == gzip_text(content@)->0,
        !has_gzip_magic(content@) ==> text is None,
{
    match gunzip_to_string(content) {
        Some(_) => Some(decompress_gzip(content)),
        None => None,
    }
}

} // verus!
