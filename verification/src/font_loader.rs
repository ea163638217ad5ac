//! Registering font data with a font context and naming the font after the
//! family it registers.

use vstd::prelude::*;

use crate::text::VelloFont;

verus! {

#[verifier::external_type_specification]
#[verifier::external_body]
pub struct ExFontContext(parley::FontContext);

#[verifier::external_type_specification]
#[verifier::external_body]
pub struct ExFamilyId(parley::fontique::FamilyId);

/// Registers font data with the font context's collection and returns the
/// families it registered, in the order the collection reports them.
///
/// Trusted: calls `fontique::Collection::register_fonts` on the context's
/// collection with a blob of the bytes and no info override, and keeps the
/// family id of each registered entry. What is registered depends on the
/// context's state as well as the bytes, so nothing is claimed of the ids.
#[verifier::external_body]
fn register_font_families(font_context: &mut parley::FontContext, bytes: &Vec<u8>) -> Vec<
    parley::fontique::FamilyId,
> {
    let registered = font_context.collection.register_fonts(bytes.clone().into(), None);
    registered.into_iter().map(|(family, _fonts)| family).collect()
}

/// The name of a family of the context's collection, if it has one.
///
/// Trusted: calls `fontique::Collection::family_name`; the answer depends on
/// the collection's state, so nothing is claimed of it.
#[verifier::external_body]
fn family_name(font_context: &mut parley::FontContext, family: parley::fontique::FamilyId) -> Option<
    String,
> {
    font_context.collection.family_name(family).map(|name| name.to_string())
}

/// The font that font data makes when its first registered family has the
/// given name: the data under that name, or nothing when no family was
/// registered or the first one has no name.
pub fn font_from_first_family(bytes: Vec<u8>, first_family_name: Option<String>) -> (font: Option<
    VelloFont,
>)
    ensures
        font is Some == first_family_name is Some,
        font matches Some(f) ==> f.bytes@ == bytes@ && f.family_name@ == first_family_name->0@,
{
    match first_family_name {
        Some(family_name) => Some(VelloFont { family_name, bytes }),
        None => None,
    }
}

/// Registers font data with the font context and names the font after the
/// first family the data registers. `None` when the data registers no family,
/// or its first family has no name.
pub fn load_into_font_context(font_context: &mut parley::FontContext, bytes: Vec<u8>) -> (font: Option<
    VelloFont,
>)
    ensures
        font matches Some(f) ==> f.bytes@ == bytes@,
{
    let families = register_font_families(font_context, &bytes);
    if families.len() == 0 {
        return None;
    }
    let name = family_name(font_context, families[0]);
    font_from_first_family(bytes, name)
}

} // verus!
