//! Loading Lottie compositions and inspecting their layers.

use std::sync::Arc;
use vstd::prelude::*;
use vstd::string::StringSliceAdditionalSpecFns;

use crate::error::VectorLoaderError;
use crate::lottie_schema::{lottie_importable, parse_lottie_schema};

verus! {

#[verifier::external_type_specification]
#[verifier::external_body]
pub struct ExComposition(velato::Composition);

/// Whether the bytes parse as a Lottie composition.
pub uninterp spec fn lottie_parses(bytes: Seq<u8>) -> bool;

/// The names of the layers of the composition some bytes import to, in
/// layer order.
pub uninterp spec fn lottie_layer_names(bytes: Seq<u8>) -> Seq<Seq<char>>;

/// The error with which parsing some bytes as a Lottie document fails.
pub uninterp spec fn lottie_parse_error(bytes: Seq<u8>) -> velato::Error;

/// Parses a Lottie (bodymovin JSON) composition.
///
/// Trusted: calls `velato::Composition::from_slice`, which parses the bytes
/// into the document form (`lottie_schema`) and converts that into a runtime
/// composition. Whether the parse succeeds depends on the bytes alone and is
/// named `lottie_parses`; empty input, which is no JSON value, is rejected.
/// The conversion stops (with `todo!`, `unimplemented!`, an `assert!` or
/// an index out of range) on the documents that `importable` rules out:
/// unsupported transforms and blend modes, easing handles given as arrays
/// whose length is not one, scalar keyframes without a value, and animated
/// paths whose first keyframe has no start shape. So `requires` asks for an
/// importable document. The composition's layers are those of the main
/// composition, in order, each named by its `nm` (or empty): a function of
/// the bytes, `lottie_layer_names`. An error is the serde error of that parse
/// wrapped as `velato::Error::Json`, the same as `parse_lottie_schema` gives:
/// `lottie_parse_error`. What else the composition holds is not stated.
#[verifier::external_body]
fn parse_composition(bytes: &[u8]) -> (composition: Result<velato::Composition, velato::Error>)
    requires
        lottie_parses(bytes@) ==> crate::lottie_schema::importable(crate::lottie_schema::lottie_schema(bytes@)),
    ensures
        composition is Ok == lottie_parses(bytes@),
        composition matches Ok(c) ==> composition_layers(c) == lottie_layer_names(bytes@),
        composition matches Err(e) ==> e == lottie_parse_error(bytes@),
        bytes@.len() == 0 ==> composition is Err,
{
    velato::Composition::from_slice(bytes)
}

/// The names of a composition's layers, in layer order.
pub uninterp spec fn composition_layers(composition: velato::Composition) -> Seq<Seq<char>>;

/// The names of a composition's layers, in layer order.
///
/// Trusted: clones the `name` of each entry of the composition's `layers`
/// vector, in order. The composition is opaque here, so the names are
/// claimed only to be `composition_layers` of it: the same composition gives
/// the same names.
#[verifier::external_body]
fn composition_layer_names(composition: &velato::Composition) -> (names: Vec<String>)
    ensures
        string_views(names@) == composition_layers(*composition),
{
    composition.layers.iter().map(|layer| layer.name.clone()).collect()
}

/// A parsed Lottie composition, ready to be played.
pub struct VelloLottie {
    pub composition: Arc<velato::Composition>,
}

/// Whether some bytes load as a Lottie asset: they parse, and the parsed
/// document can be imported.
pub open spec fn lottie_loads(bytes: Seq<u8>) -> bool {
    lottie_parses(bytes) && crate::lottie_schema::importable(crate::lottie_schema::lottie_schema(bytes))
}

/// Deserialize a Lottie file from bytes. A document that parses but uses a
/// feature the runtime import does not support is rejected.
pub fn load_lottie_from_bytes(bytes: &[u8]) -> (asset: Result<VelloLottie, VectorLoaderError>)
    ensures
        asset is Ok == lottie_loads(bytes@),
        asset matches Ok(a) ==> composition_layers(*a.composition) == lottie_layer_names(bytes@),
        asset matches Err(VectorLoaderError::Velato(e)) ==> e == lottie_parse_error(bytes@),
        asset matches Err(e) ==> (e is Velato <==> !lottie_parses(bytes@)),
        asset matches Err(e) ==> (e is UnsupportedLottie <==> lottie_parses(bytes@) && !crate::lottie_schema::importable(
            crate::lottie_schema::lottie_schema(bytes@),
        )),
        asset matches Err(e) ==> e is Velato || e is UnsupportedLottie,
        bytes@.len() == 0 ==> asset is Err,
{
    match parse_lottie_schema(bytes) {
        Err(e) => Err(VectorLoaderError::Velato(e)),
        Ok(schema) => {
            if !lottie_importable(&schema) {
                return Err(VectorLoaderError::UnsupportedLottie);
            }
            match parse_composition(bytes) {
                Ok(composition) => Ok(VelloLottie { composition: Arc::new(composition) }),
                Err(e) => Err(VectorLoaderError::Velato(e)),
            }
        },
    }
}

/// Deserialize a Lottie file from a string slice: its UTF-8 bytes are parsed.
pub fn load_lottie_from_str(json_str: &str) -> (asset: Result<VelloLottie, VectorLoaderError>)
    ensures
        asset is Ok == lottie_loads(json_str.spec_bytes()),
        asset matches Ok(a) ==> composition_layers(*a.composition) == lottie_layer_names(
            json_str.spec_bytes(),
        ),
        asset matches Err(VectorLoaderError::Velato(e)) ==> e == lottie_parse_error(json_str.spec_bytes()),
        asset matches Err(e) ==> (e is Velato <==> !lottie_parses(json_str.spec_bytes())),
        asset matches Err(e) ==> e is Velato || e is UnsupportedLottie,
        json_str@.len() == 0 ==> asset is Err,
{
    let bytes = json_str.as_bytes();
    proof {
        if json_str@.len() == 0 {
            assert(json_str.spec_bytes() == vstd::utf8::encode_utf8(json_str@));
        }
    }
    load_lottie_from_bytes(bytes)
}

/// Whether a sequence of names holds no name twice.
pub open spec fn no_duplicates(names: Seq<Seq<char>>) -> bool {
    forall|i: int, j: int| 0 <= i < j < names.len() ==> names[i] != names[j]
}

/// The views of a vector of strings.
pub open spec fn string_views(v: Seq<String>) -> Seq<Seq<char>> {
    v.map_values(|s: String| s@)
}

/// Each distinct name once, in the order of first appearance.
pub fn distinct_names(names: Vec<String>) -> (distinct: Vec<String>)
    ensures
        no_duplicates(string_views(distinct@)),
        string_views(distinct@).to_set() == string_views(names@).to_set(),
{
    let mut out: Vec<String> = Vec::new();
    let mut i: usize = 0;
    while i < names.len()
        invariant
            i <= names@.len(),
            no_duplicates(string_views(out@)),
            string_views(out@).to_set() == string_views(names@.take(i as int)).to_set(),
        decreases names@.len() - i,
    {
        let name = &names[i];
        let mut seen = false;
        let mut k: usize = 0;
        while k < out.len()
            invariant
                k <= out@.len(),
                seen == exists|m: int| 0 <= m < k && #[trigger] out@[m]@ == name@,
            decreases out@.len() - k,
        {
            if crate::strings::str_eq(out[k].as_str(), name.as_str()) {
                seen = true;
            }
            k = k + 1;
        }
        let ghost before = out@;
        proof {
            assert(names@.take(i + 1) == names@.take(i as int).push(names@[i as int]));
            assert(string_views(names@.take(i + 1)) == string_views(names@.take(i as int)).push(
                name@,
            ));
            string_views(names@.take(i as int)).lemma_push_to_set_commute(name@);
        }
        if !seen {
            out.push(name.clone());
            proof {
                assert(string_views(out@) == string_views(before).push(name@));
                string_views(before).lemma_push_to_set_commute(name@);
                assert forall|a: int, b: int|
                    0 <= a < b < string_views(out@).len() implies string_views(out@)[a]
                    != string_views(out@)[b] by {
                    if b == before.len() {
                        assert(string_views(out@)[a] == before[a]@);
                    }
                }
            }
        } else {
            proof {
                let m = choose|m: int| 0 <= m < out@.len() && #[trigger] out@[m]@ == name@;
                assert(string_views(out@)[m] == name@);
                assert(string_views(out@).to_set().contains(name@));
                assert(string_views(out@).to_set() =~= string_views(out@).to_set().insert(name@));
            }
        }
        i = i + 1;
    }
    proof {
        assert(names@.take(names@.len() as int) == names@);
    }
    out
}

/// Extension methods used for debugging.
pub trait LottieExt {
    /// The distinct layer names.
    fn get_layers(&self) -> Vec<String>;
}

impl LottieExt for velato::Composition {
    /// The distinct layer names, in the order in which they first appear.
    fn get_layers(&self) -> (layers: Vec<String>)
        ensures
            no_duplicates(string_views(layers@)),
            string_views(layers@).to_set() == composition_layers(*self).to_set(),
    {
        distinct_names(composition_layer_names(self))
    }
}

/// Metadata used for introspection and color swapping.
pub struct Metadata {
    pub composition: Arc<velato::Composition>,
}

impl Metadata {
    /// The names of the composition's layers, in layer order.
    pub fn get_layers(&self) -> (layers: Vec<String>)
        ensures
            string_views(layers@) == composition_layers(*self.composition),
    {
        composition_layer_names(&self.composition)
    }
}

} // verus!
