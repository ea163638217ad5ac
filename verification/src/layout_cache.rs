//! A double-buffered, content-addressed cache for text layouts.

use std::collections::HashMap;
use std::hash::{Hash, Hasher};
use vstd::prelude::*;

use crate::font_axes::FontAxisBits;
use crate::text::VelloTextAlign;

verus! {

broadcast use vstd::std_specs::hash::group_hash_axioms;

/// Content-addressed key for cached text layouts: a hash of everything that
/// affects a layout's geometry.
#[derive(Clone, Copy, Debug, PartialEq, Eq, Hash, Structural)]
pub struct TextLayoutKey(pub u64);

/// The fields of a text style that affect a layout's geometry, each `f32`
/// as its bit pattern. The brush is not among them: color does not move
/// glyphs.
#[derive(Clone, Copy, Debug, PartialEq, Eq, Hash, Structural)]
pub struct LayoutStyleBits {
    pub font_size: u32,
    /// Line height multiplier.
    pub line_height: u32,
    /// Extra spacing between words.
    pub word_spacing: u32,
    /// Extra spacing between letters.
    pub letter_spacing: u32,
    pub font_axes: FontAxisBits,
}

/// The SipHash of a layout's inputs, as `DefaultHasher` computes it.
pub uninterp spec fn layout_key_hash(
    font_id: u64,
    text: Seq<char>,
    style: LayoutStyleBits,
    text_align: VelloTextAlign,
    max_advance: Option<u32>,
) -> u64;

/// Hashes a layout's inputs.
///
/// Trusted: hashes the tuple of the arguments into a new
/// `std::hash::DefaultHasher` and returns `finish`. `DefaultHasher::new`
/// starts from fixed keys (it is not seeded per process), so the result is a
/// function of the arguments alone, named `layout_key_hash`.
#[verifier::external_body]
fn hash_layout_inputs(
    font_id: u64,
    text: &str,
    style: &LayoutStyleBits,
    text_align: VelloTextAlign,
    max_advance: Option<u32>,
) -> (hash: u64)
    ensures
        hash == layout_key_hash(font_id, text@, *style, text_align, max_advance),
{
    let mut hasher = std::hash::DefaultHasher::new();
    (font_id, text, style, text_align, max_advance).hash(&mut hasher);
    hasher.finish()
}

impl TextLayoutKey {
    /// The key of a layout: the SipHash of the font, the text, the style
    /// fields that affect layout, the alignment and the maximum advance
    /// (bits of its `f32`). The brush takes no part in it.
    pub fn new(
        font_id: u64,
        value: &str,
        style: &LayoutStyleBits,
        text_align: VelloTextAlign,
        max_advance: Option<u32>,
    ) -> (key: Self)
        ensures
            key.0 == layout_key_hash(font_id, value@, *style, text_align, max_advance),
    {
        TextLayoutKey(hash_layout_inputs(font_id, value, style, text_align, max_advance))
    }
}

/// Double-buffered content-addressed cache for text layouts.
///
/// Each frame, lookups check `previous` and promote hits into `current`. At
/// the start of the next frame, `previous` is drained and the buffers swap.
/// Entries not touched for one frame are naturally dropped: no periodic
/// sweep, no variable-cost pass.
pub struct TextLayoutCache<V> {
    /// Entries promoted (or newly inserted) this frame.
    current: HashMap<u64, V>,
    /// Last frame's entries, used as a read-only lookup source.
    previous: HashMap<u64, V>,
}

/// The buffers after a frame advance: the current entries become the
/// previous ones and the old previous entries are dropped.
pub open spec fn advanced<V>(current: Map<u64, V>, previous: Map<u64, V>) -> (
    Map<u64, V>,
    Map<u64, V>,
) {
    (Map::empty(), current)
}

impl<V: Clone> TextLayoutCache<V> {
    /// The entries promoted or inserted this frame, by key.
    pub closed spec fn current_view(&self) -> Map<u64, V> {
        self.current@
    }

    /// The entries kept from the previous frame, by key.
    pub closed spec fn previous_view(&self) -> Map<u64, V> {
        self.previous@
    }

    /// Whether a layout is cached under the key in either buffer.
    pub open spec fn caches(&self, key: u64) -> bool {
        self.current_view().contains_key(key) || self.previous_view().contains_key(key)
    }

    /// An empty cache.
    pub fn new() -> (cache: Self)
        ensures
            cache.current_view() == Map::<u64, V>::empty(),
            cache.previous_view() == Map::<u64, V>::empty(),
    {
        TextLayoutCache { current: HashMap::new(), previous: HashMap::new() }
    }

    /// Returns a cached layout or inserts one computed by the closure.
    ///
    /// Checks `current` first (already promoted this frame), then `previous`,
    /// promoting a hit from there into `current`. On a miss, calls the
    /// closure and inserts its layout into `current`. The closure runs only
    /// on a miss.
    pub fn get_or_insert_with<F: FnOnce() -> V>(&mut self, key: TextLayoutKey, f: F) -> (layout: V)
        requires
            !old(self).caches(key.0) ==> f.requires(()),
        ensures
            old(self).current_view().contains_key(key.0) ==> {
                &&& final(self).current_view() == old(self).current_view()
                &&& final(self).previous_view() == old(self).previous_view()
                &&& cloned(old(self).current_view()[key.0], layout)
            },
            !old(self).current_view().contains_key(key.0) && old(self).previous_view().contains_key(key.0) ==> {
                &&& layout == old(self).previous_view()[key.0]
                &&& final(self).previous_view() == old(self).previous_view().remove(key.0)
                &&& final(self).current_view().dom() == old(self).current_view().dom().insert(key.0)
                &&& cloned(layout, final(self).current_view()[key.0])
                &&& forall|k: u64|
                    k != key.0 && #[trigger] old(self).current_view().contains_key(k) ==> final(self).current_view()[k] == old(self).current_view()[k]
            },
            !old(self).caches(key.0) ==> {
                &&& f.ensures((), layout)
                &&& final(self).previous_view() == old(self).previous_view()
                &&& final(self).current_view().dom() == old(self).current_view().dom().insert(key.0)
                &&& cloned(layout, final(self).current_view()[key.0])
                &&& forall|k: u64|
                    k != key.0 && #[trigger] old(self).current_view().contains_key(k) ==> final(self).current_view()[k] == old(self).current_view()[k]
            },
    {
        // Already promoted this frame: fast path.
        if let Some(layout) = self.current.get(&key.0) {
            return layout.clone();
        }
        // Promote from previous frame's buffer.
        if let Some(layout) = self.previous.remove(&key.0) {
            self.current.insert(key.0, layout.clone());
            return layout;
        }
        // Cache miss: compute and insert.
        let layout = f();
        self.current.insert(key.0, layout.clone());
        layout
    }

    /// Rotate buffers: drain `previous`, then swap.
    ///
    /// Call once at the start of each frame. Anything left in `previous` was
    /// unused last frame and is dropped here.
    pub fn advance_frame(&mut self)
        ensures
            (final(self).current_view(), final(self).previous_view()) == advanced(
                old(self).current_view(),
                old(self).previous_view(),
            ),
    {
        self.previous.clear();
        std::mem::swap(&mut self.current, &mut self.previous);
    }

    /// Drop all cached layouts (e.g. when font assets change).
    pub fn clear(&mut self)
        ensures
            final(self).current_view() == Map::<u64, V>::empty(),
            final(self).previous_view() == Map::<u64, V>::empty(),
    {
        self.current.clear();
        self.previous.clear();
    }

    /// Number of cached layouts across both buffers.
    pub fn len(&self) -> (n: usize)
        requires
            self.current_view().len() + self.previous_view().len() <= usize::MAX,
        ensures
            n == self.current_view().len() + self.previous_view().len(),
    {
        self.current.len() + self.previous.len()
    }

    /// Number of layouts in the current (promoted) buffer.
    pub fn current_len(&self) -> (n: usize)
        ensures
            n == self.current_view().len(),
    {
        self.current.len()
    }
}

impl<V: Clone> Default for TextLayoutCache<V> {
    fn default() -> (cache: Self)
        ensures
            cache.current_view() == Map::<u64, V>::empty(),
            cache.previous_view() == Map::<u64, V>::empty(),
    {
        TextLayoutCache::new()
    }
}

/// An entry survives one idle frame: after a frame advance, every entry of
/// this frame is still cached (in the previous buffer) with the same layout.
pub proof fn lemma_entry_survives_one_frame<V>(
    current: Map<u64, V>,
    previous: Map<u64, V>,
    key: u64,
)
    requires
        current.contains_key(key),
    ensures
        advanced(current, previous).1.contains_key(key),
        advanced(current, previous).1[key] == current[key],
{
}

/// An entry not touched for two frames is evicted: two frame advances
/// without lookups leave both buffers empty.
pub proof fn lemma_evicted_after_two_idle_frames<V>(current: Map<u64, V>, previous: Map<u64, V>)
    ensures
        ({
            let once = advanced(current, previous);
            let twice = advanced(once.0, once.1);
            twice.0 == Map::<u64, V>::empty() && twice.1 == Map::<u64, V>::empty()
        }),
{
}

} // verus!
