use std::cell::Cell;

use bevy_vello::font_axes::FontAxisBits;
use bevy_vello::layout_cache::{LayoutStyleBits, TextLayoutCache, TextLayoutKey};
use bevy_vello::text::VelloTextAlign;
use parley::Layout;
use velato::vello::peniko::Brush;

fn make_key(n: u64) -> TextLayoutKey {
    TextLayoutKey(n)
}

/// Second call with the same key must not invoke the closure.
#[test]
fn cache_hit_skips_closure() {
    let mut cache = TextLayoutCache::<Layout<Brush>>::default();
    let key = make_key(42);

    let call_count = Cell::new(0u32);
    let _layout = cache.get_or_insert_with(key, || {
        call_count.set(call_count.get() + 1);
        Layout::new()
    });
    assert_eq!(call_count.get(), 1);

    let _layout = cache.get_or_insert_with(key, || {
        call_count.set(call_count.get() + 1);
        Layout::new()
    });
    assert_eq!(call_count.get(), 1, "closure must not run on cache hit");
}

/// Different keys produce independent cache entries.
#[test]
fn different_keys_are_independent() {
    let mut cache = TextLayoutCache::<Layout<Brush>>::default();

    cache.get_or_insert_with(make_key(1), Layout::new);
    cache.get_or_insert_with(make_key(2), Layout::new);
    assert_eq!(cache.current_len(), 2);

    // Re-request key 1 — still 2 entries, no new insertion.
    cache.get_or_insert_with(make_key(1), || panic!("should be cached"));
    assert_eq!(cache.current_len(), 2);
}

/// After advance_frame, entries move to `previous` and are still
/// accessible. After two advances without access, they're gone.
#[test]
fn entry_survives_one_idle_frame() {
    let mut cache = TextLayoutCache::<Layout<Brush>>::default();
    cache.get_or_insert_with(make_key(1), Layout::new);
    assert_eq!(cache.current_len(), 1);

    // Advance: entry moves to previous, still reachable.
    cache.advance_frame();
    assert_eq!(cache.current_len(), 0);
    assert_eq!(cache.len(), 1);

    // Access promotes it back to current.
    cache.get_or_insert_with(make_key(1), || panic!("should be in previous"));
    assert_eq!(cache.current_len(), 1);
}

/// An entry not accessed for two frames is evicted.
#[test]
fn entry_evicted_after_two_idle_frames() {
    let mut cache = TextLayoutCache::<Layout<Brush>>::default();
    cache.get_or_insert_with(make_key(1), Layout::new);

    cache.advance_frame(); // current→previous
    cache.advance_frame(); // previous cleared, old entry dropped
    assert_eq!(
        cache.len(),
        0,
        "entry should be evicted after 2 idle frames"
    );
}

/// `clear()` removes all entries immediately.
#[test]
fn clear_removes_all_entries() {
    let mut cache = TextLayoutCache::<Layout<Brush>>::default();
    cache.get_or_insert_with(make_key(1), Layout::new);
    cache.advance_frame();
    cache.get_or_insert_with(make_key(2), Layout::new);
    assert_eq!(cache.len(), 2);

    cache.clear();
    assert_eq!(cache.len(), 0);
}

#[test]
fn promoted_entry_returns_cached_value() {
    let mut cache = TextLayoutCache::<u32>::new();
    assert_eq!(cache.get_or_insert_with(make_key(7), || 70), 70);
    cache.advance_frame();
    assert_eq!(cache.get_or_insert_with(make_key(7), || 99), 70);
    assert_eq!(cache.current_len(), 1);
    assert_eq!(cache.len(), 1);
    cache.advance_frame();
    cache.advance_frame();
    assert_eq!(cache.get_or_insert_with(make_key(7), || 99), 99);
}

#[test]
fn new_cache_is_empty() {
    let cache = TextLayoutCache::<u32>::new();
    assert_eq!(cache.len(), 0);
    assert_eq!(cache.current_len(), 0);
}

/// The layout fields of the default text style: size 24, line height 1,
/// no extra spacing, no font axes.
fn default_style() -> LayoutStyleBits {
    LayoutStyleBits {
        font_size: 24.0f32.to_bits(),
        line_height: 1.0f32.to_bits(),
        word_spacing: 0.0f32.to_bits(),
        letter_spacing: 0.0f32.to_bits(),
        font_axes: FontAxisBits {
            weight: None,
            width: None,
            optical_size: None,
            italic: false,
            slant: None,
            grade: None,
            thick_stroke: None,
            thin_stroke: None,
            counter_width: None,
            uppercase_height: None,
            lowercase_height: None,
            ascender_height: None,
            descender_depth: None,
            figure_height: None,
        },
    }
}

/// `TextLayoutKey::new` produces different keys for different text content.
#[test]
fn key_differs_on_text_content() {
    let style = default_style();
    let font_id = 0u64;

    let key_a = TextLayoutKey::new(font_id, "hello", &style, VelloTextAlign::Start, None);
    let key_b = TextLayoutKey::new(font_id, "world", &style, VelloTextAlign::Start, None);
    assert_ne!(key_a, key_b);
}

/// Same inputs produce the same key (deterministic).
#[test]
fn key_stable_for_same_inputs() {
    let style = default_style();
    let font_id = 0u64;

    let key_a = TextLayoutKey::new(font_id, "hello", &style, VelloTextAlign::Start, None);
    let key_b = TextLayoutKey::new(font_id, "hello", &style, VelloTextAlign::Start, None);
    assert_eq!(key_a, key_b);
}

/// Brush (text color) is excluded from the cache key because it does not
/// affect text layout geometry: a white and a red style share their layout
/// fields, which are all the key reads.
#[test]
fn key_ignores_brush_color() {
    let font_id = 0u64;
    let style_white = default_style();
    let style_red = default_style();

    let key_a = TextLayoutKey::new(font_id, "hello", &style_white, VelloTextAlign::Start, None);
    let key_b = TextLayoutKey::new(font_id, "hello", &style_red, VelloTextAlign::Start, None);
    assert_eq!(key_a, key_b, "brush must not affect layout cache key");
}

/// Key changes when style fields change.
#[test]
fn key_differs_on_font_size() {
    let font_id = 0u64;
    let style_a = LayoutStyleBits { font_size: 16.0f32.to_bits(), ..default_style() };
    let style_b = LayoutStyleBits { font_size: 32.0f32.to_bits(), ..default_style() };

    let key_a = TextLayoutKey::new(font_id, "hi", &style_a, VelloTextAlign::Start, None);
    let key_b = TextLayoutKey::new(font_id, "hi", &style_b, VelloTextAlign::Start, None);
    assert_ne!(key_a, key_b);
}
