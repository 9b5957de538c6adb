use engine_core::assets::AssetError;
use engine_core::contexts::GlyphCacheKey;
use engine_core::glyph_cache::{glyph_texture_pixels, gray_to_rgba, GlyphDraw, GlyphTextureCache};
use std::cell::Cell;

fn glyph(character: char, width: u32, height: u32, bitmap: &[u8]) -> GlyphDraw {
    GlyphDraw { character, width, height, bitmap: bitmap.to_vec() }
}

#[test]
fn fresh_cache_starts_empty() {
    let cache = GlyphTextureCache::new();
    assert!(cache.is_empty());
    assert_eq!(cache.len(), 0);
}

#[test]
fn empty_glyphs_and_non_text_commands_need_no_textures() {
    let cache = GlyphTextureCache::new();
    let glyphs = vec![
        glyph('a', 4, 4, &[255; 16]), // renderable
        glyph(' ', 0, 0, &[]),        // space: zero size, no bitmap
        glyph('b', 4, 4, &[]),        // empty bitmap
    ];

    let missing = cache.uncached_glyphs(&glyphs);
    assert_eq!(missing.len(), 1);
    assert_eq!(glyphs[missing[0]].character, 'a');
}

#[test]
fn cached_glyphs_are_not_reported_missing() {
    let mut cache = GlyphTextureCache::new();
    let glyphs = vec![glyph('a', 4, 4, &[255; 16]), glyph('b', 8, 8, &[255; 64])];

    // Simulate a previously created texture for 'a'.
    cache.insert(GlyphCacheKey::new('a', 4, 4), 7);

    let missing = cache.uncached_glyphs(&glyphs);
    assert_eq!(missing.len(), 1, "only the uncached glyph should be missing");
    assert_eq!(glyphs[missing[0]].character, 'b');
    assert_eq!(cache.len(), 1);
}

#[test]
fn same_glyph_at_different_sizes_needs_separate_textures() {
    let cache = GlyphTextureCache::new();
    let glyphs = vec![glyph('a', 4, 4, &[255; 16]), glyph('a', 8, 8, &[255; 64])];

    let missing = cache.uncached_glyphs(&glyphs);
    assert_eq!(missing.len(), 2, "each rasterized size is a distinct cache entry");
}

#[test]
fn prepare_uploads_each_glyph_once() {
    let mut cache = GlyphTextureCache::new();
    let glyphs = vec![
        glyph('a', 4, 4, &[255; 16]),
        glyph('a', 4, 4, &[255; 16]),
        glyph(' ', 0, 0, &[]),
        glyph('b', 2, 2, &[9; 4]),
    ];
    let calls = Cell::new(0u32);
    cache.prepare(&glyphs, |_g: &GlyphDraw| -> Result<u32, AssetError> {
        calls.set(calls.get() + 1);
        Ok(100 + calls.get())
    });
    assert_eq!(calls.get(), 2);
    assert_eq!(cache.len(), 2);
    assert_eq!(cache.get(GlyphCacheKey::new('a', 4, 4)), Some(101));
    assert_eq!(cache.get(GlyphCacheKey::new('b', 2, 2)), Some(102));

    // A second frame with the same text creates nothing.
    cache.prepare(&glyphs, |_g: &GlyphDraw| -> Result<u32, AssetError> {
        calls.set(calls.get() + 1);
        Ok(0)
    });
    assert_eq!(calls.get(), 2);
    assert!(cache.uncached_glyphs(&glyphs).is_empty());
}

#[test]
fn failed_creation_is_retried_for_a_later_copy() {
    let mut cache = GlyphTextureCache::new();
    let glyphs = vec![glyph('x', 3, 3, &[1; 9]), glyph('x', 3, 3, &[1; 9])];
    let calls = Cell::new(0u32);
    cache.prepare(&glyphs, |_g: &GlyphDraw| -> Result<u32, AssetError> {
        calls.set(calls.get() + 1);
        if calls.get() == 1 {
            Err(AssetError::NotInitialized)
        } else {
            Ok(5)
        }
    });
    assert_eq!(calls.get(), 2);
    assert_eq!(cache.get(GlyphCacheKey::new('x', 3, 3)), Some(5));
}

#[test]
fn insert_replaces_an_existing_texture() {
    let mut cache = GlyphTextureCache::default();
    let key = GlyphCacheKey::new('q', 1, 1);
    cache.insert(key, 1);
    cache.insert(key, 2);
    assert_eq!(cache.len(), 1);
    assert_eq!(cache.get(key), Some(2));
    assert!(cache.contains(key));
    assert!(!cache.contains(GlyphCacheKey::new('q', 2, 1)));
}

#[test]
fn grayscale_expands_to_rgba() {
    assert_eq!(gray_to_rgba(&[0, 128, 255]), vec![0, 0, 0, 0, 128, 128, 128, 128, 255, 255, 255, 255]);
    assert!(gray_to_rgba(&[]).is_empty());
}

#[test]
fn empty_glyph_uses_white_texture() {
    assert_eq!(glyph_texture_pixels(0, 4, &[]), None);
    assert_eq!(glyph_texture_pixels(4, 0, &[]), None);
    assert_eq!(glyph_texture_pixels(1, 2, &[7, 8]), Some(vec![7, 7, 7, 7, 8, 8, 8, 8]));
}
