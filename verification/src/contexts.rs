//! Keys shared between the game and render passes.
use vstd::prelude::*;

verus! {

/// Cache key for a rasterized glyph texture: the character and the size it
/// was rasterized at.
#[derive(Debug, Clone, Copy, PartialEq, Eq, Hash, Structural)]
pub struct GlyphCacheKey {
    character: char,
    width: u32,
    height: u32,
}

impl GlyphCacheKey {
    /// The key of `character` rasterized at `width` × `height`.
    pub closed spec fn spec_new(character: char, width: u32, height: u32) -> Self {
        GlyphCacheKey { character, width, height }
    }

    pub closed spec fn spec_character(self) -> char {
        self.character
    }

    pub closed spec fn spec_width(self) -> u32 {
        self.width
    }

    pub closed spec fn spec_height(self) -> u32 {
        self.height
    }

    pub fn new(character: char, width: u32, height: u32) -> (r: Self)
        ensures
            r == Self::spec_new(character, width, height),
            r.spec_character() == character,
            r.spec_width() == width,
            r.spec_height() == height,
    {
        GlyphCacheKey { character, width, height }
    }
}

/// Two keys are equal exactly when character and size agree.
pub proof fn law_glyph_key_identity(a: GlyphCacheKey, b: GlyphCacheKey)
    ensures
        a == b <==> (a.spec_character() == b.spec_character() && a.spec_width() == b.spec_width()
            && a.spec_height() == b.spec_height()),
{
}

/// A key holds the character and size it was made from.
pub proof fn law_glyph_key_fields(character: char, width: u32, height: u32)
    ensures
        GlyphCacheKey::spec_new(character, width, height).spec_character() == character,
        GlyphCacheKey::spec_new(character, width, height).spec_width() == width,
        GlyphCacheKey::spec_new(character, width, height).spec_height() == height,
{
}

} // verus!
