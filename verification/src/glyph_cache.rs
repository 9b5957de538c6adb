//! Glyph texture cache for UI text rendering.
//!
//! Scans the glyphs of the frame's text for ones that need a texture and
//! creates one texture per unique glyph bitmap, caching the texture ids
//! across frames so each glyph is only uploaded once.
//!
//! Cache keys are color-agnostic: glyph textures are grayscale alpha masks
//! and the color is applied at render time (see [`GlyphCacheKey`]).
use vstd::prelude::*;
use crate::assets::AssetError;
use crate::contexts::GlyphCacheKey;

verus! {

/// The id of the white texture, used for glyphs with nothing to draw.
pub const WHITE_TEXTURE_ID: u32 = 0;

/// One rasterized glyph of a text draw command.
#[derive(Debug, Clone)]
pub struct GlyphDraw {
    pub character: char,
    pub width: u32,
    pub height: u32,
    /// Grayscale coverage, one byte per pixel.
    pub bitmap: Vec<u8>,
}

/// Whether a glyph needs a texture to render: spaces and other empty glyphs
/// (zero size or no bitmap) don't.
pub open spec fn renderable(g: GlyphDraw) -> bool {
    g.width > 0 && g.height > 0 && g.bitmap@.len() > 0
}

/// The cache key of a glyph: its character and rasterized size.
pub open spec fn glyph_key(g: GlyphDraw) -> GlyphCacheKey {
    GlyphCacheKey::spec_new(g.character, g.width, g.height)
}

/// RGBA bytes of a grayscale mask: each gray byte repeated as R, G, B and A,
/// so the shader can multiply by the text color and keep the shape.
pub open spec fn spec_gray_to_rgba(gray: Seq<u8>) -> Seq<u8>
    decreases gray.len(),
{
    if gray.len() == 0 {
        Seq::empty()
    } else {
        spec_gray_to_rgba(gray.drop_last()) + seq![gray.last(), gray.last(), gray.last(), gray.last()]
    }
}

proof fn lemma_gray_to_rgba(gray: Seq<u8>)
    ensures
        spec_gray_to_rgba(gray).len() == 4 * gray.len(),
        forall|i: int, c: int|
            0 <= i < gray.len() && 0 <= c < 4 ==> #[trigger] spec_gray_to_rgba(gray)[4 * i + c] == gray[i],
    decreases gray.len(),
{
    if gray.len() > 0 {
        lemma_gray_to_rgba(gray.drop_last());
        let prev = spec_gray_to_rgba(gray.drop_last());
        assert forall|i: int, c: int| 0 <= i < gray.len() && 0 <= c < 4 implies #[trigger] spec_gray_to_rgba(
            gray,
        )[4 * i + c] == gray[i] by {
            if i < gray.len() - 1 {
                assert(prev[4 * i + c] == gray.drop_last()[i]);
            }
        }
    }
}

/// Expand a grayscale mask to RGBA, all four channels the gray value.
pub fn gray_to_rgba(gray: &[u8]) -> (r: Vec<u8>)
    requires
        4 * gray@.len() <= usize::MAX,
    ensures
        r@ == spec_gray_to_rgba(gray@),
        r@.len() == 4 * gray@.len(),
        forall|i: int, c: int| 0 <= i < gray@.len() && 0 <= c < 4 ==> #[trigger] r@[4 * i + c] == gray@[i],
{
    let mut rgba: Vec<u8> = Vec::new();
    let mut i: usize = 0;
    while i < gray.len()
        invariant
            i <= gray@.len(),
            rgba@ == spec_gray_to_rgba(gray@.subrange(0, i as int)),
        decreases gray@.len() - i,
    {
        let g = gray[i];
        rgba.push(g);
        rgba.push(g);
        rgba.push(g);
        rgba.push(g);
        proof {
            assert(gray@.subrange(0, i as int + 1).drop_last() =~= gray@.subrange(0, i as int));
        }
        i = i + 1;
    }
    proof {
        assert(gray@.subrange(0, gray@.len() as int) =~= gray@);
        lemma_gray_to_rgba(gray@);
    }
    rgba
}

/// What a glyph texture is made from: `None` for an empty glyph (zero
/// width or height), which uses the white texture; otherwise the RGBA
/// expansion of its grayscale bitmap.
pub fn glyph_texture_pixels(width: u32, height: u32, gray: &[u8]) -> (r: Option<Vec<u8>>)
    requires
        4 * gray@.len() <= usize::MAX,
    ensures
        (width == 0 || height == 0) ==> r is None,
        (width != 0 && height != 0) ==> (r matches Some(px) && px@ == spec_gray_to_rgba(gray@)),
{
    if width == 0 || height == 0 {
        None
    } else {
        Some(gray_to_rgba(gray))
    }
}

/// No key occurs twice among the cached entries.
pub open spec fn keys_distinct(s: Seq<(GlyphCacheKey, u32)>) -> bool {
    forall|i: int, j: int| 0 <= i < j < s.len() ==> (#[trigger] s[i]).0 != (#[trigger] s[j]).0
}

/// Whether some entry has key `k`.
pub open spec fn cached(s: Seq<(GlyphCacheKey, u32)>, k: GlyphCacheKey) -> bool {
    exists|i: int| 0 <= i < s.len() && (#[trigger] s[i]).0 == k
}

/// An index of an entry with key `k` (meaningful when `cached(s, k)`).
pub open spec fn entry_index(s: Seq<(GlyphCacheKey, u32)>, k: GlyphCacheKey) -> int {
    choose|i: int| 0 <= i < s.len() && (#[trigger] s[i]).0 == k
}

/// The entries as a map from glyph key to texture id.
pub open spec fn entries_map(s: Seq<(GlyphCacheKey, u32)>) -> Map<GlyphCacheKey, u32> {
    Map::new(|k: GlyphCacheKey| cached(s, k), |k: GlyphCacheKey| s[entry_index(s, k)].1)
}

proof fn lemma_entry(s: Seq<(GlyphCacheKey, u32)>, i: int)
    requires
        keys_distinct(s),
        0 <= i < s.len(),
    ensures
        entries_map(s).contains_key(s[i].0),
        entries_map(s)[s[i].0] == s[i].1,
{
    let k = s[i].0;
    assert(cached(s, k));
    let j = entry_index(s, k);
    if j < i {
        assert(s[j].0 != s[i].0);
    } else if j > i {
        assert(s[i].0 != s[j].0);
    }
}

proof fn lemma_push(s: Seq<(GlyphCacheKey, u32)>, k: GlyphCacheKey, id: u32)
    requires
        keys_distinct(s),
        !cached(s, k),
    ensures
        keys_distinct(s.push((k, id))),
        entries_map(s.push((k, id))) == entries_map(s).insert(k, id),
{
    let t = s.push((k, id));
    assert forall|i: int, j: int| 0 <= i < j < t.len() implies (#[trigger] t[i]).0 != (#[trigger] t[j]).0 by {
        if j == s.len() {
            assert(s[i].0 != k);
        } else {
            assert(s[i] == t[i] && s[j] == t[j]);
        }
    }
    assert forall|q: GlyphCacheKey| #[trigger] cached(t, q) <==> cached(s, q) || q == k by {
        if cached(s, q) {
            let w = choose|w: int| 0 <= w < s.len() && (#[trigger] s[w]).0 == q;
            assert(t[w] == s[w]);
        }
        if q == k {
            assert(t[s.len() as int].0 == k);
        }
        if cached(t, q) && q != k {
            let w = choose|w: int| 0 <= w < t.len() && (#[trigger] t[w]).0 == q;
            assert(w < s.len());
            assert(s[w] == t[w]);
        }
    }
    assert forall|q: GlyphCacheKey| #[trigger] entries_map(t).contains_key(q) implies entries_map(t)[q]
        == entries_map(s).insert(k, id)[q] by {
        if q == k {
            lemma_entry(t, s.len() as int);
        } else {
            let w = choose|w: int| 0 <= w < s.len() && (#[trigger] s[w]).0 == q;
            lemma_entry(s, w);
            assert(t[w] == s[w]);
            lemma_entry(t, w);
        }
    }
    assert(entries_map(t) =~= entries_map(s).insert(k, id));
}

proof fn lemma_update(s: Seq<(GlyphCacheKey, u32)>, i: int, id: u32)
    requires
        keys_distinct(s),
        0 <= i < s.len(),
    ensures
        keys_distinct(s.update(i, (s[i].0, id))),
        entries_map(s.update(i, (s[i].0, id))) == entries_map(s).insert(s[i].0, id),
{
    let k = s[i].0;
    let t = s.update(i, (k, id));
    assert forall|a: int, b: int| 0 <= a < b < t.len() implies (#[trigger] t[a]).0 != (#[trigger] t[b]).0 by {
        assert(t[a].0 == s[a].0 && t[b].0 == s[b].0);
    }
    assert forall|q: GlyphCacheKey| #[trigger] cached(t, q) <==> cached(s, q) by {
        if cached(s, q) {
            let w = choose|w: int| 0 <= w < s.len() && (#[trigger] s[w]).0 == q;
            assert(t[w].0 == q);
        }
        if cached(t, q) {
            let w = choose|w: int| 0 <= w < t.len() && (#[trigger] t[w]).0 == q;
            assert(s[w].0 == q);
        }
    }
    assert forall|q: GlyphCacheKey| #[trigger] entries_map(t).contains_key(q) implies entries_map(t)[q]
        == entries_map(s).insert(k, id)[q] by {
        let w = choose|w: int| 0 <= w < t.len() && (#[trigger] t[w]).0 == q;
        lemma_entry(t, w);
        if w != i {
            assert(t[w] == s[w]);
            lemma_entry(s, w);
        }
    }
    assert(entries_map(t) =~= entries_map(s).insert(k, id));
}

proof fn lemma_len(s: Seq<(GlyphCacheKey, u32)>)
    requires
        keys_distinct(s),
    ensures
        entries_map(s).dom().finite(),
        entries_map(s).dom().len() == s.len(),
{
    let ks = s.map_values(|e: (GlyphCacheKey, u32)| e.0);
    assert(ks.no_duplicates()) by {
        assert forall|i: int, j: int| 0 <= i < ks.len() && 0 <= j < ks.len() && i != j implies ks[i] != ks[j] by {
            if i < j {
                assert(s[i].0 != s[j].0);
            } else {
                assert(s[j].0 != s[i].0);
            }
        }
    }
    ks.unique_seq_to_set();
    assert(entries_map(s).dom() =~= ks.to_set()) by {
        assert forall|k: GlyphCacheKey| entries_map(s).dom().contains(k) <==> ks.to_set().contains(k) by {
            if cached(s, k) {
                let w = choose|w: int| 0 <= w < s.len() && (#[trigger] s[w]).0 == k;
                assert(ks[w] == k);
            }
            if ks.to_set().contains(k) {
                let w = choose|w: int| 0 <= w < ks.len() && ks[w] == k;
                assert(s[w].0 == k);
            }
        }
    }
}

/// The indices, in order, of the glyphs among the first `n` of `glyphs` that
/// are renderable and have no cached texture in `m`.
pub open spec fn uncached_indices(m: Map<GlyphCacheKey, u32>, glyphs: Seq<GlyphDraw>, n: int) -> Seq<usize>
    decreases n,
{
    if n <= 0 {
        Seq::empty()
    } else {
        let rest = uncached_indices(m, glyphs, n - 1);
        let g = glyphs[n - 1];
        if renderable(g) && !m.contains_key(glyph_key(g)) {
            rest.push((n - 1) as usize)
        } else {
            rest
        }
    }
}

/// Caches one texture per unique glyph so text rendering reuses textures
/// across frames.
pub struct GlyphTextureCache {
    textures: Vec<(GlyphCacheKey, u32)>,
}

impl View for GlyphTextureCache {
    type V = Map<GlyphCacheKey, u32>;

    closed spec fn view(&self) -> Map<GlyphCacheKey, u32> {
        entries_map(self.textures@)
    }
}

impl GlyphTextureCache {
    #[verifier::type_invariant]
    spec fn distinct(self) -> bool {
        keys_distinct(self.textures@)
    }

    /// Create an empty cache.
    pub fn new() -> (r: Self)
        ensures
            r@ == Map::<GlyphCacheKey, u32>::empty(),
    {
        let r = GlyphTextureCache { textures: Vec::new() };
        assert(r@ =~= Map::<GlyphCacheKey, u32>::empty());
        r
    }

    /// Number of cached glyph textures.
    pub fn len(&self) -> (r: usize)
        ensures
            self@.dom().finite(),
            r == self@.len(),
    {
        proof {
            use_type_invariant(self);
            lemma_len(self.textures@);
        }
        self.textures.len()
    }

    /// Whether no glyph texture is cached.
    pub fn is_empty(&self) -> (r: bool)
        ensures
            r == (self@.len() == 0),
    {
        self.len() == 0
    }

    /// The texture id cached for `key`, if any.
    pub fn get(&self, key: GlyphCacheKey) -> (r: Option<u32>)
        ensures
            r == (if self@.contains_key(key) { Some(self@[key]) } else { None }),
    {
        proof {
            use_type_invariant(self);
        }
        let mut i: usize = 0;
        while i < self.textures.len()
            invariant
                keys_distinct(self.textures@),
                i <= self.textures@.len(),
                forall|j: int| 0 <= j < i ==> (#[trigger] self.textures@[j]).0 != key,
            decreases self.textures@.len() - i,
        {
            if self.textures[i].0 == key {
                proof {
                    lemma_entry(self.textures@, i as int);
                }
                return Some(self.textures[i].1);
            }
            i = i + 1;
        }
        None
    }

    /// Whether a texture is cached for `key`.
    pub fn contains(&self, key: GlyphCacheKey) -> (r: bool)
        ensures
            r == self@.contains_key(key),
    {
        self.get(key).is_some()
    }

    /// Cache `id` as the texture of `key`, replacing any earlier one.
    pub fn insert(&mut self, key: GlyphCacheKey, id: u32)
        ensures
            final(self)@ == old(self)@.insert(key, id),
    {
        proof {
            use_type_invariant(&*self);
        }
        let mut i: usize = 0;
        while i < self.textures.len()
            invariant
                keys_distinct(self.textures@),
                self.textures@ == old(self).textures@,
                i <= self.textures@.len(),
                forall|j: int| 0 <= j < i ==> (#[trigger] self.textures@[j]).0 != key,
            decreases self.textures@.len() - i,
        {
            if self.textures[i].0 == key {
                proof {
                    lemma_update(self.textures@, i as int, id);
                }
                let mut entries: Vec<(GlyphCacheKey, u32)> = Vec::new();
                std::mem::swap(&mut entries, &mut self.textures);
                entries.set(i, (key, id));
                self.textures = entries;
                return;
            }
            i = i + 1;
        }
        proof {
            lemma_push(self.textures@, key, id);
        }
        let mut entries: Vec<(GlyphCacheKey, u32)> = Vec::new();
        std::mem::swap(&mut entries, &mut self.textures);
        entries.push((key, id));
        self.textures = entries;
    }

    /// The glyphs that have no cached texture yet, as indices into `glyphs`
    /// in order. Empty glyphs are left out; duplicates are not removed here
    /// (`prepare` skips them once the first occurrence has a texture).
    pub fn uncached_glyphs(&self, glyphs: &Vec<GlyphDraw>) -> (r: Vec<usize>)
        ensures
            r@ == uncached_indices(self@, glyphs@, glyphs@.len() as int),
    {
        let mut r: Vec<usize> = Vec::new();
        let mut i: usize = 0;
        while i < glyphs.len()
            invariant
                i <= glyphs@.len(),
                r@ == uncached_indices(self@, glyphs@, i as int),
            decreases glyphs@.len() - i,
        {
            let g = &glyphs[i];
            if g.width > 0 && g.height > 0 && g.bitmap.len() > 0 {
                let key = GlyphCacheKey::new(g.character, g.width, g.height);
                if !self.contains(key) {
                    r.push(i);
                }
            }
            i = i + 1;
        }
        r
    }

    /// Create textures for the glyphs that are not cached yet, with `create`
    /// making one texture from a glyph. Called once per frame before
    /// rendering. A glyph whose key got a texture earlier in the same call
    /// is skipped; a failed creation caches nothing, so a later copy of the
    /// same glyph is tried again.
    pub fn prepare<F: Fn(&GlyphDraw) -> Result<u32, AssetError>>(&mut self, glyphs: &Vec<GlyphDraw>, create: F)
        requires
            forall|i: int| 0 <= i < glyphs@.len() ==> call_requires(create, (&glyphs@[i],)),
        ensures
            forall|k: GlyphCacheKey| #[trigger] old(self)@.contains_key(k) ==> final(self)@.contains_key(k)
                && final(self)@[k] == old(self)@[k],
            forall|k: GlyphCacheKey| #[trigger] final(self)@.contains_key(k) && !old(self)@.contains_key(k)
                ==> exists|i: int|
                0 <= i < glyphs@.len() && renderable(glyphs@[i]) && glyph_key(glyphs@[i]) == k
                    && call_ensures(create, (&glyphs@[i],), Ok(final(self)@[k])),
            forall|i: int| 0 <= i < glyphs@.len() && renderable(#[trigger] glyphs@[i])
                && !final(self)@.contains_key(glyph_key(glyphs@[i]))
                ==> exists|e: AssetError| call_ensures(create, (&glyphs@[i],), Err(e)),
    {
        let missing = self.uncached_glyphs(glyphs);
        let glyph_count = glyphs.len();
        let ghost start = self@;
        let mut n: usize = 0;
        while n < missing.len()
            invariant
                n <= missing@.len(),
                glyph_count == glyphs@.len(),
                missing@ == uncached_indices(start, glyphs@, glyphs@.len() as int),
                forall|i: int| 0 <= i < glyphs@.len() ==> call_requires(create, (&glyphs@[i],)),
                forall|k: GlyphCacheKey| #[trigger] start.contains_key(k) ==> self@.contains_key(k)
                    && self@[k] == start[k],
                forall|k: GlyphCacheKey| #[trigger] self@.contains_key(k) && !start.contains_key(k)
                    ==> exists|i: int|
                    0 <= i < glyphs@.len() && renderable(glyphs@[i]) && glyph_key(glyphs@[i]) == k
                        && call_ensures(create, (&glyphs@[i],), Ok(self@[k])),
                forall|m: int| 0 <= m < n && !self@.contains_key(glyph_key(glyphs@[missing@[m] as int]))
                    ==> exists|e: AssetError| call_ensures(create, (&glyphs@[missing@[m] as int],), Err(e)),
            decreases missing@.len() - n,
        {
            proof {
                lemma_uncached_in_range(start, glyphs@, glyphs@.len() as int, n as int);
            }
            let i = missing[n];
            let g = &glyphs[i];
            let key = GlyphCacheKey::new(g.character, g.width, g.height);
            if !self.contains(key) {
                let made = create(g);
                match made {
                    Ok(id) => {
                        let ghost before = self@;
                        self.insert(key, id);
                        proof {
                            assert forall|k: GlyphCacheKey| #[trigger] self@.contains_key(k) && !start.contains_key(k)
                                implies exists|j: int|
                                0 <= j < glyphs@.len() && renderable(glyphs@[j]) && glyph_key(glyphs@[j]) == k
                                    && call_ensures(create, (&glyphs@[j],), Ok(self@[k])) by {
                                if k == key {
                                    assert(renderable(glyphs@[i as int]) && glyph_key(glyphs@[i as int]) == k);
                                } else {
                                    assert(before.contains_key(k));
                                }
                            }
                            assert forall|k: GlyphCacheKey| #[trigger] start.contains_key(k) implies self@.contains_key(k)
                                && self@[k] == start[k] by {
                                assert(before.contains_key(k));
                            }
                        }
                    },
                    Err(e) => {
                        proof {
                            assert(call_ensures(create, (g,), Err(e)));
                        }
                    },
                }
            }
            n = n + 1;
        }
        proof {
            assert forall|i: int| 0 <= i < glyphs@.len() && renderable(#[trigger] glyphs@[i])
                && !self@.contains_key(glyph_key(glyphs@[i]))
                implies exists|e: AssetError| call_ensures(create, (&glyphs@[i],), Err(e)) by {
                assert(!start.contains_key(glyph_key(glyphs@[i])));
                let m = lemma_uncached_member(start, glyphs@, glyphs@.len() as int, i);
                assert(missing@[m] as int == i);
            }
        }
    }
}

impl Default for GlyphTextureCache {
    fn default() -> (r: Self)
        ensures
            r@ == Map::<GlyphCacheKey, u32>::empty(),
    {
        GlyphTextureCache::new()
    }
}

/// Once every renderable glyph of a frame has a cached texture, the frame
/// needs no more: preparing the same glyphs again creates nothing.
pub proof fn law_cached_glyphs_are_not_missing(m: Map<GlyphCacheKey, u32>, glyphs: Seq<GlyphDraw>, n: int)
    requires
        0 <= n <= glyphs.len(),
        forall|i: int| 0 <= i < glyphs.len() && renderable(#[trigger] glyphs[i]) ==> m.contains_key(glyph_key(glyphs[i])),
    ensures
        uncached_indices(m, glyphs, n).len() == 0,
    decreases n,
{
    if n > 0 {
        law_cached_glyphs_are_not_missing(m, glyphs, n - 1);
    }
}

proof fn lemma_uncached_in_range(m: Map<GlyphCacheKey, u32>, glyphs: Seq<GlyphDraw>, n: int, k: int)
    requires
        0 <= n <= glyphs.len(),
        n <= usize::MAX + 1,
        0 <= k < uncached_indices(m, glyphs, n).len(),
    ensures
        0 <= uncached_indices(m, glyphs, n)[k] < n,
        renderable(glyphs[uncached_indices(m, glyphs, n)[k] as int]),
    decreases n,
{
    if n > 0 {
        let rest = uncached_indices(m, glyphs, n - 1);
        if k < rest.len() {
            lemma_uncached_in_range(m, glyphs, n - 1, k);
        }
    }
}

proof fn lemma_uncached_member(m: Map<GlyphCacheKey, u32>, glyphs: Seq<GlyphDraw>, n: int, i: int) -> (k: int)
    requires
        0 <= i < n <= glyphs.len(),
        n <= usize::MAX + 1,
        renderable(glyphs[i]),
        !m.contains_key(glyph_key(glyphs[i])),
    ensures
        0 <= k < uncached_indices(m, glyphs, n).len(),
        uncached_indices(m, glyphs, n)[k] as int == i,
    decreases n,
{
    if i == n - 1 {
        uncached_indices(m, glyphs, n - 1).len() as int
    } else {
        lemma_uncached_member(m, glyphs, n - 1, i)
    }
}

} // verus!
