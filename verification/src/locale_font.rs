//! Applying the current locale's font to the UI after the locale changed.
//!
//! A locale may name a font file (relative to the asset base). When the
//! locale changes, that font is fetched from a cache or loaded, and becomes
//! the UI's default font; a locale without a font, or one whose font fails
//! to load, restores the game's own font.
use vstd::prelude::*;
use crate::assets::{join, path_join};
use crate::localization::{FontHandle, Strings, StringsModel, model_font_taken, opt_str_view};
use crate::table::{Entry, keys_sorted, table_map, find, insert};

verus! {

/// The asset base used when the game sets none.
pub const DEFAULT_ASSET_BASE: &'static str = "assets";

/// Locale fonts already loaded, by their path relative to the asset base.
pub struct LocaleFontCache {
    fonts: Vec<Entry<FontHandle>>,
}

impl View for LocaleFontCache {
    type V = Map<Seq<char>, FontHandle>;

    closed spec fn view(&self) -> Map<Seq<char>, FontHandle> {
        table_map(self.fonts@)
    }
}

impl LocaleFontCache {
    #[verifier::type_invariant]
    spec fn sorted(self) -> bool {
        keys_sorted(self.fonts@)
    }

    /// An empty cache.
    pub fn new() -> (r: Self)
        ensures
            r@ == Map::<Seq<char>, FontHandle>::empty(),
    {
        let r = LocaleFontCache { fonts: Vec::new() };
        assert(r@ =~= Map::<Seq<char>, FontHandle>::empty());
        r
    }

    /// The font loaded from `path`, if any.
    pub fn get(&self, path: &str) -> (r: Option<FontHandle>)
        ensures
            r == (if self@.contains_key(path@) { Some(self@[path@]) } else { None }),
    {
        proof {
            use_type_invariant(self);
        }
        match find(&self.fonts, path) {
            Some(i) => Some(self.fonts[i].value),
            None => None,
        }
    }

    /// Remember that `path` loaded as `font`.
    pub fn insert(&mut self, path: String, font: FontHandle)
        ensures
            final(self)@ == old(self)@.insert(path@, font),
    {
        proof {
            use_type_invariant(&*self);
        }
        let mut fonts: Vec<Entry<FontHandle>> = Vec::new();
        std::mem::swap(&mut fonts, &mut self.fonts);
        insert(&mut fonts, path, font);
        self.fonts = fonts;
    }
}

impl Default for LocaleFontCache {
    fn default() -> (r: Self)
        ensures
            r@ == Map::<Seq<char>, FontHandle>::empty(),
    {
        LocaleFontCache::new()
    }
}

/// The font file the current locale names, if it is loaded and names one.
pub open spec fn current_font_of(m: StringsModel) -> Option<Seq<char>> {
    if m.locales.contains_key(m.current) {
        m.locales[m.current].font
    } else {
        None
    }
}

/// The asset base a font path is resolved against.
pub open spec fn font_base(asset_base_path: Option<Seq<char>>) -> Seq<char> {
    match asset_base_path {
        Some(b) => b,
        None => DEFAULT_ASSET_BASE@,
    }
}

/// What happened to the current locale's font.
pub open spec fn font_outcome<F: Fn(&String) -> Result<FontHandle, String>>(
    m: StringsModel,
    cache_before: Map<Seq<char>, FontHandle>,
    cache_after: Map<Seq<char>, FontHandle>,
    base: Seq<char>,
    load: F,
    chosen: Option<FontHandle>,
) -> bool {
    match current_font_of(m) {
        None => chosen is None && cache_after == cache_before,
        Some(rel) => if cache_before.contains_key(rel) {
            chosen == Some(cache_before[rel]) && cache_after == cache_before
        } else {
            exists|full: String, res: Result<FontHandle, String>|
                full@ == path_join(base, rel) && #[trigger] call_ensures(load, (&full,), res) && match res {
                    Ok(h) => chosen == Some(h) && cache_after == cache_before.insert(rel, h),
                    Err(_) => chosen is None && cache_after == cache_before,
                }
        },
    }
}

/// A locale font loads once: switching back to a locale whose font is in the
/// cache reuses the cached handle and loads nothing.
pub proof fn law_cached_locale_font_is_reused<F: Fn(&String) -> Result<FontHandle, String>>(
    m: StringsModel,
    cache_before: Map<Seq<char>, FontHandle>,
    cache_after: Map<Seq<char>, FontHandle>,
    base: Seq<char>,
    load: F,
    chosen: Option<FontHandle>,
    rel: Seq<char>,
)
    requires
        current_font_of(m) == Some(rel),
        cache_before.contains_key(rel),
        font_outcome(m, cache_before, cache_after, base, load, chosen),
    ensures
        chosen == Some(cache_before[rel]),
        cache_after == cache_before,
{
}

/// A font that loaded is cached under its path with the handle that became
/// active; a font that failed to load leaves the cache as it was.
pub proof fn law_loaded_font_is_cached<F: Fn(&String) -> Result<FontHandle, String>>(
    m: StringsModel,
    cache_before: Map<Seq<char>, FontHandle>,
    cache_after: Map<Seq<char>, FontHandle>,
    base: Seq<char>,
    load: F,
    chosen: Option<FontHandle>,
    rel: Seq<char>,
)
    requires
        current_font_of(m) == Some(rel),
        !cache_before.contains_key(rel),
        font_outcome(m, cache_before, cache_after, base, load, chosen),
    ensures
        chosen matches Some(h) ==> cache_after == cache_before.insert(rel, h),
        chosen is None ==> cache_after == cache_before,
{
}

/// If the locale changed since the last call, pick its font: from `cache`,
/// or loaded with `load` from the font path joined onto the asset base
/// (`asset_base_path`, else `"assets"`), caching a success. The chosen
/// font is recorded as the locale's active font; with none chosen the active
/// font is cleared and the game's own `base_font` is restored.
///
/// Returns the font to make the UI default: the chosen one, else
/// `base_font`; `None` means the UI default stays as it is.
pub fn apply_locale_font<F: Fn(&String) -> Result<FontHandle, String>>(
    strings: &mut Strings,
    cache: &mut LocaleFontCache,
    asset_base_path: Option<&str>,
    base_font: Option<FontHandle>,
    load: F,
) -> (r: Option<FontHandle>)
    requires
        forall|s: &String| call_requires(load, (s,)),
    ensures
        !old(strings)@.font_dirty ==> r is None && final(strings)@ == old(strings)@ && final(cache)@ == old(cache)@,
        old(strings)@.font_dirty ==> exists|chosen: Option<FontHandle>|
            #[trigger] font_outcome(
                old(strings)@,
                old(cache)@,
                final(cache)@,
                font_base(opt_str_view(asset_base_path)),
                load,
                chosen,
            ) && final(strings)@ == (StringsModel { active_font: chosen, ..model_font_taken(old(strings)@) })
                && r == (match chosen {
                Some(h) => Some(h),
                None => base_font,
            }),
{
    if !strings.take_font_dirty() {
        return None;
    }
    let ghost m = old(strings)@;
    let ghost cache0 = cache@;
    let ghost base = font_base(opt_str_view(asset_base_path));
    let chosen: Option<FontHandle> = match strings.current_font() {
        None => None,
        Some(rel) => match cache.get(rel) {
            Some(h) => Some(h),
            None => {
                let base_path = match asset_base_path {
                    Some(b) => b,
                    None => DEFAULT_ASSET_BASE,
                };
                let full = join(base_path, rel);
                let rel_owned = rel.to_string();
                let res = load(&full);
                proof {
                    assert(call_ensures(load, (&full,), res));
                }
                match res {
                    Ok(h) => {
                        cache.insert(rel_owned, h);
                        Some(h)
                    },
                    Err(_) => None,
                }
            },
        },
    };
    proof {
        assert(font_outcome(m, cache0, cache@, base, load, chosen));
    }
    strings.set_active_font(chosen);
    match chosen {
        Some(h) => Some(h),
        None => base_font,
    }
}

} // verus!
