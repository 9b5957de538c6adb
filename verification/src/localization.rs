//! Localization: locale tables, key lookup with fallback, and per-locale
//! font selection.
//!
//! Lookup chain: current locale → `"en"` → the key itself. Data-driven UI
//! text goes through [`Strings::resolve`], where a leading `@` marks a key.
//! Locale ids are kept sorted, which is the order of language pickers and of
//! [`Strings::cycle_locale`].
use vstd::prelude::*;
use crate::table::{Entry, keys_sorted, table_keys, table_map, find, insert, search,
    lemma_table_entry, has_key};
use crate::text::{seq_lt, lemma_seq_lt_irreflexive};

verus! {

/// The locale every table falls back to when a key is missing.
pub const FALLBACK_LOCALE: &'static str = "en";

/// A font the engine has loaded for a locale.
#[derive(Debug, Clone, Copy, PartialEq, Eq, Structural)]
pub struct FontHandle {
    pub id: u32,
}

/// A locale file's content: schema version, display name, optional font
/// (relative to the asset base) and key → text pairs. Should a key occur
/// twice, the later pair wins.
#[derive(Debug)]
pub struct LocaleFile {
    /// Schema version; currently always `1`.
    pub version: u32,
    /// Human-readable locale name shown in language pickers.
    pub display_name: String,
    /// Optional font file for this locale; `None` keeps the game's own font.
    pub font: Option<String>,
    /// Key → translated text.
    pub strings: Vec<(String, String)>,
}

/// A loaded locale table.
#[derive(Debug)]
struct Locale {
    display_name: String,
    font: Option<String>,
    strings: Vec<Entry<String>>,
}

/// The abstract content of one loaded locale.
pub struct LocaleModel {
    pub display_name: Seq<char>,
    pub font: Option<Seq<char>>,
    pub strings: Map<Seq<char>, Seq<char>>,
}

/// The abstract content of [`Strings`]: loaded locales by id, their ids in
/// sorted order, the current locale, and the font bookkeeping.
pub struct StringsModel {
    pub ids: Seq<Seq<char>>,
    pub locales: Map<Seq<char>, LocaleModel>,
    pub current: Seq<char>,
    pub font_dirty: bool,
    pub active_font: Option<FontHandle>,
}

pub open spec fn opt_string_view(o: Option<String>) -> Option<Seq<char>> {
    match o {
        Some(s) => Some(s@),
        None => None,
    }
}

pub open spec fn opt_str_view(o: Option<&str>) -> Option<Seq<char>> {
    match o {
        Some(s) => Some(s@),
        None => None,
    }
}

/// Key → text of a list of pairs, later pairs overriding earlier ones.
pub open spec fn pairs_map(s: Seq<(String, String)>) -> Map<Seq<char>, Seq<char>>
    decreases s.len(),
{
    if s.len() == 0 {
        Map::empty()
    } else {
        pairs_map(s.drop_last()).insert(s.last().0@, s.last().1@)
    }
}

/// A table of strings as a map of texts.
pub open spec fn text_map(s: Seq<Entry<String>>) -> Map<Seq<char>, Seq<char>> {
    table_map(s).map_values(|v: String| v@)
}

spec fn locale_model(l: Locale) -> LocaleModel {
    LocaleModel {
        display_name: l.display_name@,
        font: opt_string_view(l.font),
        strings: text_map(l.strings@),
    }
}

/// What a well-formed model looks like: ids strictly sorted, and exactly the
/// ids of the loaded locales.
pub open spec fn strings_model_wf(m: StringsModel) -> bool {
    &&& forall|i: int, j: int| 0 <= i < j < m.ids.len() ==> seq_lt(#[trigger] m.ids[i], #[trigger] m.ids[j])
    &&& forall|k: Seq<char>| m.locales.contains_key(k) <==> m.ids.contains(k)
}

/// Text of `key` in locale `locale`, if both exist.
pub open spec fn spec_lookup(m: StringsModel, locale: Seq<char>, key: Seq<char>) -> Option<Seq<char>> {
    if m.locales.contains_key(locale) && m.locales[locale].strings.contains_key(key) {
        Some(m.locales[locale].strings[key])
    } else {
        None
    }
}

/// Translation of `key`: current locale, then `"en"`, then the key itself.
pub open spec fn spec_tr(m: StringsModel, key: Seq<char>) -> Seq<char> {
    match spec_lookup(m, m.current, key) {
        Some(t) => t,
        None => match spec_lookup(m, FALLBACK_LOCALE@, key) {
            Some(t) => t,
            None => key,
        },
    }
}

/// Data-driven text: `@key` is translated, anything else is a literal.
pub open spec fn spec_resolve(m: StringsModel, text: Seq<char>) -> Seq<char> {
    if text.len() > 0 && text[0] == '@' {
        spec_tr(m, text.drop_first())
    } else {
        text
    }
}

/// Position of `id` among the sorted ids (meaningful when it is there).
pub open spec fn id_position(ids: Seq<Seq<char>>, id: Seq<char>) -> int {
    choose|i: int| 0 <= i < ids.len() && ids[i] == id
}

/// The locale `cycle_locale` switches to: the next id in sorted order after
/// the current one (wrapping), or the first id when the current one is not
/// loaded.
pub open spec fn cycle_target(ids: Seq<Seq<char>>, current: Seq<char>) -> Seq<char> {
    if ids.contains(current) {
        ids[(id_position(ids, current) + 1) % (ids.len() as int)]
    } else {
        ids[0]
    }
}

/// The model after `set_locale(id)`: `id` is current and the font is dirty.
pub open spec fn model_with_locale(m: StringsModel, id: Seq<char>) -> StringsModel {
    StringsModel { current: id, font_dirty: true, ..m }
}

/// The model after `take_font_dirty`: the flag is cleared.
pub open spec fn model_font_taken(m: StringsModel) -> StringsModel {
    StringsModel { font_dirty: false, ..m }
}

/// `k` successive `cycle_locale` calls starting from locale `current`.
pub open spec fn cycle_n(ids: Seq<Seq<char>>, current: Seq<char>, k: nat) -> Seq<char>
    decreases k,
{
    if k == 0 {
        current
    } else {
        cycle_target(ids, cycle_n(ids, current, (k - 1) as nat))
    }
}

/// The position of an id in a strictly sorted id list is where it stands.
proof fn lemma_id_position(ids: Seq<Seq<char>>, p: int)
    requires
        forall|i: int, j: int| 0 <= i < j < ids.len() ==> seq_lt(#[trigger] ids[i], #[trigger] ids[j]),
        0 <= p < ids.len(),
    ensures
        ids.contains(ids[p]),
        id_position(ids, ids[p]) == p,
{
    assert(ids[p] == ids[p]);
    let q = id_position(ids, ids[p]);
    lemma_seq_lt_irreflexive(ids[p]);
    if q < p {
        assert(seq_lt(ids[q], ids[p]));
    } else if q > p {
        assert(seq_lt(ids[p], ids[q]));
    }
}

proof fn lemma_cycle_n(ids: Seq<Seq<char>>, p: int, k: nat)
    requires
        forall|i: int, j: int| 0 <= i < j < ids.len() ==> seq_lt(#[trigger] ids[i], #[trigger] ids[j]),
        0 <= p < ids.len(),
    ensures
        cycle_n(ids, ids[p], k) == ids[(p + k) % (ids.len() as int)],
    decreases k,
{
    let n = ids.len() as int;
    if k == 0 {
        assert(p % n == p) by (nonlinear_arith)
            requires
                0 <= p < n,
        ;
    } else {
        lemma_cycle_n(ids, p, (k - 1) as nat);
        let q = (p + k - 1) % n;
        assert(0 <= q < n) by (nonlinear_arith)
            requires
                q == (p + k - 1) % n,
                n > 0,
                p + k - 1 >= 0,
        ;
        lemma_id_position(ids, q);
        assert((q + 1) % n == (p + k) % n) by (nonlinear_arith)
            requires
                q == (p + k - 1) % n,
                n > 0,
                p + k - 1 >= 0,
        ;
    }
}

/// Cycling walks the sorted ids in order and wraps: from the locale at
/// position `p`, `k` cycles reach position `(p + k) % n`; in particular `n`
/// cycles come back to where they started.
pub proof fn law_cycle_wraps_in_sorted_order(m: StringsModel, p: int, k: nat)
    requires
        strings_model_wf(m),
        0 <= p < m.ids.len(),
    ensures
        cycle_n(m.ids, m.ids[p], k) == m.ids[(p + k) % (m.ids.len() as int)],
        cycle_n(m.ids, m.ids[p], m.ids.len()) == m.ids[p],
{
    let n = m.ids.len() as int;
    lemma_cycle_n(m.ids, p, k);
    lemma_cycle_n(m.ids, p, m.ids.len());
    assert((p + n) % n == p) by (nonlinear_arith)
        requires
            0 <= p < n,
    ;
}

/// Changing the locale marks the font dirty exactly once: the first
/// `take_font_dirty` after `set_locale` reports it, the next one does not.
pub proof fn law_font_dirty_reported_once(m: StringsModel, id: Seq<char>)
    ensures
        model_with_locale(m, id).font_dirty,
        !model_font_taken(model_with_locale(m, id)).font_dirty,
        model_font_taken(model_with_locale(m, id)).current == id,
{
}

/// A loaded locale's strings are what lookups give back: after registering a
/// version-1 file under `id`, looking up any key of `id` yields the file's
/// text for it (the later pair for a repeated key), and keys the file lacks
/// are missing.
pub proof fn law_inserted_locale_is_looked_up(
    before: StringsModel,
    after: StringsModel,
    id: Seq<char>,
    file_name: Seq<char>,
    file_font: Option<Seq<char>>,
    file_strings: Seq<(String, String)>,
    key: Seq<char>,
)
    requires
        after.locales == before.locales.insert(
            id,
            LocaleModel { display_name: file_name, font: file_font, strings: pairs_map(file_strings) },
        ),
    ensures
        spec_lookup(after, id, key) == (if pairs_map(file_strings).contains_key(key) {
            Some(pairs_map(file_strings)[key])
        } else {
            None
        }),
{
}

/// A literal (no leading `@`) resolves to itself; `@key` resolves exactly as
/// `tr(key)` does.
pub proof fn law_resolve_marks_keys_with_at(m: StringsModel, text: Seq<char>)
    ensures
        (text.len() == 0 || text[0] != '@') ==> spec_resolve(m, text) == text,
        (text.len() > 0 && text[0] == '@') ==> spec_resolve(m, text) == spec_tr(m, text.drop_first()),
{
}

/// Translation falls back in order: the current locale's text wins, then
/// English, and a key missing everywhere comes back unchanged.
pub proof fn law_tr_fallback_chain(m: StringsModel, key: Seq<char>)
    ensures
        spec_lookup(m, m.current, key) matches Some(t) ==> spec_tr(m, key) == t,
        spec_lookup(m, m.current, key) is None ==> (spec_lookup(m, FALLBACK_LOCALE@, key) matches Some(t)
            ==> spec_tr(m, key) == t),
        (spec_lookup(m, m.current, key) is None && spec_lookup(m, FALLBACK_LOCALE@, key) is None)
            ==> spec_tr(m, key) == key,
{
}

/// All loaded locales plus the current selection.
#[derive(Debug)]
pub struct Strings {
    /// Loaded locales, sorted by id.
    locales: Vec<Entry<Locale>>,
    current: String,
    /// Set when the locale changed and the engine hasn't applied its font yet.
    font_dirty: bool,
    /// The locale font handle currently applied by the engine (`None` =
    /// the game's own font).
    active_font: Option<FontHandle>,
}

impl View for Strings {
    type V = StringsModel;

    closed spec fn view(&self) -> StringsModel {
        StringsModel {
            ids: table_keys(self.locales@),
            locales: table_map(self.locales@).map_values(|l: Locale| locale_model(l)),
            current: self.current@,
            font_dirty: self.font_dirty,
            active_font: self.active_font,
        }
    }
}

impl Strings {
    #[verifier::type_invariant]
    closed spec fn wf(self) -> bool {
        &&& keys_sorted(self.locales@)
        &&& forall|i: int| 0 <= i < self.locales@.len() ==> keys_sorted(#[trigger] self.locales@[i].value.strings@)
    }

    proof fn lemma_model_wf(&self)
        requires
            self.wf(),
        ensures
            strings_model_wf(self@),
    {
        let s = self.locales@;
        assert forall|k: Seq<char>| self@.locales.contains_key(k) <==> self@.ids.contains(k) by {
            if has_key(s, k) {
                let w = choose|w: int| 0 <= w < s.len() && #[trigger] s[w].key@ == k;
                assert(self@.ids[w] == k);
            }
            if self@.ids.contains(k) {
                let w = choose|w: int| 0 <= w < self@.ids.len() && self@.ids[w] == k;
                assert(s[w].key@ == k);
            }
        }
    }

    /// An empty table: every lookup returns the key itself.
    pub fn empty() -> (r: Self)
        ensures
            r@.ids.len() == 0,
            r@.locales.dom().is_empty(),
            r@.current == FALLBACK_LOCALE@,
            !r@.font_dirty,
            r@.active_font is None,
    {
        let r = Strings {
            locales: Vec::new(),
            current: FALLBACK_LOCALE.to_string(),
            font_dirty: false,
            active_font: None,
        };
        assert(r@.locales.dom() =~= Set::empty());
        r
    }

    /// Register a parsed locale file under `id`. Files of an unsupported
    /// version are skipped. A locale already loaded under `id` is replaced.
    pub fn insert_locale_file(&mut self, id: &str, file: LocaleFile)
        ensures
            file.version == 1 ==> final(self)@.locales == old(self)@.locales.insert(
                id@,
                LocaleModel {
                    display_name: file.display_name@,
                    font: opt_string_view(file.font),
                    strings: pairs_map(file.strings@),
                },
            ),
            file.version != 1 ==> final(self)@.locales == old(self)@.locales,
            final(self)@.current == old(self)@.current,
            final(self)@.font_dirty == old(self)@.font_dirty,
            final(self)@.active_font == old(self)@.active_font,
            strings_model_wf(final(self)@),
    {
        proof {
            use_type_invariant(&*self);
        }
        if file.version != 1 {
            proof {
                self.lemma_model_wf();
            }
            return;
        }
        let LocaleFile { version: _, display_name, font, strings } = file;
        let ghost pairs = strings@;
        let mut table: Vec<Entry<String>> = Vec::new();
        let mut i: usize = 0;
        assert(pairs.take(0) =~= Seq::<(String, String)>::empty());
        assert(text_map(table@) =~= pairs_map(pairs.take(0)));
        while i < strings.len()
            invariant
                strings@ == pairs,
                i <= pairs.len(),
                keys_sorted(table@),
                text_map(table@) == pairs_map(pairs.take(i as int)),
            decreases pairs.len() - i,
        {
            let k = strings[i].0.clone();
            let v = strings[i].1.clone();
            let ghost before = table@;
            insert(&mut table, k, v);
            proof {
                assert(pairs.take(i + 1).drop_last() =~= pairs.take(i as int));
                assert(text_map(table@) =~= text_map(before).insert(k@, v@));
            }
            i = i + 1;
        }
        assert(pairs.take(pairs.len() as int) =~= pairs);
        let ghost old_locales = self.locales@;
        let locale = Locale { display_name, font, strings: table };
        let ghost lm = locale_model(locale);
        let mut locales: Vec<Entry<Locale>> = Vec::new();
        std::mem::swap(&mut locales, &mut self.locales);
        insert(&mut locales, id.to_string(), locale);
        proof {
            assert forall|j: int| 0 <= j < locales@.len() implies keys_sorted(
                #[trigger] locales@[j].value.strings@,
            ) by {
                lemma_table_entry(locales@, j);
                if locales@[j].key@ != id@ {
                    let w = choose|w: int|
                        0 <= w < old_locales.len() && #[trigger] old_locales[w].key@
                            == locales@[j].key@;
                    lemma_table_entry(old_locales, w);
                }
            }
        }
        self.locales = locales;
        proof {
            assert(self@.locales =~= old(self)@.locales.insert(id@, lm));
            self.lemma_model_wf();
        }
    }

    /// The text of `key` in `locale`, if that locale is loaded and has it.
    fn lookup<'a>(&'a self, locale: &str, key: &str) -> (r: Option<&'a str>)
        ensures
            opt_str_view(r) == spec_lookup(self@, locale@, key@),
    {
        proof {
            use_type_invariant(self);
        }
        match find(&self.locales, locale) {
            None => None,
            Some(i) => {
                let loc = &self.locales[i].value;
                proof {
                    assert(keys_sorted(self.locales@[i as int].value.strings@));
                }
                match find(&loc.strings, key) {
                    None => None,
                    Some(j) => Some(loc.strings[j].value.as_str()),
                }
            },
        }
    }

    /// Translate a key: current locale → `en` → the key itself.
    pub fn tr<'a>(&'a self, key: &'a str) -> (r: &'a str)
        ensures
            r@ == spec_tr(self@, key@),
    {
        if let Some(text) = self.lookup(self.current.as_str(), key) {
            return text;
        }
        if let Some(text) = self.lookup(FALLBACK_LOCALE, key) {
            return text;
        }
        key
    }

    /// Resolve data-driven UI text: a leading `@` marks a localization key
    /// (`"@menu.play"` → `tr("menu.play")`), anything else is a literal.
    pub fn resolve<'a>(&'a self, text: &'a str) -> (r: &'a str)
        ensures
            r@ == spec_resolve(self@, text@),
    {
        let n = text.unicode_len();
        if n > 0 && text.get_char(0) == '@' {
            let key = text.substring_char(1, n);
            assert(key@ =~= text@.drop_first());
            self.tr(key)
        } else {
            text
        }
    }

    /// The current locale id (e.g. `"en"`).
    pub fn current_locale(&self) -> (r: &str)
        ensures
            r@ == self@.current,
    {
        self.current.as_str()
    }

    /// Switch locale. Unknown ids are allowed (lookups fall back). Marks the
    /// font dirty so the engine re-applies the locale font.
    pub fn set_locale(&mut self, id: &str)
        ensures
            final(self)@ == model_with_locale(old(self)@, id@),
    {
        proof {
            use_type_invariant(&*self);
        }
        self.current = id.to_string();
        self.font_dirty = true;
    }

    /// Switch to the next available locale in sorted order (wraps around).
    /// No-op when fewer than two locales are loaded.
    pub fn cycle_locale(&mut self)
        ensures
            old(self)@.ids.len() < 2 ==> final(self)@ == old(self)@,
            old(self)@.ids.len() >= 2 ==> final(self)@ == model_with_locale(
                old(self)@,
                cycle_target(old(self)@.ids, old(self)@.current),
            ),
    {
        proof {
            use_type_invariant(&*self);
            self.lemma_model_wf();
        }
        let n = self.locales.len();
        if n < 2 {
            return;
        }
        let ghost ids = self@.ids;
        let next = match search(&self.locales, self.current.as_str()) {
            Ok(i) => {
                proof {
                    assert(ids[i as int] == self@.current);
                    let p = id_position(ids, self@.current);
                    assert(ids.contains(self@.current));
                    lemma_seq_lt_irreflexive(self@.current);
                    if p < i {
                        assert(seq_lt(ids[p], ids[i as int]));
                    } else if p > i {
                        assert(seq_lt(ids[i as int], ids[p]));
                    }
                }
                (i + 1) % n
            },
            Err(_) => {
                proof {
                    if ids.contains(self@.current) {
                        let w = choose|w: int| 0 <= w < ids.len() && ids[w] == self@.current;
                        assert(self.locales@[w].key@ == self@.current);
                    }
                }
                0
            },
        };
        let id = self.locales[next].key.clone();
        self.set_locale(id.as_str());
    }

    /// Available locales as `(id, display_name)`, sorted by id.
    pub fn available_locales<'a>(&'a self) -> (r: Vec<(&'a str, &'a str)>)
        ensures
            strings_model_wf(self@),
            r@.len() == self@.ids.len(),
            forall|i: int|
                0 <= i < r@.len() ==> (#[trigger] r@[i]).0@ == self@.ids[i] && r@[i].1@
                    == self@.locales[self@.ids[i]].display_name,
    {
        proof {
            use_type_invariant(self);
            self.lemma_model_wf();
        }
        let mut r: Vec<(&'a str, &'a str)> = Vec::new();
        let mut i: usize = 0;
        while i < self.locales.len()
            invariant
                keys_sorted(self.locales@),
                i <= self.locales@.len(),
                r@.len() == i,
                forall|j: int|
                    0 <= j < i ==> (#[trigger] r@[j]).0@ == self@.ids[j] && r@[j].1@
                        == self@.locales[self@.ids[j]].display_name,
            decreases self.locales@.len() - i,
        {
            proof {
                lemma_table_entry(self.locales@, i as int);
            }
            let e = &self.locales[i];
            r.push((e.key.as_str(), e.value.display_name.as_str()));
            i = i + 1;
        }
        r
    }

    /// Sorted key set of a loaded locale; `None` for a locale not loaded.
    pub fn locale_keys<'a>(&'a self, id: &str) -> (r: Option<Vec<&'a str>>)
        ensures
            r is None <==> !self@.locales.contains_key(id@),
            r matches Some(ks) ==> forall|i: int, j: int|
                0 <= i < j < ks@.len() ==> seq_lt(#[trigger] ks@[i]@, #[trigger] ks@[j]@),
            r matches Some(ks) ==> ks@.map_values(|s: &str| s@).to_set()
                == self@.locales[id@].strings.dom(),
    {
        proof {
            use_type_invariant(self);
        }
        match find(&self.locales, id) {
            None => None,
            Some(li) => {
                let strings = &self.locales[li].value.strings;
                proof {
                    assert(keys_sorted(strings@));
                }
                let mut ks: Vec<&'a str> = Vec::new();
                let mut i: usize = 0;
                while i < strings.len()
                    invariant
                        keys_sorted(strings@),
                        i <= strings@.len(),
                        ks@.len() == i,
                        forall|j: int| 0 <= j < i ==> (#[trigger] ks@[j])@ == strings@[j].key@,
                    decreases strings@.len() - i,
                {
                    ks.push(strings[i].key.as_str());
                    i = i + 1;
                }
                proof {
                    assert forall|a: int, b: int| 0 <= a < b < ks@.len() implies seq_lt(#[trigger] ks@[a]@, #[trigger] ks@[b]@) by {
                        assert(seq_lt(strings@[a].key@, strings@[b].key@));
                    }
                    let vs = ks@.map_values(|s: &str| s@);
                    let d = self@.locales[id@].strings.dom();
                    assert(d == text_map(strings@).dom());
                    assert forall|k: Seq<char>| vs.to_set().contains(k) <==> d.contains(k) by {
                        if vs.to_set().contains(k) {
                            let w = choose|w: int| 0 <= w < vs.len() && vs[w] == k;
                            assert(strings@[w].key@ == k);
                        }
                        if d.contains(k) {
                            let w = choose|w: int| 0 <= w < strings@.len() && #[trigger] strings@[w].key@ == k;
                            assert(vs[w] == k);
                        }
                    }
                    assert(vs.to_set() =~= d);
                }
                Some(ks)
            },
        }
    }

    /// Display name of the current locale (falls back to its id).
    pub fn current_display_name(&self) -> (r: &str)
        ensures
            r@ == (if self@.locales.contains_key(self@.current) {
                self@.locales[self@.current].display_name
            } else {
                self@.current
            }),
    {
        proof {
            use_type_invariant(self);
        }
        match find(&self.locales, self.current.as_str()) {
            Some(i) => self.locales[i].value.display_name.as_str(),
            None => self.current.as_str(),
        }
    }

    /// Font file of the current locale (`None` = keep the game's own font).
    pub fn current_font(&self) -> (r: Option<&str>)
        ensures
            opt_str_view(r) == (if self@.locales.contains_key(self@.current) {
                self@.locales[self@.current].font
            } else {
                None
            }),
    {
        proof {
            use_type_invariant(self);
        }
        match find(&self.locales, self.current.as_str()) {
            Some(i) => match &self.locales[i].value.font {
                Some(f) => Some(f.as_str()),
                None => None,
            },
            None => None,
        }
    }

    /// Whether the locale changed since the engine last applied its font.
    /// Clears the flag.
    pub fn take_font_dirty(&mut self) -> (r: bool)
        ensures
            r == old(self)@.font_dirty,
            final(self)@ == model_font_taken(old(self)@),
    {
        proof {
            use_type_invariant(&*self);
        }
        let r = self.font_dirty;
        self.font_dirty = false;
        r
    }

    /// The locale font handle the engine currently has applied.
    pub fn active_font(&self) -> (r: Option<FontHandle>)
        ensures
            r == self@.active_font,
    {
        self.active_font
    }

    /// Record the font handle the engine applied for the current locale.
    pub fn set_active_font(&mut self, font: Option<FontHandle>)
        ensures
            final(self)@ == (StringsModel { active_font: font, ..old(self)@ }),
    {
        proof {
            use_type_invariant(&*self);
        }
        self.active_font = font;
    }
}

impl Default for Strings {
    /// No locales and an empty current locale id.
    fn default() -> (r: Self)
        ensures
            r@.ids.len() == 0,
            r@.locales.dom().is_empty(),
            r@.current == Seq::<char>::empty(),
            !r@.font_dirty,
            r@.active_font is None,
    {
        let r = Strings {
            locales: Vec::new(),
            current: String::new(),
            font_dirty: false,
            active_font: None,
        };
        assert(r@.locales.dom() =~= Set::empty());
        r
    }
}

} // verus!
