//! Achievement / trophy registry.
//!
//! Engine-wide, game-agnostic: games register their own achievements at
//! startup and unlock them by id when conditions are met. Unlocking is
//! idempotent — only the first unlock of a registered achievement counts.
use vstd::prelude::*;
use crate::table::{Entry, keys_sorted, table_map, find, insert, lemma_table_entry, lemma_table_len,
    has_key};
use crate::text::{seq_lt, lemma_seq_lt_irreflexive};

verus! {

/// An achievement definition.
#[derive(Debug)]
pub struct Achievement {
    /// Stable identifier (e.g. `"first_blood"`). Used for unlocking and persistence.
    pub id: String,
    /// Display name shown on toast and in menus.
    pub name: String,
    /// Longer description of how to earn it.
    pub description: String,
    /// If true, name/description stay hidden until unlocked (secret achievement).
    pub hidden: bool,
}

/// The content of an achievement definition.
pub struct AchievementView {
    pub id: Seq<char>,
    pub name: Seq<char>,
    pub description: Seq<char>,
    pub hidden: bool,
}

impl View for Achievement {
    type V = AchievementView;

    open spec fn view(&self) -> AchievementView {
        AchievementView {
            id: self.id@,
            name: self.name@,
            description: self.description@,
            hidden: self.hidden,
        }
    }
}

impl Achievement {
    pub fn new(id: &str, name: &str, description: &str) -> (r: Self)
        ensures
            r@ == (AchievementView { id: id@, name: name@, description: description@, hidden: false }),
    {
        Achievement {
            id: id.to_string(),
            name: name.to_string(),
            description: description.to_string(),
            hidden: false,
        }
    }

    /// The same achievement, marked secret.
    pub fn hidden(self) -> (r: Self)
        ensures
            r@ == (AchievementView { hidden: true, ..self@ }),
    {
        let mut s = self;
        s.hidden = true;
        s
    }

    /// An owned copy.
    pub fn duplicate(&self) -> (r: Self)
        ensures
            r@ == self@,
    {
        Achievement {
            id: self.id.clone(),
            name: self.name.clone(),
            description: self.description.clone(),
            hidden: self.hidden,
        }
    }
}

/// Per-achievement unlock record (persisted).
#[derive(Debug)]
pub struct UnlockRecord {
    /// The unlocked achievement's id.
    pub id: String,
    /// Unix timestamp in seconds when the achievement was unlocked.
    pub unlocked_at: u64,
}

/// Unlock time per id of a list of records, later records overriding
/// earlier ones.
pub open spec fn records_map(s: Seq<UnlockRecord>) -> Map<Seq<char>, u64>
    decreases s.len(),
{
    if s.len() == 0 {
        Map::empty()
    } else {
        records_map(s.drop_last()).insert(s.last().id@, s.last().unlocked_at)
    }
}

/// The abstract registry: definitions by id, and unlock times by id.
pub struct RegistryModel {
    pub registered: Map<Seq<char>, AchievementView>,
    pub unlocked: Map<Seq<char>, u64>,
}

/// What `unlock(id, at)` does: the new registry and whether this call
/// unlocked the achievement (registered and not yet unlocked).
pub open spec fn unlock_outcome(m: RegistryModel, id: Seq<char>, at: u64) -> (RegistryModel, bool) {
    if m.unlocked.contains_key(id) || !m.registered.contains_key(id) {
        (m, false)
    } else {
        (RegistryModel { unlocked: m.unlocked.insert(id, at), ..m }, true)
    }
}

/// Registered achievements and unlock state.
pub struct AchievementRegistry {
    /// Registered achievement definitions, keyed by id.
    registered: Vec<Entry<Achievement>>,
    /// Unlock times, keyed by id.
    unlocks: Vec<Entry<u64>>,
}

impl View for AchievementRegistry {
    type V = RegistryModel;

    closed spec fn view(&self) -> RegistryModel {
        RegistryModel {
            registered: table_map(self.registered@).map_values(|a: Achievement| a@),
            unlocked: table_map(self.unlocks@),
        }
    }
}

impl AchievementRegistry {
    #[verifier::type_invariant]
    closed spec fn wf(self) -> bool {
        &&& keys_sorted(self.registered@)
        &&& keys_sorted(self.unlocks@)
        &&& forall|i: int| 0 <= i < self.registered@.len() ==> (#[trigger] self.registered@[i]).value.id@ == self.registered@[i].key@
    }

    /// A registry with nothing registered and nothing unlocked.
    pub fn new() -> (r: Self)
        ensures
            r@.registered.dom().is_empty(),
            r@.unlocked.dom().is_empty(),
    {
        let r = AchievementRegistry { registered: Vec::new(), unlocks: Vec::new() };
        assert(r@.registered.dom() =~= Set::empty());
        assert(r@.unlocked.dom() =~= Set::empty());
        r
    }

    /// Register an achievement definition. Registering the same id twice
    /// overwrites the previous definition.
    pub fn register(&mut self, achievement: Achievement)
        ensures
            final(self)@.registered == old(self)@.registered.insert(achievement@.id, achievement@),
            final(self)@.unlocked == old(self)@.unlocked,
    {
        proof {
            use_type_invariant(&*self);
        }
        let ghost a = achievement@;
        let ghost old_reg = self.registered@;
        let key = achievement.id.clone();
        let mut registered: Vec<Entry<Achievement>> = Vec::new();
        std::mem::swap(&mut registered, &mut self.registered);
        insert(&mut registered, key, achievement);
        proof {
            assert forall|i: int| 0 <= i < registered@.len() implies (#[trigger] registered@[i]).value.id@
                == registered@[i].key@ by {
                lemma_table_entry(registered@, i);
                if registered@[i].key@ != a.id {
                    let w = choose|w: int| 0 <= w < old_reg.len() && #[trigger] old_reg[w].key@ == registered@[i].key@;
                    lemma_table_entry(old_reg, w);
                }
            }
        }
        self.registered = registered;
        proof {
            assert(self@.registered =~= old(self)@.registered.insert(a.id, a));
        }
    }

    /// The definition registered under `id`, if any.
    pub fn get(&self, id: &str) -> (r: Option<&Achievement>)
        ensures
            r is None <==> !self@.registered.contains_key(id@),
            r matches Some(a) ==> a@ == self@.registered[id@] && a@.id == id@,
    {
        proof {
            use_type_invariant(self);
        }
        match find(&self.registered, id) {
            Some(i) => Some(&self.registered[i].value),
            None => None,
        }
    }

    /// All registered achievements, each once (sorted by id).
    pub fn all(&self) -> (r: Vec<&Achievement>)
        ensures
            r@.len() == self@.registered.len(),
            forall|i: int| 0 <= i < r@.len() ==> self@.registered.contains_key((#[trigger] r@[i])@.id)
                && self@.registered[r@[i]@.id] == r@[i]@,
            forall|k: Seq<char>| #[trigger] self@.registered.contains_key(k) ==> exists|i: int| 0 <= i < r@.len() && (#[trigger] r@[i])@.id == k,
            forall|i: int, j: int| 0 <= i < j < r@.len() ==> seq_lt((#[trigger] r@[i])@.id, (#[trigger] r@[j])@.id),
    {
        proof {
            use_type_invariant(self);
            lemma_table_len(self.registered@);
            assert(self@.registered.dom() =~= table_map(self.registered@).dom());
        }
        let mut r: Vec<&Achievement> = Vec::new();
        let mut i: usize = 0;
        while i < self.registered.len()
            invariant
                keys_sorted(self.registered@),
                forall|j: int| 0 <= j < self.registered@.len() ==> (#[trigger] self.registered@[j]).value.id@ == self.registered@[j].key@,
                i <= self.registered@.len(),
                r@.len() == i,
                forall|j: int| 0 <= j < i ==> (#[trigger] r@[j]) == &self.registered@[j].value,
            decreases self.registered@.len() - i,
        {
            r.push(&self.registered[i].value);
            i = i + 1;
        }
        proof {
            assert forall|j: int| 0 <= j < r@.len() implies self@.registered.contains_key((#[trigger] r@[j])@.id)
                && self@.registered[r@[j]@.id] == r@[j]@ by {
                lemma_table_entry(self.registered@, j);
            }
            assert forall|a: int, b: int| 0 <= a < b < r@.len() implies seq_lt((#[trigger] r@[a])@.id, (#[trigger] r@[b])@.id) by {
                assert(seq_lt(self.registered@[a].key@, self.registered@[b].key@));
            }
            assert forall|k: Seq<char>| #[trigger] self@.registered.contains_key(k) implies exists|j: int| 0 <= j < r@.len() && (#[trigger] r@[j])@.id == k by {
                let w = choose|w: int| 0 <= w < self.registered@.len() && #[trigger] self.registered@[w].key@ == k;
                assert(r@[w]@.id == k);
            }
        }
        r
    }

    /// Number of registered achievements.
    pub fn total(&self) -> (r: usize)
        ensures
            self@.registered.dom().finite(),
            r == self@.registered.len(),
    {
        proof {
            use_type_invariant(self);
            lemma_table_len(self.registered@);
            assert(self@.registered.dom() =~= table_map(self.registered@).dom());
        }
        self.registered.len()
    }

    /// Number of unlocked achievements.
    pub fn unlocked_count(&self) -> (r: usize)
        ensures
            self@.unlocked.dom().finite(),
            r == self@.unlocked.len(),
    {
        proof {
            use_type_invariant(self);
            lemma_table_len(self.unlocks@);
        }
        self.unlocks.len()
    }

    /// True if the achievement with this id is unlocked.
    pub fn is_unlocked(&self, id: &str) -> (r: bool)
        ensures
            r == self@.unlocked.contains_key(id@),
    {
        proof {
            use_type_invariant(self);
        }
        find(&self.unlocks, id).is_some()
    }

    /// Unlock an achievement by id at time `unlocked_at` (Unix seconds).
    /// Returns true if this call actually unlocked it: it is registered and
    /// was not unlocked yet. Calling repeatedly is safe.
    pub fn unlock(&mut self, id: &str, unlocked_at: u64) -> (r: bool)
        ensures
            (final(self)@, r) == unlock_outcome(old(self)@, id@, unlocked_at),
    {
        proof {
            use_type_invariant(&*self);
        }
        if find(&self.unlocks, id).is_some() {
            return false;
        }
        if find(&self.registered, id).is_none() {
            return false;
        }
        let mut unlocks: Vec<Entry<u64>> = Vec::new();
        std::mem::swap(&mut unlocks, &mut self.unlocks);
        insert(&mut unlocks, id.to_string(), unlocked_at);
        self.unlocks = unlocks;
        proof {
            assert(self@.registered =~= old(self)@.registered);
        }
        true
    }

    /// Wipe all unlocked state.
    pub fn reset(&mut self)
        ensures
            final(self)@.registered == old(self)@.registered,
            final(self)@.unlocked.dom().is_empty(),
    {
        proof {
            use_type_invariant(&*self);
        }
        self.unlocks = Vec::new();
        assert(self@.unlocked.dom() =~= Set::empty());
    }

    /// The unlock records, one per unlocked id (for persistence).
    pub fn unlock_records(&self) -> (r: Vec<UnlockRecord>)
        ensures
            records_map(r@) == self@.unlocked,
    {
        proof {
            use_type_invariant(self);
        }
        let mut r: Vec<UnlockRecord> = Vec::new();
        let mut i: usize = 0;
        while i < self.unlocks.len()
            invariant
                keys_sorted(self.unlocks@),
                i <= self.unlocks@.len(),
                records_map(r@) == table_map(self.unlocks@.take(i as int)),
            decreases self.unlocks@.len() - i,
        {
            let ghost before = r@;
            r.push(UnlockRecord { id: self.unlocks[i].key.clone(), unlocked_at: self.unlocks[i].value });
            proof {
                let s = self.unlocks@;
                let t = s.take(i + 1);
                assert(r@.drop_last() =~= before);
                assert(keys_sorted(t));
                assert(keys_sorted(s.take(i as int)));
                lemma_table_entry(t, i as int);
                assert forall|k: Seq<char>| table_map(t).contains_key(k)
                    == table_map(s.take(i as int)).insert(s[i as int].key@, s[i as int].value).contains_key(k) by {
                    if has_key(s.take(i as int), k) {
                        let w = choose|w: int| 0 <= w < i && #[trigger] s.take(i as int)[w].key@ == k;
                        assert(t[w].key@ == k);
                    }
                    if has_key(t, k) {
                        let w = choose|w: int| 0 <= w < i + 1 && #[trigger] t[w].key@ == k;
                        if w < i {
                            assert(s.take(i as int)[w].key@ == k);
                        }
                    }
                }
                assert forall|k: Seq<char>| #[trigger] table_map(t).contains_key(k) implies table_map(t)[k]
                    == table_map(s.take(i as int)).insert(s[i as int].key@, s[i as int].value)[k] by {
                    let w = choose|w: int| 0 <= w < i + 1 && #[trigger] t[w].key@ == k;
                    lemma_table_entry(t, w);
                    if w < i {
                        assert(s.take(i as int)[w] == t[w]);
                        lemma_table_entry(s.take(i as int), w);
                        lemma_seq_lt_irreflexive(k);
                        assert(seq_lt(t[w].key@, t[i as int].key@));
                        assert(k != s[i as int].key@);
                    }
                }
                assert(table_map(t) =~= table_map(s.take(i as int)).insert(s[i as int].key@, s[i as int].value));
            }
            i = i + 1;
        }
        assert(self.unlocks@.take(self.unlocks@.len() as int) =~= self.unlocks@);
        r
    }

    /// Replace the unlock state with saved records (later records for the
    /// same id override earlier ones).
    pub fn restore_unlocks(&mut self, records: Vec<UnlockRecord>)
        ensures
            final(self)@.registered == old(self)@.registered,
            final(self)@.unlocked == records_map(records@),
    {
        proof {
            use_type_invariant(&*self);
        }
        let mut unlocks: Vec<Entry<u64>> = Vec::new();
        let mut i: usize = 0;
        assert(records@.take(0) =~= Seq::<UnlockRecord>::empty());
        assert(table_map(unlocks@) =~= records_map(records@.take(0)));
        while i < records.len()
            invariant
                i <= records@.len(),
                keys_sorted(unlocks@),
                table_map(unlocks@) == records_map(records@.take(i as int)),
            decreases records@.len() - i,
        {
            insert(&mut unlocks, records[i].id.clone(), records[i].unlocked_at);
            assert(records@.take(i + 1).drop_last() =~= records@.take(i as int));
            i = i + 1;
        }
        assert(records@.take(records@.len() as int) =~= records@);
        self.unlocks = unlocks;
    }
}

impl Default for AchievementRegistry {
    fn default() -> (r: Self)
        ensures
            r@.registered.dom().is_empty(),
            r@.unlocked.dom().is_empty(),
    {
        Self::new()
    }
}

/// Unlocking is idempotent: once `unlock(id)` has succeeded, unlocking the
/// same id again returns false and changes nothing.
pub proof fn law_unlock_is_idempotent(m: RegistryModel, id: Seq<char>, at1: u64, at2: u64)
    requires
        unlock_outcome(m, id, at1).1,
    ensures
        unlock_outcome(unlock_outcome(m, id, at1).0, id, at2) == (unlock_outcome(m, id, at1).0, false),
        unlock_outcome(m, id, at1).0.unlocked.contains_key(id),
{
}

/// Only registered achievements can be unlocked, and a successful unlock
/// adds exactly one to the unlocked count.
pub proof fn law_unlock_counts_once(m: RegistryModel, id: Seq<char>, at: u64)
    requires
        m.unlocked.dom().finite(),
    ensures
        !m.registered.contains_key(id) ==> !unlock_outcome(m, id, at).1,
        unlock_outcome(m, id, at).1 ==> unlock_outcome(m, id, at).0.unlocked.len() == m.unlocked.len() + 1,
        !unlock_outcome(m, id, at).1 ==> unlock_outcome(m, id, at).0 == m,
{
}

/// Persistence round trip: the records a registry hands out restore exactly
/// its unlock state.
pub proof fn law_records_restore_unlocks(before: RegistryModel, records: Seq<UnlockRecord>, after: RegistryModel)
    requires
        records_map(records) == before.unlocked,
        after.unlocked == records_map(records),
    ensures
        after.unlocked == before.unlocked,
{
}

} // verus!
