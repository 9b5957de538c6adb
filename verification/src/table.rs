//! A string-keyed table kept sorted by key, with no key twice.
//!
//! Used wherever the engine keys data by name and hands it out in sorted
//! order (locale ids, localization keys).
use vstd::prelude::*;
use crate::text::{seq_lt, str_eq, str_lt, lemma_seq_lt_irreflexive, lemma_seq_lt_trichotomy,
    lemma_seq_lt_transitive};

verus! {

/// One keyed entry of a table.
#[derive(Debug)]
pub struct Entry<V> {
    pub key: String,
    pub value: V,
}

/// Keys strictly increase along the table (so no key occurs twice).
pub open spec fn keys_sorted<V>(s: Seq<Entry<V>>) -> bool {
    forall|i: int, j: int| 0 <= i < j < s.len() ==> seq_lt(#[trigger] s[i].key@, #[trigger] s[j].key@)
}

/// The keys of a table, in table order.
pub open spec fn table_keys<V>(s: Seq<Entry<V>>) -> Seq<Seq<char>> {
    s.map_values(|e: Entry<V>| e.key@)
}

/// Whether some entry of the table has key `k`.
pub open spec fn has_key<V>(s: Seq<Entry<V>>, k: Seq<char>) -> bool {
    exists|i: int| 0 <= i < s.len() && #[trigger] s[i].key@ == k
}

/// An index of an entry with key `k` (meaningful when `has_key(s, k)`).
pub open spec fn key_index<V>(s: Seq<Entry<V>>, k: Seq<char>) -> int {
    choose|i: int| 0 <= i < s.len() && #[trigger] s[i].key@ == k
}

/// The table as a map from key to value.
pub open spec fn table_map<V>(s: Seq<Entry<V>>) -> Map<Seq<char>, V> {
    Map::new(|k: Seq<char>| has_key(s, k), |k: Seq<char>| s[key_index(s, k)].value)
}

/// In a sorted table the entry at `i` is what the map holds for its key.
pub proof fn lemma_table_entry<V>(s: Seq<Entry<V>>, i: int)
    requires
        keys_sorted(s),
        0 <= i < s.len(),
    ensures
        table_map(s).contains_key(s[i].key@),
        table_map(s)[s[i].key@] == s[i].value,
{
    let k = s[i].key@;
    assert(has_key(s, k));
    let j = key_index(s, k);
    if j != i {
        lemma_seq_lt_irreflexive(k);
        if j < i {
            assert(seq_lt(s[j].key@, s[i].key@));
        } else {
            assert(seq_lt(s[i].key@, s[j].key@));
        }
    }
    assert(j == i);
    assert(table_map(s)[k] == s[j].value);
}

/// A sorted table maps exactly as many keys as it has entries.
pub proof fn lemma_table_len<V>(s: Seq<Entry<V>>)
    requires
        keys_sorted(s),
    ensures
        table_map(s).dom().finite(),
        table_map(s).dom().len() == s.len(),
{
    let ks = table_keys(s);
    assert(ks.no_duplicates()) by {
        assert forall|i: int, j: int| 0 <= i < ks.len() && 0 <= j < ks.len() && i != j implies ks[i] != ks[j] by {
            lemma_seq_lt_irreflexive(ks[i]);
            if i < j {
                assert(seq_lt(s[i].key@, s[j].key@));
            } else {
                assert(seq_lt(s[j].key@, s[i].key@));
            }
        }
    }
    ks.unique_seq_to_set();
    assert(table_map(s).dom() =~= ks.to_set()) by {
        assert forall|k: Seq<char>| table_map(s).dom().contains(k) <==> ks.to_set().contains(k) by {
            if has_key(s, k) {
                let w = choose|w: int| 0 <= w < s.len() && #[trigger] s[w].key@ == k;
                assert(ks[w] == k);
            }
            if ks.to_set().contains(k) {
                let w = choose|w: int| 0 <= w < ks.len() && ks[w] == k;
                assert(s[w].key@ == k);
            }
        }
    }
}

/// Where `key` sits in a sorted table: `Ok(i)` when entry `i` has it,
/// `Err(i)` when it is absent and `i` is where it would go.
pub fn search<V>(s: &Vec<Entry<V>>, key: &str) -> (r: Result<usize, usize>)
    requires
        keys_sorted(s@),
    ensures
        match r {
            Ok(i) => i < s@.len() && s@[i as int].key@ == key@,
            Err(i) => i <= s@.len() && !has_key(s@, key@)
                && (forall|j: int| 0 <= j < i ==> seq_lt(#[trigger] s@[j].key@, key@))
                && (forall|j: int| i <= j < s@.len() ==> seq_lt(key@, #[trigger] s@[j].key@)),
        },
{
    let mut i: usize = 0;
    while i < s.len()
        invariant
            keys_sorted(s@),
            i <= s@.len(),
            forall|j: int| 0 <= j < i ==> seq_lt(#[trigger] s@[j].key@, key@),
        decreases s@.len() - i,
    {
        if !str_lt(s[i].key.as_str(), key) {
            if str_eq(s[i].key.as_str(), key) {
                return Ok(i);
            }
            proof {
                lemma_seq_lt_trichotomy(s@[i as int].key@, key@);
                assert forall|j: int| i <= j < s@.len() implies seq_lt(key@, #[trigger] s@[j].key@) by {
                    if j > i {
                        lemma_seq_lt_transitive(key@, s@[i as int].key@, s@[j].key@);
                    }
                }
                assert forall|j: int| 0 <= j < s@.len() implies #[trigger] s@[j].key@ != key@ by {
                    lemma_seq_lt_irreflexive(key@);
                    if j >= i {
                        assert(seq_lt(key@, s@[j].key@));
                    }
                }
            }
            return Err(i);
        }
        i = i + 1;
    }
    proof {
        assert forall|j: int| 0 <= j < s@.len() implies #[trigger] s@[j].key@ != key@ by {
            lemma_seq_lt_irreflexive(key@);
        }
    }
    Err(i)
}

/// Look up `key`: the index of its entry, if any.
pub fn find<V>(s: &Vec<Entry<V>>, key: &str) -> (r: Option<usize>)
    requires
        keys_sorted(s@),
    ensures
        r is None <==> !table_map(s@).contains_key(key@),
        r matches Some(i) ==> i < s@.len() && s@[i as int].key@ == key@
            && table_map(s@)[key@] == s@[i as int].value,
{
    match search(s, key) {
        Ok(i) => {
            proof {
                lemma_table_entry(s@, i as int);
            }
            Some(i)
        },
        Err(_) => None,
    }
}

/// Set `key` to `value`: replaces the value when the key is present,
/// otherwise adds the entry at its sorted place.
pub fn insert<V>(s: &mut Vec<Entry<V>>, key: String, value: V)
    requires
        keys_sorted(old(s)@),
    ensures
        keys_sorted(final(s)@),
        table_map(final(s)@) == table_map(old(s)@).insert(key@, value),
{
    let ghost old_s = s@;
    let ghost k = key@;
    match search(s, key.as_str()) {
        Ok(i) => {
            s.set(i, Entry { key, value });
            proof {
                let new_s = s@;
                assert(new_s == old_s.update(i as int, Entry { key: new_s[i as int].key, value }));
                assert(forall|j: int| 0 <= j < new_s.len() ==> #[trigger] new_s[j].key@ == old_s[j].key@);
                assert(keys_sorted(new_s));
                assert forall|q: Seq<char>| #[trigger] table_map(new_s).contains_key(q)
                    == table_map(old_s).insert(k, value).contains_key(q) by {
                    if has_key(old_s, q) {
                        let w = choose|w: int| 0 <= w < old_s.len() && #[trigger] old_s[w].key@ == q;
                        assert(new_s[w].key@ == q);
                    }
                    if has_key(new_s, q) {
                        let w = choose|w: int| 0 <= w < new_s.len() && #[trigger] new_s[w].key@ == q;
                        assert(old_s[w].key@ == q);
                    }
                }
                assert forall|q: Seq<char>| #[trigger] table_map(new_s).contains_key(q) implies
                    table_map(new_s)[q] == table_map(old_s).insert(k, value)[q] by {
                    let w = choose|w: int| 0 <= w < new_s.len() && #[trigger] new_s[w].key@ == q;
                    lemma_table_entry(new_s, w);
                    if w != i {
                        lemma_table_entry(old_s, w);
                        lemma_seq_lt_irreflexive(k);
                        if w < i {
                            assert(seq_lt(new_s[w].key@, new_s[i as int].key@));
                        } else {
                            assert(seq_lt(new_s[i as int].key@, new_s[w].key@));
                        }
                        assert(q != k);
                    }
                }
                assert(table_map(new_s) =~= table_map(old_s).insert(k, value));
            }
        },
        Err(i) => {
            s.insert(i, Entry { key, value });
            proof {
                let new_s = s@;
                assert(new_s == old_s.insert(i as int, Entry { key: new_s[i as int].key, value }));
                assert forall|a: int, b: int| 0 <= a < b < new_s.len() implies seq_lt(
                    #[trigger] new_s[a].key@,
                    #[trigger] new_s[b].key@,
                ) by {
                    if b < i {
                        assert(new_s[a] == old_s[a] && new_s[b] == old_s[b]);
                    } else if b == i {
                        assert(new_s[a] == old_s[a]);
                    } else if a == i {
                        assert(new_s[b] == old_s[b - 1]);
                    } else if a < i {
                        assert(new_s[a] == old_s[a] && new_s[b] == old_s[b - 1]);
                        lemma_seq_lt_transitive(old_s[a].key@, k, old_s[b - 1].key@);
                    } else {
                        assert(new_s[a] == old_s[a - 1] && new_s[b] == old_s[b - 1]);
                    }
                }
                assert forall|q: Seq<char>| #[trigger] table_map(new_s).contains_key(q)
                    == table_map(old_s).insert(k, value).contains_key(q) by {
                    if has_key(old_s, q) {
                        let w = choose|w: int| 0 <= w < old_s.len() && #[trigger] old_s[w].key@ == q;
                        if w < i {
                            assert(new_s[w] == old_s[w]);
                        } else {
                            assert(new_s[w + 1] == old_s[w]);
                        }
                    }
                    if has_key(new_s, q) {
                        let w = choose|w: int| 0 <= w < new_s.len() && #[trigger] new_s[w].key@ == q;
                        if w < i {
                            assert(old_s[w] == new_s[w]);
                        } else if w > i {
                            assert(old_s[w - 1] == new_s[w]);
                        }
                    }
                    assert(new_s[i as int].key@ == k);
                }
                assert forall|q: Seq<char>| #[trigger] table_map(new_s).contains_key(q) implies
                    table_map(new_s)[q] == table_map(old_s).insert(k, value)[q] by {
                    let w = choose|w: int| 0 <= w < new_s.len() && #[trigger] new_s[w].key@ == q;
                    lemma_table_entry(new_s, w);
                    if w < i {
                        assert(old_s[w] == new_s[w]);
                        lemma_table_entry(old_s, w);
                    } else if w > i {
                        assert(old_s[w - 1] == new_s[w]);
                        lemma_table_entry(old_s, w - 1);
                    }
                }
                assert(table_map(new_s) =~= table_map(old_s).insert(k, value));
            }
        },
    }
}

} // verus!
