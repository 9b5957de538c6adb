//! The editor's asset browser: lazy thumbnail loading with a per-frame
//! budget, the tile grid's cells, and the feedback of click-to-assign.
use vstd::prelude::*;
use crate::assets::AssetError;

verus! {

/// Cap on texture loads per frame so a big folder doesn't hitch one frame.
pub const MAX_THUMBNAIL_LOADS_PER_FRAME: usize = 4;

/// What kind of file an asset is.
#[derive(Debug, Clone, Copy, PartialEq, Eq, Structural)]
pub enum AssetKind {
    Image,
    Scene,
}

/// One file shown in the asset browser.
#[derive(Debug)]
pub struct AssetEntry {
    /// File name shown under the tile.
    pub name: String,
    /// Path relative to the asset base.
    pub relative_path: String,
    pub kind: AssetKind,
    /// The thumbnail texture, once loaded.
    pub texture_handle: Option<u32>,
    /// Set when loading the thumbnail failed; it is not retried.
    pub load_failed: bool,
}

impl Clone for AssetEntry {
    fn clone(&self) -> (r: Self)
        ensures
            r == *self,
    {
        AssetEntry {
            name: self.name.clone(),
            relative_path: self.relative_path.clone(),
            kind: self.kind,
            texture_handle: self.texture_handle,
            load_failed: self.load_failed,
        }
    }
}

/// Whether an entry still needs its thumbnail: an image with no texture
/// whose load has not failed.
pub open spec fn needs_thumbnail(e: AssetEntry) -> bool {
    e.kind == AssetKind::Image && e.texture_handle is None && !e.load_failed
}

/// How many of the entries need a thumbnail.
pub open spec fn count_needing(s: Seq<AssetEntry>) -> nat
    decreases s.len(),
{
    if s.len() == 0 {
        0
    } else {
        count_needing(s.drop_last()) + if needs_thumbnail(s.last()) { 1nat } else { 0nat }
    }
}

/// Whether entry `i` gets a load attempt this frame: it needs a thumbnail
/// and fewer than the budget of entries before it do.
pub open spec fn attempted(s: Seq<AssetEntry>, i: int) -> bool {
    needs_thumbnail(s[i]) && count_needing(s.take(i)) < MAX_THUMBNAIL_LOADS_PER_FRAME
}

/// An entry after a load attempt: the texture on success, marked failed on
/// error.
pub open spec fn after_load(e: AssetEntry, result: Result<u32, AssetError>) -> AssetEntry {
    match result {
        Ok(id) => AssetEntry { texture_handle: Some(id), ..e },
        Err(_) => AssetEntry { load_failed: true, ..e },
    }
}

/// `after` is `e` after a load attempt that `load` may have answered with
/// some result.
pub open spec fn loaded_by<F: Fn(&String) -> Result<u32, AssetError>>(load: F, e: AssetEntry, after: AssetEntry) -> bool {
    exists|res: Result<u32, AssetError>| #[trigger] call_ensures(load, (&e.relative_path,), res) && after == after_load(e, res)
}

proof fn lemma_count_needing_step(s: Seq<AssetEntry>, i: int)
    requires
        0 <= i < s.len(),
    ensures
        count_needing(s.take(i + 1)) == count_needing(s.take(i)) + if needs_thumbnail(s[i]) { 1nat } else { 0nat },
{
    assert(s.take(i + 1).drop_last() =~= s.take(i));
}

/// Load the thumbnails of this frame with `load`, which loads a texture
/// from an asset path: the entries that need one are tried in order, at most
/// [`MAX_THUMBNAIL_LOADS_PER_FRAME`] of them. A success records the texture,
/// a failure marks the entry so it is not retried. Returns how many loads
/// were tried.
pub fn load_thumbnails<F: Fn(&String) -> Result<u32, AssetError>>(entries: &mut Vec<AssetEntry>, load: F) -> (r: usize)
    requires
        forall|i: int| 0 <= i < old(entries)@.len() ==> call_requires(load, (&old(entries)@[i].relative_path,)),
    ensures
        r == (if count_needing(old(entries)@) < MAX_THUMBNAIL_LOADS_PER_FRAME {
            count_needing(old(entries)@)
        } else {
            MAX_THUMBNAIL_LOADS_PER_FRAME as nat
        }),
        final(entries)@.len() == old(entries)@.len(),
        forall|i: int|
            0 <= i < old(entries)@.len() && !attempted(old(entries)@, i) ==> #[trigger] final(entries)@[i]
                == old(entries)@[i],
        forall|i: int|
            0 <= i < old(entries)@.len() && attempted(old(entries)@, i) ==> loaded_by(
                load,
                old(entries)@[i],
                #[trigger] final(entries)@[i],
            ),
{
    let ghost start = entries@;
    let mut loads: usize = 0;
    let mut i: usize = 0;
    while i < entries.len() && loads < MAX_THUMBNAIL_LOADS_PER_FRAME
        invariant
            i <= start.len(),
            entries@.len() == start.len(),
            start == old(entries)@,
            forall|j: int| 0 <= j < start.len() ==> call_requires(load, (&start[j].relative_path,)),
            loads == (if count_needing(start.take(i as int)) < MAX_THUMBNAIL_LOADS_PER_FRAME {
                count_needing(start.take(i as int))
            } else {
                MAX_THUMBNAIL_LOADS_PER_FRAME as nat
            }),
            forall|j: int| i <= j < start.len() ==> #[trigger] entries@[j] == start[j],
            forall|j: int| 0 <= j < i && !attempted(start, j) ==> #[trigger] entries@[j] == start[j],
            forall|j: int| 0 <= j < i && attempted(start, j) ==> loaded_by(load, start[j], #[trigger] entries@[j]),
        decreases start.len() - i,
    {
        proof {
            lemma_count_needing_step(start, i as int);
        }
        let ghost before = entries@;
        let e = &entries[i];
        if e.kind == AssetKind::Image && e.texture_handle.is_none() && !e.load_failed {
            let result = load(&e.relative_path);
            let mut updated = e.clone();
            match result {
                Ok(id) => {
                    updated.texture_handle = Some(id);
                },
                Err(_) => {
                    updated.load_failed = true;
                },
            }
            proof {
                assert(updated == after_load(start[i as int], result));
                assert(call_ensures(load, (&start[i as int].relative_path,), result));
            }
            entries.set(i, updated);
            loads = loads + 1;
            proof {
                assert(loaded_by(load, start[i as int], entries@[i as int]));
                assert forall|j: int| 0 <= j < i && attempted(start, j) implies loaded_by(
                    load,
                    start[j],
                    #[trigger] entries@[j],
                ) by {
                    assert(entries@[j] == before[j]);
                }
            }
        }
        i = i + 1;
    }
    proof {
        if i < start.len() {
            lemma_budget_spent(start, i as int);
        } else {
            assert(start.take(i as int) =~= start);
        }
    }
    loads
}

/// A thumbnail that loaded is never loaded again, and one that failed is
/// never retried: only entries still needing one are attempted, and an
/// attempt leaves the entry needing none.
pub proof fn law_thumbnails_load_at_most_once(s: Seq<AssetEntry>, i: int, result: Result<u32, AssetError>)
    requires
        0 <= i < s.len(),
    ensures
        !needs_thumbnail(s[i]) ==> !attempted(s, i),
        !needs_thumbnail(after_load(s[i], result)),
{
}

/// Once the budget is spent at entry `i`, no later entry is attempted and
/// the count of entries needing a thumbnail is at least the budget.
proof fn lemma_budget_spent(s: Seq<AssetEntry>, i: int)
    requires
        0 <= i <= s.len(),
        count_needing(s.take(i)) >= MAX_THUMBNAIL_LOADS_PER_FRAME,
    ensures
        forall|j: int| i <= j < s.len() ==> !attempted(s, j),
        count_needing(s) >= MAX_THUMBNAIL_LOADS_PER_FRAME,
{
    assert forall|j: int| i <= j < s.len() implies !attempted(s, j) by {
        lemma_count_needing_monotone(s, i, j);
    }
    lemma_count_needing_monotone(s, i, s.len() as int);
    assert(s.take(s.len() as int) =~= s);
}

proof fn lemma_count_needing_monotone(s: Seq<AssetEntry>, i: int, j: int)
    requires
        0 <= i <= j <= s.len(),
    ensures
        count_needing(s.take(i)) <= count_needing(s.take(j)),
    decreases j - i,
{
    if i < j {
        lemma_count_needing_monotone(s, i, j - 1);
        lemma_count_needing_step(s, j - 1);
    }
}

/// The cell (column, row) of tile `index` in a grid `columns` wide; a zero
/// width counts as one column.
pub fn tile_cell(index: usize, columns: usize) -> (r: (usize, usize))
    ensures
        columns > 0 ==> r == ((index % columns) as usize, (index / columns) as usize),
        columns == 0 ==> r == (0usize, index),
{
    let c = if columns == 0 { 1 } else { columns };
    (index % c, index / c)
}

/// Number of tile rows needed for `count` tiles in a grid `columns` wide
/// (at least one column).
pub fn tile_rows(count: usize, columns: usize) -> (r: usize)
    requires
        columns > 0,
    ensures
        r == (count + columns - 1) / (columns as int),
        r * columns >= count,
        count > 0 ==> (r - 1) * columns < count,
{
    let q = count / columns;
    proof {
        assert(count % columns != 0 ==> q < count) by (nonlinear_arith)
            requires
                columns > 0,
                q == count / columns,
        ;
    }
    let r = if count % columns == 0 { q } else { q + 1 };
    proof {
        let c = columns as int;
        let n = count as int;
        assert(n == c * (n / c) + n % c) by (nonlinear_arith)
            requires
                c > 0,
        ;
        assert(0 <= n % c < c) by (nonlinear_arith)
            requires
                c > 0,
        ;
        if n % c == 0 {
            assert((n + c - 1) / c == n / c) by (nonlinear_arith)
                requires
                    c > 0,
                    n == c * (n / c),
            ;
        } else {
            assert((n + c - 1) / c == n / c + 1) by (nonlinear_arith)
                requires
                    c > 0,
                    n == c * (n / c) + n % c,
                    0 < n % c < c,
            ;
        }
        assert(r * c >= n) by (nonlinear_arith)
            requires
                c > 0,
                n == c * (n / c) + n % c,
                0 <= n % c < c,
                r == (if n % c == 0 { n / c } else { n / c + 1 }),
        ;
        assert(n > 0 ==> (r - 1) * c < n) by (nonlinear_arith)
            requires
                c > 0,
                n == c * (n / c) + n % c,
                0 <= n % c < c,
                r == (if n % c == 0 { n / c } else { n / c + 1 }),
        ;
    }
    r
}

/// The status message after a click on a thumbnail: the texture was
/// assigned to the selected entity, the selected entity has no sprite, or
/// nothing is selected.
pub open spec fn spec_assign_message(selected: bool, assigned: bool, path: Seq<char>) -> Seq<char> {
    if selected && assigned {
        "Assigned "@ + path
    } else if selected {
        "Select an entity with a Sprite to assign textures"@
    } else {
        "Select an entity first (or drag onto the scene)"@
    }
}

/// The status message after clicking the thumbnail of `path`.
pub fn assign_message(selected: bool, assigned: bool, path: &str) -> (r: String)
    ensures
        r@ == spec_assign_message(selected, assigned, path@),
{
    if selected && assigned {
        let mut m = "Assigned ".to_string();
        m.append(path);
        m
    } else if selected {
        "Select an entity with a Sprite to assign textures".to_string()
    } else {
        "Select an entity first (or drag onto the scene)".to_string()
    }
}

} // verus!
