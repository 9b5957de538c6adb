//! Generic pickup / collectible tracking shared by games.
//!
//! Games spawn pickup entities however they like, `track` them here with a
//! game-defined kind, and each frame call [`Pickups::collect`] with the
//! frame's collision events and the collector entities. The engine owns the
//! mechanism — collection detection and once-per-pickup semantics — while
//! games own what kinds exist and what they grant. Collected and removed
//! pickups are handed back so the caller can destroy their entities.
use vstd::prelude::*;

verus! {

/// An entity of the game world.
#[derive(Debug, Clone, Copy, PartialEq, Eq, Hash, Structural)]
pub struct EntityId(pub u64);

/// A collision between two entities, as the physics step reports it.
#[derive(Debug, Clone, Copy, PartialEq, Eq, Structural)]
pub struct CollisionEvent {
    pub entity_a: EntityId,
    pub entity_b: EntityId,
    /// The contact began this step.
    pub started: bool,
    /// The contact ended this step.
    pub stopped: bool,
}

impl CollisionEvent {
    /// The collision is between `a` and `b`, in either order.
    pub open spec fn spec_involves(self, a: EntityId, b: EntityId) -> bool {
        (self.entity_a == a && self.entity_b == b) || (self.entity_a == b && self.entity_b == a)
    }

    /// Whether the collision is between `a` and `b`, in either order.
    pub fn involves(&self, a: EntityId, b: EntityId) -> (r: bool)
        ensures
            r == self.spec_involves(a, b),
    {
        (self.entity_a == a && self.entity_b == b) || (self.entity_a == b && self.entity_b == a)
    }
}

/// A live pickup entity with its game-defined kind.
#[derive(Debug, Clone, Copy)]
pub struct Pickup<K> {
    /// The pickup's entity (sprite + sensor collider, spawned by the game)
    pub entity: EntityId,
    /// Game-defined kind (what catching it grants)
    pub kind: K,
}

/// One collected pickup: its kind, who collected it, and its entity (to be
/// destroyed by the caller).
#[derive(Debug, Clone, Copy)]
pub struct Collected<K> {
    pub kind: K,
    pub collector: EntityId,
    pub pickup: EntityId,
}

/// The first collector (in `collectors` order) that event `ev` pairs with
/// `pickup`.
pub open spec fn collector_hit(ev: CollisionEvent, collectors: Seq<EntityId>, pickup: EntityId) -> Option<EntityId>
    decreases collectors.len(),
{
    if collectors.len() == 0 {
        None
    } else if ev.spec_involves(collectors[0], pickup) {
        Some(collectors[0])
    } else {
        collector_hit(ev, collectors.drop_first(), pickup)
    }
}

/// Who collects `pickup` this frame: scanning the events in order, the first
/// started event that pairs it with a collector decides, and within it the
/// first matching collector.
pub open spec fn first_hit(collisions: Seq<CollisionEvent>, collectors: Seq<EntityId>, pickup: EntityId) -> Option<EntityId>
    decreases collisions.len(),
{
    if collisions.len() == 0 {
        None
    } else if collisions[0].started && collector_hit(collisions[0], collectors, pickup) is Some {
        collector_hit(collisions[0], collectors, pickup)
    } else {
        first_hit(collisions.drop_first(), collectors, pickup)
    }
}

/// The pickups that survive `collect`, in their order.
pub open spec fn kept<K>(items: Seq<Pickup<K>>, collisions: Seq<CollisionEvent>, collectors: Seq<EntityId>) -> Seq<Pickup<K>>
    decreases items.len(),
{
    if items.len() == 0 {
        Seq::empty()
    } else {
        let rest = kept(items.drop_last(), collisions, collectors);
        if first_hit(collisions, collectors, items.last().entity) is None {
            rest.push(items.last())
        } else {
            rest
        }
    }
}

/// The pickups `collect` collects, in their order.
pub open spec fn gathered<K>(items: Seq<Pickup<K>>, collisions: Seq<CollisionEvent>, collectors: Seq<EntityId>) -> Seq<Collected<K>>
    decreases items.len(),
{
    if items.len() == 0 {
        Seq::empty()
    } else {
        let rest = gathered(items.drop_last(), collisions, collectors);
        match first_hit(collisions, collectors, items.last().entity) {
            Some(c) => rest.push(Collected { kind: items.last().kind, collector: c, pickup: items.last().entity }),
            None => rest,
        }
    }
}

/// The entries of `items` whose flag in `keep` is `want`, in order.
pub open spec fn select<K>(items: Seq<Pickup<K>>, keep: Seq<bool>, want: bool) -> Seq<Pickup<K>>
    decreases items.len(),
{
    if items.len() == 0 || keep.len() != items.len() {
        Seq::empty()
    } else {
        let rest = select(items.drop_last(), keep.drop_last(), want);
        if keep.last() == want {
            rest.push(items.last())
        } else {
            rest
        }
    }
}

/// Tracks live pickups and resolves collection against collision events.
#[derive(Debug)]
pub struct Pickups<K> {
    items: Vec<Pickup<K>>,
}

impl<K> View for Pickups<K> {
    type V = Seq<Pickup<K>>;

    closed spec fn view(&self) -> Seq<Pickup<K>> {
        self.items@
    }
}

impl<K: Copy> Pickups<K> {
    /// Create an empty pickup set.
    pub fn new() -> (r: Self)
        ensures
            r@ == Seq::<Pickup<K>>::empty(),
    {
        Pickups { items: Vec::new() }
    }

    /// Start tracking a spawned pickup entity.
    pub fn track(&mut self, entity: EntityId, kind: K)
        ensures
            final(self)@ == old(self)@.push(Pickup { entity, kind }),
    {
        self.items.push(Pickup { entity, kind });
    }

    /// Number of live pickups.
    pub fn len(&self) -> (r: usize)
        ensures
            r == self@.len(),
    {
        self.items.len()
    }

    /// Whether no pickups are live.
    pub fn is_empty(&self) -> (r: bool)
        ensures
            r == (self@.len() == 0),
    {
        self.items.len() == 0
    }

    /// Entities of all live pickups, in tracking order.
    pub fn entities(&self) -> (r: Vec<EntityId>)
        ensures
            r@.len() == self@.len(),
            forall|i: int| 0 <= i < r@.len() ==> r@[i] == (#[trigger] self@[i]).entity,
    {
        let mut r: Vec<EntityId> = Vec::new();
        let mut i: usize = 0;
        while i < self.items.len()
            invariant
                i <= self.items@.len(),
                r@.len() == i,
                forall|j: int| 0 <= j < i ==> r@[j] == (#[trigger] self.items@[j]).entity,
            decreases self.items@.len() - i,
        {
            r.push(self.items[i].entity);
            i = i + 1;
        }
        r
    }

    /// Resolve collection: any pickup with a started collision against one
    /// of `collectors` is collected — removed from tracking and returned with
    /// its kind and collector. Each pickup is collected at most once per call
    /// (the first matching event and collector win), even if several
    /// collectors touch it in the same frame. Returned in tracking order.
    pub fn collect(&mut self, collisions: &[CollisionEvent], collectors: &[EntityId]) -> (r: Vec<Collected<K>>)
        ensures
            final(self)@ == kept(old(self)@, collisions@, collectors@),
            r@ == gathered(old(self)@, collisions@, collectors@),
    {
        let ghost items = self.items@;
        let mut keep: Vec<Pickup<K>> = Vec::new();
        let mut got: Vec<Collected<K>> = Vec::new();
        let mut i: usize = 0;
        while i < self.items.len()
            invariant
                self.items@ == items,
                i <= items.len(),
                keep@ == kept(items.take(i as int), collisions@, collectors@),
                got@ == gathered(items.take(i as int), collisions@, collectors@),
            decreases items.len() - i,
        {
            let pickup = self.items[i];
            proof {
                assert(items.take(i + 1).drop_last() =~= items.take(i as int));
                assert(items.take(i + 1).last() == pickup);
            }
            match find_hit(collisions, collectors, pickup.entity) {
                Some(collector) => {
                    got.push(Collected { kind: pickup.kind, collector, pickup: pickup.entity });
                },
                None => {
                    keep.push(pickup);
                },
            }
            i = i + 1;
        }
        proof {
            assert(items.take(items.len() as int) =~= items);
        }
        self.items = keep;
        got
    }

    /// Remove every pickup matching `pred` (missed / expired), returning
    /// their entities in tracking order.
    pub fn remove_where<F: Fn(&Pickup<K>) -> bool>(&mut self, pred: F) -> (r: Vec<EntityId>)
        requires
            forall|i: int| 0 <= i < old(self)@.len() ==> call_requires(pred, (&#[trigger] old(self)@[i],)),
        ensures
            exists|keep: Seq<bool>| {
                &&& keep.len() == old(self)@.len()
                &&& forall|i: int| 0 <= i < keep.len() ==> call_ensures(pred, (&#[trigger] old(self)@[i],), !keep[i])
                &&& final(self)@ == select(old(self)@, keep, true)
                &&& r@ == select(old(self)@, keep, false).map_values(|p: Pickup<K>| p.entity)
            },
    {
        let ghost items = self.items@;
        let ghost mut flags: Seq<bool> = Seq::empty();
        let mut keep: Vec<Pickup<K>> = Vec::new();
        let mut removed: Vec<EntityId> = Vec::new();
        let mut i: usize = 0;
        assert(items == old(self)@);
        while i < self.items.len()
            invariant
                self.items@ == items,
                i <= items.len(),
                flags.len() == i,
                forall|j: int| 0 <= j < items.len() ==> call_requires(pred, (&#[trigger] items[j],)),
                forall|j: int| 0 <= j < i ==> call_ensures(pred, (&#[trigger] items[j],), !flags[j]),
                keep@ == select(items.take(i as int), flags, true),
                removed@ == select(items.take(i as int), flags, false).map_values(|p: Pickup<K>| p.entity),
            decreases items.len() - i,
        {
            let pickup = self.items[i];
            let gone = pred(&pickup);
            let ghost old_flags = flags;
            proof {
                assert(items.take(i + 1).drop_last() =~= items.take(i as int));
                assert(items.take(i + 1).last() == pickup);
                flags = flags.push(!gone);
                assert(flags.drop_last() =~= old_flags);
            }
            if gone {
                let ghost before = removed@;
                removed.push(pickup.entity);
                proof {
                    assert(select(items.take(i + 1), flags, false) == select(items.take(i as int), old_flags, false).push(pickup));
                    assert(removed@ =~= select(items.take(i + 1), flags, false).map_values(|p: Pickup<K>| p.entity));
                }
            } else {
                keep.push(pickup);
                proof {
                    assert(select(items.take(i + 1), flags, false) == select(items.take(i as int), old_flags, false));
                }
            }
            i = i + 1;
        }
        proof {
            assert(items.take(items.len() as int) =~= items);
        }
        self.items = keep;
        removed
    }

    /// Remove all live pickups (match end / reset), returning their entities
    /// in tracking order.
    pub fn clear(&mut self) -> (r: Vec<EntityId>)
        ensures
            final(self)@ == Seq::<Pickup<K>>::empty(),
            r@.len() == old(self)@.len(),
            forall|i: int| 0 <= i < r@.len() ==> r@[i] == (#[trigger] old(self)@[i]).entity,
    {
        let r = self.entities();
        self.items = Vec::new();
        r
    }
}

impl<K> Default for Pickups<K> {
    fn default() -> (r: Self)
        ensures
            r@ == Seq::<Pickup<K>>::empty(),
    {
        Pickups { items: Vec::new() }
    }
}

/// The first collector that `ev` pairs with `pickup`.
fn find_collector(ev: &CollisionEvent, collectors: &[EntityId], pickup: EntityId) -> (r: Option<EntityId>)
    ensures
        r == collector_hit(*ev, collectors@, pickup),
{
    let mut i: usize = 0;
    assert(collectors@.skip(0) =~= collectors@);
    while i < collectors.len()
        invariant
            i <= collectors@.len(),
            collector_hit(*ev, collectors@, pickup) == collector_hit(*ev, collectors@.skip(i as int), pickup),
        decreases collectors@.len() - i,
    {
        proof {
            assert(collectors@.skip(i as int).drop_first() =~= collectors@.skip(i + 1));
        }
        if ev.involves(collectors[i], pickup) {
            return Some(collectors[i]);
        }
        i = i + 1;
    }
    None
}

/// Who collects `pickup` this frame (see [`first_hit`]).
fn find_hit(collisions: &[CollisionEvent], collectors: &[EntityId], pickup: EntityId) -> (r: Option<EntityId>)
    ensures
        r == first_hit(collisions@, collectors@, pickup),
{
    let mut i: usize = 0;
    assert(collisions@.skip(0) =~= collisions@);
    while i < collisions.len()
        invariant
            i <= collisions@.len(),
            first_hit(collisions@, collectors@, pickup) == first_hit(collisions@.skip(i as int), collectors@, pickup),
        decreases collisions@.len() - i,
    {
        proof {
            assert(collisions@.skip(i as int).drop_first() =~= collisions@.skip(i + 1));
        }
        if collisions[i].started {
            if let Some(c) = find_collector(&collisions[i], collectors, pickup) {
                return Some(c);
            }
        }
        i = i + 1;
    }
    None
}

/// Each pickup is collected at most once: every tracked pickup either stays
/// or is collected, never both, and the counts add up.
pub proof fn law_collect_partitions<K>(items: Seq<Pickup<K>>, collisions: Seq<CollisionEvent>, collectors: Seq<EntityId>)
    ensures
        kept(items, collisions, collectors).len() + gathered(items, collisions, collectors).len() == items.len(),
    decreases items.len(),
{
    if items.len() > 0 {
        law_collect_partitions(items.drop_last(), collisions, collectors);
    }
}

/// Only started collisions collect: with no started event, nothing is
/// collected and every pickup stays.
pub proof fn law_only_started_events_collect<K>(items: Seq<Pickup<K>>, collisions: Seq<CollisionEvent>, collectors: Seq<EntityId>)
    requires
        forall|i: int| 0 <= i < collisions.len() ==> !(#[trigger] collisions[i]).started,
    ensures
        kept(items, collisions, collectors) == items,
        gathered(items, collisions, collectors).len() == 0,
    decreases items.len(),
{
    if items.len() > 0 {
        law_only_started_events_collect(items.drop_last(), collisions, collectors);
        lemma_no_started_no_hit(collisions, collectors, items.last().entity);
        assert(items.drop_last().push(items.last()) =~= items);
    }
}

proof fn lemma_no_started_no_hit(collisions: Seq<CollisionEvent>, collectors: Seq<EntityId>, pickup: EntityId)
    requires
        forall|i: int| 0 <= i < collisions.len() ==> !(#[trigger] collisions[i]).started,
    ensures
        first_hit(collisions, collectors, pickup) is None,
    decreases collisions.len(),
{
    if collisions.len() > 0 {
        assert(!collisions[0].started);
        assert forall|i: int| 0 <= i < collisions.drop_first().len() implies !(#[trigger] collisions.drop_first()[i]).started by {
            assert(collisions.drop_first()[i] == collisions[i + 1]);
        }
        lemma_no_started_no_hit(collisions.drop_first(), collectors, pickup);
    }
}

/// A collected pickup's collector is one of the collectors, and a started
/// event pairs the two.
pub proof fn law_hit_is_a_started_collision(collisions: Seq<CollisionEvent>, collectors: Seq<EntityId>, pickup: EntityId)
    ensures
        first_hit(collisions, collectors, pickup) matches Some(c) ==> collectors.contains(c) && exists|i: int|
            0 <= i < collisions.len() && (#[trigger] collisions[i]).started && collisions[i].spec_involves(c, pickup),
    decreases collisions.len(),
{
    if collisions.len() > 0 {
        law_hit_is_a_started_collision(collisions.drop_first(), collectors, pickup);
        lemma_collector_hit_member(collisions[0], collectors, pickup);
        if first_hit(collisions, collectors, pickup) is Some {
            let c = first_hit(collisions, collectors, pickup)->Some_0;
            if !(collisions[0].started && collector_hit(collisions[0], collectors, pickup) is Some) {
                let i = choose|i: int| 0 <= i < collisions.drop_first().len() && (#[trigger] collisions.drop_first()[i]).started
                    && collisions.drop_first()[i].spec_involves(c, pickup);
                assert(collisions[i + 1] == collisions.drop_first()[i]);
            }
        }
    }
}

proof fn lemma_collector_hit_member(ev: CollisionEvent, collectors: Seq<EntityId>, pickup: EntityId)
    ensures
        collector_hit(ev, collectors, pickup) matches Some(c) ==> collectors.contains(c) && ev.spec_involves(c, pickup),
    decreases collectors.len(),
{
    if collectors.len() > 0 {
        lemma_collector_hit_member(ev, collectors.drop_first(), pickup);
        if collector_hit(ev, collectors, pickup) is Some && !ev.spec_involves(collectors[0], pickup) {
            let c = collector_hit(ev, collectors, pickup)->Some_0;
            let j = choose|j: int| 0 <= j < collectors.drop_first().len() && collectors.drop_first()[j] == c;
            assert(collectors[j + 1] == c);
        }
        if ev.spec_involves(collectors[0], pickup) {
            assert(collectors[0] == collectors[0]);
            assert(collectors.contains(collectors[0]));
        }
    }
}

} // verus!
