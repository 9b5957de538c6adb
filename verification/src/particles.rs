//! The particle pool's slot management and random source.
//!
//! Particles live in a fixed-size pool. Spawning takes the next dead slot at
//! or after a rotating cursor; when every slot is alive the slot at the
//! cursor (the oldest spawn) is overwritten. Spawn parameters are drawn from
//! a xorshift64* generator whose state is never zero.
use vstd::prelude::*;

verus! {

/// Pool size of a default particle pool.
pub const DEFAULT_CAPACITY: usize = 16_384;

/// The generator's state before any reseed.
pub const DEFAULT_SEED: u64 = 0x9E37_79B9_7F4A_7C15;

/// Number of `true` entries.
pub open spec fn count_alive(s: Seq<bool>) -> nat
    decreases s.len(),
{
    if s.len() == 0 {
        0
    } else {
        count_alive(s.drop_last()) + if s.last() { 1nat } else { 0nat }
    }
}

/// One xorshift64 scramble of the state.
pub open spec fn xorshift(x: u64) -> u64 {
    let a = x ^ (x >> 12u64);
    let b = a ^ (a << 25u64);
    b ^ (b >> 27u64)
}

/// The xorshift64* output for a scrambled state.
pub open spec fn xorshift_output(state: u64) -> u64 {
    state.wrapping_mul(0x2545_F491_4F6C_DD1Du64)
}

/// The slot `cursor + k` (wrapping around the pool of `n` slots).
pub open spec fn ring(cursor: int, k: int, n: int) -> int {
    (cursor + k) % n
}

/// The slot state of the pool: which slots hold a live particle, where the
/// next search starts, and the generator state.
pub struct PoolModel {
    pub alive: Seq<bool>,
    pub cursor: int,
    pub rng_state: u64,
}

/// The offset, counting from `k` on, of the first dead slot met going round
/// the ring from `cursor`; the pool size when every slot from there is live.
pub open spec fn first_dead_offset(alive: Seq<bool>, cursor: int, k: int) -> int
    decreases alive.len() - k,
{
    if k >= alive.len() {
        alive.len() as int
    } else if !alive[ring(cursor, k, alive.len() as int)] {
        k
    } else {
        first_dead_offset(alive, cursor, k + 1)
    }
}

/// The slot the next spawn takes: the first dead slot at or after the
/// cursor (wrapping), or the cursor's slot when every slot is live.
pub open spec fn spec_pick(m: PoolModel) -> int {
    let k = first_dead_offset(m.alive, m.cursor, 0);
    if k < m.alive.len() {
        ring(m.cursor, k, m.alive.len() as int)
    } else {
        m.cursor
    }
}

/// The pool after one spawn: the picked slot is live and the cursor moves
/// past it.
pub open spec fn after_pick(m: PoolModel) -> PoolModel {
    PoolModel {
        alive: m.alive.update(spec_pick(m), true),
        cursor: (spec_pick(m) + 1) % (m.alive.len() as int),
        rng_state: m.rng_state,
    }
}

/// The pool after `k` spawns in a row.
pub open spec fn claim_state(m: PoolModel, k: nat) -> PoolModel
    decreases k,
{
    if k == 0 {
        m
    } else {
        after_pick(claim_state(m, (k - 1) as nat))
    }
}

/// A spawn takes a dead slot whenever one exists, the first one going round
/// from the cursor; a full pool overwrites the cursor's slot, the oldest
/// spawn. Either way the cursor moves just past the slot taken.
pub proof fn law_pick_frees_first_then_oldest(m: PoolModel)
    requires
        m.alive.len() > 0,
        0 <= m.cursor < m.alive.len(),
    ensures
        0 <= spec_pick(m) < m.alive.len(),
        (exists|i: int| 0 <= i < m.alive.len() && !m.alive[i]) ==> !m.alive[spec_pick(m)],
        (forall|i: int| 0 <= i < m.alive.len() ==> m.alive[i]) ==> spec_pick(m) == m.cursor,
        after_pick(m).alive[spec_pick(m)],
        after_pick(m).cursor == (spec_pick(m) + 1) % (m.alive.len() as int),
{
    let n = m.alive.len() as int;
    lemma_first_dead_bounds(m.alive, m.cursor, 0);
    let k = first_dead_offset(m.alive, m.cursor, 0);
    if k < n {
        assert(0 <= ring(m.cursor, k, n) < n) by (nonlinear_arith)
            requires
                n > 0,
                0 <= m.cursor,
                0 <= k,
        ;
    } else {
        assert forall|i: int| 0 <= i < n implies m.alive[i] by {
            lemma_ring_hits(m.cursor, i, n);
            assert(m.alive[ring(m.cursor, ring_offset(m.cursor, i, n), n)]);
        }
    }
}

proof fn lemma_first_dead_bounds(alive: Seq<bool>, cursor: int, k: int)
    requires
        0 <= k <= alive.len(),
    ensures
        k <= first_dead_offset(alive, cursor, k) <= alive.len(),
        first_dead_offset(alive, cursor, k) < alive.len() ==> !alive[ring(
            cursor,
            first_dead_offset(alive, cursor, k),
            alive.len() as int,
        )],
        forall|j: int| k <= j < first_dead_offset(alive, cursor, k) ==> alive[#[trigger] ring(cursor, j, alive.len() as int)],
    decreases alive.len() - k,
{
    if k < alive.len() {
        lemma_first_dead_bounds(alive, cursor, k + 1);
    }
}

proof fn lemma_first_dead_at(alive: Seq<bool>, cursor: int, k: int, i: int)
    requires
        0 <= k <= i < alive.len(),
        forall|j: int| k <= j < i ==> alive[#[trigger] ring(cursor, j, alive.len() as int)],
        !alive[ring(cursor, i, alive.len() as int)],
    ensures
        first_dead_offset(alive, cursor, k) == i,
    decreases i - k,
{
    if k < i {
        lemma_first_dead_at(alive, cursor, k + 1, i);
    }
}

proof fn lemma_no_dead(alive: Seq<bool>, cursor: int, k: int)
    requires
        0 <= k <= alive.len(),
        forall|j: int| k <= j < alive.len() ==> alive[#[trigger] ring(cursor, j, alive.len() as int)],
    ensures
        first_dead_offset(alive, cursor, k) == alive.len(),
    decreases alive.len() - k,
{
    if k < alive.len() {
        lemma_no_dead(alive, cursor, k + 1);
    }
}

/// Slot bookkeeping and the random source of a particle pool.
pub struct ParticleSlots {
    alive: Vec<bool>,
    cursor: usize,
    rng_state: u64,
}

impl View for ParticleSlots {
    type V = PoolModel;

    closed spec fn view(&self) -> PoolModel {
        PoolModel { alive: self.alive@, cursor: self.cursor as int, rng_state: self.rng_state }
    }
}

proof fn lemma_xorshift_nonzero(x: u64)
    requires
        x != 0,
    ensures
        xorshift(x) != 0,
{
    let a = x ^ (x >> 12u64);
    assert(a != 0) by (bit_vector)
        requires
            x != 0,
            a == x ^ (x >> 12u64),
    ;
    let b = a ^ (a << 25u64);
    assert(b != 0) by (bit_vector)
        requires
            a != 0,
            b == a ^ (a << 25u64),
    ;
    let c = b ^ (b >> 27u64);
    assert(c != 0) by (bit_vector)
        requires
            b != 0,
            c == b ^ (b >> 27u64),
    ;
}

impl ParticleSlots {
    #[verifier::type_invariant]
    closed spec fn wf(self) -> bool {
        &&& self.alive@.len() > 0
        &&& self.cursor < self.alive@.len()
        &&& self.rng_state != 0
    }

    /// A pool of `capacity` dead slots (at least one).
    pub fn with_capacity(capacity: usize) -> (r: Self)
        ensures
            r@.alive.len() == if capacity == 0 { 1 } else { capacity as int },
            forall|i: int| 0 <= i < r@.alive.len() ==> !(#[trigger] r@.alive[i]),
            r@.cursor == 0,
            r@.rng_state == DEFAULT_SEED,
    {
        let capacity = if capacity == 0 { 1 } else { capacity };
        let mut alive: Vec<bool> = Vec::new();
        let mut i: usize = 0;
        while i < capacity
            invariant
                i <= capacity,
                alive@.len() == i,
                forall|j: int| 0 <= j < i ==> !(#[trigger] alive@[j]),
            decreases capacity - i,
        {
            alive.push(false);
            i = i + 1;
        }
        ParticleSlots { alive, cursor: 0, rng_state: DEFAULT_SEED }
    }

    /// Restart the random source from `seed` (0 counts as 1, since a zero
    /// state would only ever produce zeros).
    pub fn reseed(&mut self, seed: u64)
        ensures
            final(self)@ == (PoolModel { rng_state: if seed == 0 { 1 } else { seed }, ..old(self)@ }),
    {
        proof {
            use_type_invariant(&*self);
        }
        self.rng_state = if seed == 0 { 1 } else { seed };
    }

    /// Number of slots in the pool.
    pub fn capacity(&self) -> (r: usize)
        ensures
            r == self@.alive.len(),
            r > 0,
    {
        proof {
            use_type_invariant(self);
        }
        self.alive.len()
    }

    /// Whether slot `slot` holds a live particle.
    pub fn is_alive(&self, slot: usize) -> (r: bool)
        requires
            slot < self@.alive.len(),
        ensures
            r == self@.alive[slot as int],
    {
        self.alive[slot]
    }

    /// Number of live particles.
    pub fn alive_count(&self) -> (r: usize)
        ensures
            r == count_alive(self@.alive),
    {
        let mut n: usize = 0;
        let mut i: usize = 0;
        while i < self.alive.len()
            invariant
                i <= self.alive@.len(),
                n == count_alive(self.alive@.take(i as int)),
                n <= i,
            decreases self.alive@.len() - i,
        {
            assert(self.alive@.take(i + 1).drop_last() =~= self.alive@.take(i as int));
            if self.alive[i] {
                n = n + 1;
            }
            i = i + 1;
        }
        assert(self.alive@.take(self.alive@.len() as int) =~= self.alive@);
        n
    }

    /// Kill every particle and restart the slot search at slot 0.
    pub fn clear(&mut self)
        ensures
            final(self)@.alive.len() == old(self)@.alive.len(),
            forall|i: int| 0 <= i < final(self)@.alive.len() ==> !(#[trigger] final(self)@.alive[i]),
            final(self)@.cursor == 0,
            final(self)@.rng_state == old(self)@.rng_state,
    {
        proof {
            use_type_invariant(&*self);
        }
        let n = self.alive.len();
        let mut alive: Vec<bool> = Vec::new();
        let mut i: usize = 0;
        while i < n
            invariant
                i <= n,
                alive@.len() == i,
                forall|j: int| 0 <= j < i ==> !(#[trigger] alive@[j]),
            decreases n - i,
        {
            alive.push(false);
            i = i + 1;
        }
        *self = ParticleSlots { alive, cursor: 0, rng_state: self.rng_state };
    }

    /// Mark slot `slot` live (a particle was spawned into it) or dead.
    pub fn set_alive(&mut self, slot: usize, alive: bool)
        requires
            slot < old(self)@.alive.len(),
        ensures
            final(self)@ == (PoolModel { alive: old(self)@.alive.update(slot as int, alive), ..old(self)@ }),
    {
        proof {
            use_type_invariant(&*self);
        }
        let mut taken = ParticleSlots { alive: vec![false], cursor: 0, rng_state: 1 };
        std::mem::swap(self, &mut taken);
        let ParticleSlots { alive: mut slots, cursor, rng_state } = taken;
        slots.set(slot, alive);
        *self = ParticleSlots { alive: slots, cursor, rng_state };
    }

    /// The slot for the next spawn: the first dead slot at or after the
    /// cursor (wrapping), or — when every slot is alive — the slot at the
    /// cursor, overwriting the oldest spawn. The cursor moves past the
    /// returned slot.
    pub fn next_slot(&mut self) -> (r: usize)
        ensures
            final(self)@.alive == old(self)@.alive,
            final(self)@.rng_state == old(self)@.rng_state,
            r < old(self)@.alive.len(),
            r == spec_pick(old(self)@),
            final(self)@.cursor == (r + 1) % (old(self)@.alive.len() as int),
            (exists|k: int| 0 <= k < old(self)@.alive.len() && !old(self)@.alive[#[trigger] ring(old(self)@.cursor, k, old(self)@.alive.len() as int)]) ==> {
                &&& !old(self)@.alive[r as int]
                &&& exists|k: int| 0 <= k < old(self)@.alive.len() && r == #[trigger] ring(old(self)@.cursor, k, old(self)@.alive.len() as int)
                    && forall|j: int| 0 <= j < k ==> old(self)@.alive[#[trigger] ring(old(self)@.cursor, j, old(self)@.alive.len() as int)]
            },
            (forall|k: int| 0 <= k < old(self)@.alive.len() ==> old(self)@.alive[#[trigger] ring(old(self)@.cursor, k, old(self)@.alive.len() as int)])
                ==> r == old(self)@.cursor,
    {
        proof {
            use_type_invariant(&*self);
        }
        let cap = self.alive.len();
        let ghost c0 = self.cursor as int;
        let ghost n = cap as int;
        let mut i: usize = 0;
        assert(ring(c0, 0, n) == c0) by (nonlinear_arith)
            requires
                0 <= c0 < n,
        ;
        while i < cap
            invariant
                cap == self.alive@.len(),
                cap > 0,
                self.rng_state != 0,
                n == cap,
                0 <= c0 < n,
                i <= cap,
                self.alive@ == old(self)@.alive,
                self.rng_state == old(self)@.rng_state,
                self.cursor < cap,
                self.cursor as int == ring(c0, i as int, n),
                c0 == old(self)@.cursor,
                forall|j: int| 0 <= j < i ==> old(self)@.alive[#[trigger] ring(c0, j, n)],
            decreases cap - i,
        {
            let idx = self.cursor;
            let next = (self.cursor + 1) % cap;
            proof {
                assert(ring(c0, i + 1, n) == (ring(c0, i as int, n) + 1) % n) by (nonlinear_arith)
                    requires
                        n > 0,
                        0 <= c0,
                        0 <= i,
                ;
                assert(0 <= next < n);
            }
            self.cursor = next;
            if !self.alive[idx] {
                proof {
                    lemma_first_dead_at(old(self)@.alive, c0, 0, i as int);
                }
                return idx;
            }
            i = i + 1;
        }
        proof {
            assert(ring(c0, n, n) == c0) by (nonlinear_arith)
                requires
                    0 <= c0 < n,
            ;
            assert(self.cursor as int == c0);
            assert forall|k: int| 0 <= k < n implies !(!old(self)@.alive[#[trigger] ring(c0, k, n)]) by {
            }
            lemma_no_dead(old(self)@.alive, c0, 0);
        }
        let idx = self.cursor;
        let next = (self.cursor + 1) % cap;
        self.cursor = next;
        idx
    }

    /// Claim `count` slots for a burst, one after another as
    /// [`next_slot`](Self::next_slot) picks them, marking each live. Returns
    /// the claimed slots in order. Dead slots are used first; once every slot
    /// is live the oldest spawns are overwritten, so the live count becomes
    /// `min(alive + count, capacity)`.
    pub fn claim_slots(&mut self, count: usize) -> (r: Vec<usize>)
        ensures
            r@.len() == count,
            forall|k: int| 0 <= k < r@.len() ==> (#[trigger] r@[k]) as int == spec_pick(
                claim_state(old(self)@, k as nat),
            ),
            final(self)@ == claim_state(old(self)@, count as nat),
            forall|k: int| 0 <= k < r@.len() ==> (#[trigger] r@[k]) < old(self)@.alive.len(),
            final(self)@.alive.len() == old(self)@.alive.len(),
            forall|j: int| 0 <= j < final(self)@.alive.len() ==> #[trigger] final(self)@.alive[j]
                == (old(self)@.alive[j] || claims(r@, j)),
            count_alive(final(self)@.alive) == if count_alive(old(self)@.alive) + count < old(self)@.alive.len() {
                count_alive(old(self)@.alive) + count
            } else {
                old(self)@.alive.len() as int
            },
            final(self)@.rng_state == old(self)@.rng_state,
    {
        proof {
            use_type_invariant(&*self);
            law_count_alive_bound(self@.alive);
        }
        let ghost start = self@.alive;
        let ghost n = start.len() as int;
        let mut claimed: Vec<usize> = Vec::new();
        let mut k: usize = 0;
        while k < count
            invariant
                k <= count,
                claimed@.len() == k,
                n == start.len(),
                n > 0,
                start == old(self)@.alive,
                self@ == claim_state(old(self)@, k as nat),
                forall|q: int| 0 <= q < claimed@.len() ==> (#[trigger] claimed@[q]) as int == spec_pick(
                    claim_state(old(self)@, q as nat),
                ),
                self@.alive.len() == n,
                self@.rng_state == old(self)@.rng_state,
                forall|q: int| 0 <= q < claimed@.len() ==> (#[trigger] claimed@[q]) < n,
                forall|j: int| 0 <= j < n ==> #[trigger] self@.alive[j] == (start[j] || claims(claimed@, j)),
                count_alive(self@.alive) == if count_alive(start) + k < n { count_alive(start) + k } else { n },
            decreases count - k,
        {
            proof {
                use_type_invariant(&*self);
            }
            let ghost before = self@;
            let slot = self.next_slot();
            proof {
                lemma_count_alive_full(before.alive);
                if count_alive(before.alive) < n {
                    let i = choose|i: int| 0 <= i < n && !before.alive[i];
                    lemma_ring_hits(before.cursor, i, n);
                    assert(!before.alive[ring(before.cursor, ring_offset(before.cursor, i, n), n)]);
                    assert(!before.alive[slot as int]);
                } else {
                    assert(before.alive[slot as int]);
                }
                law_count_alive(before.alive, slot as int, true);
            }
            self.set_alive(slot, true);
            let ghost claimed_before = claimed@;
            claimed.push(slot);
            proof {
                assert forall|j: int| 0 <= j < n implies #[trigger] self@.alive[j] == (start[j] || claims(claimed@, j)) by {
                    if claims(claimed_before, j) {
                        let w = choose|w: int| 0 <= w < claimed_before.len() && claimed_before[w] as int == j;
                        assert(claimed@[w] == claimed_before[w]);
                    }
                    if claims(claimed@, j) && j != slot as int {
                        let w = choose|w: int| 0 <= w < claimed@.len() && claimed@[w] as int == j;
                        assert(w != claimed_before.len());
                        assert(claimed_before[w] == claimed@[w]);
                    }
                    if j == slot as int {
                        assert(claimed@[claimed_before.len() as int] == slot);
                    }
                }
            }
            k = k + 1;
        }
        claimed
    }

    /// The next random number (xorshift64*), advancing the state.
    pub fn next_u64(&mut self) -> (r: u64)
        ensures
            final(self)@ == (PoolModel { rng_state: xorshift(old(self)@.rng_state), ..old(self)@ }),
            r == xorshift_output(xorshift(old(self)@.rng_state)),
    {
        proof {
            use_type_invariant(&*self);
            lemma_xorshift_nonzero(self.rng_state);
        }
        let mut x = self.rng_state;
        x ^= x >> 12;
        x ^= x << 25;
        x ^= x >> 27;
        self.rng_state = x;
        x.wrapping_mul(0x2545_F491_4F6C_DD1D)
    }
}

impl Default for ParticleSlots {
    /// A pool of the default capacity.
    fn default() -> (r: Self)
        ensures
            r@.alive.len() == DEFAULT_CAPACITY,
            forall|i: int| 0 <= i < r@.alive.len() ==> !(#[trigger] r@.alive[i]),
            r@.cursor == 0,
            r@.rng_state == DEFAULT_SEED,
    {
        Self::with_capacity(DEFAULT_CAPACITY)
    }
}

/// The generator never gets stuck: from a nonzero state the next state is
/// nonzero again (a zero state would only ever produce zeros).
pub proof fn law_rng_state_stays_nonzero(state: u64)
    requires
        state != 0,
    ensures
        xorshift(state) != 0,
{
    lemma_xorshift_nonzero(state);
}

/// Counting live slots: marking a dead slot live adds one, marking a live
/// slot dead removes one, and no more slots are live than exist.
pub proof fn law_count_alive(s: Seq<bool>, i: int, v: bool)
    requires
        0 <= i < s.len(),
    ensures
        count_alive(s) <= s.len(),
        count_alive(s.update(i, v)) == count_alive(s) - (if s[i] { 1int } else { 0int }) + (if v { 1int } else { 0int }),
    decreases s.len(),
{
    if s.len() > 0 {
        if i == s.len() - 1 {
            assert(s.update(i, v).drop_last() =~= s.drop_last());
            law_count_alive_bound(s.drop_last());
        } else {
            law_count_alive(s.drop_last(), i, v);
            assert(s.update(i, v).drop_last() =~= s.drop_last().update(i, v));
        }
    }
}

/// Whether slot `j` is among the claimed slots `r`.
pub open spec fn claims(r: Seq<usize>, j: int) -> bool {
    exists|q: int| 0 <= q < r.len() && r[q] as int == j
}

/// The offset from `cursor` that reaches slot `i` going round the ring.
pub open spec fn ring_offset(cursor: int, i: int, n: int) -> int {
    if i >= cursor { i - cursor } else { i - cursor + n }
}

proof fn lemma_ring_hits(cursor: int, i: int, n: int)
    requires
        0 <= cursor < n,
        0 <= i < n,
    ensures
        0 <= ring_offset(cursor, i, n) < n,
        ring(cursor, ring_offset(cursor, i, n), n) == i,
{
    if i >= cursor {
        assert(i % n == i) by (nonlinear_arith)
            requires
                0 <= i < n,
        ;
    } else {
        assert((i + n) % n == i) by (nonlinear_arith)
            requires
                0 <= i < n,
        ;
    }
}

/// Every slot is live exactly when the live count is the pool size.
proof fn lemma_count_alive_full(s: Seq<bool>)
    ensures
        count_alive(s) <= s.len(),
        count_alive(s) == s.len() <==> forall|i: int| 0 <= i < s.len() ==> s[i],
    decreases s.len(),
{
    if s.len() > 0 {
        lemma_count_alive_full(s.drop_last());
        if count_alive(s) == s.len() {
            assert forall|i: int| 0 <= i < s.len() implies s[i] by {
                if i < s.len() - 1 {
                    assert(s.drop_last()[i] == s[i]);
                }
            }
        }
        if forall|i: int| 0 <= i < s.len() ==> s[i] {
            assert forall|i: int| 0 <= i < s.drop_last().len() implies s.drop_last()[i] by {
                assert(s[i]);
            }
        }
    }
}

proof fn law_count_alive_bound(s: Seq<bool>)
    ensures
        count_alive(s) <= s.len(),
    decreases s.len(),
{
    if s.len() > 0 {
        law_count_alive_bound(s.drop_last());
    }
}

} // verus!
