use engine_core::particles::{ParticleSlots, DEFAULT_CAPACITY};

fn spawn(slots: &mut ParticleSlots, count: usize) {
    for _ in 0..count {
        let slot = slots.next_slot();
        slots.set_alive(slot, true);
    }
}

#[test]
fn new_pool_has_no_alive_particles() {
    let m = ParticleSlots::default();
    assert_eq!(m.alive_count(), 0);
    assert_eq!(m.capacity(), DEFAULT_CAPACITY);
}

#[test]
fn with_capacity_clamps_to_at_least_one() {
    let m = ParticleSlots::with_capacity(0);
    assert_eq!(m.capacity(), 1);
}

#[test]
fn spawn_reuses_dead_slots() {
    let mut m = ParticleSlots::with_capacity(8);
    spawn(&mut m, 5);
    for slot in 0..8 {
        m.set_alive(slot, false);
    }
    assert_eq!(m.alive_count(), 0);
    spawn(&mut m, 5);
    assert_eq!(m.alive_count(), 5);
}

#[test]
fn overfull_pool_overwrites_oldest() {
    let mut m = ParticleSlots::with_capacity(4);
    spawn(&mut m, 10);
    assert_eq!(m.alive_count(), 4);
}

#[test]
fn clear_kills_all_particles() {
    let mut m = ParticleSlots::with_capacity(16);
    spawn(&mut m, 8);
    assert_eq!(m.alive_count(), 8);
    m.clear();
    assert_eq!(m.alive_count(), 0);
}

#[test]
fn next_slot_skips_live_slots_and_wraps() {
    let mut m = ParticleSlots::with_capacity(4);
    m.set_alive(0, true);
    m.set_alive(1, true);
    assert_eq!(m.next_slot(), 2);
    m.set_alive(2, true);
    assert_eq!(m.next_slot(), 3);
    m.set_alive(3, true);
    m.set_alive(1, false);
    assert_eq!(m.next_slot(), 1);
}

#[test]
fn full_pool_overwrites_in_cursor_order() {
    let mut m = ParticleSlots::with_capacity(3);
    spawn(&mut m, 3);
    assert_eq!(m.next_slot(), 0);
    assert_eq!(m.next_slot(), 1);
    assert_eq!(m.next_slot(), 2);
}

#[test]
fn rng_matches_xorshift64_star() {
    let mut m = ParticleSlots::with_capacity(1);
    m.reseed(42);
    let mut x: u64 = 42;
    for _ in 0..5 {
        x ^= x >> 12;
        x ^= x << 25;
        x ^= x >> 27;
        assert_eq!(m.next_u64(), x.wrapping_mul(0x2545_F491_4F6C_DD1D));
    }
}

#[test]
fn zero_seed_counts_as_one() {
    let mut a = ParticleSlots::with_capacity(1);
    let mut b = ParticleSlots::with_capacity(1);
    a.reseed(0);
    b.reseed(1);
    assert_eq!(a.next_u64(), b.next_u64());
    assert_ne!(a.next_u64(), 0);
}

#[test]
fn claim_slots_fills_dead_slots_then_overwrites() {
    let mut m = ParticleSlots::with_capacity(4);
    m.set_alive(1, true);
    let claimed = m.claim_slots(2);
    assert_eq!(claimed, vec![0, 2]);
    assert_eq!(m.alive_count(), 3);
    let claimed = m.claim_slots(3);
    assert_eq!(claimed.len(), 3);
    assert_eq!(claimed[0], 3);
    assert_eq!(m.alive_count(), 4);
    assert_eq!(m.claim_slots(0), Vec::<usize>::new());
}

#[test]
fn full_pool_overwrites_from_the_cursor() {
    let mut m = ParticleSlots::with_capacity(3);
    assert_eq!(m.claim_slots(3), vec![0, 1, 2]);
    // Full: the oldest spawns go first, round-robin from the cursor.
    assert_eq!(m.claim_slots(4), vec![0, 1, 2, 0]);
    m.set_alive(2, false);
    assert_eq!(m.claim_slots(1), vec![2]);
}
