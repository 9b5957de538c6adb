use engine_core::pickups::{CollisionEvent, EntityId, Pickups};

#[derive(Debug, Clone, Copy, PartialEq, Eq)]
enum Kind {
    Boost,
    Multi,
}

fn started_event(a: EntityId, b: EntityId) -> CollisionEvent {
    CollisionEvent { entity_a: a, entity_b: b, started: true, stopped: false }
}

fn stopped_event(a: EntityId, b: EntityId) -> CollisionEvent {
    CollisionEvent { entity_a: a, entity_b: b, started: false, stopped: true }
}

#[test]
fn test_collect_ignores_non_started_events() {
    let pickup = EntityId(1);
    let collector = EntityId(2);
    let mut pickups = Pickups::new();
    pickups.track(pickup, Kind::Boost);

    let events = vec![stopped_event(collector, pickup)];
    let got = pickups.collect(&events, &[collector]);
    assert!(got.is_empty());
    assert_eq!(pickups.len(), 1);
}

#[test]
fn test_collect_returns_kind_and_collector_and_untracks() {
    let pickup = EntityId(1);
    let collector = EntityId(2);
    let mut pickups = Pickups::new();
    pickups.track(pickup, Kind::Multi);

    let events = vec![started_event(pickup, collector)];
    let got = pickups.collect(&events, &[collector]);
    assert_eq!(got.len(), 1);
    assert_eq!(got[0].kind, Kind::Multi);
    assert_eq!(got[0].collector, collector);
    // The caller destroys this entity
    assert_eq!(got[0].pickup, pickup);
    assert!(pickups.is_empty());
}

#[test]
fn test_pickup_collected_once_even_with_two_collectors() {
    let pickup = EntityId(1);
    let ball_a = EntityId(2);
    let ball_b = EntityId(3);
    let mut pickups = Pickups::new();
    pickups.track(pickup, Kind::Boost);

    let events = vec![started_event(ball_a, pickup), started_event(ball_b, pickup)];
    let got = pickups.collect(&events, &[ball_a, ball_b]);
    assert_eq!(got.len(), 1, "one pickup must grant exactly one effect");
    assert_eq!(got[0].collector, ball_a);
    assert!(pickups.is_empty());
}

#[test]
fn test_multiple_pickups_collected_in_one_frame() {
    let (p1, p2, p3) = (EntityId(1), EntityId(2), EntityId(3));
    let collector = EntityId(4);
    let mut pickups = Pickups::new();
    pickups.track(p1, Kind::Boost);
    pickups.track(p2, Kind::Multi);
    pickups.track(p3, Kind::Boost);

    let events = vec![started_event(collector, p3), started_event(collector, p1)];
    let got = pickups.collect(&events, &[collector]);
    assert_eq!(got.len(), 2);
    assert_eq!(pickups.len(), 1);
    assert_eq!(pickups.entities().first(), Some(&p2));
}

#[test]
fn test_remove_where_destroys_matching() {
    let keep = EntityId(1);
    let drop = EntityId(2);
    let mut pickups = Pickups::new();
    pickups.track(keep, Kind::Boost);
    pickups.track(drop, Kind::Multi);

    let removed = pickups.remove_where(|p| p.kind == Kind::Multi);
    assert_eq!(pickups.len(), 1);
    assert_eq!(removed, vec![drop]);
    assert_eq!(pickups.entities(), vec![keep]);
}

#[test]
fn test_clear_empties_and_destroys() {
    let p1 = EntityId(1);
    let p2 = EntityId(2);
    let mut pickups = Pickups::new();
    pickups.track(p1, Kind::Boost);
    pickups.track(p2, Kind::Multi);

    let removed = pickups.clear();
    assert!(pickups.is_empty());
    assert_eq!(removed, vec![p1, p2]);
}

#[test]
fn collisions_with_non_collectors_are_ignored() {
    let pickup = EntityId(1);
    let wall = EntityId(9);
    let collector = EntityId(2);
    let mut pickups: Pickups<Kind> = Pickups::new();
    pickups.track(pickup, Kind::Boost);
    let got = pickups.collect(&[started_event(wall, pickup)], &[collector]);
    assert!(got.is_empty());
    assert_eq!(pickups.len(), 1);
}
