use engine_core::achievements::{Achievement, AchievementRegistry, UnlockRecord};

fn sample() -> Achievement {
    Achievement::new("test_id", "Test Achievement", "Do the test thing")
}

fn in_memory_manager_starts_empty() {
    let mgr = AchievementRegistry::new();
    assert_eq!(mgr.total(), 0);
    assert_eq!(mgr.unlocked_count(), 0);
}

fn register_then_get() {
    let mut mgr = AchievementRegistry::new();
    mgr.register(sample());
    assert_eq!(mgr.total(), 1);
    assert_eq!(mgr.get("test_id").unwrap().name, "Test Achievement");
}

fn unlock_returns_true_first_time_false_after() {
    let mut mgr = AchievementRegistry::new();
    mgr.register(sample());
    assert!(mgr.unlock("test_id", 100));
    assert!(!mgr.unlock("test_id", 200));
    assert_eq!(mgr.unlocked_count(), 1);
}

fn unlock_unregistered_returns_false() {
    let mut mgr = AchievementRegistry::new();
    assert!(!mgr.unlock("never_registered", 100));
    assert_eq!(mgr.unlocked_count(), 0);
}

fn is_unlocked_tracks_state() {
    let mut mgr = AchievementRegistry::new();
    mgr.register(sample());
    assert!(!mgr.is_unlocked("test_id"));
    mgr.unlock("test_id", 100);
    assert!(mgr.is_unlocked("test_id"));
}

fn reset_clears_unlocks() {
    let mut mgr = AchievementRegistry::new();
    mgr.register(sample());
    mgr.unlock("test_id", 100);
    mgr.reset();
    assert_eq!(mgr.unlocked_count(), 0);
}

fn hidden_achievement_flag_persists() {
    let mut mgr = AchievementRegistry::new();
    mgr.register(Achievement::new("secret", "Secret", "Find it").hidden());
    assert!(mgr.get("secret").unwrap().hidden);
}

fn all_iterator_yields_registered() {
    let mut mgr = AchievementRegistry::new();
    mgr.register(sample());
    mgr.register(Achievement::new("second", "Second", "Desc"));
    let ids: std::collections::HashSet<_> = mgr.all().iter().map(|a| a.id.as_str()).collect();
    assert!(ids.contains("test_id"));
    assert!(ids.contains("second"));
}

#[test]
fn achievements_in_memory_manager_starts_empty() {
    in_memory_manager_starts_empty();
}

#[test]
fn tests_in_memory_manager_starts_empty() {
    in_memory_manager_starts_empty();
}

#[test]
fn achievements_register_then_get() {
    register_then_get();
}

#[test]
fn tests_register_then_get() {
    register_then_get();
}

#[test]
fn achievements_unlock_returns_true_first_time_false_after() {
    unlock_returns_true_first_time_false_after();
}

#[test]
fn tests_unlock_returns_true_first_time_false_after() {
    unlock_returns_true_first_time_false_after();
}

#[test]
fn achievements_unlock_unregistered_returns_false() {
    unlock_unregistered_returns_false();
}

#[test]
fn tests_unlock_unregistered_returns_false() {
    unlock_unregistered_returns_false();
}

#[test]
fn achievements_is_unlocked_tracks_state() {
    is_unlocked_tracks_state();
}

#[test]
fn tests_is_unlocked_tracks_state() {
    is_unlocked_tracks_state();
}

#[test]
fn achievements_reset_clears_unlocks_and_toasts() {
    reset_clears_unlocks();
}

#[test]
fn tests_reset_clears_unlocks_and_toasts() {
    reset_clears_unlocks();
}

#[test]
fn achievements_hidden_achievement_flag_persists() {
    hidden_achievement_flag_persists();
}

#[test]
fn tests_hidden_achievement_flag_persists() {
    hidden_achievement_flag_persists();
}

#[test]
fn achievements_all_iterator_yields_registered() {
    all_iterator_yields_registered();
}

#[test]
fn tests_all_iterator_yields_registered() {
    all_iterator_yields_registered();
}

#[test]
fn register_twice_overwrites_definition() {
    let mut mgr = AchievementRegistry::new();
    mgr.register(sample());
    mgr.register(Achievement::new("test_id", "Renamed", "New description"));
    assert_eq!(mgr.total(), 1);
    assert_eq!(mgr.get("test_id").unwrap().name, "Renamed");
    assert!(mgr.get("missing").is_none());
}

#[test]
fn unlock_records_round_trip_restores_unlocks() {
    let mut mgr = AchievementRegistry::new();
    mgr.register(sample());
    mgr.register(Achievement::new("second", "Second", "Do it again"));
    assert!(mgr.unlock("test_id", 1234));
    let records = mgr.unlock_records();
    assert_eq!(records.len(), 1);
    assert_eq!(records[0].id, "test_id");
    assert_eq!(records[0].unlocked_at, 1234);

    let mut restored = AchievementRegistry::new();
    restored.register(sample());
    restored.register(Achievement::new("second", "Second", "Do it again"));
    restored.restore_unlocks(records);
    assert!(restored.is_unlocked("test_id"));
    assert!(!restored.is_unlocked("second"));
    assert_eq!(restored.unlocked_count(), 1);
}

#[test]
fn restore_keeps_the_later_record_for_a_repeated_id() {
    let mut mgr = AchievementRegistry::new();
    mgr.restore_unlocks(vec![
        UnlockRecord { id: "a".to_string(), unlocked_at: 1 },
        UnlockRecord { id: "a".to_string(), unlocked_at: 2 },
    ]);
    let records = mgr.unlock_records();
    assert_eq!(records.len(), 1);
    assert_eq!(records[0].unlocked_at, 2);
}
