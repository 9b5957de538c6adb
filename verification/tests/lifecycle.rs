use engine_core::lifecycle::{LifecycleManager, LifecycleState};
use engine_core::lifecycle::LifecycleState::{Created, Error, Initialized, Initializing, Running, ShutDown, ShuttingDown};

#[test]
fn full_lifecycle_succeeds_in_order() {
    let mut m = LifecycleManager::new();
    assert_eq!(m.current_state(), LifecycleState::Created);
    assert!(m.can_initialize());
    m.begin_initialization().unwrap();
    assert_eq!(m.current_state(), LifecycleState::Initializing);
    m.complete_initialization().unwrap();
    assert!(m.is_operational());
    m.start().unwrap();
    assert_eq!(m.current_state(), LifecycleState::Running);
    assert!(m.can_stop());
    m.stop().unwrap();
    assert_eq!(m.current_state(), LifecycleState::Initialized);
    m.begin_shutdown().unwrap();
    m.complete_shutdown().unwrap();
    assert_eq!(m.current_state(), LifecycleState::ShutDown);
    assert!(m.can_initialize());
}

#[test]
fn refused_transitions_report_and_change_nothing() {
    let mut m = LifecycleManager::new();
    assert_eq!(m.start(), Err("Cannot start from state Created".to_string()));
    assert_eq!(m.stop(), Err("Cannot stop from state Created".to_string()));
    assert_eq!(m.begin_shutdown(), Err("Cannot shutdown from state Created".to_string()));
    assert_eq!(m.complete_initialization(), Err("No initialization in progress".to_string()));
    assert_eq!(m.complete_shutdown(), Err("No shutdown in progress".to_string()));
    assert_eq!(m.current_state(), LifecycleState::Created);
}

#[test]
fn initialization_cannot_begin_twice() {
    let mut m = LifecycleManager::new();
    m.begin_initialization().unwrap();
    assert_eq!(
        m.begin_initialization(),
        Err("Initialization already in progress".to_string())
    );
    assert_eq!(m.current_state(), LifecycleState::Initializing);
}

#[test]
fn shutdown_cannot_begin_twice() {
    let mut m = LifecycleManager::new_with_state(LifecycleState::Running);
    m.begin_shutdown().unwrap();
    assert_eq!(m.begin_shutdown(), Err("Shutdown already in progress".to_string()));
}

#[test]
fn initialize_from_running_is_refused_with_state_name() {
    let mut m = LifecycleManager::new_with_state(LifecycleState::Running);
    assert_eq!(
        m.begin_initialization(),
        Err("Cannot initialize from state Running".to_string())
    );
}

#[test]
fn complete_initialization_in_wrong_state_names_it() {
    let mut m = LifecycleManager::new_with_state(LifecycleState::Initializing);
    assert_eq!(m.complete_initialization(), Err("No initialization in progress".to_string()));
}

#[test]
fn set_error_releases_locks_and_allows_recovery() {
    let mut m = LifecycleManager::new();
    m.begin_initialization().unwrap();
    assert_eq!(m.set_error(Some("boom".to_string())), Err("boom".to_string()));
    assert_eq!(m.current_state(), LifecycleState::Error);
    assert!(m.set_error(None).is_ok());
    assert!(m.can_shutdown());
    m.begin_initialization().unwrap();
    m.complete_initialization().unwrap();
    assert_eq!(m.current_state(), LifecycleState::Initialized);
}

#[test]
fn clone_keeps_state_but_not_in_progress_marks() {
    let mut m = LifecycleManager::new();
    m.begin_initialization().unwrap();
    let mut c = m.clone();
    assert_eq!(c.current_state(), LifecycleState::Initializing);
    assert_eq!(c.complete_initialization(), Err("No initialization in progress".to_string()));
    let d = LifecycleManager::default();
    assert_eq!(d.current_state(), LifecycleState::Created);
}

#[test]
fn state_predicates() {
    let all = [Created, Initializing, Initialized, Running, ShuttingDown, ShutDown, Error];
    for s in all {
        assert_eq!(s.is_operational(), matches!(s, Initialized | Running));
        assert_eq!(s.can_initialize(), matches!(s, Created | ShutDown | Error));
        assert_eq!(s.can_shutdown(), matches!(s, Initialized | Running | Error));
        assert_eq!(s.can_start(), s == Initialized);
        assert_eq!(s.can_stop(), s == Running);
        assert_eq!(s.name(), format!("{s:?}"));
    }
}
