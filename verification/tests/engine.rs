use engine_core::behavior_data::{default_player_tag, default_score, default_true};
use engine_core::contexts::GlyphCacheKey;
use engine_core::game_config::{default_locale, default_locales_dir, default_vsync};
use engine_core::game_loop::{GameLoop, GameLoopConfig};
use engine_core::{init, EngineError};

#[test]
fn game_loop_starts_and_stops() {
    let mut game_loop = GameLoop::new(GameLoopConfig::default());
    assert!(!game_loop.is_running());
    assert!(game_loop.start().is_ok());
    assert!(game_loop.is_running());
    game_loop.stop();
    assert!(!game_loop.is_running());
    assert_eq!(game_loop.config().target_fps, 60);
    assert!(game_loop.config().fixed_timestep);
}

#[test]
fn init_succeeds_and_errors_display() {
    assert!(init().is_ok());
    assert_eq!(
        EngineError::InitializationError("gpu".to_string()).message(),
        "Failed to initialize engine: gpu"
    );
    assert_eq!(EngineError::GameLoopError("stall".to_string()).message(), "Game loop error: stall");
}

#[test]
fn config_and_behavior_defaults() {
    assert!(default_vsync());
    assert_eq!(default_locale(), "en");
    assert_eq!(default_locales_dir(), "locales");
    assert_eq!(default_score(), 10);
    assert_eq!(default_player_tag(), "player");
    assert!(default_true());
}

#[test]
fn glyph_keys_compare_by_character_and_size() {
    assert_eq!(GlyphCacheKey::new('a', 8, 12), GlyphCacheKey::new('a', 8, 12));
    assert_ne!(GlyphCacheKey::new('a', 8, 12), GlyphCacheKey::new('b', 8, 12));
    assert_ne!(GlyphCacheKey::new('a', 8, 12), GlyphCacheKey::new('a', 9, 12));
}
