use engine_core::assets::{resolve_against, validate_rgba, AssetConfig, AssetError, TextureFilter};

#[test]
fn test_asset_config_default() {
    let config = AssetConfig::default();
    assert_eq!(config.base_path, "assets");
    assert!(config.log_loading);
    assert_eq!(config.default_filter, TextureFilter::Linear);
}

#[test]
fn test_asset_config_from_game_config_carries_texture_filter() {
    assert_eq!(
        AssetConfig::for_game(TextureFilter::Nearest, None).default_filter,
        TextureFilter::Nearest
    );
}

#[test]
fn test_asset_config_from_game_config_defaults_to_linear_filter() {
    assert_eq!(
        AssetConfig::for_game(TextureFilter::Linear, None).default_filter,
        TextureFilter::Linear
    );
}

#[test]
fn test_asset_config_from_game_config_keeps_default_base_path_when_unset() {
    assert_eq!(AssetConfig::for_game(TextureFilter::Linear, None).base_path, "assets");
}

#[test]
fn test_asset_config_from_game_config_uses_asset_base_path_when_set() {
    let config = AssetConfig::for_game(TextureFilter::Linear, Some("/games/pong/assets".to_string()));
    assert_eq!(config.base_path, "/games/pong/assets");
}

#[test]
fn test_asset_error_display() {
    let err = AssetError::NotFound("player.png".to_string());
    assert!(err.message().contains("player.png"));
}

#[test]
fn test_rgba_validation_rejects_zero_dimensions() {
    assert!(matches!(validate_rgba(0, 16, 0), Err(AssetError::InvalidData(_))));
    assert!(matches!(validate_rgba(16, 0, 0), Err(AssetError::InvalidData(_))));
}

#[test]
fn test_rgba_validation_rejects_length_mismatch() {
    // 2x2 RGBA needs 16 bytes.
    let err = validate_rgba(2, 2, 15).unwrap_err();
    assert!(err.message().contains("expected 16 bytes"));
    assert!(validate_rgba(2, 2, 17).is_err());
}

#[test]
fn test_rgba_validation_accepts_exact_length() {
    assert!(validate_rgba(2, 2, 16).is_ok());
    assert!(validate_rgba(64, 16, 64 * 16 * 4).is_ok());
}

#[test]
fn rgba_validation_messages_are_exact() {
    match validate_rgba(0, 16, 0) {
        Err(AssetError::InvalidData(m)) => {
            assert_eq!(m, "texture dimensions must be non-zero (got 0x16)")
        }
        other => panic!("unexpected {other:?}"),
    }
    match validate_rgba(3, 5, 7) {
        Err(e) => assert_eq!(e.message(), "Invalid texture data: expected 60 bytes for 3x5 RGBA, got 7"),
        Ok(()) => panic!("length mismatch accepted"),
    }
    match validate_rgba(1000, 1000, 4000001) {
        Err(AssetError::InvalidData(m)) => {
            assert_eq!(m, "expected 4000000 bytes for 1000x1000 RGBA, got 4000001")
        }
        other => panic!("unexpected {other:?}"),
    }
}

#[test]
fn asset_error_messages() {
    assert_eq!(AssetError::NotInitialized.message(), "Asset manager not initialized");
    assert_eq!(AssetError::Texture("boom".to_string()).message(), "Texture error: boom");
    assert_eq!(AssetError::NotFound("x.png".to_string()).message(), "Asset not found: x.png");
}

#[test]
fn resolve_against_joins_relative_and_keeps_absolute() {
    assert_eq!(resolve_against("/base", "sprites/a.png"), "/base/sprites/a.png");
    assert_eq!(resolve_against("/base", "/abs/a.png"), "/abs/a.png");
}

#[test]
fn rgba_validation_rejects_impossible_sizes_without_panicking() {
    let w = 1u32 << 31;
    match validate_rgba(w, w, 0) {
        Err(AssetError::InvalidData(m)) => {
            assert_eq!(m, "expected 18446744073709551616 bytes for 2147483648x2147483648 RGBA, got 0")
        }
        other => panic!("unexpected {:?}", other),
    }
    assert!(validate_rgba(u32::MAX, u32::MAX, usize::MAX).is_err());
}

#[test]
fn resolving_an_absolute_result_again_keeps_it() {
    let once = resolve_against("/game/assets", "/abs/tex.png");
    assert_eq!(once, "/abs/tex.png");
    assert_eq!(resolve_against("elsewhere", &once), once);
    let joined = resolve_against("/game/assets", "tex.png");
    assert_eq!(resolve_against("other", &joined), joined);
}
