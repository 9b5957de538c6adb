use engine_core::chaos_mode::{banner_text, ChaosMode};

#[test]
fn default_is_normal() {
    assert_eq!(ChaosMode::default(), ChaosMode::Normal);
}

#[test]
fn all_variants_have_nonempty_labels() {
    for mode in ChaosMode::ALL {
        assert!(!mode.label().is_empty(), "missing label for {mode:?}");
    }
}

#[test]
fn insane_flag_matches_insane_and_insiculous() {
    assert!(!ChaosMode::Normal.is_insane());
    assert!(ChaosMode::Insane.is_insane());
    assert!(!ChaosMode::Ridiculous.is_insane());
    assert!(ChaosMode::Insiculous.is_insane());
}

#[test]
fn ridiculous_flag_matches_ridiculous_and_insiculous() {
    assert!(!ChaosMode::Normal.is_ridiculous());
    assert!(!ChaosMode::Insane.is_ridiculous());
    assert!(ChaosMode::Ridiculous.is_ridiculous());
    assert!(ChaosMode::Insiculous.is_ridiculous());
}

#[test]
fn insiculous_flag_only_matches_insiculous() {
    assert!(!ChaosMode::Normal.is_insiculous());
    assert!(!ChaosMode::Insane.is_insiculous());
    assert!(!ChaosMode::Ridiculous.is_insiculous());
    assert!(ChaosMode::Insiculous.is_insiculous());
}

#[test]
fn all_covers_four_distinct_variants() {
    let labels: std::collections::HashSet<_> =
        ChaosMode::ALL.iter().map(|m| m.label()).collect();
    assert_eq!(labels.len(), 4);
}

#[test]
fn labels_are_the_variant_names() {
    assert_eq!(ChaosMode::Normal.label(), "Normal");
    assert_eq!(ChaosMode::Insane.label(), "Insane");
    assert_eq!(ChaosMode::Ridiculous.label(), "Ridiculous");
    assert_eq!(ChaosMode::Insiculous.label(), "Insiculous");
}

#[test]
fn insiculous_is_exactly_insane_and_ridiculous() {
    for mode in ChaosMode::ALL {
        assert_eq!(mode.is_insiculous(), mode.is_insane() && mode.is_ridiculous());
    }
}

#[test]
fn test_only_normal_mode_has_no_banner() {
    for mode in ChaosMode::ALL {
        assert_eq!(banner_text(mode).is_none(), mode == ChaosMode::Normal, "banner presence wrong for {mode:?}");
    }
    assert_eq!(banner_text(ChaosMode::Insane), Some("!! INSANE !!"));
    assert_eq!(banner_text(ChaosMode::Ridiculous), Some("~~ RIDICULOUS ~~"));
    assert_eq!(banner_text(ChaosMode::Insiculous), Some(">>> INSICULOUS <<<"));
}
