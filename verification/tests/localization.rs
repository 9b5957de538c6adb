use engine_core::localization::{FontHandle, LocaleFile, Strings, FALLBACK_LOCALE};

fn pairs(items: &[(&str, &str)]) -> Vec<(String, String)> {
    items.iter().map(|(k, v)| (k.to_string(), v.to_string())).collect()
}

fn en() -> LocaleFile {
    LocaleFile {
        version: 1,
        display_name: "English".to_string(),
        font: None,
        strings: pairs(&[("menu.play", "Play"), ("menu.quit", "Quit")]),
    }
}

fn pirate() -> LocaleFile {
    LocaleFile {
        version: 1,
        display_name: "Pirate".to_string(),
        font: Some("fonts/BlackSamsGold-ej5e.ttf".to_string()),
        strings: pairs(&[("menu.play", "Set Sail!")]),
    }
}

fn loaded() -> Strings {
    let mut s = Strings::empty();
    s.insert_locale_file("en", en());
    s.insert_locale_file("pirate", pirate());
    s
}

#[test]
fn tr_returns_current_locale_text() {
    let mut s = loaded();
    s.set_locale("pirate");
    assert_eq!(s.tr("menu.play"), "Set Sail!");
}

#[test]
fn tr_falls_back_to_english_then_key() {
    let mut s = loaded();
    s.set_locale("pirate");
    assert_eq!(s.tr("menu.quit"), "Quit");
    assert_eq!(s.tr("menu.nonexistent"), "menu.nonexistent");
}

#[test]
fn resolve_treats_at_prefix_as_key() {
    let s = loaded();
    assert_eq!(s.resolve("@menu.play"), "Play");
    assert_eq!(s.resolve("Literal text"), "Literal text");
    assert_eq!(s.resolve("@bogus"), "bogus");
}

#[test]
fn corrupt_and_wrong_version_sources_are_skipped() {
    let mut s = Strings::empty();
    s.insert_locale_file(
        "future",
        LocaleFile { version: 99, display_name: "X".to_string(), font: None, strings: vec![] },
    );
    assert!(s.available_locales().is_empty());
    assert_eq!(s.tr("anything"), "anything");
}

#[test]
fn load_dir_missing_directory_yields_empty_table() {
    let s = Strings::empty();
    assert!(s.available_locales().is_empty());
    assert_eq!(s.current_locale(), "en");
    assert_eq!(s.tr("menu.play"), "menu.play");
}

#[test]
fn locale_keys_sorted_and_none_for_unknown() {
    let s = loaded();
    assert_eq!(s.locale_keys("en"), Some(vec!["menu.play", "menu.quit"]));
    assert_eq!(s.locale_keys("pirate"), Some(vec!["menu.play"]));
    assert_eq!(s.locale_keys("klingon"), None);
}

#[test]
fn available_locales_sorted_with_display_names() {
    let s = loaded();
    assert_eq!(s.available_locales(), vec![("en", "English"), ("pirate", "Pirate")]);
}

#[test]
fn current_font_follows_locale() {
    let mut s = loaded();
    assert_eq!(s.current_font(), None);
    s.set_locale("pirate");
    assert_eq!(s.current_font(), Some("fonts/BlackSamsGold-ej5e.ttf"));
}

#[test]
fn set_locale_marks_font_dirty_once() {
    let mut s = loaded();
    s.set_locale("pirate");
    assert!(s.take_font_dirty());
    assert!(!s.take_font_dirty());
}

#[test]
fn cycle_locale_wraps_in_sorted_order() {
    let mut s = loaded();
    s.set_locale("en");
    s.cycle_locale();
    assert_eq!(s.current_locale(), "pirate");
    s.cycle_locale();
    assert_eq!(s.current_locale(), "en");
}

#[test]
fn cycle_locale_with_no_locales_is_noop() {
    let mut s = Strings::empty();
    s.cycle_locale();
    assert_eq!(s.current_locale(), "en");
}

#[test]
fn display_name_falls_back_to_id() {
    let mut s = loaded();
    s.set_locale("klingon");
    assert_eq!(s.current_display_name(), "klingon");
    s.set_locale("pirate");
    assert_eq!(s.current_display_name(), "Pirate");
}

#[test]
fn active_font_roundtrip() {
    let mut s = Strings::empty();
    assert_eq!(s.active_font(), None);
    s.set_active_font(Some(FontHandle { id: 3 }));
    assert_eq!(s.active_font(), Some(FontHandle { id: 3 }));
}

#[test]
fn ids_come_out_sorted_whatever_the_load_order() {
    let mut s = Strings::empty();
    for id in ["zh", "de", "pirate", "en", "fr"] {
        s.insert_locale_file(
            id,
            LocaleFile { version: 1, display_name: id.to_uppercase(), font: None, strings: vec![] },
        );
    }
    let ids: Vec<&str> = s.available_locales().iter().map(|(id, _)| *id).collect();
    assert_eq!(ids, vec!["de", "en", "fr", "pirate", "zh"]);
}

#[test]
fn cycle_from_unknown_locale_goes_to_first() {
    let mut s = loaded();
    s.set_locale("klingon");
    s.cycle_locale();
    assert_eq!(s.current_locale(), "en");
}

#[test]
fn later_pair_wins_and_reinsert_replaces() {
    let mut s = Strings::empty();
    s.insert_locale_file(
        "en",
        LocaleFile {
            version: 1,
            display_name: "English".to_string(),
            font: None,
            strings: pairs(&[("k", "first"), ("a", "A"), ("k", "second")]),
        },
    );
    assert_eq!(s.tr("k"), "second");
    assert_eq!(s.locale_keys("en"), Some(vec!["a", "k"]));
    s.insert_locale_file("en", en());
    assert_eq!(s.tr("k"), "k");
    assert_eq!(s.tr("menu.quit"), "Quit");
    assert_eq!(FALLBACK_LOCALE, "en");
}

#[test]
fn default_table_has_empty_current_locale() {
    let s = Strings::default();
    assert_eq!(s.current_locale(), "");
    assert_eq!(s.tr("x"), "x");
}

#[test]
fn cycle_locale_with_one_locale_is_noop() {
    let mut s = Strings::empty();
    s.insert_locale_file("en", en());
    s.set_locale("klingon");
    assert!(s.take_font_dirty());
    s.cycle_locale();
    assert_eq!(s.current_locale(), "klingon");
    assert!(!s.take_font_dirty());
}
