use engine_core::locale_font::{apply_locale_font, LocaleFontCache};
use engine_core::localization::{FontHandle, LocaleFile, Strings};
use std::cell::RefCell;

fn locale(name: &str, font: Option<&str>) -> LocaleFile {
    LocaleFile {
        version: 1,
        display_name: name.to_string(),
        font: font.map(|f| f.to_string()),
        strings: vec![("menu.play".to_string(), name.to_string())],
    }
}

fn strings() -> Strings {
    let mut s = Strings::empty();
    s.insert_locale_file("en", locale("English", None));
    s.insert_locale_file("ja", locale("日本語", Some("fonts/noto_jp.ttf")));
    s
}

#[test]
fn clean_locale_changes_nothing() {
    let mut s = strings();
    let mut cache = LocaleFontCache::new();
    let r = apply_locale_font(&mut s, &mut cache, None, Some(FontHandle { id: 1 }), |_p: &String| {
        Ok(FontHandle { id: 9 })
    });
    assert_eq!(r, None);
    assert_eq!(s.active_font(), None);
}

#[test]
fn locale_font_loads_once_then_comes_from_cache() {
    let mut s = strings();
    let mut cache = LocaleFontCache::default();
    let loads = RefCell::new(Vec::new());
    let load = |p: &String| -> Result<FontHandle, String> {
        loads.borrow_mut().push(p.clone());
        Ok(FontHandle { id: 40 + loads.borrow().len() as u32 })
    };

    s.set_locale("ja");
    let r = apply_locale_font(&mut s, &mut cache, Some("/game/assets"), Some(FontHandle { id: 1 }), &load);
    assert_eq!(r, Some(FontHandle { id: 41 }));
    assert_eq!(s.active_font(), Some(FontHandle { id: 41 }));
    assert_eq!(*loads.borrow(), vec!["/game/assets/fonts/noto_jp.ttf".to_string()]);
    assert_eq!(cache.get("fonts/noto_jp.ttf"), Some(FontHandle { id: 41 }));
    assert!(!s.take_font_dirty());

    // Back to English: no font of its own, so the game's base font returns.
    s.set_locale("en");
    let r = apply_locale_font(&mut s, &mut cache, Some("/game/assets"), Some(FontHandle { id: 1 }), &load);
    assert_eq!(r, Some(FontHandle { id: 1 }));
    assert_eq!(s.active_font(), None);

    // And to Japanese again: served from the cache, nothing loaded.
    s.set_locale("ja");
    let r = apply_locale_font(&mut s, &mut cache, Some("/game/assets"), None, &load);
    assert_eq!(r, Some(FontHandle { id: 41 }));
    assert_eq!(loads.borrow().len(), 1);
}

#[test]
fn failed_font_load_restores_base_font_and_caches_nothing() {
    let mut s = strings();
    let mut cache = LocaleFontCache::new();
    s.set_locale("ja");
    let r = apply_locale_font(&mut s, &mut cache, None, None, |p: &String| -> Result<FontHandle, String> {
        assert_eq!(p, "assets/fonts/noto_jp.ttf");
        Err("missing".to_string())
    });
    assert_eq!(r, None);
    assert_eq!(s.active_font(), None);
    assert_eq!(cache.get("fonts/noto_jp.ttf"), None);
}
