use engine_core::asset_browser::{
    assign_message, load_thumbnails, tile_cell, tile_rows, AssetEntry, AssetKind,
    MAX_THUMBNAIL_LOADS_PER_FRAME,
};
use engine_core::assets::AssetError;
use std::cell::RefCell;

fn image(path: &str) -> AssetEntry {
    AssetEntry {
        name: path.to_string(),
        relative_path: path.to_string(),
        kind: AssetKind::Image,
        texture_handle: None,
        load_failed: false,
    }
}

fn scene(path: &str) -> AssetEntry {
    AssetEntry { kind: AssetKind::Scene, ..image(path) }
}

#[test]
fn thumbnails_load_at_most_four_per_frame() {
    let mut entries: Vec<AssetEntry> = (0..6).map(|i| image(&format!("img{i}.png"))).collect();
    let seen = RefCell::new(Vec::new());
    let n = load_thumbnails(&mut entries, |p: &String| -> Result<u32, AssetError> {
        seen.borrow_mut().push(p.clone());
        Ok(seen.borrow().len() as u32)
    });
    assert_eq!(n, MAX_THUMBNAIL_LOADS_PER_FRAME);
    assert_eq!(*seen.borrow(), vec!["img0.png", "img1.png", "img2.png", "img3.png"]);
    assert_eq!(entries[3].texture_handle, Some(4));
    assert_eq!(entries[4].texture_handle, None);

    // Next frame picks up the rest.
    let n = load_thumbnails(&mut entries, |_p: &String| -> Result<u32, AssetError> { Ok(99) });
    assert_eq!(n, 2);
    assert_eq!(entries[5].texture_handle, Some(99));
    assert_eq!(entries[0].texture_handle, Some(1));
}

#[test]
fn failed_thumbnails_are_not_retried_and_scenes_are_skipped() {
    let mut entries = vec![scene("a.ron"), image("broken.png"), image("ok.png")];
    let n = load_thumbnails(&mut entries, |p: &String| -> Result<u32, AssetError> {
        if p == "broken.png" { Err(AssetError::NotFound(p.clone())) } else { Ok(7) }
    });
    assert_eq!(n, 2);
    assert!(entries[1].load_failed);
    assert_eq!(entries[1].texture_handle, None);
    assert_eq!(entries[2].texture_handle, Some(7));
    assert_eq!(entries[0].texture_handle, None);

    let calls = RefCell::new(0);
    let n = load_thumbnails(&mut entries, |_p: &String| -> Result<u32, AssetError> {
        *calls.borrow_mut() += 1;
        Ok(1)
    });
    assert_eq!(n, 0);
    assert_eq!(*calls.borrow(), 0);
}

#[test]
fn tile_cells_wrap_rows() {
    assert_eq!(tile_cell(0, 3), (0, 0));
    assert_eq!(tile_cell(3, 3), (0, 1));
    assert_eq!(tile_cell(5, 3), (2, 1));
    // Zero columns must not divide by zero
    assert_eq!(tile_cell(2, 0), (0, 2));
}

#[test]
fn tile_rows_round_up() {
    assert_eq!(tile_rows(0, 3), 0);
    assert_eq!(tile_rows(3, 3), 1);
    assert_eq!(tile_rows(4, 3), 2);
    assert_eq!(tile_rows(7, 1), 7);
}

#[test]
fn assign_feedback_messages() {
    assert_eq!(assign_message(true, true, "sprites/hero.png"), "Assigned sprites/hero.png");
    assert_eq!(assign_message(true, false, "x.png"), "Select an entity with a Sprite to assign textures");
    assert_eq!(assign_message(false, false, "x.png"), "Select an entity first (or drag onto the scene)");
}
