use engine_core::editor_control::{
    gizmo_drag, gizmo_undo, GizmoDrag, GizmoUndo,
    click_selection, dirty_after_history_step, inner_game_runs, rect_selection_replaces,
    viewport_picks, ClickSelection,
    copy_name, create_kind, create_label, editor_window_size, key_command, menu_command,
    next_entity_name, play_step, save_target, texture_ref, tool_shortcut, CreateKind, EditorKey,
    EditorTool, KeyCommand, MenuCommand, PanelToggle, PlayControlAction, PlayState,
    DEFAULT_SCENE_PATH,
};

fn enforces_minimum_size() {
    let (w, h) = editor_window_size(640, 480);
    assert_eq!(w, 1024);
    assert_eq!(h, 720);
}

fn preserves_large_size() {
    let (w, h) = editor_window_size(1920, 1080);
    assert_eq!(w, 1920);
    assert_eq!(h, 1080);
}

fn play_captures_snapshot() {
    let step = play_step(PlayState::Editing, PlayControlAction::Play);
    assert_eq!(step.state, PlayState::Playing);
    assert!(step.capture_snapshot);
    assert!(step.cancel_gizmo_drag);
    assert!(step.close_popup);
    assert!(!step.restore_snapshot);
}

fn play_pause_resume_stop_cycle() {
    let mut held = false;
    let play = play_step(PlayState::Editing, PlayControlAction::Play);
    held = (held && !play.restore_snapshot) || play.capture_snapshot;
    assert_eq!(play.state, PlayState::Playing);

    let pause = play_step(play.state, PlayControlAction::Pause);
    held = (held && !pause.restore_snapshot) || pause.capture_snapshot;
    assert_eq!(pause.state, PlayState::Paused);

    let resume = play_step(pause.state, PlayControlAction::Play);
    held = (held && !resume.restore_snapshot) || resume.capture_snapshot;
    assert_eq!(resume.state, PlayState::Playing);
    assert!(!resume.capture_snapshot);

    let stop = play_step(resume.state, PlayControlAction::Stop);
    held = (held && !stop.restore_snapshot) || stop.capture_snapshot;
    assert_eq!(stop.state, PlayState::Editing);
    assert!(stop.restore_snapshot);
    assert!(!held);
}

#[test]
fn editor_game_test_editor_config_enforces_minimum_size() {
    enforces_minimum_size();
}

#[test]
fn tests_test_editor_config_enforces_minimum_size() {
    enforces_minimum_size();
}

#[test]
fn editor_game_test_editor_config_preserves_large_size() {
    preserves_large_size();
}

#[test]
fn tests_test_editor_config_preserves_large_size() {
    preserves_large_size();
}

#[test]
fn editor_game_test_play_action_captures_snapshot() {
    play_captures_snapshot();
}

#[test]
fn tests_test_play_action_captures_snapshot() {
    play_captures_snapshot();
}

#[test]
fn editor_game_test_play_pause_resume_stop_cycle() {
    play_pause_resume_stop_cycle();
}

#[test]
fn tests_test_play_pause_resume_stop_cycle() {
    play_pause_resume_stop_cycle();
}

#[test]
fn stop_while_editing_does_nothing() {
    let step = play_step(PlayState::Editing, PlayControlAction::Stop);
    assert_eq!(step.state, PlayState::Editing);
    assert!(!step.restore_snapshot && !step.capture_snapshot);
}

#[test]
fn pause_while_editing_does_nothing() {
    let step = play_step(PlayState::Editing, PlayControlAction::Pause);
    assert_eq!(step.state, PlayState::Editing);
    let step = play_step(PlayState::Paused, PlayControlAction::Pause);
    assert_eq!(step.state, PlayState::Paused);
}

#[test]
fn stop_from_pause_restores() {
    let step = play_step(PlayState::Paused, PlayControlAction::Stop);
    assert_eq!(step.state, PlayState::Editing);
    assert!(step.restore_snapshot);
}

#[test]
fn resume_from_pause_closes_popup_without_new_snapshot() {
    let step = play_step(PlayState::Paused, PlayControlAction::Play);
    assert_eq!(step.state, PlayState::Playing);
    assert!(step.close_popup);
    assert!(!step.capture_snapshot);
    assert!(!step.cancel_gizmo_drag);
}

#[test]
fn text_focus_swallows_keys() {
    assert_eq!(key_command(EditorKey::KeyP, true, true, true, false), KeyCommand::Ignore);
    assert_eq!(key_command(EditorKey::Delete, false, false, true, false), KeyCommand::Ignore);
}

#[test]
fn ctrl_p_toggles_play_and_pause() {
    assert_eq!(
        key_command(EditorKey::KeyP, true, false, false, false),
        KeyCommand::Control(PlayControlAction::Play)
    );
    assert_eq!(
        key_command(EditorKey::KeyP, true, false, false, true),
        KeyCommand::Control(PlayControlAction::Pause)
    );
    assert_eq!(
        key_command(EditorKey::KeyP, true, true, false, true),
        KeyCommand::Control(PlayControlAction::Stop)
    );
}

#[test]
fn playing_forwards_editor_shortcuts_to_game() {
    assert_eq!(key_command(EditorKey::KeyZ, true, false, false, true), KeyCommand::Forward);
    assert_eq!(key_command(EditorKey::Delete, false, false, false, true), KeyCommand::Forward);
    assert_eq!(key_command(EditorKey::F5, false, false, false, true), KeyCommand::Forward);
}

#[test]
fn editing_shortcuts_map_to_commands() {
    assert_eq!(key_command(EditorKey::KeyZ, true, false, false, false), KeyCommand::Undo);
    assert_eq!(key_command(EditorKey::KeyZ, true, true, false, false), KeyCommand::Redo);
    assert_eq!(key_command(EditorKey::KeyY, true, false, false, false), KeyCommand::Redo);
    assert_eq!(key_command(EditorKey::KeyZ, false, false, false, false), KeyCommand::Forward);
    assert_eq!(key_command(EditorKey::KeyG, false, false, false, false), KeyCommand::ToggleGrid);
    assert_eq!(key_command(EditorKey::KeyC, false, false, false, false), KeyCommand::ToggleColliders);
    assert_eq!(key_command(EditorKey::KeyC, true, false, false, false), KeyCommand::Forward);
    assert_eq!(key_command(EditorKey::KeyS, true, true, false, false), KeyCommand::SaveAs);
    assert_eq!(key_command(EditorKey::KeyS, true, false, false, false), KeyCommand::Save);
    assert_eq!(key_command(EditorKey::KeyN, true, false, false, false), KeyCommand::NewScene);
    assert_eq!(key_command(EditorKey::KeyO, true, false, false, false), KeyCommand::OpenScene);
    assert_eq!(key_command(EditorKey::KeyD, true, false, false, false), KeyCommand::Duplicate);
    assert_eq!(key_command(EditorKey::Backspace, false, false, false, false), KeyCommand::DeleteSelection);
    assert_eq!(key_command(EditorKey::Equal, false, false, false, false), KeyCommand::ZoomIn);
    assert_eq!(key_command(EditorKey::Minus, false, false, false, false), KeyCommand::ZoomOut);
    assert_eq!(key_command(EditorKey::Digit0, false, false, false, false), KeyCommand::ResetCamera);
    assert_eq!(
        key_command(EditorKey::F5, false, false, false, false),
        KeyCommand::Control(PlayControlAction::Play)
    );
    assert_eq!(key_command(EditorKey::Other, false, false, false, false), KeyCommand::Forward);
}

#[test]
fn tool_shortcuts_pick_first_pressed_key() {
    assert_eq!(tool_shortcut(false, false, true, true, false, false), Some(EditorTool::Select));
    assert_eq!(tool_shortcut(false, false, false, true, false, false), Some(EditorTool::Move));
    assert_eq!(tool_shortcut(false, false, false, false, true, true), Some(EditorTool::Rotate));
    assert_eq!(tool_shortcut(false, false, false, false, false, true), Some(EditorTool::Scale));
    assert_eq!(tool_shortcut(false, false, false, false, false, false), None);
    assert_eq!(tool_shortcut(true, false, true, false, false, false), None);
    assert_eq!(tool_shortcut(false, true, true, false, false, false), None);
}

#[test]
fn menu_items_dispatch() {
    assert_eq!(menu_command("Create Sprite", false), MenuCommand::Create(CreateKind::Sprite));
    assert_eq!(menu_command("Create Kinematic Body", false), MenuCommand::Create(CreateKind::KinematicBody));
    assert_eq!(menu_command("Delete", false), MenuCommand::Delete);
    assert_eq!(menu_command("Open Scene...", false), MenuCommand::OpenScene);
    assert_eq!(menu_command("Save As...", true), MenuCommand::SaveAs);
    assert_eq!(menu_command("Save", true), MenuCommand::Save);
    assert_eq!(menu_command("Exit", true), MenuCommand::Exit);
    assert_eq!(menu_command("Asset Browser", true), MenuCommand::TogglePanel(PanelToggle::AssetBrowser));
    assert_eq!(menu_command("Reset Layout", false), MenuCommand::ResetLayout);
    assert_eq!(menu_command("Frobnicate", false), MenuCommand::Unhandled);
}

#[test]
fn scene_edits_are_disabled_while_playing() {
    assert_eq!(menu_command("Create Empty", true), MenuCommand::Unhandled);
    assert_eq!(menu_command("Undo", true), MenuCommand::Unhandled);
    assert_eq!(menu_command("New Scene", true), MenuCommand::Unhandled);
    assert_eq!(menu_command("Toggle Grid", true), MenuCommand::ToggleGrid);
}

#[test]
fn create_actions_are_recognized() {
    assert_eq!(create_kind("Create Empty"), Some(CreateKind::Empty));
    assert_eq!(create_kind("Create Camera"), Some(CreateKind::Camera));
    assert_eq!(create_kind("Create Static Body"), Some(CreateKind::StaticBody));
    assert_eq!(create_kind("Create Dynamic Body"), Some(CreateKind::DynamicBody));
    assert_eq!(create_kind("Delete"), None);
}

#[test]
fn test_create_increments_counter() {
    let mut counter = 0;
    next_entity_name(create_label(CreateKind::Empty), &mut counter);
    assert_eq!(counter, 1);
    next_entity_name(create_label(CreateKind::Sprite), &mut counter);
    assert_eq!(counter, 2);
    next_entity_name(create_label(CreateKind::Camera), &mut counter);
    assert_eq!(counter, 3);
}

#[test]
fn test_create_names_are_unique() {
    let mut counter = 0;
    let n1 = next_entity_name(create_label(CreateKind::Empty), &mut counter);
    let n2 = next_entity_name(create_label(CreateKind::Empty), &mut counter);
    assert_ne!(n1, n2);
    assert_eq!(n1, "Entity 1");
    assert_eq!(n2, "Entity 2");
}

#[test]
fn body_labels_name_created_entities() {
    let mut counter = 41;
    assert_eq!(next_entity_name(create_label(CreateKind::StaticBody), &mut counter), "StaticBody 42");
    assert_eq!(next_entity_name(create_label(CreateKind::DynamicBody), &mut counter), "DynamicBody 43");
    assert_eq!(next_entity_name(create_label(CreateKind::KinematicBody), &mut counter), "KinematicBody 44");
    assert_eq!(next_entity_name("player", &mut counter), "player 45");
}

#[test]
fn test_duplicate_name_appends_copy() {
    let mut counter = 0;
    let original = next_entity_name(create_label(CreateKind::Empty), &mut counter);
    let name = copy_name(&original);
    assert!(name.ends_with("(Copy)"), "Name was: {}", name);
    assert_eq!(name, "Entity 1 (Copy)");
}

#[test]
fn save_goes_to_scene_path_or_default() {
    assert_eq!(save_target(Some("levels/one.ron")), "levels/one.ron");
    assert_eq!(save_target(None), DEFAULT_SCENE_PATH);
    assert_eq!(DEFAULT_SCENE_PATH, "scenes/scene.ron");
}

#[test]
fn saved_texture_references() {
    assert_eq!(texture_ref(3, Some("sprites/hero.png")), "sprites/hero.png");
    assert_eq!(texture_ref(0, None), "#white");
    assert_eq!(texture_ref(12, None), "#texture_12");
}

#[test]
fn clicks_select_add_toggle_or_clear() {
    assert_eq!(click_selection(Some(7), false, false), ClickSelection::Select(7));
    assert_eq!(click_selection(Some(7), true, true), ClickSelection::Add(7));
    assert_eq!(click_selection(Some(7), false, true), ClickSelection::Toggle(7));
    assert_eq!(click_selection(None, false, false), ClickSelection::Clear);
    assert_eq!(click_selection(None, true, false), ClickSelection::Keep);
    assert_eq!(click_selection(None, false, true), ClickSelection::Keep);
    assert!(rect_selection_replaces(false));
    assert!(!rect_selection_replaces(true));
}

#[test]
fn picking_and_inner_game_gates() {
    assert!(viewport_picks(false, false, false, false, false));
    assert!(!viewport_picks(true, false, false, false, false));
    assert!(!viewport_picks(false, false, true, false, false));
    assert!(!viewport_picks(false, false, false, false, true));
    assert!(inner_game_runs(PlayState::Playing));
    assert!(!inner_game_runs(PlayState::Paused));
    assert!(!inner_game_runs(PlayState::Editing));
}

#[test]
fn test_undo_redo_on_empty_history_do_not_mark_dirty() {
    // Undo and redo on an empty history apply nothing: a clean scene stays clean.
    let dirty = dirty_after_history_step(false, false);
    let dirty = dirty_after_history_step(dirty, false);
    assert!(!dirty);
    assert!(dirty_after_history_step(false, true));
    assert!(dirty_after_history_step(true, false));
}

#[test]
fn gizmo_drag_records_one_undo_entry() {
    let mut dragging = false;
    let mut ends = 0;
    for held in [false, true, true, true, false, false, true, false] {
        match gizmo_drag(held, dragging) {
            GizmoDrag::End => ends += 1,
            GizmoDrag::Begin => assert!(!dragging),
            _ => {}
        }
        dragging = held;
    }
    assert_eq!(ends, 2);
    assert_eq!(gizmo_drag(false, false), GizmoDrag::Idle);
    assert_eq!(gizmo_drag(true, true), GizmoDrag::Continue);
    assert_eq!(gizmo_undo(true), GizmoUndo::TransformAndCollider);
    assert_eq!(gizmo_undo(false), GizmoUndo::Transform);
}
