use engine_core::menu_input::MenuInput;
use engine_core::menu_panel::MenuMouse;
use engine_core::pause::{PauseAction, PauseMenu, PauseMenuLabels};

fn keys(up: bool, down: bool) -> MenuInput {
    MenuInput { up, down, confirm: false, back: false }
}

fn nav(up: bool, down: bool, confirm: bool, back: bool) -> MenuInput {
    MenuInput { up, down, confirm, back }
}

fn quiet() -> MenuInput {
    nav(false, false, false, false)
}

fn no_mouse() -> MenuMouse {
    MenuMouse::default()
}

#[test]
fn test_navigate_wraps_both_directions() {
    assert_eq!(keys(true, false).navigate(0, 3), 2);
    assert_eq!(keys(false, true).navigate(2, 3), 0);
}

#[test]
fn test_navigate_holds_position_without_input() {
    assert_eq!(keys(false, false).navigate(1, 3), 1);
}

#[test]
fn test_navigate_up_wins_over_down_on_same_frame() {
    assert_eq!(keys(true, true).navigate(1, 3), 0);
}

#[test]
fn test_navigate_empty_list_stays_at_zero() {
    assert_eq!(keys(true, false).navigate(0, 0), 0);
}

#[test]
fn navigate_up_then_down_returns_to_start() {
    for count in 1..=5u8 {
        for current in 0..count {
            let up = keys(true, false).navigate(current, count);
            assert_eq!(keys(false, true).navigate(up, count), current);
        }
    }
}

#[test]
fn test_read_on_idle_handler_reports_nothing() {
    let input = MenuInput::combine(quiet(), &vec![]);
    assert_eq!(input, MenuInput { up: false, down: false, confirm: false, back: false });
}

#[test]
fn test_any_pads_dpad_and_buttons_navigate_menus() {
    // Pad 1 (not just pad 0) drives menus too
    let pads = vec![quiet(), nav(false, true, false, false)];
    assert!(MenuInput::combine(quiet(), &pads).down);

    let pads = vec![nav(false, false, true, false), nav(false, false, false, true)];
    let input = MenuInput::combine(quiet(), &pads);
    assert!(input.confirm);
    assert!(input.back);
    assert!(!input.down, "released dpad no longer navigates");
}

#[test]
fn test_keyboard_menu_behavior_unchanged_with_idle_pad_connected() {
    let input = MenuInput::combine(nav(true, false, false, false), &vec![quiet()]);
    assert!(input.up);
    assert!(!input.down && !input.confirm && !input.back);
}

#[test]
fn resting_cursor_does_not_hover_but_still_clicks() {
    let mouse = MenuMouse::from_pointer(Some(2), true, false);
    assert_eq!(mouse.hovered, Some(2));
    let mouse = MenuMouse::from_pointer(Some(2), false, true);
    assert_eq!(mouse.hovered, None);
    assert_eq!(mouse.clicked, Some(2));
}

#[test]
fn click_on_a_row_reports_that_row() {
    let mouse = MenuMouse::from_pointer(Some(1), true, true);
    assert_eq!(mouse.hovered, Some(1));
    assert_eq!(mouse.clicked, Some(1));
}

#[test]
fn click_outside_the_rows_reports_nothing() {
    assert_eq!(MenuMouse::from_pointer(None, true, true), MenuMouse::default());
}

#[test]
fn default_labels_match_builtin_english() {
    let labels = PauseMenuLabels::default();
    assert_eq!(labels.title, "PAUSED");
    assert_eq!(labels.items, ["Resume", "Restart", "Quit to Title", "Exit Game"]);
    assert_eq!(labels.hint, "ESC resumes - SPACE/ENTER or click confirms");
}

// Pause frames: Escape fires the Menu action and `back`; Space fires
// `confirm`; W/S fire up/down; a pad's Start fires Menu and `confirm`; a
// pad's B fires `back`.
fn escape() -> (bool, MenuInput) {
    (true, nav(false, false, false, true))
}

fn step(pause: &mut PauseMenu, frame: (bool, MenuInput)) -> PauseAction {
    pause.update(frame.0, frame.1, no_mouse())
}

fn idle_frame() -> (bool, MenuInput) {
    (false, quiet())
}

#[test]
fn menu_press_pauses_and_same_button_resumes() {
    let mut pause = PauseMenu::new();
    assert_eq!(step(&mut pause, escape()), PauseAction::Idle);
    assert!(pause.is_active());

    // Held Escape is not an edge — stays paused
    assert_eq!(step(&mut pause, idle_frame()), PauseAction::Idle);
    assert!(pause.is_active());

    step(&mut pause, idle_frame());
    assert_eq!(step(&mut pause, escape()), PauseAction::Resumed);
    assert!(!pause.is_active());
}

#[test]
fn pad_start_pauses_and_resumes_from_either_player() {
    let mut pause = PauseMenu::new();
    let start = (true, nav(false, false, true, false));
    assert_eq!(step(&mut pause, start), PauseAction::Idle);
    assert!(pause.is_active());
    step(&mut pause, idle_frame());
    assert_eq!(step(&mut pause, start), PauseAction::Resumed);
}

#[test]
fn back_button_resumes() {
    let mut pause = PauseMenu::new();
    step(&mut pause, escape());
    assert!(pause.is_active());
    assert_eq!(step(&mut pause, (false, nav(false, false, false, true))), PauseAction::Resumed);
}

#[test]
fn confirm_executes_highlighted_item() {
    for (downs, expected) in [
        (0, PauseAction::Resumed),
        (1, PauseAction::Restart),
        (2, PauseAction::QuitToTitle),
        (3, PauseAction::ExitGame),
    ] {
        let mut pause = PauseMenu::new();
        step(&mut pause, escape());
        step(&mut pause, idle_frame());
        for _ in 0..downs {
            assert_eq!(step(&mut pause, (false, nav(false, true, false, false))), PauseAction::Idle);
            step(&mut pause, idle_frame());
        }
        assert_eq!(step(&mut pause, (false, nav(false, false, true, false))), expected, "{downs} downs");
        assert!(!pause.is_active(), "every confirm unpauses");
    }
}

#[test]
fn click_on_a_row_executes_it_and_hover_moves_the_highlight() {
    let mut pause = PauseMenu::new();
    step(&mut pause, escape());
    step(&mut pause, idle_frame());

    // Hover over "Quit to Title" (row 2) moves the highlight...
    assert_eq!(
        pause.update(false, quiet(), MenuMouse::from_pointer(Some(2), true, false)),
        PauseAction::Idle
    );
    // ...so a keyboard confirm now executes the hovered row
    assert_eq!(step(&mut pause, (false, nav(false, false, true, false))), PauseAction::QuitToTitle);

    // Reopen; a direct click on "Restart" (row 1) executes it
    step(&mut pause, escape());
    assert_eq!(
        pause.update(false, quiet(), MenuMouse::from_pointer(Some(1), true, true)),
        PauseAction::Restart
    );
    assert!(!pause.is_active());
}

#[test]
fn click_outside_the_menu_window_does_nothing() {
    let mut pause = PauseMenu::new();
    step(&mut pause, escape());
    assert_eq!(
        pause.update(false, quiet(), MenuMouse::from_pointer(None, true, true)),
        PauseAction::Idle
    );
    assert!(pause.is_active(), "stray clicks don't unpause");
}

#[test]
fn selection_wraps_and_resets_on_reopen() {
    let mut pause = PauseMenu::new();
    step(&mut pause, escape());
    step(&mut pause, idle_frame());

    // Up from the top wraps to the last item (Exit Game)
    step(&mut pause, (false, nav(true, false, false, false)));
    assert_eq!(step(&mut pause, (false, nav(false, false, true, false))), PauseAction::ExitGame);

    // Reopening starts back at Resume
    step(&mut pause, escape());
    assert_eq!(pause.selection(), 0);
    assert_eq!(step(&mut pause, (false, nav(false, false, true, false))), PauseAction::Resumed);
}

#[test]
fn unpaused_menu_ignores_navigation_and_clicks() {
    let mut pause = PauseMenu::new();
    assert_eq!(
        pause.update(false, nav(true, true, true, true), MenuMouse::from_pointer(Some(3), true, true)),
        PauseAction::Idle
    );
    assert!(!pause.is_active());
}
