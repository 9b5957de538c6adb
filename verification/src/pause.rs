//! Shared pause mechanism: state, toggle, and the standard pause menu.
//!
//! The engine owns the mechanism — Menu (Escape / any pad's Start) toggles,
//! [`MenuInput`] navigates, and the menu offers Resume / Restart / Quit to
//! Title / Exit Game. Games own the meaning: they decide which states are
//! pausable, skip their gameplay update while paused, and map
//! [`PauseAction::Restart`] / [`PauseAction::QuitToTitle`] onto their own
//! restart and title screens.
use vstd::prelude::*;
use crate::menu_input::{MenuInput, spec_navigate};
use crate::menu_panel::MenuMouse;

verus! {

/// Number of items in the pause menu.
pub const ITEM_COUNT: u8 = 4;

/// What the pause menu decided this frame.
#[derive(Debug, Clone, Copy, PartialEq, Eq, Structural)]
pub enum PauseAction {
    /// Nothing changed: either not paused, or paused and still browsing.
    Idle,
    /// The player unpaused (toggle or the Resume item). Games should skip
    /// the rest of this frame's update so the resuming keypress can't leak
    /// into gameplay; the world unfreezes next frame.
    Resumed,
    /// The player picked Restart — restart the current match. Unpauses.
    Restart,
    /// The player picked Quit to Title. Unpauses.
    QuitToTitle,
    /// The player picked Exit Game. Unpauses.
    ExitGame,
}

/// Localizable label set for the pause menu. The defaults are the built-in
/// English labels. Item order matches the selection order: Resume, Restart,
/// Quit to Title, Exit Game.
#[derive(Debug, Clone, Copy)]
pub struct PauseMenuLabels<'a> {
    /// Panel title (default "PAUSED")
    pub title: &'a str,
    /// The four menu items in selection order
    pub items: [&'a str; 4],
    /// Hint footer under the items
    pub hint: &'a str,
}

impl Default for PauseMenuLabels<'_> {
    /// The built-in English labels.
    fn default() -> (r: Self)
        ensures
            r.title@ == "PAUSED"@,
            r.items@[0]@ == "Resume"@,
            r.items@[1]@ == "Restart"@,
            r.items@[2]@ == "Quit to Title"@,
            r.items@[3]@ == "Exit Game"@,
            r.hint@ == "ESC resumes - SPACE/ENTER or click confirms"@,
    {
        PauseMenuLabels {
            title: "PAUSED",
            items: ["Resume", "Restart", "Quit to Title", "Exit Game"],
            hint: "ESC resumes - SPACE/ENTER or click confirms",
        }
    }
}

/// The abstract pause state: paused or not, and the highlighted item.
pub struct PauseModel {
    pub active: bool,
    pub selection: u8,
}

/// The action a confirmed item triggers.
pub open spec fn item_action(selection: u8) -> PauseAction {
    if selection == 0 {
        PauseAction::Resumed
    } else if selection == 1 {
        PauseAction::Restart
    } else if selection == 2 {
        PauseAction::QuitToTitle
    } else {
        PauseAction::ExitGame
    }
}

/// The mouse rows the pause menu can report: one of its four items.
pub open spec fn mouse_in_menu(mouse: MenuMouse) -> bool {
    &&& mouse.hovered matches Some(h) ==> h < ITEM_COUNT
    &&& mouse.clicked matches Some(c) ==> c < ITEM_COUNT
}

/// One frame of the pause state machine: the new state and the action.
///
/// Not paused: a Menu edge pauses (highlighting Resume). Paused: Menu or
/// back always resumes; otherwise the cursor moves by keyboard/pad, a mouse
/// hover moves it too, and confirm or a click executes the highlighted (or
/// clicked) item, unpausing.
pub open spec fn pause_step(m: PauseModel, menu_pressed: bool, nav: MenuInput, mouse: MenuMouse) -> (
    PauseModel,
    PauseAction,
) {
    if !m.active {
        if menu_pressed {
            (PauseModel { active: true, selection: 0 }, PauseAction::Idle)
        } else {
            (m, PauseAction::Idle)
        }
    } else if menu_pressed || nav.back {
        (PauseModel { active: false, ..m }, PauseAction::Resumed)
    } else {
        let moved = spec_navigate(nav, m.selection, ITEM_COUNT);
        let hovered = match mouse.hovered {
            Some(h) => h,
            None => moved,
        };
        if nav.confirm || mouse.clicked is Some {
            let chosen = match mouse.clicked {
                Some(c) => c,
                None => hovered,
            };
            (PauseModel { active: false, selection: chosen }, item_action(chosen))
        } else {
            (PauseModel { active: true, selection: hovered }, PauseAction::Idle)
        }
    }
}

/// Pause state + menu. Embed one per game and drive it from the game's
/// pausable states.
#[derive(Debug)]
pub struct PauseMenu {
    active: bool,
    selection: u8,
}

impl View for PauseMenu {
    type V = PauseModel;

    closed spec fn view(&self) -> PauseModel {
        PauseModel { active: self.active, selection: self.selection }
    }
}

impl PauseMenu {
    #[verifier::type_invariant]
    closed spec fn wf(self) -> bool {
        self.selection < ITEM_COUNT
    }

    pub fn new() -> (r: Self)
        ensures
            r@ == (PauseModel { active: false, selection: 0 }),
    {
        PauseMenu { active: false, selection: 0 }
    }

    /// Whether the game is currently paused.
    pub fn is_active(&self) -> (r: bool)
        ensures
            r == self@.active,
    {
        self.active
    }

    /// The highlighted item (0 = Resume … 3 = Exit Game).
    pub fn selection(&self) -> (r: u8)
        ensures
            r == self@.selection,
            r < ITEM_COUNT,
    {
        proof {
            use_type_invariant(self);
        }
        self.selection
    }

    /// Advance the pause state machine one frame, given whether the Menu
    /// action was just activated (Escape / any pad's Start), this frame's
    /// menu navigation, and the mouse's interaction with the menu rows.
    pub fn update(&mut self, menu_pressed: bool, nav: MenuInput, mouse: MenuMouse) -> (r: PauseAction)
        requires
            mouse_in_menu(mouse),
        ensures
            (final(self)@, r) == pause_step(old(self)@, menu_pressed, nav, mouse),
    {
        proof {
            use_type_invariant(&*self);
        }
        if !self.active {
            if menu_pressed {
                *self = PauseMenu { active: true, selection: 0 };
            }
            return PauseAction::Idle;
        }
        if menu_pressed || nav.back {
            *self = PauseMenu { active: false, selection: self.selection };
            return PauseAction::Resumed;
        }
        let mut selection = nav.navigate(self.selection, ITEM_COUNT);
        if let Some(hovered) = mouse.hovered {
            selection = hovered;
        }
        if nav.confirm || mouse.clicked.is_some() {
            if let Some(clicked) = mouse.clicked {
                selection = clicked;
            }
            *self = PauseMenu { active: false, selection };
            return match selection {
                0 => PauseAction::Resumed,
                1 => PauseAction::Restart,
                2 => PauseAction::QuitToTitle,
                _ => PauseAction::ExitGame,
            };
        }
        *self = PauseMenu { active: true, selection };
        PauseAction::Idle
    }
}

impl Default for PauseMenu {
    fn default() -> (r: Self)
        ensures
            r@ == (PauseModel { active: false, selection: 0 }),
    {
        Self::new()
    }
}

/// The Menu action toggles: when not paused it pauses with Resume
/// highlighted; when paused it resumes, as does back.
pub proof fn law_menu_toggles(m: PauseModel, nav: MenuInput, mouse: MenuMouse)
    ensures
        !m.active ==> pause_step(m, true, nav, mouse) == (PauseModel { active: true, selection: 0 }, PauseAction::Idle),
        m.active ==> pause_step(m, true, nav, mouse) == (PauseModel { active: false, ..m }, PauseAction::Resumed),
        m.active ==> pause_step(m, false, MenuInput { back: true, ..nav }, mouse).1 == PauseAction::Resumed,
{
}

/// Only the Menu action pauses: an unpaused menu ignores everything else
/// and always reports `Idle`.
pub proof fn law_unpaused_ignores_navigation(m: PauseModel, nav: MenuInput, mouse: MenuMouse)
    requires
        !m.active,
    ensures
        pause_step(m, false, nav, mouse) == (m, PauseAction::Idle),
{
}

/// Every action other than `Idle` unpauses, and `Idle` never changes whether
/// the game is paused.
pub proof fn law_actions_unpause(m: PauseModel, menu_pressed: bool, nav: MenuInput, mouse: MenuMouse)
    ensures
        pause_step(m, menu_pressed, nav, mouse).1 != PauseAction::Idle ==> !pause_step(m, menu_pressed, nav, mouse).0.active,
        pause_step(m, menu_pressed, nav, mouse).1 == PauseAction::Idle ==> pause_step(m, menu_pressed, nav, mouse).0.active == (m.active || menu_pressed),
{
}

/// Confirming executes the highlighted item; a click executes the clicked
/// row, whatever was highlighted.
pub proof fn law_confirm_and_click_execute(m: PauseModel, nav: MenuInput, mouse: MenuMouse)
    requires
        m.active,
        !nav.back,
        m.selection < ITEM_COUNT,
    ensures
        (nav.confirm && !nav.up && !nav.down && mouse.hovered is None && mouse.clicked is None)
            ==> pause_step(m, false, nav, mouse).1 == item_action(m.selection),
        mouse.clicked matches Some(c) ==> pause_step(m, false, nav, mouse).1 == item_action(c),
{
}

/// A paused menu keeps its highlight on one of its four items.
pub proof fn law_selection_in_range(m: PauseModel, menu_pressed: bool, nav: MenuInput, mouse: MenuMouse)
    requires
        m.selection < ITEM_COUNT,
        mouse_in_menu(mouse),
    ensures
        pause_step(m, menu_pressed, nav, mouse).0.selection < ITEM_COUNT,
{
}

} // verus!
