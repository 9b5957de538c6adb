//! Mouse interaction with a menu window's selectable rows.
//!
//! Convention (all games): hover moves the shared selection cursor, a
//! left-click on a row confirms it. Clicks outside the rows do nothing.
use vstd::prelude::*;

verus! {

/// One frame's mouse interaction with a menu window's selectable rows.
#[derive(Debug, Clone, Copy, PartialEq, Eq, Structural)]
pub struct MenuMouse {
    /// Row under the cursor — reported only on frames where the mouse
    /// actually moved, so a resting cursor never fights keyboard/pad
    /// navigation for the selection.
    pub hovered: Option<u8>,
    /// Row the left button was just pressed on this frame (reported whether
    /// or not the mouse moved).
    pub clicked: Option<u8>,
}

impl MenuMouse {
    /// This frame's interaction from the row under the pointer (if any),
    /// whether the pointer moved, and whether the left button was just
    /// pressed.
    pub fn from_pointer(row: Option<u8>, moved: bool, left_just_pressed: bool) -> (r: MenuMouse)
        ensures
            r.hovered == (if moved { row } else { None::<u8> }),
            r.clicked == (if left_just_pressed { row } else { None::<u8> }),
    {
        MenuMouse {
            hovered: if moved { row } else { None },
            clicked: if left_just_pressed { row } else { None },
        }
    }
}

impl Default for MenuMouse {
    /// No hover, no click.
    fn default() -> (r: Self)
        ensures
            r.hovered is None,
            r.clicked is None,
    {
        MenuMouse { hovered: None, clicked: None }
    }
}

} // verus!
