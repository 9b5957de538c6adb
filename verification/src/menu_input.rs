//! Shared menu-screen input: one frame's navigation signals plus wraparound
//! list navigation.
//!
//! Signals come from the keyboard and from every connected gamepad — menus
//! don't care which player navigates. The engine owns that mechanism; games
//! own what each screen and selection means.
use vstd::prelude::*;

verus! {

/// One frame's worth of menu signals, read once per screen update.
#[derive(Debug, Clone, Copy, PartialEq, Eq, Structural)]
pub struct MenuInput {
    /// W/ArrowUp, or any pad's DPadUp / left-stick-up edge, was just pressed.
    pub up: bool,
    /// S/ArrowDown, or any pad's DPadDown / left-stick-down edge, was just pressed.
    pub down: bool,
    /// Space/Enter, or any pad's A or Start, was just pressed.
    pub confirm: bool,
    /// Escape, or any pad's B, was just pressed.
    pub back: bool,
}

/// Where `navigate` moves the cursor: up wins over down, both wrap around
/// the `count` items, an empty list pins the cursor at 0.
pub open spec fn spec_navigate(input: MenuInput, current: u8, count: u8) -> u8 {
    if count == 0 {
        0
    } else if input.up {
        if current == 0 {
            (count - 1) as u8
        } else {
            (current - 1) as u8
        }
    } else if input.down {
        ((current + 1) % (count as int)) as u8
    } else {
        current
    }
}

/// The navigation inputs `navigate` accepts: every one except moving down
/// from cursor 255, where the cursor itself would overflow.
pub open spec fn navigate_ok(input: MenuInput, current: u8, count: u8) -> bool {
    !(count != 0 && !input.up && input.down && current == 255)
}

/// A frame with only "up" pressed.
pub open spec fn up_only() -> MenuInput {
    MenuInput { up: true, down: false, confirm: false, back: false }
}

/// A frame with only "down" pressed.
pub open spec fn down_only() -> MenuInput {
    MenuInput { up: false, down: true, confirm: false, back: false }
}

impl MenuInput {
    /// This frame's menu signals from every source: a signal fires when the
    /// keyboard or any connected pad fired it.
    pub fn combine(keyboard: MenuInput, pads: &Vec<MenuInput>) -> (r: MenuInput)
        ensures
            r.up == (keyboard.up || exists|i: int| 0 <= i < pads@.len() && (#[trigger] pads@[i]).up),
            r.down == (keyboard.down || exists|i: int| 0 <= i < pads@.len() && (#[trigger] pads@[i]).down),
            r.confirm == (keyboard.confirm || exists|i: int| 0 <= i < pads@.len() && (#[trigger] pads@[i]).confirm),
            r.back == (keyboard.back || exists|i: int| 0 <= i < pads@.len() && (#[trigger] pads@[i]).back),
    {
        let mut menu = keyboard;
        let mut i: usize = 0;
        while i < pads.len()
            invariant
                i <= pads@.len(),
                menu.up == (keyboard.up || exists|j: int| 0 <= j < i && (#[trigger] pads@[j]).up),
                menu.down == (keyboard.down || exists|j: int| 0 <= j < i && (#[trigger] pads@[j]).down),
                menu.confirm == (keyboard.confirm || exists|j: int| 0 <= j < i && (#[trigger] pads@[j]).confirm),
                menu.back == (keyboard.back || exists|j: int| 0 <= j < i && (#[trigger] pads@[j]).back),
            decreases pads@.len() - i,
        {
            let pad = pads[i];
            menu.up = menu.up || pad.up;
            menu.down = menu.down || pad.down;
            menu.confirm = menu.confirm || pad.confirm;
            menu.back = menu.back || pad.back;
            i = i + 1;
        }
        menu
    }

    /// Move `current` through a `count`-item list with wraparound.
    /// `up` takes precedence when both directions fire on the same frame.
    pub fn navigate(&self, current: u8, count: u8) -> (r: u8)
        requires
            navigate_ok(*self, current, count),
        ensures
            r == spec_navigate(*self, current, count),
    {
        if count == 0 {
            return 0;
        }
        if self.up {
            if current == 0 {
                count - 1
            } else {
                current - 1
            }
        } else if self.down {
            (current + 1) % count
        } else {
            current
        }
    }
}

/// Navigation keeps an in-range cursor in range, and an empty list at 0.
pub proof fn law_navigate_stays_in_range(input: MenuInput, current: u8, count: u8)
    requires
        current < count,
    ensures
        spec_navigate(input, current, count) < count,
        spec_navigate(input, current, 0) == 0,
{
}

/// Up and down undo each other on an in-range cursor, in both orders, across
/// the wraparound too.
pub proof fn law_up_and_down_are_inverse(current: u8, count: u8)
    requires
        current < count,
    ensures
        spec_navigate(down_only(), spec_navigate(up_only(), current, count), count) == current,
        spec_navigate(up_only(), spec_navigate(down_only(), current, count), count) == current,
{
    if current + 1 == count {
        assert((current + 1) % (count as int) == 0) by (nonlinear_arith)
            requires
                current + 1 == count,
        ;
    } else {
        assert((current + 1) % (count as int) == current + 1) by (nonlinear_arith)
            requires
                current + 1 < count,
        ;
    }
    if current == 0 {
        assert(((count - 1) + 1) % (count as int) == 0) by (nonlinear_arith)
            requires
                count > 0,
        ;
    } else {
        assert(((current - 1) + 1) % (count as int) == current) by (nonlinear_arith)
            requires
                0 < current < count,
        ;
    }
}

/// Without up or down the cursor holds its position; with both, up wins.
pub proof fn law_navigate_holds_and_up_wins(input: MenuInput, current: u8, count: u8)
    requires
        count > 0,
    ensures
        (!input.up && !input.down) ==> spec_navigate(input, current, count) == current,
        input.up ==> spec_navigate(input, current, count) == spec_navigate(up_only(), current, count),
{
}

} // verus!
