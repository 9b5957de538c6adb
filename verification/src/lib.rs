//! Core logic of the insiculous_2d game engine: system lifecycles, the game
//! loop's run state, menus and pausing, localization, achievements, asset
//! validation, the particle pool, the spring grid's topology, pickups, the
//! glyph texture cache, gamepad hat switches, and the editor's play, shortcut
//! and menu decisions.
use vstd::prelude::*;

pub mod achievements;
pub mod asset_browser;
pub mod assets;
pub mod behavior_data;
pub mod chaos_mode;
pub mod contexts;
pub mod editor_control;
pub mod events;
pub mod game_config;
pub mod game_loop;
pub mod gamepad;
pub mod glyph_cache;
pub mod grid;
pub mod lifecycle;
pub mod locale_font;
pub mod localization;
pub mod menu_input;
pub mod menu_panel;
pub mod particles;
pub mod pause;
pub mod pickups;
pub mod table;
pub mod text;

verus! {

/// Errors that can occur in the engine core
#[derive(Debug)]
pub enum EngineError {
    InitializationError(String),
    GameLoopError(String),
}

impl EngineError {
    /// The error's message, as it is displayed.
    pub open spec fn spec_message(&self) -> Seq<char> {
        match self {
            EngineError::InitializationError(s) => "Failed to initialize engine: "@ + s@,
            EngineError::GameLoopError(s) => "Game loop error: "@ + s@,
        }
    }

    /// The error's message, as it is displayed.
    pub fn message(&self) -> (r: String)
        ensures
            r@ == self.spec_message(),
    {
        match self {
            EngineError::InitializationError(s) => {
                let mut m = "Failed to initialize engine: ".to_string();
                m.append(s.as_str());
                m
            },
            EngineError::GameLoopError(s) => {
                let mut m = "Game loop error: ".to_string();
                m.append(s.as_str());
                m
            },
        }
    }
}

/// Initialize the engine core
pub fn init() -> (r: Result<(), EngineError>)
    ensures
        r is Ok,
{
    Ok(())
}

} // verus!
