//! Game loop configuration and run state.
use vstd::prelude::*;
use crate::EngineError;

verus! {

/// Configuration for the game loop
#[derive(Debug, Clone, Copy)]
pub struct GameLoopConfig {
    /// Target frames per second
    pub target_fps: u32,
    /// Whether to use fixed timestep
    pub fixed_timestep: bool,
}

impl Default for GameLoopConfig {
    /// 60 fps with a fixed timestep.
    fn default() -> (r: Self)
        ensures
            r.target_fps == 60,
            r.fixed_timestep,
    {
        GameLoopConfig { target_fps: 60, fixed_timestep: true }
    }
}

/// The main game loop's configuration and whether it is running.
pub struct GameLoop {
    config: GameLoopConfig,
    running: bool,
}

impl GameLoop {
    /// The loop's configuration.
    pub closed spec fn spec_config(&self) -> GameLoopConfig {
        self.config
    }

    /// Whether the loop is running.
    pub closed spec fn spec_running(&self) -> bool {
        self.running
    }

    /// Create a new game loop with the given configuration, not running.
    pub fn new(config: GameLoopConfig) -> (r: Self)
        ensures
            r.spec_config() == config,
            !r.spec_running(),
    {
        GameLoop { config, running: false }
    }

    /// Start the game loop
    pub fn start(&mut self) -> (r: Result<(), EngineError>)
        ensures
            r is Ok,
            final(self).spec_running(),
            final(self).spec_config() == old(self).spec_config(),
    {
        self.running = true;
        Ok(())
    }

    /// Stop the game loop
    pub fn stop(&mut self)
        ensures
            !final(self).spec_running(),
            final(self).spec_config() == old(self).spec_config(),
    {
        self.running = false;
    }

    /// Check if the game loop is running
    pub fn is_running(&self) -> (r: bool)
        ensures
            r == self.spec_running(),
    {
        self.running
    }

    /// The configuration the loop was created with.
    pub fn config(&self) -> (r: GameLoopConfig)
        ensures
            r == self.spec_config(),
    {
        self.config
    }
}

} // verus!
