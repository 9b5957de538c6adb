# engine_core

The decision-making core of the insiculous_2d 2D game engine, written in
Verus: every function in `src/` carries a contract and is proved against it.

- `src/` — the verified library: system lifecycles, the game loop's run
  state, menu navigation and the pause menu, localization tables and the
  locale font, achievements, asset validation and path resolution, the
  particle slot pool and its random stream, the spring grid's topology,
  pickups against collision events, the glyph texture cache, gamepad hat
  switches, the asset browser's thumbnail budget, and the editor's play
  state machine, keyboard shortcuts and menu dispatch. Properties that span
  several calls are stated as `law_*` proof functions next to the code they
  are about.
- `tests/` — executable tests of the library.
- `app/` — the runtime shell: serde formats (game config, locale files,
  achievement saves), file and clock access, and the floating-point
  simulations (particles, spring grid, timers, menu geometry) that drive the
  library's state.
