# gxengine

The game logic of GxEngine, a small first-person sandbox and 5v5 bot-match
engine, as a library whose behaviour is stated in `requires` / `ensures`
contracts and proved with Verus.

## Layout

- `src/` — the verified library.
  - `asset/` — asset stores and handles, procedural mesh topology (index
    lists of cubes, planes, spheres, cylinders), glTF pixel and index helpers,
    textures.
  - `audio/` — WAV container framing and the noise generator of the sound
    effects.
  - `engine/` — user settings and their sanitizing, the overlay / cursor-grab
    state machine, schedule stages and marker components.
  - `game/` — weapons and magazines, the buy menu and economy, match rounds,
    scores, scoreboard and HUD text, the pause menu, weather selection, scene
    validation, the scene library, structure layouts, enemy routes.
  - `input/` — button states and key / mouse bindings.
  - `physics/` — the capped queue of props spawned at runtime.
  - `cli.rs`, `paths.rs` — the `--scene` option and the path queries it uses.
  - `laws.rs` — properties across calls (cycles, round trips, invariants),
    each a proof function.
- `tests/` — tests of the library on concrete values.
- `app/` — the executable around the library: command line, settings and
  scene files, sound synthesis, and the world set-up that works with floating
  point or outside runtime types.
