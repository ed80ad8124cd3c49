# ballscape

The rules of Ballscape, a sci-fi breakout game, as a library verified with
Verus, and the SDL2 program that plays it.

- `src/` — the verified library:
  - `entities` — paddle, ball, brick, power-up and hazard kinds; brick health
    (`BrickStatus`) and its crack overlays; the ball's motion trail.
  - `level` — the five campaign stage layouts.
  - `game` — the game session: screens, modes, score, combo, lives, boss
    health, level progression, endless waves and capsule drops.
  - `controls` — the menu/editor state machine, the editor palette and grid.
  - `editor` — which bricks a custom level saves and how they load back.
  - `atlas`, `audio`, `hud` — sprite lookup, synthesizer parameters, HUD
    layout and colours.
- `app/` — the program: SDL2 window, input, rendering, audio callback,
  floating-point physics and JSON files.
- `tests/` — tests of the library.

Positions, velocities, timers and audio samples are floating point and stay
in `app/`; dimensions and factors that the rules fix are given in whole
units (pixels, hundredths, tenths of a second, milliseconds).
