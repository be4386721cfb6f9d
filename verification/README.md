# teki

The game logic of Teki, a small vertical shooter, as a verified library.

- `src/` — the library, verified with Verus:
  - `math`: fixed-point constants, `Vec2`, `clamp`, `square`;
  - `consts`, `app_consts`: sizes, speeds and asset names;
  - `appearance_table`: formation slots and the appearance-wave table;
  - `components`: the components of enemies and enemy shots;
  - `system_enemy`: enemy behaviour (trajectory, formation, attack,
    leaving the screen, animation), enemy shots, and the collision and
    appearance decisions;
  - `ecs_app`: the title/game scene machine;
  - `sound`: sound channel bookkeeping.
  Work that the enemy logic relies on but does not compute itself (the
  trajectory program, the formation layout, the fixed-point trigonometry,
  the collision test, the appearance schedule) is handed to it as function
  values; the contracts state the results in terms of what those functions
  return.
- `tests/` — tests of the library.
- `app/` — the SDL program: command line, window, event loop, audio, and
  the ECS systems that run the library's enemy and shot logic.
