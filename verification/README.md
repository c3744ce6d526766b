# stone_maze

The game logic of a small first-person shooter set in a walled maze, written
in Verus with its contracts proved.

- `src/` is the verified library:
  - `grid` — the tile map, the maze layout, wall lookups and the
    collision / line-of-sight queries over sampled tiles;
  - `walls` — which wall panels the map calls for, in building order, and
    where each panel stands;
  - `game` — round and level bookkeeping, spawn points, on-screen texts;
  - `combat` — per-frame decisions for bullets and enemies;
  - `controls` — movement keys and the mouse cursor;
  - `minimap` — which marker follows which body;
  - `texture` — the grey stone texture as an `image` buffer;
  - `text` — decimal numerals.
- `app/` is the Bevy program around it: rendering, input, timing, and the
  floating-point geometry (positions, sampling, noise).
- `tests/` runs the library on concrete values.
