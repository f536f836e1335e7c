# m_game

The rules of a small 3D exploration game, verified with Verus. The game itself
(rendering, physics, input, audio) is built on an engine; this crate holds the
decisions the game makes, with contracts that Verus proves.

- `terrain` — the map of levels of detail around the player (square rings),
  the mesh subdivision rule, and the streaming of terrain chunks: a plan for
  each cell of a 9 by 9 window around the player's cell, and the map of chunks
  after the plans are carried out. A proof shows that carrying out a window's
  plans settles it: every cell holds a chunk of exactly the wanted level,
  nothing outside the window changes, and planning again finds nothing to do.
- `asset_loader` — caches of loaded assets keyed by path, which load a path
  once and serve it from the cache afterwards.
- `m_lib::colors` — reading `#rrggbb` / `#rrggbbaa` color codes.
- `player` — animation clip names and the handling of bullet collisions.
- `state`, `camera`, `debug` — pause toggling, window level and button
  toggles, frame-rate sampling and throttling, wireframe toggling, and the
  block of floating test objects.
- `sys_paths` — the asset paths of the game.

`app/` is the game program around the library; `tests/` runs the library on
concrete values.
