# Critter Stack — verified game rules

A stacking game: pick a forest critter from the tray, drop it on the
stump, and build the tower as high as it will stand.

- `src/` is the library `critters_core`, verified with Verus: the shape,
  tier and palette tables, the weighted tray draws and the generator that
  feeds them, the game flow (intro, play, game over, tray and hand,
  records, altitude tiers, hints and the game-over card), the settling and
  locking rules of a piece, the keyboard table, the settings file format
  and the sprite edge bleeding.
- `tests/` runs the library on concrete cases.
- `app/` is the simulation around it, in floating point: the Box2D world,
  piece geometry, camera and zoom, wind gusts, pointer input, synthesized
  sound effects and settings storage.
