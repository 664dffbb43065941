# ants_layer

A small ant-colony game: a voxel world made of chunks, colonies of ants that
hatch, walk and fall through it, and a tile map on which units of three races
dig, haul and build, with caves shaped by cellular automata.

- `src/` is the game's logic, written in Verus. Every function there carries a
  contract that Verus proves: chunk indexing and storage, the chunk manager,
  gravity and walking of ants, colony ticks, the camera and view arithmetic,
  key and wheel handling, menu buttons, the tile map (digging, building,
  starting zones, cave generation), breadth-first searches for minerals and
  buildings, path finding and the units' decisions. The public `law_*` proof
  functions state properties that span several operations.
- Calls into other crates (random numbers from `rand`, A* search from
  `pathfinding`, terminal colors from `colored`) go through a few small trusted
  functions whose contracts say what those crates do.
- `app/` is the program around the library: the SDL window and event loop,
  drawing, noise-based world generation (floating point), and the on-screen
  interface.
- `tests/` exercises the library on concrete values.
