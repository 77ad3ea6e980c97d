# voxelnaut

The core of VoxelNaut, a voxel sandbox game, written in Verus: every
function in `src/` carries a contract that Verus proves.

## Layout

- `src/` — the verified library.
  - Grid and world: `math` (block and chunk positions, directions),
    `world_types` (biomes, seeds, dimensions), `chunk` (chunk storage),
    `chunk_file` (the `VNC1` chunk file format), `fluid` (water and lava
    ticks), `worldgen`, `persistence`.
  - Gameplay: `item`, `inventory`, `crafting`, `dimensional` (portals and the
    Dimensional Rift Engine), `pathfinding` (A*), `physics`, `ai`.
  - Network: `protocol`, `stun` (binding requests and responses), `chat`,
    `p2p` (session codes), `sync`, `anti_cheat`.
  - Front end: `menu` (the game-state machine), `ui`, `audio` (music
    database), `render`, `config`, `logging`, `events`, `block`, `entity`.
- `tests/` — tests of the library on concrete values.
- `app/` — the launcher: file and network I/O, settings in TOML, the
  floating-point parts of the game (geometry, item, block, mob and sound
  tables, climate), and the game loop.

## Properties proved

Among others: adding, removing, swapping and moving items conserve every
item's total; crafting takes nothing but ingredients, nothing at all when an
ingredient is missing, and exactly the recipe's counts when the inventory
holds enough for all of them together; a path found by the pathfinder is a
walk of adjacent walkable blocks; a chunk read after a write gives the
written block; a chunk file read back gives the chunk that was written; the
chat log never outgrows its limit; session codes read `XXXX-XXXX-XXXX`;
pausing is only possible while playing and resuming returns to play; each
trip between dimensions is recorded and the history ends where the traveller
is.
