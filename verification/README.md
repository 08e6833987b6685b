# bevy_ecs_tilemap

Tile-map geometry for bevy, verified with Verus.

`src/` is the verified library:

- `tiles`, `map`: tile positions, map sizes and types, and `TileStorage`, the row-major
  table from positions to tile entities.
- `helpers::neighbors`, `neighbors`: neighbors of a tile on square, isometric and hexagonal
  maps, and in the unbounded grid of all `u32` positions.
- `helpers::square_grid`, `helpers::iso_grid`, `helpers::hex_grid`: the square, diamond,
  staggered, axial, cube and offset coordinate systems, their arithmetic and conversions,
  direction types and per-direction neighbor tables.
- `helpers::filling`: hexagonal rings, filled hexagons and rectangles of positions.

Each public function states its result in its `ensures`; the properties that relate several
functions (round trips between coordinate systems, symmetry of neighborhoods, what a read of
the storage gives back after a write, the shape of rings and hexagons, hex distance being a
metric) are public proof functions beside them.

`app/` holds what stays outside the verifier: the bevy components and plugin, spawning tiles
through `Commands`, and world-space geometry, which computes in floating point.
