use vstd::prelude::*;

verus! {

/// Number of cells along each side of the square playing field.
pub const BOUNDARY_CELLS: i32 = 17;

/// Half of `BOUNDARY_CELLS`, rounded down. The grid is centered at the
/// origin: a cell is inside when both of its coordinates lie in
/// `-HALF_EXTENT ..= HALF_EXTENT`.
pub const HALF_EXTENT: i32 = 8;

/// Tick interval of the easy preset, in milliseconds.
pub const EASY_MODE_FIXED_TIMESTEP_MS: u64 = 1000;

/// Tick interval of the normal preset, in milliseconds.
pub const NORMAL_MODE_FIXED_TIMESTEP_MS: u64 = 600;

/// Tick interval of the hard preset, in milliseconds.
pub const HARD_MODE_FIXED_TIMESTEP_MS: u64 = 300;

/// How many random cells the food spawner draws before it falls back to
/// scanning the grid for a free cell.
pub const FOOD_SPAWN_ATTEMPTS: u32 = 64;

} // verus!
