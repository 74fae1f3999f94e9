use vstd::prelude::*;

verus! {

/// Side length of one simulation cell, in pixels.
pub const CELL_SIZE: u32 = 4;

/// Widest surface the simulation is laid out for, in pixels.
pub const MAX_SCREEN_WIDTH: u32 = 3840;

/// Tallest surface the simulation is laid out for, in pixels.
pub const MAX_SCREEN_HEIGHT: u32 = 2160;

/// Columns of cells on the widest surface.
pub const MAX_COLS: u32 = MAX_SCREEN_WIDTH / CELL_SIZE;

/// Rows of cells on the tallest surface.
pub const MAX_ROWS: u32 = MAX_SCREEN_HEIGHT / CELL_SIZE;

/// Cells on the largest surface.
#[verifier::nonlinear]
pub const MAX_CELLS: u32 = MAX_COLS * MAX_ROWS;

/// Number of tracer particles seeded at start-up.
pub const PARTICLE_COUNT: u32 = 15000;

/// Seed of the xorshift generator that scatters the particles.
pub const PARTICLE_SEED: u32 = 1512;

/// Jacobi sweeps per frame for each of the two projections (fluid and magnetic).
pub const JACOBI_ITERATIONS: u32 = 40;

/// Side of the square workgroup that the grid kernels run in.
pub const GRID_WORKGROUP_SIZE: u32 = 8;

/// Width of the one-dimensional workgroup that the particle kernel runs in.
pub const PARTICLE_WORKGROUP_SIZE: u32 = 64;

} // verus!
