use vstd::prelude::*;

pub mod grid_dimension;
pub mod raster;
pub mod spatio_temporal_bounds;

pub use raster::Raster;

verus! {

/// Index type for one axis of a grid.
pub type Ix = usize;

/// Natural index of a one-dimensional grid.
pub type Ix1 = Ix;

/// Natural index of a two-dimensional grid: (row, column).
pub type Ix2 = (Ix, Ix);

/// Natural index of a three-dimensional grid, outer axis first.
pub type Ix3 = (Ix, Ix, Ix);

} // verus!
