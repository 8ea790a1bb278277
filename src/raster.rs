use vstd::prelude::*;

pub use crate::grid_dimension::{Dim, GridDimension, GridIndex};
pub use crate::spatio_temporal_bounds::{TemporalBounded, TimeInterval};
use crate::grid_dimension::{linear_offset, strides_fit};

verus! {

/// Read access to the parts of a gridded raster.
pub trait Raster<D: GridDimension, T: Copy, C, G>: TemporalBounded {
    fn dimension(&self) -> &D;

    fn no_data_value(&self) -> Option<T>;

    fn data_container(&self) -> &C;

    fn geo_transform(&self) -> &G;
}

/// A raster: grid shape `D`, cell values of type `T` held in container `C`, an
/// optional no-data sentinel, a geo-transform of type `G` and a time interval.
/// All parts are fixed at construction.
#[derive(Clone, Default, Debug)]
pub struct BaseRaster<D, T, C, G> {
    grid_dimension: D,
    data_container: C,
    no_data_value: Option<T>,
    geo_transform: G,
    temporal_bounds: TimeInterval,
}

impl<D, T, C, G> BaseRaster<D, T, C, G> {
    pub closed spec fn spec_dimension(&self) -> D {
        self.grid_dimension
    }

    pub closed spec fn spec_data_container(&self) -> C {
        self.data_container
    }

    pub closed spec fn spec_no_data_value(&self) -> Option<T> {
        self.no_data_value
    }

    pub closed spec fn spec_geo_transform(&self) -> G {
        self.geo_transform
    }

    pub closed spec fn spec_temporal_bounds(&self) -> TimeInterval {
        self.temporal_bounds
    }

    pub fn new(
        grid_dimension: D,
        data_container: C,
        no_data_value: Option<T>,
        temporal_bounds: TimeInterval,
        geo_transform: G,
    ) -> (r: Self)
        ensures
            r.spec_dimension() == grid_dimension,
            r.spec_data_container() == data_container,
            r.spec_no_data_value() == no_data_value,
            r.spec_temporal_bounds() == temporal_bounds,
            r.spec_geo_transform() == geo_transform,
    {
        Self { grid_dimension, data_container, no_data_value, temporal_bounds, geo_transform }
    }
}

impl<D, T, C, G> TemporalBounded for BaseRaster<D, T, C, G> {
    fn temporal_bounds(&self) -> (r: TimeInterval)
        ensures
            r == self.spec_temporal_bounds(),
    {
        self.temporal_bounds
    }
}

impl<D: GridDimension, T: Copy, C, G> Raster<D, T, C, G> for BaseRaster<D, T, C, G> {
    fn dimension(&self) -> (r: &D)
        ensures
            *r == self.spec_dimension(),
    {
        &self.grid_dimension
    }

    fn no_data_value(&self) -> (r: Option<T>)
        ensures
            r == self.spec_no_data_value(),
    {
        self.no_data_value
    }

    fn data_container(&self) -> (r: &C)
        ensures
            *r == self.spec_data_container(),
    {
        &self.data_container
    }

    fn geo_transform(&self) -> (r: &G)
        ensures
            *r == self.spec_geo_transform(),
    {
        &self.geo_transform
    }
}

/// Cell lookup by a grid index of type `I`.
pub trait GridPixelAccess<T, I> {
    /// The index can be linearized and lands inside the stored data.
    spec fn pixel_in_storage(&self, grid_index: &I) -> bool;

    /// The value stored at the index's linear offset.
    spec fn pixel_at(&self, grid_index: &I) -> T;

    /// The index is linearized row-major without checking it against the
    /// extents; the offset it yields must lie inside the stored data.
    fn pixel_value_grid(&self, grid_index: &I) -> (r: T)
        requires
            self.pixel_in_storage(grid_index),
        ensures
            r == self.pixel_at(grid_index),
    ;
}

impl<D: GridDimension, T: Copy, G, I: GridIndex<D>> GridPixelAccess<T, I> for BaseRaster<
    D,
    T,
    Vec<T>,
    G,
> {
    open spec fn pixel_in_storage(&self, grid_index: &I) -> bool {
        let e = self.spec_dimension().axes();
        &&& strides_fit(e)
        &&& linear_offset(grid_index.index_axes(), e) < self.spec_data_container().len()
    }

    open spec fn pixel_at(&self, grid_index: &I) -> T {
        self.spec_data_container()@[linear_offset(
            grid_index.index_axes(),
            self.spec_dimension().axes(),
        )]
    }

    fn pixel_value_grid(&self, grid_index: &I) -> (r: T) {
        let index = grid_index.lin_space_index_unchecked(&self.grid_dimension);
        self.data_container[index]
    }
}

/// A two-dimensional raster stored in a `Vec`.
pub type SimpleRaster2d<T, G> = BaseRaster<Dim<[usize; 2]>, T, Vec<T>, G>;

/// A three-dimensional raster stored in a `Vec`.
pub type SimpleRaster3d<T, G> = BaseRaster<Dim<[usize; 3]>, T, Vec<T>, G>;

} // verus!
