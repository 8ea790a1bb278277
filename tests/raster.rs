use georaster::grid_dimension::Dim;
use georaster::raster::{BaseRaster, GridPixelAccess, Raster, SimpleRaster2d, SimpleRaster3d};
use georaster::spatio_temporal_bounds::{TemporalBounded, TimeInterval};

#[test]
fn simple_raster_2d() {
    let dim = [4, 5];
    let data = vec![9; 20];
    let geo_transform = [1.0, 1.0, 0.0, 1.0, 0.0, 1.0];
    let temporal_bounds: TimeInterval = TimeInterval::default();
    SimpleRaster2d::new(dim.into(), data, None, temporal_bounds, geo_transform);
}

#[test]
fn simple_raster_2d_at_tuple() {
    let tuple_index = (2, 2);

    let dim = [4, 5];
    let data = vec![9; 20];
    let geo_transform = [1.0, 1.0, 0.0, 1.0, 0.0, 1.0];
    let temporal_bounds: TimeInterval = TimeInterval::default();
    let raster2d = SimpleRaster2d::new(dim.into(), data, None, temporal_bounds, geo_transform);
    let value = raster2d.pixel_value_grid(&tuple_index);
    assert!(value == 9);
}

#[test]
fn simple_raster_2d_at_arr() {
    let dim_index = Dim::from([2, 2]);

    let dim = [4, 5];
    let data = vec![9; 20];
    let geo_transform = [1.0, 1.0, 0.0, 1.0, 0.0, 1.0];
    let temporal_bounds: TimeInterval = TimeInterval::default();
    let raster2d = SimpleRaster2d::new(dim.into(), data, None, temporal_bounds, geo_transform);
    let value = raster2d.pixel_value_grid(&dim_index);
    assert!(value == 9);
}

#[test]
fn pixel_lookup_reads_row_major_offset() {
    let data: Vec<u32> = (0..20).collect();
    let raster2d: SimpleRaster2d<u32, ()> =
        BaseRaster::new(Dim::new([4, 5]), data, Some(99), TimeInterval::default(), ());
    assert_eq!(raster2d.pixel_value_grid(&(0usize, 0usize)), 0);
    assert_eq!(raster2d.pixel_value_grid(&(2usize, 3usize)), 13);
    assert_eq!(raster2d.pixel_value_grid(&Dim::new([3usize, 4usize])), 19);
    assert_eq!(raster2d.no_data_value(), Some(99));
}

#[test]
fn pixel_lookup_in_three_dimensions() {
    let data: Vec<i16> = (0..24).collect();
    let raster3d: SimpleRaster3d<i16, ()> =
        BaseRaster::new(Dim::new([2, 3, 4]), data, None, TimeInterval::default(), ());
    assert_eq!(raster3d.pixel_value_grid(&(1usize, 2usize, 3usize)), 23);
    assert_eq!(raster3d.pixel_value_grid(&(1usize, 0usize, 2usize)), 14);
}

#[test]
fn pixel_lookup_in_one_dimension() {
    let raster1d: BaseRaster<Dim<[usize; 1]>, u8, Vec<u8>, ()> =
        BaseRaster::new(Dim::new([3]), vec![4, 5, 6], None, TimeInterval::default(), ());
    assert_eq!(raster1d.pixel_value_grid(&2usize), 6);
    assert_eq!(raster1d.pixel_value_grid(&Dim::new([1usize])), 5);
}

#[test]
fn raster_accessors_return_construction_values() {
    let interval = TimeInterval { interval_start: 10, interval_end: 20 };
    let geo_transform = [0.5, 2.0, 0.0, 3.0, 0.0, -2.0];
    let raster2d: SimpleRaster2d<i32, [f64; 6]> =
        BaseRaster::new(Dim::new([2, 3]), vec![1, 2, 3, 4, 5, 6], Some(-1), interval, geo_transform);
    assert_eq!(raster2d.temporal_bounds(), interval);
    assert_eq!(raster2d.no_data_value(), Some(-1));
    assert_eq!(raster2d.dimension(), &Dim::new([2, 3]));
    assert_eq!(raster2d.data_container(), &vec![1, 2, 3, 4, 5, 6]);
    assert_eq!(raster2d.geo_transform(), &geo_transform);
}
