use pixel_diff::compare::compare;
use pixel_diff::grid::PixelGrid;
use pixel_diff::pixel::RgbaPixel;
use pixel_diff::raster::Raster;

fn px(r: u8, g: u8, b: u8, a: u8) -> RgbaPixel {
    RgbaPixel { r, g, b, a }
}

#[test]
fn raster_needs_four_samples_per_pixel() {
    assert!(Raster::from_raw(2, 1, vec![0; 8]).is_some());
    assert!(Raster::from_raw(2, 1, vec![0; 7]).is_none());
    assert!(Raster::from_raw(2, 1, vec![0; 9]).is_some());
    assert!(Raster::from_raw(0, 0, Vec::new()).is_some());
    assert!(Raster::from_raw(u32::MAX, u32::MAX, vec![0; 16]).is_none());
}

#[test]
fn raster_reports_its_dimensions() {
    let raster = Raster::from_raw(3, 2, vec![0; 24]).unwrap();
    assert_eq!(raster.dimensions(), (3, 2));
}

#[test]
fn raster_reads_into_a_grid_in_row_major_order() {
    let samples: Vec<u8> = (0..24).collect();
    let grid = Raster::from_raw(3, 2, samples).unwrap().to_grid();
    assert_eq!(grid.dimensions(), (3, 2));
    assert_eq!(grid.len(), 6);
    assert_eq!(grid.get(0, 0), Some(px(0, 1, 2, 3)));
    assert_eq!(grid.get(1, 0), Some(px(4, 5, 6, 7)));
    assert_eq!(grid.get(2, 0), Some(px(8, 9, 10, 11)));
    assert_eq!(grid.get(0, 1), Some(px(12, 13, 14, 15)));
    assert_eq!(grid.get(2, 1), Some(px(20, 21, 22, 23)));
}

#[test]
fn raster_with_spare_samples_reads_only_its_pixels() {
    let samples: Vec<u8> = (0..11).collect();
    let grid = Raster::from_raw(1, 2, samples).unwrap().to_grid();
    assert_eq!(grid.pixels(), &vec![px(0, 1, 2, 3), px(4, 5, 6, 7)]);
}

#[test]
fn grid_writes_into_a_raster_with_the_same_pixels() {
    let pixels = vec![px(1, 2, 3, 4), px(5, 6, 7, 8), px(9, 10, 11, 12), px(13, 14, 15, 16)];
    let grid = PixelGrid::from_pixels(2, 2, pixels).unwrap();
    let raster = Raster::from_grid(&grid).unwrap();
    assert_eq!(raster.dimensions(), (2, 2));
    assert_eq!(raster.to_grid(), grid);
    assert_eq!(raster.into_raw(), (1..=16).collect::<Vec<u8>>());
}

#[test]
fn tall_grid_keeps_its_shape_as_a_raster() {
    let pixels = vec![px(1, 0, 0, 255), px(2, 0, 0, 255), px(3, 0, 0, 255)];
    let grid = PixelGrid::from_pixels(1, 3, pixels).unwrap();
    let raster = Raster::from_grid(&grid).unwrap();
    assert_eq!(raster.dimensions(), (1, 3));
    assert_eq!(raster.into_raw(), vec![1, 0, 0, 255, 2, 0, 0, 255, 3, 0, 0, 255]);
}

#[test]
fn empty_grid_gives_an_empty_raster() {
    let grid = PixelGrid::from_pixels(0, 5, Vec::new()).unwrap();
    let raster = Raster::from_grid(&grid).unwrap();
    assert_eq!(raster.dimensions(), (0, 5));
    assert_eq!(raster.into_raw(), Vec::<u8>::new());
}

#[test]
fn rasters_compare_through_grids() {
    let first = Raster::from_raw(2, 1, vec![10, 10, 10, 255, 200, 10, 10, 255]).unwrap();
    let second = Raster::from_raw(2, 1, vec![10, 10, 10, 255, 10, 10, 10, 255]).unwrap();
    let result = compare(&first.to_grid(), &second.to_grid(), 0).unwrap();
    assert_eq!(result.matching, 1);
    assert_eq!(result.total, 2);
    let shown = Raster::from_grid(&result.difference).unwrap();
    assert_eq!(shown.dimensions(), (2, 1));
    assert_eq!(shown.into_raw(), vec![0, 0, 0, 255, 190, 0, 0, 255]);
}

#[test]
fn raster_samples_build_an_image_buffer() {
    let grid = PixelGrid::from_pixels(1, 2, vec![px(1, 2, 3, 4), px(5, 6, 7, 8)]).unwrap();
    let raster = Raster::from_grid(&grid).unwrap();
    let buffer = image::RgbaImage::from_raw(1, 2, raster.into_raw()).unwrap();
    assert_eq!(buffer.get_pixel(0, 0).0, [1, 2, 3, 4]);
    assert_eq!(buffer.get_pixel(0, 1).0, [5, 6, 7, 8]);
}

#[test]
fn wide_raster_without_rows_needs_a_countable_row() {
    let width: u32 = 1 << 30;
    let row_fits = (width as usize).checked_mul(4).is_some();
    let raster = Raster::from_raw(width, 0, Vec::new());
    assert_eq!(raster.is_some(), row_fits);
    if let Some(raster) = raster {
        assert_eq!(raster.dimensions(), (width, 0));
        assert_eq!(raster.to_grid().len(), 0);
    }
}

#[test]
fn wide_grid_without_rows_writes_into_a_raster_when_a_row_is_countable() {
    let width: u32 = 1 << 30;
    let row_fits = (width as usize).checked_mul(4).is_some();
    let grid = PixelGrid::from_pixels(width, 0, Vec::new()).unwrap();
    let raster = Raster::from_grid(&grid);
    assert_eq!(raster.is_some(), row_fits);
    if let Some(raster) = raster {
        assert_eq!(raster.dimensions(), (width, 0));
        assert_eq!(raster.into_raw(), Vec::<u8>::new());
    }
}

#[test]
fn widest_raster_without_rows_follows_the_row_count() {
    let row_fits = (u32::MAX as usize).checked_mul(4).is_some();
    assert_eq!(Raster::from_raw(u32::MAX, 0, Vec::new()).is_some(), row_fits);
    assert!(Raster::from_raw(0, u32::MAX, Vec::new()).is_some());
}
