use sentinel2_indices::align::{calculate_index, gather, source_coord};
use sentinel2_indices::indices::{evi, ndvi};
use sentinel2_indices::raster::Raster;
use sentinel2_indices::registry::{Index, IndexError};

fn ramp(width: u32, height: u32, step: u32, start: u32) -> Raster {
    let samples = (0..width * height).map(|i| ((start + i * step) % 256) as u8).collect();
    Raster::new(width, height, samples).unwrap()
}

#[test]
fn source_coordinate_rounds_down() {
    assert_eq!(source_coord(0, 4, 8), 0);
    assert_eq!(source_coord(3, 4, 8), 6);
    assert_eq!(source_coord(1, 3, 2), 0);
    assert_eq!(source_coord(2, 3, 2), 1);
    assert_eq!(source_coord(2, 3, 10), 6);
    assert_eq!(source_coord(6, 7, 3), 2);
    assert_eq!(source_coord(4, 5, 1), 0);
    assert_eq!(source_coord(9, 10, 10980), 9882);
}

#[test]
fn source_coordinate_stays_inside_at_the_largest_sizes() {
    let max = u32::MAX;
    assert_eq!(source_coord(max - 1, max, max), max - 1);
    assert_eq!(source_coord(max - 1, max, 1), 0);
    assert_eq!(source_coord(0, 1, max), 0);
    for size_in in [1u32, 2, 3, 7, 10, 1000] {
        for size_out in [1u32, 2, 3, 7, 10, 1000] {
            for pos in 0..size_out {
                assert!(source_coord(pos, size_out, size_in) < size_in);
            }
        }
    }
}

#[test]
fn same_size_takes_the_same_pixel() {
    for size in [1u32, 2, 3, 5, 49, 1000, 1999] {
        for x in 0..size {
            assert_eq!(source_coord(x, size, size), x);
        }
    }
    let a = ramp(5, 3, 1, 0);
    let b = ramp(5, 3, 7, 100);
    let rasters = vec![a.clone(), b.clone()];
    for y in 0..3 {
        for x in 0..5 {
            assert_eq!(gather(&rasters, x, y, 5, 3), vec![a.get(x, y), b.get(x, y)]);
        }
    }
}

#[test]
fn half_size_takes_every_second_pixel() {
    for size in [1u32, 2, 3, 5, 49, 1000] {
        for x in 0..size {
            assert_eq!(source_coord(x, size, 2 * size), 2 * x);
        }
    }
    let a = ramp(6, 4, 1, 0);
    let rasters = vec![a.clone()];
    for y in 0..2 {
        for x in 0..3 {
            assert_eq!(gather(&rasters, x, y, 3, 2), vec![a.get(2 * x, 2 * y)]);
        }
    }
    assert_eq!(gather(&rasters, 2, 1, 3, 2), vec![16]);
}

#[test]
fn double_size_repeats_each_pixel() {
    let a = Raster::new(2, 2, vec![1, 2, 3, 4]).unwrap();
    let rasters = vec![a];
    let mut seen: Vec<u8> = Vec::new();
    for y in 0..4 {
        for x in 0..4 {
            seen.push(gather(&rasters, x, y, 4, 4)[0]);
        }
    }
    assert_eq!(seen, vec![1, 1, 2, 2, 1, 1, 2, 2, 3, 3, 4, 4, 3, 3, 4, 4]);
}

#[test]
fn each_band_is_scaled_by_its_own_size() {
    let fine = ramp(4, 4, 1, 0);
    let coarse = Raster::new(2, 2, vec![100, 101, 102, 103]).unwrap();
    let wide = Raster::new(4, 1, vec![200, 201, 202, 203]).unwrap();
    let rasters = vec![fine, coarse, wide];
    assert_eq!(gather(&rasters, 0, 0, 2, 2), vec![0, 100, 200]);
    assert_eq!(gather(&rasters, 1, 0, 2, 2), vec![2, 101, 202]);
    assert_eq!(gather(&rasters, 0, 1, 2, 2), vec![8, 102, 200]);
    assert_eq!(gather(&rasters, 1, 1, 2, 2), vec![10, 103, 202]);
}

#[test]
fn ndvi_of_two_by_two_rasters() {
    let b04 = Raster::new(2, 2, vec![10, 20, 30, 40]).unwrap();
    let b08 = Raster::new(2, 2, vec![50, 60, 70, 80]).unwrap();
    let out = calculate_index(Index::Ndvi, &vec![b04, b08], 2, 2).unwrap();
    assert_eq!(out.width(), 2);
    assert_eq!(out.height(), 2);
    assert_eq!(out.samples(), &vec![170, 127, 102, 85]);
}

#[test]
fn index_raster_holds_the_index_of_each_sample_vector() {
    let b02 = ramp(8, 8, 3, 5);
    let b04 = ramp(4, 4, 11, 40);
    let b08 = ramp(2, 2, 50, 90);
    let rasters = vec![b02, b04, b08];
    let out = calculate_index(Index::Evi, &rasters, 5, 3).unwrap();
    assert_eq!((out.width(), out.height()), (5, 3));
    assert_eq!(out.samples().len(), 15);
    for y in 0..3 {
        for x in 0..5 {
            assert_eq!(out.get(x, y), evi(gather(&rasters, x, y, 5, 3)));
        }
    }
}

#[test]
fn output_may_be_wider_than_high() {
    let b04 = Raster::new(3, 1, vec![10, 20, 30]).unwrap();
    let b08 = Raster::new(3, 1, vec![50, 60, 70]).unwrap();
    let out = calculate_index(Index::Ndvi, &vec![b04, b08], 3, 2).unwrap();
    assert_eq!(out.samples(), &vec![170, 127, 102, 170, 127, 102]);
}

#[test]
fn missing_band_is_refused() {
    let b04 = Raster::new(2, 2, vec![10, 20, 30, 40]).unwrap();
    let one = vec![b04.clone()];
    assert_eq!(calculate_index(Index::Ndvi, &one, 2, 2).err(), Some(IndexError::MissingBand));
    assert_eq!(calculate_index(Index::Ndvi, &vec![], 2, 2).err(), Some(IndexError::MissingBand));
    let two = vec![b04.clone(), b04.clone()];
    assert_eq!(calculate_index(Index::Evi, &two, 2, 2).err(), Some(IndexError::MissingBand));
    assert_eq!(calculate_index(Index::Bri, &two, 2, 2).err(), Some(IndexError::MissingBand));
    // A missing band is told before an empty output.
    assert_eq!(calculate_index(Index::Ndvi, &one, 0, 2).err(), Some(IndexError::MissingBand));
}

#[test]
fn empty_output_is_refused() {
    let b04 = Raster::new(2, 2, vec![10, 20, 30, 40]).unwrap();
    let b08 = Raster::new(2, 2, vec![50, 60, 70, 80]).unwrap();
    let rasters = vec![b04, b08];
    for (width, height) in [(0, 2), (2, 0), (0, 0)] {
        let made = calculate_index(Index::Ndvi, &rasters, width, height);
        assert_eq!(made.err(), Some(IndexError::DimensionMismatch));
    }
}

#[test]
fn rasters_beyond_the_bands_are_not_read() {
    let b04 = Raster::new(1, 1, vec![10]).unwrap();
    let b08 = Raster::new(1, 1, vec![50]).unwrap();
    let more = Raster::new(1, 1, vec![99]).unwrap();
    let out = calculate_index(Index::Ndvi, &vec![b04, b08, more], 1, 1).unwrap();
    assert_eq!(out.samples(), &vec![ndvi(vec![10, 50])]);
    assert_eq!(out.samples(), &vec![170]);
}
