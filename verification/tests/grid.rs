use eccodes::grid::{
    check_values_length, grid_dimension, grid_values_layout, lons_lats_values_layout,
    points_are_consecutive,
};
use eccodes::{CodesError, MessageNdarrayError};

#[test]
fn dimensions() {
    assert_eq!(grid_dimension(0).unwrap(), 0);
    assert_eq!(grid_dimension(49).unwrap(), 49);
    match grid_dimension(-1) {
        Err(CodesError::NdarrayConvert(MessageNdarrayError::IntCasting(_))) => (),
        other => panic!("unexpected result: {other:?}"),
    }
}

#[test]
fn values_length() {
    assert!(check_values_length(12, 4, 3, 1).is_ok());
    assert!(check_values_length(36, 4, 3, 3).is_ok());
    match check_values_length(11, 4, 3, 1) {
        Err(CodesError::NdarrayConvert(MessageNdarrayError::UnexpectedValuesLength(11, 12))) => (),
        other => panic!("unexpected result: {other:?}"),
    }
    match check_values_length(12, 4, 3, 3) {
        Err(CodesError::NdarrayConvert(MessageNdarrayError::UnexpectedValuesLength(12, 36))) => (),
        other => panic!("unexpected result: {other:?}"),
    }
}

#[test]
fn scanning_flag() {
    assert!(!points_are_consecutive(0).unwrap());
    assert!(points_are_consecutive(1).unwrap());
    match points_are_consecutive(2) {
        Err(CodesError::NdarrayConvert(MessageNdarrayError::UnexpectedKeyValue(key))) => {
            assert_eq!(key, "jPointsAreConsecutive")
        }
        other => panic!("unexpected result: {other:?}"),
    }
}

#[test]
fn row_major_values_stay_in_place() {
    let vals: Vec<u32> = (0..12).collect();
    assert_eq!(grid_values_layout(&vals, 4, 3, false), vals);
}

#[test]
fn column_major_values_are_transposed() {
    // ni = 3 columns, nj = 2 rows, stored column after column
    let vals = vec![10, 20, 11, 21, 12, 22];
    assert_eq!(grid_values_layout(&vals, 3, 2, true), vec![10, 11, 12, 20, 21, 22]);
}

#[test]
fn empty_grid() {
    let vals: Vec<i64> = Vec::new();
    assert!(grid_values_layout(&vals, 0, 5, true).is_empty());
}

#[test]
fn lat_lon_values_are_split() {
    // two columns, one row: (lat, lon, value) for each point
    let triples = vec![64.0, -22.0, 1.5, 64.0, -21.0, 2.5];
    let out = lons_lats_values_layout(&triples, 2, 1, false);
    assert_eq!(out.latitudes, vec![64.0, 64.0]);
    assert_eq!(out.longitudes, vec![-22.0, -21.0]);
    assert_eq!(out.values, vec![1.5, 2.5]);
}

#[test]
fn lat_lon_values_column_major() {
    // ni = 2, nj = 2 stored column after column: points (0,0), (0,1), (1,0), (1,1)
    let triples = vec![1, 100, 7, 2, 100, 8, 1, 101, 9, 2, 101, 10];
    let out = lons_lats_values_layout(&triples, 2, 2, true);
    assert_eq!(out.latitudes, vec![1, 1, 2, 2]);
    assert_eq!(out.longitudes, vec![100, 101, 100, 101]);
    assert_eq!(out.values, vec![7, 9, 8, 10]);
}

#[test]
fn values_length_when_product_overflows() {
    match check_values_length(5, usize::MAX, 2, 1) {
        Err(CodesError::NdarrayConvert(MessageNdarrayError::UnexpectedValuesLength(5, e))) => {
            assert_eq!(e, usize::MAX)
        }
        other => panic!("unexpected result: {other:?}"),
    }
    match check_values_length(usize::MAX, usize::MAX, 3, 3) {
        Err(CodesError::NdarrayConvert(MessageNdarrayError::UnexpectedValuesLength(a, e))) => {
            assert_eq!((a, e), (usize::MAX, usize::MAX))
        }
        other => panic!("unexpected result: {other:?}"),
    }
}

#[test]
fn values_length_with_a_zero_factor() {
    assert!(check_values_length(0, usize::MAX, usize::MAX, 0).is_ok());
    assert!(check_values_length(0, 0, usize::MAX, 3).is_ok());
    match check_values_length(1, usize::MAX, 0, 1) {
        Err(CodesError::NdarrayConvert(MessageNdarrayError::UnexpectedValuesLength(1, 0))) => (),
        other => panic!("unexpected result: {other:?}"),
    }
}

#[test]
fn lat_lon_values_agree_with_values() {
    // ni = 3, nj = 2, both keys in column-after-column order
    let vals = vec![5, 6, 7, 8, 9, 10];
    let mut triples = Vec::new();
    for (k, v) in vals.iter().enumerate() {
        triples.extend_from_slice(&[100 + k as i32, 200 + k as i32, *v]);
    }
    for j_consecutive in [false, true] {
        let grid = grid_values_layout(&vals, 3, 2, j_consecutive);
        let split = lons_lats_values_layout(&triples, 3, 2, j_consecutive);
        assert_eq!(split.values, grid);
    }
}
