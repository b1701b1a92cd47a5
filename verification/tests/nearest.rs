use eccodes::nearest::{gather_gridpoints, nearest_search_flags};
use eccodes::NearestGridpoint;

#[test]
fn search_flags_are_same_grid_and_same_data() {
    assert_eq!(nearest_search_flags(), 3);
}

#[test]
fn gridpoints_take_matching_elements() {
    let lats = [64.0, 64.0, 63.75, 63.75];
    let lons = [-22.0, -21.75, -22.0, -21.75];
    let values = [100557.0, 100560.5, 100552.0, 100551.0];
    let distances = [15.2, 10.1, 20.0, 16.3];
    let indexes = [551, 552, 600, 601];
    let points = gather_gridpoints(&lats, &lons, &values, &distances, &indexes);
    assert_eq!(points.len(), 4);
    assert_eq!(
        points[1],
        NearestGridpoint { index: 552, lat: 64.0, lon: -21.75, distance: 10.1, value: 100560.5 }
    );
    for k in 0..4 {
        assert_eq!(points[k].index, indexes[k]);
        assert_eq!(points[k].lat, lats[k]);
        assert_eq!(points[k].lon, lons[k]);
        assert_eq!(points[k].value, values[k]);
        assert_eq!(points[k].distance, distances[k]);
    }
}
