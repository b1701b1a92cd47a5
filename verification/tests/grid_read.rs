use eccodes::grid_read::{
    grid_read_start, grid_read_step, GridAnswer, GridArray, GridQuery, GridReadState, GridRows,
    GridStep, ReadGrid,
};
use eccodes::{CodesError, MessageNdarrayError};

/// Runs a read of a grid from `array`, answering each query from the given key values.
fn run(
    array: GridArray,
    ni: Result<i64, CodesError>,
    nj: Result<i64, CodesError>,
    data: Result<Vec<i32>, CodesError>,
    flag: Result<i64, CodesError>,
) -> (Vec<GridQuery>, Result<ReadGrid<i32>, CodesError>) {
    let (mut state, mut query): (GridReadState<i32>, GridQuery) = grid_read_start(array);
    let mut asked = Vec::new();
    let (mut ni, mut nj, mut data, mut flag) = (Some(ni), Some(nj), Some(data), Some(flag));
    loop {
        asked.push(query);
        let answer = match query {
            GridQuery::Ni => GridAnswer::Long(ni.take().expect("Ni asked twice")),
            GridQuery::Nj => GridAnswer::Long(nj.take().expect("Nj asked twice")),
            GridQuery::Array(_) => GridAnswer::Array(data.take().expect("array asked twice")),
            GridQuery::JPointsAreConsecutive => {
                GridAnswer::Long(flag.take().expect("flag asked twice"))
            }
        };
        match grid_read_step(state, answer) {
            GridStep::Continue(s, q) => {
                state = s;
                query = q;
            }
            GridStep::Finish(r) => return (asked, r),
        }
    }
}

#[test]
fn reads_values_in_order() {
    let (asked, r) = run(GridArray::Values, Ok(3), Ok(2), Ok(vec![10, 20, 11, 21, 12, 22]), Ok(1));
    assert_eq!(
        asked,
        vec![
            GridQuery::Ni,
            GridQuery::Nj,
            GridQuery::Array(GridArray::Values),
            GridQuery::JPointsAreConsecutive
        ]
    );
    let g = r.unwrap();
    assert_eq!((g.ni, g.nj), (3, 2));
    match g.rows {
        GridRows::Values(v) => assert_eq!(v, vec![10, 11, 12, 20, 21, 22]),
        GridRows::LonsLatsValues(_) => panic!("values expected"),
    }
}

#[test]
fn reads_lat_lon_values() {
    let triples = vec![64, -22, 1, 64, -21, 2];
    let (asked, r) = run(GridArray::LatLonValues, Ok(2), Ok(1), Ok(triples), Ok(0));
    assert_eq!(asked[2], GridQuery::Array(GridArray::LatLonValues));
    let g = r.unwrap();
    match g.rows {
        GridRows::LonsLatsValues(s) => {
            assert_eq!(s.latitudes, vec![64, 64]);
            assert_eq!(s.longitudes, vec![-22, -21]);
            assert_eq!(s.values, vec![1, 2]);
        }
        GridRows::Values(_) => panic!("split arrays expected"),
    }
}

#[test]
fn negative_dimension_stops_the_read() {
    let (asked, r) = run(GridArray::Values, Ok(3), Ok(-1), Ok(vec![]), Ok(0));
    assert_eq!(asked, vec![GridQuery::Ni, GridQuery::Nj]);
    match r {
        Err(CodesError::NdarrayConvert(MessageNdarrayError::IntCasting(_))) => (),
        other => panic!("unexpected result: {other:?}"),
    }
}

#[test]
fn wrong_length_stops_before_the_flag() {
    let (asked, r) = run(GridArray::LatLonValues, Ok(2), Ok(2), Ok(vec![0; 11]), Ok(5));
    assert_eq!(asked.len(), 3);
    match r {
        Err(CodesError::NdarrayConvert(MessageNdarrayError::UnexpectedValuesLength(11, 12))) => (),
        other => panic!("unexpected result: {other:?}"),
    }
}

#[test]
fn bad_flag_is_reported() {
    let (_, r) = run(GridArray::Values, Ok(1), Ok(1), Ok(vec![7]), Ok(2));
    match r {
        Err(CodesError::NdarrayConvert(MessageNdarrayError::UnexpectedKeyValue(k))) => {
            assert_eq!(k, "jPointsAreConsecutive")
        }
        other => panic!("unexpected result: {other:?}"),
    }
}

#[test]
fn failed_key_read_ends_the_read() {
    let (asked, r) = run(GridArray::Values, Err(CodesError::MissingKey), Ok(1), Ok(vec![]), Ok(0));
    assert_eq!(asked, vec![GridQuery::Ni]);
    assert!(matches!(r, Err(CodesError::MissingKey)));
    let (asked, r) = run(GridArray::Values, Ok(1), Ok(1), Err(CodesError::WrongRequestedKeyType), Ok(0));
    assert_eq!(asked.len(), 3);
    assert!(matches!(r, Err(CodesError::WrongRequestedKeyType)));
}

#[test]
fn answer_of_the_wrong_kind_repeats_the_query() {
    let (state, query): (GridReadState<i32>, GridQuery) = grid_read_start(GridArray::Values);
    match grid_read_step(state, GridAnswer::Array(Ok(vec![1]))) {
        GridStep::Continue(_, q) => assert_eq!(q, query),
        GridStep::Finish(_) => panic!("the read should go on"),
    }
}

#[test]
fn key_names() {
    assert_eq!(GridQuery::Ni.key_name(), "Ni");
    assert_eq!(GridQuery::Nj.key_name(), "Nj");
    assert_eq!(GridQuery::Array(GridArray::Values).key_name(), "values");
    assert_eq!(GridQuery::Array(GridArray::LatLonValues).key_name(), "latLonValues");
    assert_eq!(GridQuery::JPointsAreConsecutive.key_name(), "jPointsAreConsecutive");
    assert_eq!(GridArray::Values.per_point(), 1);
    assert_eq!(GridArray::LatLonValues.per_point(), 3);
}
