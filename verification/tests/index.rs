use eccodes::index::{index_handle_status, join_keys};
use eccodes::{CodesError, CodesInternal};

#[test]
fn joined_index_keys() {
    assert_eq!(join_keys(&["shortName", "typeOfLevel", "level", "stepType"]), "shortName,typeOfLevel,level,stepType");
    assert_eq!(join_keys(&["level"]), "level");
    assert_eq!(join_keys(&[]), "");
}

#[test]
fn end_of_index_is_not_an_error() {
    assert!(index_handle_status(0).is_ok());
    assert!(index_handle_status(-43).is_ok());
    match index_handle_status(-11) {
        Err(CodesError::Internal(CodesInternal::CodesIoProblem)) => (),
        other => panic!("unexpected result: {other:?}"),
    }
}
