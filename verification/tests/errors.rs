use eccodes::errors::error_code_to_result;
use eccodes::{CodesError, CodesInternal};

#[test]
fn success_code_is_ok() {
    assert!(error_code_to_result(0).is_ok());
}

#[test]
fn known_code_becomes_internal_error() {
    match error_code_to_result(-10) {
        Err(CodesError::Internal(e)) => assert_eq!(e, CodesInternal::CodesNotFound),
        other => panic!("unexpected result: {other:?}"),
    }
    match error_code_to_result(-67) {
        Err(CodesError::Internal(e)) => {
            assert_eq!(e, CodesInternal::CodesFunctionalityNotEnabled)
        }
        other => panic!("unexpected result: {other:?}"),
    }
}

#[test]
fn codes_of_internal_errors() {
    assert_eq!(CodesInternal::CodesSuccess.code(), 0);
    assert_eq!(CodesInternal::CodesEndOfFile.code(), -1);
    assert_eq!(CodesInternal::CodesIoProblem.code(), -11);
    assert_eq!(CodesInternal::CodesEndOfIndex.code(), -43);
    assert_eq!(CodesInternal::CodesFunctionalityNotEnabled.code(), -67);
}

#[test]
fn code_round_trip() {
    for code in -67..=0 {
        let e = CodesInternal::from_code(code).expect("known code");
        assert_eq!(e.code(), code);
        assert_eq!(CodesInternal::from_code(e.code()), Some(e));
    }
}

#[test]
fn unknown_codes() {
    assert_eq!(CodesInternal::from_code(1), None);
    assert_eq!(CodesInternal::from_code(-68), None);
    assert_eq!(CodesInternal::from_code(i32::MIN), None);
}

#[test]
fn internal_errors_are_ordered_by_code() {
    assert!(CodesInternal::CodesFunctionalityNotEnabled < CodesInternal::CodesSuccess);
    assert!(CodesInternal::CodesEndOfIndex < CodesInternal::CodesNotFound);
    for code in -67..0 {
        let a = CodesInternal::from_code(code).unwrap();
        let b = CodesInternal::from_code(code + 1).unwrap();
        assert!(a < b);
    }
}
