use eccodes::strings::{string_from_c_buffer, string_from_utf8};
use eccodes::CodesError;

#[test]
fn terminated_string() {
    assert_eq!(string_from_c_buffer(b"msl\0".to_vec(), 4).unwrap(), "msl");
}

#[test]
fn string_without_terminator() {
    assert_eq!(string_from_c_buffer(b"msl".to_vec(), 3).unwrap(), "msl");
}

#[test]
fn buffer_cut_to_reported_length() {
    assert_eq!(string_from_c_buffer(b"surface\0\0\0".to_vec(), 8).unwrap(), "surface");
    assert_eq!(string_from_c_buffer(b"sfc\0".to_vec(), 10).unwrap(), "sfc");
    assert_eq!(string_from_c_buffer(b"abc".to_vec(), 0).unwrap(), "");
}

#[test]
fn inner_nul_is_an_error() {
    match string_from_c_buffer(b"a\0b\0".to_vec(), 4) {
        Err(CodesError::NulChar(_)) => (),
        other => panic!("unexpected result: {other:?}"),
    }
}

#[test]
fn invalid_utf8_is_an_error() {
    match string_from_c_buffer(vec![0xff, 0xfe, 0], 3) {
        Err(CodesError::CstrUTF8(_)) => (),
        other => panic!("unexpected result: {other:?}"),
    }
    match string_from_utf8(&[0xc3]) {
        Err(CodesError::CstrUTF8(_)) => (),
        other => panic!("unexpected result: {other:?}"),
    }
}

#[test]
fn utf8_names() {
    assert_eq!(string_from_utf8("shortName".as_bytes()).unwrap(), "shortName");
    assert_eq!(string_from_utf8("°C".as_bytes()).unwrap(), "°C");
}
