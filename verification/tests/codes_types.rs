use eccodes::codes_types::{combine_flags, native_type_from_code};
use eccodes::{CodesError, KeysIteratorFlags, NativeKeyType, ProductKind};

#[test]
fn native_type_codes() {
    let all = [
        NativeKeyType::Undefined,
        NativeKeyType::Long,
        NativeKeyType::Double,
        NativeKeyType::Str,
        NativeKeyType::Bytes,
        NativeKeyType::Section,
        NativeKeyType::Label,
        NativeKeyType::Missing,
    ];
    for (code, t) in all.iter().enumerate() {
        assert_eq!(t.code(), code as i32);
        assert_eq!(NativeKeyType::from_code(code as i32), Some(*t));
    }
    assert_eq!(NativeKeyType::from_code(8), None);
    assert_eq!(NativeKeyType::from_code(-1), None);
}

#[test]
fn unrecognized_native_type() {
    assert_eq!(native_type_from_code(3).unwrap(), NativeKeyType::Str);
    match native_type_from_code(42) {
        Err(CodesError::UnrecognizedKeyTypeCode(42)) => (),
        other => panic!("unexpected result: {other:?}"),
    }
}

#[test]
fn product_kind_code() {
    assert_eq!(ProductKind::GRIB.code(), 1);
}

#[test]
fn flag_values() {
    assert_eq!(KeysIteratorFlags::AllKeys.value(), 0);
    assert_eq!(KeysIteratorFlags::SkipReadOnly.value(), 1);
    assert_eq!(KeysIteratorFlags::SkipOptional.value(), 2);
    assert_eq!(KeysIteratorFlags::SkipEditionSpecific.value(), 4);
    assert_eq!(KeysIteratorFlags::SkipCoded.value(), 8);
    assert_eq!(KeysIteratorFlags::SkipComputed.value(), 16);
    assert_eq!(KeysIteratorFlags::SkipDuplicates.value(), 32);
    assert_eq!(KeysIteratorFlags::SkipFunction.value(), 64);
    assert_eq!(KeysIteratorFlags::DumpOnly.value(), 128);
}

#[test]
fn combined_flags() {
    assert_eq!(combine_flags(&[]), 0);
    let flags = [
        KeysIteratorFlags::AllKeys,
        KeysIteratorFlags::SkipOptional,
        KeysIteratorFlags::SkipReadOnly,
        KeysIteratorFlags::SkipDuplicates,
    ];
    assert_eq!(combine_flags(&flags), 35);
    assert_eq!(
        combine_flags(&[KeysIteratorFlags::DumpOnly, KeysIteratorFlags::SkipFunction]),
        192
    );
}

#[test]
fn flags_are_ordered_by_value() {
    assert!(KeysIteratorFlags::AllKeys < KeysIteratorFlags::SkipReadOnly);
    assert!(KeysIteratorFlags::SkipFunction < KeysIteratorFlags::DumpOnly);
    assert!(KeysIteratorFlags::SkipCoded < KeysIteratorFlags::SkipComputed);
}
