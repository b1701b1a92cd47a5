use eccodes::key_read::{
    check_key_size, check_key_type, dynamic_read_start, dynamic_read_step, typed_read_start,
    typed_read_step, DynamicKeyType, DynamicReadState, KeyAnswer, KeyGetter, KeyQuery, KeyRequest,
    ReadStep, TypedReadState,
};
use eccodes::{CodesError, CodesInternal, NativeKeyType};

type Answer = KeyAnswer<DynamicKeyType<f64>>;

fn ask(state: DynamicReadState, answer: Answer) -> ReadStep<DynamicReadState, DynamicKeyType<f64>> {
    dynamic_read_step(state, answer)
}

fn expect_continue(
    step: ReadStep<DynamicReadState, DynamicKeyType<f64>>,
) -> (DynamicReadState, KeyQuery) {
    match step {
        ReadStep::Continue(s, q) => (s, q),
        ReadStep::Finish(r) => panic!("finished early: {r:?}"),
    }
}

#[test]
fn dynamic_read_of_single_long() {
    let (s, q) = dynamic_read_start();
    assert_eq!(q, KeyQuery::NativeType);
    let (s, q) = expect_continue(ask(s, KeyAnswer::NativeType(Ok(NativeKeyType::Long))));
    assert_eq!(q, KeyQuery::Size);
    let (s, q) = expect_continue(ask(s, KeyAnswer::Size(Ok(1))));
    assert_eq!(q, KeyQuery::Value(KeyGetter::Long));
    match ask(s, KeyAnswer::Value(Ok(DynamicKeyType::Int(100557)))) {
        ReadStep::Finish(Ok(DynamicKeyType::Int(100557))) => (),
        _ => panic!("expected the integer value"),
    }
}

#[test]
fn dynamic_read_of_double_array() {
    let (s, _) = dynamic_read_start();
    let (s, _) = expect_continue(ask(s, KeyAnswer::NativeType(Ok(NativeKeyType::Double))));
    let (s, q) = expect_continue(ask(s, KeyAnswer::Size(Ok(2))));
    assert_eq!(q, KeyQuery::Value(KeyGetter::DoubleArray));
    assert_eq!(s, DynamicReadState::AwaitingValue(KeyGetter::DoubleArray));
}

#[test]
fn dynamic_read_of_empty_key() {
    let (s, _) = dynamic_read_start();
    let (s, _) = expect_continue(ask(s, KeyAnswer::NativeType(Ok(NativeKeyType::Long))));
    match ask(s, KeyAnswer::Size(Ok(0))) {
        ReadStep::Finish(Err(CodesError::IncorrectKeySize)) => (),
        _ => panic!("expected IncorrectKeySize"),
    }
}

#[test]
fn dynamic_read_of_missing_and_string_keys() {
    let (s, _) = dynamic_read_start();
    match ask(s, KeyAnswer::NativeType(Ok(NativeKeyType::Missing))) {
        ReadStep::Finish(Err(CodesError::MissingKey)) => (),
        _ => panic!("expected MissingKey"),
    }
    let (_, q) = expect_continue(ask(s, KeyAnswer::NativeType(Ok(NativeKeyType::Label))));
    assert_eq!(q, KeyQuery::Value(KeyGetter::Str));
    let (_, q) = expect_continue(ask(s, KeyAnswer::NativeType(Ok(NativeKeyType::Bytes))));
    assert_eq!(q, KeyQuery::Value(KeyGetter::Bytes));
}

#[test]
fn dynamic_read_falls_back_to_bytes() {
    let s = DynamicReadState::AwaitingValue(KeyGetter::Str);
    let (s, q) = expect_continue(ask(s, KeyAnswer::Value(Err(CodesError::NullPtr))));
    assert_eq!(q, KeyQuery::Value(KeyGetter::Bytes));
    assert_eq!(s, DynamicReadState::AwaitingBytes);
    match ask(s, KeyAnswer::Value(Ok(DynamicKeyType::Bytes(vec![1, 2])))) {
        ReadStep::Finish(Ok(DynamicKeyType::Bytes(b))) => assert_eq!(b, vec![1, 2]),
        _ => panic!("expected the bytes"),
    }
    match ask(s, KeyAnswer::Value(Err(CodesError::Internal(CodesInternal::CodesNotFound)))) {
        ReadStep::Finish(Err(CodesError::Internal(CodesInternal::CodesNotFound))) => (),
        _ => panic!("expected the error of the bytes read"),
    }
}

#[test]
fn dynamic_read_errors_end_the_read() {
    let (s, _) = dynamic_read_start();
    match ask(s, KeyAnswer::NativeType(Err(CodesError::Internal(CodesInternal::CodesNotFound)))) {
        ReadStep::Finish(Err(CodesError::Internal(CodesInternal::CodesNotFound))) => (),
        _ => panic!("expected CodesNotFound"),
    }
}

#[test]
fn dynamic_read_ignores_unrelated_answers() {
    let s = DynamicReadState::AwaitingSize(NativeKeyType::Long);
    let (s2, q) = expect_continue(ask(s, KeyAnswer::NativeType(Ok(NativeKeyType::Str))));
    assert_eq!(s2, s);
    assert_eq!(q, KeyQuery::Size);
    let s = DynamicReadState::AwaitingValue(KeyGetter::Long);
    let (s2, _) = expect_continue(ask(s, KeyAnswer::Value(Ok(DynamicKeyType::Str("x".into())))));
    assert_eq!(s2, s);
}

#[test]
fn type_and_size_checks() {
    assert!(check_key_type(KeyRequest::LongArray, NativeKeyType::Long).is_ok());
    assert!(matches!(
        check_key_type(KeyRequest::Str, NativeKeyType::Long),
        Err(CodesError::WrongRequestedKeyType)
    ));
    assert!(check_key_size(KeyRequest::Long, 1).is_ok());
    assert!(matches!(check_key_size(KeyRequest::Long, 2), Err(CodesError::WrongRequestedKeySize)));
    assert!(matches!(check_key_size(KeyRequest::Double, 0), Err(CodesError::IncorrectKeySize)));
    assert!(check_key_size(KeyRequest::DoubleArray, 2).is_ok());
    assert!(matches!(check_key_size(KeyRequest::Bytes, 0), Err(CodesError::IncorrectKeySize)));
}

#[test]
fn typed_read_of_string() {
    let (s, q) = typed_read_start(KeyRequest::Str);
    assert_eq!(q, KeyQuery::NativeType);
    let step = typed_read_step::<String>(KeyRequest::Str, s, KeyAnswer::NativeType(Ok(NativeKeyType::Str)));
    let s = match step {
        ReadStep::Continue(s, KeyQuery::Size) => s,
        _ => panic!("expected a size query"),
    };
    let step = typed_read_step::<String>(KeyRequest::Str, s, KeyAnswer::Size(Ok(4)));
    let s = match step {
        ReadStep::Continue(s, KeyQuery::Value(KeyGetter::Str)) => s,
        _ => panic!("expected a value query"),
    };
    assert_eq!(s, TypedReadState::AwaitingValue);
    match typed_read_step(KeyRequest::Str, s, KeyAnswer::Value(Ok("msl".to_string()))) {
        ReadStep::Finish(Ok(v)) => assert_eq!(v, "msl"),
        _ => panic!("expected the string"),
    }
}

#[test]
fn typed_read_rejects_wrong_type_and_size() {
    let (s, _) = typed_read_start(KeyRequest::Long);
    match typed_read_step::<i64>(KeyRequest::Long, s, KeyAnswer::NativeType(Ok(NativeKeyType::Double))) {
        ReadStep::Finish(Err(CodesError::WrongRequestedKeyType)) => (),
        _ => panic!("expected WrongRequestedKeyType"),
    }
    match typed_read_step::<i64>(KeyRequest::Long, TypedReadState::AwaitingSize, KeyAnswer::Size(Ok(3))) {
        ReadStep::Finish(Err(CodesError::WrongRequestedKeySize)) => (),
        _ => panic!("expected WrongRequestedKeySize"),
    }
}
