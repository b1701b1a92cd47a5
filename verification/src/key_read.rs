//! Decisions taken while a key is read from a message.
//!
//! Reading a key takes several calls into ecCodes (native type, size, value), and which
//! call comes next depends on the answers to the earlier ones. The functions here take
//! those decisions: from the state of a read and the answer to the last query they give
//! the next query, or the result of the read. The caller performs the queries.

use vstd::prelude::*;

use crate::codes_types::NativeKeyType;
use crate::errors::CodesError;

verus! {

/// Value of a key in the type ecCodes stores it in.
///
/// `F` is the floating-point type of the values.
#[derive(Clone, Debug, PartialEq)]
pub enum DynamicKeyType<F> {
    /// A single floating-point value.
    Float(F),
    /// A single integer value.
    Int(i64),
    /// An array of floating-point values.
    FloatArray(Vec<F>),
    /// An array of integer values.
    IntArray(Vec<i64>),
    /// A string.
    Str(String),
    /// Raw bytes.
    Bytes(Vec<u8>),
}

/// The ecCodes functions that read the value of a key.
#[derive(Copy, Clone, PartialEq, Eq, Structural, Debug)]
pub enum KeyGetter {
    /// `codes_get_long`
    Long,
    /// `codes_get_long_array`
    LongArray,
    /// `codes_get_double`
    Double,
    /// `codes_get_double_array`
    DoubleArray,
    /// `codes_get_string`
    Str,
    /// `codes_get_bytes`
    Bytes,
}

impl KeyGetter {
    /// `v` is of the variant that a value read with this getter is given.
    pub open spec fn produces<F>(self, v: DynamicKeyType<F>) -> bool {
        match self {
            KeyGetter::Long => v is Int,
            KeyGetter::LongArray => v is IntArray,
            KeyGetter::Double => v is Float,
            KeyGetter::DoubleArray => v is FloatArray,
            KeyGetter::Str => v is Str,
            KeyGetter::Bytes => v is Bytes,
        }
    }
}

/// A query that the reader of a key asks the message.
#[derive(Copy, Clone, PartialEq, Eq, Structural, Debug)]
pub enum KeyQuery {
    /// Ask for the native type of the key (`codes_get_native_type`).
    NativeType,
    /// Ask for the number of elements of the key (`codes_get_size`).
    Size,
    /// Read the value of the key with the given getter.
    Value(KeyGetter),
}

/// The answer of the message to a [`KeyQuery`].
pub enum KeyAnswer<V> {
    /// Answer to [`KeyQuery::NativeType`].
    NativeType(Result<NativeKeyType, CodesError>),
    /// Answer to [`KeyQuery::Size`].
    Size(Result<usize, CodesError>),
    /// Answer to [`KeyQuery::Value`].
    Value(Result<V, CodesError>),
}

/// What a reader does after an answer: ask the next query from a new state, or finish.
pub enum ReadStep<S, V> {
    /// Ask `query` and hand the answer to the reader in state `state`.
    Continue(S, KeyQuery),
    /// The read is over with this result.
    Finish(Result<V, CodesError>),
}

/// State of a read of a key in its native type (`read_key_dynamic`).
#[derive(Copy, Clone, PartialEq, Eq, Structural, Debug)]
pub enum DynamicReadState {
    /// The native type of the key has been asked.
    AwaitingNativeType,
    /// The key has the given numeric type and its size has been asked.
    AwaitingSize(NativeKeyType),
    /// The value has been asked with the given getter.
    AwaitingValue(KeyGetter),
    /// Reading the value in its native type failed; the bytes of the key have been asked.
    AwaitingBytes,
}

impl DynamicReadState {
    /// The query whose answer a reader in this state waits for.
    pub open spec fn query(self) -> KeyQuery {
        match self {
            DynamicReadState::AwaitingNativeType => KeyQuery::NativeType,
            DynamicReadState::AwaitingSize(_) => KeyQuery::Size,
            DynamicReadState::AwaitingValue(g) => KeyQuery::Value(g),
            DynamicReadState::AwaitingBytes => KeyQuery::Value(KeyGetter::Bytes),
        }
    }

    /// Upper bound on the number of answers that a reader in this state still needs.
    pub open spec fn rank(self) -> nat {
        match self {
            DynamicReadState::AwaitingNativeType => 4,
            DynamicReadState::AwaitingSize(_) => 3,
            DynamicReadState::AwaitingValue(_) => 2,
            DynamicReadState::AwaitingBytes => 1,
        }
    }

    /// `answer` answers the query of this state, with a value of the variant that was asked.
    pub open spec fn accepts<F>(self, answer: KeyAnswer<DynamicKeyType<F>>) -> bool {
        match self {
            DynamicReadState::AwaitingNativeType => answer is NativeType,
            DynamicReadState::AwaitingSize(_) => answer is Size,
            DynamicReadState::AwaitingValue(g) => match answer {
                KeyAnswer::Value(Ok(v)) => g.produces(v),
                KeyAnswer::Value(Err(_)) => true,
                _ => false,
            },
            DynamicReadState::AwaitingBytes => match answer {
                KeyAnswer::Value(Ok(v)) => v is Bytes,
                KeyAnswer::Value(Err(_)) => true,
                _ => false,
            },
        }
    }
}

/// Getter of a numeric key of native type `t` with `size` elements: a single value for size 1,
/// an array otherwise.
pub open spec fn numeric_getter(t: NativeKeyType, size: usize) -> KeyGetter {
    if t == NativeKeyType::Long {
        if size == 1 {
            KeyGetter::Long
        } else {
            KeyGetter::LongArray
        }
    } else {
        if size == 1 {
            KeyGetter::Double
        } else {
            KeyGetter::DoubleArray
        }
    }
}

/// Starts a read of a key in its native type: the first query is its native type.
pub fn dynamic_read_start() -> (r: (DynamicReadState, KeyQuery))
    ensures
        r.0 == DynamicReadState::AwaitingNativeType,
        r.1 == r.0.query(),
{
    (DynamicReadState::AwaitingNativeType, KeyQuery::NativeType)
}

/// `r` is the decision that [`dynamic_read_step`] takes in `state` on `answer`.
pub open spec fn dynamic_step<F>(state: DynamicReadState, answer: KeyAnswer<DynamicKeyType<F>>, r: ReadStep<DynamicReadState, DynamicKeyType<F>>) -> bool {
    &&& (!state.accepts(answer) ==> r == ReadStep::<DynamicReadState, DynamicKeyType<F>>::Continue(
        state,
        state.query(),
    ))
    &&& (r matches ReadStep::Continue(s, q) ==> q == s.query())
    &&& (r matches ReadStep::Continue(s, _) ==> (state.accepts(answer) ==> s.rank() < state.rank()))
    &&& (state.accepts(answer) ==> match (state, answer) {
        (DynamicReadState::AwaitingNativeType, KeyAnswer::NativeType(Err(e))) => r
            == ReadStep::<DynamicReadState, DynamicKeyType<F>>::Finish(Err(e)),
        (DynamicReadState::AwaitingNativeType, KeyAnswer::NativeType(Ok(t))) => {
            if t == NativeKeyType::Long || t == NativeKeyType::Double {
                r matches ReadStep::Continue(s, _) && s == DynamicReadState::AwaitingSize(t)
            } else if t == NativeKeyType::Bytes {
                r matches ReadStep::Continue(s, _) && s == DynamicReadState::AwaitingValue(
                    KeyGetter::Bytes,
                )
            } else if t == NativeKeyType::Missing {
                r == ReadStep::<DynamicReadState, DynamicKeyType<F>>::Finish(
                    Err(CodesError::MissingKey),
                )
            } else {
                r matches ReadStep::Continue(s, _) && s == DynamicReadState::AwaitingValue(
                    KeyGetter::Str,
                )
            }
        },
        (DynamicReadState::AwaitingSize(_), KeyAnswer::Size(Err(e))) => r
            == ReadStep::<DynamicReadState, DynamicKeyType<F>>::Finish(Err(e)),
        (DynamicReadState::AwaitingSize(t), KeyAnswer::Size(Ok(size))) => {
            if size == 0 {
                r == ReadStep::<DynamicReadState, DynamicKeyType<F>>::Finish(
                    Err(CodesError::IncorrectKeySize),
                )
            } else {
                r matches ReadStep::Continue(s, _) && s == DynamicReadState::AwaitingValue(
                    numeric_getter(t, size),
                )
            }
        },
        (DynamicReadState::AwaitingValue(_), KeyAnswer::Value(Ok(v))) => r
            == ReadStep::<DynamicReadState, DynamicKeyType<F>>::Finish(Ok(v)),
        (DynamicReadState::AwaitingValue(_), KeyAnswer::Value(Err(_))) => r matches ReadStep::Continue(
            s,
            _,
        ) && s == DynamicReadState::AwaitingBytes,
        (DynamicReadState::AwaitingBytes, KeyAnswer::Value(res)) => r
            == ReadStep::<DynamicReadState, DynamicKeyType<F>>::Finish(res),
        _ => false,
    })
}

/// Takes the next decision of a read of a key in its native type.
///
/// - A failed query for the native type or the size ends the read with its error.
/// - A key of type long or double is asked for its size; a size of 1 is read as a single
///   value, a larger size as an array, and a size of 0 ends the read with
///   [`CodesError::IncorrectKeySize`].
/// - A key of type bytes is read as bytes, a key of type missing ends the read with
///   [`CodesError::MissingKey`], a key of any other type is read as a string.
/// - A value read in the native type ends the read. If reading it fails, the key is read as
///   bytes once more, and that answer ends the read.
/// - An answer that does not answer the state's query leaves the state unchanged and asks
///   the query again.
pub fn dynamic_read_step<F>(state: DynamicReadState, answer: KeyAnswer<DynamicKeyType<F>>) -> (r:
    ReadStep<DynamicReadState, DynamicKeyType<F>>)
    ensures
        dynamic_step(state, answer, r),
{
    match state {
        DynamicReadState::AwaitingNativeType => match answer {
            KeyAnswer::NativeType(Err(e)) => ReadStep::Finish(Err(e)),
            KeyAnswer::NativeType(Ok(t)) => match t {
                NativeKeyType::Long | NativeKeyType::Double => ReadStep::Continue(
                    DynamicReadState::AwaitingSize(t),
                    KeyQuery::Size,
                ),
                NativeKeyType::Bytes => ReadStep::Continue(
                    DynamicReadState::AwaitingValue(KeyGetter::Bytes),
                    KeyQuery::Value(KeyGetter::Bytes),
                ),
                NativeKeyType::Missing => ReadStep::Finish(Err(CodesError::MissingKey)),
                _ => ReadStep::Continue(
                    DynamicReadState::AwaitingValue(KeyGetter::Str),
                    KeyQuery::Value(KeyGetter::Str),
                ),
            },
            _ => ReadStep::Continue(state, KeyQuery::NativeType),
        },
        DynamicReadState::AwaitingSize(t) => match answer {
            KeyAnswer::Size(Err(e)) => ReadStep::Finish(Err(e)),
            KeyAnswer::Size(Ok(size)) => {
                if size == 0 {
                    ReadStep::Finish(Err(CodesError::IncorrectKeySize))
                } else {
                    let getter = if t == NativeKeyType::Long {
                        if size == 1 {
                            KeyGetter::Long
                        } else {
                            KeyGetter::LongArray
                        }
                    } else {
                        if size == 1 {
                            KeyGetter::Double
                        } else {
                            KeyGetter::DoubleArray
                        }
                    };
                    ReadStep::Continue(DynamicReadState::AwaitingValue(getter), KeyQuery::Value(getter))
                }
            },
            _ => ReadStep::Continue(state, KeyQuery::Size),
        },
        DynamicReadState::AwaitingValue(g) => match answer {
            KeyAnswer::Value(Err(_)) => ReadStep::Continue(
                DynamicReadState::AwaitingBytes,
                KeyQuery::Value(KeyGetter::Bytes),
            ),
            KeyAnswer::Value(Ok(v)) => {
                if produced_by(g, &v) {
                    ReadStep::Finish(Ok(v))
                } else {
                    ReadStep::Continue(state, KeyQuery::Value(g))
                }
            },
            _ => ReadStep::Continue(state, KeyQuery::Value(g)),
        },
        DynamicReadState::AwaitingBytes => match answer {
            KeyAnswer::Value(Err(e)) => ReadStep::Finish(Err(e)),
            KeyAnswer::Value(Ok(v)) => {
                if let DynamicKeyType::Bytes(_) = v {
                    ReadStep::Finish(Ok(v))
                } else {
                    ReadStep::Continue(state, KeyQuery::Value(KeyGetter::Bytes))
                }
            },
            _ => ReadStep::Continue(state, KeyQuery::Value(KeyGetter::Bytes)),
        },
    }
}

/// Tells whether `v` is of the variant that `getter` gives.
fn produced_by<F>(getter: KeyGetter, v: &DynamicKeyType<F>) -> (b: bool)
    ensures
        b == getter.produces(*v),
{
    match (getter, v) {
        (KeyGetter::Long, DynamicKeyType::Int(_)) => true,
        (KeyGetter::LongArray, DynamicKeyType::IntArray(_)) => true,
        (KeyGetter::Double, DynamicKeyType::Float(_)) => true,
        (KeyGetter::DoubleArray, DynamicKeyType::FloatArray(_)) => true,
        (KeyGetter::Str, DynamicKeyType::Str(_)) => true,
        (KeyGetter::Bytes, DynamicKeyType::Bytes(_)) => true,
        _ => false,
    }
}

/// The types in which `read_key` can be asked to read a key.
#[derive(Copy, Clone, PartialEq, Eq, Structural, Debug)]
pub enum KeyRequest {
    /// A single integer (`i64`).
    Long,
    /// A single floating-point value.
    Double,
    /// A string.
    Str,
    /// Raw bytes.
    Bytes,
    /// An array of integers.
    LongArray,
    /// An array of floating-point values.
    DoubleArray,
}

impl KeyRequest {
    /// The native type that a key must have to be read in this type.
    pub open spec fn native(self) -> NativeKeyType {
        match self {
            KeyRequest::Long | KeyRequest::LongArray => NativeKeyType::Long,
            KeyRequest::Double | KeyRequest::DoubleArray => NativeKeyType::Double,
            KeyRequest::Str => NativeKeyType::Str,
            KeyRequest::Bytes => NativeKeyType::Bytes,
        }
    }

    /// This type is a single value, so the key must have exactly one element.
    pub open spec fn is_scalar(self) -> bool {
        self == KeyRequest::Long || self == KeyRequest::Double
    }

    /// The getter that reads a key in this type.
    pub open spec fn spec_getter(self) -> KeyGetter {
        match self {
            KeyRequest::Long => KeyGetter::Long,
            KeyRequest::Double => KeyGetter::Double,
            KeyRequest::Str => KeyGetter::Str,
            KeyRequest::Bytes => KeyGetter::Bytes,
            KeyRequest::LongArray => KeyGetter::LongArray,
            KeyRequest::DoubleArray => KeyGetter::DoubleArray,
        }
    }

    /// Returns the getter that reads a key in this type.
    pub fn getter(&self) -> (g: KeyGetter)
        ensures
            g == self.spec_getter(),
    {
        match self {
            KeyRequest::Long => KeyGetter::Long,
            KeyRequest::Double => KeyGetter::Double,
            KeyRequest::Str => KeyGetter::Str,
            KeyRequest::Bytes => KeyGetter::Bytes,
            KeyRequest::LongArray => KeyGetter::LongArray,
            KeyRequest::DoubleArray => KeyGetter::DoubleArray,
        }
    }
}

/// `r` is the result of [`check_key_type`] for a key of native type `native` read as `request`.
pub open spec fn key_type_checked(request: KeyRequest, native: NativeKeyType, r: Result<(), CodesError>) -> bool {
    &&& (r is Ok <==> native == request.native())
    &&& (r is Err ==> r == Err::<(), CodesError>(CodesError::WrongRequestedKeyType))
}

/// Checks that a key of native type `native` may be read as `request`.
///
/// Fails with [`CodesError::WrongRequestedKeyType`] when the types differ.
pub fn check_key_type(request: KeyRequest, native: NativeKeyType) -> (r: Result<(), CodesError>)
    ensures
        key_type_checked(request, native, r),
{
    let expected = match request {
        KeyRequest::Long | KeyRequest::LongArray => NativeKeyType::Long,
        KeyRequest::Double | KeyRequest::DoubleArray => NativeKeyType::Double,
        KeyRequest::Str => NativeKeyType::Str,
        KeyRequest::Bytes => NativeKeyType::Bytes,
    };
    if native == expected {
        Ok(())
    } else {
        Err(CodesError::WrongRequestedKeyType)
    }
}

/// Checks that a key with `size` elements may be read as `request`.
///
/// A size of 0 fails with [`CodesError::IncorrectKeySize`]; a size above 1 requested as a
/// single value fails with [`CodesError::WrongRequestedKeySize`].
pub fn check_key_size(request: KeyRequest, size: usize) -> (r: Result<(), CodesError>)
    ensures
        r is Ok <==> (size == 1 || (size > 1 && !request.is_scalar())),
        size == 0 ==> r == Err::<(), CodesError>(CodesError::IncorrectKeySize),
        size > 1 && request.is_scalar() ==> r == Err::<(), CodesError>(
            CodesError::WrongRequestedKeySize,
        ),
{
    if size < 1 {
        Err(CodesError::IncorrectKeySize)
    } else if size > 1 && (request == KeyRequest::Long || request == KeyRequest::Double) {
        Err(CodesError::WrongRequestedKeySize)
    } else {
        Ok(())
    }
}

/// State of a read of a key in a requested type (`read_key`).
#[derive(Copy, Clone, PartialEq, Eq, Structural, Debug)]
pub enum TypedReadState {
    /// The native type of the key has been asked.
    AwaitingNativeType,
    /// The native type matched; the size of the key has been asked.
    AwaitingSize,
    /// Type and size matched; the value has been asked.
    AwaitingValue,
}

impl TypedReadState {
    /// The query whose answer a reader of `request` in this state waits for.
    pub open spec fn query(self, request: KeyRequest) -> KeyQuery {
        match self {
            TypedReadState::AwaitingNativeType => KeyQuery::NativeType,
            TypedReadState::AwaitingSize => KeyQuery::Size,
            TypedReadState::AwaitingValue => KeyQuery::Value(request.spec_getter()),
        }
    }

    /// Upper bound on the number of answers that a reader in this state still needs.
    pub open spec fn rank(self) -> nat {
        match self {
            TypedReadState::AwaitingNativeType => 3,
            TypedReadState::AwaitingSize => 2,
            TypedReadState::AwaitingValue => 1,
        }
    }

    /// `answer` answers the query of this state.
    pub open spec fn accepts<V>(self, answer: KeyAnswer<V>) -> bool {
        match self {
            TypedReadState::AwaitingNativeType => answer is NativeType,
            TypedReadState::AwaitingSize => answer is Size,
            TypedReadState::AwaitingValue => answer is Value,
        }
    }
}

/// Starts a read of a key in a requested type: the first query is its native type.
pub fn typed_read_start(request: KeyRequest) -> (r: (TypedReadState, KeyQuery))
    ensures
        r.0 == TypedReadState::AwaitingNativeType,
        r.1 == r.0.query(request),
{
    (TypedReadState::AwaitingNativeType, KeyQuery::NativeType)
}

/// `r` is the decision that [`typed_read_step`] takes for `request` in `state` on `answer`.
pub open spec fn typed_step<V>(request: KeyRequest, state: TypedReadState, answer: KeyAnswer<V>, r: ReadStep<TypedReadState, V>) -> bool {
    &&& (!state.accepts(answer) ==> r == ReadStep::<TypedReadState, V>::Continue(
        state,
        state.query(request),
    ))
    &&& (r matches ReadStep::Continue(s, q) ==> q == s.query(request))
    &&& (r matches ReadStep::Continue(s, _) ==> (state.accepts(answer) ==> s.rank() < state.rank()))
    &&& (state.accepts(answer) ==> match (state, answer) {
        (TypedReadState::AwaitingNativeType, KeyAnswer::NativeType(Err(e))) => r
            == ReadStep::<TypedReadState, V>::Finish(Err(e)),
        (TypedReadState::AwaitingNativeType, KeyAnswer::NativeType(Ok(t))) => {
            if t == request.native() {
                r matches ReadStep::Continue(s, _) && s == TypedReadState::AwaitingSize
            } else {
                r == ReadStep::<TypedReadState, V>::Finish(
                    Err(CodesError::WrongRequestedKeyType),
                )
            }
        },
        (TypedReadState::AwaitingSize, KeyAnswer::Size(Err(e))) => r
            == ReadStep::<TypedReadState, V>::Finish(Err(e)),
        (TypedReadState::AwaitingSize, KeyAnswer::Size(Ok(size))) => {
            if size == 0 {
                r == ReadStep::<TypedReadState, V>::Finish(Err(CodesError::IncorrectKeySize))
            } else if size > 1 && request.is_scalar() {
                r == ReadStep::<TypedReadState, V>::Finish(
                    Err(CodesError::WrongRequestedKeySize),
                )
            } else {
                r matches ReadStep::Continue(s, _) && s == TypedReadState::AwaitingValue
            }
        },
        (TypedReadState::AwaitingValue, KeyAnswer::Value(res)) => r
            == ReadStep::<TypedReadState, V>::Finish(res),
        _ => false,
    })
}

/// Takes the next decision of a read of a key as `request`.
///
/// The native type must be `request.native()` ([`check_key_type`]), then the size must fit
/// the request ([`check_key_size`]), and only then is the value read; its answer ends the
/// read. A failed query ends the read with its error. An answer that does not answer the
/// state's query leaves the state unchanged and asks the query again.
pub fn typed_read_step<V>(request: KeyRequest, state: TypedReadState, answer: KeyAnswer<V>) -> (r:
    ReadStep<TypedReadState, V>)
    ensures
        typed_step(request, state, answer, r),
{
    match state {
        TypedReadState::AwaitingNativeType => match answer {
            KeyAnswer::NativeType(Err(e)) => ReadStep::Finish(Err(e)),
            KeyAnswer::NativeType(Ok(t)) => match check_key_type(request, t) {
                Ok(()) => ReadStep::Continue(TypedReadState::AwaitingSize, KeyQuery::Size),
                Err(e) => ReadStep::Finish(Err(e)),
            },
            _ => ReadStep::Continue(state, KeyQuery::NativeType),
        },
        TypedReadState::AwaitingSize => match answer {
            KeyAnswer::Size(Err(e)) => ReadStep::Finish(Err(e)),
            KeyAnswer::Size(Ok(size)) => match check_key_size(request, size) {
                Ok(()) => ReadStep::Continue(
                    TypedReadState::AwaitingValue,
                    KeyQuery::Value(request.getter()),
                ),
                Err(e) => ReadStep::Finish(Err(e)),
            },
            _ => ReadStep::Continue(state, KeyQuery::Size),
        },
        TypedReadState::AwaitingValue => match answer {
            KeyAnswer::Value(res) => ReadStep::Finish(res),
            _ => ReadStep::Continue(state, KeyQuery::Value(request.getter())),
        },
    }
}


/// A numeric key is read with the getter that fits its type and its size: a key of native
/// type long is read with `codes_get_long` when it has one element and with
/// `codes_get_long_array` when it has two or more, a key of native type double with
/// `codes_get_double` and `codes_get_double_array` in the same way, and a key without
/// elements is refused with [`CodesError::IncorrectKeySize`].
pub proof fn lemma_numeric_key_getter<F>(
    t: NativeKeyType,
    size: usize,
    r: ReadStep<DynamicReadState, DynamicKeyType<F>>,
)
    requires
        t == NativeKeyType::Long || t == NativeKeyType::Double,
        dynamic_step(DynamicReadState::AwaitingSize(t), KeyAnswer::Size(Ok(size)), r),
    ensures
        size == 0 ==> r == ReadStep::<DynamicReadState, DynamicKeyType<F>>::Finish(
            Err(CodesError::IncorrectKeySize),
        ),
        t == NativeKeyType::Long && size == 1 ==> r == ReadStep::<
            DynamicReadState,
            DynamicKeyType<F>,
        >::Continue(
            DynamicReadState::AwaitingValue(KeyGetter::Long),
            KeyQuery::Value(KeyGetter::Long),
        ),
        t == NativeKeyType::Long && size >= 2 ==> r == ReadStep::<
            DynamicReadState,
            DynamicKeyType<F>,
        >::Continue(
            DynamicReadState::AwaitingValue(KeyGetter::LongArray),
            KeyQuery::Value(KeyGetter::LongArray),
        ),
        t == NativeKeyType::Double && size == 1 ==> r == ReadStep::<
            DynamicReadState,
            DynamicKeyType<F>,
        >::Continue(
            DynamicReadState::AwaitingValue(KeyGetter::Double),
            KeyQuery::Value(KeyGetter::Double),
        ),
        t == NativeKeyType::Double && size >= 2 ==> r == ReadStep::<
            DynamicReadState,
            DynamicKeyType<F>,
        >::Continue(
            DynamicReadState::AwaitingValue(KeyGetter::DoubleArray),
            KeyQuery::Value(KeyGetter::DoubleArray),
        ),
{
}

/// A numeric key read in its native type ends as a single value when it has one element and
/// as an array when it has more: after the size `size` of a key of native type `t`, the read
/// that ends on the value `v` gives an integer, an integer array, a float or a float array.
pub proof fn lemma_numeric_key_value_kind<F>(
    t: NativeKeyType,
    size: usize,
    s: DynamicReadState,
    q: KeyQuery,
    v: DynamicKeyType<F>,
    w: DynamicKeyType<F>,
)
    requires
        t == NativeKeyType::Long || t == NativeKeyType::Double,
        dynamic_step(
            DynamicReadState::AwaitingSize(t),
            KeyAnswer::<DynamicKeyType<F>>::Size(Ok(size)),
            ReadStep::Continue(s, q),
        ),
        dynamic_step(s, KeyAnswer::Value(Ok(v)), ReadStep::Finish(Ok(w))),
    ensures
        size >= 1,
        w == v,
        t == NativeKeyType::Long && size == 1 ==> w is Int,
        t == NativeKeyType::Long && size >= 2 ==> w is IntArray,
        t == NativeKeyType::Double && size == 1 ==> w is Float,
        t == NativeKeyType::Double && size >= 2 ==> w is FloatArray,
{
}

/// Each requested type accepts exactly the native type of the values it is read into:
/// `i64` and `Vec<i64>` are read from keys of native type long, `f64` and `Vec<f64>` from
/// keys of native type double, `String` from strings and `Vec<u8>` from bytes. Any other
/// native type is refused with [`CodesError::WrongRequestedKeyType`].
pub proof fn lemma_key_type_table(request: KeyRequest, native: NativeKeyType, r: Result<(), CodesError>)
    requires
        key_type_checked(request, native, r),
    ensures
        r is Ok <==> ((request == KeyRequest::Long && native == NativeKeyType::Long) || (request
            == KeyRequest::LongArray && native == NativeKeyType::Long) || (request
            == KeyRequest::Double && native == NativeKeyType::Double) || (request
            == KeyRequest::DoubleArray && native == NativeKeyType::Double) || (request
            == KeyRequest::Str && native == NativeKeyType::Str) || (request == KeyRequest::Bytes
            && native == NativeKeyType::Bytes)),
        r is Err ==> r == Err::<(), CodesError>(CodesError::WrongRequestedKeyType),
{
}

/// A read of a key as a requested type goes on to the size exactly when the native type of
/// the key is that of the requested type, as listed in [`lemma_key_type_table`], and ends
/// with [`CodesError::WrongRequestedKeyType`] otherwise.
pub proof fn lemma_typed_read_type_check<V>(
    request: KeyRequest,
    native: NativeKeyType,
    r: ReadStep<TypedReadState, V>,
)
    requires
        typed_step(
            request,
            TypedReadState::AwaitingNativeType,
            KeyAnswer::NativeType(Ok(native)),
            r,
        ),
    ensures
        ((request == KeyRequest::Long && native == NativeKeyType::Long) || (request
            == KeyRequest::LongArray && native == NativeKeyType::Long) || (request
            == KeyRequest::Double && native == NativeKeyType::Double) || (request
            == KeyRequest::DoubleArray && native == NativeKeyType::Double) || (request
            == KeyRequest::Str && native == NativeKeyType::Str) || (request == KeyRequest::Bytes
            && native == NativeKeyType::Bytes)) ==> r == ReadStep::<TypedReadState, V>::Continue(
            TypedReadState::AwaitingSize,
            KeyQuery::Size,
        ),
        !((request == KeyRequest::Long && native == NativeKeyType::Long) || (request
            == KeyRequest::LongArray && native == NativeKeyType::Long) || (request
            == KeyRequest::Double && native == NativeKeyType::Double) || (request
            == KeyRequest::DoubleArray && native == NativeKeyType::Double) || (request
            == KeyRequest::Str && native == NativeKeyType::Str) || (request == KeyRequest::Bytes
            && native == NativeKeyType::Bytes)) ==> r == ReadStep::<TypedReadState, V>::Finish(
            Err(CodesError::WrongRequestedKeyType),
        ),
{
}


/// The native type of a key decides how it is read: a long or a double key is asked for its
/// size, a bytes key is read as bytes, a key of type missing is refused with
/// [`CodesError::MissingKey`], and a key of any other type is read as a string.
pub proof fn lemma_native_type_dispatch<F>(
    t: NativeKeyType,
    r: ReadStep<DynamicReadState, DynamicKeyType<F>>,
)
    requires
        dynamic_step(
            DynamicReadState::AwaitingNativeType,
            KeyAnswer::<DynamicKeyType<F>>::NativeType(Ok(t)),
            r,
        ),
    ensures
        t == NativeKeyType::Long ==> r == ReadStep::<DynamicReadState, DynamicKeyType<F>>::Continue(
            DynamicReadState::AwaitingSize(NativeKeyType::Long),
            KeyQuery::Size,
        ),
        t == NativeKeyType::Double ==> r == ReadStep::<
            DynamicReadState,
            DynamicKeyType<F>,
        >::Continue(DynamicReadState::AwaitingSize(NativeKeyType::Double), KeyQuery::Size),
        t == NativeKeyType::Bytes ==> r == ReadStep::<DynamicReadState, DynamicKeyType<F>>::Continue(
            DynamicReadState::AwaitingValue(KeyGetter::Bytes),
            KeyQuery::Value(KeyGetter::Bytes),
        ),
        t == NativeKeyType::Missing ==> r == ReadStep::<DynamicReadState, DynamicKeyType<F>>::Finish(
            Err(CodesError::MissingKey),
        ),
        (t == NativeKeyType::Str || t == NativeKeyType::Undefined || t == NativeKeyType::Section
            || t == NativeKeyType::Label) ==> r == ReadStep::<
            DynamicReadState,
            DynamicKeyType<F>,
        >::Continue(
            DynamicReadState::AwaitingValue(KeyGetter::Str),
            KeyQuery::Value(KeyGetter::Str),
        ),
{
}

/// When reading a key in its native type fails, the key is read once more as bytes, and the
/// result of that read, value or error, is the result of the whole read.
pub proof fn lemma_bytes_fallback<F>(
    g: KeyGetter,
    e: CodesError,
    s: DynamicReadState,
    q: KeyQuery,
    res: Result<DynamicKeyType<F>, CodesError>,
    r: ReadStep<DynamicReadState, DynamicKeyType<F>>,
)
    requires
        dynamic_step(
            DynamicReadState::AwaitingValue(g),
            KeyAnswer::<DynamicKeyType<F>>::Value(Err(e)),
            ReadStep::Continue(s, q),
        ),
        res matches Ok(b) ==> b is Bytes,
        dynamic_step(s, KeyAnswer::Value(res), r),
    ensures
        s == DynamicReadState::AwaitingBytes,
        q == KeyQuery::Value(KeyGetter::Bytes),
        r == ReadStep::<DynamicReadState, DynamicKeyType<F>>::Finish(res),
{
}

/// After the native type matched, a read of a key as a requested type checks the size: a key
/// without elements is refused with [`CodesError::IncorrectKeySize`], a key of more than one
/// element asked as `i64` or `f64` with [`CodesError::WrongRequestedKeySize`], and otherwise
/// the value is read with the getter of the requested type: `codes_get_long` for `i64`,
/// `codes_get_double` for `f64`, `codes_get_string` for `String`, `codes_get_bytes` for
/// `Vec<u8>`, `codes_get_long_array` for `Vec<i64>` and `codes_get_double_array` for `Vec<f64>`.
pub proof fn lemma_typed_read_size_check<V>(
    request: KeyRequest,
    size: usize,
    r: ReadStep<TypedReadState, V>,
)
    requires
        typed_step(request, TypedReadState::AwaitingSize, KeyAnswer::<V>::Size(Ok(size)), r),
    ensures
        size == 0 ==> r == ReadStep::<TypedReadState, V>::Finish(Err(CodesError::IncorrectKeySize)),
        size >= 2 && (request == KeyRequest::Long || request == KeyRequest::Double) ==> r
            == ReadStep::<TypedReadState, V>::Finish(Err(CodesError::WrongRequestedKeySize)),
        (size == 1 || (size >= 2 && request != KeyRequest::Long && request != KeyRequest::Double))
            ==> (r matches ReadStep::Continue(st, q) && st == TypedReadState::AwaitingValue && q
            == KeyQuery::Value(
            match request {
                KeyRequest::Long => KeyGetter::Long,
                KeyRequest::Double => KeyGetter::Double,
                KeyRequest::Str => KeyGetter::Str,
                KeyRequest::Bytes => KeyGetter::Bytes,
                KeyRequest::LongArray => KeyGetter::LongArray,
                KeyRequest::DoubleArray => KeyGetter::DoubleArray,
            },
        )),
{
}

} // verus!
