//! Codes that the ecCodes library uses for key types, product kinds and the flags of
//! keys iterators, with their conversions.

use vstd::prelude::*;

use crate::errors::CodesError;

verus! {

/// Native type of a key as reported by ecCodes (`CODES_TYPE_*`).
#[derive(Copy, Clone, PartialEq, Eq, Structural, PartialOrd, Ord, Hash, Debug)]
pub enum NativeKeyType {
    /// `CODES_TYPE_UNDEFINED`
    Undefined,
    /// `CODES_TYPE_LONG`
    Long,
    /// `CODES_TYPE_DOUBLE`
    Double,
    /// `CODES_TYPE_STRING`
    Str,
    /// `CODES_TYPE_BYTES`
    Bytes,
    /// `CODES_TYPE_SECTION`
    Section,
    /// `CODES_TYPE_LABEL`
    Label,
    /// `CODES_TYPE_MISSING`
    Missing,
}

impl NativeKeyType {
    /// The ecCodes code of this key type.
    pub open spec fn spec_code(self) -> int {
        match self {
            NativeKeyType::Undefined => 0,
            NativeKeyType::Long => 1,
            NativeKeyType::Double => 2,
            NativeKeyType::Str => 3,
            NativeKeyType::Bytes => 4,
            NativeKeyType::Section => 5,
            NativeKeyType::Label => 6,
            NativeKeyType::Missing => 7,
        }
    }

    /// Returns the ecCodes code of this key type.
    pub fn code(&self) -> (c: i32)
        ensures
            c == self.spec_code(),
    {
        match self {
            NativeKeyType::Undefined => 0,
            NativeKeyType::Long => 1,
            NativeKeyType::Double => 2,
            NativeKeyType::Str => 3,
            NativeKeyType::Bytes => 4,
            NativeKeyType::Section => 5,
            NativeKeyType::Label => 6,
            NativeKeyType::Missing => 7,
        }
    }

    /// Returns the key type of the ecCodes code `code`, or `None` for an unknown code.
    pub fn from_code(code: i32) -> (r: Option<NativeKeyType>)
        ensures
            r is Some <==> 0 <= code <= 7,
            r matches Some(t) ==> t.spec_code() == code,
    {
        match code {
            0 => Some(NativeKeyType::Undefined),
            1 => Some(NativeKeyType::Long),
            2 => Some(NativeKeyType::Double),
            3 => Some(NativeKeyType::Str),
            4 => Some(NativeKeyType::Bytes),
            5 => Some(NativeKeyType::Section),
            6 => Some(NativeKeyType::Label),
            7 => Some(NativeKeyType::Missing),
            _ => None,
        }
    }
}

/// Different key types have different codes, so a type is found again from its own code.
pub proof fn lemma_native_type_codes_distinct(a: NativeKeyType, b: NativeKeyType)
    ensures
        a.spec_code() == b.spec_code() ==> a == b,
{
}

/// Interprets the type code that `codes_get_native_type` wrote.
///
/// Fails with [`CodesError::UnrecognizedKeyTypeCode`] holding the code when it is unknown.
pub fn native_type_from_code(code: i32) -> (r: Result<NativeKeyType, CodesError>)
    ensures
        r is Ok <==> 0 <= code <= 7,
        r matches Ok(t) ==> t.spec_code() == code,
        r is Err ==> r == Err::<NativeKeyType, CodesError>(CodesError::UnrecognizedKeyTypeCode(code)),
{
    match NativeKeyType::from_code(code) {
        Some(t) => Ok(t),
        None => Err(CodesError::UnrecognizedKeyTypeCode(code)),
    }
}

/// Kind of product (file type) that ecCodes decodes (`ProductKind` of ecCodes).
#[derive(Copy, Clone, PartialEq, Eq, Structural, PartialOrd, Ord, Hash, Debug)]
pub enum ProductKind {
    /// GRIB messages (`PRODUCT_GRIB`).
    GRIB,
}

impl ProductKind {
    /// The ecCodes code of this product kind.
    pub open spec fn spec_code(self) -> int {
        match self {
            ProductKind::GRIB => 1,
        }
    }

    /// Returns the ecCodes code of this product kind, as passed to `codes_handle_new_from_file`.
    pub fn code(&self) -> (c: u32)
        ensures
            c == self.spec_code(),
    {
        match self {
            ProductKind::GRIB => 1,
        }
    }
}

/// Flags that select which keys a keys iterator visits (`CODES_KEYS_ITERATOR_*`), ordered by
/// their values.
#[derive(Copy, Clone, PartialEq, Eq, Structural, PartialOrd, Ord, Hash, Debug)]
pub enum KeysIteratorFlags {
    /// Iterate over all keys.
    AllKeys,
    /// Skip keys which are read-only.
    SkipReadOnly,
    /// Skip keys which are optional.
    SkipOptional,
    /// Exclude keys specific to one GRIB edition.
    SkipEditionSpecific,
    /// Exclude coded keys from iteration.
    SkipCoded,
    /// Exclude computed keys.
    SkipComputed,
    /// Skip duplicate keys.
    SkipDuplicates,
    /// Exclude function keys.
    SkipFunction,
    /// Iterate only over dump keys.
    DumpOnly,
}

impl KeysIteratorFlags {
    /// The bit value of this flag.
    pub open spec fn spec_value(self) -> int {
        match self {
            KeysIteratorFlags::AllKeys => 0,
            KeysIteratorFlags::SkipReadOnly => 1,
            KeysIteratorFlags::SkipOptional => 2,
            KeysIteratorFlags::SkipEditionSpecific => 4,
            KeysIteratorFlags::SkipCoded => 8,
            KeysIteratorFlags::SkipComputed => 16,
            KeysIteratorFlags::SkipDuplicates => 32,
            KeysIteratorFlags::SkipFunction => 64,
            KeysIteratorFlags::DumpOnly => 128,
        }
    }

    /// Returns the bit value of this flag.
    pub fn value(&self) -> (v: u32)
        ensures
            v == self.spec_value(),
    {
        match self {
            KeysIteratorFlags::AllKeys => 0,
            KeysIteratorFlags::SkipReadOnly => 1,
            KeysIteratorFlags::SkipOptional => 2,
            KeysIteratorFlags::SkipEditionSpecific => 4,
            KeysIteratorFlags::SkipCoded => 8,
            KeysIteratorFlags::SkipComputed => 16,
            KeysIteratorFlags::SkipDuplicates => 32,
            KeysIteratorFlags::SkipFunction => 64,
            KeysIteratorFlags::DumpOnly => 128,
        }
    }
}

/// Sum of the values of the flags in `flags`.
pub open spec fn flags_sum(flags: Seq<KeysIteratorFlags>) -> int
    decreases flags.len(),
{
    if flags.len() == 0 {
        0
    } else {
        flags_sum(flags.drop_last()) + flags.last().spec_value()
    }
}

/// Combines flags into the single value passed to `codes_keys_iterator_new`: the sum of
/// their values.
pub fn combine_flags(flags: &[KeysIteratorFlags]) -> (r: u32)
    requires
        flags_sum(flags@) <= u32::MAX,
    ensures
        r == flags_sum(flags@),
{
    let mut sum: u32 = 0;
    let mut k: usize = 0;
    while k < flags.len()
        invariant
            k <= flags.len(),
            flags_sum(flags@) <= u32::MAX,
            sum == flags_sum(flags@.take(k as int)),
        decreases flags.len() - k,
    {
        proof {
            assert(flags@.take(k as int + 1).drop_last() =~= flags@.take(k as int));
            lemma_flags_sum_prefix(flags@, k as int + 1);
        }
        sum = sum + flags[k].value();
        k = k + 1;
    }
    assert(flags@.take(k as int) =~= flags@);
    sum
}

/// The sum over a prefix of the flags is at most the sum over all of them.
proof fn lemma_flags_sum_prefix(flags: Seq<KeysIteratorFlags>, n: int)
    requires
        0 <= n <= flags.len(),
    ensures
        flags_sum(flags.take(n)) <= flags_sum(flags),
        flags_sum(flags.take(n)) >= 0,
    decreases flags.len() - n,
{
    if n < flags.len() {
        lemma_flags_sum_prefix(flags, n + 1);
        assert(flags.take(n + 1).drop_last() =~= flags.take(n));
    } else {
        assert(flags.take(n) =~= flags);
    }
    lemma_flags_sum_nonneg(flags.take(n));
}

proof fn lemma_flags_sum_nonneg(flags: Seq<KeysIteratorFlags>)
    ensures
        flags_sum(flags) >= 0,
    decreases flags.len(),
{
    if flags.len() > 0 {
        lemma_flags_sum_nonneg(flags.drop_last());
    }
}

} // verus!
