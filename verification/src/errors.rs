//! Errors returned by this crate and the codes of the ecCodes library.

use vstd::prelude::*;

verus! {

/// The error value that `errno` reports after a failed libc call.
#[verifier::external_type_specification]
#[verifier::external_body]
pub struct ExErrno(errno::Errno);

/// The error of a failed UTF-8 validation.
#[verifier::external_type_specification]
#[verifier::external_body]
pub struct ExUtf8Error(std::str::Utf8Error);

/// The error of a byte slice that is not a nul-terminated C string.
#[verifier::external_type_specification]
#[verifier::external_body]
pub struct ExFromBytesWithNulError(core::ffi::FromBytesWithNulError);

/// The error of `ndarray` when an array cannot take a requested shape.
#[verifier::external_type_specification]
#[verifier::external_body]
pub struct ExShapeError(ndarray::ShapeError);

/// Errors returned by all functions of the crate.
#[derive(Debug)]
pub enum CodesError {
    /// An ecCodes function returned a non-zero code; see [`CodesInternal`].
    Internal(CodesInternal),
    /// A libc function failed; the code and the `errno` value are given.
    LibcNonZero(i32, errno::Errno),
    /// A string returned by ecCodes is not valid UTF-8.
    CstrUTF8(std::str::Utf8Error),
    /// A string returned by ecCodes is not a nul-terminated C string.
    NulChar(core::ffi::FromBytesWithNulError),
    /// The requested key has the native type "missing".
    MissingKey,
    /// The size of the requested key is lower than 1.
    IncorrectKeySize,
    /// ecCodes could not clone the message.
    CloneFailed,
    /// ecCodes could not create or advance a keys iterator.
    KeysIteratorFailed,
    /// A null pointer was found where a valid one is required.
    NullPtr,
    /// The message could not be converted to an array; see [`MessageNdarrayError`].
    NdarrayConvert(MessageNdarrayError),
    /// The key was requested as a type other than its native type.
    WrongRequestedKeyType,
    /// A key holding an array was requested as a single value.
    WrongRequestedKeySize,
    /// ecCodes reported a native key type whose code this crate does not know.
    UnrecognizedKeyTypeCode(i32),
}

/// Errors returned when a message is converted to arrays of grid values.
#[derive(Debug)]
pub enum MessageNdarrayError {
    /// A key needed for the conversion has an unexpected type.
    UnexpectedKeyType(String),
    /// The number of values (first) differs from the number the grid needs (second).
    UnexpectedValuesLength(usize, usize),
    /// A key needed for the conversion holds a value out of the expected range.
    UnexpectedKeyValue(String),
    /// `ndarray` could not build an array of the grid's shape.
    InvalidShape(ndarray::ShapeError),
    /// A grid dimension does not fit the target integer type.
    IntCasting(core::num::TryFromIntError),
}

/// Error codes of the ecCodes library, one variant per code from -67 up to 0; the variants
/// are ordered by their codes.
#[derive(Copy, Clone, PartialEq, Eq, Structural, PartialOrd, Ord, Hash, Debug)]
pub enum CodesInternal {
    /// Functionality not enabled
    CodesFunctionalityNotEnabled,
    /// Size of bitmap is incorrect
    CodesWrongBitmapSize,
    /// Value out of coding range
    CodesOutOfRange,
    /// Edition not supported
    CodesUnsupportedEdition,
    /// Attribute not found
    CodesAttributeNotFound,
    /// Too many attributes. Increase MAX_ACCESSOR_ATTRIBUTES
    CodesTooManyAttributes,
    /// Attribute is already present =  cannot add
    CodesAttributeClash,
    /// Null pointer
    CodesNullPointer,
    /// Missing BUFR table entry for descriptor
    CodesMissingBufrEntry,
    /// Wrong type conversion
    CodesWrongConversion,
    /// String is smaller than requested
    CodesStringTooSmall,
    /// Invalid key value
    CodesInvalidKeyValue,
    /// Value is different
    CodesValueDifferent,
    /// Edition of two messages is different
    CodesDifferentEdition,
    /// Invalid number of bits per value
    CodesInvalidBpv,
    /// Index is corrupted
    CodesCorruptedIndex,
    /// Message malformed
    CodesMessageMalformed,
    /// Underflow
    CodesUnderflow,
    /// Switch unable to find a matching case
    CodesSwitchNoMatch,
    /// Constant field
    CodesConstantField,
    /// Message is too large for the current architecture
    CodesMessageTooLarge,
    /// An internal array is too small
    CodesInternalArrayTooSmall,
    /// End of resource reached when reading message
    CodesPrematureEndOfFile,
    /// Null index
    CodesNullIndex,
    /// End of index reached
    CodesEndOfIndex,
    /// Grid description is wrong or inconsistent
    CodesWrongGrid,
    /// Unable to code a field without values
    CodesNoValues,
    /// End of resource
    CodesEnd,
    /// Wrong type while packing
    CodesWrongType,
    /// Definitions files not found
    CodesNoDefinitions,
    /// Hash array no match
    CodesHashArrayNoMatch,
    /// Concept no match
    CodesConceptNoMatch,
    /// The point is out of the grid area
    CodesOutOfArea,
    /// Missing a key from the fieldset
    CodesMissingKey,
    /// Invalid order by
    CodesInvalidOrderby,
    /// Invalid nearest id
    CodesInvalidNearest,
    /// Invalid keys iterator id
    CodesInvalidKeysIterator,
    /// Invalid iterator id
    CodesInvalidIterator,
    /// Invalid index id
    CodesInvalidIndex,
    /// Invalid grib id
    CodesInvalidGrib,
    /// Invalid file id
    CodesInvalidFile,
    /// Wrong units for step (step must be integer)
    CodesWrongStepUnit,
    /// Unable to set step
    CodesWrongStep,
    /// Invalid key type
    CodesInvalidType,
    /// Wrong message length
    CodesWrongLength,
    /// Value cannot be missing
    CodesValueCannotBeMissing,
    /// Invalid section number
    CodesInvalidSectionNumber,
    /// Null handle
    CodesNullHandle,
    /// Invalid argument
    CodesInvalidArgument,
    /// Value is read only
    CodesReadOnly,
    /// Memory allocation error
    CodesOutOfMemory,
    /// Problem with calculation of geographic attributes
    CodesGeocalculusProblem,
    /// Code cannot unpack because of string too small
    CodesNoMoreInSet,
    /// Encoding invalid
    CodesEncodingError,
    /// Decoding invalid
    CodesDecodingError,
    /// Message invalid
    CodesInvalidMessage,
    /// Input output problem
    CodesIoProblem,
    /// Key/value not found
    CodesNotFound,
    /// Array size mismatch
    CodesWrongArraySize,
    /// Code not found in code table
    CodesCodeNotFoundInTable,
    /// File not found
    CodesFileNotFound,
    /// Passed array is too small
    CodesArrayTooSmall,
    /// Missing 7777 at end of message
    Codes7777NotFound,
    /// Function not yet implemented
    CodesNotImplemented,
    /// Passed buffer is too small
    CodesBufferTooSmall,
    /// Internal error
    CodesInternalError,
    /// End of resource reached
    CodesEndOfFile,
    /// No error
    CodesSuccess,
}

impl CodesInternal {
    /// The numeric ecCodes code of this error.
    pub open spec fn spec_code(self) -> int {
        match self {
            CodesInternal::CodesSuccess => 0,
            CodesInternal::CodesEndOfFile => -1,
            CodesInternal::CodesInternalError => -2,
            CodesInternal::CodesBufferTooSmall => -3,
            CodesInternal::CodesNotImplemented => -4,
            CodesInternal::Codes7777NotFound => -5,
            CodesInternal::CodesArrayTooSmall => -6,
            CodesInternal::CodesFileNotFound => -7,
            CodesInternal::CodesCodeNotFoundInTable => -8,
            CodesInternal::CodesWrongArraySize => -9,
            CodesInternal::CodesNotFound => -10,
            CodesInternal::CodesIoProblem => -11,
            CodesInternal::CodesInvalidMessage => -12,
            CodesInternal::CodesDecodingError => -13,
            CodesInternal::CodesEncodingError => -14,
            CodesInternal::CodesNoMoreInSet => -15,
            CodesInternal::CodesGeocalculusProblem => -16,
            CodesInternal::CodesOutOfMemory => -17,
            CodesInternal::CodesReadOnly => -18,
            CodesInternal::CodesInvalidArgument => -19,
            CodesInternal::CodesNullHandle => -20,
            CodesInternal::CodesInvalidSectionNumber => -21,
            CodesInternal::CodesValueCannotBeMissing => -22,
            CodesInternal::CodesWrongLength => -23,
            CodesInternal::CodesInvalidType => -24,
            CodesInternal::CodesWrongStep => -25,
            CodesInternal::CodesWrongStepUnit => -26,
            CodesInternal::CodesInvalidFile => -27,
            CodesInternal::CodesInvalidGrib => -28,
            CodesInternal::CodesInvalidIndex => -29,
            CodesInternal::CodesInvalidIterator => -30,
            CodesInternal::CodesInvalidKeysIterator => -31,
            CodesInternal::CodesInvalidNearest => -32,
            CodesInternal::CodesInvalidOrderby => -33,
            CodesInternal::CodesMissingKey => -34,
            CodesInternal::CodesOutOfArea => -35,
            CodesInternal::CodesConceptNoMatch => -36,
            CodesInternal::CodesHashArrayNoMatch => -37,
            CodesInternal::CodesNoDefinitions => -38,
            CodesInternal::CodesWrongType => -39,
            CodesInternal::CodesEnd => -40,
            CodesInternal::CodesNoValues => -41,
            CodesInternal::CodesWrongGrid => -42,
            CodesInternal::CodesEndOfIndex => -43,
            CodesInternal::CodesNullIndex => -44,
            CodesInternal::CodesPrematureEndOfFile => -45,
            CodesInternal::CodesInternalArrayTooSmall => -46,
            CodesInternal::CodesMessageTooLarge => -47,
            CodesInternal::CodesConstantField => -48,
            CodesInternal::CodesSwitchNoMatch => -49,
            CodesInternal::CodesUnderflow => -50,
            CodesInternal::CodesMessageMalformed => -51,
            CodesInternal::CodesCorruptedIndex => -52,
            CodesInternal::CodesInvalidBpv => -53,
            CodesInternal::CodesDifferentEdition => -54,
            CodesInternal::CodesValueDifferent => -55,
            CodesInternal::CodesInvalidKeyValue => -56,
            CodesInternal::CodesStringTooSmall => -57,
            CodesInternal::CodesWrongConversion => -58,
            CodesInternal::CodesMissingBufrEntry => -59,
            CodesInternal::CodesNullPointer => -60,
            CodesInternal::CodesAttributeClash => -61,
            CodesInternal::CodesTooManyAttributes => -62,
            CodesInternal::CodesAttributeNotFound => -63,
            CodesInternal::CodesUnsupportedEdition => -64,
            CodesInternal::CodesOutOfRange => -65,
            CodesInternal::CodesWrongBitmapSize => -66,
            CodesInternal::CodesFunctionalityNotEnabled => -67,
        }
    }

    /// The error named by an ecCodes code, if the code is one of the known ones.
    pub open spec fn spec_from_code(code: int) -> Option<CodesInternal> {
        if code == 0 {
            Some(CodesInternal::CodesSuccess)
        } else if code == -1 {
            Some(CodesInternal::CodesEndOfFile)
        } else if code == -2 {
            Some(CodesInternal::CodesInternalError)
        } else if code == -3 {
            Some(CodesInternal::CodesBufferTooSmall)
        } else if code == -4 {
            Some(CodesInternal::CodesNotImplemented)
        } else if code == -5 {
            Some(CodesInternal::Codes7777NotFound)
        } else if code == -6 {
            Some(CodesInternal::CodesArrayTooSmall)
        } else if code == -7 {
            Some(CodesInternal::CodesFileNotFound)
        } else if code == -8 {
            Some(CodesInternal::CodesCodeNotFoundInTable)
        } else if code == -9 {
            Some(CodesInternal::CodesWrongArraySize)
        } else if code == -10 {
            Some(CodesInternal::CodesNotFound)
        } else if code == -11 {
            Some(CodesInternal::CodesIoProblem)
        } else if code == -12 {
            Some(CodesInternal::CodesInvalidMessage)
        } else if code == -13 {
            Some(CodesInternal::CodesDecodingError)
        } else if code == -14 {
            Some(CodesInternal::CodesEncodingError)
        } else if code == -15 {
            Some(CodesInternal::CodesNoMoreInSet)
        } else if code == -16 {
            Some(CodesInternal::CodesGeocalculusProblem)
        } else if code == -17 {
            Some(CodesInternal::CodesOutOfMemory)
        } else if code == -18 {
            Some(CodesInternal::CodesReadOnly)
        } else if code == -19 {
            Some(CodesInternal::CodesInvalidArgument)
        } else if code == -20 {
            Some(CodesInternal::CodesNullHandle)
        } else if code == -21 {
            Some(CodesInternal::CodesInvalidSectionNumber)
        } else if code == -22 {
            Some(CodesInternal::CodesValueCannotBeMissing)
        } else if code == -23 {
            Some(CodesInternal::CodesWrongLength)
        } else if code == -24 {
            Some(CodesInternal::CodesInvalidType)
        } else if code == -25 {
            Some(CodesInternal::CodesWrongStep)
        } else if code == -26 {
            Some(CodesInternal::CodesWrongStepUnit)
        } else if code == -27 {
            Some(CodesInternal::CodesInvalidFile)
        } else if code == -28 {
            Some(CodesInternal::CodesInvalidGrib)
        } else if code == -29 {
            Some(CodesInternal::CodesInvalidIndex)
        } else if code == -30 {
            Some(CodesInternal::CodesInvalidIterator)
        } else if code == -31 {
            Some(CodesInternal::CodesInvalidKeysIterator)
        } else if code == -32 {
            Some(CodesInternal::CodesInvalidNearest)
        } else if code == -33 {
            Some(CodesInternal::CodesInvalidOrderby)
        } else if code == -34 {
            Some(CodesInternal::CodesMissingKey)
        } else if code == -35 {
            Some(CodesInternal::CodesOutOfArea)
        } else if code == -36 {
            Some(CodesInternal::CodesConceptNoMatch)
        } else if code == -37 {
            Some(CodesInternal::CodesHashArrayNoMatch)
        } else if code == -38 {
            Some(CodesInternal::CodesNoDefinitions)
        } else if code == -39 {
            Some(CodesInternal::CodesWrongType)
        } else if code == -40 {
            Some(CodesInternal::CodesEnd)
        } else if code == -41 {
            Some(CodesInternal::CodesNoValues)
        } else if code == -42 {
            Some(CodesInternal::CodesWrongGrid)
        } else if code == -43 {
            Some(CodesInternal::CodesEndOfIndex)
        } else if code == -44 {
            Some(CodesInternal::CodesNullIndex)
        } else if code == -45 {
            Some(CodesInternal::CodesPrematureEndOfFile)
        } else if code == -46 {
            Some(CodesInternal::CodesInternalArrayTooSmall)
        } else if code == -47 {
            Some(CodesInternal::CodesMessageTooLarge)
        } else if code == -48 {
            Some(CodesInternal::CodesConstantField)
        } else if code == -49 {
            Some(CodesInternal::CodesSwitchNoMatch)
        } else if code == -50 {
            Some(CodesInternal::CodesUnderflow)
        } else if code == -51 {
            Some(CodesInternal::CodesMessageMalformed)
        } else if code == -52 {
            Some(CodesInternal::CodesCorruptedIndex)
        } else if code == -53 {
            Some(CodesInternal::CodesInvalidBpv)
        } else if code == -54 {
            Some(CodesInternal::CodesDifferentEdition)
        } else if code == -55 {
            Some(CodesInternal::CodesValueDifferent)
        } else if code == -56 {
            Some(CodesInternal::CodesInvalidKeyValue)
        } else if code == -57 {
            Some(CodesInternal::CodesStringTooSmall)
        } else if code == -58 {
            Some(CodesInternal::CodesWrongConversion)
        } else if code == -59 {
            Some(CodesInternal::CodesMissingBufrEntry)
        } else if code == -60 {
            Some(CodesInternal::CodesNullPointer)
        } else if code == -61 {
            Some(CodesInternal::CodesAttributeClash)
        } else if code == -62 {
            Some(CodesInternal::CodesTooManyAttributes)
        } else if code == -63 {
            Some(CodesInternal::CodesAttributeNotFound)
        } else if code == -64 {
            Some(CodesInternal::CodesUnsupportedEdition)
        } else if code == -65 {
            Some(CodesInternal::CodesOutOfRange)
        } else if code == -66 {
            Some(CodesInternal::CodesWrongBitmapSize)
        } else if code == -67 {
            Some(CodesInternal::CodesFunctionalityNotEnabled)
        } else {
            None
        }
    }

    /// Returns the numeric ecCodes code of this error.
    pub fn code(&self) -> (c: i32)
        ensures
            c == self.spec_code(),
    {
        match self {
            CodesInternal::CodesSuccess => 0i32,
            CodesInternal::CodesEndOfFile => -1i32,
            CodesInternal::CodesInternalError => -2i32,
            CodesInternal::CodesBufferTooSmall => -3i32,
            CodesInternal::CodesNotImplemented => -4i32,
            CodesInternal::Codes7777NotFound => -5i32,
            CodesInternal::CodesArrayTooSmall => -6i32,
            CodesInternal::CodesFileNotFound => -7i32,
            CodesInternal::CodesCodeNotFoundInTable => -8i32,
            CodesInternal::CodesWrongArraySize => -9i32,
            CodesInternal::CodesNotFound => -10i32,
            CodesInternal::CodesIoProblem => -11i32,
            CodesInternal::CodesInvalidMessage => -12i32,
            CodesInternal::CodesDecodingError => -13i32,
            CodesInternal::CodesEncodingError => -14i32,
            CodesInternal::CodesNoMoreInSet => -15i32,
            CodesInternal::CodesGeocalculusProblem => -16i32,
            CodesInternal::CodesOutOfMemory => -17i32,
            CodesInternal::CodesReadOnly => -18i32,
            CodesInternal::CodesInvalidArgument => -19i32,
            CodesInternal::CodesNullHandle => -20i32,
            CodesInternal::CodesInvalidSectionNumber => -21i32,
            CodesInternal::CodesValueCannotBeMissing => -22i32,
            CodesInternal::CodesWrongLength => -23i32,
            CodesInternal::CodesInvalidType => -24i32,
            CodesInternal::CodesWrongStep => -25i32,
            CodesInternal::CodesWrongStepUnit => -26i32,
            CodesInternal::CodesInvalidFile => -27i32,
            CodesInternal::CodesInvalidGrib => -28i32,
            CodesInternal::CodesInvalidIndex => -29i32,
            CodesInternal::CodesInvalidIterator => -30i32,
            CodesInternal::CodesInvalidKeysIterator => -31i32,
            CodesInternal::CodesInvalidNearest => -32i32,
            CodesInternal::CodesInvalidOrderby => -33i32,
            CodesInternal::CodesMissingKey => -34i32,
            CodesInternal::CodesOutOfArea => -35i32,
            CodesInternal::CodesConceptNoMatch => -36i32,
            CodesInternal::CodesHashArrayNoMatch => -37i32,
            CodesInternal::CodesNoDefinitions => -38i32,
            CodesInternal::CodesWrongType => -39i32,
            CodesInternal::CodesEnd => -40i32,
            CodesInternal::CodesNoValues => -41i32,
            CodesInternal::CodesWrongGrid => -42i32,
            CodesInternal::CodesEndOfIndex => -43i32,
            CodesInternal::CodesNullIndex => -44i32,
            CodesInternal::CodesPrematureEndOfFile => -45i32,
            CodesInternal::CodesInternalArrayTooSmall => -46i32,
            CodesInternal::CodesMessageTooLarge => -47i32,
            CodesInternal::CodesConstantField => -48i32,
            CodesInternal::CodesSwitchNoMatch => -49i32,
            CodesInternal::CodesUnderflow => -50i32,
            CodesInternal::CodesMessageMalformed => -51i32,
            CodesInternal::CodesCorruptedIndex => -52i32,
            CodesInternal::CodesInvalidBpv => -53i32,
            CodesInternal::CodesDifferentEdition => -54i32,
            CodesInternal::CodesValueDifferent => -55i32,
            CodesInternal::CodesInvalidKeyValue => -56i32,
            CodesInternal::CodesStringTooSmall => -57i32,
            CodesInternal::CodesWrongConversion => -58i32,
            CodesInternal::CodesMissingBufrEntry => -59i32,
            CodesInternal::CodesNullPointer => -60i32,
            CodesInternal::CodesAttributeClash => -61i32,
            CodesInternal::CodesTooManyAttributes => -62i32,
            CodesInternal::CodesAttributeNotFound => -63i32,
            CodesInternal::CodesUnsupportedEdition => -64i32,
            CodesInternal::CodesOutOfRange => -65i32,
            CodesInternal::CodesWrongBitmapSize => -66i32,
            CodesInternal::CodesFunctionalityNotEnabled => -67i32,
        }
    }

    /// Returns the error named by the ecCodes code `code`, or `None` for an unknown code.
    pub fn from_code(code: i32) -> (r: Option<CodesInternal>)
        ensures
            r == Self::spec_from_code(code as int),
    {
        match code {
            0i32 => Some(CodesInternal::CodesSuccess),
            -1i32 => Some(CodesInternal::CodesEndOfFile),
            -2i32 => Some(CodesInternal::CodesInternalError),
            -3i32 => Some(CodesInternal::CodesBufferTooSmall),
            -4i32 => Some(CodesInternal::CodesNotImplemented),
            -5i32 => Some(CodesInternal::Codes7777NotFound),
            -6i32 => Some(CodesInternal::CodesArrayTooSmall),
            -7i32 => Some(CodesInternal::CodesFileNotFound),
            -8i32 => Some(CodesInternal::CodesCodeNotFoundInTable),
            -9i32 => Some(CodesInternal::CodesWrongArraySize),
            -10i32 => Some(CodesInternal::CodesNotFound),
            -11i32 => Some(CodesInternal::CodesIoProblem),
            -12i32 => Some(CodesInternal::CodesInvalidMessage),
            -13i32 => Some(CodesInternal::CodesDecodingError),
            -14i32 => Some(CodesInternal::CodesEncodingError),
            -15i32 => Some(CodesInternal::CodesNoMoreInSet),
            -16i32 => Some(CodesInternal::CodesGeocalculusProblem),
            -17i32 => Some(CodesInternal::CodesOutOfMemory),
            -18i32 => Some(CodesInternal::CodesReadOnly),
            -19i32 => Some(CodesInternal::CodesInvalidArgument),
            -20i32 => Some(CodesInternal::CodesNullHandle),
            -21i32 => Some(CodesInternal::CodesInvalidSectionNumber),
            -22i32 => Some(CodesInternal::CodesValueCannotBeMissing),
            -23i32 => Some(CodesInternal::CodesWrongLength),
            -24i32 => Some(CodesInternal::CodesInvalidType),
            -25i32 => Some(CodesInternal::CodesWrongStep),
            -26i32 => Some(CodesInternal::CodesWrongStepUnit),
            -27i32 => Some(CodesInternal::CodesInvalidFile),
            -28i32 => Some(CodesInternal::CodesInvalidGrib),
            -29i32 => Some(CodesInternal::CodesInvalidIndex),
            -30i32 => Some(CodesInternal::CodesInvalidIterator),
            -31i32 => Some(CodesInternal::CodesInvalidKeysIterator),
            -32i32 => Some(CodesInternal::CodesInvalidNearest),
            -33i32 => Some(CodesInternal::CodesInvalidOrderby),
            -34i32 => Some(CodesInternal::CodesMissingKey),
            -35i32 => Some(CodesInternal::CodesOutOfArea),
            -36i32 => Some(CodesInternal::CodesConceptNoMatch),
            -37i32 => Some(CodesInternal::CodesHashArrayNoMatch),
            -38i32 => Some(CodesInternal::CodesNoDefinitions),
            -39i32 => Some(CodesInternal::CodesWrongType),
            -40i32 => Some(CodesInternal::CodesEnd),
            -41i32 => Some(CodesInternal::CodesNoValues),
            -42i32 => Some(CodesInternal::CodesWrongGrid),
            -43i32 => Some(CodesInternal::CodesEndOfIndex),
            -44i32 => Some(CodesInternal::CodesNullIndex),
            -45i32 => Some(CodesInternal::CodesPrematureEndOfFile),
            -46i32 => Some(CodesInternal::CodesInternalArrayTooSmall),
            -47i32 => Some(CodesInternal::CodesMessageTooLarge),
            -48i32 => Some(CodesInternal::CodesConstantField),
            -49i32 => Some(CodesInternal::CodesSwitchNoMatch),
            -50i32 => Some(CodesInternal::CodesUnderflow),
            -51i32 => Some(CodesInternal::CodesMessageMalformed),
            -52i32 => Some(CodesInternal::CodesCorruptedIndex),
            -53i32 => Some(CodesInternal::CodesInvalidBpv),
            -54i32 => Some(CodesInternal::CodesDifferentEdition),
            -55i32 => Some(CodesInternal::CodesValueDifferent),
            -56i32 => Some(CodesInternal::CodesInvalidKeyValue),
            -57i32 => Some(CodesInternal::CodesStringTooSmall),
            -58i32 => Some(CodesInternal::CodesWrongConversion),
            -59i32 => Some(CodesInternal::CodesMissingBufrEntry),
            -60i32 => Some(CodesInternal::CodesNullPointer),
            -61i32 => Some(CodesInternal::CodesAttributeClash),
            -62i32 => Some(CodesInternal::CodesTooManyAttributes),
            -63i32 => Some(CodesInternal::CodesAttributeNotFound),
            -64i32 => Some(CodesInternal::CodesUnsupportedEdition),
            -65i32 => Some(CodesInternal::CodesOutOfRange),
            -66i32 => Some(CodesInternal::CodesWrongBitmapSize),
            -67i32 => Some(CodesInternal::CodesFunctionalityNotEnabled),
            _ => None,
        }
    }
}

/// Every error is found again from its own code.
pub proof fn lemma_code_then_from_code(e: CodesInternal)
    ensures
        CodesInternal::spec_from_code(e.spec_code()) == Some(e),
{
}

/// A known code names the error whose code it is.
pub proof fn lemma_from_code_then_code(code: int)
    ensures
        CodesInternal::spec_from_code(code) matches Some(e) ==> e.spec_code() == code,
        CodesInternal::spec_from_code(code) is Some <==> -67 <= code <= 0,
{
}

/// Turns the status code returned by an ecCodes function into a `Result`:
/// 0 means success, any other known code becomes [`CodesError::Internal`].
pub fn error_code_to_result(code: i32) -> (r: Result<(), CodesError>)
    requires
        -67 <= code <= 0,
    ensures
        code == 0 <==> r is Ok,
        code != 0 ==> (r matches Err(CodesError::Internal(e)) && e.spec_code() == code),
{
    if code == 0 {
        Ok(())
    } else {
        match CodesInternal::from_code(code) {
            Some(e) => Err(CodesError::Internal(e)),
            None => {
                // every code in the admitted range is a known one
                proof {
                    assert(false);
                }
                Ok(())
            },
        }
    }
}

} // verus!
