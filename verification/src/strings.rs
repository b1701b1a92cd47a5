//! Conversion of the strings that ecCodes writes into buffers to Rust strings.

use vstd::prelude::*;
use vstd::utf8::{decode_utf8, valid_utf8};

use crate::errors::CodesError;

verus! {

/// Calls `CStr::from_bytes_with_nul` of the standard library and copies out the bytes of
/// the C string without its terminator.
///
/// As documented there, the call succeeds exactly when the slice ends with a nul byte and
/// holds no other nul byte; the C string then holds the bytes before the terminator.
#[verifier::external_body]
fn c_str_bytes(bytes: &[u8]) -> (r: Result<Vec<u8>, core::ffi::FromBytesWithNulError>)
    ensures
        r is Ok <==> (bytes@.len() > 0 && bytes@.last() == 0u8 && !bytes@.drop_last().contains(
            0u8,
        )),
        r matches Ok(c) ==> c@ == bytes@.drop_last(),
{
    match core::ffi::CStr::from_bytes_with_nul(bytes) {
        Ok(c) => Ok(c.to_bytes().to_vec()),
        Err(e) => Err(e),
    }
}

/// Calls `str::from_utf8` of the standard library and copies the string out.
///
/// As documented there, the call succeeds exactly when the bytes are valid UTF-8, and the
/// string then holds the characters that the bytes encode.
#[verifier::external_body]
fn str_from_utf8(bytes: &[u8]) -> (r: Result<String, core::str::Utf8Error>)
    ensures
        r is Ok <==> valid_utf8(bytes@),
        r matches Ok(s) ==> s@ == decode_utf8(bytes@),
{
    match core::str::from_utf8(bytes) {
        Ok(s) => Ok(s.to_owned()),
        Err(e) => Err(e),
    }
}

/// Decodes bytes returned by ecCodes as a UTF-8 string.
///
/// Fails with [`CodesError::CstrUTF8`] when the bytes are not valid UTF-8.
pub fn string_from_utf8(bytes: &[u8]) -> (r: Result<String, CodesError>)
    ensures
        r is Ok <==> valid_utf8(bytes@),
        r matches Ok(s) ==> s@ == decode_utf8(bytes@),
        r is Err ==> r matches Err(CodesError::CstrUTF8(_)),
{
    match str_from_utf8(bytes) {
        Ok(s) => Ok(s),
        Err(e) => Err(CodesError::CstrUTF8(e)),
    }
}

/// The first `length` bytes of `buffer`, or all of them when it is shorter.
pub open spec fn truncated(buffer: Seq<u8>, length: int) -> Seq<u8> {
    if length < buffer.len() {
        buffer.take(length)
    } else {
        buffer
    }
}

/// Bytes of the C string held in `bytes`: the bytes before a final nul byte when that is
/// the only nul byte, all the bytes when there is no nul byte, and nothing otherwise.
pub open spec fn c_string_content(bytes: Seq<u8>) -> Option<Seq<u8>> {
    if bytes.len() > 0 && bytes.last() == 0u8 && !bytes.drop_last().contains(0u8) {
        Some(bytes.drop_last())
    } else if !bytes.contains(0u8) {
        Some(bytes)
    } else {
        None
    }
}

/// Turns the buffer filled by `codes_get_string` into a string.
///
/// `length` is the length that ecCodes reported; the buffer is cut to it. The result is the
/// C string in the buffer, whether or not ecCodes wrote its nul terminator.
///
/// Fails with [`CodesError::NulChar`] when a nul byte stands before the end, and with
/// [`CodesError::CstrUTF8`] when the string is not valid UTF-8.
pub fn string_from_c_buffer(buffer: Vec<u8>, length: usize) -> (r: Result<String, CodesError>)
    ensures
        match c_string_content(truncated(buffer@, length as int)) {
            None => r matches Err(CodesError::NulChar(_)),
            Some(content) => if valid_utf8(content) {
                r matches Ok(s) && s@ == decode_utf8(content)
            } else {
                r matches Err(CodesError::CstrUTF8(_))
            },
        },
{
    let mut bytes = buffer;
    bytes.truncate(length);
    let ghost t = bytes@;
    assert(t == truncated(buffer@, length as int));
    let content = match c_str_bytes(bytes.as_slice()) {
        Ok(c) => c,
        Err(_) => {
            bytes.push(0u8);
            assert(bytes@.drop_last() =~= t);
            assert(bytes@.last() == 0u8);
            match c_str_bytes(bytes.as_slice()) {
                Ok(c) => c,
                Err(e) => {
                    return Err(CodesError::NulChar(e));
                },
            }
        },
    };
    string_from_utf8(content.as_slice())
}

} // verus!
