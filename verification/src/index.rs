//! Decisions taken when an index of GRIB files is built and read.

use vstd::prelude::*;
use vstd::string::StringExecFns;

use crate::errors::{error_code_to_result, CodesError, CodesInternal};

verus! {

/// The strings of `keys` joined, with `sep` between each two of them.
pub open spec fn joined(keys: Seq<Seq<char>>, sep: Seq<char>) -> Seq<char>
    decreases keys.len(),
{
    if keys.len() == 0 {
        Seq::empty()
    } else if keys.len() == 1 {
        keys[0]
    } else {
        joined(keys.drop_last(), sep) + sep + keys.last()
    }
}

/// Builds the list of key names passed to `codes_index_new`: the names joined by commas.
pub fn join_keys(keys: &[&str]) -> (r: String)
    ensures
        r@ == joined(keys@.map_values(|k: &str| k@), ","@),
{
    let ghost names = keys@.map_values(|k: &str| k@);
    let mut r = String::new();
    let mut n: usize = 0;
    while n < keys.len()
        invariant
            n <= keys.len(),
            names == keys@.map_values(|k: &str| k@),
            r@ == joined(names.take(n as int), ","@),
        decreases keys.len() - n,
    {
        assert(names.take(n as int + 1).drop_last() =~= names.take(n as int));
        if n > 0 {
            r.append(",");
        }
        r.append(keys[n]);
        proof {
            if n == 0 {
                assert(names.take(1) =~= seq![names[0]]);
            }
        }
        n = n + 1;
    }
    assert(names.take(keys.len() as int) =~= names);
    r
}

/// Turns the status code of `codes_handle_new_from_index` into a `Result`.
///
/// Besides 0, the code of the end of the index ([`CodesInternal::CodesEndOfIndex`], -43)
/// counts as success: ecCodes reports with it that no message is left, and then gives a null
/// handle. Any other known code becomes [`CodesError::Internal`].
pub fn index_handle_status(code: i32) -> (r: Result<(), CodesError>)
    requires
        -67 <= code <= 0,
    ensures
        r is Ok <==> (code == 0 || code == -43),
        r is Err ==> (r matches Err(CodesError::Internal(e)) && e.spec_code() == code),
{
    if code == -43 {
        Ok(())
    } else {
        error_code_to_result(code)
    }
}

} // verus!
