//! Layout of the values of a message on a regular grid.
//!
//! ecCodes returns the values of a message on a regular `Ni` x `Nj` grid as one flat
//! array. When `jPointsAreConsecutive` is 0 the array runs along `i` first (row after row),
//! when it is 1 the array runs along `j` first (column after column). The functions here
//! check the keys that describe the grid and lay the values out row after row, so that the
//! value of column `i` in row `j` stands at `j * Ni + i` whatever the scanning mode was.

use vstd::prelude::*;

use crate::errors::{CodesError, MessageNdarrayError};

verus! {

/// Position of column `i` in row `j` in a row-major array with `ni` columns.
pub open spec fn cell(i: int, j: int, ni: int) -> int {
    j * ni + i
}

/// Position, in the flat array returned by ecCodes, of the grid point in column `i`, row `j`.
pub open spec fn source_index(i: int, j: int, ni: int, nj: int, j_consecutive: bool) -> int {
    if j_consecutive {
        i * nj + j
    } else {
        j * ni + i
    }
}

/// The three arrays of [`lons_lats_values_layout`], each laid out row after row.
#[derive(Debug)]
pub struct LonsLatsValues<T> {
    /// Longitudes of the grid points.
    pub longitudes: Vec<T>,
    /// Latitudes of the grid points.
    pub latitudes: Vec<T>,
    /// Values at the grid points.
    pub values: Vec<T>,
}

/// `out` holds the `ni * nj` values of `vals`, given in the order ecCodes returns them,
/// laid out row after row: the value of column `i` in row `j` stands at `j * ni + i`.
pub open spec fn values_laid_out<T>(out: Seq<T>, vals: Seq<T>, ni: int, nj: int, j_consecutive: bool) -> bool {
    &&& out.len() == ni * nj
    &&& forall|i: int, j: int|
        0 <= i < ni && 0 <= j < nj ==> #[trigger] out[cell(i, j, ni)] == vals[source_index(
            i,
            j,
            ni,
            nj,
            j_consecutive,
        )]
}

/// `out` holds the latitudes, longitudes and values of `lat_lon_values`, which gives a
/// latitude, a longitude and a value for each grid point in the order ecCodes returns the
/// points, each array laid out row after row.
pub open spec fn lons_lats_values_laid_out<T>(
    out: LonsLatsValues<T>,
    lat_lon_values: Seq<T>,
    ni: int,
    nj: int,
    j_consecutive: bool,
) -> bool {
    &&& out.latitudes@.len() == ni * nj
    &&& out.longitudes@.len() == ni * nj
    &&& out.values@.len() == ni * nj
    &&& forall|i: int, j: int|
        0 <= i < ni && 0 <= j < nj ==> {
            let k = source_index(i, j, ni, nj, j_consecutive);
            &&& #[trigger] out.latitudes@[cell(i, j, ni)] == lat_lon_values[3 * k]
            &&& out.longitudes@[cell(i, j, ni)] == lat_lon_values[3 * k + 1]
            &&& out.values@[cell(i, j, ni)] == lat_lon_values[3 * k + 2]
        }
}

proof fn lemma_cell_bounds(i: int, j: int, ni: int, nj: int)
    requires
        0 <= i < ni,
        0 <= j < nj,
    ensures
        0 <= j * ni + i < ni * nj,
        0 <= i * nj + j < ni * nj,
{
    assert(0 <= j * ni + i < ni * nj) by (nonlinear_arith)
        requires
            0 <= i < ni,
            0 <= j < nj,
    ;
    assert(0 <= i * nj + j < ni * nj) by (nonlinear_arith)
        requires
            0 <= i < ni,
            0 <= j < nj,
    ;
}

proof fn lemma_earlier_row(ii: int, jj: int, j: int, ni: int)
    requires
        0 <= ii < ni,
        0 <= jj < j,
    ensures
        jj * ni + ii < j * ni,
        0 <= jj * ni + ii,
{
    assert(jj * ni + ii < j * ni) by (nonlinear_arith)
        requires
            0 <= ii < ni,
            0 <= jj < j,
    ;
    assert(0 <= jj * ni + ii) by (nonlinear_arith)
        requires
            0 <= ii < ni,
            0 <= jj,
    ;
}

/// Converts a grid dimension read from the `Ni` or `Nj` key to `usize`.
///
/// Fails with [`MessageNdarrayError::IntCasting`] when the value is negative or does not fit.
pub fn grid_dimension(n: i64) -> (r: Result<usize, CodesError>)
    ensures
        r is Ok <==> 0 <= n <= usize::MAX,
        r matches Ok(d) ==> d == n,
        r is Err ==> r matches Err(CodesError::NdarrayConvert(MessageNdarrayError::IntCasting(_))),
{
    match usize::try_from(n) {
        Ok(d) => Ok(d),
        Err(e) => Err(CodesError::NdarrayConvert(MessageNdarrayError::IntCasting(e))),
    }
}

/// The length that [`check_values_length`] reports as expected: the product
/// `ni * nj * per_point`, or `usize::MAX` where the product does not fit in `usize`.
pub open spec fn reported_length(ni: int, nj: int, per_point: int) -> int {
    if ni * nj * per_point <= usize::MAX {
        ni * nj * per_point
    } else {
        usize::MAX as int
    }
}

/// Checks that an array read from a message holds `per_point` numbers for each of the
/// `ni * nj` grid points.
///
/// Fails with [`MessageNdarrayError::UnexpectedValuesLength`] holding the actual and the
/// expected length otherwise. Where `ni * nj * per_point` does not fit in `usize` no array
/// can have that length: the check fails and reports `usize::MAX` as the expected length.
pub fn check_values_length(len: usize, ni: usize, nj: usize, per_point: usize) -> (r: Result<
    (),
    CodesError,
>)
    ensures
        r is Ok <==> len == ni * nj * per_point,
        r is Err ==> (r matches Err(
            CodesError::NdarrayConvert(MessageNdarrayError::UnexpectedValuesLength(actual, expected)),
        ) && actual == len && expected == reported_length(ni as int, nj as int, per_point as int)),
{
    let expected: Option<usize> = if ni == 0 || nj == 0 || per_point == 0 {
        assert(ni * nj * per_point == 0) by (nonlinear_arith)
            requires
                ni == 0 || nj == 0 || per_point == 0,
        ;
        Some(0)
    } else {
        match ni.checked_mul(nj) {
            Some(n) => match n.checked_mul(per_point) {
                Some(e) => Some(e),
                None => None,
            },
            None => {
                assert(ni * nj * per_point >= ni * nj) by (nonlinear_arith)
                    requires
                        per_point >= 1,
                ;
                None
            },
        }
    };
    match expected {
        Some(e) => {
            if len == e {
                Ok(())
            } else {
                Err(CodesError::NdarrayConvert(MessageNdarrayError::UnexpectedValuesLength(len, e)))
            }
        },
        None => Err(
            CodesError::NdarrayConvert(MessageNdarrayError::UnexpectedValuesLength(len, usize::MAX)),
        ),
    }
}

/// Reads the value of the `jPointsAreConsecutive` key: 0 is `false`, 1 is `true`.
///
/// Fails with [`MessageNdarrayError::UnexpectedKeyValue`] naming the key for any other value.
pub fn points_are_consecutive(flag: i64) -> (r: Result<bool, CodesError>)
    ensures
        r is Ok <==> (flag == 0 || flag == 1),
        r matches Ok(b) ==> b == (flag == 1),
        r is Err ==> (r matches Err(
            CodesError::NdarrayConvert(MessageNdarrayError::UnexpectedKeyValue(key)),
        ) && key@ == "jPointsAreConsecutive"@),
{
    if flag == 0 {
        Ok(false)
    } else if flag == 1 {
        Ok(true)
    } else {
        let key = "jPointsAreConsecutive".to_owned();
        Err(CodesError::NdarrayConvert(MessageNdarrayError::UnexpectedKeyValue(key)))
    }
}

proof fn lemma_strided_bounds(k: int, n: int, stride: int, offset: int)
    requires
        0 <= k < n,
        0 <= offset < stride,
    ensures
        0 <= k * stride + offset < n * stride,
{
    assert(0 <= k * stride + offset < n * stride) by (nonlinear_arith)
        requires
            0 <= k < n,
            0 <= offset < stride,
    ;
}

/// Takes number `offset` of the `stride` numbers given for each grid point and lays the
/// grid out row after row.
fn strided_layout<T: Copy>(
    vals: &Vec<T>,
    ni: usize,
    nj: usize,
    j_consecutive: bool,
    stride: usize,
    offset: usize,
) -> (out: Vec<T>)
    requires
        vals.len() == ni * nj * stride,
        offset < stride,
    ensures
        out.len() == ni * nj,
        forall|i: int, j: int|
            0 <= i < ni && 0 <= j < nj ==> #[trigger] out@[cell(i, j, ni as int)] == vals@[
            source_index(i, j, ni as int, nj as int, j_consecutive) * stride + offset],
{
    assert(ni * nj <= ni * nj * stride) by (nonlinear_arith)
        requires
            offset < stride,
    ;
    let mut out: Vec<T> = Vec::new();
    let mut j: usize = 0;
    while j < nj
        invariant
            vals.len() == ni * nj * stride,
            ni * nj <= usize::MAX,
            offset < stride,
            j <= nj,
            out.len() == j * ni,
            forall|ii: int, jj: int|
                0 <= ii < ni && 0 <= jj < j ==> #[trigger] out@[cell(ii, jj, ni as int)] == vals@[
                source_index(ii, jj, ni as int, nj as int, j_consecutive) * stride + offset],
        decreases nj - j,
    {
        let mut i: usize = 0;
        while i < ni
            invariant
                vals.len() == ni * nj * stride,
                ni * nj <= usize::MAX,
                offset < stride,
                j < nj,
                i <= ni,
                out.len() == j * ni + i,
                forall|ii: int, jj: int|
                    0 <= ii < ni && 0 <= jj < j ==> #[trigger] out@[cell(ii, jj, ni as int)]
                        == vals@[source_index(ii, jj, ni as int, nj as int, j_consecutive) * stride
                        + offset],
                forall|ii: int|
                    0 <= ii < i ==> #[trigger] out@[cell(ii, j as int, ni as int)] == vals@[
                    source_index(ii, j as int, ni as int, nj as int, j_consecutive) * stride
                        + offset],
            decreases ni - i,
        {
            proof {
                lemma_cell_bounds(i as int, j as int, ni as int, nj as int);
            }
            let k = if j_consecutive {
                i * nj + j
            } else {
                j * ni + i
            };
            proof {
                lemma_strided_bounds(k as int, (ni * nj) as int, stride as int, offset as int);
            }
            let ghost before = out@;
            out.push(vals[k * stride + offset]);
            proof {
                assert forall|ii: int, jj: int|
                    0 <= ii < ni && 0 <= jj < j implies #[trigger] out@[cell(ii, jj, ni as int)]
                    == vals@[source_index(ii, jj, ni as int, nj as int, j_consecutive) * stride
                    + offset] by {
                    lemma_earlier_row(ii, jj, j as int, ni as int);
                    assert(out@[cell(ii, jj, ni as int)] == before[cell(ii, jj, ni as int)]);
                }
                assert forall|ii: int| 0 <= ii < i + 1 implies #[trigger] out@[cell(
                    ii,
                    j as int,
                    ni as int,
                )] == vals@[source_index(ii, j as int, ni as int, nj as int, j_consecutive)
                    * stride + offset] by {
                    if ii < i {
                        assert(out@[cell(ii, j as int, ni as int)] == before[cell(
                            ii,
                            j as int,
                            ni as int,
                        )]);
                    }
                }
            }
            i = i + 1;
        }
        proof {
            assert((j + 1) * ni == j * ni + ni) by (nonlinear_arith);
            assert forall|ii: int, jj: int|
                0 <= ii < ni && 0 <= jj < j + 1 implies #[trigger] out@[cell(ii, jj, ni as int)]
                == vals@[source_index(ii, jj, ni as int, nj as int, j_consecutive) * stride
                + offset] by {
                if jj == j {
                    assert(out@[cell(ii, j as int, ni as int)] == vals@[source_index(
                        ii,
                        j as int,
                        ni as int,
                        nj as int,
                        j_consecutive,
                    ) * stride + offset]);
                }
            }
        }
        j = j + 1;
    }
    assert(j * ni == ni * nj) by (nonlinear_arith)
        requires
            j == nj,
    ;
    out
}

/// Lays out the `ni * nj` values of a grid row after row: the value of column `i` in row
/// `j` goes to position `j * ni + i`.
pub fn grid_values_layout<T: Copy>(vals: &Vec<T>, ni: usize, nj: usize, j_consecutive: bool) -> (out:
    Vec<T>)
    requires
        vals.len() == ni * nj,
    ensures
        values_laid_out(out@, vals@, ni as int, nj as int, j_consecutive),
{
    assert(ni * nj * 1 == ni * nj);
    strided_layout(vals, ni, nj, j_consecutive, 1, 0)
}

/// Splits the `latLonValues` array of a message, which holds a latitude, a longitude and a
/// value for each of the `ni * nj` grid points, into three arrays laid out row after row.
pub fn lons_lats_values_layout<T: Copy>(
    lat_lon_values: &Vec<T>,
    ni: usize,
    nj: usize,
    j_consecutive: bool,
) -> (out: LonsLatsValues<T>)
    requires
        lat_lon_values.len() == ni * nj * 3,
    ensures
        lons_lats_values_laid_out(out, lat_lon_values@, ni as int, nj as int, j_consecutive),
{
    let latitudes = strided_layout(lat_lon_values, ni, nj, j_consecutive, 3, 0);
    let longitudes = strided_layout(lat_lon_values, ni, nj, j_consecutive, 3, 1);
    let values = strided_layout(lat_lon_values, ni, nj, j_consecutive, 3, 2);
    LonsLatsValues { longitudes, latitudes, values }
}

/// When the points of a row are consecutive (`jPointsAreConsecutive` is 0), the values are
/// already laid out row after row: the layout of [`grid_values_layout`] is the array itself.
pub proof fn lemma_row_major_layout_is_identity<T>(vals: Seq<T>, out: Seq<T>, ni: int, nj: int)
    requires
        0 <= ni,
        0 <= nj,
        vals.len() == ni * nj,
        values_laid_out(out, vals, ni, nj, false),
    ensures
        out == vals,
{
    assert forall|k: int| 0 <= k < vals.len() implies out[k] == vals[k] by {
        lemma_cell_of_position(k, ni, nj);
        assert(out[cell(k % ni, k / ni, ni)] == vals[source_index(k % ni, k / ni, ni, nj, false)]);
    }
    assert(out =~= vals);
}


/// Position `k` of a row-major array with `ni` columns holds column `k % ni` of row `k / ni`.
proof fn lemma_cell_of_position(k: int, ni: int, nj: int)
    requires
        0 <= ni,
        0 <= nj,
        0 <= k < ni * nj,
    ensures
        ni > 0,
        0 <= k % ni < ni,
        0 <= k / ni < nj,
        cell(k % ni, k / ni, ni) == k,
{
    assert(ni > 0) by (nonlinear_arith)
        requires
            0 <= k < ni * nj,
            0 <= ni,
            0 <= nj,
    ;
    let i = k % ni;
    let j = k / ni;
    vstd::arithmetic::div_mod::lemma_fundamental_div_mod(k, ni);
    vstd::arithmetic::div_mod::lemma_mod_bound(k, ni);
    vstd::arithmetic::div_mod::lemma_div_pos_is_pos(k, ni);
    assert(j * ni + i == k) by (nonlinear_arith)
        requires
            k == ni * j + i,
    ;
    assert(j < nj) by (nonlinear_arith)
        requires
            j * ni + i == k,
            k < ni * nj,
            0 <= i,
            ni > 0,
    ;
}

/// The values that [`lons_lats_values_layout`] takes from `latLonValues` are those that
/// [`grid_values_layout`] lays out from `values`, point for point, wherever `latLonValues`
/// gives for each grid point the value that `values` gives for it, as ecCodes does for the
/// two keys of one message.
pub proof fn lemma_lat_lon_values_agree_with_values<T>(
    vals: Seq<T>,
    lat_lon_values: Seq<T>,
    grid: Seq<T>,
    split: LonsLatsValues<T>,
    ni: int,
    nj: int,
    j_consecutive: bool,
)
    requires
        0 <= ni,
        0 <= nj,
        vals.len() == ni * nj,
        lat_lon_values.len() == ni * nj * 3,
        forall|k: int| 0 <= k < ni * nj ==> #[trigger] lat_lon_values[3 * k + 2] == vals[k],
        values_laid_out(grid, vals, ni, nj, j_consecutive),
        lons_lats_values_laid_out(split, lat_lon_values, ni, nj, j_consecutive),
    ensures
        split.values@ == grid,
{
    assert forall|p: int| 0 <= p < grid.len() implies split.values@[p] == grid[p] by {
        lemma_cell_of_position(p, ni, nj);
        let i = p % ni;
        let j = p / ni;
        lemma_cell_bounds(i, j, ni, nj);
        let k = source_index(i, j, ni, nj, j_consecutive);
        assert(split.latitudes@[cell(i, j, ni)] == lat_lon_values[3 * k]);
        assert(lat_lon_values[3 * k + 2] == vals[k]);
        assert(grid[cell(i, j, ni)] == vals[k]);
    }
    assert(split.values@ =~= grid);
}

} // verus!
