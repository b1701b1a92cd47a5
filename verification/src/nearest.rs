//! Gridpoints found by the nearest-neighbour search of ecCodes.

use vstd::prelude::*;

verus! {

/// A gridpoint returned by a nearest-neighbour search; `F` is the floating-point type.
#[derive(Copy, Clone, PartialEq, Debug, Default)]
pub struct NearestGridpoint<F> {
    /// Index of this gridpoint.
    pub index: i32,
    /// Latitude of this gridpoint in degrees north.
    pub lat: F,
    /// Longitude of this gridpoint in degrees east.
    pub lon: F,
    /// Distance between the requested point and this gridpoint in kilometers.
    pub distance: F,
    /// Value of the message at this gridpoint.
    pub value: F,
}

/// Flags passed to `codes_grib_nearest_find`: `CODES_NEAREST_SAME_GRID` (1) plus
/// `CODES_NEAREST_SAME_DATA` (2), since a search handle is always used on one message.
pub fn nearest_search_flags() -> (f: u32)
    ensures
        f == 1 + 2,
{
    1 + 2
}

/// Gathers the four arrays written by `codes_grib_nearest_find` into four gridpoints:
/// gridpoint `k` takes element `k` of each array.
pub fn gather_gridpoints<F: Copy>(
    lats: &[F; 4],
    lons: &[F; 4],
    values: &[F; 4],
    distances: &[F; 4],
    indexes: &[i32; 4],
) -> (out: Vec<NearestGridpoint<F>>)
    ensures
        out.len() == 4,
        forall|k: int|
            0 <= k < 4 ==> (#[trigger] out@[k] == (NearestGridpoint {
                index: indexes@[k],
                lat: lats@[k],
                lon: lons@[k],
                distance: distances@[k],
                value: values@[k],
            })),
{
    let mut out: Vec<NearestGridpoint<F>> = Vec::new();
    let mut k: usize = 0;
    while k < 4
        invariant
            k <= 4,
            out.len() == k,
            forall|m: int|
                0 <= m < k ==> (#[trigger] out@[m] == (NearestGridpoint {
                    index: indexes@[m],
                    lat: lats@[m],
                    lon: lons@[m],
                    distance: distances@[m],
                    value: values@[m],
                })),
        decreases 4 - k,
    {
        out.push(
            NearestGridpoint {
                index: indexes[k],
                lat: lats[k],
                lon: lons[k],
                distance: distances[k],
                value: values[k],
            },
        );
        k = k + 1;
    }
    out
}

} // verus!
