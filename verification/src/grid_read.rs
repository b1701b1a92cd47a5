//! Decisions taken while the grid of a message is read into arrays.
//!
//! Reading the grid takes four key reads: `Ni`, `Nj`, the array of the grid (`values` or
//! `latLonValues`) and `jPointsAreConsecutive`, in this order. Each answer is checked before
//! the next key is read, and the first check that fails ends the read with its error. The
//! functions here take those decisions: from the state of a read and the answer to the last
//! query they give the next query, or the arrays laid out row after row. The caller reads
//! the keys.

use vstd::prelude::*;

use crate::errors::{CodesError, MessageNdarrayError};
use crate::grid::{
    check_values_length, grid_dimension, grid_values_layout, lons_lats_values_laid_out,
    lons_lats_values_layout, points_are_consecutive, reported_length, values_laid_out,
    LonsLatsValues,
};

verus! {

/// The array of a message that a grid is read from.
#[derive(Copy, Clone, PartialEq, Eq, Structural, Debug)]
pub enum GridArray {
    /// The `values` key: one value for each grid point.
    Values,
    /// The `latLonValues` key: a latitude, a longitude and a value for each grid point.
    LatLonValues,
}

impl GridArray {
    /// How many numbers the array holds for each grid point.
    pub open spec fn spec_per_point(self) -> int {
        match self {
            GridArray::Values => 1,
            GridArray::LatLonValues => 3,
        }
    }

    /// Returns how many numbers the array holds for each grid point.
    pub fn per_point(&self) -> (n: usize)
        ensures
            n == self.spec_per_point(),
    {
        match self {
            GridArray::Values => 1,
            GridArray::LatLonValues => 3,
        }
    }
}

/// A key that the reader of a grid asks the message for.
#[derive(Copy, Clone, PartialEq, Eq, Structural, Debug)]
pub enum GridQuery {
    /// The `Ni` key, read as an integer: the number of points along a row.
    Ni,
    /// The `Nj` key, read as an integer: the number of rows.
    Nj,
    /// The given array, read as an array of floating-point values.
    Array(GridArray),
    /// The `jPointsAreConsecutive` key, read as an integer.
    JPointsAreConsecutive,
}

impl GridQuery {
    /// Returns the name of the key that this query reads.
    pub fn key_name(&self) -> (k: &'static str)
        ensures
            *self == GridQuery::Ni ==> k@ == "Ni"@,
            *self == GridQuery::Nj ==> k@ == "Nj"@,
            *self == GridQuery::Array(GridArray::Values) ==> k@ == "values"@,
            *self == GridQuery::Array(GridArray::LatLonValues) ==> k@ == "latLonValues"@,
            *self == GridQuery::JPointsAreConsecutive ==> k@ == "jPointsAreConsecutive"@,
    {
        match self {
            GridQuery::Ni => "Ni",
            GridQuery::Nj => "Nj",
            GridQuery::Array(GridArray::Values) => "values",
            GridQuery::Array(GridArray::LatLonValues) => "latLonValues",
            GridQuery::JPointsAreConsecutive => "jPointsAreConsecutive",
        }
    }
}

/// The answer of the message to a [`GridQuery`]: an integer key or an array key as read.
pub enum GridAnswer<T> {
    /// Answer to [`GridQuery::Ni`], [`GridQuery::Nj`] or [`GridQuery::JPointsAreConsecutive`].
    Long(Result<i64, CodesError>),
    /// Answer to [`GridQuery::Array`].
    Array(Result<Vec<T>, CodesError>),
}

/// How far a read of a grid has gone.
pub enum GridStage<T> {
    /// `Ni` has been asked.
    AwaitingNi,
    /// `Ni` was read; `Nj` has been asked.
    AwaitingNj(usize),
    /// `Ni` and `Nj` were read; the array has been asked.
    AwaitingArray(usize, usize),
    /// `Ni`, `Nj` and an array of the right length were read; `jPointsAreConsecutive` has
    /// been asked.
    AwaitingScanning(usize, usize, Vec<T>),
}

/// State of a read of a grid.
pub struct GridReadState<T> {
    array: GridArray,
    stage: GridStage<T>,
}

impl<T> GridReadState<T> {
    /// The array that this read takes the grid from.
    pub closed spec fn array(self) -> GridArray {
        self.array
    }

    /// How far this read has gone.
    pub closed spec fn stage(self) -> GridStage<T> {
        self.stage
    }

    /// An array kept while `jPointsAreConsecutive` is asked holds the numbers of every grid
    /// point.
    #[verifier::type_invariant]
    closed spec fn wf(self) -> bool {
        self.stage matches GridStage::AwaitingScanning(ni, nj, v) ==> v.len() == ni * nj
            * self.array.spec_per_point()
    }

    /// The query whose answer a reader in this state waits for.
    pub open spec fn query(self) -> GridQuery {
        match self.stage() {
            GridStage::AwaitingNi => GridQuery::Ni,
            GridStage::AwaitingNj(_) => GridQuery::Nj,
            GridStage::AwaitingArray(_, _) => GridQuery::Array(self.array()),
            GridStage::AwaitingScanning(_, _, _) => GridQuery::JPointsAreConsecutive,
        }
    }

    /// Upper bound on the number of answers that a reader in this state still needs.
    pub open spec fn rank(self) -> nat {
        match self.stage() {
            GridStage::AwaitingNi => 4,
            GridStage::AwaitingNj(_) => 3,
            GridStage::AwaitingArray(_, _) => 2,
            GridStage::AwaitingScanning(_, _, _) => 1,
        }
    }

    /// `answer` is of the kind that the query of this state asks for.
    pub open spec fn accepts(self, answer: GridAnswer<T>) -> bool {
        match self.stage() {
            GridStage::AwaitingArray(_, _) => answer is Array,
            _ => answer is Long,
        }
    }
}

/// The arrays of a grid, laid out row after row.
#[derive(Debug)]
pub enum GridRows<T> {
    /// The values, read from `values`.
    Values(Vec<T>),
    /// Longitudes, latitudes and values, read from `latLonValues`.
    LonsLatsValues(LonsLatsValues<T>),
}

/// A grid of `ni` points along a row and `nj` rows, read from a message.
#[derive(Debug)]
pub struct ReadGrid<T> {
    /// Number of points along a row.
    pub ni: usize,
    /// Number of rows.
    pub nj: usize,
    /// The arrays of the grid.
    pub rows: GridRows<T>,
}

/// `rows` holds the numbers of `src`, an array of kind `array` given in the order ecCodes
/// returns the grid points, laid out row after row.
pub open spec fn rows_laid_out<T>(
    rows: GridRows<T>,
    array: GridArray,
    src: Seq<T>,
    ni: int,
    nj: int,
    j_consecutive: bool,
) -> bool {
    match (array, rows) {
        (GridArray::Values, GridRows::Values(out)) => values_laid_out(
            out@,
            src,
            ni,
            nj,
            j_consecutive,
        ),
        (GridArray::LatLonValues, GridRows::LonsLatsValues(out)) => lons_lats_values_laid_out(
            out,
            src,
            ni,
            nj,
            j_consecutive,
        ),
        _ => false,
    }
}

/// What a reader of a grid does after an answer: ask the next query from a new state, or
/// finish.
pub enum GridStep<T> {
    /// Ask `query` and hand the answer to the reader in state `state`.
    Continue(GridReadState<T>, GridQuery),
    /// The read is over with this result.
    Finish(Result<ReadGrid<T>, CodesError>),
}

/// Starts a read of a grid from `array`: the first query is `Ni`.
pub fn grid_read_start<T>(array: GridArray) -> (r: (GridReadState<T>, GridQuery))
    ensures
        r.0.array() == array,
        r.0.stage() == GridStage::<T>::AwaitingNi,
        r.1 == r.0.query(),
{
    (GridReadState { array, stage: GridStage::AwaitingNi }, GridQuery::Ni)
}

/// Takes the next decision of a read of a grid.
///
/// - `Ni`, then `Nj`, must be an integer from 0 up to `usize::MAX`; otherwise the read ends
///   with [`MessageNdarrayError::IntCasting`].
/// - The array must hold `Ni * Nj` numbers for each point (one for `values`, three for
///   `latLonValues`); otherwise the read ends with
///   [`MessageNdarrayError::UnexpectedValuesLength`], as [`check_values_length`] gives it.
/// - `jPointsAreConsecutive` must be 0 or 1; otherwise the read ends with
///   [`MessageNdarrayError::UnexpectedKeyValue`]. On 0 or 1 the read ends with the arrays of
///   the grid laid out row after row.
/// - A failed key read ends the read with its error.
/// - An answer of the wrong kind leaves the state unchanged and asks the query again.
pub fn grid_read_step<T: Copy>(state: GridReadState<T>, answer: GridAnswer<T>) -> (r: GridStep<T>)
    ensures
        !state.accepts(answer) ==> r == GridStep::Continue(state, state.query()),
        r matches GridStep::Continue(s, q) ==> q == s.query() && s.array() == state.array(),
        r matches GridStep::Continue(s, _) ==> (state.accepts(answer) ==> s.rank()
            < state.rank()),
        state.accepts(answer) ==> match (state.stage(), answer) {
            (GridStage::AwaitingNi, GridAnswer::Long(Err(e))) => r == GridStep::<T>::Finish(
                Err(e),
            ),
            (GridStage::AwaitingNi, GridAnswer::Long(Ok(n))) => {
                if 0 <= n <= usize::MAX {
                    r matches GridStep::Continue(s, _) && s.stage() == GridStage::<T>::AwaitingNj(
                        n as usize,
                    )
                } else {
                    r matches GridStep::Finish(
                        Err(CodesError::NdarrayConvert(MessageNdarrayError::IntCasting(_))),
                    )
                }
            },
            (GridStage::AwaitingNj(_), GridAnswer::Long(Err(e))) => r == GridStep::<T>::Finish(
                Err(e),
            ),
            (GridStage::AwaitingNj(ni), GridAnswer::Long(Ok(n))) => {
                if 0 <= n <= usize::MAX {
                    r matches GridStep::Continue(s, _) && s.stage()
                        == GridStage::<T>::AwaitingArray(ni, n as usize)
                } else {
                    r matches GridStep::Finish(
                        Err(CodesError::NdarrayConvert(MessageNdarrayError::IntCasting(_))),
                    )
                }
            },
            (GridStage::AwaitingArray(_, _), GridAnswer::Array(Err(e))) => r
                == GridStep::<T>::Finish(Err(e)),
            (GridStage::AwaitingArray(ni, nj), GridAnswer::Array(Ok(v))) => {
                if v.len() == ni * nj * state.array().spec_per_point() {
                    r matches GridStep::Continue(s, _) && s.stage()
                        == GridStage::AwaitingScanning(ni, nj, v)
                } else {
                    r matches GridStep::Finish(
                        Err(
                            CodesError::NdarrayConvert(
                                MessageNdarrayError::UnexpectedValuesLength(actual, expected),
                            ),
                        ),
                    ) && actual == v.len() && expected == reported_length(
                        ni as int,
                        nj as int,
                        state.array().spec_per_point(),
                    )
                }
            },
            (GridStage::AwaitingScanning(_, _, _), GridAnswer::Long(Err(e))) => r
                == GridStep::<T>::Finish(Err(e)),
            (GridStage::AwaitingScanning(ni, nj, v), GridAnswer::Long(Ok(flag))) => {
                if flag == 0 || flag == 1 {
                    r matches GridStep::Finish(Ok(g)) && g.ni == ni && g.nj == nj
                        && rows_laid_out(
                        g.rows,
                        state.array(),
                        v@,
                        ni as int,
                        nj as int,
                        flag == 1,
                    )
                } else {
                    r matches GridStep::Finish(
                        Err(CodesError::NdarrayConvert(MessageNdarrayError::UnexpectedKeyValue(key))),
                    ) && key@ == "jPointsAreConsecutive"@
                }
            },
            _ => false,
        },
{
    proof {
        use_type_invariant(&state);
    }
    let GridReadState { array, stage } = state;
    match stage {
        GridStage::AwaitingNi => match answer {
            GridAnswer::Long(Err(e)) => GridStep::Finish(Err(e)),
            GridAnswer::Long(Ok(n)) => match grid_dimension(n) {
                Ok(ni) => GridStep::Continue(
                    GridReadState { array, stage: GridStage::AwaitingNj(ni) },
                    GridQuery::Nj,
                ),
                Err(e) => GridStep::Finish(Err(e)),
            },
            GridAnswer::Array(_) => GridStep::Continue(
                GridReadState { array, stage: GridStage::AwaitingNi },
                GridQuery::Ni,
            ),
        },
        GridStage::AwaitingNj(ni) => match answer {
            GridAnswer::Long(Err(e)) => GridStep::Finish(Err(e)),
            GridAnswer::Long(Ok(n)) => match grid_dimension(n) {
                Ok(nj) => GridStep::Continue(
                    GridReadState { array, stage: GridStage::AwaitingArray(ni, nj) },
                    GridQuery::Array(array),
                ),
                Err(e) => GridStep::Finish(Err(e)),
            },
            GridAnswer::Array(_) => GridStep::Continue(
                GridReadState { array, stage: GridStage::AwaitingNj(ni) },
                GridQuery::Nj,
            ),
        },
        GridStage::AwaitingArray(ni, nj) => match answer {
            GridAnswer::Array(Err(e)) => GridStep::Finish(Err(e)),
            GridAnswer::Array(Ok(v)) => match check_values_length(
                v.len(),
                ni,
                nj,
                array.per_point(),
            ) {
                Ok(()) => GridStep::Continue(
                    GridReadState { array, stage: GridStage::AwaitingScanning(ni, nj, v) },
                    GridQuery::JPointsAreConsecutive,
                ),
                Err(e) => GridStep::Finish(Err(e)),
            },
            GridAnswer::Long(_) => GridStep::Continue(
                GridReadState { array, stage: GridStage::AwaitingArray(ni, nj) },
                GridQuery::Array(array),
            ),
        },
        GridStage::AwaitingScanning(ni, nj, v) => match answer {
            GridAnswer::Long(Err(e)) => GridStep::Finish(Err(e)),
            GridAnswer::Long(Ok(flag)) => match points_are_consecutive(flag) {
                Ok(j_consecutive) => {
                    let rows = match array {
                        GridArray::Values => {
                            assert(ni * nj * 1 == ni * nj);
                            GridRows::Values(grid_values_layout(&v, ni, nj, j_consecutive))
                        },
                        GridArray::LatLonValues => GridRows::LonsLatsValues(
                            lons_lats_values_layout(&v, ni, nj, j_consecutive),
                        ),
                    };
                    GridStep::Finish(Ok(ReadGrid { ni, nj, rows }))
                },
                Err(e) => GridStep::Finish(Err(e)),
            },
            GridAnswer::Array(_) => GridStep::Continue(
                GridReadState { array, stage: GridStage::AwaitingScanning(ni, nj, v) },
                GridQuery::JPointsAreConsecutive,
            ),
        },
    }
}

} // verus!
