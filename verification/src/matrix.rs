use vstd::prelude::*;

use crate::error::ValidationError;
use crate::json::{arr_spec, get_spec, number_spec, JsonValue};

verus! {

/// A validated price history in time-major order: `rows` time observations of
/// `cols` assets, every price the IEEE-754 bit pattern of the `f64` it
/// denotes. Built once from a request body and read-only thereafter.
#[derive(Debug)]
pub struct PriceMatrix {
    rows: usize,
    cols: usize,
    data: Vec<u64>,
}

impl PriceMatrix {
    pub closed spec fn spec_rows(self) -> int {
        self.rows as int
    }

    pub closed spec fn spec_cols(self) -> int {
        self.cols as int
    }

    /// The price of asset `j` at time `t`, as a bit pattern.
    pub closed spec fn spec_at(self, t: int, j: int) -> u64 {
        self.data@[t * self.spec_cols() + j]
    }

    /// A well-formed matrix has at least one row and one column and exactly
    /// one stored price per (time, asset) pair.
    pub closed spec fn wf(self) -> bool {
        self.spec_rows() > 0 && self.spec_cols() > 0
            && self.data@.len() == self.spec_rows() * self.spec_cols()
    }

    pub fn rows(&self) -> (r: usize)
        ensures
            r == self.spec_rows(),
    {
        self.rows
    }

    pub fn cols(&self) -> (r: usize)
        ensures
            r == self.spec_cols(),
    {
        self.cols
    }

    /// The price of asset `j` at time `t`.
    pub fn at(&self, t: usize, j: usize) -> (r: u64)
        requires
            self.wf(),
            t < self.spec_rows(),
            j < self.spec_cols(),
        ensures
            r == self.spec_at(t as int, j as int),
    {
        let n = self.data.len();
        proof {
            assert((t as int) * (self.cols as int) + (j as int)
                < (self.rows as int) * (self.cols as int)) by (nonlinear_arith)
                requires
                    (t as int) < (self.rows as int),
                    (j as int) < (self.cols as int),
                    (self.cols as int) > 0,
            ;
        }
        let idx: usize = t * self.cols + j;
        proof {
            assert(idx < n);
        }
        self.data[idx]
    }

    /// The whole matrix, flattened in time-major (row-major) order, for
    /// handing to numeric code outside the verified core.
    pub fn row_major(&self) -> (r: &Vec<u64>)
        requires
            self.wf(),
        ensures
            r@.len() == self.spec_rows() * self.spec_cols(),
            forall|t: int, j: int|
                0 <= t < self.spec_rows() && 0 <= j < self.spec_cols()
                    ==> r@[t * self.spec_cols() + j] == self.spec_at(t, j),
    {
        &self.data
    }
}

/// The asset-major series under the `prices` field, when the field is there
/// and is an array.
pub open spec fn prices_of(v: JsonValue) -> Option<Seq<JsonValue>> {
    match get_spec(v, "prices"@) {
        Some(p) => arr_spec(p),
        None => None,
    }
}

/// The first complaint an ascending scan of the asset series raises: a series
/// that is not an array, or one whose length differs from `rows`.
pub open spec fn series_issue(series: Seq<JsonValue>, rows: nat) -> Option<ValidationError>
    decreases series.len(),
{
    if series.len() == 0 {
        None
    } else {
        match arr_spec(series[0]) {
            None => Some(ValidationError::InvalidAssetSeries),
            Some(s) => if s.len() != rows {
                Some(ValidationError::LengthMismatch)
            } else {
                series_issue(series.drop_first(), rows)
            },
        }
    }
}

/// Every element of every asset series is a number.
pub open spec fn all_numeric(series: Seq<JsonValue>) -> bool {
    forall|j: int, t: int|
        0 <= j < series.len() && 0 <= t < arr_spec(series[j])->Some_0.len()
            ==> number_spec(#[trigger] arr_spec(series[j])->Some_0[t]) is Some
}

/// The error `json_to_price_matrix` answers `v` with, or `None` when `v`
/// passes every check. The checks run in the order the builder applies them:
/// presence of a `prices` array, non-emptiness, a non-empty first series,
/// equal series lengths, and numeric elements.
pub open spec fn build_error(v: JsonValue) -> Option<ValidationError> {
    match prices_of(v) {
        None => Some(ValidationError::MissingPrices),
        Some(series) => if series.len() == 0 {
            Some(ValidationError::EmptyPricesArray)
        } else {
            match arr_spec(series[0]) {
                None => Some(ValidationError::InvalidAssetSeries),
                Some(first) => if first.len() == 0 {
                    Some(ValidationError::InvalidAssetSeries)
                } else {
                    match series_issue(series, first.len()) {
                        Some(e) => Some(e),
                        None => if !all_numeric(series) {
                            Some(ValidationError::NonNumericValue)
                        } else {
                            None
                        },
                    }
                },
            }
        },
    }
}

/// What a successfully built matrix holds for input `v`: one row per time
/// observation, one column per asset, and the transposed prices, so that
/// `m[t][j]` is the `t`-th value of the `j`-th asset series.
pub open spec fn is_built_from(m: PriceMatrix, v: JsonValue) -> bool {
    let series = prices_of(v)->Some_0;
    let rows = arr_spec(series[0])->Some_0.len();
    &&& m.wf()
    &&& m.spec_rows() == rows
    &&& m.spec_cols() == series.len()
    &&& forall|t: int, j: int|
        0 <= t < m.spec_rows() && 0 <= j < m.spec_cols()
            ==> #[trigger] m.spec_at(t, j) == number_spec(arr_spec(series[j])->Some_0[t])->Some_0
}

proof fn lemma_flat_index(tt: int, jj: int, rows: int, cols: int)
    requires
        0 <= tt < rows,
        0 <= jj < cols,
    ensures
        0 <= tt * cols + jj,
        tt * cols + jj < rows * cols,
{
    assert(0 <= tt * cols + jj && tt * cols + jj < rows * cols) by (nonlinear_arith)
        requires
            0 <= tt < rows,
            0 <= jj < cols,
    ;
}

/// Builds the time-major price matrix from a request body, validating it as
/// the contract of `build_error` lays out: the result is `Ok` exactly when no
/// check fails, and an `Err` carries the first check's complaint.
pub fn json_to_price_matrix(v: &JsonValue) -> (r: Result<PriceMatrix, ValidationError>)
    ensures
        (r is Ok) == (build_error(*v) is None),
        r is Err ==> Some(r->Err_0) == build_error(*v),
        r is Ok ==> is_built_from(r->Ok_0, *v),
{
    let prices: &Vec<JsonValue> = match v.get("prices") {
        Some(p) => match p.as_array() {
            Some(items) => items,
            None => {
                return Err(ValidationError::MissingPrices);
            },
        },
        None => {
            return Err(ValidationError::MissingPrices);
        },
    };
    let cols = prices.len();
    if cols == 0 {
        return Err(ValidationError::EmptyPricesArray);
    }
    let first: &Vec<JsonValue> = match prices[0].as_array() {
        Some(items) => items,
        None => {
            return Err(ValidationError::InvalidAssetSeries);
        },
    };
    let rows = first.len();
    if rows == 0 {
        return Err(ValidationError::InvalidAssetSeries);
    }

    let ghost series = prices@;
    proof {
        assert(series.skip(0) =~= series);
    }
    let mut i: usize = 0;
    while i < cols
        invariant
            i <= cols,
            cols == series.len(),
            rows > 0,
            prices@ == series,
            prices_of(*v) == Some(series),
            arr_spec(series[0]) is Some,
            arr_spec(series[0])->Some_0.len() == rows,
            series_issue(series, rows as nat) == series_issue(series.skip(i as int), rows as nat),
            forall|k: int|
                0 <= k < i
                    ==> (#[trigger] arr_spec(series[k])) is Some
                        && arr_spec(series[k])->Some_0.len() == rows,
        decreases cols - i,
    {
        proof {
            assert(series.skip(i as int)[0] == series[i as int]);
            assert(series.skip(i as int).len() > 0);
        }
        match prices[i].as_array() {
            Some(s) => {
                if s.len() != rows {
                    return Err(ValidationError::LengthMismatch);
                }
            },
            None => {
                return Err(ValidationError::InvalidAssetSeries);
            },
        }
        proof {
            assert(series.skip(i as int).drop_first() =~= series.skip(i + 1));
        }
        i += 1;
    }
    proof {
        assert(series.skip(cols as int).len() == 0);
        assert(series_issue(series, rows as nat) is None);
    }

    let mut data: Vec<u64> = Vec::new();
    let mut t: usize = 0;
    while t < rows
        invariant
            t <= rows,
            rows > 0,
            cols == series.len(),
            cols > 0,
            prices@ == series,
            prices_of(*v) == Some(series),
            arr_spec(series[0]) is Some,
            arr_spec(series[0])->Some_0.len() == rows,
            series_issue(series, rows as nat) is None,
            forall|k: int|
                0 <= k < cols
                    ==> (#[trigger] arr_spec(series[k])) is Some
                        && arr_spec(series[k])->Some_0.len() == rows,
            data@.len() == t * cols,
            forall|tt: int, jj: int|
                0 <= tt < t && 0 <= jj < cols
                    ==> number_spec(#[trigger] arr_spec(series[jj])->Some_0[tt]) is Some,
            forall|tt: int, jj: int|
                0 <= tt < t && 0 <= jj < cols
                    ==> data@[tt * cols + jj]
                        == number_spec(#[trigger] arr_spec(series[jj])->Some_0[tt])->Some_0,
        decreases rows - t,
    {
        let mut j: usize = 0;
        while j < cols
            invariant
                j <= cols,
                t < rows,
                rows > 0,
                cols == series.len(),
                cols > 0,
                prices@ == series,
                prices_of(*v) == Some(series),
                arr_spec(series[0]) is Some,
                arr_spec(series[0])->Some_0.len() == rows,
                series_issue(series, rows as nat) is None,
                forall|k: int|
                    0 <= k < cols
                        ==> (#[trigger] arr_spec(series[k])) is Some
                            && arr_spec(series[k])->Some_0.len() == rows,
                data@.len() == t * cols + j,
                forall|tt: int, jj: int|
                    0 <= tt < t && 0 <= jj < cols
                        ==> number_spec(#[trigger] arr_spec(series[jj])->Some_0[tt]) is Some,
                forall|jj: int|
                    0 <= jj < j
                        ==> number_spec(#[trigger] arr_spec(series[jj])->Some_0[t as int]) is Some,
                forall|tt: int, jj: int|
                    0 <= tt < t && 0 <= jj < cols
                        ==> data@[tt * cols + jj]
                            == number_spec(#[trigger] arr_spec(series[jj])->Some_0[tt])->Some_0,
                forall|jj: int|
                    0 <= jj < j
                        ==> data@[t * cols + jj]
                            == number_spec(#[trigger] arr_spec(series[jj])->Some_0[t as int])->Some_0,
            decreases cols - j,
        {
            let s: &Vec<JsonValue> = match prices[j].as_array() {
                Some(s) => s,
                None => {
                    proof {
                        assert(false);
                    }
                    vstd::pervasive::unreached()
                },
            };
            let bits = match s[t].number_bits() {
                Some(b) => b,
                None => {
                    proof {
                        assert(!all_numeric(series));
                    }
                    return Err(ValidationError::NonNumericValue);
                },
            };
            data.push(bits);
            proof {
                assert forall|tt: int, jj: int| 0 <= tt < t && 0 <= jj < cols
                    implies 0 <= #[trigger] (tt * cols + jj) && tt * cols + jj < t * cols by {
                    lemma_flat_index(tt, jj, t as int, cols as int);
                }
            }
            j += 1;
        }
        proof {
            assert(t * cols + cols == (t + 1) * cols) by (nonlinear_arith);
        }
        t += 1;
    }
    proof {
        assert(all_numeric(series));
        assert(build_error(*v) is None);
    }
    let m = PriceMatrix { rows, cols, data };
    proof {
        assert(m.wf());
        assert forall|t2: int, j2: int|
            0 <= t2 < m.spec_rows() && 0 <= j2 < m.spec_cols()
                implies m.spec_at(t2, j2)
                    == number_spec(#[trigger] arr_spec(series[j2])->Some_0[t2])->Some_0 by {
            lemma_flat_index(t2, j2, rows as int, cols as int);
            assert(m.data@[t2 * (cols as int) + j2]
                == number_spec(arr_spec(series[j2])->Some_0[t2])->Some_0);
        }
    }
    Ok(m)
}

} // verus!
