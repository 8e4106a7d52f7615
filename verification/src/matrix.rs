//! The sparse matrix builder: reconstruction of a compressed-sparse-column
//! matrix from the host's coordinate-style integer/value triplet arrays,
//! with full structural validation before anything reaches the solver.

use vstd::prelude::*;

verus! {

/// The one fatal error of this layer: triplet arrays that are structurally
/// inconsistent (wrong lengths, negative or out-of-range indices).
#[derive(Debug, Clone, Copy, PartialEq, Eq, Structural)]
pub enum BuildError {
    MalformedMatrix,
}

/// A compressed-sparse-column matrix.  Values are opaque real numbers
/// carried as bit patterns.
#[derive(Debug, Clone)]
pub struct SparseMatrix {
    pub rows: usize,
    pub cols: usize,
    pub col_ptr: Vec<usize>,
    pub row_idx: Vec<usize>,
    pub values: Vec<u64>,
}

impl SparseMatrix {
    /// Structural well-formedness of a CSC matrix: the column pointer array
    /// has one entry per column plus one, starts at zero, is non-decreasing,
    /// and closes at the number of stored entries; every row index is in
    /// range; row indices and values run in step.
    pub open spec fn wf(self) -> bool {
        &&& self.col_ptr@.len() == self.cols + 1
        &&& self.col_ptr@[0] == 0
        &&& forall|i: int| 0 <= i < self.cols ==> #[trigger] self.col_ptr@[i] <= self.col_ptr@[i + 1]
        &&& self.col_ptr@[self.cols as int] == self.values@.len()
        &&& self.row_idx@.len() == self.values@.len()
        &&& forall|i: int| 0 <= i < self.row_idx@.len() ==> self.row_idx@[i] < self.rows
    }

    /// The number of stored entries.
    pub open spec fn nnz(self) -> nat {
        self.values@.len()
    }
}

/// Whether the host's triplet arrays describe a structurally valid CSC
/// matrix of the given shape.
pub open spec fn valid_csc(
    rows: usize,
    cols: usize,
    col_ptr: Seq<i32>,
    row_idx: Seq<i32>,
    values_len: nat,
) -> bool {
    &&& col_ptr.len() == cols + 1
    &&& row_idx.len() == values_len
    &&& col_ptr[0] == 0
    &&& forall|i: int| 0 <= i < cols ==> #[trigger] col_ptr[i] <= col_ptr[i + 1]
    &&& col_ptr[cols as int] == values_len
    &&& forall|i: int| 0 <= i < row_idx.len() ==> 0 <= #[trigger] row_idx[i] < rows
}

/// Widens a host index to an offset, defined only on the values that
/// validation admits.
pub open spec fn as_offset(x: i32) -> usize
    recommends
        x >= 0,
{
    x as usize
}

/// Builds a CSC matrix of shape `rows x cols` from host triplet arrays,
/// validating them first; structurally inconsistent arrays are rejected
/// with `MalformedMatrix` and nothing is built.
pub fn build_csc(
    rows: usize,
    cols: usize,
    col_ptr: Vec<i32>,
    row_idx: Vec<i32>,
    values: Vec<u64>,
) -> (r: Result<SparseMatrix, BuildError>)
    ensures
        match r {
            Ok(mat) => {
                &&& valid_csc(rows, cols, col_ptr@, row_idx@, values@.len())
                &&& mat.wf()
                &&& mat.rows == rows
                &&& mat.cols == cols
                &&& mat.col_ptr@ == col_ptr@.map_values(|x: i32| as_offset(x))
                &&& mat.row_idx@ == row_idx@.map_values(|x: i32| as_offset(x))
                &&& mat.values@ == values@
            },
            Err(e) => {
                &&& e == BuildError::MalformedMatrix
                &&& !valid_csc(rows, cols, col_ptr@, row_idx@, values@.len())
            },
        },
{
    if col_ptr.len() == 0 || col_ptr.len() - 1 != cols {
        return Err(BuildError::MalformedMatrix);
    }
    if row_idx.len() != values.len() {
        return Err(BuildError::MalformedMatrix);
    }
    if col_ptr[0] != 0 {
        return Err(BuildError::MalformedMatrix);
    }
    let mut c: usize = 0;
    let mut ptr_out: Vec<usize> = Vec::new();
    while c < cols
        invariant
            c <= cols,
            col_ptr@.len() == cols + 1,
            col_ptr@[0] == 0,
            forall|i: int| 0 <= i < c ==> #[trigger] col_ptr@[i] <= col_ptr@[i + 1],
            forall|i: int| 0 <= i <= c ==> col_ptr@[i] >= 0,
            ptr_out@ == col_ptr@.subrange(0, c as int).map_values(|x: i32| as_offset(x)),
        decreases cols - c,
    {
        if col_ptr[c] > col_ptr[c + 1] {
            return Err(BuildError::MalformedMatrix);
        }
        ptr_out.push(col_ptr[c] as usize);
        proof {
            assert(ptr_out@ =~= col_ptr@.subrange(0, c + 1).map_values(|x: i32| as_offset(x)));
        }
        c = c + 1;
    }
    let closing = col_ptr[cols];
    if closing < 0 {
        // unreachable when cols > 0 (monotone from zero), needed when cols == 0
        return Err(BuildError::MalformedMatrix);
    }
    if closing as usize != values.len() {
        return Err(BuildError::MalformedMatrix);
    }
    ptr_out.push(closing as usize);
    proof {
        assert(ptr_out@ =~= col_ptr@.map_values(|x: i32| as_offset(x)));
    }

    let mut k: usize = 0;
    let mut idx_out: Vec<usize> = Vec::new();
    while k < row_idx.len()
        invariant
            k <= row_idx.len(),
            forall|i: int| 0 <= i < k ==> 0 <= #[trigger] row_idx@[i] < rows,
            idx_out@ == row_idx@.subrange(0, k as int).map_values(|x: i32| as_offset(x)),
        decreases row_idx.len() - k,
    {
        let ri = row_idx[k];
        if ri < 0 {
            return Err(BuildError::MalformedMatrix);
        }
        if ri as usize >= rows {
            return Err(BuildError::MalformedMatrix);
        }
        idx_out.push(ri as usize);
        proof {
            assert(idx_out@ =~= row_idx@.subrange(0, k + 1).map_values(|x: i32| as_offset(x)));
        }
        k = k + 1;
    }
    proof {
        assert(idx_out@ =~= row_idx@.map_values(|x: i32| as_offset(x)));
    }
    let mat = SparseMatrix { rows, cols, col_ptr: ptr_out, row_idx: idx_out, values };
    Ok(mat)
}

/// The canonical all-zero matrix of shape `rows x cols`: no stored entries,
/// every column empty.
pub fn zero_matrix(rows: usize, cols: usize) -> (r: SparseMatrix)
    requires
        cols < usize::MAX,
    ensures
        r.wf(),
        r.rows == rows,
        r.cols == cols,
        r.nnz() == 0,
{
    let mut ptr: Vec<usize> = Vec::new();
    let mut c: usize = 0;
    while c < cols + 1
        invariant
            cols < usize::MAX,
            c <= cols + 1,
            ptr@.len() == c,
            forall|i: int| 0 <= i < c ==> ptr@[i] == 0,
        decreases cols + 1 - c,
    {
        ptr.push(0);
        c = c + 1;
    }
    SparseMatrix { rows, cols, col_ptr: ptr, row_idx: Vec::new(), values: Vec::new() }
}

/// Builds the quadratic objective matrix: an empty value array means a
/// linear problem, and yields the canonical all-zero `n x n` matrix no
/// matter what the index arrays hold; otherwise the triplets are validated
/// and assembled like any other matrix.
pub fn build_quadratic(
    n: usize,
    col_ptr: Vec<i32>,
    row_idx: Vec<i32>,
    values: Vec<u64>,
) -> (r: Result<SparseMatrix, BuildError>)
    requires
        n < usize::MAX,
    ensures
        values@.len() == 0 ==> {
            &&& r is Ok
            &&& r->Ok_0.wf()
            &&& r->Ok_0.rows == n
            &&& r->Ok_0.cols == n
            &&& r->Ok_0.nnz() == 0
        },
        values@.len() > 0 ==> match r {
            Ok(mat) => {
                &&& valid_csc(n, n, col_ptr@, row_idx@, values@.len())
                &&& mat.wf()
                &&& mat.rows == n
                &&& mat.cols == n
                &&& mat.col_ptr@ == col_ptr@.map_values(|x: i32| as_offset(x))
                &&& mat.row_idx@ == row_idx@.map_values(|x: i32| as_offset(x))
                &&& mat.values@ == values@
            },
            Err(e) => {
                &&& e == BuildError::MalformedMatrix
                &&& !valid_csc(n, n, col_ptr@, row_idx@, values@.len())
            },
        },
{
    if values.len() == 0 {
        Ok(zero_matrix(n, n))
    } else {
        build_csc(n, n, col_ptr, row_idx, values)
    }
}

} // verus!
