//! The bosonic commutation signature, the order of the magnon modes and the
//! per-branch correlation tensors.
//!
//! The Hamiltonian is diagonalized under the metric
//! `g = diag(+1, ..., +1, -1, ..., -1)` (`N` of each sign), applied to the
//! square root `K` by negating its last `N` rows.
//!
//! The eigensolver gives eigenvalues in nondecreasing order; the modes are
//! used in nonincreasing order, so that the first `N` of the `2N` modes are
//! the particle (positive-energy) branches and the last `N` their
//! negative-energy partners. The eigenvector columns follow the same order.
use vstd::prelude::*;
use crate::matrix::{DenseMatrix, reversed, reverse_cols};

verus! {

/// `g K`: the first `n_plus` rows of `k` are kept, and each entry of the
/// other rows is replaced by `neg` of it.
pub fn apply_signature<T: Copy, F: Fn(T) -> T>(k: &DenseMatrix<T>, n_plus: usize, neg: F) -> (out:
    DenseMatrix<T>)
    requires
        k.wf(),
        forall|x: T| #[trigger] neg.requires((x,)),
    ensures
        out.wf(),
        out.nrows() == k.nrows(),
        out.ncols() == k.ncols(),
        forall|r: int, c: int|
            0 <= r < k.nrows() && r < n_plus && 0 <= c < k.ncols() ==> #[trigger] out@[r][c]
                == k@[r][c],
        forall|r: int, c: int|
            n_plus <= r < k.nrows() && 0 <= c < k.ncols() ==> neg.ensures(
                (k@[r][c],),
                #[trigger] out@[r][c],
            ),
{
    let n_rows = k.n_rows();
    let n_cols = k.n_cols();
    let mut rows: Vec<Vec<T>> = Vec::new();
    let mut r: usize = 0;
    while r < n_rows
        invariant
            n_rows == k.nrows(),
            n_cols == k.ncols(),
            k.wf(),
            forall|x: T| #[trigger] neg.requires((x,)),
            r <= n_rows,
            rows@.len() == r,
            forall|i: int| 0 <= i < r ==> #[trigger] rows@[i]@.len() == n_cols,
            forall|i: int, c: int|
                0 <= i < r && i < n_plus && 0 <= c < n_cols ==> #[trigger] rows@[i]@[c] == k@[i][c],
            forall|i: int, c: int|
                n_plus <= i < r && 0 <= c < n_cols ==> neg.ensures((k@[i][c],), #[trigger] rows@[i]@[c]),
        decreases n_rows - r,
    {
        let mut row: Vec<T> = Vec::new();
        let mut c: usize = 0;
        while c < n_cols
            invariant
                n_rows == k.nrows(),
                n_cols == k.ncols(),
                k.wf(),
                forall|x: T| #[trigger] neg.requires((x,)),
                r < n_rows,
                c <= n_cols,
                row@.len() == c,
                forall|j: int|
                    0 <= j < c && r < n_plus ==> #[trigger] row@[j] == k@[r as int][j],
                forall|j: int|
                    0 <= j < c && n_plus <= r ==> neg.ensures((k@[r as int][j],), #[trigger] row@[j]),
            decreases n_cols - c,
        {
            let x = k.get(r, c);
            if r < n_plus {
                row.push(x);
            } else {
                let v = neg(x);
                row.push(v);
            }
            c = c + 1;
        }
        rows.push(row);
        r = r + 1;
    }
    DenseMatrix::from_uniform_rows(rows, n_cols)
}

/// The eigenvalues and eigenvector columns (given in nondecreasing order of
/// the eigenvalues) in nonincreasing order.
pub fn nonincreasing_modes<T: Copy>(eigenvalues: &Vec<T>, eigenvectors: &DenseMatrix<T>) -> (out: (
    Vec<T>,
    DenseMatrix<T>,
))
    requires
        eigenvectors.wf(),
        eigenvectors.ncols() == eigenvalues@.len(),
    ensures
        out.0@.len() == eigenvalues@.len(),
        out.1.wf(),
        out.1.nrows() == eigenvectors.nrows(),
        out.1.ncols() == eigenvectors.ncols(),
        forall|m: int|
            0 <= m < eigenvalues@.len() ==> #[trigger] out.0@[m] == eigenvalues@[eigenvalues@.len()
                - 1 - m],
        forall|r: int, m: int|
            0 <= r < eigenvectors.nrows() && 0 <= m < eigenvectors.ncols() ==> #[trigger] out.1@[r][m]
                == eigenvectors@[r][eigenvectors.ncols() - 1 - m],
{
    (reversed(eigenvalues), reverse_cols(eigenvectors))
}

/// The 3x3 tensor of each mode from the diagonals of the nine rotated
/// correlation blocks: `diagonals[3 * alpha + beta][m]` is the contribution
/// of mode `m` to the entry `(alpha, beta)`.
pub fn branch_tensors<T: Copy>(diagonals: &Vec<Vec<T>>, n_modes: usize) -> (out: Vec<
    DenseMatrix<T>,
>)
    requires
        diagonals@.len() == 9,
        forall|k: int| 0 <= k < 9 ==> #[trigger] diagonals@[k]@.len() == n_modes,
    ensures
        out@.len() == n_modes,
        forall|m: int|
            0 <= m < n_modes ==> (#[trigger] out@[m]).wf() && out@[m].nrows() == 3 && out@[m].ncols()
                == 3,
        forall|m: int, a: int, b: int|
            0 <= m < n_modes && 0 <= a < 3 && 0 <= b < 3 ==> #[trigger] out@[m]@[a][b]
                == diagonals@[3 * a + b]@[m],
{
    let mut out: Vec<DenseMatrix<T>> = Vec::new();
    let mut m: usize = 0;
    while m < n_modes
        invariant
            m <= n_modes,
            out@.len() == m,
            diagonals@.len() == 9,
            forall|k: int| 0 <= k < 9 ==> #[trigger] diagonals@[k]@.len() == n_modes,
            forall|i: int|
                0 <= i < m ==> (#[trigger] out@[i]).wf() && out@[i].nrows() == 3 && out@[i].ncols()
                    == 3,
            forall|i: int, a: int, b: int|
                0 <= i < m && 0 <= a < 3 && 0 <= b < 3 ==> #[trigger] out@[i]@[a][b]
                    == diagonals@[3 * a + b]@[i],
        decreases n_modes - m,
    {
        let mut rows: Vec<Vec<T>> = Vec::new();
        let mut a: usize = 0;
        while a < 3
            invariant
                a <= 3,
                m < n_modes,
                rows@.len() == a,
                diagonals@.len() == 9,
                forall|k: int| 0 <= k < 9 ==> #[trigger] diagonals@[k]@.len() == n_modes,
                forall|i: int| 0 <= i < a ==> #[trigger] rows@[i]@.len() == 3,
                forall|i: int, b: int|
                    0 <= i < a && 0 <= b < 3 ==> #[trigger] rows@[i]@[b] == diagonals@[3 * i
                        + b]@[m as int],
            decreases 3 - a,
        {
            let row = vec![diagonals[3 * a][m], diagonals[3 * a + 1][m], diagonals[3 * a + 2][m]];
            rows.push(row);
            a = a + 1;
        }
        let t = DenseMatrix::from_uniform_rows(rows, 3);
        out.push(t);
        m = m + 1;
    }
    out
}

} // verus!
