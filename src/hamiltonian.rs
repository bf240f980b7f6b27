//! Assembly of the bosonic Hamiltonian `H(q)` from its `N x N` parts.
use vstd::prelude::*;
use crate::matrix::{DenseMatrix, adjoint, block_matrix, component_mul};

verus! {

/// `out` is `minus(conj(a), c)` for some value of `conj(a)`.
pub open spec fn conj_minus<T, F: Fn(T, T) -> T, G: Fn(T) -> T>(
    minus: F,
    conj: G,
    a: T,
    c: T,
    out: T,
) -> bool {
    exists|t: T| conj.ensures((a,), t) && minus.ensures((t, c), out)
}

/// The `2N x 2N` block matrix `[[A - C, B], [B^dagger, A^dagger - C]]`,
/// with `minus` the difference and `conj` the conjugate of entries.
pub fn assemble_hamiltonian<T: Copy, F: Fn(T, T) -> T + Copy, G: Fn(T) -> T + Copy>(
    a: &DenseMatrix<T>,
    b: &DenseMatrix<T>,
    c: &DenseMatrix<T>,
    minus: F,
    conj: G,
) -> (h: DenseMatrix<T>)
    requires
        a.wf(),
        b.wf(),
        c.wf(),
        a.is_square(),
        b.nrows() == a.nrows() && b.ncols() == a.nrows(),
        c.nrows() == a.nrows() && c.ncols() == a.nrows(),
        a.nrows() + a.nrows() <= usize::MAX,
        forall|x: T, y: T| #[trigger] minus.requires((x, y)),
        forall|x: T| #[trigger] conj.requires((x,)),
    ensures
        h.wf(),
        h.nrows() == 2 * a.nrows(),
        h.ncols() == 2 * a.nrows(),
        forall|r: int, k: int|
            0 <= r < a.nrows() && 0 <= k < a.nrows() ==> minus.ensures(
                (a@[r][k], c@[r][k]),
                #[trigger] h@[r][k],
            ),
        forall|r: int, k: int|
            0 <= r < a.nrows() && 0 <= k < a.nrows() ==> #[trigger] h@[r][a.nrows() + k]
                == b@[r][k],
        forall|r: int, k: int|
            0 <= r < a.nrows() && 0 <= k < a.nrows() ==> conj.ensures(
                (b@[k][r],),
                #[trigger] h@[a.nrows() + r][k],
            ),
        forall|r: int, k: int|
            0 <= r < a.nrows() && 0 <= k < a.nrows() ==> conj_minus(
                minus,
                conj,
                a@[k][r],
                c@[r][k],
                #[trigger] h@[a.nrows() + r][a.nrows() + k],
            ),
{
    let a_minus_c = component_mul(a, c, minus);
    let b_adj = adjoint(b, conj);
    let a_adj = adjoint(a, conj);
    let a_adj_minus_c = component_mul(&a_adj, c, minus);
    let h = block_matrix(&a_minus_c, b, &b_adj, &a_adj_minus_c);
    assert forall|r: int, k: int| 0 <= r < a.nrows() && 0 <= k < a.nrows() implies conj_minus(
        minus,
        conj,
        a@[k][r],
        c@[r][k],
        #[trigger] h@[a.nrows() + r][a.nrows() + k],
    ) by {
        assert(conj.ensures((a@[k][r],), a_adj@[r][k]));
        assert(minus.ensures((a_adj@[r][k], c@[r][k]), a_adj_minus_c@[r][k]));
        assert(h@[a.nrows() + r][a.nrows() + k] == a_adj_minus_c@[r][k]);
    }
    h
}

} // verus!
