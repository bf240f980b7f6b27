//! Dense matrices stored row by row, generic over the entry type.
//!
//! Apart from the componentwise product, whose entry product the caller
//! supplies, only moves of entries happen here (assembly from blocks,
//! reordering of rows and columns, extraction of a column or of the
//! diagonal), so every result is stated exactly in terms of the entries of
//! the arguments.
use vstd::prelude::*;

verus! {

/// A dense `rows x cols` matrix stored as a vector of rows.
pub struct DenseMatrix<T> {
    n_cols: usize,
    rows: Vec<Vec<T>>,
}

impl<T> View for DenseMatrix<T> {
    type V = Seq<Seq<T>>;

    closed spec fn view(&self) -> Seq<Seq<T>> {
        self.rows@.map_values(|r: Vec<T>| r@)
    }
}

/// Row `r` of `a` followed by row `r` of `b`.
pub open spec fn joined_row<T>(a: Seq<Seq<T>>, b: Seq<Seq<T>>, r: int) -> Seq<T> {
    a[r] + b[r]
}

impl<T: Copy> DenseMatrix<T> {
    /// Number of columns (meaningful also when there are no rows).
    pub closed spec fn ncols(&self) -> nat {
        self.n_cols as nat
    }

    pub open spec fn nrows(&self) -> nat {
        self@.len()
    }

    /// Every row has `ncols()` entries.
    pub open spec fn wf(&self) -> bool {
        forall|r: int| 0 <= r < self@.len() ==> #[trigger] self@[r].len() == self.ncols()
    }

    pub open spec fn is_square(&self) -> bool {
        self.nrows() == self.ncols()
    }

    /// A `n_rows x n_cols` matrix with every entry equal to `value`.
    pub fn filled(n_rows: usize, n_cols: usize, value: T) -> (m: Self)
        ensures
            m.wf(),
            m.nrows() == n_rows,
            m.ncols() == n_cols,
            forall|r: int, c: int| 0 <= r < n_rows && 0 <= c < n_cols ==> #[trigger] m@[r][c] == value,
    {
        let mut row: Vec<T> = Vec::new();
        let mut c: usize = 0;
        while c < n_cols
            invariant
                c <= n_cols,
                row@.len() == c,
                forall|k: int| 0 <= k < c ==> #[trigger] row@[k] == value,
            decreases n_cols - c,
        {
            row.push(value);
            c = c + 1;
        }
        let mut rows: Vec<Vec<T>> = Vec::new();
        let mut r: usize = 0;
        while r < n_rows
            invariant
                r <= n_rows,
                rows@.len() == r,
                row@.len() == n_cols,
                forall|k: int| 0 <= k < n_cols ==> #[trigger] row@[k] == value,
                forall|i: int| 0 <= i < r ==> #[trigger] rows@[i]@ == row@,
            decreases n_rows - r,
        {
            rows.push(copy_row(&row));
            r = r + 1;
        }
        DenseMatrix { n_cols, rows }
    }

    /// The matrix whose rows are `rows`, each of which must hold `n_cols`
    /// entries; `None` when some row has another length.
    pub fn from_rows(rows: Vec<Vec<T>>, n_cols: usize) -> (m: Option<Self>)
        ensures
            m is Some <==> forall|r: int| 0 <= r < rows@.len() ==> #[trigger] rows@[r]@.len() == n_cols,
            m matches Some(mat) ==> {
                &&& mat.wf()
                &&& mat.ncols() == n_cols
                &&& mat.nrows() == rows@.len()
                &&& forall|r: int| 0 <= r < rows@.len() ==> #[trigger] mat@[r] == rows@[r]@
            },
    {
        let mut r: usize = 0;
        while r < rows.len()
            invariant
                r <= rows@.len(),
                forall|k: int| 0 <= k < r ==> #[trigger] rows@[k]@.len() == n_cols,
            decreases rows@.len() - r,
        {
            if rows[r].len() != n_cols {
                return None;
            }
            r = r + 1;
        }
        Some(DenseMatrix { n_cols, rows })
    }

    /// The matrix whose rows are `rows`, all of which hold `n_cols` entries.
    pub fn from_uniform_rows(rows: Vec<Vec<T>>, n_cols: usize) -> (m: Self)
        requires
            forall|r: int| 0 <= r < rows@.len() ==> #[trigger] rows@[r]@.len() == n_cols,
        ensures
            m.wf(),
            m.ncols() == n_cols,
            m.nrows() == rows@.len(),
            forall|r: int| 0 <= r < rows@.len() ==> #[trigger] m@[r] == rows@[r]@,
    {
        DenseMatrix { n_cols, rows }
    }

    pub fn n_rows(&self) -> (n: usize)
        ensures
            n == self.nrows(),
    {
        self.rows.len()
    }

    pub fn n_cols(&self) -> (n: usize)
        ensures
            n == self.ncols(),
    {
        self.n_cols
    }

    /// The entry in row `r` and column `c`.
    pub fn get(&self, r: usize, c: usize) -> (v: T)
        requires
            self.wf(),
            r < self.nrows(),
            c < self.ncols(),
        ensures
            v == self@[r as int][c as int],
    {
        assert(self@[r as int] == self.rows@[r as int]@);
        self.rows[r][c]
    }

    /// Row `r`.
    pub fn row(&self, r: usize) -> (out: &Vec<T>)
        requires
            r < self.nrows(),
        ensures
            out@ == self@[r as int],
    {
        &self.rows[r]
    }
}

/// A fresh vector with the entries of `v`.
pub(crate) fn copy_row<T: Copy>(v: &Vec<T>) -> (out: Vec<T>)
    ensures
        out@ == v@,
{
    let mut out: Vec<T> = Vec::new();
    let mut k: usize = 0;
    while k < v.len()
        invariant
            k <= v@.len(),
            out@ == v@.subrange(0, k as int),
        decreases v@.len() - k,
    {
        out.push(v[k]);
        k = k + 1;
        assert(out@ =~= v@.subrange(0, k as int));
    }
    assert(out@ =~= v@);
    out
}

/// A fresh vector with the entries of `a` followed by those of `b`.
fn concat_rows<T: Copy>(a: &Vec<T>, b: &Vec<T>) -> (out: Vec<T>)
    ensures
        out@ == a@ + b@,
{
    let mut out = copy_row(a);
    let mut k: usize = 0;
    while k < b.len()
        invariant
            k <= b@.len(),
            out@ == a@ + b@.subrange(0, k as int),
        decreases b@.len() - k,
    {
        out.push(b[k]);
        k = k + 1;
        assert(out@ =~= a@ + b@.subrange(0, k as int));
    }
    assert(b@.subrange(0, b@.len() as int) =~= b@);
    out
}

/// The block matrix `[[tl, tr], [bl, br]]`.
pub fn block_matrix<T: Copy>(
    tl: &DenseMatrix<T>,
    tr: &DenseMatrix<T>,
    bl: &DenseMatrix<T>,
    br: &DenseMatrix<T>,
) -> (m: DenseMatrix<T>)
    requires
        tl.wf(),
        tr.wf(),
        bl.wf(),
        br.wf(),
        tl.nrows() == tr.nrows(),
        bl.nrows() == br.nrows(),
        tl.ncols() == bl.ncols(),
        tr.ncols() == br.ncols(),
        tl.ncols() + tr.ncols() <= usize::MAX,
    ensures
        m.wf(),
        m.nrows() == tl.nrows() + bl.nrows(),
        m.ncols() == tl.ncols() + tr.ncols(),
        forall|r: int, c: int|
            0 <= r < tl.nrows() && 0 <= c < tl.ncols() ==> #[trigger] m@[r][c] == tl@[r][c],
        forall|r: int, c: int|
            0 <= r < tr.nrows() && 0 <= c < tr.ncols() ==> #[trigger] m@[r][tl.ncols() + c]
                == tr@[r][c],
        forall|r: int, c: int|
            0 <= r < bl.nrows() && 0 <= c < bl.ncols() ==> #[trigger] m@[tl.nrows() + r][c]
                == bl@[r][c],
        forall|r: int, c: int|
            0 <= r < br.nrows() && 0 <= c < br.ncols() ==> #[trigger] m@[tl.nrows() + r][tl.ncols()
                + c] == br@[r][c],
{
    let mut rows: Vec<Vec<T>> = Vec::new();
    let top = tl.n_rows();
    let mut r: usize = 0;
    while r < top
        invariant
            top == tl.nrows(),
            tl.nrows() == tr.nrows(),
            r <= top,
            rows@.len() == r,
            forall|i: int| 0 <= i < r ==> #[trigger] rows@[i]@ == joined_row(tl@, tr@, i),
        decreases top - r,
    {
        rows.push(concat_rows(tl.row(r), tr.row(r)));
        r = r + 1;
    }
    let bottom = bl.n_rows();
    let mut r: usize = 0;
    while r < bottom
        invariant
            top == tl.nrows(),
            bottom == bl.nrows(),
            bl.nrows() == br.nrows(),
            r <= bottom,
            rows@.len() == top + r,
            forall|i: int| 0 <= i < top ==> #[trigger] rows@[i]@ == joined_row(tl@, tr@, i),
            forall|i: int| 0 <= i < r ==> #[trigger] rows@[top + i]@ == joined_row(bl@, br@, i),
        decreases bottom - r,
    {
        rows.push(concat_rows(bl.row(r), br.row(r)));
        r = r + 1;
    }
    let m = DenseMatrix { n_cols: tl.n_cols() + tr.n_cols(), rows };
    assert forall|i: int| 0 <= i < m@.len() implies #[trigger] m@[i].len() == m.ncols() by {
        if i >= top {
            assert(rows@[top + (i - top)]@ == joined_row(bl@, br@, i - top));
        }
    }
    assert forall|r: int, c: int| 0 <= r < bl.nrows() && 0 <= c < bl.ncols() implies #[trigger] m@[
        tl.nrows() + r][c] == bl@[r][c] by {
        assert(rows@[top + r]@ == joined_row(bl@, br@, r));
    }
    assert forall|r: int, c: int| 0 <= r < br.nrows() && 0 <= c < br.ncols() implies #[trigger] m@[
        tl.nrows() + r][tl.ncols() + c] == br@[r][c] by {
        assert(rows@[top + r]@ == joined_row(bl@, br@, r));
    }
    m
}

/// A fresh vector with the entries of `v` in reverse order.
pub fn reversed<T: Copy>(v: &Vec<T>) -> (out: Vec<T>)
    ensures
        out@.len() == v@.len(),
        forall|i: int| 0 <= i < v@.len() ==> #[trigger] out@[i] == v@[v@.len() - 1 - i],
{
    let n = v.len();
    let mut out: Vec<T> = Vec::new();
    let mut i: usize = 0;
    while i < n
        invariant
            n == v@.len(),
            i <= n,
            out@.len() == i,
            forall|k: int| 0 <= k < i ==> #[trigger] out@[k] == v@[n - 1 - k],
        decreases n - i,
    {
        out.push(v[n - 1 - i]);
        i = i + 1;
    }
    out
}

/// The columns of `m` in reverse order.
pub fn reverse_cols<T: Copy>(m: &DenseMatrix<T>) -> (out: DenseMatrix<T>)
    requires
        m.wf(),
    ensures
        out.wf(),
        out.nrows() == m.nrows(),
        out.ncols() == m.ncols(),
        forall|r: int, c: int|
            0 <= r < m.nrows() && 0 <= c < m.ncols() ==> #[trigger] out@[r][c] == m@[r][m.ncols()
                - 1 - c],
{
    let n = m.n_rows();
    let mut rows: Vec<Vec<T>> = Vec::new();
    let mut r: usize = 0;
    while r < n
        invariant
            n == m.nrows(),
            m.wf(),
            r <= n,
            rows@.len() == r,
            forall|i: int| 0 <= i < r ==> #[trigger] rows@[i]@.len() == m.ncols(),
            forall|i: int, c: int|
                0 <= i < r && 0 <= c < m.ncols() ==> #[trigger] rows@[i]@[c] == m@[i][m.ncols() - 1
                    - c],
        decreases n - r,
    {
        let row = reversed(m.row(r));
        rows.push(row);
        r = r + 1;
    }
    DenseMatrix { n_cols: m.n_cols(), rows }
}

/// Column `c` of `m`.
pub fn column_entries<T: Copy>(m: &DenseMatrix<T>, c: usize) -> (out: Vec<T>)
    requires
        m.wf(),
        c < m.ncols(),
    ensures
        out@.len() == m.nrows(),
        forall|r: int| 0 <= r < m.nrows() ==> #[trigger] out@[r] == m@[r][c as int],
{
    let n = m.n_rows();
    let mut out: Vec<T> = Vec::new();
    let mut r: usize = 0;
    while r < n
        invariant
            n == m.nrows(),
            m.wf(),
            c < m.ncols(),
            r <= n,
            out@.len() == r,
            forall|k: int| 0 <= k < r ==> #[trigger] out@[k] == m@[k][c as int],
        decreases n - r,
    {
        out.push(m.get(r, c));
        r = r + 1;
    }
    out
}

/// The matrix whose row `r` is row `source[r]` of `m`. Applied with the
/// index array of a permutation `P` (`(P x)[r] = x[source[r]]`) it gives
/// `P m`.
pub fn permute_rows<T: Copy>(m: &DenseMatrix<T>, source: &Vec<usize>) -> (out: DenseMatrix<T>)
    requires
        m.wf(),
        forall|r: int| 0 <= r < source@.len() ==> #[trigger] source@[r] < m.nrows(),
    ensures
        out.wf(),
        out.nrows() == source@.len(),
        out.ncols() == m.ncols(),
        forall|r: int| 0 <= r < source@.len() ==> #[trigger] out@[r] == m@[source@[r] as int],
{
    let n = source.len();
    let mut rows: Vec<Vec<T>> = Vec::new();
    let mut r: usize = 0;
    while r < n
        invariant
            n == source@.len(),
            m.wf(),
            forall|r: int| 0 <= r < source@.len() ==> #[trigger] source@[r] < m.nrows(),
            r <= n,
            rows@.len() == r,
            forall|i: int| 0 <= i < r ==> #[trigger] rows@[i]@ == m@[source@[i] as int],
        decreases n - r,
    {
        rows.push(copy_row(m.row(source[r])));
        r = r + 1;
    }
    DenseMatrix { n_cols: m.n_cols(), rows }
}

/// The componentwise (Hadamard) product of two matrices of one shape: each
/// entry is `product` of the two entries at its place.
pub fn component_mul<T: Copy, F: Fn(T, T) -> T>(
    a: &DenseMatrix<T>,
    b: &DenseMatrix<T>,
    product: F,
) -> (out: DenseMatrix<T>)
    requires
        a.wf(),
        b.wf(),
        a.nrows() == b.nrows(),
        a.ncols() == b.ncols(),
        forall|x: T, y: T| #[trigger] product.requires((x, y)),
    ensures
        out.wf(),
        out.nrows() == a.nrows(),
        out.ncols() == a.ncols(),
        forall|r: int, c: int|
            0 <= r < a.nrows() && 0 <= c < a.ncols() ==> product.ensures(
                (a@[r][c], b@[r][c]),
                #[trigger] out@[r][c],
            ),
{
    let n_rows = a.n_rows();
    let n_cols = a.n_cols();
    let mut rows: Vec<Vec<T>> = Vec::new();
    let mut r: usize = 0;
    while r < n_rows
        invariant
            n_rows == a.nrows(),
            n_cols == a.ncols(),
            a.wf(),
            b.wf(),
            a.nrows() == b.nrows(),
            a.ncols() == b.ncols(),
            forall|x: T, y: T| #[trigger] product.requires((x, y)),
            r <= n_rows,
            rows@.len() == r,
            forall|i: int| 0 <= i < r ==> #[trigger] rows@[i]@.len() == n_cols,
            forall|i: int, c: int|
                0 <= i < r && 0 <= c < n_cols ==> product.ensures(
                    (a@[i][c], b@[i][c]),
                    #[trigger] rows@[i]@[c],
                ),
        decreases n_rows - r,
    {
        let mut row: Vec<T> = Vec::new();
        let mut c: usize = 0;
        while c < n_cols
            invariant
                n_rows == a.nrows(),
                n_cols == a.ncols(),
                a.wf(),
                b.wf(),
                a.nrows() == b.nrows(),
                a.ncols() == b.ncols(),
                forall|x: T, y: T| #[trigger] product.requires((x, y)),
                r < n_rows,
                c <= n_cols,
                row@.len() == c,
                forall|k: int|
                    0 <= k < c ==> product.ensures(
                        (a@[r as int][k], b@[r as int][k]),
                        #[trigger] row@[k],
                    ),
            decreases n_cols - c,
        {
            let v = product(a.get(r, c), b.get(r, c));
            row.push(v);
            c = c + 1;
        }
        rows.push(row);
        r = r + 1;
    }
    DenseMatrix { n_cols, rows }
}

/// The conjugate transpose of `m`, with `conj` as the conjugate of one
/// entry: entry `(r, c)` is `conj` of entry `(c, r)` of `m`.
pub fn adjoint<T: Copy, F: Fn(T) -> T>(m: &DenseMatrix<T>, conj: F) -> (out: DenseMatrix<T>)
    requires
        m.wf(),
        forall|x: T| #[trigger] conj.requires((x,)),
    ensures
        out.wf(),
        out.nrows() == m.ncols(),
        out.ncols() == m.nrows(),
        forall|r: int, c: int|
            0 <= r < m.ncols() && 0 <= c < m.nrows() ==> conj.ensures(
                (m@[c][r],),
                #[trigger] out@[r][c],
            ),
{
    let n_rows = m.n_cols();
    let n_cols = m.n_rows();
    let mut rows: Vec<Vec<T>> = Vec::new();
    let mut r: usize = 0;
    while r < n_rows
        invariant
            n_rows == m.ncols(),
            n_cols == m.nrows(),
            m.wf(),
            forall|x: T| #[trigger] conj.requires((x,)),
            r <= n_rows,
            rows@.len() == r,
            forall|i: int| 0 <= i < r ==> #[trigger] rows@[i]@.len() == n_cols,
            forall|i: int, c: int|
                0 <= i < r && 0 <= c < n_cols ==> conj.ensures((m@[c][i],), #[trigger] rows@[i]@[c]),
        decreases n_rows - r,
    {
        let mut row: Vec<T> = Vec::new();
        let mut c: usize = 0;
        while c < n_cols
            invariant
                n_rows == m.ncols(),
                n_cols == m.nrows(),
                m.wf(),
                forall|x: T| #[trigger] conj.requires((x,)),
                r < n_rows,
                c <= n_cols,
                row@.len() == c,
                forall|k: int| 0 <= k < c ==> conj.ensures((m@[k][r as int],), #[trigger] row@[k]),
            decreases n_cols - c,
        {
            let v = conj(m.get(c, r));
            row.push(v);
            c = c + 1;
        }
        rows.push(row);
        r = r + 1;
    }
    DenseMatrix { n_cols, rows }
}

/// `m` with `d[i]` added (by `plus`) to its diagonal entry `(i, i)`; the
/// other entries are kept.
pub fn add_to_diagonal<T: Copy, F: Fn(T, T) -> T>(m: &DenseMatrix<T>, d: &Vec<T>, plus: F) -> (out:
    DenseMatrix<T>)
    requires
        m.wf(),
        m.is_square(),
        d@.len() == m.nrows(),
        forall|x: T, y: T| #[trigger] plus.requires((x, y)),
    ensures
        out.wf(),
        out.nrows() == m.nrows(),
        out.ncols() == m.ncols(),
        forall|r: int, c: int|
            0 <= r < m.nrows() && 0 <= c < m.ncols() && r != c ==> #[trigger] out@[r][c] == m@[r][c],
        forall|i: int| 0 <= i < m.nrows() ==> plus.ensures((m@[i][i], d@[i]), #[trigger] out@[i][i]),
{
    let n = m.n_rows();
    let mut rows: Vec<Vec<T>> = Vec::new();
    let mut r: usize = 0;
    while r < n
        invariant
            n == m.nrows(),
            m.wf(),
            m.is_square(),
            d@.len() == n,
            forall|x: T, y: T| #[trigger] plus.requires((x, y)),
            r <= n,
            rows@.len() == r,
            forall|i: int| 0 <= i < r ==> #[trigger] rows@[i]@.len() == n,
            forall|i: int, c: int|
                0 <= i < r && 0 <= c < n && i != c ==> #[trigger] rows@[i]@[c] == m@[i][c],
            forall|i: int| 0 <= i < r ==> plus.ensures((m@[i][i], d@[i]), #[trigger] rows@[i]@[i]),
        decreases n - r,
    {
        let mut row = copy_row(m.row(r));
        let v = plus(m.get(r, r), d[r]);
        row.set(r, v);
        rows.push(row);
        r = r + 1;
    }
    DenseMatrix { n_cols: m.n_cols(), rows }
}

/// The diagonal entries of the square matrix `m`.
pub fn diagonal<T: Copy>(m: &DenseMatrix<T>) -> (d: Vec<T>)
    requires
        m.wf(),
        m.is_square(),
    ensures
        d@.len() == m.nrows(),
        forall|i: int| 0 <= i < m.nrows() ==> #[trigger] d@[i] == m@[i][i],
{
    let n = m.n_rows();
    let mut d: Vec<T> = Vec::new();
    let mut i: usize = 0;
    while i < n
        invariant
            n == m.nrows(),
            m.wf(),
            m.is_square(),
            i <= n,
            d@.len() == i,
            forall|k: int| 0 <= k < i ==> #[trigger] d@[k] == m@[k][k],
        decreases n - i,
    {
        d.push(m.get(i, i));
        i = i + 1;
    }
    d
}

} // verus!
