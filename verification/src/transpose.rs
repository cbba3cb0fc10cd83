//! Cache-blocked matrix transpose.

use vstd::prelude::*;

verus! {

/// L1 cache size in bytes assumed by the block-size rule.
pub const L1_CACHE_SIZE: usize = 32768;

/// The integer square root: the largest `r` with `r * r <= n`.
pub open spec fn floor_sqrt(n: nat) -> nat
    decreases n,
{
    if n == 0 {
        0
    } else {
        let r = floor_sqrt((n - 1) as nat);
        if (r + 1) * (r + 1) <= n {
            (r + 1) as nat
        } else {
            r
        }
    }
}

/// `x` clamped into `[lo, hi]`.
pub open spec fn clamp_spec(x: int, lo: int, hi: int) -> int {
    if x < lo {
        lo
    } else if x > hi {
        hi
    } else {
        x
    }
}

/// The block size for elements of `element_size` bytes: the square root of
/// the number of elements that fill half the L1 cache, clamped to `[8, 64]`.
pub open spec fn spec_block_size(element_size: nat) -> int
    recommends
        element_size > 0,
{
    clamp_spec(floor_sqrt((L1_CACHE_SIZE / 2) as nat / element_size) as int, 8, 64)
}

/// `floor_sqrt(n)` is the root that its name says.
pub proof fn lemma_floor_sqrt_bounds(n: nat)
    ensures
        floor_sqrt(n) * floor_sqrt(n) <= n,
        n < (floor_sqrt(n) + 1) * (floor_sqrt(n) + 1),
    decreases n,
{
    if n > 0 {
        lemma_floor_sqrt_bounds((n - 1) as nat);
        let r = floor_sqrt((n - 1) as nat);
        if (r + 1) * (r + 1) <= n {
            assert(floor_sqrt(n) == r + 1);
            assert(n < (r + 2) * (r + 2)) by (nonlinear_arith)
                requires
                    n - 1 < (r + 1) * (r + 1),
            ;
        } else {
            assert(floor_sqrt(n) == r);
        }
    } else {
        assert(floor_sqrt(0) == 0);
        assert((0 + 1) * (0 + 1) == 1) by (nonlinear_arith);
    }
}

/// Any `r` with `r * r <= n < (r + 1) * (r + 1)` is `floor_sqrt(n)`.
pub proof fn lemma_floor_sqrt_unique(n: nat, r: nat)
    requires
        r * r <= n,
        n < (r + 1) * (r + 1),
    ensures
        r == floor_sqrt(n),
{
    lemma_floor_sqrt_bounds(n);
    let s = floor_sqrt(n);
    if r < s {
        assert((r + 1) * (r + 1) <= s * s) by (nonlinear_arith)
            requires
                r + 1 <= s,
        ;
    } else if s < r {
        assert((s + 1) * (s + 1) <= r * r) by (nonlinear_arith)
            requires
                s + 1 <= r,
        ;
    }
}

/// Integer square root of a value no larger than half the L1 cache.
fn isqrt_small(n: usize) -> (r: usize)
    requires
        n <= L1_CACHE_SIZE / 2,
    ensures
        r == floor_sqrt(n as nat),
{
    let mut r: usize = 0;
    loop
        invariant
            r <= 128,
            r * r <= n,
            n <= 16384,
        ensures
            r * r <= n,
            n < (r + 1) * (r + 1),
        decreases 129 - r,
    {
        let next = r + 1;
        assert(next * next <= 16641) by (nonlinear_arith)
            requires
                next <= 129,
        ;
        if next * next > n {
            break;
        }
        assert(next <= 128) by (nonlinear_arith)
            requires
                next * next <= n,
                n <= 16384,
        ;
        r = next;
    }
    proof {
        lemma_floor_sqrt_unique(n as nat, r as nat);
    }
    r
}

/// Block size for a cache-friendly transpose of elements of `element_size`
/// bytes: `sqrt(L1_CACHE_SIZE / 2 / element_size)`, so that two blocks fit
/// in L1, clamped to `[8, 64]`. The root is taken on integers; for the
/// values that occur here it equals the floor of the floating-point root.
pub fn calculate_block_size(element_size: usize) -> (block_size: usize)
    requires
        element_size > 0,
    ensures
        block_size == spec_block_size(element_size as nat),
        8 <= block_size <= 64,
        block_size == 8 || block_size * block_size <= 16384int / (element_size as int),
        block_size == 64 || 16384int / (element_size as int) < (block_size + 1) * (block_size
            + 1),
{
    let optimal = (L1_CACHE_SIZE / 2) / element_size;
    let root = isqrt_small(optimal);
    proof {
        lemma_floor_sqrt_bounds(optimal as nat);
        if root < 8 {
            assert((root + 1) * (root + 1) <= 81) by (nonlinear_arith)
                requires
                    root < 8,
            ;
        } else if root > 64 {
            assert(64 * 64 <= root * root) by (nonlinear_arith)
                requires
                    root > 64,
            ;
        }
    }
    if root < 8 {
        8
    } else if root > 64 {
        64
    } else {
        root
    }
}

/// Matrices with fewer elements than this are transposed without blocking.
pub const BLOCKING_THRESHOLD: usize = 4096;

/// A dense two-dimensional matrix stored in row-major order.
pub struct Matrix<T> {
    rows: usize,
    cols: usize,
    data: Vec<T>,
}

impl<T> Matrix<T> {
    /// Number of rows.
    pub closed spec fn num_rows(&self) -> nat {
        self.rows as nat
    }

    /// Number of columns.
    pub closed spec fn num_cols(&self) -> nat {
        self.cols as nat
    }

    /// The entries in row-major order.
    pub closed spec fn elements(&self) -> Seq<T> {
        self.data@
    }

    /// The shape agrees with the number of stored entries.
    pub open spec fn wf(&self) -> bool {
        self.elements().len() == self.num_rows() * self.num_cols()
    }

    /// The entry in row `i` and column `j`.
    pub open spec fn at(&self, i: int, j: int) -> T {
        self.elements()[i * self.num_cols() + j]
    }

    /// Builds a `rows` x `cols` matrix from its entries in row-major order;
    /// `None` when the number of entries is not `rows * cols`.
    pub fn from_shape_vec(rows: usize, cols: usize, data: Vec<T>) -> (r: Option<Matrix<T>>)
        ensures
            r is Some <==> data@.len() == rows * cols,
            r matches Some(m) ==> {
                &&& m.wf()
                &&& m.num_rows() == rows
                &&& m.num_cols() == cols
                &&& m.elements() == data@
            },
    {
        let len = data.len();
        match rows.checked_mul(cols) {
            Some(n) => {
                if n == len {
                    Some(Matrix { rows, cols, data })
                } else {
                    None
                }
            },
            None => {
                None
            },
        }
    }

    /// The shape `(rows, cols)`.
    pub fn dim(&self) -> (d: (usize, usize))
        ensures
            d.0 == self.num_rows(),
            d.1 == self.num_cols(),
    {
        (self.rows, self.cols)
    }

    /// The entries in row-major order, giving up the matrix.
    pub fn into_vec(self) -> (v: Vec<T>)
        ensures
            v@ == self.elements(),
    {
        self.data
    }

    /// The entry in row `i` and column `j`.
    pub fn get(&self, i: usize, j: usize) -> (v: T) where T: Copy
        requires
            self.wf(),
            i < self.num_rows(),
            j < self.num_cols(),
        ensures
            v == self.at(i as int, j as int),
    {
        let n = self.data.len();
        proof {
            lemma_index_bound(i as int, j as int, self.rows as int, self.cols as int);
        }
        self.data[i * self.cols + j]
    }
}

/// `b` is the transpose of `a`: the shape is swapped and entry `(j, i)` of
/// `b` is entry `(i, j)` of `a`.
pub open spec fn is_transpose_of<T>(b: Matrix<T>, a: Matrix<T>) -> bool {
    &&& b.wf()
    &&& b.num_rows() == a.num_cols()
    &&& b.num_cols() == a.num_rows()
    &&& forall|i: int, j: int|
        0 <= i < a.num_rows() && 0 <= j < a.num_cols() ==> #[trigger] b.at(j, i) == a.at(i, j)
}

/// Cell `(i, j)` of the row-major `rows` x `cols` source `src` is in place in
/// the row-major `cols` x `rows` buffer `res`.
spec fn cell_ok<T>(res: Seq<T>, src: Seq<T>, rows: int, cols: int, i: int, j: int) -> bool {
    &&& 0 <= j * rows + i < res.len()
    &&& res[j * rows + i] == src[i * cols + j]
}

proof fn lemma_index_bound(i: int, j: int, rows: int, cols: int)
    requires
        0 <= i < rows,
        0 <= j < cols,
    ensures
        0 <= i * cols + j < rows * cols,
        0 <= j * rows + i < rows * cols,
{
    assert(0 <= i * cols + j < rows * cols) by (nonlinear_arith)
        requires
            0 <= i < rows,
            0 <= j < cols,
    ;
    assert(0 <= j * rows + i < rows * cols) by (nonlinear_arith)
        requires
            0 <= i < rows,
            0 <= j < cols,
    ;
}

proof fn lemma_index_injective(i1: int, j1: int, i2: int, j2: int, rows: int)
    requires
        0 <= i1 < rows,
        0 <= i2 < rows,
        0 <= j1,
        0 <= j2,
        j1 * rows + i1 == j2 * rows + i2,
    ensures
        i1 == i2,
        j1 == j2,
{
    if j1 < j2 {
        assert(j1 * rows + i1 < j2 * rows + i2) by (nonlinear_arith)
            requires
                0 <= i1 < rows,
                0 <= i2,
                j1 < j2,
        ;
    } else if j2 < j1 {
        assert(j2 * rows + i2 < j1 * rows + i1) by (nonlinear_arith)
            requires
                0 <= i2 < rows,
                0 <= i1,
                j2 < j1,
        ;
    }
}

/// Writing cell `(i, j)` into the buffer keeps every cell already in place.
proof fn lemma_write_cell<T>(old_res: Seq<T>, new_res: Seq<T>, src: Seq<T>, rows: int, cols: int, i: int, j: int)
    requires
        0 <= i < rows,
        0 <= j < cols,
        old_res.len() == rows * cols,
        src.len() == rows * cols,
        new_res == old_res.update(j * rows + i, src[i * cols + j]),
    ensures
        cell_ok(new_res, src, rows, cols, i, j),
        forall|i2: int, j2: int|
            0 <= i2 < rows && 0 <= j2 < cols && cell_ok(old_res, src, rows, cols, i2, j2)
                ==> #[trigger] cell_ok(new_res, src, rows, cols, i2, j2),
{
    lemma_index_bound(i, j, rows, cols);
    assert forall|i2: int, j2: int|
        0 <= i2 < rows && 0 <= j2 < cols && cell_ok(old_res, src, rows, cols, i2, j2)
            implies #[trigger] cell_ok(new_res, src, rows, cols, i2, j2) by {
        if j2 * rows + i2 == j * rows + i {
            lemma_index_injective(i2, j2, i, j, rows);
        }
    }
}

/// Transpose by reading the source column by column.
fn transpose_simple<T: Copy>(a: &Matrix<T>) -> (res: Vec<T>)
    requires
        a.wf(),
    ensures
        res@.len() == a.num_rows() * a.num_cols(),
        forall|i: int, j: int|
            0 <= i < a.num_rows() && 0 <= j < a.num_cols() ==> #[trigger] cell_ok(
                res@,
                a.elements(),
                a.num_rows() as int,
                a.num_cols() as int,
                i,
                j,
            ),
{
    let rows = a.rows;
    let cols = a.cols;
    let ghost src = a.data@;
    let n = a.data.len();
    let mut res: Vec<T> = Vec::new();
    let mut j: usize = 0;
    while j < cols
        invariant
            rows == a.rows,
            cols == a.cols,
            src == a.data@,
            src.len() == rows * cols,
            n == src.len(),
            j <= cols,
            res@.len() == j * rows,
            forall|i2: int, j2: int|
                0 <= i2 < rows && 0 <= j2 < j ==> #[trigger] cell_ok(
                    res@,
                    src,
                    rows as int,
                    cols as int,
                    i2,
                    j2,
                ),
        decreases cols - j,
    {
        let mut i: usize = 0;
        while i < rows
            invariant
                rows == a.rows,
                cols == a.cols,
                src == a.data@,
                src.len() == rows * cols,
                n == src.len(),
                j < cols,
                i <= rows,
                res@.len() == j * rows + i,
                forall|i2: int, j2: int|
                    0 <= i2 < rows && 0 <= j2 < j ==> #[trigger] cell_ok(
                        res@,
                        src,
                        rows as int,
                        cols as int,
                        i2,
                        j2,
                    ),
                forall|i2: int|
                    0 <= i2 < i ==> #[trigger] cell_ok(
                        res@,
                        src,
                        rows as int,
                        cols as int,
                        i2,
                        j as int,
                    ),
            decreases rows - i,
        {
            proof {
                lemma_index_bound(i as int, j as int, rows as int, cols as int);
            }
            let v = a.data[i * cols + j];
            let ghost old_res = res@;
            res.push(v);
            proof {
                assert forall|i2: int, j2: int|
                    cell_ok(old_res, src, rows as int, cols as int, i2, j2) implies #[trigger] cell_ok(
                    res@,
                    src,
                    rows as int,
                    cols as int,
                    i2,
                    j2,
                ) by {
                    assert(res@[j2 * rows + i2] == old_res[j2 * rows + i2]);
                }
                assert(cell_ok(res@, src, rows as int, cols as int, i as int, j as int));
            }
            i = i + 1;
        }
        proof {
            assert(j * rows + rows == (j + 1) * rows) by (nonlinear_arith);
        }
        j = j + 1;
    }
    proof {
        assert(cols * rows == rows * cols) by (nonlinear_arith);
    }
    res
}

/// Transpose in square tiles of `block_size`: the tiles of the source are
/// visited row-block by row-block, and each tile is written into the
/// result before the next is read.
fn transpose_tiled<T: Copy>(a: &Matrix<T>, block_size: usize) -> (res: Vec<T>)
    requires
        a.wf(),
        a.num_rows() * a.num_cols() > 0,
        block_size > 0,
    ensures
        res@.len() == a.num_rows() * a.num_cols(),
        forall|i: int, j: int|
            0 <= i < a.num_rows() && 0 <= j < a.num_cols() ==> #[trigger] cell_ok(
                res@,
                a.elements(),
                a.num_rows() as int,
                a.num_cols() as int,
                i,
                j,
            ),
{
    let rows = a.rows;
    let cols = a.cols;
    let ghost src = a.data@;
    let n = a.data.len();
    let fill = a.data[0];
    let mut res: Vec<T> = Vec::new();
    while res.len() < n
        invariant
            res@.len() <= n,
        decreases n - res@.len(),
    {
        res.push(fill);
    }
    let mut ib: usize = 0;
    while ib < rows
        invariant
            rows == a.rows,
            cols == a.cols,
            src == a.data@,
            n == src.len(),
            n == rows * cols,
            res@.len() == n,
            block_size > 0,
            ib <= rows,
            forall|i2: int, j2: int|
                0 <= i2 < ib && 0 <= j2 < cols ==> #[trigger] cell_ok(
                    res@,
                    src,
                    rows as int,
                    cols as int,
                    i2,
                    j2,
                ),
        decreases rows - ib,
    {
        let i_end = if rows - ib > block_size {
            ib + block_size
        } else {
            rows
        };
        let mut jb: usize = 0;
        while jb < cols
            invariant
                rows == a.rows,
                cols == a.cols,
                src == a.data@,
                n == src.len(),
                n == rows * cols,
                res@.len() == n,
                block_size > 0,
                ib < i_end <= rows,
                jb <= cols,
                forall|i2: int, j2: int|
                    0 <= i2 < ib && 0 <= j2 < cols ==> #[trigger] cell_ok(
                        res@,
                        src,
                        rows as int,
                        cols as int,
                        i2,
                        j2,
                    ),
                forall|i2: int, j2: int|
                    ib <= i2 < i_end && 0 <= j2 < jb ==> #[trigger] cell_ok(
                        res@,
                        src,
                        rows as int,
                        cols as int,
                        i2,
                        j2,
                    ),
            decreases cols - jb,
        {
            let j_end = if cols - jb > block_size {
                jb + block_size
            } else {
                cols
            };
            let mut i = ib;
            while i < i_end
                invariant
                    rows == a.rows,
                    cols == a.cols,
                    src == a.data@,
                    n == src.len(),
                    n == rows * cols,
                    res@.len() == n,
                    ib < i_end <= rows,
                    jb < j_end <= cols,
                    ib <= i <= i_end,
                    forall|i2: int, j2: int|
                        0 <= i2 < ib && 0 <= j2 < cols ==> #[trigger] cell_ok(
                            res@,
                            src,
                            rows as int,
                            cols as int,
                            i2,
                            j2,
                        ),
                    forall|i2: int, j2: int|
                        ib <= i2 < i_end && 0 <= j2 < jb ==> #[trigger] cell_ok(
                            res@,
                            src,
                            rows as int,
                            cols as int,
                            i2,
                            j2,
                        ),
                    forall|i2: int, j2: int|
                        ib <= i2 < i && jb <= j2 < j_end ==> #[trigger] cell_ok(
                            res@,
                            src,
                            rows as int,
                            cols as int,
                            i2,
                            j2,
                        ),
                decreases i_end - i,
            {
                let mut j = jb;
                while j < j_end
                    invariant
                        rows == a.rows,
                        cols == a.cols,
                        src == a.data@,
                        n == src.len(),
                        n == rows * cols,
                        res@.len() == n,
                        ib < i_end <= rows,
                        jb < j_end <= cols,
                        ib <= i < i_end,
                        jb <= j <= j_end,
                        forall|i2: int, j2: int|
                            0 <= i2 < ib && 0 <= j2 < cols ==> #[trigger] cell_ok(
                                res@,
                                src,
                                rows as int,
                                cols as int,
                                i2,
                                j2,
                            ),
                        forall|i2: int, j2: int|
                            ib <= i2 < i_end && 0 <= j2 < jb ==> #[trigger] cell_ok(
                                res@,
                                src,
                                rows as int,
                                cols as int,
                                i2,
                                j2,
                            ),
                        forall|i2: int, j2: int|
                            ib <= i2 < i && jb <= j2 < j_end ==> #[trigger] cell_ok(
                                res@,
                                src,
                                rows as int,
                                cols as int,
                                i2,
                                j2,
                            ),
                        forall|j2: int|
                            jb <= j2 < j ==> #[trigger] cell_ok(
                                res@,
                                src,
                                rows as int,
                                cols as int,
                                i as int,
                                j2,
                            ),
                    decreases j_end - j,
                {
                    proof {
                        lemma_index_bound(i as int, j as int, rows as int, cols as int);
                    }
                    let v = a.data[i * cols + j];
                    let ghost old_res = res@;
                    res.set(j * rows + i, v);
                    proof {
                        lemma_write_cell(
                            old_res,
                            res@,
                            src,
                            rows as int,
                            cols as int,
                            i as int,
                            j as int,
                        );
                    }
                    j = j + 1;
                }
                i = i + 1;
            }
            jb = j_end;
        }
        ib = i_end;
    }
    res
}

/// Cache-blocked transpose of `a`: the result has shape `(cols, rows)` and
/// its entry `(j, i)` is entry `(i, j)` of `a`.
///
/// Matrices with fewer than `BLOCKING_THRESHOLD` entries are transposed
/// directly; larger ones are walked in square tiles whose side is
/// `calculate_block_size` of the element size, so that a source tile and a
/// result tile fit in L1 together.
pub fn simd_transpose_blocked<T: Copy>(a: &Matrix<T>) -> (r: Matrix<T>)
    requires
        a.wf(),
        vstd::layout::size_of::<T>() > 0,
    ensures
        is_transpose_of(r, *a),
        r.wf(),
        r.num_rows() == a.num_cols(),
        r.num_cols() == a.num_rows(),
        forall|i: int, j: int|
            0 <= i < a.num_rows() && 0 <= j < a.num_cols() ==> #[trigger] r.at(j, i) == a.at(i, j),
{
    let (rows, cols) = a.dim();
    let n = a.data.len();
    let data = if n < BLOCKING_THRESHOLD {
        transpose_simple(a)
    } else {
        let block_size = calculate_block_size(core::mem::size_of::<T>());
        transpose_tiled(a, block_size)
    };
    let r = Matrix { rows: cols, cols: rows, data };
    proof {
        assert(cols * rows == rows * cols) by (nonlinear_arith);
        assert forall|i: int, j: int|
            0 <= i < a.num_rows() && 0 <= j < a.num_cols() implies #[trigger] r.at(j, i) == a.at(
            i,
            j,
        ) by {
            assert(cell_ok(r.data@, a.data@, rows as int, cols as int, i, j));
        }
    }
    r
}

/// Transposing twice gives back the matrix: if `b` is the transpose of `a`
/// and `c` the transpose of `b`, then `c` has the shape and the entries of
/// `a`.
pub proof fn lemma_transpose_involution<T>(a: Matrix<T>, b: Matrix<T>, c: Matrix<T>)
    requires
        a.wf(),
        is_transpose_of(b, a),
        is_transpose_of(c, b),
    ensures
        c.num_rows() == a.num_rows(),
        c.num_cols() == a.num_cols(),
        c.elements() == a.elements(),
{
    let rows = a.num_rows() as int;
    let cols = a.num_cols() as int;
    assert forall|k: int| 0 <= k < c.elements().len() implies c.elements()[k] == a.elements()[k] by {
        let i = k / cols;
        let j = k % cols;
        assert(cols > 0) by (nonlinear_arith)
            requires
                0 <= k < rows * cols,
                rows >= 0,
        ;
        vstd::arithmetic::div_mod::lemma_fundamental_div_mod(k, cols);
        assert(0 <= i < rows) by (nonlinear_arith)
            requires
                0 <= k < rows * cols,
                cols > 0,
                k == cols * i + j,
                0 <= j < cols,
        ;
        assert(0 <= j < cols);
        assert(c.at(i, j) == b.at(j, i));
        assert(b.at(j, i) == a.at(i, j));
        assert(i * cols + j == k) by (nonlinear_arith)
            requires
                k == cols * i + j,
        ;
    }
    assert(c.elements() =~= a.elements());
}

} // verus!
