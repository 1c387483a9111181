//! Dense row-major matrices over an abstract scalar, with the Cholesky
//! factorization and the triangular solves the frame solver rests on.

use vstd::prelude::*;

use crate::scalar::Scalar;

verus! {

/// A dense `rows x cols` matrix stored row-major in a flat vector.
pub struct Mat<S> {
    pub rows: usize,
    pub cols: usize,
    pub a: Vec<S>,
}

/// `i * cols + j` stays below `rows * cols` for an in-range entry.
proof fn lemma_flat_index_in_range(i: int, j: int, rows: int, cols: int) by (nonlinear_arith)
    requires
        0 <= i < rows,
        0 <= j < cols,
    ensures
        0 <= i * cols + j < rows * cols,
{
}

/// Distinct entry coordinates map to distinct flat indices.
proof fn lemma_flat_index_distinct(i1: int, j1: int, i2: int, j2: int, cols: int) by (nonlinear_arith)
    requires
        0 <= j1 < cols,
        0 <= j2 < cols,
        0 <= i1,
        0 <= i2,
        !(i1 == i2 && j1 == j2),
    ensures
        i1 * cols + j1 != i2 * cols + j2,
{
}

impl<S: Scalar> Mat<S> {
    /// The storage is exactly full and its length fits the machine.
    pub open spec fn wf(self) -> bool {
        self.a@.len() == self.rows * self.cols && self.rows * self.cols <= usize::MAX
    }

    /// The entry in row `i`, column `j`.
    pub open spec fn entry(self, i: int, j: int) -> S {
        self.a@[i * self.cols + j]
    }

    /// Both matrices have the same shape and the same entries.
    pub open spec fn same_shape(self, other: Self) -> bool {
        self.rows == other.rows && self.cols == other.cols
    }

    /// A `rows x cols` matrix with every entry the implementation's zero.
    pub fn zeros(rows: usize, cols: usize) -> (r: Self)
        requires
            rows * cols <= usize::MAX,
        ensures
            r.wf(),
            r.rows == rows,
            r.cols == cols,
    {
        let count: usize = rows * cols;
        Mat { rows, cols, a: vec![S::zero(); count] }
    }

    /// Reads the entry in row `i`, column `j`.
    pub fn get(&self, i: usize, j: usize) -> (r: S)
        requires
            self.wf(),
            i < self.rows,
            j < self.cols,
        ensures
            r == self.entry(i as int, j as int),
    {
        proof {
            lemma_flat_index_in_range(i as int, j as int, self.rows as int, self.cols as int);
        }
        let k: usize = i * self.cols + j;
        self.a[k]
    }

    /// Replaces the entry in row `i`, column `j`, leaving every other entry
    /// and the shape unchanged.
    pub fn set(&mut self, i: usize, j: usize, v: S)
        requires
            old(self).wf(),
            i < old(self).rows,
            j < old(self).cols,
        ensures
            final(self).wf(),
            final(self).same_shape(*old(self)),
            final(self).entry(i as int, j as int) == v,
            forall|i2: int, j2: int|
                0 <= i2 < old(self).rows && 0 <= j2 < old(self).cols && !(i2 == i && j2 == j)
                    ==> final(self).entry(i2, j2) == old(self).entry(i2, j2),
    {
        proof {
            lemma_flat_index_in_range(i as int, j as int, self.rows as int, self.cols as int);
        }
        let k: usize = i * self.cols + j;
        self.a.set(k, v);
        proof {
            assert forall|i2: int, j2: int|
                0 <= i2 < old(self).rows && 0 <= j2 < old(self).cols && !(i2 == i && j2 == j)
                    implies self.entry(i2, j2) == old(self).entry(i2, j2) by {
                lemma_flat_index_in_range(i2, j2, self.rows as int, self.cols as int);
                lemma_flat_index_distinct(i2, j2, i as int, j as int, self.cols as int);
            }
        }
    }

    /// The transpose: entry `(j, i)` of the result is entry `(i, j)` here.
    pub fn transpose(&self) -> (r: Self)
        requires
            self.wf(),
        ensures
            r.wf(),
            r.rows == self.cols,
            r.cols == self.rows,
            forall|i: int, j: int|
                0 <= i < self.rows && 0 <= j < self.cols
                    ==> r.entry(j, i) == self.entry(i, j),
    {
        let mut out: Vec<S> = Vec::new();
        for j in 0..self.cols
            invariant
                self.wf(),
                out@.len() == j * self.rows,
                j * self.rows <= self.cols * self.rows,
                forall|j2: int, i2: int|
                    0 <= j2 < j && 0 <= i2 < self.rows
                        ==> out@[j2 * self.rows + i2] == self.entry(i2, j2),
        {
            for i in 0..self.rows
                invariant
                    self.wf(),
                    j < self.cols,
                    out@.len() == j * self.rows + i,
                    i <= self.rows,
                    j * self.rows + i <= self.cols * self.rows,
                    forall|j2: int, i2: int|
                        0 <= j2 < j && 0 <= i2 < self.rows
                            ==> out@[j2 * self.rows + i2] == self.entry(i2, j2),
                    forall|i2: int|
                        0 <= i2 < i ==> out@[j * self.rows + i2] == self.entry(i2, j as int),
            {
                out.push(self.get(i, j));
                proof {
                    assert((j + 1) * self.rows <= self.cols * self.rows) by (nonlinear_arith)
                        requires j + 1 <= self.cols, 0 <= self.rows;
                    assert(j * self.rows + self.rows == (j + 1) * self.rows) by (nonlinear_arith);
                    assert forall|j2: int, i2: int|
                        0 <= j2 < j && 0 <= i2 < self.rows
                            implies out@[j2 * self.rows + i2] == self.entry(i2, j2) by {
                        lemma_flat_index_in_range(j2, i2, j as int, self.rows as int);
                        assert(j2 * self.rows + i2 < j * self.rows);
                    }
                }
            }
            proof {
                assert(j * self.rows + self.rows == (j + 1) * self.rows) by (nonlinear_arith);
            }
        }
        proof {
            assert(self.cols * self.rows == self.rows * self.cols) by (nonlinear_arith);
        }
        let r = Mat { rows: self.cols, cols: self.rows, a: out };
        proof {
            assert forall|i: int, j: int|
                0 <= i < self.rows && 0 <= j < self.cols
                    implies r.entry(j, i) == self.entry(i, j) by {
                lemma_flat_index_in_range(j, i, self.cols as int, self.rows as int);
            }
        }
        r
    }

    /// The matrix product `self * other`.
    pub fn mul_mat(&self, other: &Self) -> (r: Self)
        requires
            self.wf(),
            other.wf(),
            self.cols == other.rows,
            self.rows * other.cols <= usize::MAX,
        ensures
            r.wf(),
            r.rows == self.rows,
            r.cols == other.cols,
    {
        let mut out: Vec<S> = Vec::new();
        proof {
            assert(0 * other.cols == 0) by (nonlinear_arith);
        }
        for i in 0..self.rows
            invariant
                self.wf(),
                other.wf(),
                self.cols == other.rows,
                self.rows * other.cols <= usize::MAX,
                out@.len() == i * other.cols,
        {
            for j in 0..other.cols
                invariant
                    self.wf(),
                    other.wf(),
                    self.cols == other.rows,
                    self.rows * other.cols <= usize::MAX,
                    i < self.rows,
                    j <= other.cols,
                    out@.len() == i * other.cols + j,
            {
                let mut acc: S = S::zero();
                for k in 0..self.cols
                    invariant
                        self.wf(),
                        other.wf(),
                        self.cols == other.rows,
                        i < self.rows,
                        j < other.cols,
                {
                    acc = acc.plus(self.get(i, k).times(other.get(k, j)));
                }
                out.push(acc);
            }
            proof {
                assert(i * other.cols + other.cols == (i + 1) * other.cols) by (nonlinear_arith);
            }
        }
        Mat { rows: self.rows, cols: other.cols, a: out }
    }

    /// The matrix-vector product `self * v`.
    pub fn mul_vec(&self, v: &Vec<S>) -> (r: Vec<S>)
        requires
            self.wf(),
            v@.len() == self.cols,
        ensures
            r@.len() == self.rows,
    {
        let mut out: Vec<S> = Vec::new();
        for i in 0..self.rows
            invariant
                self.wf(),
                v@.len() == self.cols,
                out@.len() == i,
        {
            let mut acc: S = S::zero();
            for k in 0..self.cols
                invariant
                    self.wf(),
                    v@.len() == self.cols,
                    i < self.rows,
            {
                acc = acc.plus(self.get(i, k).times(v[k]));
            }
            out.push(acc);
        }
        out
    }

    /// Row `i` as a vector.
    pub fn row(&self, i: usize) -> (r: Vec<S>)
        requires
            self.wf(),
            i < self.rows,
        ensures
            r@.len() == self.cols,
            forall|j: int| 0 <= j < self.cols ==> r@[j] == self.entry(i as int, j),
    {
        let mut out: Vec<S> = Vec::new();
        for j in 0..self.cols
            invariant
                self.wf(),
                i < self.rows,
                out@.len() == j,
                forall|j2: int| 0 <= j2 < j ==> out@[j2] == self.entry(i as int, j2),
        {
            out.push(self.get(i, j));
        }
        out
    }
}

/// The elementwise sum `a + b`.
pub fn vec_plus<S: Scalar>(a: &Vec<S>, b: &Vec<S>) -> (r: Vec<S>)
    requires
        a@.len() == b@.len(),
    ensures
        r@.len() == a@.len(),
{
    let mut out: Vec<S> = Vec::new();
    let n: usize = a.len();
    for i in 0..n
        invariant
            a@.len() == n,
            b@.len() == n,
            out@.len() == i,
    {
        out.push(a[i].plus(b[i]));
    }
    out
}

/// The lower-triangular Cholesky factor `L` of a square matrix, with
/// `L * transpose(L)` standing for the input, or `None` as soon as a pivot
/// fails the positivity test, which is how a non-positive-definite (singular
/// or unstable) system announces itself.
pub fn cholesky_factor<S: Scalar>(m: &Mat<S>) -> (r: Option<Mat<S>>)
    requires
        m.wf(),
        m.rows == m.cols,
    ensures
        match r {
            Some(l) => l.wf() && l.rows == m.rows && l.cols == m.cols,
            None => true,
        },
{
    let n: usize = m.rows;
    let mut l: Mat<S> = Mat::zeros(n, n);
    for j in 0..n
        invariant
            m.wf(),
            m.rows == n,
            m.cols == n,
            l.wf(),
            l.rows == n,
            l.cols == n,
    {
        let mut diag: S = m.get(j, j);
        for k in 0..j
            invariant
                m.wf(),
                m.rows == n,
                m.cols == n,
                l.wf(),
                l.rows == n,
                l.cols == n,
                j < n,
        {
            let ljk = l.get(j, k);
            diag = diag.minus(ljk.times(ljk));
        }
        if !S::zero().lt(diag) {
            return None;
        }
        let pivot = diag.sqrt();
        l.set(j, j, pivot);
        let mut i: usize = j + 1;
        while i < n
            invariant
                m.wf(),
                m.rows == n,
                m.cols == n,
                l.wf(),
                l.rows == n,
                l.cols == n,
                j < n,
                i <= n,
            decreases n - i,
        {
            let mut acc: S = m.get(i, j);
            for k in 0..j
                invariant
                    m.wf(),
                    m.rows == n,
                    m.cols == n,
                    l.wf(),
                    l.rows == n,
                    l.cols == n,
                    j < n,
                    i < n,
            {
                acc = acc.minus(l.get(i, k).times(l.get(j, k)));
            }
            let pivot_now = l.get(j, j);
            l.set(i, j, acc.over(pivot_now));
            i = i + 1;
        }
    }
    Some(l)
}

/// Solves `L * transpose(L) * x = b` for `x` by a forward and a backward
/// triangular substitution through the Cholesky factor `L`.
pub fn cholesky_solve<S: Scalar>(l: &Mat<S>, b: &Vec<S>) -> (r: Vec<S>)
    requires
        l.wf(),
        l.rows == l.cols,
        b@.len() == l.rows,
    ensures
        r@.len() == l.rows,
{
    let n: usize = l.rows;
    // Forward: L y = b.
    let mut y: Vec<S> = Vec::new();
    for i in 0..n
        invariant
            l.wf(),
            l.rows == n,
            l.cols == n,
            b@.len() == n,
            y@.len() == i,
    {
        let mut acc: S = b[i];
        for k in 0..i
            invariant
                l.wf(),
                l.rows == n,
                l.cols == n,
                i < n,
                y@.len() == i,
        {
            acc = acc.minus(l.get(i, k).times(y[k]));
        }
        y.push(acc.over(l.get(i, i)));
    }
    // Backward: transpose(L) x = y.
    let mut x: Vec<S> = Vec::new();
    let mut fill: usize = 0;
    while fill < n
        invariant
            x@.len() == fill,
            fill <= n,
        decreases n - fill,
    {
        x.push(S::zero());
        fill = fill + 1;
    }
    let mut ii: usize = n;
    while ii > 0
        invariant
            l.wf(),
            l.rows == n,
            l.cols == n,
            y@.len() == n,
            x@.len() == n,
            ii <= n,
        decreases ii,
    {
        ii = ii - 1;
        let mut acc: S = y[ii];
        let mut k: usize = ii + 1;
        while k < n
            invariant
                l.wf(),
                l.rows == n,
                l.cols == n,
                y@.len() == n,
                x@.len() == n,
                ii < n,
                k <= n,
            decreases n - k,
        {
            acc = acc.minus(l.get(k, ii).times(x[k]));
            k = k + 1;
        }
        x.set(ii, acc.over(l.get(ii, ii)));
    }
    x
}

} // verus!
