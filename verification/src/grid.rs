//! A dense two-dimensional array stored in row-major order, together with the
//! elementwise arithmetic the engine needs: scalar broadcast of addition and
//! subtraction, elementwise subtraction of two same-shaped arrays, and scalar
//! broadcast of division.

use vstd::prelude::*;
use crate::scalar::Scalar;

verus! {

#[derive(Debug, PartialEq)]
pub struct Grid<T> {
    rows: usize,
    cols: usize,
    data: Vec<T>,
}

impl<T> Grid<T> {
    /// Well-formed: the flat storage holds exactly one element per cell.
    pub open spec fn wf(&self) -> bool {
        self.elems().len() == self.nrows() * self.ncols()
    }

    /// The elements in row-major order.
    pub closed spec fn elems(&self) -> Seq<T> {
        self.data@
    }

    pub closed spec fn nrows(&self) -> int {
        self.rows as int
    }

    pub closed spec fn ncols(&self) -> int {
        self.cols as int
    }

    pub open spec fn same_shape(&self, other: &Grid<T>) -> bool {
        self.nrows() == other.nrows() && self.ncols() == other.ncols()
    }
}

impl<T: Scalar> Grid<T> {
    pub fn new(rows: usize, cols: usize, data: Vec<T>) -> (g: Grid<T>)
        requires
            data@.len() == rows * cols,
        ensures
            g.wf(),
            g.nrows() == rows,
            g.ncols() == cols,
            g.elems() == data@,
    {
        Grid { rows, cols, data }
    }

    pub fn rows(&self) -> (r: usize)
        ensures
            r == self.nrows(),
    {
        self.rows
    }

    pub fn cols(&self) -> (r: usize)
        ensures
            r == self.ncols(),
    {
        self.cols
    }

    pub fn len(&self) -> (n: usize)
        ensures
            n == self.elems().len(),
    {
        self.data.len()
    }

    /// The element at flat row-major position `k`.
    pub fn at(&self, k: usize) -> (v: T)
        requires
            self.wf(),
            k < self.elems().len(),
        ensures
            v == self.elems()[k as int],
    {
        self.data[k]
    }

    /// The element in row `i`, column `j`.
    pub fn get(&self, i: usize, j: usize) -> (v: T)
        requires
            self.wf(),
            i < self.nrows(),
            j < self.ncols(),
        ensures
            v == self.elems()[i as int * self.ncols() + j as int],
    {
        // binding the element count brings its usize bound into scope
        let n = self.data.len();
        proof {
            assert(i * self.cols + j < self.rows * self.cols) by (nonlinear_arith)
                requires
                    i < self.rows,
                    j < self.cols,
            ;
        }
        self.data[i * self.cols + j]
    }

    /// A fresh array holding the same elements in the same shape.
    pub fn duplicate(&self) -> (r: Grid<T>)
        requires
            self.wf(),
        ensures
            r.wf(),
            r.nrows() == self.nrows(),
            r.ncols() == self.ncols(),
            r.elems() == self.elems(),
    {
        let n = self.data.len();
        let mut out: Vec<T> = Vec::new();
        let mut k: usize = 0;
        while k < n
            invariant
                self.wf(),
                n == self.elems().len(),
                k <= n,
                out@.len() == k,
                forall|m: int| 0 <= m < k ==> out@[m] == self.elems()[m],
            decreases n - k,
        {
            out.push(self.data[k]);
            k = k + 1;
        }
        proof {
            assert(out@ =~= self.elems());
        }
        Grid { rows: self.rows, cols: self.cols, data: out }
    }

    /// Broadcast `s` against every element by addition.
    pub fn add_scalar(&self, s: T) -> (r: Grid<T>)
        requires
            self.wf(),
        ensures
            r.wf(),
            r.nrows() == self.nrows(),
            r.ncols() == self.ncols(),
            r.elems().len() == self.elems().len(),
            forall|m: int| 0 <= m < self.elems().len() ==> r.elems()[m] == T::add_spec(
                self.elems()[m],
                s,
            ),
    {
        let n = self.data.len();
        let mut out: Vec<T> = Vec::new();
        let mut k: usize = 0;
        while k < n
            invariant
                self.wf(),
                n == self.elems().len(),
                k <= n,
                out@.len() == k,
                forall|m: int| 0 <= m < k ==> out@[m] == T::add_spec(self.elems()[m], s),
            decreases n - k,
        {
            out.push(self.data[k].add(s));
            k = k + 1;
        }
        Grid { rows: self.rows, cols: self.cols, data: out }
    }

    /// Broadcast `s` against every element by subtraction.
    pub fn sub_scalar(&self, s: T) -> (r: Grid<T>)
        requires
            self.wf(),
        ensures
            r.wf(),
            r.nrows() == self.nrows(),
            r.ncols() == self.ncols(),
            r.elems().len() == self.elems().len(),
            forall|m: int| 0 <= m < self.elems().len() ==> r.elems()[m] == T::sub_spec(
                self.elems()[m],
                s,
            ),
    {
        let n = self.data.len();
        let mut out: Vec<T> = Vec::new();
        let mut k: usize = 0;
        while k < n
            invariant
                self.wf(),
                n == self.elems().len(),
                k <= n,
                out@.len() == k,
                forall|m: int| 0 <= m < k ==> out@[m] == T::sub_spec(self.elems()[m], s),
            decreases n - k,
        {
            out.push(self.data[k].sub(s));
            k = k + 1;
        }
        Grid { rows: self.rows, cols: self.cols, data: out }
    }

    /// Elementwise difference of two same-shaped arrays.
    pub fn sub_elem(&self, other: &Grid<T>) -> (r: Grid<T>)
        requires
            self.wf(),
            other.wf(),
            self.same_shape(other),
        ensures
            r.wf(),
            r.nrows() == self.nrows(),
            r.ncols() == self.ncols(),
            r.elems().len() == self.elems().len(),
            forall|m: int| 0 <= m < self.elems().len() ==> r.elems()[m] == T::sub_spec(
                self.elems()[m],
                other.elems()[m],
            ),
    {
        let n = self.data.len();
        let mut out: Vec<T> = Vec::new();
        let mut k: usize = 0;
        while k < n
            invariant
                self.wf(),
                other.wf(),
                self.same_shape(other),
                n == self.elems().len(),
                k <= n,
                out@.len() == k,
                forall|m: int| 0 <= m < k ==> out@[m] == T::sub_spec(
                    self.elems()[m],
                    other.elems()[m],
                ),
            decreases n - k,
        {
            out.push(self.data[k].sub(other.data[k]));
            k = k + 1;
        }
        Grid { rows: self.rows, cols: self.cols, data: out }
    }

    /// Broadcast `s` against every element by division.
    pub fn div_scalar(&self, s: T) -> (r: Grid<T>)
        requires
            self.wf(),
        ensures
            r.wf(),
            r.nrows() == self.nrows(),
            r.ncols() == self.ncols(),
            r.elems().len() == self.elems().len(),
            forall|m: int| 0 <= m < self.elems().len() ==> r.elems()[m] == T::div_spec(
                self.elems()[m],
                s,
            ),
    {
        let n = self.data.len();
        let mut out: Vec<T> = Vec::new();
        let mut k: usize = 0;
        while k < n
            invariant
                self.wf(),
                n == self.elems().len(),
                k <= n,
                out@.len() == k,
                forall|m: int| 0 <= m < k ==> out@[m] == T::div_spec(self.elems()[m], s),
            decreases n - k,
        {
            out.push(self.data[k].div(s));
            k = k + 1;
        }
        Grid { rows: self.rows, cols: self.cols, data: out }
    }
}

} // verus!
