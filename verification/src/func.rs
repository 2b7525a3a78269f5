//! The differentiable-operation capability and the two concrete operations
//! built on it. An operation maps an input array forward elementwise, caching
//! the input as a side effect, and later turns an upstream gradient into a
//! downstream gradient from that cache by the chain rule. Before any forward
//! call the cache is empty and `backward` is not available, so the
//! operated-on-garbage state cannot arise.

use vstd::prelude::*;
use crate::grid::Grid;
use crate::scalar::Scalar;

verus! {

pub trait Function<T: Scalar>: Sized {
    /// The elementwise map that `forward` applies.
    spec fn fwd_elem(&self, x: T) -> T;

    /// The elementwise downstream gradient, from a cached input element and
    /// an upstream gradient element.
    spec fn bwd_elem(&self, x: T, dy: T) -> T;

    /// Whether a forward call has primed the cache.
    spec fn primed(&self) -> bool;

    spec fn cache_rows(&self) -> int;

    spec fn cache_cols(&self) -> int;

    spec fn cache_elems(&self) -> Seq<T>;

    /// Apply the elementwise map, and record the input as the new cache,
    /// replacing whatever was cached before.
    fn forward(&mut self, x: &Grid<T>) -> (y: Grid<T>)
        requires
            x.wf(),
        ensures
            y.wf(),
            y.nrows() == x.nrows(),
            y.ncols() == x.ncols(),
            y.elems().len() == x.elems().len(),
            forall|k: int|
                0 <= k < x.elems().len() ==> y.elems()[k] == old(self).fwd_elem(x.elems()[k]),
            final(self).primed(),
            final(self).cache_rows() == x.nrows(),
            final(self).cache_cols() == x.ncols(),
            final(self).cache_elems() == x.elems(),
            forall|v: T| #[trigger] final(self).fwd_elem(v) == old(self).fwd_elem(v),
            forall|v: T, d: T| #[trigger] final(self).bwd_elem(v, d) == old(self).bwd_elem(v, d),
    ;

    /// Given an upstream gradient of the shape of the most recent forward
    /// input, return the downstream gradient computed from the cache; the
    /// cache itself is left untouched.
    fn backward(&mut self, dy: &Grid<T>) -> (dx: Grid<T>)
        requires
            old(self).primed(),
            dy.wf(),
            dy.nrows() == old(self).cache_rows(),
            dy.ncols() == old(self).cache_cols(),
            dy.elems().len() == old(self).cache_elems().len(),
        ensures
            dx.wf(),
            dx.nrows() == dy.nrows(),
            dx.ncols() == dy.ncols(),
            dx.elems().len() == dy.elems().len(),
            forall|k: int|
                0 <= k < dy.elems().len() ==> dx.elems()[k] == old(self).bwd_elem(
                    old(self).cache_elems()[k],
                    dy.elems()[k],
                ),
            *final(self) == *old(self),
    ;
}

/// The elementwise square: forward multiplies each element by itself, and the
/// local derivative is twice the cached input.
pub struct Square<T> {
    x: Option<Grid<T>>,
}

impl<T: Scalar> Square<T> {
    pub fn new() -> (op: Square<T>)
        ensures
            !op.primed(),
    {
        Square { x: None }
    }
}

impl<T: Scalar> Function<T> for Square<T> {
    open spec fn fwd_elem(&self, x: T) -> T {
        T::mul_spec(x, x)
    }

    open spec fn bwd_elem(&self, x: T, dy: T) -> T {
        T::mul_spec(T::mul_spec(x, dy), T::two_spec())
    }

    closed spec fn primed(&self) -> bool {
        self.x is Some
    }

    closed spec fn cache_rows(&self) -> int {
        self.x.unwrap().nrows()
    }

    closed spec fn cache_cols(&self) -> int {
        self.x.unwrap().ncols()
    }

    closed spec fn cache_elems(&self) -> Seq<T> {
        self.x.unwrap().elems()
    }

    fn forward(&mut self, x: &Grid<T>) -> (y: Grid<T>) {
        self.x = Some(x.duplicate());
        let n = x.len();
        let mut out: Vec<T> = Vec::new();
        let mut k: usize = 0;
        while k < n
            invariant
                x.wf(),
                n == x.elems().len(),
                k <= n,
                out@.len() == k,
                forall|m: int|
                    0 <= m < k ==> out@[m] == T::mul_spec(x.elems()[m], x.elems()[m]),
            decreases n - k,
        {
            let v = x.at(k);
            out.push(v.mul(v));
            k = k + 1;
        }
        Grid::new(x.rows(), x.cols(), out)
    }

    fn backward(&mut self, dy: &Grid<T>) -> (dx: Grid<T>) {
        let two = T::two();
        match &self.x {
            Some(g) => {
                let n = dy.len();
                let mut out: Vec<T> = Vec::new();
                let mut k: usize = 0;
                while k < n
                    invariant
                        g.wf(),
                        dy.wf(),
                        n == dy.elems().len(),
                        g.elems().len() == n,
                        k <= n,
                        out@.len() == k,
                        two == T::two_spec(),
                        forall|m: int|
                            0 <= m < k ==> out@[m] == T::mul_spec(
                                T::mul_spec(g.elems()[m], dy.elems()[m]),
                                T::two_spec(),
                            ),
                    decreases n - k,
                {
                    let v = g.at(k).mul(dy.at(k)).mul(two);
                    out.push(v);
                    k = k + 1;
                }
                Grid::new(dy.rows(), dy.cols(), out)
            },
            None => {
                proof {
                    assert(false);
                }
                Grid::new(0, 0, Vec::new())
            },
        }
    }
}

/// The elementwise exponential: forward applies the scalar type's exponential
/// map, which is also its own local derivative.
pub struct Exp<T> {
    x: Option<Grid<T>>,
}

impl<T: Scalar> Exp<T> {
    pub fn new() -> (op: Exp<T>)
        ensures
            !op.primed(),
    {
        Exp { x: None }
    }
}

impl<T: Scalar> Function<T> for Exp<T> {
    open spec fn fwd_elem(&self, x: T) -> T {
        T::exp_spec(x)
    }

    open spec fn bwd_elem(&self, x: T, dy: T) -> T {
        T::mul_spec(T::exp_spec(x), dy)
    }

    closed spec fn primed(&self) -> bool {
        self.x is Some
    }

    closed spec fn cache_rows(&self) -> int {
        self.x.unwrap().nrows()
    }

    closed spec fn cache_cols(&self) -> int {
        self.x.unwrap().ncols()
    }

    closed spec fn cache_elems(&self) -> Seq<T> {
        self.x.unwrap().elems()
    }

    fn forward(&mut self, x: &Grid<T>) -> (y: Grid<T>) {
        self.x = Some(x.duplicate());
        let n = x.len();
        let mut out: Vec<T> = Vec::new();
        let mut k: usize = 0;
        while k < n
            invariant
                x.wf(),
                n == x.elems().len(),
                k <= n,
                out@.len() == k,
                forall|m: int| 0 <= m < k ==> out@[m] == T::exp_spec(x.elems()[m]),
            decreases n - k,
        {
            out.push(x.at(k).exp());
            k = k + 1;
        }
        Grid::new(x.rows(), x.cols(), out)
    }

    fn backward(&mut self, dy: &Grid<T>) -> (dx: Grid<T>) {
        match &self.x {
            Some(g) => {
                let n = dy.len();
                let mut out: Vec<T> = Vec::new();
                let mut k: usize = 0;
                while k < n
                    invariant
                        g.wf(),
                        dy.wf(),
                        n == dy.elems().len(),
                        g.elems().len() == n,
                        k <= n,
                        out@.len() == k,
                        forall|m: int|
                            0 <= m < k ==> out@[m] == T::mul_spec(
                                T::exp_spec(g.elems()[m]),
                                dy.elems()[m],
                            ),
                    decreases n - k,
                {
                    out.push(g.at(k).exp().mul(dy.at(k)));
                    k = k + 1;
                }
                Grid::new(dy.rows(), dy.cols(), out)
            },
            None => {
                proof {
                    assert(false);
                }
                Grid::new(0, 0, Vec::new())
            },
        }
    }
}

/// Backward for the square under an all-ones upstream gradient is twice the
/// cached input, elementwise.
pub proof fn lemma_square_backward_ones<T: Scalar>(op: Square<T>, x: T)
    ensures
        op.bwd_elem(x, T::one_spec()) == T::mul_spec(x, T::two_spec()),
{
    T::lemma_mul_one(x);
}

/// Backward for the exponential under an all-ones upstream gradient is the
/// exponential of the cached input, elementwise.
pub proof fn lemma_exp_backward_ones<T: Scalar>(op: Exp<T>, x: T)
    ensures
        op.bwd_elem(x, T::one_spec()) == T::exp_spec(x),
{
    T::lemma_mul_one(T::exp_spec(x));
}

} // verus!
