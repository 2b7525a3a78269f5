//! Ordered composition of differentiable operations: each operation's output
//! feeds the next operation's input, first added applied first, and a
//! central-difference oracle estimates the derivative of the composite map.

use vstd::prelude::*;
use crate::func::{Exp, Function, Square};
use crate::grid::Grid;
use crate::scalar::{tdiv_int, Scalar};

verus! {

/// One operation a chain can own. The chain stores operations by value, so
/// the closed set of concrete operations stands in for dynamic dispatch.
pub enum Op<T> {
    Square(Square<T>),
    Exp(Exp<T>),
}

impl<T: Scalar> Function<T> for Op<T> {
    open spec fn fwd_elem(&self, x: T) -> T {
        match self {
            Op::Square(f) => f.fwd_elem(x),
            Op::Exp(f) => f.fwd_elem(x),
        }
    }

    open spec fn bwd_elem(&self, x: T, dy: T) -> T {
        match self {
            Op::Square(f) => f.bwd_elem(x, dy),
            Op::Exp(f) => f.bwd_elem(x, dy),
        }
    }

    open spec fn primed(&self) -> bool {
        match self {
            Op::Square(f) => f.primed(),
            Op::Exp(f) => f.primed(),
        }
    }

    open spec fn cache_rows(&self) -> int {
        match self {
            Op::Square(f) => f.cache_rows(),
            Op::Exp(f) => f.cache_rows(),
        }
    }

    open spec fn cache_cols(&self) -> int {
        match self {
            Op::Square(f) => f.cache_cols(),
            Op::Exp(f) => f.cache_cols(),
        }
    }

    open spec fn cache_elems(&self) -> Seq<T> {
        match self {
            Op::Square(f) => f.cache_elems(),
            Op::Exp(f) => f.cache_elems(),
        }
    }

    fn forward(&mut self, x: &Grid<T>) -> (y: Grid<T>) {
        match self {
            Op::Square(f) => f.forward(x),
            Op::Exp(f) => f.forward(x),
        }
    }

    fn backward(&mut self, dy: &Grid<T>) -> (dx: Grid<T>) {
        match self {
            Op::Square(f) => f.backward(dy),
            Op::Exp(f) => f.backward(dy),
        }
    }
}

/// The composite map on one element: the operations applied in order, first
/// element of the sequence first.
pub open spec fn chain_app<T: Scalar>(ops: Seq<Op<T>>, x: T) -> T
    decreases ops.len(),
{
    if ops.len() == 0 {
        x
    } else {
        chain_app(ops.skip(1), ops[0].fwd_elem(x))
    }
}

/// Appending an operation composes its map after the maps already present.
pub proof fn lemma_chain_app_push<T: Scalar>(ops: Seq<Op<T>>, op: Op<T>, x: T)
    ensures
        chain_app(ops.push(op), x) == op.fwd_elem(chain_app(ops, x)),
    decreases ops.len(),
{
    let s = ops.push(op);
    if ops.len() == 0 {
        assert(s.skip(1) =~= Seq::<Op<T>>::empty());
        assert(s[0] == op);
        assert(chain_app(s, x) == chain_app(s.skip(1), op.fwd_elem(x)));
        assert(chain_app(s.skip(1), op.fwd_elem(x)) == op.fwd_elem(x));
        assert(chain_app(ops, x) == x);
    } else {
        assert(s[0] == ops[0]);
        assert(s.skip(1) =~= ops.skip(1).push(op));
        assert(chain_app(s, x) == chain_app(s.skip(1), ops[0].fwd_elem(x)));
        lemma_chain_app_push(ops.skip(1), op, ops[0].fwd_elem(x));
        assert(chain_app(ops, x) == chain_app(ops.skip(1), ops[0].fwd_elem(x)));
    }
}

/// Two sequences of operations whose forward maps agree pointwise compose to
/// the same map.
pub proof fn lemma_chain_app_congruence<T: Scalar>(a: Seq<Op<T>>, b: Seq<Op<T>>, x: T)
    requires
        a.len() == b.len(),
        forall|j: int, v: T| 0 <= j < a.len() ==> #[trigger] a[j].fwd_elem(v) == b[j].fwd_elem(v),
    ensures
        chain_app(a, x) == chain_app(b, x),
    decreases a.len(),
{
    if a.len() > 0 {
        assert forall|j: int, v: T|
            0 <= j < a.skip(1).len() implies #[trigger] a.skip(1)[j].fwd_elem(v) == b.skip(
            1,
        )[j].fwd_elem(v) by {
            assert(a.skip(1)[j] == a[j + 1]);
            assert(b.skip(1)[j] == b[j + 1]);
        }
        lemma_chain_app_congruence(a.skip(1), b.skip(1), a[0].fwd_elem(x));
    }
}

/// A chain of `[a, b]` applies `a` first and `b` second; with the insertion
/// order reversed, `b` comes first. So whenever the two maps fail to commute
/// at some element, the two insertion orders give different results there.
pub proof fn lemma_chain_pair<T: Scalar>(a: Op<T>, b: Op<T>, x: T)
    ensures
        chain_app(seq![a, b], x) == b.fwd_elem(a.fwd_elem(x)),
        chain_app(seq![b, a], x) == a.fwd_elem(b.fwd_elem(x)),
{
    let e = Seq::<Op<T>>::empty();
    assert(seq![a, b].skip(1) =~= seq![b]);
    assert(seq![b, a].skip(1) =~= seq![a]);
    assert(seq![a].skip(1) =~= e);
    assert(seq![b].skip(1) =~= e);
    assert(chain_app(seq![a, b], x) == chain_app(seq![b], a.fwd_elem(x)));
    assert(chain_app(seq![b], a.fwd_elem(x)) == chain_app(e, b.fwd_elem(a.fwd_elem(x))));
    assert(chain_app(e, b.fwd_elem(a.fwd_elem(x))) == b.fwd_elem(a.fwd_elem(x)));
    assert(chain_app(seq![b, a], x) == chain_app(seq![a], b.fwd_elem(x)));
    assert(chain_app(seq![a], b.fwd_elem(x)) == chain_app(e, a.fwd_elem(b.fwd_elem(x))));
    assert(chain_app(e, a.fwd_elem(b.fwd_elem(x))) == a.fwd_elem(b.fwd_elem(x)));
}

/// The central-difference estimate of the composite map's derivative at one
/// element: the map is evaluated one step below and one step above the
/// element, and the difference is divided by twice the step.
pub open spec fn central_diff<T: Scalar>(ops: Seq<Op<T>>, v: T) -> T {
    let d = T::delta_spec();
    T::div_spec(
        T::sub_spec(chain_app(ops, T::add_spec(v, d)), chain_app(ops, T::sub_spec(v, d))),
        T::add_spec(d, d),
    )
}

/// For the integer scalar, the central-difference oracle for a single square
/// operation agrees exactly with the analytic backward pass under an
/// all-ones upstream gradient: away from the saturation boundary the
/// difference quotient collapses to twice the input, which is exactly what
/// `backward` returns there.
pub proof fn lemma_square_oracle_matches_backward(op: Square<i64>, x: i64)
    requires
        -0x4000_0000 <= x <= 0x4000_0000,
    ensures
        central_diff(seq![Op::Square(op)], x) == Op::Square(op).bwd_elem(x, 1i64),
{
    let o = Op::Square(op);
    let s = seq![o];
    let e = Seq::<Op<i64>>::empty();
    assert(s.skip(1) =~= e);
    let hi: i64 = <i64 as Scalar>::add_spec(x, 2);
    let lo: i64 = <i64 as Scalar>::sub_spec(x, 2);
    assert(hi == x + 2);
    assert(lo == x - 2);
    assert(chain_app(s, hi) == chain_app(e, o.fwd_elem(hi)));
    assert(chain_app(s, lo) == chain_app(e, o.fwd_elem(lo)));
    assert((x + 2) * (x + 2) - (x - 2) * (x - 2) == 8 * x) by (nonlinear_arith);
    assert(-0x4000_0000_0000_0000 < (x + 2) * (x + 2) < 0x4000_0000_0000_0000) by (nonlinear_arith)
        requires
            -0x4000_0000 <= x <= 0x4000_0000,
    ;
    assert(-0x4000_0000_0000_0000 < (x - 2) * (x - 2) < 0x4000_0000_0000_0000) by (nonlinear_arith)
        requires
            -0x4000_0000 <= x <= 0x4000_0000,
    ;
    let num: i64 = <i64 as Scalar>::sub_spec(o.fwd_elem(hi), o.fwd_elem(lo));
    assert(num == 8 * x);
    if x >= 0 {
        assert(8 * x / 4 == 2 * x) by (nonlinear_arith);
    } else {
        assert((-(8 * x)) / 4 == -(2 * x)) by (nonlinear_arith);
    }
    assert(tdiv_int(8 * x, 4) == 2 * x);
    assert(<i64 as Scalar>::div_spec(num, 4) == 2 * x);
    assert(<i64 as Scalar>::mul_spec(x, 1) == x);
    assert(o.bwd_elem(x, 1i64) == <i64 as Scalar>::mul_spec(x, 2));
}

/// For the integer scalar, the central-difference oracle for two chained
/// squares at `x` is exactly the closed-form derivative of the fourth power,
/// four times the cube, plus the correction term the finite step introduces.
pub proof fn lemma_two_squares_oracle(a: Square<i64>, b: Square<i64>, x: i64)
    requires
        -0x4000 <= x <= 0x4000,
    ensures
        central_diff(seq![Op::Square(a), Op::Square(b)], x) == 4 * x * x * x + 16 * x,
{
    let oa = Op::Square(a);
    let ob = Op::Square(b);
    let s = seq![oa, ob];
    let hi: i64 = <i64 as Scalar>::add_spec(x, 2);
    let lo: i64 = <i64 as Scalar>::sub_spec(x, 2);
    assert(hi == x + 2);
    assert(lo == x - 2);
    lemma_chain_pair(oa, ob, hi);
    lemma_chain_pair(oa, ob, lo);
    let h2: int = (x + 2) * (x + 2);
    let l2: int = (x - 2) * (x - 2);
    assert(0 <= h2 < 0x4000_0000 && 0 <= l2 < 0x4000_0000) by (nonlinear_arith)
        requires
            -0x4000 <= x <= 0x4000,
            h2 == (x + 2) * (x + 2),
            l2 == (x - 2) * (x - 2),
    ;
    assert(h2 * h2 - l2 * l2 == 16 * (x * x * x) + 64 * x) by (nonlinear_arith)
        requires
            h2 == (x + 2) * (x + 2),
            l2 == (x - 2) * (x - 2),
    ;
    assert(0 <= h2 * h2 < 0x1000_0000_0000_0000 && 0 <= l2 * l2 < 0x1000_0000_0000_0000)
        by (nonlinear_arith)
        requires
            0 <= h2 < 0x4000_0000,
            0 <= l2 < 0x4000_0000,
    ;
    let num: i64 = <i64 as Scalar>::sub_spec(chain_app(s, hi), chain_app(s, lo));
    assert(num == 16 * (x * x * x) + 64 * x);
    let m: int = 4 * (x * x * x) + 16 * x;
    assert(num == 4 * m);
    if m >= 0 {
        assert((4 * m) / 4 == m) by (nonlinear_arith);
    } else {
        assert((-(4 * m)) / 4 == -m) by (nonlinear_arith);
    }
    assert(tdiv_int(num as int, 4) == m);
    assert(-0x8000_0000_0000_0000 <= m <= 0x7FFF_FFFF_FFFF_FFFF) by (nonlinear_arith)
        requires
            -0x4000 <= x <= 0x4000,
            m == 4 * (x * x * x) + 16 * x,
    ;
    assert(<i64 as Scalar>::div_spec(num, 4) == m);
    assert(m == 4 * x * x * x + 16 * x) by (nonlinear_arith)
        requires
            m == 4 * (x * x * x) + 16 * x,
    ;
}

/// An ordered sequence of operations composed by feeding each operation's
/// output into the next one's input.
pub struct ChainedFunc<T> {
    funcs: Vec<Op<T>>,
}

impl<T: Scalar> ChainedFunc<T> {
    pub closed spec fn ops(&self) -> Seq<Op<T>> {
        self.funcs@
    }

    pub fn new() -> (c: ChainedFunc<T>)
        ensures
            c.ops() == Seq::<Op<T>>::empty(),
    {
        let c = ChainedFunc { funcs: Vec::new() };
        proof {
            assert(c.funcs@ =~= Seq::<Op<T>>::empty());
        }
        c
    }

    /// Append an operation at the end; order is the composition order.
    pub fn add(&mut self, func: Op<T>)
        ensures
            final(self).ops() == old(self).ops().push(func),
    {
        self.funcs.push(func);
    }

    /// Apply every operation in insertion order, each one caching its own
    /// input along the way, and return the final output.
    pub fn forward(&mut self, input: &Grid<T>) -> (y: Grid<T>)
        requires
            input.wf(),
        ensures
            y.wf(),
            y.nrows() == input.nrows(),
            y.ncols() == input.ncols(),
            y.elems().len() == input.elems().len(),
            forall|k: int|
                0 <= k < input.elems().len() ==> y.elems()[k] == chain_app(
                    old(self).ops(),
                    input.elems()[k],
                ),
            final(self).ops().len() == old(self).ops().len(),
            forall|v: T| #[trigger]
                chain_app(final(self).ops(), v) == chain_app(old(self).ops(), v),
    {
        let mut cur = input.duplicate();
        let n = self.funcs.len();
        let mut j: usize = 0;
        proof {
            assert(old(self).funcs@.take(0) =~= Seq::<Op<T>>::empty());
        }
        while j < n
            invariant
                input.wf(),
                n == self.funcs@.len(),
                self.funcs@.len() == old(self).funcs@.len(),
                j <= n,
                forall|m: int| j <= m < n ==> self.funcs@[m] == old(self).funcs@[m],
                forall|m: int, v: T|
                    0 <= m < j ==> #[trigger] self.funcs@[m].fwd_elem(v) == old(
                        self,
                    ).funcs@[m].fwd_elem(v),
                cur.wf(),
                cur.nrows() == input.nrows(),
                cur.ncols() == input.ncols(),
                cur.elems().len() == input.elems().len(),
                forall|k: int|
                    0 <= k < input.elems().len() ==> cur.elems()[k] == chain_app(
                        old(self).funcs@.take(j as int),
                        input.elems()[k],
                    ),
            decreases n - j,
        {
            let f = &mut self.funcs[j];
            let next = f.forward(&cur);
            proof {
                assert(old(self).funcs@.take(j + 1) =~= old(self).funcs@.take(j as int).push(
                    old(self).funcs@[j as int],
                ));
                assert forall|k: int| 0 <= k < input.elems().len() implies next.elems()[k]
                    == chain_app(old(self).funcs@.take(j + 1), input.elems()[k]) by {
                    lemma_chain_app_push(
                        old(self).funcs@.take(j as int),
                        old(self).funcs@[j as int],
                        input.elems()[k],
                    );
                }
            }
            cur = next;
            j = j + 1;
        }
        proof {
            assert(old(self).funcs@.take(n as int) =~= old(self).funcs@);
            assert forall|v: T| #[trigger]
                chain_app(self.funcs@, v) == chain_app(old(self).funcs@, v) by {
                lemma_chain_app_congruence(self.funcs@, old(self).funcs@, v);
            }
        }
        cur
    }

    /// The central-difference approximation of the elementwise derivative of
    /// the composite map at `input`: evaluate the composite one step below
    /// and one step above, and divide the difference by twice the step. This
    /// is an oracle for validating the analytic backward passes, independent
    /// of them.
    pub fn numerical_diff(&mut self, input: &Grid<T>) -> (r: Grid<T>)
        requires
            input.wf(),
        ensures
            r.wf(),
            r.nrows() == input.nrows(),
            r.ncols() == input.ncols(),
            r.elems().len() == input.elems().len(),
            forall|k: int|
                0 <= k < input.elems().len() ==> r.elems()[k] == central_diff(
                    old(self).ops(),
                    input.elems()[k],
                ),
            final(self).ops().len() == old(self).ops().len(),
            forall|v: T| #[trigger]
                chain_app(final(self).ops(), v) == chain_app(old(self).ops(), v),
    {
        let eps = T::delta();
        let x0 = input.sub_scalar(eps);
        let x1 = input.add_scalar(eps);
        let y0 = self.forward(&x0);
        let y1 = self.forward(&x1);
        let num = y1.sub_elem(&y0);
        num.div_scalar(eps.add(eps))
    }
}

} // verus!
