//! A named binding of a data array to a gradient array of the same shape.
//! The gradient starts as all zeros; this core never accumulates into it, so
//! whoever runs backward passes owns its population.

use vstd::prelude::*;
use crate::grid::Grid;
use crate::scalar::Scalar;

verus! {

pub struct Variable<T> {
    pub data: Grid<T>,
    pub grad: Grid<T>,
}

impl<T: Scalar> Variable<T> {
    /// The gradient always has the shape of the data.
    pub open spec fn wf(&self) -> bool {
        &&& self.data.wf()
        &&& self.grad.wf()
        &&& self.data.same_shape(&self.grad)
    }

    /// Take ownership of a data array and zero-initialize a gradient array of
    /// the same shape.
    pub fn new(data: Grid<T>) -> (v: Variable<T>)
        requires
            data.wf(),
        ensures
            v.wf(),
            v.data.nrows() == data.nrows(),
            v.data.ncols() == data.ncols(),
            v.data.elems() == data.elems(),
            v.grad.elems().len() == data.elems().len(),
            forall|m: int| 0 <= m < data.elems().len() ==> v.grad.elems()[m] == T::zero_spec(),
    {
        let n = data.len();
        let mut zeros: Vec<T> = Vec::new();
        let mut k: usize = 0;
        while k < n
            invariant
                k <= n,
                zeros@.len() == k,
                forall|m: int| 0 <= m < k ==> zeros@[m] == T::zero_spec(),
            decreases n - k,
        {
            zeros.push(T::zero());
            k = k + 1;
        }
        let grad = Grid::new(data.rows(), data.cols(), zeros);
        Variable { data, grad }
    }
}

} // verus!
