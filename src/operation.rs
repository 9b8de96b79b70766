//! The choice among the three binary matrix operations.

use vstd::prelude::*;

use crate::matrix::Matrix;
use crate::model::{add_fits, mat_add, mat_mul, mat_sub, mul_fits, sub_fits};

verus! {

/// One of the binary operations on matrices.
#[derive(Clone, Copy, Debug, PartialEq, Eq, Structural)]
pub enum Operation {
    Mul,
    Add,
    Sub,
}

impl Operation {
    /// The model of what this operation computes from two matrix views.
    pub open spec fn apply(self, a: Seq<Seq<int>>, b: Seq<Seq<int>>) -> Seq<Seq<int>> {
        match self {
            Operation::Mul => mat_mul(a, b),
            Operation::Add => mat_add(a, b),
            Operation::Sub => mat_sub(a, b),
        }
    }

    /// Computing this operation on two `n` by `n` matrices stays within `i64`.
    pub open spec fn fits(self, a: Seq<Seq<int>>, b: Seq<Seq<int>>, n: nat) -> bool {
        match self {
            Operation::Mul => mul_fits(a, b, n),
            Operation::Add => add_fits(a, b, n),
            Operation::Sub => sub_fits(a, b, n),
        }
    }

    /// Applies this operation to `m1` and `m2`, or gives `None` when the
    /// result does not fit in `i64` entries.
    pub fn calc<const N: usize>(&self, m1: Matrix<N>, m2: Matrix<N>) -> (r: Option<Matrix<N>>)
        ensures
            r is Some <==> self.fits(m1@, m2@, N as nat),
            r matches Some(m) ==> m@ == self.apply(m1@, m2@),
    {
        match self {
            Operation::Mul => m1.checked_mul(&m2),
            Operation::Add => m1.checked_add(&m2),
            Operation::Sub => m1.checked_sub(&m2),
        }
    }
}

} // verus!
