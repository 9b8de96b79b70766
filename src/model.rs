//! The mathematical model of a square matrix: a sequence of rows, each a
//! sequence of unbounded integers, and the operations on that model.

use vstd::prelude::*;

verus! {

/// `m` is an `n` by `n` grid.
pub open spec fn is_square(m: Seq<Seq<int>>, n: nat) -> bool {
    &&& m.len() == n
    &&& forall|i: int| 0 <= i < n ==> (#[trigger] m[i]).len() == n
}

/// The `n` by `n` matrix whose every entry is 0.
pub open spec fn zero_mat(n: nat) -> Seq<Seq<int>> {
    Seq::new(n, |i: int| Seq::new(n, |j: int| 0int))
}

/// The `n` by `n` matrix with 1 on the main diagonal and 0 elsewhere.
pub open spec fn identity_mat(n: nat) -> Seq<Seq<int>> {
    Seq::new(n, |i: int| Seq::new(n, |j: int| if i == j { 1int } else { 0int }))
}

/// Entry-wise sum, over the dimensions of `a`.
pub open spec fn mat_add(a: Seq<Seq<int>>, b: Seq<Seq<int>>) -> Seq<Seq<int>> {
    Seq::new(a.len(), |i: int| Seq::new(a.len(), |j: int| a[i][j] + b[i][j]))
}

/// Entry-wise difference, over the dimensions of `a`.
pub open spec fn mat_sub(a: Seq<Seq<int>>, b: Seq<Seq<int>>) -> Seq<Seq<int>> {
    Seq::new(a.len(), |i: int| Seq::new(a.len(), |j: int| a[i][j] - b[i][j]))
}

/// The sum of `a[row][t] * b[t][col]` over `t` in `[0, k)`.
pub open spec fn dot(a: Seq<Seq<int>>, b: Seq<Seq<int>>, row: int, col: int, k: nat) -> int
    decreases k,
{
    if k == 0 {
        0
    } else {
        dot(a, b, row, col, (k - 1) as nat) + a[row][k - 1] * b[k - 1][col]
    }
}

/// The matrix product: entry `(row, col)` is the full dot product of row
/// `row` of `a` with column `col` of `b`.
pub open spec fn mat_mul(a: Seq<Seq<int>>, b: Seq<Seq<int>>) -> Seq<Seq<int>> {
    Seq::new(
        a.len(),
        |row: int| Seq::new(a.len(), |col: int| dot(a, b, row, col, a.len())),
    )
}

/// `x` is representable as an `i64`.
pub open spec fn fits_i64(x: int) -> bool {
    i64::MIN <= x <= i64::MAX
}

/// Every entry of the sum of two `n` by `n` matrices fits in an `i64`.
pub open spec fn add_fits(a: Seq<Seq<int>>, b: Seq<Seq<int>>, n: nat) -> bool {
    forall|i: int, j: int| 0 <= i < n && 0 <= j < n ==> fits_i64(#[trigger] a[i][j] + #[trigger] b[i][j])
}

/// Every entry of the difference of two `n` by `n` matrices fits in an `i64`.
pub open spec fn sub_fits(a: Seq<Seq<int>>, b: Seq<Seq<int>>, n: nat) -> bool {
    forall|i: int, j: int| 0 <= i < n && 0 <= j < n ==> fits_i64(#[trigger] a[i][j] - #[trigger] b[i][j])
}

/// Computing the product of two `n` by `n` matrices term by term stays
/// within `i64`: each product of two entries and each running sum fits.
pub open spec fn mul_fits(a: Seq<Seq<int>>, b: Seq<Seq<int>>, n: nat) -> bool {
    forall|row: int, col: int, k: int|
        0 <= row < n && 0 <= col < n && 0 <= k < n ==> {
            &&& fits_i64(#[trigger] a[row][k] * #[trigger] b[k][col])
            &&& fits_i64(dot(a, b, row, col, (k + 1) as nat))
        }
}

} // verus!
