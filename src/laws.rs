//! Algebraic laws of the matrix operations, stated over the views that the
//! operations' own contracts use.

use vstd::prelude::*;

use crate::matrix::Matrix;
use crate::model::{
    add_fits, dot, fits_i64, identity_mat, is_square, mat_add, mat_mul, mat_sub, mul_fits, sub_fits,
    zero_mat,
};

verus! {

/// A partial dot product against the identity picks out column `col` of
/// `a` once the sum has passed index `col`.
proof fn lemma_dot_identity_right(a: Seq<Seq<int>>, n: nat, row: int, col: int, k: nat)
    requires
        is_square(a, n),
        0 <= row < n,
        0 <= col < n,
        k <= n,
    ensures
        dot(a, identity_mat(n), row, col, k) == if col < k { a[row][col] } else { 0 },
    decreases k,
{
    if k > 0 {
        lemma_dot_identity_right(a, n, row, col, (k - 1) as nat);
    }
}

/// A partial dot product of the identity against `a` picks out row `row`
/// of `a` once the sum has passed index `row`.
proof fn lemma_dot_identity_left(a: Seq<Seq<int>>, n: nat, row: int, col: int, k: nat)
    requires
        is_square(a, n),
        0 <= row < n,
        0 <= col < n,
        k <= n,
    ensures
        dot(identity_mat(n), a, row, col, k) == if row < k { a[row][col] } else { 0 },
    decreases k,
{
    if k > 0 {
        lemma_dot_identity_left(a, n, row, col, (k - 1) as nat);
    }
}

/// Every partial dot product against the zero matrix, on either side, is 0.
proof fn lemma_dot_zero(a: Seq<Seq<int>>, n: nat, row: int, col: int, k: nat)
    requires
        is_square(a, n),
        0 <= row < n,
        0 <= col < n,
        k <= n,
    ensures
        dot(a, zero_mat(n), row, col, k) == 0,
        dot(zero_mat(n), a, row, col, k) == 0,
    decreases k,
{
    if k > 0 {
        let t = k - 1;
        let z = zero_mat(n);
        lemma_dot_zero(a, n, row, col, t as nat);
        assert(z[t][col] == 0 && z[row][t] == 0);
        assert(a[row][t] * 0 == 0 && 0 * a[t][col] == 0);
    }
}

/// Adding the zero matrix leaves a matrix unchanged, and that sum never
/// leaves the range of `i64`.
pub proof fn lemma_add_zero<const N: usize>(a: Matrix<N>)
    ensures
        add_fits(a@, zero_mat(N as nat), N as nat),
        mat_add(a@, zero_mat(N as nat)) == a@,
{
    a.lemma_view_well_formed();
    assert(mat_add(a@, zero_mat(N as nat)) =~~= a@);
}

/// Multiplying by the identity, on either side, leaves a matrix unchanged,
/// and neither product leaves the range of `i64`.
pub proof fn lemma_mul_identity<const N: usize>(a: Matrix<N>)
    ensures
        mul_fits(a@, identity_mat(N as nat), N as nat),
        mul_fits(identity_mat(N as nat), a@, N as nat),
        mat_mul(a@, identity_mat(N as nat)) == a@,
        mat_mul(identity_mat(N as nat), a@) == a@,
{
    let n = N as nat;
    let i = identity_mat(n);
    a.lemma_view_well_formed();
    assert forall|row: int, col: int, k: int| 0 <= row < n && 0 <= col < n && 0 <= k < n implies {
        &&& fits_i64(#[trigger] a@[row][k] * #[trigger] i[k][col])
        &&& fits_i64(dot(a@, i, row, col, (k + 1) as nat))
    } by {
        lemma_dot_identity_right(a@, n, row, col, (k + 1) as nat);
    }
    assert forall|row: int, col: int, k: int| 0 <= row < n && 0 <= col < n && 0 <= k < n implies {
        &&& fits_i64(#[trigger] i[row][k] * #[trigger] a@[k][col])
        &&& fits_i64(dot(i, a@, row, col, (k + 1) as nat))
    } by {
        lemma_dot_identity_left(a@, n, row, col, (k + 1) as nat);
    }
    assert forall|row: int, col: int| 0 <= row < n && 0 <= col < n implies #[trigger] mat_mul(
        a@,
        i,
    )[row][col] == a@[row][col] && mat_mul(i, a@)[row][col] == a@[row][col] by {
        lemma_dot_identity_right(a@, n, row, col, n);
        lemma_dot_identity_left(a@, n, row, col, n);
    }
    assert(mat_mul(a@, i) =~~= a@);
    assert(mat_mul(i, a@) =~~= a@);
}

/// Multiplying by the zero matrix, on either side, gives the zero matrix,
/// and neither product leaves the range of `i64`.
pub proof fn lemma_mul_zero<const N: usize>(a: Matrix<N>)
    ensures
        mul_fits(a@, zero_mat(N as nat), N as nat),
        mul_fits(zero_mat(N as nat), a@, N as nat),
        mat_mul(a@, zero_mat(N as nat)) == zero_mat(N as nat),
        mat_mul(zero_mat(N as nat), a@) == zero_mat(N as nat),
{
    let n = N as nat;
    let z = zero_mat(n);
    a.lemma_view_well_formed();
    assert forall|row: int, col: int, k: int| 0 <= row < n && 0 <= col < n && 0 <= k < n implies {
        &&& fits_i64(#[trigger] a@[row][k] * #[trigger] z[k][col])
        &&& fits_i64(dot(a@, z, row, col, (k + 1) as nat))
    } by {
        assert(z[k][col] == 0);
        assert(a@[row][k] * 0 == 0);
        lemma_dot_zero(a@, n, row, col, (k + 1) as nat);
    }
    assert forall|row: int, col: int, k: int| 0 <= row < n && 0 <= col < n && 0 <= k < n implies {
        &&& fits_i64(#[trigger] z[row][k] * #[trigger] a@[k][col])
        &&& fits_i64(dot(z, a@, row, col, (k + 1) as nat))
    } by {
        lemma_dot_zero(a@, n, row, col, (k + 1) as nat);
    }
    assert forall|row: int, col: int| 0 <= row < n && 0 <= col < n implies #[trigger] mat_mul(
        a@,
        z,
    )[row][col] == 0 && mat_mul(z, a@)[row][col] == 0 by {
        lemma_dot_zero(a@, n, row, col, n);
    }
    assert(mat_mul(a@, z) =~~= z);
    assert(mat_mul(z, a@) =~~= z);
}

/// Subtracting a matrix from itself gives the zero matrix, and that
/// difference never leaves the range of `i64`.
pub proof fn lemma_sub_self<const N: usize>(a: Matrix<N>)
    ensures
        sub_fits(a@, a@, N as nat),
        mat_sub(a@, a@) == zero_mat(N as nat),
{
    a.lemma_view_well_formed();
    assert(mat_sub(a@, a@) =~~= zero_mat(N as nat));
}

/// For two different matrices, `a - b` and `b - a` differ.
pub proof fn lemma_sub_not_commutative<const N: usize>(a: Matrix<N>, b: Matrix<N>)
    requires
        a@ != b@,
    ensures
        mat_sub(a@, b@) != mat_sub(b@, a@),
{
    a.lemma_view_well_formed();
    b.lemma_view_well_formed();
    if mat_sub(a@, b@) == mat_sub(b@, a@) {
        assert forall|i: int, j: int| 0 <= i < N && 0 <= j < N implies #[trigger] a@[i][j]
            == b@[i][j] by {
            assert(mat_sub(a@, b@)[i][j] == mat_sub(b@, a@)[i][j]);
        }
        assert(a@ =~~= b@);
    }
}

/// Addition is commutative.
pub proof fn lemma_add_commutative<const N: usize>(a: Matrix<N>, b: Matrix<N>)
    ensures
        mat_add(a@, b@) == mat_add(b@, a@),
{
    a.lemma_view_well_formed();
    b.lemma_view_well_formed();
    assert(mat_add(a@, b@) =~~= mat_add(b@, a@));
}

/// Addition is associative: `(a + b) + c` and `a + (b + c)` are the same
/// matrix.
pub proof fn lemma_add_associative<const N: usize>(a: Matrix<N>, b: Matrix<N>, c: Matrix<N>)
    ensures
        mat_add(mat_add(a@, b@), c@) == mat_add(a@, mat_add(b@, c@)),
{
    a.lemma_view_well_formed();
    b.lemma_view_well_formed();
    c.lemma_view_well_formed();
    assert(mat_add(mat_add(a@, b@), c@) =~~= mat_add(a@, mat_add(b@, c@)));
}

} // verus!
