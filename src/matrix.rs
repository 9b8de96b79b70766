//! The square matrix type and its executable operations.

use vstd::prelude::*;

use crate::model::{
    add_fits, dot, fits_i64, identity_mat, is_square, mat_add, mat_mul, mat_sub, mul_fits, sub_fits,
    zero_mat,
};

verus! {

/// An `N` by `N` matrix of `i64` entries, stored row by row.
#[derive(Clone, Copy, Debug)]
pub struct Matrix<const N: usize> {
    data: [[i64; N]; N],
}

/// The model of a grid of rows: row `i`, column `j` holds `rows[i][j]`.
pub open spec fn grid_view<const N: usize>(rows: [[i64; N]; N]) -> Seq<Seq<int>> {
    Seq::new(N as nat, |i: int| Seq::new(N as nat, |j: int| rows[i][j] as int))
}

impl<const N: usize> View for Matrix<N> {
    type V = Seq<Seq<int>>;

    closed spec fn view(&self) -> Seq<Seq<int>> {
        grid_view(self.data)
    }
}

impl<const N: usize> Matrix<N> {
    /// The view is always an `N` by `N` grid of values that fit in an `i64`.
    pub proof fn lemma_view_well_formed(self)
        ensures
            is_square(self@, N as nat),
            forall|i: int, j: int| 0 <= i < N && 0 <= j < N ==> fits_i64(#[trigger] self@[i][j]),
    {
    }

    /// Two matrices with the same view are the same matrix.
    pub proof fn lemma_view_injective(self, other: Self)
        requires
            self@ == other@,
        ensures
            self == other,
    {
        assert forall|i: int| 0 <= i < N implies #[trigger] self.data[i] == other.data[i] by {
            assert forall|j: int| 0 <= j < N implies #[trigger] self.data[i][j] == other.data[i][j] by {
                assert(self@[i][j] == self.data[i][j] as int);
                assert(other@[i][j] == other.data[i][j] as int);
                assert(self@[i][j] == other@[i][j]);
            }
            assert(self.data[i] =~= other.data[i]);
        }
        assert(self.data =~= other.data);
    }

    /// The identity matrix: 1 on the main diagonal, 0 elsewhere.
    pub fn identity() -> (r: Self)
        ensures
            r@ == identity_mat(N as nat),
    {
        let mut data: [[i64; N]; N] = [[0i64; N]; N];
        let mut i: usize = 0;
        while i < N
            invariant
                i <= N,
                forall|p: int, q: int|
                    0 <= p < N && 0 <= q < N ==> #[trigger] data[p][q] == (if p == q && p < i {
                        1i64
                    } else {
                        0i64
                    }),
            decreases N - i,
        {
            let mut row: [i64; N] = data[i];
            row[i] = 1;
            data[i] = row;
            i = i + 1;
        }
        let r = Matrix { data };
        assert(r@ =~~= identity_mat(N as nat));
        r
    }

    /// The entry in row `row`, column `col`.
    pub fn get(&self, row: usize, col: usize) -> (r: i64)
        requires
            row < N,
            col < N,
        ensures
            r as int == self@[row as int][col as int],
    {
        self.data[row][col]
    }

    /// Replaces the entry in row `row`, column `col` with `value`; every
    /// other entry keeps its value.
    pub fn set(&mut self, row: usize, col: usize, value: i64)
        requires
            row < N,
            col < N,
        ensures
            final(self)@ == old(self)@.update(
                row as int,
                old(self)@[row as int].update(col as int, value as int),
            ),
    {
        let mut r: [i64; N] = self.data[row];
        r[col] = value;
        self.data[row] = r;
        assert(self@ =~~= old(self)@.update(
            row as int,
            old(self)@[row as int].update(col as int, value as int),
        ));
    }

    /// The entry-wise sum `self + rhs`, or `None` when an entry of it does
    /// not fit in an `i64`.
    pub fn checked_add(&self, rhs: &Self) -> (r: Option<Self>)
        ensures
            r is Some <==> add_fits(self@, rhs@, N as nat),
            r matches Some(m) ==> m@ == mat_add(self@, rhs@),
    {
        let ghost a = self@;
        let ghost b = rhs@;
        let mut data: [[i64; N]; N] = [[0i64; N]; N];
        let mut i: usize = 0;
        while i < N
            invariant
                i <= N,
                a == self@,
                b == rhs@,
                forall|p: int, q: int|
                    0 <= p < i && 0 <= q < N ==> #[trigger] data[p][q] == a[p][q] + b[p][q],
            decreases N - i,
        {
            let mut out: [i64; N] = [0i64; N];
            let mut j: usize = 0;
            while j < N
                invariant
                    i < N,
                    j <= N,
                    a == self@,
                    b == rhs@,
                    forall|q: int| 0 <= q < j ==> #[trigger] out[q] == a[i as int][q] + b[i as int][q],
                decreases N - j,
            {
                let x: i64 = self.data[i][j];
                let y: i64 = rhs.data[i][j];
                assert(x == a[i as int][j as int] && y == b[i as int][j as int]);
                match x.checked_add(y) {
                    None => {
                        return None;
                    },
                    Some(v) => {
                        out[j] = v;
                    },
                }
                j = j + 1;
            }
            data[i] = out;
            i = i + 1;
        }
        assert forall|p: int, q: int| 0 <= p < N && 0 <= q < N implies fits_i64(
            #[trigger] a[p][q] + #[trigger] b[p][q],
        ) by {
            assert(data[p][q] == a[p][q] + b[p][q]);
        }
        let m = Matrix { data };
        assert(m@ =~~= mat_add(a, b));
        Some(m)
    }

    /// The entry-wise difference `self - rhs`, or `None` when an entry of it
    /// does not fit in an `i64`.
    pub fn checked_sub(&self, rhs: &Self) -> (r: Option<Self>)
        ensures
            r is Some <==> sub_fits(self@, rhs@, N as nat),
            r matches Some(m) ==> m@ == mat_sub(self@, rhs@),
    {
        let ghost a = self@;
        let ghost b = rhs@;
        let mut data: [[i64; N]; N] = [[0i64; N]; N];
        let mut i: usize = 0;
        while i < N
            invariant
                i <= N,
                a == self@,
                b == rhs@,
                forall|p: int, q: int|
                    0 <= p < i && 0 <= q < N ==> #[trigger] data[p][q] == a[p][q] - b[p][q],
            decreases N - i,
        {
            let mut out: [i64; N] = [0i64; N];
            let mut j: usize = 0;
            while j < N
                invariant
                    i < N,
                    j <= N,
                    a == self@,
                    b == rhs@,
                    forall|q: int| 0 <= q < j ==> #[trigger] out[q] == a[i as int][q] - b[i as int][q],
                decreases N - j,
            {
                let x: i64 = self.data[i][j];
                let y: i64 = rhs.data[i][j];
                assert(x == a[i as int][j as int] && y == b[i as int][j as int]);
                match x.checked_sub(y) {
                    None => {
                        return None;
                    },
                    Some(v) => {
                        out[j] = v;
                    },
                }
                j = j + 1;
            }
            data[i] = out;
            i = i + 1;
        }
        assert forall|p: int, q: int| 0 <= p < N && 0 <= q < N implies fits_i64(
            #[trigger] a[p][q] - #[trigger] b[p][q],
        ) by {
            assert(data[p][q] == a[p][q] - b[p][q]);
        }
        let m = Matrix { data };
        assert(m@ =~~= mat_sub(a, b));
        Some(m)
    }

    /// The product `self * rhs`, or `None` when computing it term by term
    /// would leave the range of `i64`.
    pub fn checked_mul(&self, rhs: &Self) -> (r: Option<Self>)
        ensures
            r is Some <==> mul_fits(self@, rhs@, N as nat),
            r matches Some(m) ==> m@ == mat_mul(self@, rhs@),
    {
        let ghost a = self@;
        let ghost b = rhs@;
        let mut data: [[i64; N]; N] = [[0i64; N]; N];
        let mut row: usize = 0;
        while row < N
            invariant
                row <= N,
                a == self@,
                b == rhs@,
                forall|p: int, q: int|
                    0 <= p < row && 0 <= q < N ==> #[trigger] data[p][q] == dot(a, b, p, q, N as nat),
                forall|p: int, q: int, k: int|
                    0 <= p < row && 0 <= q < N && 0 <= k < N ==> {
                        &&& fits_i64(#[trigger] a[p][k] * #[trigger] b[k][q])
                        &&& fits_i64(dot(a, b, p, q, (k + 1) as nat))
                    },
            decreases N - row,
        {
            let mut out: [i64; N] = [0i64; N];
            let mut col: usize = 0;
            while col < N
                invariant
                    row < N,
                    col <= N,
                    a == self@,
                    b == rhs@,
                    forall|q: int| 0 <= q < col ==> #[trigger] out[q] == dot(a, b, row as int, q, N as nat),
                    forall|q: int, k: int|
                        0 <= q < col && 0 <= k < N ==> {
                            &&& fits_i64(#[trigger] a[row as int][k] * #[trigger] b[k][q])
                            &&& fits_i64(dot(a, b, row as int, q, (k + 1) as nat))
                        },
                decreases N - col,
            {
                let mut acc: i64 = 0;
                let mut k: usize = 0;
                while k < N
                    invariant
                        row < N,
                        col < N,
                        k <= N,
                        a == self@,
                        b == rhs@,
                        acc == dot(a, b, row as int, col as int, k as nat),
                        forall|t: int|
                            0 <= t < k ==> {
                                &&& fits_i64(#[trigger] a[row as int][t] * b[t][col as int])
                                &&& fits_i64(dot(a, b, row as int, col as int, (t + 1) as nat))
                            },
                    decreases N - k,
                {
                    let x: i64 = self.data[row][k];
                    let y: i64 = rhs.data[k][col];
                    assert(x == a[row as int][k as int] && y == b[k as int][col as int]);
                    assert(dot(a, b, row as int, col as int, (k + 1) as nat) == acc + x * y);
                    match x.checked_mul(y) {
                        None => {
                            return None;
                        },
                        Some(term) => match acc.checked_add(term) {
                            None => {
                                return None;
                            },
                            Some(sum) => {
                                acc = sum;
                            },
                        },
                    }
                    k = k + 1;
                }
                out[col] = acc;
                col = col + 1;
            }
            data[row] = out;
            row = row + 1;
        }
        let m = Matrix { data };
        assert(m@ =~~= mat_mul(a, b));
        Some(m)
    }
}

impl<const N: usize> core::ops::Add for Matrix<N> {
    type Output = Matrix<N>;

    /// The entry-wise sum.
    fn add(self, rhs: Matrix<N>) -> (r: Matrix<N>)
        ensures
            r@ == mat_add(self@, rhs@),
    {
        let r = match self.checked_add(&rhs) {
            Some(m) => m,
            None => Self::default(),
        };
        proof {
            let c = choose|m: Matrix<N>| m@ == mat_add(self@, rhs@);
            r.lemma_view_injective(c);
        }
        r
    }
}

impl<const N: usize> vstd::std_specs::ops::AddSpecImpl for Matrix<N> {
    open spec fn obeys_add_spec() -> bool {
        true
    }

    open spec fn add_req(self, rhs: Matrix<N>) -> bool {
        add_fits(self@, rhs@, N as nat)
    }

    closed spec fn add_spec(self, rhs: Matrix<N>) -> Matrix<N> {
        choose|m: Matrix<N>| m@ == mat_add(self@, rhs@)
    }
}

impl<const N: usize> core::ops::Sub for Matrix<N> {
    type Output = Matrix<N>;

    /// The entry-wise difference.
    fn sub(self, rhs: Matrix<N>) -> (r: Matrix<N>)
        ensures
            r@ == mat_sub(self@, rhs@),
    {
        let r = match self.checked_sub(&rhs) {
            Some(m) => m,
            None => Self::default(),
        };
        proof {
            let c = choose|m: Matrix<N>| m@ == mat_sub(self@, rhs@);
            r.lemma_view_injective(c);
        }
        r
    }
}

impl<const N: usize> vstd::std_specs::ops::SubSpecImpl for Matrix<N> {
    open spec fn obeys_sub_spec() -> bool {
        true
    }

    open spec fn sub_req(self, rhs: Matrix<N>) -> bool {
        sub_fits(self@, rhs@, N as nat)
    }

    closed spec fn sub_spec(self, rhs: Matrix<N>) -> Matrix<N> {
        choose|m: Matrix<N>| m@ == mat_sub(self@, rhs@)
    }
}

impl<const N: usize> core::ops::Mul for Matrix<N> {
    type Output = Matrix<N>;

    /// The matrix product.
    fn mul(self, rhs: Matrix<N>) -> (r: Matrix<N>)
        ensures
            r@ == mat_mul(self@, rhs@),
    {
        let r = match self.checked_mul(&rhs) {
            Some(m) => m,
            None => Self::default(),
        };
        proof {
            let c = choose|m: Matrix<N>| m@ == mat_mul(self@, rhs@);
            r.lemma_view_injective(c);
        }
        r
    }
}

impl<const N: usize> vstd::std_specs::ops::MulSpecImpl for Matrix<N> {
    open spec fn obeys_mul_spec() -> bool {
        true
    }

    open spec fn mul_req(self, rhs: Matrix<N>) -> bool {
        mul_fits(self@, rhs@, N as nat)
    }

    closed spec fn mul_spec(self, rhs: Matrix<N>) -> Matrix<N> {
        choose|m: Matrix<N>| m@ == mat_mul(self@, rhs@)
    }
}

impl<const N: usize> PartialEq for Matrix<N> {
    /// Two matrices are equal when every pair of corresponding entries is.
    fn eq(&self, other: &Matrix<N>) -> (r: bool) {
        let mut i: usize = 0;
        while i < N
            invariant
                i <= N,
                forall|p: int, q: int|
                    0 <= p < i && 0 <= q < N ==> #[trigger] self.data[p][q] == other.data[p][q],
            decreases N - i,
        {
            let mut j: usize = 0;
            while j < N
                invariant
                    i < N,
                    j <= N,
                    forall|p: int, q: int|
                        0 <= p < i && 0 <= q < N ==> #[trigger] self.data[p][q] == other.data[p][q],
                    forall|q: int| 0 <= q < j ==> #[trigger] self.data[i as int][q] == other.data[i as int][q],
                decreases N - j,
            {
                if self.data[i][j] != other.data[i][j] {
                    assert(self@[i as int][j as int] != other@[i as int][j as int]);
                    return false;
                }
                j = j + 1;
            }
            i = i + 1;
        }
        assert(self@ =~~= other@);
        true
    }
}

impl<const N: usize> vstd::std_specs::cmp::PartialEqSpecImpl for Matrix<N> {
    open spec fn obeys_eq_spec() -> bool {
        true
    }

    open spec fn eq_spec(&self, other: &Matrix<N>) -> bool {
        self@ == other@
    }
}

impl<const N: usize> From<[[i64; N]; N]> for Matrix<N> {
    /// The matrix whose row `i`, column `j` is `rows[i][j]`.
    fn from(rows: [[i64; N]; N]) -> (r: Matrix<N>)
        ensures
            r@ == grid_view(rows),
    {
        Matrix { data: rows }
    }
}

impl<const N: usize> vstd::std_specs::convert::FromSpecImpl<[[i64; N]; N]> for Matrix<N> {
    open spec fn obeys_from_spec() -> bool {
        true
    }

    closed spec fn from_spec(rows: [[i64; N]; N]) -> Matrix<N> {
        Matrix { data: rows }
    }
}

impl<const N: usize> Default for Matrix<N> {
    /// The zero matrix.
    fn default() -> (r: Self)
        ensures
            r@ == zero_mat(N as nat),
    {
        let r = Matrix { data: [[0i64; N]; N] };
        assert(r@ =~~= zero_mat(N as nat));
        r
    }
}

} // verus!
