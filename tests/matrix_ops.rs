use matrix_calc::Matrix;

#[test]
fn add() {
    assert_eq!(Matrix::<3>::default() + Matrix::default(), Matrix::default());

    let m1 = Matrix::from([
        [1, 2],
        [3, 4],
    ]);
    let m2 = Matrix::from([
        [5, 6],
        [7, 8],
    ]);

    assert_eq!(m1 + m2, Matrix::from([
        [6, 8],
        [10, 12],
    ]));
}

#[test]
fn sub() {
    assert_eq!(Matrix::<3>::default() - Matrix::default(), Matrix::default());

    let m1 = Matrix::from([
        [1, 2],
        [3, 4],
    ]);
    let m2 = Matrix::from([
        [5, 6],
        [7, 8],
    ]);

    assert_eq!(m1 - m2, Matrix::from([
        [-4, -4],
        [-4, -4],
    ]));
}

#[test]
fn mul() {
    assert_eq!(Matrix::<3>::default() * Matrix::default(), Matrix::default());
    assert_eq!(Matrix::<3>::identity() * Matrix::identity(), Matrix::identity());

    let m1 = Matrix::from([
        [1, 2],
        [3, 4],
    ]);
    let m2 = Matrix::from([
        [5, 6],
        [7, 8],
    ]);

    assert_eq!(m1 * m2, Matrix::from([
        [19, 22],
        [43, 50],
    ]));
}

#[test]
fn zero_two_by_two_sum() {
    assert_eq!(
        Matrix::<2>::default() + Matrix::<2>::default(),
        Matrix::from([[0, 0], [0, 0]])
    );
}

#[test]
fn zero_three_by_three_product() {
    assert_eq!(Matrix::<3>::default() * Matrix::<3>::default(), Matrix::<3>::default());
}

#[test]
fn default_is_all_zero() {
    let z = Matrix::<4>::default();
    for i in 0..4 {
        for j in 0..4 {
            assert_eq!(z.get(i, j), 0);
        }
    }
}

#[test]
fn identity_has_unit_diagonal() {
    let m = Matrix::<4>::identity();
    for i in 0..4 {
        for j in 0..4 {
            assert_eq!(m.get(i, j), if i == j { 1 } else { 0 });
        }
    }
}

#[test]
fn identity_of_size_zero_equals_zero() {
    assert_eq!(Matrix::<0>::identity(), Matrix::<0>::default());
}

#[test]
fn from_keeps_values_row_major() {
    let m = Matrix::from([[1, 2, 3], [4, 5, 6], [7, 8, 9]]);
    assert_eq!(m.get(0, 2), 3);
    assert_eq!(m.get(2, 0), 7);
    assert_eq!(m.get(1, 1), 5);
}

#[test]
fn set_replaces_one_entry() {
    let mut m = Matrix::<2>::default();
    m.set(0, 1, 7);
    assert_eq!(m, Matrix::from([[0, 7], [0, 0]]));
    m.set(0, 1, -3);
    assert_eq!(m.get(0, 1), -3);
    assert_eq!(m.get(1, 0), 0);
}

#[test]
fn equality_is_entry_wise() {
    let a = Matrix::from([[1, 2], [3, 4]]);
    assert_eq!(a, Matrix::from([[1, 2], [3, 4]]));
    assert_ne!(a, Matrix::from([[1, 2], [3, 5]]));
    assert_ne!(a, Matrix::from([[0, 2], [3, 4]]));
}

#[test]
fn adding_zero_keeps_matrix() {
    let a = Matrix::from([[3, -1, 4], [1, -5, 9], [2, 6, -5]]);
    assert_eq!(a + Matrix::default(), a);
}

#[test]
fn multiplying_by_identity_keeps_matrix() {
    let a = Matrix::from([[3, -1, 4], [1, -5, 9], [2, 6, -5]]);
    assert_eq!(a * Matrix::identity(), a);
    assert_eq!(Matrix::identity() * a, a);
}

#[test]
fn multiplying_by_zero_gives_zero() {
    let a = Matrix::from([[3, -1, 4], [1, -5, 9], [2, 6, -5]]);
    assert_eq!(a * Matrix::default(), Matrix::default());
    assert_eq!(Matrix::default() * a, Matrix::default());
}

#[test]
fn subtracting_self_gives_zero() {
    let a = Matrix::from([[3, -1], [i64::MAX, i64::MIN]]);
    assert_eq!(a - a, Matrix::default());
}

#[test]
fn subtraction_does_not_commute() {
    let a = Matrix::from([[1, 2], [3, 4]]);
    let b = Matrix::from([[5, 6], [7, 8]]);
    assert_ne!(a - b, b - a);
    assert_eq!(b - a, Matrix::from([[4, 4], [4, 4]]));
}

#[test]
fn addition_associates_and_commutes() {
    let a = Matrix::from([[1, 2], [3, 4]]);
    let b = Matrix::from([[-7, 0], [11, 2]]);
    let c = Matrix::from([[100, -50], [8, 9]]);
    assert_eq!((a + b) + c, a + (b + c));
    assert_eq!(a + b, b + a);
    assert_eq!((a + b) + c, Matrix::from([[94, -48], [22, 15]]));
}

#[test]
fn multiplication_does_not_commute() {
    let a = Matrix::from([[1, 2], [3, 4]]);
    let b = Matrix::from([[5, 6], [7, 8]]);
    assert_eq!(b * a, Matrix::from([[23, 34], [31, 46]]));
}

#[test]
fn checked_ops_in_range() {
    let a = Matrix::from([[1, 2], [3, 4]]);
    let b = Matrix::from([[5, 6], [7, 8]]);
    assert_eq!(a.checked_add(&b), Some(Matrix::from([[6, 8], [10, 12]])));
    assert_eq!(a.checked_sub(&b), Some(Matrix::from([[-4, -4], [-4, -4]])));
    assert_eq!(a.checked_mul(&b), Some(Matrix::from([[19, 22], [43, 50]])));
}

#[test]
fn checked_add_overflow() {
    let a = Matrix::from([[i64::MAX, 0], [0, 0]]);
    let b = Matrix::from([[1, 0], [0, 0]]);
    assert_eq!(a.checked_add(&b), None);
    assert_eq!(b.checked_add(&a), None);
}

#[test]
fn checked_sub_overflow() {
    let a = Matrix::from([[0, 0], [0, i64::MIN]]);
    let b = Matrix::from([[0, 0], [0, 1]]);
    assert_eq!(a.checked_sub(&b), None);
    assert_eq!(b.checked_sub(&a), None);
}

#[test]
fn checked_mul_overflow_in_product() {
    let a = Matrix::from([[1 << 32, 0], [0, 0]]);
    assert_eq!(a.checked_mul(&a), None);
}

#[test]
fn checked_mul_overflow_in_running_sum() {
    let big = i64::MAX / 2 + 1;
    let a = Matrix::from([[big, big], [0, 0]]);
    let b = Matrix::from([[1, 0], [1, 0]]);
    assert_eq!(a.checked_mul(&b), None);
    let c = Matrix::from([[big, -big], [0, 0]]);
    assert_eq!(c.checked_mul(&b), Some(Matrix::default()));
}
