use linalg::dot;
use linalg::matmul;
use linalg::Matrix;
use linalg::Vector;

#[test]
fn signed_zero_entries_compare_equal() {
    assert_eq!(Matrix::<f64, 1, 1>::from([[0.0]]), Matrix::<f64, 1, 1>::from([[-0.0]]));
    assert_eq!(Matrix::<f32, 1, 1>::from([[0.0]]), Matrix::<f32, 1, 1>::from([[-0.0]]));
}

#[test]
fn nan_entries_compare_unequal() {
    let a = Matrix::<f64, 1, 2>::from([[f64::NAN, 1.0]]);
    assert_ne!(a, a);
}

#[test]
fn transpose_twice_is_identity_map() {
    let a = Matrix::<i32, 3, 2>::from([[1, -2], [3, 4], [-5, 6]]);
    assert_eq!(a.as_transpose().as_transpose(), a);
    let v = Vector::<i64, 4>::from([9, 8, 7, 6]);
    assert_eq!(v.as_transpose().as_transpose(), v);
}

#[test]
fn identity_is_unit_of_product() {
    let a = Matrix::<i32, 3, 3>::from([[2, -1, 0], [4, 5, 6], [-7, 8, 9]]);
    let id = Matrix::<i32, 3, 3>::identity();
    assert_eq!(a * id, a);
    assert_eq!(id * a, a);
    assert_eq!(matmul(&a, &id), a);
}

#[test]
fn identity_of_integers_is_kronecker_delta() {
    let id = Matrix::<i64, 4, 4>::identity();
    for j in 0..4 {
        for i in 0..4 {
            assert_eq!(id.data[j][i], if i == j { 1 } else { 0 });
        }
    }
}

#[test]
fn product_is_associative_on_integers() {
    let a = Matrix::<i64, 2, 3>::from([[1, 2, 3], [4, 5, 6]]);
    let b = Matrix::<i64, 4, 2>::from([[1, -1], [2, 0], [0, 3], [-2, 5]]);
    let c = Matrix::<i64, 2, 4>::from([[7, 0, -1, 2], [3, 3, 3, 3]]);
    assert_eq!(matmul(&matmul(&a, &b), &c), matmul(&a, &matmul(&b, &c)));
    assert_eq!((a * b) * c, a * (b * c));
}

#[test]
fn product_entry_is_row_dot_column() {
    // one column of two rows, times a one by one matrix
    let a = Matrix::<i32, 1, 2>::from([[3, 4]]);
    let b = Matrix::<i32, 1, 1>::from([[5]]);
    assert_eq!(matmul(&a, &b), Matrix::from([[15, 20]]));
    // two columns of one row times two rows of one column: a single dot product
    let r = Matrix::<i32, 2, 1>::from([[2], [3]]);
    let c = Matrix::<i32, 1, 2>::from([[10, 100]]);
    assert_eq!(matmul(&r, &c), Matrix::from([[320]]));
}

#[test]
fn zeros_of_integers() {
    let z = Matrix::<i32, 2, 3>::zeros();
    assert_eq!(z, Matrix::from([[0, 0, 0], [0, 0, 0]]));
}

#[test]
fn scalar_operators() {
    let a = Matrix::<i32, 2, 2>::from([[1, 2], [3, 4]]);
    assert_eq!(a + 10, Matrix::from([[11, 12], [13, 14]]));
    assert_eq!(a * 3, Matrix::from([[3, 6], [9, 12]]));
    assert_eq!(Matrix::<i32, 2, 2>::from([[10, 20], [31, 40]]) / 10, Matrix::from([[1, 2], [3, 4]]));
    let mut m = a;
    m += 1;
    assert_eq!(m, Matrix::from([[2, 3], [4, 5]]));
    m *= 2;
    assert_eq!(m, Matrix::from([[4, 6], [8, 10]]));
    m /= 2;
    assert_eq!(m, Matrix::from([[2, 3], [4, 5]]));
}

#[test]
fn matrix_addition() {
    let a = Matrix::<i32, 2, 2>::from([[1, 2], [3, 4]]);
    let b = Matrix::<i32, 2, 2>::from([[10, 20], [30, 40]]);
    assert_eq!(a + b, Matrix::from([[11, 22], [33, 44]]));
    let mut c = a;
    c += b;
    assert_eq!(c, Matrix::from([[11, 22], [33, 44]]));
}

#[test]
fn float_scalar_division() {
    let a = Matrix::<f64, 1, 2>::from([[1.0, 3.0]]);
    assert_eq!(a / 2.0, Matrix::from([[0.5, 1.5]]));
}

#[test]
fn construction_from_arrays() {
    let v = Vector::<i32, 3>::from([1, 2, 3]);
    assert_eq!(v.data, [[1, 2, 3]]);
    assert_eq!(Matrix::const_from_array1([1, 2, 3]), v);
    let m = Matrix::const_from_array2([[1, 2], [3, 4], [5, 6]]);
    assert_eq!(m.data[2][1], 6);
    assert_eq!(m, Matrix::<i32, 3, 2>::from([[1, 2], [3, 4], [5, 6]]));
}

#[test]
fn widening_cast() {
    let a = Matrix::<i32, 2, 2>::from([[1, -2], [i32::MAX, i32::MIN]]);
    let b = Matrix::<i64, 2, 2>::cast_from(&a);
    assert_eq!(b, Matrix::from([[1i64, -2], [2147483647, -2147483648]]));
    let f = Matrix::<f64, 1, 2>::cast_from(&Matrix::<f32, 1, 2>::from([[0.5f32, -2.25]]));
    assert_eq!(f, Matrix::from([[0.5f64, -2.25]]));
}

#[test]
fn cast_round_trip() {
    let a = Matrix::<i32, 2, 3>::from([[1, -2, 3], [i32::MAX, 0, i32::MIN]]);
    let wide = Matrix::<i64, 2, 3>::cast_from(&a);
    let back = Matrix::<i32, 2, 3>::try_cast_from_or_unwrap(&wide);
    assert_eq!(back, a);
}

#[test]
fn narrowing_cast_in_range() {
    let a = Matrix::<i64, 1, 3>::from([[255, 0, 7]]);
    let b = Matrix::<u8, 1, 3>::try_cast_from_or_unwrap(&a);
    assert_eq!(b, Matrix::from([[255u8, 0, 7]]));
}

#[test]
fn vector_accessors() {
    let mut v = Vector::<i32, 4>::from([1, 2, 3, 4]);
    assert_eq!((v.x(), v.y(), v.z(), v.w()), (1, 2, 3, 4));
    assert_eq!((v.r(), v.g(), v.b(), v.a()), (1, 2, 3, 4));
    assert_eq!((*v.x_ref(), *v.y_ref(), *v.z_ref(), *v.w_ref()), (1, 2, 3, 4));
    assert_eq!((*v.r_ref(), *v.g_ref(), *v.b_ref(), *v.a_ref()), (1, 2, 3, 4));
    *v.x_mut() = 10;
    *v.y_mut() += 10;
    *v.z_mut() = 30;
    *v.w_mut() = 40;
    assert_eq!(v, Vector::from([10, 12, 30, 40]));
    *v.r_mut() = 5;
    *v.g_mut() = 6;
    *v.b_mut() = 7;
    *v.a_mut() = 8;
    assert_eq!(v, Vector::from([5, 6, 7, 8]));
}

#[test]
fn dot_products() {
    let a = Vector::<i32, 3>::from([1, 2, 3]);
    let b = Vector::<i32, 3>::from([4, -5, 6]);
    assert_eq!(dot(&a, &b), 12);
    assert_eq!(dot(&Vector::<i32, 1>::from([7]), &Vector::<i32, 1>::from([-3])), -21);
}

#[test]
fn euclidean_norm() {
    let v = Vector::<f64, 2>::from([3.0, 4.0]);
    assert_eq!(v.norm(), 5.0);
    let w = Vector::<f32, 3>::from([2.0, 3.0, 6.0]);
    assert_eq!(w.norm(), 7.0);
}
