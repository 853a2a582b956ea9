use vstd::prelude::*;

verus! {

use core::ops::Add;
use core::ops::Mul;
use core::ops::Neg;
use vstd::std_specs::ops::NegSpec;
use crate::matrix::Matrix;
use crate::matrix::transpose_model;
use crate::scalar::cos_of;
use crate::scalar::neg_total;
use crate::scalar::negation_of;
use crate::scalar::one_of;
use crate::scalar::sin_of;
use crate::scalar::unit_pair;
use crate::scalar::zero_of;

/// The right-handed rotation about the x axis with cosine `c` and sine `s`, written row by
/// row (`ns` is `-s`, `zr` and `o` the scalar type's zero and one).
pub open spec fn rotation_x_rows<T>(c: T, s: T, ns: T, zr: T, o: T) -> Seq<Seq<T>> {
    seq![seq![o, zr, zr], seq![zr, c, ns], seq![zr, s, c]]
}

/// `m` holds, by columns, the rotation about the x axis with cosine `c` and sine `s`.
pub open spec fn is_rotation_x<T: Neg<Output = T> + Add<Output = T> + Mul<Output = T>>(
    m: Seq<Seq<T>>,
    c: T,
    s: T,
) -> bool {
    exists|zr: T, o: T, ns: T|
        unit_pair(zr, o) && negation_of(s, ns) && m == transpose_model(
            rotation_x_rows(c, s, ns, zr, o),
            3nat,
        )
}

/// The rotation about the x axis with cosine `c` and sine `s`, stored by columns.
pub fn rotate_x_cos_sin<
    T: num_traits::Zero + num_traits::One + Copy + Neg<Output = T> + Add<Output = T> + Mul<Output = T>,
>(c: T, s: T) -> (r: Matrix<T, 3, 3>)
    requires
        s.neg_req(),
    ensures
        is_rotation_x(r@, c, s),
{
    let zr = zero_of::<T>();
    let o = one_of::<T>();
    let ns = s.neg();
    let rows = Matrix::from([[o, zr, zr], [zr, c, ns], [zr, s, c]]);
    assert(rows@ =~~= rotation_x_rows(c, s, ns, zr, o));
    let r = rows.as_transpose();
    assert(unit_pair(zr, o) && negation_of(s, ns) && r@ == transpose_model(
        rotation_x_rows(c, s, ns, zr, o),
        3nat,
    ));
    r
}

/// The right-handed rotation about the x axis by the angle `t` (radians), stored by columns.
pub fn rotate_x<
    T: num_traits::real::Real + num_traits::Zero + num_traits::One + Copy + Neg<Output = T> + Add<
        Output = T,
    > + Mul<Output = T>,
>(t: T) -> (r: Matrix<T, 3, 3>)
    requires
        neg_total::<T>(),
    ensures
        exists|c: T, s: T| is_rotation_x(r@, c, s),
{
    let c = cos_of(t);
    let s = sin_of(t);
    assert(s.neg_req());
    rotate_x_cos_sin(c, s)
}

/// The right-handed rotation about the y axis with cosine `c` and sine `s`, written row by
/// row (`ns` is `-s`, `zr` and `o` the scalar type's zero and one).
pub open spec fn rotation_y_rows<T>(c: T, s: T, ns: T, zr: T, o: T) -> Seq<Seq<T>> {
    seq![seq![c, zr, s], seq![zr, o, zr], seq![ns, zr, c]]
}

/// `m` holds, by columns, the rotation about the y axis with cosine `c` and sine `s`.
pub open spec fn is_rotation_y<T: Neg<Output = T> + Add<Output = T> + Mul<Output = T>>(
    m: Seq<Seq<T>>,
    c: T,
    s: T,
) -> bool {
    exists|zr: T, o: T, ns: T|
        unit_pair(zr, o) && negation_of(s, ns) && m == transpose_model(
            rotation_y_rows(c, s, ns, zr, o),
            3nat,
        )
}

/// The rotation about the y axis with cosine `c` and sine `s`, stored by columns.
pub fn rotate_y_cos_sin<
    T: num_traits::Zero + num_traits::One + Copy + Neg<Output = T> + Add<Output = T> + Mul<Output = T>,
>(c: T, s: T) -> (r: Matrix<T, 3, 3>)
    requires
        s.neg_req(),
    ensures
        is_rotation_y(r@, c, s),
{
    let zr = zero_of::<T>();
    let o = one_of::<T>();
    let ns = s.neg();
    let rows = Matrix::from([[c, zr, s], [zr, o, zr], [ns, zr, c]]);
    assert(rows@ =~~= rotation_y_rows(c, s, ns, zr, o));
    let r = rows.as_transpose();
    assert(unit_pair(zr, o) && negation_of(s, ns) && r@ == transpose_model(
        rotation_y_rows(c, s, ns, zr, o),
        3nat,
    ));
    r
}

/// The right-handed rotation about the y axis by the angle `t` (radians), stored by columns.
pub fn rotate_y<
    T: num_traits::real::Real + num_traits::Zero + num_traits::One + Copy + Neg<Output = T> + Add<
        Output = T,
    > + Mul<Output = T>,
>(t: T) -> (r: Matrix<T, 3, 3>)
    requires
        neg_total::<T>(),
    ensures
        exists|c: T, s: T| is_rotation_y(r@, c, s),
{
    let c = cos_of(t);
    let s = sin_of(t);
    assert(s.neg_req());
    rotate_y_cos_sin(c, s)
}

/// The right-handed rotation about the z axis with cosine `c` and sine `s`, written row by
/// row (`ns` is `-s`, `zr` and `o` the scalar type's zero and one).
pub open spec fn rotation_z_rows<T>(c: T, s: T, ns: T, zr: T, o: T) -> Seq<Seq<T>> {
    seq![seq![c, ns, zr], seq![s, c, zr], seq![zr, zr, o]]
}

/// `m` holds, by columns, the rotation about the z axis with cosine `c` and sine `s`.
pub open spec fn is_rotation_z<T: Neg<Output = T> + Add<Output = T> + Mul<Output = T>>(
    m: Seq<Seq<T>>,
    c: T,
    s: T,
) -> bool {
    exists|zr: T, o: T, ns: T|
        unit_pair(zr, o) && negation_of(s, ns) && m == transpose_model(
            rotation_z_rows(c, s, ns, zr, o),
            3nat,
        )
}

/// The rotation about the z axis with cosine `c` and sine `s`, stored by columns.
pub fn rotate_z_cos_sin<
    T: num_traits::Zero + num_traits::One + Copy + Neg<Output = T> + Add<Output = T> + Mul<Output = T>,
>(c: T, s: T) -> (r: Matrix<T, 3, 3>)
    requires
        s.neg_req(),
    ensures
        is_rotation_z(r@, c, s),
{
    let zr = zero_of::<T>();
    let o = one_of::<T>();
    let ns = s.neg();
    let rows = Matrix::from([[c, ns, zr], [s, c, zr], [zr, zr, o]]);
    assert(rows@ =~~= rotation_z_rows(c, s, ns, zr, o));
    let r = rows.as_transpose();
    assert(unit_pair(zr, o) && negation_of(s, ns) && r@ == transpose_model(
        rotation_z_rows(c, s, ns, zr, o),
        3nat,
    ));
    r
}

/// The right-handed rotation about the z axis by the angle `t` (radians), stored by columns.
pub fn rotate_z<
    T: num_traits::real::Real + num_traits::Zero + num_traits::One + Copy + Neg<Output = T> + Add<
        Output = T,
    > + Mul<Output = T>,
>(t: T) -> (r: Matrix<T, 3, 3>)
    requires
        neg_total::<T>(),
    ensures
        exists|c: T, s: T| is_rotation_z(r@, c, s),
{
    let c = cos_of(t);
    let s = sin_of(t);
    assert(s.neg_req());
    rotate_z_cos_sin(c, s)
}

} // verus!
