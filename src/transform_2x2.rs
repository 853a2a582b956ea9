use vstd::prelude::*;

verus! {

use core::ops::Neg;
use vstd::std_specs::ops::NegSpec;
use crate::matrix::Matrix;
use crate::matrix::transpose_model;
use crate::scalar::cos_of;
use crate::scalar::negation_of;
use crate::scalar::neg_total;
use crate::scalar::sin_of;

/// The planar rotation with cosine `c` and sine `s`, written row by row (`ns` is `-s`).
pub open spec fn rotation_rows<T>(c: T, s: T, ns: T) -> Seq<Seq<T>> {
    seq![seq![c, ns], seq![s, c]]
}

/// `m` holds, by columns, the planar rotation with cosine `c` and sine `s`.
pub open spec fn is_rotation<T: Neg<Output = T>>(m: Seq<Seq<T>>, c: T, s: T) -> bool {
    exists|ns: T| negation_of(s, ns) && m == transpose_model(rotation_rows(c, s, ns), 2nat)
}

/// The planar rotation with cosine `c` and sine `s`, stored by columns.
pub fn rotate_cos_sin<T: Copy + Neg<Output = T>>(c: T, s: T) -> (r: Matrix<T, 2, 2>)
    requires
        s.neg_req(),
    ensures
        is_rotation(r@, c, s),
{
    let ns = s.neg();
    let rows = Matrix::from([[c, ns], [s, c]]);
    assert(rows@ =~~= rotation_rows(c, s, ns));
    let r = rows.as_transpose();
    assert(negation_of(s, ns) && r@ == transpose_model(rotation_rows(c, s, ns), 2nat));
    r
}

/// The planar rotation by the angle `t` (radians), stored by columns.
pub fn rotate<T: num_traits::real::Real + Copy + Neg<Output = T>>(t: T) -> (r: Matrix<T, 2, 2>)
    requires
        neg_total::<T>(),
    ensures
        exists|c: T, s: T| is_rotation(r@, c, s),
{
    let c = cos_of(t);
    let s = sin_of(t);
    assert(s.neg_req());
    rotate_cos_sin(c, s)
}

} // verus!
