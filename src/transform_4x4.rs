use vstd::prelude::*;

verus! {

use core::ops::Add;
use core::ops::Div;
use core::ops::Mul;
use core::ops::Neg;
use core::ops::Sub;
use vstd::std_specs::ops::AddSpec;
use vstd::std_specs::ops::DivSpec;
use vstd::std_specs::ops::MulSpec;
use vstd::std_specs::ops::NegSpec;
use vstd::std_specs::ops::SubSpec;
use crate::scalar::field_ops_obey;
use crate::scalar::field_ops_total;
use crate::scalar::tan_of;
use crate::matrix::Matrix;
use crate::matrix::transpose_model;
use crate::scalar::cos_of;
use crate::scalar::neg_total;
use crate::scalar::negation_of;
use crate::scalar::one_of;
use crate::scalar::sin_of;
use crate::scalar::unit_pair;
use crate::scalar::zero_of;

/// The right-handed rotation about the x axis with cosine `c` and sine `s`, written row by
/// row (`ns` is `-s`, `zr` and `o` the scalar type's zero and one).
pub open spec fn rotation_x_rows<T>(c: T, s: T, ns: T, zr: T, o: T) -> Seq<Seq<T>> {
    seq![seq![o, zr, zr, zr], seq![zr, c, ns, zr], seq![zr, s, c, zr], seq![zr, zr, zr, o]]
}

/// `m` holds, by columns, the rotation about the x axis with cosine `c` and sine `s`.
pub open spec fn is_rotation_x<T: Neg<Output = T> + Add<Output = T> + Mul<Output = T>>(
    m: Seq<Seq<T>>,
    c: T,
    s: T,
) -> bool {
    exists|zr: T, o: T, ns: T|
        unit_pair(zr, o) && negation_of(s, ns) && m == transpose_model(
            rotation_x_rows(c, s, ns, zr, o),
            4nat,
        )
}

/// The rotation about the x axis with cosine `c` and sine `s`, stored by columns.
pub fn rotate_x_cos_sin<
    T: num_traits::Zero + num_traits::One + Copy + Neg<Output = T> + Add<Output = T> + Mul<Output = T>,
>(c: T, s: T) -> (r: Matrix<T, 4, 4>)
    requires
        s.neg_req(),
    ensures
        is_rotation_x(r@, c, s),
{
    let zr = zero_of::<T>();
    let o = one_of::<T>();
    let ns = s.neg();
    let rows = Matrix::from([[o, zr, zr, zr], [zr, c, ns, zr], [zr, s, c, zr], [zr, zr, zr, o]]);
    assert(rows@ =~~= rotation_x_rows(c, s, ns, zr, o));
    let r = rows.as_transpose();
    assert(unit_pair(zr, o) && negation_of(s, ns) && r@ == transpose_model(
        rotation_x_rows(c, s, ns, zr, o),
        4nat,
    ));
    r
}

/// The right-handed rotation about the x axis by the angle `t` (radians), stored by columns.
pub fn rotate_x<
    T: num_traits::real::Real + num_traits::Zero + num_traits::One + Copy + Neg<Output = T> + Add<
        Output = T,
    > + Mul<Output = T>,
>(t: T) -> (r: Matrix<T, 4, 4>)
    requires
        neg_total::<T>(),
    ensures
        exists|c: T, s: T| is_rotation_x(r@, c, s),
{
    let c = cos_of(t);
    let s = sin_of(t);
    assert(s.neg_req());
    rotate_x_cos_sin(c, s)
}

/// The right-handed rotation about the y axis with cosine `c` and sine `s`, written row by
/// row (`ns` is `-s`, `zr` and `o` the scalar type's zero and one).
pub open spec fn rotation_y_rows<T>(c: T, s: T, ns: T, zr: T, o: T) -> Seq<Seq<T>> {
    seq![seq![c, zr, s, zr], seq![zr, o, zr, zr], seq![ns, zr, c, zr], seq![zr, zr, zr, o]]
}

/// `m` holds, by columns, the rotation about the y axis with cosine `c` and sine `s`.
pub open spec fn is_rotation_y<T: Neg<Output = T> + Add<Output = T> + Mul<Output = T>>(
    m: Seq<Seq<T>>,
    c: T,
    s: T,
) -> bool {
    exists|zr: T, o: T, ns: T|
        unit_pair(zr, o) && negation_of(s, ns) && m == transpose_model(
            rotation_y_rows(c, s, ns, zr, o),
            4nat,
        )
}

/// The rotation about the y axis with cosine `c` and sine `s`, stored by columns.
pub fn rotate_y_cos_sin<
    T: num_traits::Zero + num_traits::One + Copy + Neg<Output = T> + Add<Output = T> + Mul<Output = T>,
>(c: T, s: T) -> (r: Matrix<T, 4, 4>)
    requires
        s.neg_req(),
    ensures
        is_rotation_y(r@, c, s),
{
    let zr = zero_of::<T>();
    let o = one_of::<T>();
    let ns = s.neg();
    let rows = Matrix::from([[c, zr, s, zr], [zr, o, zr, zr], [ns, zr, c, zr], [zr, zr, zr, o]]);
    assert(rows@ =~~= rotation_y_rows(c, s, ns, zr, o));
    let r = rows.as_transpose();
    assert(unit_pair(zr, o) && negation_of(s, ns) && r@ == transpose_model(
        rotation_y_rows(c, s, ns, zr, o),
        4nat,
    ));
    r
}

/// The right-handed rotation about the y axis by the angle `t` (radians), stored by columns.
pub fn rotate_y<
    T: num_traits::real::Real + num_traits::Zero + num_traits::One + Copy + Neg<Output = T> + Add<
        Output = T,
    > + Mul<Output = T>,
>(t: T) -> (r: Matrix<T, 4, 4>)
    requires
        neg_total::<T>(),
    ensures
        exists|c: T, s: T| is_rotation_y(r@, c, s),
{
    let c = cos_of(t);
    let s = sin_of(t);
    assert(s.neg_req());
    rotate_y_cos_sin(c, s)
}

/// The right-handed rotation about the z axis with cosine `c` and sine `s`, written row by
/// row (`ns` is `-s`, `zr` and `o` the scalar type's zero and one).
pub open spec fn rotation_z_rows<T>(c: T, s: T, ns: T, zr: T, o: T) -> Seq<Seq<T>> {
    seq![seq![c, ns, zr, zr], seq![s, c, zr, zr], seq![zr, zr, o, zr], seq![zr, zr, zr, o]]
}

/// `m` holds, by columns, the rotation about the z axis with cosine `c` and sine `s`.
pub open spec fn is_rotation_z<T: Neg<Output = T> + Add<Output = T> + Mul<Output = T>>(
    m: Seq<Seq<T>>,
    c: T,
    s: T,
) -> bool {
    exists|zr: T, o: T, ns: T|
        unit_pair(zr, o) && negation_of(s, ns) && m == transpose_model(
            rotation_z_rows(c, s, ns, zr, o),
            4nat,
        )
}

/// The rotation about the z axis with cosine `c` and sine `s`, stored by columns.
pub fn rotate_z_cos_sin<
    T: num_traits::Zero + num_traits::One + Copy + Neg<Output = T> + Add<Output = T> + Mul<Output = T>,
>(c: T, s: T) -> (r: Matrix<T, 4, 4>)
    requires
        s.neg_req(),
    ensures
        is_rotation_z(r@, c, s),
{
    let zr = zero_of::<T>();
    let o = one_of::<T>();
    let ns = s.neg();
    let rows = Matrix::from([[c, ns, zr, zr], [s, c, zr, zr], [zr, zr, o, zr], [zr, zr, zr, o]]);
    assert(rows@ =~~= rotation_z_rows(c, s, ns, zr, o));
    let r = rows.as_transpose();
    assert(unit_pair(zr, o) && negation_of(s, ns) && r@ == transpose_model(
        rotation_z_rows(c, s, ns, zr, o),
        4nat,
    ));
    r
}

/// The right-handed rotation about the z axis by the angle `t` (radians), stored by columns.
pub fn rotate_z<
    T: num_traits::real::Real + num_traits::Zero + num_traits::One + Copy + Neg<Output = T> + Add<
        Output = T,
    > + Mul<Output = T>,
>(t: T) -> (r: Matrix<T, 4, 4>)
    requires
        neg_total::<T>(),
    ensures
        exists|c: T, s: T| is_rotation_z(r@, c, s),
{
    let c = cos_of(t);
    let s = sin_of(t);
    assert(s.neg_req());
    rotate_z_cos_sin(c, s)
}

/// The homogeneous translation by `(x, y, z)`, written row by row (`zr` and `o` the scalar
/// type's zero and one).
pub open spec fn translation_rows<T>(x: T, y: T, z: T, zr: T, o: T) -> Seq<Seq<T>> {
    seq![seq![o, zr, zr, x], seq![zr, o, zr, y], seq![zr, zr, o, z], seq![zr, zr, zr, o]]
}

/// The homogeneous translation by `(x, y, z)`, stored by columns: the offsets are the last
/// column.
pub fn translate<
    T: num_traits::Zero + num_traits::One + Copy + Add<Output = T> + Mul<Output = T>,
>(x: T, y: T, z: T) -> (r: Matrix<T, 4, 4>)
    ensures
        exists|zr: T, o: T|
            unit_pair(zr, o) && r@ == transpose_model(translation_rows(x, y, z, zr, o), 4nat),
{
    let zr = zero_of::<T>();
    let o = one_of::<T>();
    let rows = Matrix::from([[o, zr, zr, x], [zr, o, zr, y], [zr, zr, o, z], [zr, zr, zr, o]]);
    assert(rows@ =~~= translation_rows(x, y, z, zr, o));
    let r = rows.as_transpose();
    assert(unit_pair(zr, o) && r@ == transpose_model(translation_rows(x, y, z, zr, o), 4nat));
    r
}

/// The perspective projection written row by row, from its four computed entries: depth is the
/// second world axis and the vertical one the third (`zr` and `o` the scalar type's zero and
/// one).
pub open spec fn perspective_rows<T>(sx: T, sz: T, dy: T, dw: T, zr: T, o: T) -> Seq<Seq<T>> {
    seq![
        seq![sx, zr, zr, zr],
        seq![zr, zr, sz, zr],
        seq![zr, dy, zr, dw],
        seq![zr, o, zr, zr],
    ]
}

/// The entries `sx`, `sz`, `dy`, `dw` of the perspective projection, given `t`, the tangent of
/// half the field of view, and the scalar one `o`.
pub open spec fn perspective_entries<
    T: Add<Output = T> + Sub<Output = T> + Mul<Output = T> + Div<Output = T> + Neg<Output = T>,
>(t: T, aspect: T, near: T, far: T, o: T, sx: T, sz: T, dy: T, dw: T) -> bool {
    &&& sx == o.div_spec(t).div_spec(aspect)
    &&& sz == o.div_spec(t).neg_spec()
    &&& dy == far.div_spec(far.sub_spec(near))
    &&& dw == far.mul_spec(near).neg_spec().div_spec(far.sub_spec(near))
}

/// `m` holds, by columns, the perspective projection whose half field of view has tangent `t`.
pub open spec fn is_perspective<
    T: Add<Output = T> + Sub<Output = T> + Mul<Output = T> + Div<Output = T> + Neg<Output = T>,
>(m: Seq<Seq<T>>, t: T, aspect: T, near: T, far: T) -> bool {
    exists|zr: T, o: T, sx: T, sz: T, dy: T, dw: T|
        #![trigger perspective_rows(sx, sz, dy, dw, zr, o)]
        {
            &&& unit_pair(zr, o)
            &&& m == transpose_model(perspective_rows(sx, sz, dy, dw, zr, o), 4nat)
            &&& field_ops_obey::<T>() ==> perspective_entries(t, aspect, near, far, o, sx, sz, dy, dw)
        }
}

/// The projection from world to clip coordinates whose vertical field of view has half-angle
/// tangent `tan_half_fov`, stored by columns. The world's third axis is vertical and its second
/// axis is depth.
pub fn perspective_tan<
    T: num_traits::Zero + num_traits::One + Copy + Add<Output = T> + Sub<Output = T> + Mul<
        Output = T,
    > + Div<Output = T> + Neg<Output = T>,
>(tan_half_fov: T, aspect: T, near: T, far: T) -> (r: Matrix<T, 4, 4>)
    requires
        field_ops_total::<T>(),
    ensures
        is_perspective(r@, tan_half_fov, aspect, near, far),
{
    let zr = zero_of::<T>();
    let o = one_of::<T>();
    let t = tan_half_fov;
    assert(o.div_req(t));
    let inv = o / t;
    assert(inv.div_req(aspect) && inv.neg_req() && far.sub_req(near) && far.mul_req(near));
    let sx = inv / aspect;
    let sz = inv.neg();
    let depth = far - near;
    let fnr = far * near;
    assert(far.div_req(depth) && fnr.neg_req());
    let dy = far / depth;
    let nfn = fnr.neg();
    assert(nfn.div_req(depth));
    let dw = nfn / depth;
    let rows = Matrix::from(
        [[sx, zr, zr, zr], [zr, zr, sz, zr], [zr, dy, zr, dw], [zr, o, zr, zr]],
    );
    assert(rows@ =~~= perspective_rows(sx, sz, dy, dw, zr, o));
    let r = rows.as_transpose();
    proof {
        if field_ops_obey::<T>() {
            assert(perspective_entries(t, aspect, near, far, o, sx, sz, dy, dw));
        }
    }
    assert(perspective_rows(sx, sz, dy, dw, zr, o) == perspective_rows(sx, sz, dy, dw, zr, o));
    r
}

/// The projection from world to clip coordinates with vertical field of view `vertical_fov`
/// (radians), stored by columns. The world's third axis is vertical and its second axis is
/// depth.
pub fn perspective<
    T: num_traits::real::Real + num_traits::Zero + num_traits::One + Copy + Add<Output = T> + Sub<
        Output = T,
    > + Mul<Output = T> + Div<Output = T> + Neg<Output = T>,
>(vertical_fov: T, aspect: T, near: T, far: T) -> (r: Matrix<T, 4, 4>)
    requires
        field_ops_total::<T>(),
    ensures
        exists|t: T| is_perspective(r@, t, aspect, near, far),
{
    let o = one_of::<T>();
    assert(o.add_req(o));
    let two = o + o;
    assert(vertical_fov.div_req(two));
    let t = tan_of(vertical_fov / two);
    perspective_tan(t, aspect, near, far)
}

/// The orthographic projection written row by row, from its three computed entries (`zr` and
/// `o` the scalar type's zero and one).
pub open spec fn orthographic_rows<T>(sx: T, sz: T, dy: T, zr: T, o: T) -> Seq<Seq<T>> {
    seq![
        seq![sx, zr, zr, zr],
        seq![zr, zr, sz, zr],
        seq![zr, dy, zr, zr],
        seq![zr, zr, zr, o],
    ]
}

/// The projection from world to clip coordinates of a `width` by `height` by `depth` box,
/// stored by columns. The world's third axis is vertical and its second axis is depth.
pub fn orthographic<
    T: num_traits::real::Real + Copy + Add<Output = T> + Sub<Output = T> + Mul<Output = T> + Div<
        Output = T,
    > + Neg<Output = T>,
>(width: T, height: T, depth: T) -> (r: Matrix<T, 4, 4>)
    requires
        field_ops_total::<T>(),
    ensures
        exists|zr: T, o: T, sx: T, sz: T, dy: T|
            {
                &&& unit_pair(zr, o)
                &&& r@ == transpose_model(orthographic_rows(sx, sz, dy, zr, o), 4nat)
                &&& field_ops_obey::<T>() ==> {
                    &&& sx == o.add_spec(o).div_spec(width)
                    &&& sz == o.add_spec(o).neg_spec().div_spec(height)
                    &&& dy == o.add_spec(o).div_spec(depth)
                }
            },
{
    let zr = zero_of::<T>();
    let o = one_of::<T>();
    assert(o.add_req(o));
    let two = o + o;
    assert(two.div_req(width) && two.neg_req() && two.div_req(depth));
    let sx = two / width;
    let ntwo = two.neg();
    assert(ntwo.div_req(height));
    let sz = ntwo / height;
    let dy = two / depth;
    let rows = Matrix::from(
        [[sx, zr, zr, zr], [zr, zr, sz, zr], [zr, dy, zr, zr], [zr, zr, zr, o]],
    );
    assert(rows@ =~~= orthographic_rows(sx, sz, dy, zr, o));
    let r = rows.as_transpose();
    assert(unit_pair(zr, o) && r@ == transpose_model(orthographic_rows(sx, sz, dy, zr, o), 4nat));
    r
}

/// The ray-generation matrix written row by row, from its computed entries (`zr` and `o` the
/// scalar type's zero and one).
pub open spec fn ray_gen_rows<T>(px: T, pw: T, pz: T, tw: T, dz: T, dw: T, zr: T, o: T) -> Seq<
    Seq<T>,
> {
    seq![
        seq![px, zr, zr, pw],
        seq![zr, zr, zr, o],
        seq![zr, pz, zr, tw],
        seq![zr, zr, dz, dw],
    ]
}

/// The computed entries of the ray-generation matrix, given `t`, the tangent of half the field
/// of view, and the scalar one `o`.
pub open spec fn ray_gen_entries<
    T: Add<Output = T> + Sub<Output = T> + Mul<Output = T> + Div<Output = T> + Neg<Output = T>,
>(t: T, width_px: T, height_px: T, near: T, far: T, o: T, px: T, pw: T, pz: T, dz: T, dw: T) -> bool {
    let two = o.add_spec(o);
    let aspect = width_px.div_spec(height_px);
    &&& px == t.mul_spec(two).div_spec(height_px)
    &&& pw == t.neg_spec().mul_spec(aspect)
    &&& pz == two.neg_spec().mul_spec(t).div_spec(height_px)
    &&& dz == far.sub_spec(near).neg_spec().div_spec(far.mul_spec(near))
    &&& dw == far.div_spec(far.mul_spec(near))
}

/// `m` holds, by columns, the ray-generation matrix whose half field of view has tangent `t`.
pub open spec fn is_ray_gen<
    T: Add<Output = T> + Sub<Output = T> + Mul<Output = T> + Div<Output = T> + Neg<Output = T>,
>(m: Seq<Seq<T>>, t: T, width_px: T, height_px: T, near: T, far: T) -> bool {
    exists|zr: T, o: T, px: T, pw: T, pz: T, dz: T, dw: T|
        #![trigger ray_gen_rows(px, pw, pz, t, dz, dw, zr, o)]
        {
            &&& unit_pair(zr, o)
            &&& m == transpose_model(ray_gen_rows(px, pw, pz, t, dz, dw, zr, o), 4nat)
            &&& field_ops_obey::<T>() ==> ray_gen_entries(
                t,
                width_px,
                height_px,
                near,
                far,
                o,
                px,
                pw,
                pz,
                dz,
                dw,
            )
        }
}

/// The matrix that takes a pixel `(px, py, d, 1)` of a `width_px` by `height_px` screen to
/// homogeneous world coordinates, for a vertical field of view whose half-angle has tangent
/// `tan_half_fov`: after the perspective divide, depth 0 gives the ray's origin and depth 1
/// minus depth 0 its direction. Stored by columns; the world's third axis is vertical.
pub fn perspective_ray_gen_tan<
    T: num_traits::Zero + num_traits::One + Copy + Add<Output = T> + Sub<Output = T> + Mul<
        Output = T,
    > + Div<Output = T> + Neg<Output = T>,
>(tan_half_fov: T, width_px: T, height_px: T, near: T, far: T) -> (r: Matrix<T, 4, 4>)
    requires
        field_ops_total::<T>(),
    ensures
        is_ray_gen(r@, tan_half_fov, width_px, height_px, near, far),
{
    let zr = zero_of::<T>();
    let o = one_of::<T>();
    let t = tan_half_fov;
    assert(width_px.div_req(height_px) && o.add_req(o));
    let aspect = width_px / height_px;
    let two = o + o;
    assert(t.mul_req(two) && t.neg_req() && two.neg_req());
    let t2 = t * two;
    let nt = t.neg();
    let ntwo = two.neg();
    assert(t2.div_req(height_px) && nt.mul_req(aspect) && ntwo.mul_req(t));
    let px = t2 / height_px;
    let pw = nt * aspect;
    let nt2 = ntwo * t;
    assert(nt2.div_req(height_px) && far.sub_req(near) && far.mul_req(near));
    let pz = nt2 / height_px;
    let depth = far - near;
    let fnr = far * near;
    assert(depth.neg_req() && far.div_req(fnr));
    let ndepth = depth.neg();
    assert(ndepth.div_req(fnr));
    let dz = ndepth / fnr;
    let dw = far / fnr;
    let rows = Matrix::from(
        [[px, zr, zr, pw], [zr, zr, zr, o], [zr, pz, zr, t], [zr, zr, dz, dw]],
    );
    assert(rows@ =~~= ray_gen_rows(px, pw, pz, t, dz, dw, zr, o));
    let r = rows.as_transpose();
    assert(ray_gen_rows(px, pw, pz, t, dz, dw, zr, o) == ray_gen_rows(px, pw, pz, t, dz, dw, zr, o));
    assert({
        &&& unit_pair(zr, o)
        &&& r@ == transpose_model(ray_gen_rows(px, pw, pz, t, dz, dw, zr, o), 4nat)
        &&& field_ops_obey::<T>() ==> ray_gen_entries(
            t,
            width_px,
            height_px,
            near,
            far,
            o,
            px,
            pw,
            pz,
            dz,
            dw,
        )
    });
    r
}

/// The matrix that takes a pixel `(px, py, d, 1)` of a `width_px` by `height_px` screen to
/// homogeneous world coordinates, for the vertical field of view `vertical_fov` (radians):
/// after the perspective divide, depth 0 gives the ray's origin and depth 1 minus depth 0 its
/// direction. Stored by columns; the world's third axis is vertical.
pub fn perspective_ray_gen<
    T: num_traits::real::Real + num_traits::Zero + num_traits::One + Copy + Add<Output = T> + Sub<
        Output = T,
    > + Mul<Output = T> + Div<Output = T> + Neg<Output = T>,
>(vertical_fov: T, width_px: T, height_px: T, near: T, far: T) -> (r: Matrix<T, 4, 4>)
    requires
        field_ops_total::<T>(),
    ensures
        exists|t: T| is_ray_gen(r@, t, width_px, height_px, near, far),
{
    let o = one_of::<T>();
    assert(o.add_req(o));
    let two = o + o;
    assert(vertical_fov.div_req(two));
    let t = tan_of(vertical_fov / two);
    perspective_ray_gen_tan(t, width_px, height_px, near, far)
}

} // verus!
