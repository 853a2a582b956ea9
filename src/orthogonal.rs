use vstd::prelude::*;

verus! {

use core::ops::Add;
use core::ops::Mul;
use core::ops::Neg;
use vstd::std_specs::ops::AddSpec;
use vstd::std_specs::ops::MulSpec;
use vstd::std_specs::ops::NegSpec;
use crate::laws::lemma_mul_zero;
use crate::matrix::identity_model;
use crate::matrix::transpose_model;
use crate::product::dot_model;
use crate::product::matmul_model;
use crate::product::products;
use crate::product::sum_seq;
use crate::scalar::is_one;
use crate::scalar::is_zero;
use crate::scalar::lemma_ring_obeys;
use crate::scalar::negation_of;
use crate::scalar::ring_laws;
use crate::scalar::unit_pair;
use crate::matrix::is_identity;
use crate::transform_3x3::is_rotation_x as is_rotation_x_3;
use crate::transform_3x3::rotation_x_rows as rotation_x_rows_3;
use crate::transform_3x3::is_rotation_y as is_rotation_y_3;
use crate::transform_3x3::rotation_y_rows as rotation_y_rows_3;
use crate::transform_3x3::is_rotation_z as is_rotation_z_3;
use crate::transform_3x3::rotation_z_rows as rotation_z_rows_3;
use crate::transform_4x4::is_rotation_x as is_rotation_x_4;
use crate::transform_4x4::rotation_x_rows as rotation_x_rows_4;
use crate::transform_4x4::is_rotation_y as is_rotation_y_4;
use crate::transform_4x4::rotation_y_rows as rotation_y_rows_4;
use crate::transform_4x4::is_rotation_z as is_rotation_z_4;
use crate::transform_4x4::rotation_z_rows as rotation_z_rows_4;

/// Negation on `T` gives additive inverses and commutes with products, and `*` is
/// commutative: with the ring laws, the arithmetic of a commutative ring.
#[verifier::opaque]
pub open spec fn commutative_neg_laws<T: Add<Output = T> + Mul<Output = T> + Neg<Output = T>>() -> bool {
    &&& T::obeys_neg_spec()
    &&& forall|a: T, b: T| #[trigger] a.mul_spec(b) == b.mul_spec(a)
    &&& forall|a: T, b: T| #[trigger] a.neg_spec().mul_spec(b) == a.mul_spec(b).neg_spec()
    &&& forall|a: T| is_zero(#[trigger] a.add_spec(a.neg_spec()))
}

proof fn lemma_mul_comm<T: Add<Output = T> + Mul<Output = T> + Neg<Output = T>>(a: T, b: T)
    requires
        commutative_neg_laws::<T>(),
    ensures
        a.mul_spec(b) == b.mul_spec(a),
{
    reveal(commutative_neg_laws);
}

proof fn lemma_neg_mul<T: Add<Output = T> + Mul<Output = T> + Neg<Output = T>>(a: T, b: T)
    requires
        commutative_neg_laws::<T>(),
    ensures
        a.neg_spec().mul_spec(b) == a.mul_spec(b).neg_spec(),
{
    reveal(commutative_neg_laws);
}

proof fn lemma_add_neg<T: Add<Output = T> + Mul<Output = T> + Neg<Output = T>>(a: T, z: T)
    requires
        commutative_neg_laws::<T>(),
        is_zero(z),
    ensures
        a.add_spec(a.neg_spec()) == z,
{
    reveal(commutative_neg_laws);
    let w = a.add_spec(a.neg_spec());
    assert(is_zero(w));
    assert(z.add_spec(w) == z);
    assert(z.add_spec(w) == w);
}

/// Entry `(j, i)` of `m` times its transpose is row `i` of `m` dotted with row `j`, where `m`
/// is the transpose of `rows`.
proof fn lemma_gram_entry<T: Add<Output = T> + Mul<Output = T>>(rows: Seq<Seq<T>>, n: nat, j: int, i: int)
    requires
        n >= 1,
        rows.len() == n,
        forall|r: int| 0 <= r < n ==> #[trigger] rows[r].len() == n,
        0 <= j < n,
        0 <= i < n,
    ensures
        matmul_model(transpose_model(rows, n), transpose_model(transpose_model(rows, n), n))[j][i]
            == dot_model(rows[i], rows[j]),
{
    let m = transpose_model(rows, n);
    let mt = transpose_model(m, n);
    assert(products(crate::product::row_of(m, i), mt[j]) =~= products(rows[i], rows[j]));
}

/// Three-term dot products unfold to `(x0 * y0 + x1 * y1) + x2 * y2`.
proof fn lemma_dot3<T: Add<Output = T> + Mul<Output = T>>(x: Seq<T>, y: Seq<T>)
    requires
        x.len() == 3,
        y.len() == 3,
    ensures
        dot_model(x, y) == x[0].mul_spec(y[0]).add_spec(x[1].mul_spec(y[1])).add_spec(
            x[2].mul_spec(y[2]),
        ),
{
    let p = products(x, y);
    assert(p.drop_last().drop_last() =~= seq![p[0]]);
    assert(sum_seq(p.drop_last()) == sum_seq(p.drop_last().drop_last()).add_spec(p[1]));
}

/// Four-term dot products unfold to `((x0 * y0 + x1 * y1) + x2 * y2) + x3 * y3`.
proof fn lemma_dot4<T: Add<Output = T> + Mul<Output = T>>(x: Seq<T>, y: Seq<T>)
    requires
        x.len() == 4,
        y.len() == 4,
    ensures
        dot_model(x, y) == x[0].mul_spec(y[0]).add_spec(x[1].mul_spec(y[1])).add_spec(
            x[2].mul_spec(y[2]),
        ).add_spec(x[3].mul_spec(y[3])),
{
    let p = products(x, y);
    assert(p.drop_last().drop_last().drop_last() =~= seq![p[0]]);
    assert(sum_seq(p.drop_last().drop_last()) == sum_seq(p.drop_last().drop_last().drop_last()).add_spec(p[1]));
    assert(sum_seq(p.drop_last()) == sum_seq(p.drop_last().drop_last()).add_spec(p[2]));
}

proof fn lemma_neg_obeys<T: Add<Output = T> + Mul<Output = T> + Neg<Output = T>>()
    requires
        commutative_neg_laws::<T>(),
    ensures
        T::obeys_neg_spec(),
{
    reveal(commutative_neg_laws);
}

/// The facts about cosine `c`, sine `s` and `ns == -s` that make a rotation orthogonal.
proof fn lemma_cos_sin_facts<T: Add<Output = T> + Mul<Output = T> + Neg<Output = T>>(
    c: T,
    s: T,
    ns: T,
    z: T,
    o: T,
)
    requires
        ring_laws::<T>(),
        commutative_neg_laws::<T>(),
        is_zero(z),
        is_one(o),
        ns == s.neg_spec(),
        is_one(c.mul_spec(c).add_spec(s.mul_spec(s))),
    ensures
        c.mul_spec(c).add_spec(s.mul_spec(s)) == o,
        ns.mul_spec(ns).add_spec(c.mul_spec(c)) == o,
        c.mul_spec(c).add_spec(ns.mul_spec(ns)) == o,
        s.mul_spec(s).add_spec(c.mul_spec(c)) == o,
        c.mul_spec(s).add_spec(ns.mul_spec(c)) == z,
        s.mul_spec(c).add_spec(c.mul_spec(ns)) == z,
        c.mul_spec(ns).add_spec(s.mul_spec(c)) == z,
        ns.mul_spec(c).add_spec(c.mul_spec(s)) == z,
{
    let q = c.mul_spec(c).add_spec(s.mul_spec(s));
    assert(o.mul_spec(q) == o);
    assert(o.mul_spec(q) == q);
    // (-s) * (-s) == s * s
    let ss = s.mul_spec(s);
    lemma_neg_mul(s, ns);
    lemma_mul_comm(s, ns);
    lemma_neg_mul(s, s);
    let nss = ss.neg_spec();
    lemma_add_neg(ss, z);
    lemma_add_neg(nss, z);
    crate::scalar::lemma_add_comm(ss, nss);
    crate::scalar::lemma_add_cancel(nss, ss, nss.neg_spec());
    assert(ns.mul_spec(ns) == ss);
    lemma_mul_comm(c, c);
    crate::scalar::lemma_add_comm(ss, c.mul_spec(c));
    crate::scalar::lemma_add_comm(ns.mul_spec(ns), c.mul_spec(c));
    // c * s + (-s) * c == 0
    let cs = c.mul_spec(s);
    lemma_neg_mul(s, c);
    lemma_mul_comm(s, c);
    lemma_add_neg(cs, z);
    assert(ns.mul_spec(c) == cs.neg_spec());
    lemma_mul_comm(c, ns);
    crate::scalar::lemma_add_comm(cs, cs.neg_spec());
}

/// Under the arithmetic of a commutative ring, a 3 by 3 rotation about the x axis whose cosine `c` and
/// sine `s` satisfy `c * c + s * s == 1` times its transpose is the identity.
pub proof fn lemma_rotation_x3_orthogonal<T: Add<Output = T> + Mul<Output = T> + Neg<Output = T>>(
    m: Seq<Seq<T>>,
    c: T,
    s: T,
)
    requires
        ring_laws::<T>(),
        commutative_neg_laws::<T>(),
        is_rotation_x_3(m, c, s),
        is_one(c.mul_spec(c).add_spec(s.mul_spec(s))),
    ensures
        is_identity(matmul_model(m, transpose_model(m, 3nat)), 3nat),
{
    let (z, o, ns) = choose|z: T, o: T, ns: T|
        unit_pair(z, o) && negation_of(s, ns) && m == transpose_model(
            rotation_x_rows_3(c, s, ns, z, o),
            3nat,
        );
    lemma_ring_obeys::<T>();
    lemma_neg_obeys::<T>();
    let rows = rotation_x_rows_3(c, s, ns, z, o);
    lemma_cos_sin_facts(c, s, ns, z, o);
    lemma_mul_zero(z, z);
    lemma_mul_zero(o, z);
    lemma_mul_zero(c, z);
    lemma_mul_zero(s, z);
    lemma_mul_zero(ns, z);
    assert(o.mul_spec(o) == o);
    let g = matmul_model(m, transpose_model(m, 3nat));
    assert forall|j: int, i: int| 0 <= j < 3 && 0 <= i < 3 implies #[trigger] g[j][i]
        == identity_model(z, o, 3nat)[j][i] by {
        lemma_gram_entry(rows, 3nat, j, i);
        lemma_dot3(rows[i], rows[j]);
    }
    assert(g =~~= identity_model(z, o, 3nat));
}

/// Under the arithmetic of a commutative ring, a 3 by 3 rotation about the y axis whose cosine `c` and
/// sine `s` satisfy `c * c + s * s == 1` times its transpose is the identity.
pub proof fn lemma_rotation_y3_orthogonal<T: Add<Output = T> + Mul<Output = T> + Neg<Output = T>>(
    m: Seq<Seq<T>>,
    c: T,
    s: T,
)
    requires
        ring_laws::<T>(),
        commutative_neg_laws::<T>(),
        is_rotation_y_3(m, c, s),
        is_one(c.mul_spec(c).add_spec(s.mul_spec(s))),
    ensures
        is_identity(matmul_model(m, transpose_model(m, 3nat)), 3nat),
{
    let (z, o, ns) = choose|z: T, o: T, ns: T|
        unit_pair(z, o) && negation_of(s, ns) && m == transpose_model(
            rotation_y_rows_3(c, s, ns, z, o),
            3nat,
        );
    lemma_ring_obeys::<T>();
    lemma_neg_obeys::<T>();
    let rows = rotation_y_rows_3(c, s, ns, z, o);
    lemma_cos_sin_facts(c, s, ns, z, o);
    lemma_mul_zero(z, z);
    lemma_mul_zero(o, z);
    lemma_mul_zero(c, z);
    lemma_mul_zero(s, z);
    lemma_mul_zero(ns, z);
    assert(o.mul_spec(o) == o);
    let g = matmul_model(m, transpose_model(m, 3nat));
    assert forall|j: int, i: int| 0 <= j < 3 && 0 <= i < 3 implies #[trigger] g[j][i]
        == identity_model(z, o, 3nat)[j][i] by {
        lemma_gram_entry(rows, 3nat, j, i);
        lemma_dot3(rows[i], rows[j]);
    }
    assert(g =~~= identity_model(z, o, 3nat));
}

/// Under the arithmetic of a commutative ring, a 3 by 3 rotation about the z axis whose cosine `c` and
/// sine `s` satisfy `c * c + s * s == 1` times its transpose is the identity.
pub proof fn lemma_rotation_z3_orthogonal<T: Add<Output = T> + Mul<Output = T> + Neg<Output = T>>(
    m: Seq<Seq<T>>,
    c: T,
    s: T,
)
    requires
        ring_laws::<T>(),
        commutative_neg_laws::<T>(),
        is_rotation_z_3(m, c, s),
        is_one(c.mul_spec(c).add_spec(s.mul_spec(s))),
    ensures
        is_identity(matmul_model(m, transpose_model(m, 3nat)), 3nat),
{
    let (z, o, ns) = choose|z: T, o: T, ns: T|
        unit_pair(z, o) && negation_of(s, ns) && m == transpose_model(
            rotation_z_rows_3(c, s, ns, z, o),
            3nat,
        );
    lemma_ring_obeys::<T>();
    lemma_neg_obeys::<T>();
    let rows = rotation_z_rows_3(c, s, ns, z, o);
    lemma_cos_sin_facts(c, s, ns, z, o);
    lemma_mul_zero(z, z);
    lemma_mul_zero(o, z);
    lemma_mul_zero(c, z);
    lemma_mul_zero(s, z);
    lemma_mul_zero(ns, z);
    assert(o.mul_spec(o) == o);
    let g = matmul_model(m, transpose_model(m, 3nat));
    assert forall|j: int, i: int| 0 <= j < 3 && 0 <= i < 3 implies #[trigger] g[j][i]
        == identity_model(z, o, 3nat)[j][i] by {
        lemma_gram_entry(rows, 3nat, j, i);
        lemma_dot3(rows[i], rows[j]);
    }
    assert(g =~~= identity_model(z, o, 3nat));
}

/// Under the arithmetic of a commutative ring, a 4 by 4 rotation about the x axis whose cosine `c` and
/// sine `s` satisfy `c * c + s * s == 1` times its transpose is the identity.
pub proof fn lemma_rotation_x4_orthogonal<T: Add<Output = T> + Mul<Output = T> + Neg<Output = T>>(
    m: Seq<Seq<T>>,
    c: T,
    s: T,
)
    requires
        ring_laws::<T>(),
        commutative_neg_laws::<T>(),
        is_rotation_x_4(m, c, s),
        is_one(c.mul_spec(c).add_spec(s.mul_spec(s))),
    ensures
        is_identity(matmul_model(m, transpose_model(m, 4nat)), 4nat),
{
    let (z, o, ns) = choose|z: T, o: T, ns: T|
        unit_pair(z, o) && negation_of(s, ns) && m == transpose_model(
            rotation_x_rows_4(c, s, ns, z, o),
            4nat,
        );
    lemma_ring_obeys::<T>();
    lemma_neg_obeys::<T>();
    let rows = rotation_x_rows_4(c, s, ns, z, o);
    lemma_cos_sin_facts(c, s, ns, z, o);
    lemma_mul_zero(z, z);
    lemma_mul_zero(o, z);
    lemma_mul_zero(c, z);
    lemma_mul_zero(s, z);
    lemma_mul_zero(ns, z);
    assert(o.mul_spec(o) == o);
    let g = matmul_model(m, transpose_model(m, 4nat));
    assert forall|j: int, i: int| 0 <= j < 4 && 0 <= i < 4 implies #[trigger] g[j][i]
        == identity_model(z, o, 4nat)[j][i] by {
        lemma_gram_entry(rows, 4nat, j, i);
        lemma_dot4(rows[i], rows[j]);
    }
    assert(g =~~= identity_model(z, o, 4nat));
}

/// Under the arithmetic of a commutative ring, a 4 by 4 rotation about the y axis whose cosine `c` and
/// sine `s` satisfy `c * c + s * s == 1` times its transpose is the identity.
pub proof fn lemma_rotation_y4_orthogonal<T: Add<Output = T> + Mul<Output = T> + Neg<Output = T>>(
    m: Seq<Seq<T>>,
    c: T,
    s: T,
)
    requires
        ring_laws::<T>(),
        commutative_neg_laws::<T>(),
        is_rotation_y_4(m, c, s),
        is_one(c.mul_spec(c).add_spec(s.mul_spec(s))),
    ensures
        is_identity(matmul_model(m, transpose_model(m, 4nat)), 4nat),
{
    let (z, o, ns) = choose|z: T, o: T, ns: T|
        unit_pair(z, o) && negation_of(s, ns) && m == transpose_model(
            rotation_y_rows_4(c, s, ns, z, o),
            4nat,
        );
    lemma_ring_obeys::<T>();
    lemma_neg_obeys::<T>();
    let rows = rotation_y_rows_4(c, s, ns, z, o);
    lemma_cos_sin_facts(c, s, ns, z, o);
    lemma_mul_zero(z, z);
    lemma_mul_zero(o, z);
    lemma_mul_zero(c, z);
    lemma_mul_zero(s, z);
    lemma_mul_zero(ns, z);
    assert(o.mul_spec(o) == o);
    let g = matmul_model(m, transpose_model(m, 4nat));
    assert forall|j: int, i: int| 0 <= j < 4 && 0 <= i < 4 implies #[trigger] g[j][i]
        == identity_model(z, o, 4nat)[j][i] by {
        lemma_gram_entry(rows, 4nat, j, i);
        lemma_dot4(rows[i], rows[j]);
    }
    assert(g =~~= identity_model(z, o, 4nat));
}

/// Under the arithmetic of a commutative ring, a 4 by 4 rotation about the z axis whose cosine `c` and
/// sine `s` satisfy `c * c + s * s == 1` times its transpose is the identity.
pub proof fn lemma_rotation_z4_orthogonal<T: Add<Output = T> + Mul<Output = T> + Neg<Output = T>>(
    m: Seq<Seq<T>>,
    c: T,
    s: T,
)
    requires
        ring_laws::<T>(),
        commutative_neg_laws::<T>(),
        is_rotation_z_4(m, c, s),
        is_one(c.mul_spec(c).add_spec(s.mul_spec(s))),
    ensures
        is_identity(matmul_model(m, transpose_model(m, 4nat)), 4nat),
{
    let (z, o, ns) = choose|z: T, o: T, ns: T|
        unit_pair(z, o) && negation_of(s, ns) && m == transpose_model(
            rotation_z_rows_4(c, s, ns, z, o),
            4nat,
        );
    lemma_ring_obeys::<T>();
    lemma_neg_obeys::<T>();
    let rows = rotation_z_rows_4(c, s, ns, z, o);
    lemma_cos_sin_facts(c, s, ns, z, o);
    lemma_mul_zero(z, z);
    lemma_mul_zero(o, z);
    lemma_mul_zero(c, z);
    lemma_mul_zero(s, z);
    lemma_mul_zero(ns, z);
    assert(o.mul_spec(o) == o);
    let g = matmul_model(m, transpose_model(m, 4nat));
    assert forall|j: int, i: int| 0 <= j < 4 && 0 <= i < 4 implies #[trigger] g[j][i]
        == identity_model(z, o, 4nat)[j][i] by {
        lemma_gram_entry(rows, 4nat, j, i);
        lemma_dot4(rows[i], rows[j]);
    }
    assert(g =~~= identity_model(z, o, 4nat));
}

} // verus!
