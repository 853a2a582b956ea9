use vstd::prelude::*;

verus! {

use core::ops::Add;
use core::ops::Mul;
use vstd::std_specs::ops::AddSpec;
use vstd::std_specs::ops::MulSpec;
use vstd::std_specs::convert::IntoSpec;
use vstd::std_specs::convert::TryIntoSpec;
use crate::matrix::Matrix;
use crate::matrix::cast_model;
use crate::matrix::try_cast_model;
use crate::matrix::try_cast_ok;
use crate::matrix::is_identity;
use crate::matrix::identity_model;
use crate::matrix::transpose_model;
use crate::product::dot_model;
use crate::product::matmul_model;
use crate::product::products;
use crate::product::row_of;
use crate::product::sum_seq;
use crate::scalar::is_zero;
use crate::scalar::is_one;
use crate::scalar::lemma_add_assoc;
use crate::scalar::lemma_add_cancel;
use crate::scalar::lemma_add_comm;
use crate::scalar::lemma_distrib_left;
use crate::scalar::lemma_distrib_right;
use crate::scalar::lemma_mul_assoc;
use crate::scalar::lemma_ring_obeys;
use crate::scalar::ring_laws;
use crate::scalar::unit_pair;

/// Transposing a matrix twice gives back the matrix.
pub proof fn lemma_transpose_involution<T, const N: usize, const M: usize>(a: Matrix<T, N, M>)
    ensures
        transpose_model(transpose_model(a@, M as nat), N as nat) == a@,
{
    assert(transpose_model(transpose_model(a@, M as nat), N as nat) =~~= a@);
}

/// Under the ring laws, multiplying by an additive identity gives that identity.
pub proof fn lemma_mul_zero<T: Add<Output = T> + Mul<Output = T>>(a: T, z: T)
    requires
        ring_laws::<T>(),
        is_zero(z),
    ensures
        a.mul_spec(z) == z,
        z.mul_spec(a) == z,
{
    let p = a.mul_spec(z);
    assert(z.add_spec(z) == z);
    lemma_distrib_left(a, z, z);
    assert(p.add_spec(z) == p);
    lemma_add_cancel(p, p, z);
    let q = z.mul_spec(a);
    lemma_distrib_right(z, z, a);
    assert(q.add_spec(z) == q);
    lemma_add_cancel(q, q, z);
}

/// A sum whose terms are all an additive identity is that identity.
pub proof fn lemma_sum_of_zeros<T: Add<Output = T>>(s: Seq<T>, z: T)
    requires
        s.len() >= 1,
        is_zero(z),
        forall|k: int| 0 <= k < s.len() ==> s[k] == z,
    ensures
        sum_seq(s) == z,
    decreases s.len(),
{
    if s.len() > 1 {
        lemma_sum_of_zeros(s.drop_last(), z);
        assert(z.add_spec(z) == z);
    }
}

/// A sum whose terms are all an additive identity but one is that one term.
pub proof fn lemma_sum_single<T: Add<Output = T>>(s: Seq<T>, z: T, j: int)
    requires
        0 <= j < s.len(),
        is_zero(z),
        forall|k: int| 0 <= k < s.len() && k != j ==> s[k] == z,
    ensures
        sum_seq(s) == s[j],
    decreases s.len(),
{
    if s.len() > 1 {
        if j == s.len() - 1 {
            lemma_sum_of_zeros(s.drop_last(), z);
            assert(z.add_spec(s[j]) == s[j]);
        } else {
            lemma_sum_single(s.drop_last(), z, j);
            assert(s[j].add_spec(z) == s[j]);
        }
    }
}

/// `identity` is a right and left unit of the matrix product.
pub proof fn lemma_identity_law<T: Add<Output = T> + Mul<Output = T>, const N: usize>(
    a: Matrix<T, N, N>,
    id: Matrix<T, N, N>,
)
    requires
        ring_laws::<T>(),
        1 <= N,
        is_identity(id@, N as nat),
    ensures
        matmul_model(a@, id@) == a@,
        matmul_model(id@, a@) == a@,
{
    let (z, o) = choose|z: T, o: T| unit_pair(z, o) && id@ == identity_model(z, o, N as nat);
    lemma_ring_obeys::<T>();
    assert(is_zero(z));
    assert(is_one(o));
    assert forall|j: int, i: int| 0 <= j < N && 0 <= i < N implies matmul_model(a@, id@)[j][i] == a@[j][i] by {
        let p = products(row_of(a@, i), id@[j]);
        assert forall|k: int| 0 <= k < p.len() && k != j implies p[k] == z by {
            lemma_mul_zero(a@[k][i], z);
        }
        assert(p[j] == a@[j][i].mul_spec(o));
        lemma_sum_single(p, z, j);
    }
    assert(matmul_model(a@, id@) =~~= a@);
    assert forall|j: int, i: int| 0 <= j < N && 0 <= i < N implies matmul_model(id@, a@)[j][i] == a@[j][i] by {
        let p = products(row_of(id@, i), a@[j]);
        assert forall|k: int| 0 <= k < p.len() && k != i implies p[k] == z by {
            lemma_mul_zero(a@[j][k], z);
        }
        assert(p[i] == o.mul_spec(a@[j][i]));
        lemma_sum_single(p, z, i);
    }
    assert(matmul_model(id@, a@) =~~= a@);
}

/// `(w + x) + (y + z) == (w + y) + (x + z)` under the ring laws.
proof fn lemma_add_swap_middle<T: Add<Output = T> + Mul<Output = T>>(w: T, x: T, y: T, z: T)
    requires
        ring_laws::<T>(),
    ensures
        w.add_spec(x).add_spec(y.add_spec(z)) == w.add_spec(y).add_spec(x.add_spec(z)),
{
    lemma_add_assoc(w, x, y.add_spec(z));
    lemma_add_assoc(x, y, z);
    lemma_add_comm(x, y);
    lemma_add_assoc(y, x, z);
    lemma_add_assoc(w, y, x.add_spec(z));
}

/// A sum of termwise sums is the sum of the two sums.
pub proof fn lemma_sum_add<T: Add<Output = T> + Mul<Output = T>>(s: Seq<T>, t: Seq<T>)
    requires
        ring_laws::<T>(),
        s.len() >= 1,
        t.len() == s.len(),
    ensures
        sum_seq(s).add_spec(sum_seq(t)) == sum_seq(
            Seq::new(s.len(), |k: int| s[k].add_spec(t[k])),
        ),
    decreases s.len(),
{
    let u = Seq::new(s.len(), |k: int| s[k].add_spec(t[k]));
    if s.len() > 1 {
        lemma_sum_add(s.drop_last(), t.drop_last());
        assert(Seq::new(s.drop_last().len(), |k: int| s.drop_last()[k].add_spec(t.drop_last()[k]))
            =~= u.drop_last());
        lemma_add_swap_middle(sum_seq(s.drop_last()), s.last(), sum_seq(t.drop_last()), t.last());
    }
}

/// Multiplying a sum on the right multiplies each term.
pub proof fn lemma_sum_mul_right<T: Add<Output = T> + Mul<Output = T>>(s: Seq<T>, y: T)
    requires
        ring_laws::<T>(),
        s.len() >= 1,
    ensures
        sum_seq(s).mul_spec(y) == sum_seq(Seq::new(s.len(), |k: int| s[k].mul_spec(y))),
    decreases s.len(),
{
    let v = Seq::new(s.len(), |k: int| s[k].mul_spec(y));
    if s.len() > 1 {
        lemma_sum_mul_right(s.drop_last(), y);
        assert(Seq::new(s.drop_last().len(), |k: int| s.drop_last()[k].mul_spec(y)) =~= v.drop_last());
        lemma_distrib_right(sum_seq(s.drop_last()), s.last(), y);
    }
}

/// Multiplying a sum on the left multiplies each term.
pub proof fn lemma_sum_mul_left<T: Add<Output = T> + Mul<Output = T>>(y: T, s: Seq<T>)
    requires
        ring_laws::<T>(),
        s.len() >= 1,
    ensures
        y.mul_spec(sum_seq(s)) == sum_seq(Seq::new(s.len(), |k: int| y.mul_spec(s[k]))),
    decreases s.len(),
{
    let v = Seq::new(s.len(), |k: int| y.mul_spec(s[k]));
    if s.len() > 1 {
        lemma_sum_mul_left(y, s.drop_last());
        assert(Seq::new(s.drop_last().len(), |k: int| y.mul_spec(s.drop_last()[k])) =~= v.drop_last());
        lemma_distrib_left(y, sum_seq(s.drop_last()), s.last());
    }
}

/// The two orders of summing a rectangle of terms agree.
pub proof fn lemma_sum_swap<T: Add<Output = T> + Mul<Output = T>>(
    f: spec_fn(int, int) -> T,
    m: nat,
    n: nat,
)
    requires
        ring_laws::<T>(),
        m >= 1,
        n >= 1,
    ensures
        sum_seq(Seq::new(n, |l: int| sum_seq(Seq::new(m, |k: int| f(k, l))))) == sum_seq(
            Seq::new(m, |k: int| sum_seq(Seq::new(n, |l: int| f(k, l)))),
        ),
    decreases n,
{
    let lhs = Seq::new(n, |l: int| sum_seq(Seq::new(m, |k: int| f(k, l))));
    let rhs = Seq::new(m, |k: int| sum_seq(Seq::new(n, |l: int| f(k, l))));
    if n == 1 {
        assert(rhs =~= Seq::new(m, |k: int| f(k, 0)));
    } else {
        let n1 = (n - 1) as nat;
        lemma_sum_swap(f, m, n1);
        assert(lhs.drop_last() =~= Seq::new(n1, |l: int| sum_seq(Seq::new(m, |k: int| f(k, l)))));
        let b = Seq::new(m, |k: int| sum_seq(Seq::new(n1, |l: int| f(k, l))));
        let c = Seq::new(m, |k: int| f(k, n1 as int));
        lemma_sum_add(b, c);
        assert forall|k: int| 0 <= k < m implies #[trigger] rhs[k] == b[k].add_spec(c[k]) by {
            assert(Seq::new(n, |l: int| f(k, l)).drop_last() =~= Seq::new(n1, |l: int| f(k, l)));
        }
        assert(rhs =~= Seq::new(m, |k: int| b[k].add_spec(c[k])));
    }
}

/// The matrix product is associative.
pub proof fn lemma_matmul_assoc<
    T: Add<Output = T> + Mul<Output = T>,
    const M: usize,
    const N: usize,
    const O: usize,
    const P: usize,
>(a: Matrix<T, N, M>, b: Matrix<T, O, N>, c: Matrix<T, P, O>)
    requires
        ring_laws::<T>(),
        1 <= N,
        1 <= O,
    ensures
        matmul_model(matmul_model(a@, b@), c@) == matmul_model(a@, matmul_model(b@, c@)),
{
    let ab = matmul_model(a@, b@);
    let bc = matmul_model(b@, c@);
    assert(a@[0].len() == M);
    assert(b@[0].len() == N);
    assert(ab[0].len() == M);
    assert forall|j: int, i: int| 0 <= j < P && 0 <= i < M implies #[trigger] matmul_model(ab, c@)[j][i]
        == matmul_model(a@, bc)[j][i] by {
        let x = row_of(a@, i);
        let f = |k: int, l: int| x[k].mul_spec(b@[l][k].mul_spec(c@[j][l]));
        let left = products(row_of(ab, i), c@[j]);
        assert forall|l: int| 0 <= l < O implies #[trigger] left[l] == sum_seq(
            Seq::new(N as nat, |k: int| f(k, l)),
        ) by {
            let p = products(x, b@[l]);
            lemma_sum_mul_right(p, c@[j][l]);
            assert forall|k: int| 0 <= k < N implies p[k].mul_spec(c@[j][l]) == f(k, l) by {
                lemma_mul_assoc(x[k], b@[l][k], c@[j][l]);
            }
            assert(Seq::new(p.len(), |k: int| p[k].mul_spec(c@[j][l])) =~= Seq::new(
                N as nat,
                |k: int| f(k, l),
            ));
        }
        assert(left =~= Seq::new(O as nat, |l: int| sum_seq(Seq::new(N as nat, |k: int| f(k, l)))));
        lemma_sum_swap(f, N as nat, O as nat);
        let right = products(x, bc[j]);
        assert forall|k: int| 0 <= k < N implies #[trigger] right[k] == sum_seq(
            Seq::new(O as nat, |l: int| f(k, l)),
        ) by {
            let q = products(row_of(b@, k), c@[j]);
            lemma_sum_mul_left(x[k], q);
            assert(Seq::new(q.len(), |l: int| x[k].mul_spec(q[l])) =~= Seq::new(
                O as nat,
                |l: int| f(k, l),
            ));
        }
        assert(right =~= Seq::new(N as nat, |k: int| sum_seq(Seq::new(O as nat, |l: int| f(k, l)))));
    }
    assert(matmul_model(ab, c@) =~~= matmul_model(a@, bc));
}

/// Converting every entry up with `cast_from` and back with `try_cast_from_or_unwrap` gives
/// the matrix it started from, whenever each scalar survives that round trip.
pub proof fn lemma_cast_round_trip<T1: Into<T2>, T2: TryInto<T1>, const N: usize, const M: usize>(
    a: Matrix<T1, N, M>,
)
    requires
        forall|x: T1|
            #![trigger <T1 as IntoSpec<T2>>::into_spec(x)]
            {
                let back = <T2 as TryIntoSpec<T1>>::try_into_spec(
                    <T1 as IntoSpec<T2>>::into_spec(x),
                );
                back is Ok && back->Ok_0 == x
            },
    ensures
        try_cast_ok::<T2, T1>(cast_model::<T1, T2>(a@)),
        try_cast_model::<T2, T1>(cast_model::<T1, T2>(a@)) == a@,
{
    let up = cast_model::<T1, T2>(a@);
    assert forall|j: int, i: int| 0 <= j < up.len() && 0 <= i < up[j].len() implies (
    #[trigger] <T2 as TryIntoSpec<T1>>::try_into_spec(up[j][i])) is Ok by {
        assert(up[j][i] == <T1 as IntoSpec<T2>>::into_spec(a@[j][i]));
    }
    assert forall|j: int, i: int| 0 <= j < N && 0 <= i < M implies #[trigger] try_cast_model::<T2, T1>(up)[j][i]
        == a@[j][i] by {
        assert(up[j][i] == <T1 as IntoSpec<T2>>::into_spec(a@[j][i]));
    }
    assert(try_cast_model::<T2, T1>(up) =~~= a@);
}

/// An `i32` matrix survives widening to `i64` and narrowing back.
pub proof fn lemma_i32_i64_round_trip<const N: usize, const M: usize>(a: Matrix<i32, N, M>)
    ensures
        <i32 as IntoSpec<i64>>::obeys_into_spec(),
        <i64 as TryIntoSpec<i32>>::obeys_try_into_spec(),
        try_cast_ok::<i64, i32>(cast_model::<i32, i64>(a@)),
        try_cast_model::<i64, i32>(cast_model::<i32, i64>(a@)) == a@,
{
    lemma_cast_round_trip::<i32, i64, N, M>(a);
}

} // verus!
