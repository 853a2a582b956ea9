use vstd::prelude::*;

verus! {

use core::ops::Add;
use core::ops::Mul;
use vstd::std_specs::ops::AddSpec;
use vstd::std_specs::ops::MulSpec;
use vstd::std_specs::ops::MulSpecImpl;
use crate::matrix::Matrix;
use crate::matrix::from_view;
use crate::scalar::add_total;
use crate::scalar::array_from_fn;
use crate::scalar::mul_total;

/// The left-to-right sum `((s[0] + s[1]) + s[2]) + ...` of a non-empty sequence.
pub open spec fn sum_seq<T: Add<Output = T>>(s: Seq<T>) -> T
    decreases s.len(),
{
    if s.len() <= 1 {
        s[0]
    } else {
        sum_seq(s.drop_last()).add_spec(s.last())
    }
}

/// The pairwise products `x[k] * y[k]`.
pub open spec fn products<T: Mul<Output = T>>(x: Seq<T>, y: Seq<T>) -> Seq<T> {
    Seq::new(x.len(), |k: int| x[k].mul_spec(y[k]))
}

/// The dot product of `x` and `y`, summed from the first index up.
pub open spec fn dot_model<T: Add<Output = T> + Mul<Output = T>>(x: Seq<T>, y: Seq<T>) -> T {
    sum_seq(products(x, y))
}

/// Row `i` of a matrix given by its columns.
pub open spec fn row_of<T>(a: Seq<Seq<T>>, i: int) -> Seq<T> {
    Seq::new(a.len(), |k: int| a[k][i])
}

/// The product `a * b` of matrices given by their columns: entry `i` of column `j` is
/// row `i` of `a` dotted with column `j` of `b`. `a` must have at least one column.
pub open spec fn matmul_model<T: Add<Output = T> + Mul<Output = T>>(
    a: Seq<Seq<T>>,
    b: Seq<Seq<T>>,
) -> Seq<Seq<T>> {
    Seq::new(b.len(), |j: int| Seq::new(a[0].len(), |i: int| dot_model(row_of(a, i), b[j])))
}

/// Computing the dot product of `x` and `y` from the first index up meets every precondition
/// of `+` and `*`: either these have none, or they follow their specification and no step
/// leaves the range of `T`.
pub open spec fn dot_req<T: Add<Output = T> + Mul<Output = T>>(x: Seq<T>, y: Seq<T>) -> bool {
    ||| add_total::<T>() && mul_total::<T>()
    ||| {
        &&& T::obeys_add_spec()
        &&& T::obeys_mul_spec()
        &&& forall|k: int| 0 <= k < x.len() ==> #[trigger] x[k].mul_req(y[k])
        &&& forall|k: int|
            1 <= k < x.len() ==> #[trigger] sum_seq(products(x, y).take(k)).add_req(
                products(x, y)[k],
            )
    }
}

/// Every entry of the product `a * b` can be computed.
pub open spec fn matmul_req<T: Add<Output = T> + Mul<Output = T>>(
    a: Seq<Seq<T>>,
    b: Seq<Seq<T>>,
) -> bool {
    forall|j: int, i: int|
        0 <= j < b.len() && 0 <= i < a[0].len() ==> #[trigger] dot_req(row_of(a, i), b[j])
}

/// Extending a prefix by one term adds that term to its sum.
pub proof fn lemma_sum_take_step<T: Add<Output = T>>(s: Seq<T>, k: int)
    requires
        1 <= k < s.len(),
    ensures
        sum_seq(s.take(k + 1)) == sum_seq(s.take(k)).add_spec(s[k]),
{
    assert(s.take(k + 1).drop_last() =~= s.take(k));
}

/// Row `i` of `lhs` dotted with column `j` of `rhs`.
pub(crate) fn entry_product<
    T: Copy + Add<Output = T> + Mul<Output = T>,
    const M: usize,
    const N: usize,
    const O: usize,
>(lhs: &Matrix<T, N, M>, rhs: &Matrix<T, O, N>, i: usize, j: usize) -> (r: T)
    requires
        1 <= N,
        i < M,
        j < O,
        dot_req(row_of(lhs@, i as int), rhs@[j as int]),
    ensures
        T::obeys_add_spec() && T::obeys_mul_spec() ==> r == dot_model(
            row_of(lhs@, i as int),
            rhs@[j as int],
        ),
{
    let ghost x = row_of(lhs@, i as int);
    let ghost y = rhs@[j as int];
    let ghost p = products(x, y);
    assert(x[0] == lhs.data[0][i as int]);
    let mut acc = lhs.data[0][i] * rhs.data[j][0];
    proof {
        if T::obeys_add_spec() && T::obeys_mul_spec() {
            assert(p.take(1) =~= seq![p[0]]);
        }
    }
    let mut k: usize = 1;
    while k < N
        invariant
            1 <= k <= N,
            i < M,
            j < O,
            x == row_of(lhs@, i as int),
            y == rhs@[j as int],
            p == products(x, y),
            dot_req(x, y),
            T::obeys_add_spec() && T::obeys_mul_spec() ==> acc == sum_seq(p.take(k as int)),
        decreases N - k,
    {
        assert(x[k as int] == lhs.data[k as int][i as int]);
        let term = lhs.data[k][i] * rhs.data[j][k];
        proof {
            if add_total::<T>() && mul_total::<T>() {
                assert(acc.add_req(term));
            } else {
                assert(term == p[k as int]);
                assert(sum_seq(products(x, y).take(k as int)).add_req(products(x, y)[k as int]));
            }
        }
        acc = acc + term;
        proof {
            if T::obeys_add_spec() && T::obeys_mul_spec() {
                lemma_sum_take_step(p, k as int);
            }
        }
        k += 1;
    }
    assert(p.take(N as int) =~= p);
    acc
}

/// The matrix product: `lhs` has `N` columns and `M` rows, `rhs` has `O` columns and `N`
/// rows, and the result has `O` columns and `M` rows.
pub fn matmul<
    T: Copy + Mul<Output = T> + Add<Output = T>,
    const M: usize,
    const N: usize,
    const O: usize,
>(lhs: &Matrix<T, N, M>, rhs: &Matrix<T, O, N>) -> (r: Matrix<T, O, M>)
    requires
        1 <= N,
        matmul_req(lhs@, rhs@),
    ensures
        T::obeys_add_spec() && T::obeys_mul_spec() ==> r@ == matmul_model(lhs@, rhs@),
{
    let data: [[T; M]; O] = array_from_fn(
        |j: usize| -> (c: [T; M])
            requires
                j < O,
                1 <= N,
                matmul_req(lhs@, rhs@),
            ensures
                T::obeys_add_spec() && T::obeys_mul_spec() ==> c@ == matmul_model(lhs@, rhs@)[j as int]
            {
                let c: [T; M] = array_from_fn(
                    |i: usize| -> (x: T)
                        requires
                            i < M,
                            j < O,
                            1 <= N,
                            matmul_req(lhs@, rhs@),
                        ensures
                            T::obeys_add_spec() && T::obeys_mul_spec() ==> x == dot_model(
                                row_of(lhs@, i as int),
                                rhs@[j as int],
                            )
                        {
                            assert(lhs@[0].len() == M);
                            assert(dot_req(row_of(lhs@, i as int), rhs@[j as int]));
                            entry_product(lhs, rhs, i, j)
                        },
                );
                proof {
                    if T::obeys_add_spec() && T::obeys_mul_spec() {
                        assert(lhs@[0].len() == M);
                        assert(c@ =~= matmul_model(lhs@, rhs@)[j as int]);
                    }
                }
                c
            },
    );
    let r = Matrix { data };
    proof {
        if T::obeys_add_spec() && T::obeys_mul_spec() {
            assert(lhs@[0].len() == M);
            assert(r@ =~~= matmul_model(lhs@, rhs@));
        }
    }
    r
}

} // verus!
