use vstd::prelude::*;

verus! {

use core::ops::Add;
use core::ops::AddAssign;
use core::ops::Div;
use core::ops::DivAssign;
use core::ops::Mul;
use core::ops::MulAssign;
use vstd::std_specs::ops::AddSpec;
use vstd::std_specs::ops::AddSpecImpl;
use vstd::std_specs::ops::DivSpec;
use vstd::std_specs::ops::DivSpecImpl;
use vstd::std_specs::ops::MulSpec;
use vstd::std_specs::ops::MulSpecImpl;
use crate::matrix::Matrix;
use crate::matrix::from_view;
use crate::product::matmul;
use crate::product::matmul_model;
use crate::product::matmul_req;
use crate::scalar::array_from_fn;

/// Every entry of `a` with `s` added to it.
pub open spec fn add_scalar_model<T: Add<Output = T>>(a: Seq<Seq<T>>, s: T) -> Seq<Seq<T>> {
    Seq::new(a.len(), |j: int| Seq::new(a[j].len(), |i: int| a[j][i].add_spec(s)))
}

/// `s` can be added to every entry of `a`.
pub open spec fn add_scalar_req<T: Add<Output = T>>(a: Seq<Seq<T>>, s: T) -> bool {
    forall|j: int, i: int| 0 <= j < a.len() && 0 <= i < a[j].len() ==> #[trigger] a[j][i].add_req(s)
}

/// Every entry of `a` multiplied by `s`.
pub open spec fn mul_scalar_model<T: Mul<Output = T>>(a: Seq<Seq<T>>, s: T) -> Seq<Seq<T>> {
    Seq::new(a.len(), |j: int| Seq::new(a[j].len(), |i: int| a[j][i].mul_spec(s)))
}

/// Every entry of `a` can be multiplied by `s`.
pub open spec fn mul_scalar_req<T: Mul<Output = T>>(a: Seq<Seq<T>>, s: T) -> bool {
    forall|j: int, i: int| 0 <= j < a.len() && 0 <= i < a[j].len() ==> #[trigger] a[j][i].mul_req(s)
}

/// Every entry of `a` divided by `s`.
pub open spec fn div_scalar_model<T: Div<Output = T>>(a: Seq<Seq<T>>, s: T) -> Seq<Seq<T>> {
    Seq::new(a.len(), |j: int| Seq::new(a[j].len(), |i: int| a[j][i].div_spec(s)))
}

/// Every entry of `a` can be divided by `s`.
pub open spec fn div_scalar_req<T: Div<Output = T>>(a: Seq<Seq<T>>, s: T) -> bool {
    forall|j: int, i: int| 0 <= j < a.len() && 0 <= i < a[j].len() ==> #[trigger] a[j][i].div_req(s)
}

/// The entrywise sum of `a` and `b`.
pub open spec fn add_model<T: Add<Output = T>>(a: Seq<Seq<T>>, b: Seq<Seq<T>>) -> Seq<Seq<T>> {
    Seq::new(a.len(), |j: int| Seq::new(a[j].len(), |i: int| a[j][i].add_spec(b[j][i])))
}

/// Each entry of `a` can be added to the same entry of `b`.
pub open spec fn add_req_model<T: Add<Output = T>>(a: Seq<Seq<T>>, b: Seq<Seq<T>>) -> bool {
    forall|j: int, i: int|
        0 <= j < a.len() && 0 <= i < a[j].len() ==> #[trigger] a[j][i].add_req(b[j][i])
}

impl<T: Copy, const N: usize, const M: usize> Matrix<T, N, M> {
    /// The matrix of what `f` gives for each entry.
    fn map_entries<F: Fn(T) -> T>(&self, f: F) -> (r: Self)
        requires
            forall|j: int, i: int|
                0 <= j < N && 0 <= i < M ==> f.requires((#[trigger] self@[j][i],)),
        ensures
            forall|j: int, i: int|
                0 <= j < N && 0 <= i < M ==> f.ensures((self@[j][i],), #[trigger] r@[j][i]),
    {
        let data: [[T; M]; N] = array_from_fn(
            |j: usize| -> (c: [T; M])
                requires
                    j < N,
                    forall|jj: int, i: int|
                        0 <= jj < N && 0 <= i < M ==> f.requires((#[trigger] self@[jj][i],)),
                ensures
                    forall|i: int| 0 <= i < M ==> f.ensures((self@[j as int][i],), #[trigger] c@[i])
                {
                    array_from_fn(
                        |i: usize| -> (x: T)
                            requires
                                i < M,
                                j < N,
                                forall|jj: int, ii: int|
                                    0 <= jj < N && 0 <= ii < M ==> f.requires((#[trigger] self@[jj][ii],)),
                            ensures
                                f.ensures((self@[j as int][i as int],), x)
                            {
                                assert(f.requires((self@[j as int][i as int],)));
                                f(self.data[j][i])
                            },
                    )
                },
        );
        Matrix { data }
    }

    /// The matrix of what `f` gives for each pair of same-placed entries.
    fn zip_entries<F: Fn(T, T) -> T>(&self, other: &Self, f: F) -> (r: Self)
        requires
            forall|j: int, i: int|
                0 <= j < N && 0 <= i < M ==> f.requires((#[trigger] self@[j][i], other@[j][i])),
        ensures
            forall|j: int, i: int|
                0 <= j < N && 0 <= i < M ==> f.ensures((self@[j][i], other@[j][i]), #[trigger] r@[j][i]),
    {
        let data: [[T; M]; N] = array_from_fn(
            |j: usize| -> (c: [T; M])
                requires
                    j < N,
                    forall|jj: int, i: int|
                        0 <= jj < N && 0 <= i < M ==> f.requires((#[trigger] self@[jj][i], other@[jj][i])),
                ensures
                    forall|i: int|
                        0 <= i < M ==> f.ensures((self@[j as int][i], other@[j as int][i]), #[trigger] c@[i])
                {
                    array_from_fn(
                        |i: usize| -> (x: T)
                            requires
                                i < M,
                                j < N,
                                forall|jj: int, ii: int|
                                    0 <= jj < N && 0 <= ii < M ==> f.requires(
                                        (#[trigger] self@[jj][ii], other@[jj][ii]),
                                    ),
                            ensures
                                f.ensures((self@[j as int][i as int], other@[j as int][i as int]), x)
                            {
                                assert(f.requires((self@[j as int][i as int], other@[j as int][i as int])));
                                f(self.data[j][i], other.data[j][i])
                            },
                    )
                },
        );
        Matrix { data }
    }
}

impl<T: Copy + Add<Output = T>, const N: usize, const M: usize> Matrix<T, N, M> {
    fn add_each(&self, s: T) -> (r: Self)
        requires
            add_scalar_req(self@, s),
        ensures
            T::obeys_add_spec() ==> r@ == add_scalar_model(self@, s),
    {
        let r = self.map_entries(
            |x: T| -> (y: T)
                requires
                    x.add_req(s),
                ensures
                    T::obeys_add_spec() ==> y == x.add_spec(s)
                { x + s },
        );
        assert(T::obeys_add_spec() ==> r@ =~~= add_scalar_model(self@, s));
        r
    }

    fn add_entrywise(&self, other: &Self) -> (r: Self)
        requires
            add_req_model(self@, other@),
        ensures
            T::obeys_add_spec() ==> r@ == add_model(self@, other@),
    {
        let r = self.zip_entries(
            other,
            |x: T, y: T| -> (z: T)
                requires
                    x.add_req(y),
                ensures
                    T::obeys_add_spec() ==> z == x.add_spec(y)
                { x + y },
        );
        assert(T::obeys_add_spec() ==> r@ =~~= add_model(self@, other@));
        r
    }
}

impl<T: Copy + Mul<Output = T>, const N: usize, const M: usize> Matrix<T, N, M> {
    fn mul_each(&self, s: T) -> (r: Self)
        requires
            mul_scalar_req(self@, s),
        ensures
            T::obeys_mul_spec() ==> r@ == mul_scalar_model(self@, s),
    {
        let r = self.map_entries(
            |x: T| -> (y: T)
                requires
                    x.mul_req(s),
                ensures
                    T::obeys_mul_spec() ==> y == x.mul_spec(s)
                { x * s },
        );
        assert(T::obeys_mul_spec() ==> r@ =~~= mul_scalar_model(self@, s));
        r
    }
}

impl<T: Copy + Div<Output = T>, const N: usize, const M: usize> Matrix<T, N, M> {
    fn div_each(&self, s: T) -> (r: Self)
        requires
            div_scalar_req(self@, s),
        ensures
            T::obeys_div_spec() ==> r@ == div_scalar_model(self@, s),
    {
        let r = self.map_entries(
            |x: T| -> (y: T)
                requires
                    x.div_req(s),
                ensures
                    T::obeys_div_spec() ==> y == x.div_spec(s)
                { x / s },
        );
        assert(T::obeys_div_spec() ==> r@ =~~= div_scalar_model(self@, s));
        r
    }
}

impl<T: Copy + Add<Output = T>, const N: usize, const M: usize> AddSpecImpl<T> for Matrix<T, N, M> {
    open spec fn obeys_add_spec() -> bool {
        T::obeys_add_spec()
    }

    open spec fn add_req(self, rhs: T) -> bool {
        add_scalar_req(self@, rhs)
    }

    open spec fn add_spec(self, rhs: T) -> Self {
        from_view(add_scalar_model(self@, rhs))
    }
}

impl<T: Copy + Add<Output = T>, const N: usize, const M: usize> Add<T> for Matrix<T, N, M> {
    type Output = Self;

    /// Adds `rhs` to every entry.
    fn add(self, rhs: T) -> (r: Self) {
        let r = self.add_each(rhs);
        proof {
            r.lemma_from_view();
        }
        r
    }
}

impl<T: Copy + Add<Output = T>, const N: usize, const M: usize> AddAssign<T> for Matrix<T, N, M> {
    /// Adds `rhs` to every entry in place.
    fn add_assign(&mut self, rhs: T)
        requires
            add_scalar_req(old(self)@, rhs),
        ensures
            T::obeys_add_spec() ==> final(self)@ == add_scalar_model(old(self)@, rhs),
    {
        *self = self.add_each(rhs);
    }
}

impl<T: Copy + Mul<Output = T>, const N: usize, const M: usize> MulSpecImpl<T> for Matrix<T, N, M> {
    open spec fn obeys_mul_spec() -> bool {
        T::obeys_mul_spec()
    }

    open spec fn mul_req(self, rhs: T) -> bool {
        mul_scalar_req(self@, rhs)
    }

    open spec fn mul_spec(self, rhs: T) -> Self {
        from_view(mul_scalar_model(self@, rhs))
    }
}

impl<T: Copy + Mul<Output = T>, const N: usize, const M: usize> Mul<T> for Matrix<T, N, M> {
    type Output = Self;

    /// Multiplies every entry by `rhs`.
    fn mul(self, rhs: T) -> (r: Self) {
        let r = self.mul_each(rhs);
        proof {
            r.lemma_from_view();
        }
        r
    }
}

impl<T: Copy + Mul<Output = T>, const N: usize, const M: usize> MulAssign<T> for Matrix<T, N, M> {
    /// Multiplies every entry by `rhs` in place.
    fn mul_assign(&mut self, rhs: T)
        requires
            mul_scalar_req(old(self)@, rhs),
        ensures
            T::obeys_mul_spec() ==> final(self)@ == mul_scalar_model(old(self)@, rhs),
    {
        *self = self.mul_each(rhs);
    }
}

impl<T: Copy + Div<Output = T>, const N: usize, const M: usize> DivSpecImpl<T> for Matrix<T, N, M> {
    open spec fn obeys_div_spec() -> bool {
        T::obeys_div_spec()
    }

    open spec fn div_req(self, rhs: T) -> bool {
        div_scalar_req(self@, rhs)
    }

    open spec fn div_spec(self, rhs: T) -> Self {
        from_view(div_scalar_model(self@, rhs))
    }
}

impl<T: Copy + Div<Output = T>, const N: usize, const M: usize> Div<T> for Matrix<T, N, M> {
    type Output = Self;

    /// Divides every entry by `rhs`.
    fn div(self, rhs: T) -> (r: Self) {
        let r = self.div_each(rhs);
        proof {
            r.lemma_from_view();
        }
        r
    }
}

impl<T: Copy + Div<Output = T>, const N: usize, const M: usize> DivAssign<T> for Matrix<T, N, M> {
    /// Divides every entry by `rhs` in place.
    fn div_assign(&mut self, rhs: T)
        requires
            div_scalar_req(old(self)@, rhs),
        ensures
            T::obeys_div_spec() ==> final(self)@ == div_scalar_model(old(self)@, rhs),
    {
        *self = self.div_each(rhs);
    }
}

impl<T: Copy + Add<Output = T>, const N: usize, const M: usize> AddSpecImpl for Matrix<T, N, M> {
    open spec fn obeys_add_spec() -> bool {
        T::obeys_add_spec()
    }

    open spec fn add_req(self, rhs: Self) -> bool {
        add_req_model(self@, rhs@)
    }

    open spec fn add_spec(self, rhs: Self) -> Self {
        from_view(add_model(self@, rhs@))
    }
}

impl<T: Copy + Add<Output = T>, const N: usize, const M: usize> Add for Matrix<T, N, M> {
    type Output = Self;

    /// The entrywise sum.
    fn add(self, rhs: Self) -> (r: Self) {
        let r = self.add_entrywise(&rhs);
        proof {
            r.lemma_from_view();
        }
        r
    }
}

impl<T: Copy + Add<Output = T>, const N: usize, const M: usize> AddAssign for Matrix<T, N, M> {
    /// Adds `rhs` entrywise in place.
    fn add_assign(&mut self, rhs: Self)
        requires
            add_req_model(old(self)@, rhs@),
        ensures
            T::obeys_add_spec() ==> final(self)@ == add_model(old(self)@, rhs@),
    {
        *self = self.add_entrywise(&rhs);
    }
}

impl<
    T: Copy + Mul<Output = T> + Add<Output = T>,
    const M: usize,
    const N: usize,
    const O: usize,
> MulSpecImpl<Matrix<T, O, N>> for Matrix<T, N, M> {
    open spec fn obeys_mul_spec() -> bool {
        T::obeys_add_spec() && T::obeys_mul_spec()
    }

    open spec fn mul_req(self, rhs: Matrix<T, O, N>) -> bool {
        1 <= N && matmul_req(self@, rhs@)
    }

    open spec fn mul_spec(self, rhs: Matrix<T, O, N>) -> Matrix<T, O, M> {
        from_view(matmul_model(self@, rhs@))
    }
}

impl<
    T: Copy + Mul<Output = T> + Add<Output = T>,
    const M: usize,
    const N: usize,
    const O: usize,
> Mul<Matrix<T, O, N>> for Matrix<T, N, M> {
    type Output = Matrix<T, O, M>;

    /// The matrix product, as [`matmul`] computes it.
    fn mul(self, rhs: Matrix<T, O, N>) -> (r: Matrix<T, O, M>) {
        let r = matmul(&self, &rhs);
        proof {
            r.lemma_from_view();
        }
        r
    }
}

} // verus!
