use vstd::prelude::*;

verus! {

use core::ops::Add;
use core::ops::Mul;
use vstd::std_specs::cmp::PartialEqSpec;
use vstd::std_specs::cmp::PartialEqSpecImpl;
use vstd::std_specs::convert::FromSpecImpl;
use vstd::std_specs::convert::IntoSpec;
use vstd::std_specs::convert::TryIntoSpec;
use vstd::std_specs::ops::AddSpec;
use vstd::std_specs::ops::MulSpec;
use crate::scalar::array_from_fn;
use crate::scalar::is_zero;
use crate::scalar::one_of;
use crate::scalar::unit_pair;
use crate::scalar::zero_of;

/// Column-major matrix with `N` columns of `M` rows: `data[col][row]`.
#[derive(Copy, Clone, Hash, Debug)]
pub struct Matrix<T, const N: usize, const M: usize> {
    pub data: [[T; M]; N],
}

impl<T, const N: usize, const M: usize> View for Matrix<T, N, M> {
    type V = Seq<Seq<T>>;

    /// The sequence of columns, each the sequence of its entries from top to bottom.
    open spec fn view(&self) -> Seq<Seq<T>> {
        Seq::new(N as nat, |j: int| self.data[j]@)
    }
}

/// The transpose of a matrix of `rows` rows given by its columns: `r[j][i] == a[i][j]`.
pub open spec fn transpose_model<T>(a: Seq<Seq<T>>, rows: nat) -> Seq<Seq<T>> {
    Seq::new(rows, |j: int| Seq::new(a.len(), |i: int| a[i][j]))
}

/// The matrix of `cols` columns of `rows` entries, all `z`.
pub open spec fn constant_model<T>(z: T, cols: nat, rows: nat) -> Seq<Seq<T>> {
    Seq::new(cols, |j: int| Seq::new(rows, |i: int| z))
}

/// The `n` by `n` matrix with `o` on the diagonal and `z` elsewhere.
pub open spec fn identity_model<T>(z: T, o: T, n: nat) -> Seq<Seq<T>> {
    Seq::new(n, |j: int| Seq::new(n, |i: int| if i == j { o } else { z }))
}

/// `m` is an identity matrix of size `n` as `identity` builds it: the scalar type's one on
/// the diagonal and its zero elsewhere.
pub open spec fn is_identity<T: Add<Output = T> + Mul<Output = T>>(m: Seq<Seq<T>>, n: nat) -> bool {
    exists|z: T, o: T| unit_pair(z, o) && m == identity_model(z, o, n)
}

/// The matrix whose view is `v`.
pub open spec fn from_view<T, const N: usize, const M: usize>(v: Seq<Seq<T>>) -> Matrix<T, N, M> {
    choose|m: Matrix<T, N, M>| m@ == v
}

impl<T, const N: usize, const M: usize> Matrix<T, N, M> {
    /// A matrix is the one that its view describes.
    pub proof fn lemma_from_view(self)
        ensures
            from_view::<T, N, M>(self@) == self,
    {
        let c = from_view::<T, N, M>(self@);
        c.lemma_view_ext(self);
    }

    /// Two matrices with the same view are the same value.
    pub proof fn lemma_view_ext(self, other: Self)
        requires
            self@ == other@,
        ensures
            self == other,
    {
        assert forall|j: int| 0 <= j < N implies self.data[j] == other.data[j] by {
            assert(self@[j] == other@[j]);
            assert(self.data[j] =~= other.data[j]);
        }
        assert(self.data =~= other.data);
    }
}

impl<T: PartialEq, const N: usize, const M: usize> PartialEqSpecImpl for Matrix<T, N, M> {
    open spec fn obeys_eq_spec() -> bool {
        T::obeys_eq_spec()
    }

    open spec fn eq_spec(&self, other: &Self) -> bool {
        forall|j: int, i: int|
            0 <= j < N && 0 <= i < M ==> (#[trigger] self@[j][i]).eq_spec(&other@[j][i])
    }
}

impl<T: PartialEq, const N: usize, const M: usize> PartialEq for Matrix<T, N, M> {
    /// Entrywise comparison, by the scalar type's own `==`.
    fn eq(&self, other: &Self) -> (r: bool) {
        let mut j: usize = 0;
        while j < N
            invariant
                j <= N,
                T::obeys_eq_spec() ==> forall|jj: int, i: int|
                    0 <= jj < j && 0 <= i < M ==> (#[trigger] self@[jj][i]).eq_spec(&other@[jj][i]),
            decreases N - j,
        {
            let mut i: usize = 0;
            while i < M
                invariant
                    i <= M,
                    j < N,
                    T::obeys_eq_spec() ==> forall|jj: int, ii: int|
                        0 <= jj < j && 0 <= ii < M ==> (#[trigger] self@[jj][ii]).eq_spec(
                            &other@[jj][ii],
                        ),
                    T::obeys_eq_spec() ==> forall|ii: int|
                        0 <= ii < i ==> (#[trigger] self@[j as int][ii]).eq_spec(
                            &other@[j as int][ii],
                        ),
                decreases M - i,
            {
                if !self.data[j][i].eq(&other.data[j][i]) {
                    proof {
                        if T::obeys_eq_spec() {
                            assert(!(self@[j as int][i as int]).eq_spec(&other@[j as int][i as int]));
                        }
                    }
                    return false;
                }
                i += 1;
            }
            j += 1;
        }
        true
    }
}

impl<T: Eq, const N: usize, const M: usize> Eq for Matrix<T, N, M> {

}

impl<T, const N: usize, const M: usize> FromSpecImpl<[[T; M]; N]> for Matrix<T, N, M> {
    open spec fn obeys_from_spec() -> bool {
        true
    }

    open spec fn from_spec(data: [[T; M]; N]) -> Self {
        Matrix { data }
    }
}

impl<T, const N: usize, const M: usize> From<[[T; M]; N]> for Matrix<T, N, M> {
    /// Takes the columns as they are.
    fn from(data: [[T; M]; N]) -> (r: Self) {
        Matrix { data }
    }
}

impl<T, const N: usize> FromSpecImpl<[T; N]> for Matrix<T, 1, N> {
    open spec fn obeys_from_spec() -> bool {
        true
    }

    open spec fn from_spec(data: [T; N]) -> Self {
        Matrix { data: [data] }
    }
}

impl<T, const N: usize> From<[T; N]> for Matrix<T, 1, N> {
    /// A vector from its entries.
    fn from(data: [T; N]) -> (r: Self) {
        Matrix { data: [data] }
    }
}

impl<T, const N: usize, const M: usize> Matrix<T, N, M> {
    /// A matrix from its columns.
    pub fn const_from_array2(data: [[T; M]; N]) -> (r: Self)
        ensures
            r.data == data,
    {
        Matrix { data }
    }
}

impl<T, const N: usize> Matrix<T, 1, N> {
    /// A vector from its entries.
    pub fn const_from_array1(data: [T; N]) -> (r: Self)
        ensures
            r.data[0] == data,
            r@[0] == data@,
    {
        Matrix { data: [data] }
    }
}

impl<T: num_traits::Zero + Add<Output = T> + Copy, const N: usize, const M: usize> Matrix<T, N, M> {
    /// The matrix whose every entry is the scalar type's zero.
    pub fn zeros() -> (r: Self)
        ensures
            exists|z: T|
                #![trigger constant_model(z, N as nat, M as nat)]
                (T::obeys_add_spec() ==> is_zero(z)) && r@ == constant_model(z, N as nat, M as nat),
    {
        let z = zero_of::<T>();
        let col: [T; M] = [z; M];
        let r = Matrix { data: [col; N] };
        assert(forall|i: int| 0 <= i < M ==> #[trigger] col@[i] == z);
        assert(forall|j: int| 0 <= j < N ==> #[trigger] r.data@[j] == col);
        assert(r@ =~~= constant_model(z, N as nat, M as nat));
        assert((T::obeys_add_spec() ==> is_zero(z)) && r@ == constant_model(z, N as nat, M as nat));
        r
    }
}

impl<
    T: num_traits::One + num_traits::Zero + Add<Output = T> + Mul<Output = T> + Copy,
    const N: usize,
> Matrix<T, N, N> {
    /// The matrix with the scalar type's one on the diagonal and its zero elsewhere.
    pub fn identity() -> (r: Self)
        ensures
            is_identity(r@, N as nat),
    {
        let z = zero_of::<T>();
        let o = one_of::<T>();
        let col: [T; N] = [z; N];
        let mut data: [[T; N]; N] = [col; N];
        assert(forall|i: int| 0 <= i < N ==> #[trigger] col@[i] == z);
        assert(forall|j: int| 0 <= j < N ==> #[trigger] data@[j] == col);
        let mut k: usize = 0;
        while k < N
            invariant
                k <= N,
                forall|j: int, i: int|
                    0 <= j < N && 0 <= i < N ==> #[trigger] data[j][i] == if i == j && j < k {
                        o
                    } else {
                        z
                    },
            decreases N - k,
        {
            data[k][k] = o;
            k += 1;
        }
        let r = Matrix { data };
        assert(r@ =~~= identity_model(z, o, N as nat));
        assert(unit_pair(z, o));
        r
    }
}

impl<T: Copy, const N: usize, const M: usize> Matrix<T, N, M> {
    /// The `M` by `N` matrix whose column `j` is row `j` of this one.
    pub fn as_transpose(&self) -> (r: Matrix<T, M, N>)
        ensures
            r@ == transpose_model(self@, M as nat),
    {
        let data: [[T; N]; M] = array_from_fn(
            |j: usize| -> (c: [T; N])
                requires
                    j < M,
                ensures
                    c@ == transpose_model(self@, M as nat)[j as int]
                {
                    let c: [T; N] = array_from_fn(
                        |i: usize| -> (x: T)
                            requires
                                i < N,
                            ensures
                                x == self@[i as int][j as int]
                            { self.data[i][j] },
                    );
                    assert(c@ =~= transpose_model(self@, M as nat)[j as int]);
                    c
                },
        );
        let r = Matrix { data };
        assert(r@ =~~= transpose_model(self@, M as nat));
        r
    }
}

/// Each entry of `a` converted by `Into`.
pub open spec fn cast_model<T1: Into<T2>, T2>(a: Seq<Seq<T1>>) -> Seq<Seq<T2>> {
    Seq::new(a.len(), |j: int| Seq::new(a[j].len(), |i: int| <T1 as IntoSpec<T2>>::into_spec(a[j][i])))
}

/// Every entry of `a` converts by `TryInto` without error.
pub open spec fn try_cast_ok<T1: TryInto<T2>, T2>(a: Seq<Seq<T1>>) -> bool {
    forall|j: int, i: int|
        0 <= j < a.len() && 0 <= i < a[j].len() ==> (#[trigger] <T1 as TryIntoSpec<T2>>::try_into_spec(a[j][i])) is Ok
}

/// Each entry of `a` converted by `TryInto`, where that succeeds.
pub open spec fn try_cast_model<T1: TryInto<T2>, T2>(a: Seq<Seq<T1>>) -> Seq<Seq<T2>> {
    Seq::new(a.len(), |j: int| Seq::new(a[j].len(), |i: int| <T1 as TryIntoSpec<T2>>::try_into_spec(a[j][i])->Ok_0))
}

impl<T2, const N: usize, const M: usize> Matrix<T2, N, M> {
    /// Converts every entry by the lossless conversion `Into`.
    pub fn cast_from<T1: Copy + Into<T2>>(src: &Matrix<T1, N, M>) -> (r: Self)
        ensures
            T1::obeys_into_spec() ==> r@ == cast_model::<T1, T2>(src@),
    {
        let data: [[T2; M]; N] = array_from_fn(
            |j: usize| -> (c: [T2; M])
                requires
                    j < N,
                ensures
                    T1::obeys_into_spec() ==> c@ == cast_model::<T1, T2>(src@)[j as int]
                {
                    let c: [T2; M] = array_from_fn(
                        |i: usize| -> (x: T2)
                            requires
                                i < M,
                                j < N,
                            ensures
                                T1::obeys_into_spec() ==> x == <T1 as IntoSpec<T2>>::into_spec(src@[j as int][i as int])
                            { src.data[j][i].into() },
                    );
                    assert(T1::obeys_into_spec() ==> c@ =~= cast_model::<T1, T2>(src@)[j as int]);
                    c
                },
        );
        let r = Matrix { data };
        assert(T1::obeys_into_spec() ==> r@ =~~= cast_model::<T1, T2>(src@));
        r
    }

    /// Converts every entry by the fallible conversion `TryInto`; every entry must convert.
    pub fn try_cast_from_or_unwrap<T1: Copy + TryInto<T2, Error: core::fmt::Debug>>(
        src: &Matrix<T1, N, M>,
    ) -> (r: Self)
        requires
            T1::obeys_try_into_spec(),
            try_cast_ok::<T1, T2>(src@),
        ensures
            r@ == try_cast_model::<T1, T2>(src@),
    {
        let data: [[T2; M]; N] = array_from_fn(
            |j: usize| -> (c: [T2; M])
                requires
                    j < N,
                    T1::obeys_try_into_spec(),
                    try_cast_ok::<T1, T2>(src@),
                ensures
                    c@ == try_cast_model::<T1, T2>(src@)[j as int]
                {
                    let c: [T2; M] = array_from_fn(
                        |i: usize| -> (x: T2)
                            requires
                                i < M,
                                j < N,
                                T1::obeys_try_into_spec(),
                                try_cast_ok::<T1, T2>(src@),
                            ensures
                                x == <T1 as TryIntoSpec<T2>>::try_into_spec(src@[j as int][i as int])->Ok_0
                            {
                                assert(<T1 as TryIntoSpec<T2>>::try_into_spec(src@[j as int][i as int]) is Ok);
                                src.data[j][i].try_into().unwrap()
                            },
                    );
                    assert(c@ =~= try_cast_model::<T1, T2>(src@)[j as int]);
                    c
                },
        );
        let r = Matrix { data };
        assert(r@ =~~= try_cast_model::<T1, T2>(src@));
        r
    }
}

} // verus!
