use vstd::prelude::*;

verus! {

use core::ops::Add;
use core::ops::Mul;
use vstd::std_specs::ops::AddSpec;
use vstd::std_specs::ops::MulSpec;
use crate::matrix::Matrix;
use crate::matrix::transpose_model;
use crate::product::dot_model;
use crate::product::dot_req;
use crate::product::entry_product;
use crate::product::row_of;
use crate::scalar::sqrt_of;

/// A vector of `N` entries: a matrix with one column of `N` rows.
pub type Vector<T, const N: usize> = Matrix<T, 1, N>;

/// The dot product `v1[0] * v2[0] + v1[1] * v2[1] + ...`, summed from the first entry up.
pub fn dot<T: Copy + Mul<Output = T> + Add<Output = T>, const N: usize>(
    v1: &Vector<T, N>,
    v2: &Vector<T, N>,
) -> (r: T)
    requires
        1 <= N,
        dot_req(v1@[0], v2@[0]),
    ensures
        T::obeys_add_spec() && T::obeys_mul_spec() ==> r == dot_model(v1@[0], v2@[0]),
{
    let t: Matrix<T, N, 1> = v1.as_transpose();
    assert(row_of(t@, 0) =~= v1@[0]);
    assert(v2@[0].len() == N);
    entry_product(&t, v2, 0, 0)
}

impl<T: Copy + Mul<Output = T> + Add<Output = T> + num_traits::real::Real, const N: usize> Vector<
    T,
    N,
> {
    /// The Euclidean length: the square root of the vector dotted with itself.
    pub fn norm(&self) -> T
        requires
            1 <= N,
            dot_req(self@[0], self@[0]),
    {
        sqrt_of(dot(self, self))
    }
}

impl<T: Copy, const N: usize> Vector<T, N> {

    /// The first entry.
    pub fn x(&self) -> (r: T)
        requires
            0 < N,
        ensures
            r == self@[0][0],
    {
        self.data[0][0]
    }

    /// The second entry.
    pub fn y(&self) -> (r: T)
        requires
            1 < N,
        ensures
            r == self@[0][1],
    {
        self.data[0][1]
    }

    /// The third entry.
    pub fn z(&self) -> (r: T)
        requires
            2 < N,
        ensures
            r == self@[0][2],
    {
        self.data[0][2]
    }

    /// The fourth entry.
    pub fn w(&self) -> (r: T)
        requires
            3 < N,
        ensures
            r == self@[0][3],
    {
        self.data[0][3]
    }

    /// The first entry.
    pub fn r(&self) -> (r: T)
        requires
            0 < N,
        ensures
            r == self@[0][0],
    {
        self.data[0][0]
    }

    /// The second entry.
    pub fn g(&self) -> (r: T)
        requires
            1 < N,
        ensures
            r == self@[0][1],
    {
        self.data[0][1]
    }

    /// The third entry.
    pub fn b(&self) -> (r: T)
        requires
            2 < N,
        ensures
            r == self@[0][2],
    {
        self.data[0][2]
    }

    /// The fourth entry.
    pub fn a(&self) -> (r: T)
        requires
            3 < N,
        ensures
            r == self@[0][3],
    {
        self.data[0][3]
    }
}

impl<T, const N: usize> Vector<T, N> {

    /// A reference to the first entry.
    pub fn x_ref(&self) -> (r: &T)
        requires
            0 < N,
        ensures
            *r == self@[0][0],
    {
        &self.data[0][0]
    }

    /// A reference to the second entry.
    pub fn y_ref(&self) -> (r: &T)
        requires
            1 < N,
        ensures
            *r == self@[0][1],
    {
        &self.data[0][1]
    }

    /// A reference to the third entry.
    pub fn z_ref(&self) -> (r: &T)
        requires
            2 < N,
        ensures
            *r == self@[0][2],
    {
        &self.data[0][2]
    }

    /// A reference to the fourth entry.
    pub fn w_ref(&self) -> (r: &T)
        requires
            3 < N,
        ensures
            *r == self@[0][3],
    {
        &self.data[0][3]
    }

    /// A reference to the first entry.
    pub fn r_ref(&self) -> (r: &T)
        requires
            0 < N,
        ensures
            *r == self@[0][0],
    {
        &self.data[0][0]
    }

    /// A reference to the second entry.
    pub fn g_ref(&self) -> (r: &T)
        requires
            1 < N,
        ensures
            *r == self@[0][1],
    {
        &self.data[0][1]
    }

    /// A reference to the third entry.
    pub fn b_ref(&self) -> (r: &T)
        requires
            2 < N,
        ensures
            *r == self@[0][2],
    {
        &self.data[0][2]
    }

    /// A reference to the fourth entry.
    pub fn a_ref(&self) -> (r: &T)
        requires
            3 < N,
        ensures
            *r == self@[0][3],
    {
        &self.data[0][3]
    }

    /// A mutable reference to the first entry; the other entries stay as they are.
    pub fn x_mut(&mut self) -> (r: &mut T)
        requires
            0 < N,
        ensures
            *r == old(self)@[0][0],
            final(self)@ == old(self)@.update(0, old(self)@[0].update(0, *final(r))),
    {
        &mut self.data[0][0]
    }

    /// A mutable reference to the second entry; the other entries stay as they are.
    pub fn y_mut(&mut self) -> (r: &mut T)
        requires
            1 < N,
        ensures
            *r == old(self)@[0][1],
            final(self)@ == old(self)@.update(0, old(self)@[0].update(1, *final(r))),
    {
        &mut self.data[0][1]
    }

    /// A mutable reference to the third entry; the other entries stay as they are.
    pub fn z_mut(&mut self) -> (r: &mut T)
        requires
            2 < N,
        ensures
            *r == old(self)@[0][2],
            final(self)@ == old(self)@.update(0, old(self)@[0].update(2, *final(r))),
    {
        &mut self.data[0][2]
    }

    /// A mutable reference to the fourth entry; the other entries stay as they are.
    pub fn w_mut(&mut self) -> (r: &mut T)
        requires
            3 < N,
        ensures
            *r == old(self)@[0][3],
            final(self)@ == old(self)@.update(0, old(self)@[0].update(3, *final(r))),
    {
        &mut self.data[0][3]
    }

    /// A mutable reference to the first entry; the other entries stay as they are.
    pub fn r_mut(&mut self) -> (r: &mut T)
        requires
            0 < N,
        ensures
            *r == old(self)@[0][0],
            final(self)@ == old(self)@.update(0, old(self)@[0].update(0, *final(r))),
    {
        &mut self.data[0][0]
    }

    /// A mutable reference to the second entry; the other entries stay as they are.
    pub fn g_mut(&mut self) -> (r: &mut T)
        requires
            1 < N,
        ensures
            *r == old(self)@[0][1],
            final(self)@ == old(self)@.update(0, old(self)@[0].update(1, *final(r))),
    {
        &mut self.data[0][1]
    }

    /// A mutable reference to the third entry; the other entries stay as they are.
    pub fn b_mut(&mut self) -> (r: &mut T)
        requires
            2 < N,
        ensures
            *r == old(self)@[0][2],
            final(self)@ == old(self)@.update(0, old(self)@[0].update(2, *final(r))),
    {
        &mut self.data[0][2]
    }

    /// A mutable reference to the fourth entry; the other entries stay as they are.
    pub fn a_mut(&mut self) -> (r: &mut T)
        requires
            3 < N,
        ensures
            *r == old(self)@[0][3],
            final(self)@ == old(self)@.update(0, old(self)@[0].update(3, *final(r))),
    {
        &mut self.data[0][3]
    }

}

} // verus!
