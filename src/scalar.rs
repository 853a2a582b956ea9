use vstd::prelude::*;

verus! {

use core::ops::Add;
use core::ops::Div;
use core::ops::Mul;
use core::ops::Neg;
use core::ops::Sub;
use vstd::std_specs::ops::AddSpec;
use vstd::std_specs::ops::DivSpec;
use vstd::std_specs::ops::MulSpec;
use vstd::std_specs::ops::NegSpec;
use vstd::std_specs::ops::SubSpec;

/// `z` is an additive identity: adding it on either side changes nothing.
pub open spec fn is_zero<T: Add<Output = T>>(z: T) -> bool {
    &&& forall|a: T| #[trigger] a.add_spec(z) == a
    &&& forall|a: T| #[trigger] z.add_spec(a) == a
}

/// `o` is a multiplicative identity: multiplying by it on either side changes nothing.
pub open spec fn is_one<T: Mul<Output = T>>(o: T) -> bool {
    &&& forall|a: T| #[trigger] a.mul_spec(o) == a
    &&& forall|a: T| #[trigger] o.mul_spec(a) == a
}

/// What can be known of the pair that `Zero::zero` and `One::one` return:
/// each is an identity for its operator whenever that operator follows its specification.
pub open spec fn unit_pair<T: Add<Output = T> + Mul<Output = T>>(z: T, o: T) -> bool {
    &&& T::obeys_add_spec() ==> is_zero(z)
    &&& T::obeys_mul_spec() ==> is_one(o)
}

/// `ns` is what negating `s` gives, as far as negation on `T` is specified.
pub open spec fn negation_of<T: Neg<Output = T>>(s: T, ns: T) -> bool {
    T::obeys_neg_spec() ==> ns == s.neg_spec()
}

/// `+` on `T` may be applied to any pair of values (as for IEEE floats).
pub open spec fn add_total<T: Add<Output = T>>() -> bool {
    forall|a: T, b: T| #[trigger] a.add_req(b)
}

/// `*` on `T` may be applied to any pair of values.
pub open spec fn mul_total<T: Mul<Output = T>>() -> bool {
    forall|a: T, b: T| #[trigger] a.mul_req(b)
}

/// `-` on `T` may be applied to any pair of values.
pub open spec fn sub_total<T: Sub<Output = T>>() -> bool {
    forall|a: T, b: T| #[trigger] a.sub_req(b)
}

/// `/` on `T` may be applied to any pair of values.
pub open spec fn div_total<T: Div<Output = T>>() -> bool {
    forall|a: T, b: T| #[trigger] a.div_req(b)
}

/// Negation on `T` may be applied to any value.
pub open spec fn neg_total<T: Neg<Output = T>>() -> bool {
    forall|a: T| #[trigger] a.neg_req()
}

/// `+`, `-`, `*`, `/` and negation on `T` may be applied to any values (as for IEEE floats).
pub open spec fn field_ops_total<
    T: Add<Output = T> + Sub<Output = T> + Mul<Output = T> + Div<Output = T> + Neg<Output = T>,
>() -> bool {
    &&& add_total::<T>()
    &&& sub_total::<T>()
    &&& mul_total::<T>()
    &&& div_total::<T>()
    &&& neg_total::<T>()
}

/// `+`, `-`, `*`, `/` and negation on `T` all follow their specifications.
pub open spec fn field_ops_obey<
    T: Add<Output = T> + Sub<Output = T> + Mul<Output = T> + Div<Output = T> + Neg<Output = T>,
>() -> bool {
    &&& T::obeys_add_spec()
    &&& T::obeys_sub_spec()
    &&& T::obeys_mul_spec()
    &&& T::obeys_div_spec()
    &&& T::obeys_neg_spec()
}

/// The laws of a ring (without requiring a commutative product) that `+` and `*` obey
/// on `T`, with additive cancellation. Wrapping machine integers satisfy them.
#[verifier::opaque]
pub open spec fn ring_laws<T: Add<Output = T> + Mul<Output = T>>() -> bool {
    &&& T::obeys_add_spec()
    &&& T::obeys_mul_spec()
    &&& forall|a: T, b: T, c: T| #[trigger]
        a.add_spec(b).add_spec(c) == a.add_spec(b.add_spec(c))
    &&& forall|a: T, b: T| #[trigger] a.add_spec(b) == b.add_spec(a)
    &&& forall|a: T, b: T, c: T| #[trigger]
        a.mul_spec(b).mul_spec(c) == a.mul_spec(b.mul_spec(c))
    &&& forall|a: T, b: T, c: T| #[trigger]
        a.mul_spec(b.add_spec(c)) == a.mul_spec(b).add_spec(a.mul_spec(c))
    &&& forall|a: T, b: T, c: T| #[trigger]
        a.add_spec(b).mul_spec(c) == a.mul_spec(c).add_spec(b.mul_spec(c))
    &&& forall|a: T, b: T, c: T|
        #![trigger a.add_spec(b), a.add_spec(c)]
        a.add_spec(b) == a.add_spec(c) ==> b == c
}

pub proof fn lemma_ring_obeys<T: Add<Output = T> + Mul<Output = T>>()
    requires
        ring_laws::<T>(),
    ensures
        T::obeys_add_spec(),
        T::obeys_mul_spec(),
{
    reveal(ring_laws);
}

pub proof fn lemma_add_assoc<T: Add<Output = T> + Mul<Output = T>>(a: T, b: T, c: T)
    requires
        ring_laws::<T>(),
    ensures
        a.add_spec(b).add_spec(c) == a.add_spec(b.add_spec(c)),
{
    reveal(ring_laws);
}

pub proof fn lemma_add_comm<T: Add<Output = T> + Mul<Output = T>>(a: T, b: T)
    requires
        ring_laws::<T>(),
    ensures
        a.add_spec(b) == b.add_spec(a),
{
    reveal(ring_laws);
}

pub proof fn lemma_mul_assoc<T: Add<Output = T> + Mul<Output = T>>(a: T, b: T, c: T)
    requires
        ring_laws::<T>(),
    ensures
        a.mul_spec(b).mul_spec(c) == a.mul_spec(b.mul_spec(c)),
{
    reveal(ring_laws);
}

pub proof fn lemma_distrib_left<T: Add<Output = T> + Mul<Output = T>>(a: T, b: T, c: T)
    requires
        ring_laws::<T>(),
    ensures
        a.mul_spec(b.add_spec(c)) == a.mul_spec(b).add_spec(a.mul_spec(c)),
{
    reveal(ring_laws);
}

pub proof fn lemma_distrib_right<T: Add<Output = T> + Mul<Output = T>>(a: T, b: T, c: T)
    requires
        ring_laws::<T>(),
    ensures
        a.add_spec(b).mul_spec(c) == a.mul_spec(c).add_spec(b.mul_spec(c)),
{
    reveal(ring_laws);
}

pub proof fn lemma_add_cancel<T: Add<Output = T> + Mul<Output = T>>(a: T, b: T, c: T)
    requires
        ring_laws::<T>(),
        a.add_spec(b) == a.add_spec(c),
    ensures
        b == c,
{
    reveal(ring_laws);
}

/// Relies on num_traits::Zero::zero, whose documented law is `a + 0 = a = 0 + a`.
#[verifier::external_body]
pub(crate) fn zero_of<T: num_traits::Zero + Add<Output = T>>() -> (r: T)
    ensures
        T::obeys_add_spec() ==> is_zero(r),
{
    T::zero()
}

/// Relies on num_traits::One::one, whose documented law is `a * 1 = a = 1 * a`.
#[verifier::external_body]
pub(crate) fn one_of<T: num_traits::One + Mul<Output = T>>() -> (r: T)
    ensures
        T::obeys_mul_spec() ==> is_one(r),
{
    T::one()
}

/// Relies on num_traits::real::Real::cos (cosine of an angle in radians); nothing is promised
/// of the value.
#[verifier::external_body]
pub(crate) fn cos_of<T: num_traits::real::Real>(t: T) -> T {
    t.cos()
}

/// Relies on num_traits::real::Real::sin (sine of an angle in radians); nothing is promised
/// of the value.
#[verifier::external_body]
pub(crate) fn sin_of<T: num_traits::real::Real>(t: T) -> T {
    t.sin()
}

/// Relies on num_traits::real::Real::tan (tangent of an angle in radians); nothing is promised
/// of the value.
#[verifier::external_body]
pub(crate) fn tan_of<T: num_traits::real::Real>(t: T) -> T {
    t.tan()
}

/// Relies on num_traits::real::Real::sqrt; nothing is promised of the value.
#[verifier::external_body]
pub(crate) fn sqrt_of<T: num_traits::real::Real>(t: T) -> T {
    t.sqrt()
}

/// Relies on std::array::from_fn: entry `i` of the array is what `f` returns for `i`.
#[verifier::external_body]
pub(crate) fn array_from_fn<T, const N: usize, F: Fn(usize) -> T>(f: F) -> (r: [T; N])
    requires
        forall|i: usize| i < N ==> #[trigger] f.requires((i,)),
    ensures
        forall|i: int| 0 <= i < N ==> f.ensures((i as usize,), #[trigger] r@[i]),
{
    std::array::from_fn(f)
}

} // verus!
