//! The component type of the vectors and matrices, and what the contracts
//! assume of its arithmetic.
//!
//! The types of this crate are generic over their component type. Their
//! contracts speak of the specifications that `vstd` attaches to the operator
//! traits of the standard library: every function states its result for the
//! component types whose operations are [`exact`], and asks of the others
//! only that their operations are [`total`].
use core::cmp::Ordering;
use core::ops::Add;
use core::ops::Div;
use core::ops::Mul;
use core::ops::Neg;
use core::ops::Sub;
use vstd::prelude::*;
use vstd::std_specs::cmp::PartialEqSpec;
use vstd::std_specs::cmp::PartialOrdSpec;
use vstd::std_specs::convert::FromSpec;
use vstd::std_specs::ops::AddSpec;
use vstd::std_specs::ops::DivSpec;
use vstd::std_specs::ops::MulSpec;
use vstd::std_specs::ops::NegSpec;
use vstd::std_specs::ops::SubSpec;

verus! {

/// A component type: a copyable number with the four operations, negation,
/// comparison, and a conversion from `i8`, which supplies the constants.
pub trait Scalar: Copy + Add<Output = Self> + Sub<Output = Self> + Mul<Output = Self> + Div<
    Output = Self,
> + Neg<Output = Self> + PartialOrd + From<i8> {

}

impl<
    T: Copy + Add<Output = T> + Sub<Output = T> + Mul<Output = T> + Div<Output = T> + Neg<
        Output = T,
    > + PartialOrd + From<i8>,
> Scalar for T {

}

/// The conversion from `i8` to `T` returns what its specification says.
pub open spec fn converts<T: Scalar>() -> bool {
    <T as FromSpec<i8>>::obeys_from_spec()
}

/// The comparisons of `T` return what their specifications say.
pub open spec fn compares<T: Scalar>() -> bool {
    T::obeys_eq_spec() && T::obeys_partial_cmp_spec()
}

/// The operations of `T` return what their specifications say.
pub open spec fn exact<T: Scalar>() -> bool {
    &&& T::obeys_add_spec()
    &&& T::obeys_sub_spec()
    &&& T::obeys_mul_spec()
    &&& T::obeys_div_spec()
    &&& T::obeys_neg_spec()
    &&& compares::<T>()
    &&& converts::<T>()
}

/// The arithmetic of `T` accepts all operands.
pub open spec fn total<T: Scalar>() -> bool {
    &&& forall|x: T, y: T| #[trigger] x.add_req(y)
    &&& forall|x: T, y: T| #[trigger] x.sub_req(y)
    &&& forall|x: T, y: T| #[trigger] x.mul_req(y)
    &&& forall|x: T, y: T| #[trigger] x.div_req(y)
    &&& forall|x: T| #[trigger] x.neg_req()
}

/// The value of `T` that the small integer `n` converts to.
pub open spec fn num<T: Scalar>(n: int) -> T
    recommends
        i8::MIN <= n <= i8::MAX,
{
    T::from_spec(n as i8)
}

/// `a` is less than `b`.
pub open spec fn less<T: Scalar>(a: T, b: T) -> bool {
    a.partial_cmp_spec(&b) == Some(Ordering::Less)
}

/// `a` is greater than `b`.
pub open spec fn greater<T: Scalar>(a: T, b: T) -> bool {
    a.partial_cmp_spec(&b) == Some(Ordering::Greater)
}

/// The lesser of two numbers. Where neither is less than the other, it is
/// the first, unless the first is not equal to itself, as a NaN is: then it
/// is the second.
pub open spec fn min_spec<T: Scalar>(a: T, b: T) -> T {
    if less(a, b) {
        a
    } else if less(b, a) {
        b
    } else if !a.eq_spec(&a) {
        b
    } else {
        a
    }
}

/// The greater of two numbers. Where neither is less than the other, it is
/// the first, unless the first is not equal to itself, as a NaN is: then it
/// is the second.
pub open spec fn max_spec<T: Scalar>(a: T, b: T) -> T {
    if less(b, a) {
        a
    } else if less(a, b) {
        b
    } else if !a.eq_spec(&a) {
        b
    } else {
        a
    }
}

/// Returns the lesser of two numbers, and the other one where one of them
/// does not equal itself.
pub fn min<T: Scalar>(a: T, b: T) -> (r: T)
    ensures
        r == a || r == b,
        compares::<T>() ==> r == min_spec(a, b),
{
    if a < b {
        a
    } else if b < a {
        b
    } else if a != a {
        b
    } else {
        a
    }
}

/// Returns the greater of two numbers, and the other one where one of them
/// does not equal itself.
pub fn max<T: Scalar>(a: T, b: T) -> (r: T)
    ensures
        r == a || r == b,
        compares::<T>() ==> r == max_spec(a, b),
{
    if b < a {
        a
    } else if a < b {
        b
    } else if a != a {
        b
    } else {
        a
    }
}

/// The product of three numbers, taken from left to right.
pub open spec fn product3_spec<T: Scalar>(a: T, b: T, c: T) -> T {
    a.mul_spec(b).mul_spec(c)
}

/// Both multiplications of `product3_spec` accept their operands.
pub open spec fn product3_req<T: Scalar>(a: T, b: T, c: T) -> bool {
    a.mul_req(b) && a.mul_spec(b).mul_req(c)
}

/// Converts the integer `n` to a component.
pub fn constant<T: Scalar>(n: i8) -> (r: T)
    ensures
        converts::<T>() ==> r == num::<T>(n as int),
{
    T::from(n)
}

} // verus!
