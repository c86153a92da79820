//! Two-component vectors.
use crate::ring::commutative_mul;
use crate::ring::division_by_one;
use crate::ring::lemma_distributes_left;
use crate::ring::lemma_distributes_right;
use crate::ring::lemma_medial;
use crate::ring::lemma_min_max_symmetric;
use crate::ring::lemma_mul_associative;
use crate::ring::lemma_neg_add;
use crate::ring::lemma_neg_mul;
use crate::ring::ring_laws;
use crate::ring::ring_units;
use crate::ring::strict_total_order;
use crate::scalar::compares;
use crate::scalar::constant;
use crate::scalar::converts;
use crate::scalar::exact;
use crate::scalar::greater;
use crate::scalar::num;
use crate::scalar::Scalar;
use crate::scalar::total;
use crate::scalar;
use crate::vector3::Vector3;
use core::ops::Add;
use core::ops::AddAssign;
use core::ops::Div;
use core::ops::DivAssign;
use core::ops::Mul;
use core::ops::MulAssign;
use core::ops::Neg;
use core::ops::Sub;
use core::ops::SubAssign;
use vstd::prelude::*;
use vstd::std_specs::cmp::PartialEqSpec;
use vstd::std_specs::cmp::PartialOrdSpec;
use vstd::std_specs::convert::FromSpecImpl;
use vstd::std_specs::ops::AddSpec;
use vstd::std_specs::ops::DivSpec;
use vstd::std_specs::ops::MulSpec;
use vstd::std_specs::ops::NegSpec;
use vstd::std_specs::ops::SubSpec;

verus! {

/// A vector with the components `x` and `y`.
#[derive(Debug)]
pub struct Vector2<T> {
    pub x: T,
    pub y: T,
}

impl<T: Copy> Copy for Vector2<T> {

}

impl<T: Copy> Clone for Vector2<T> {
    fn clone(&self) -> (v: Vector2<T>)
        ensures
            v == *self,
    {
        *self
    }
}

impl<T> View for Vector2<T> {
    type V = Seq<T>;

    /// The components in index order.
    open spec fn view(&self) -> Seq<T> {
        seq![self.x, self.y]
    }
}

impl<T: Copy> Vector2<T> {
    /// Creates the vector with the given components.
    pub fn make(x: T, y: T) -> (v: Vector2<T>)
        ensures
            v == (Vector2 { x, y }),
    {
        Vector2 { x, y }
    }

    /// Overwrites all components.
    pub fn set(&mut self, x: T, y: T)
        ensures
            *final(self) == (Vector2 { x, y }),
    {
        self.x = x;
        self.y = y;
    }

    /// The component at `index`: `x` at 0, `y` at 1.
    pub fn index(&self, index: u32) -> (r: &T)
        requires
            index < 2,
        ensures
            *r == self@[index as int],
    {
        if index == 0 {
            &self.x
        } else {
            &self.y
        }
    }

    /// The component at `index`, for writing: what is stored through the
    /// result becomes that component, and the others stay.
    pub fn index_mut(&mut self, index: u32) -> (r: &mut T)
        requires
            index < 2,
        ensures
            *r == old(self)@[index as int],
            final(self)@ == old(self)@.update(index as int, *final(r)),
    {
        if index == 0 {
            &mut self.x
        } else {
            &mut self.y
        }
    }
}

impl<T: Scalar> Vector2<T> {
    /// Creates the vector `<0, 0>`.
    pub fn new() -> (v: Vector2<T>)
        ensures
            converts::<T>() ==> v == (Vector2 { x: num::<T>(0), y: num::<T>(0) }),
    {
        Vector2 { x: constant(0), y: constant(0) }
    }

    /// Creates the vector `<1, 1>`.
    pub fn one() -> (v: Vector2<T>)
        ensures
            converts::<T>() ==> v == (Vector2 { x: num::<T>(1), y: num::<T>(1) }),
    {
        Vector2 { x: constant(1), y: constant(1) }
    }

    /// The dot product: the sum of the products of the components.
    pub open spec fn dot_spec(a: Vector2<T>, b: Vector2<T>) -> T {
        a.x.mul_spec(b.x).add_spec(a.y.mul_spec(b.y))
    }

    /// The operations of `dot` accept their operands.
    pub open spec fn dot_req(a: Vector2<T>, b: Vector2<T>) -> bool {
        if exact::<T>() {
            &&& a.x.mul_req(b.x)
            &&& a.y.mul_req(b.y)
            &&& a.x.mul_spec(b.x).add_req(a.y.mul_spec(b.y))
        } else {
            total::<T>()
        }
    }

    /// Computes the dot product of `a` and `b`.
    pub fn dot(a: &Vector2<T>, b: &Vector2<T>) -> (r: T)
        requires
            Self::dot_req(*a, *b),
        ensures
            exact::<T>() ==> r == Self::dot_spec(*a, *b),
    {
        a.x * b.x + a.y * b.y
    }

    /// The dot product does not depend on the order of the two vectors,
    /// where the multiplication of the components does not depend on the order
    /// of its factors.
    pub proof fn lemma_dot_symmetric(a: Vector2<T>, b: Vector2<T>)
        requires
            commutative_mul::<T>(),
        ensures
            Self::dot_spec(a, b) == Self::dot_spec(b, a),
    {
    }

    /// Computes the square of the magnitude: the dot product of the vector
    /// with itself.
    pub fn mag_sq(&self) -> (r: T)
        requires
            Self::dot_req(*self, *self),
        ensures
            exact::<T>() ==> r == Self::dot_spec(*self, *self),
    {
        self.x * self.x + self.y * self.y
    }

    /// Scales the vector to magnitude one, given its magnitude `length`, and
    /// returns `length`. Where `length` is not greater than `epsilon`, the
    /// vector is too short to be scaled: it stays as it is, and the result is
    /// zero.
    pub fn norm_by_length(&mut self, length: T, epsilon: T) -> (r: T)
        requires
            old(self).div_req(length) || (compares::<T>() && !greater(length, epsilon)),
        ensures
            r == length || *final(self) == *old(self),
            compares::<T>() && greater(length, epsilon) ==> r == length && (T::obeys_div_spec()
                ==> *final(self) == old(self).div_spec(length)),
            compares::<T>() && !greater(length, epsilon) ==> *final(self) == *old(self) && (
            converts::<T>() ==> r == num::<T>(0)),
    {
        if length > epsilon {
            self.x = self.x / length;
            self.y = self.y / length;
            length
        } else {
            constant(0)
        }
    }

    /// A vector of magnitude one is scaled to itself, where dividing by one
    /// changes nothing.
    pub proof fn lemma_unit_length(v: Vector2<T>)
        requires
            division_by_one::<T>(),
        ensures
            v.div_spec(num::<T>(1)) == v,
    {
    }

    /// The vector of the lesser components of `a` and `b`.
    pub open spec fn min_spec(a: Vector2<T>, b: Vector2<T>) -> Vector2<T> {
        Vector2 { x: scalar::min_spec(a.x, b.x), y: scalar::min_spec(a.y, b.y) }
    }

    /// Takes the lesser of the two components, component by component.
    pub fn min(a: &Vector2<T>, b: &Vector2<T>) -> (r: Vector2<T>)
        ensures
            compares::<T>() ==> r == Self::min_spec(*a, *b),
    {
        Vector2::make(scalar::min(a.x, b.x), scalar::min(a.y, b.y))
    }

    /// The vector of the greater components of `a` and `b`.
    pub open spec fn max_spec(a: Vector2<T>, b: Vector2<T>) -> Vector2<T> {
        Vector2 { x: scalar::max_spec(a.x, b.x), y: scalar::max_spec(a.y, b.y) }
    }

    /// Takes the greater of the two components, component by component.
    pub fn max(a: &Vector2<T>, b: &Vector2<T>) -> (r: Vector2<T>)
        ensures
            compares::<T>() ==> r == Self::max_spec(*a, *b),
    {
        Vector2::make(scalar::max(a.x, b.x), scalar::max(a.y, b.y))
    }

    /// The vector `v` with every component brought between those of `a` and
    /// `b`: the greater of the lower bound and of the lesser of `v` and the
    /// upper bound. The lower bound is the lesser of `a` and `b`, the upper
    /// bound the greater, so that the two can be given in either order.
    pub open spec fn clamp_spec(v: Vector2<T>, a: Vector2<T>, b: Vector2<T>) -> Vector2<T> {
        Self::max_spec(Self::min_spec(a, b), Self::min_spec(v, Self::max_spec(a, b)))
    }

    /// Brings every component between those of `a` and `b`.
    pub fn clamp(&mut self, a: &Vector2<T>, b: &Vector2<T>)
        ensures
            compares::<T>() ==> *final(self) == Self::clamp_spec(*old(self), *a, *b),
    {
        let low = Self::min(a, b);
        let high = Self::max(a, b);
        let result = Self::max(&low, &Self::min(self, &high));
        self.set(result.x, result.y);
    }

    /// The two bounds of `clamp` can change places, where the components are
    /// in a strict total order.
    pub proof fn lemma_clamp_symmetric(v: Vector2<T>, a: Vector2<T>, b: Vector2<T>)
        requires
            strict_total_order::<T>(),
        ensures
            Self::clamp_spec(v, a, b) == Self::clamp_spec(v, b, a),
    {
        lemma_min_max_symmetric(a.x, b.x);
        lemma_min_max_symmetric(a.y, b.y);
    }

    /// The sum of the components, taken from the first to the last.
    pub open spec fn sum_spec(self) -> T {
        self.x.add_spec(self.y)
    }

    /// The dot product is the sum of the components of the product.
    pub proof fn lemma_dot_is_sum(a: Vector2<T>, b: Vector2<T>)
        ensures
            Self::dot_spec(a, b) == a.mul_spec(b).sum_spec(),
    {
    }

    /// The sum of two sums is the sum of the vector sum.
    pub proof fn lemma_sum_add(u: Vector2<T>, v: Vector2<T>)
        requires
            ring_laws::<T>(),
        ensures
            u.sum_spec().add_spec(v.sum_spec()) == u.add_spec(v).sum_spec(),
    {
        lemma_medial(u.x, u.y, v.x, v.y);
    }

    /// A sum times a number is the sum of the products.
    pub proof fn lemma_sum_times(u: Vector2<T>, c: T)
        requires
            ring_laws::<T>(),
        ensures
            u.sum_spec().mul_spec(c) == u.mul_spec(c).sum_spec(),
    {
        lemma_distributes_right(u.x, u.y, c);
    }

    /// A number can be taken out of the second vector of a dot product:
    /// `a . (x * k) == (a . x) * k`.
    pub proof fn lemma_dot_scaled(a: Vector2<T>, x: Vector2<T>, k: T)
        requires
            ring_laws::<T>(),
        ensures
            Self::dot_spec(a, x.mul_spec(k)) == Self::dot_spec(a, x).mul_spec(k),
    {
        lemma_mul_associative(a.x, x.x, k);
        lemma_mul_associative(a.y, x.y, k);
        Self::lemma_sum_times(a.mul_spec(x), k);
    }

    /// The dot product with a negated vector is the negated dot product.
    pub proof fn lemma_dot_neg(a: Vector2<T>, x: Vector2<T>)
        requires
            ring_laws::<T>(),
            ring_units::<T>(),
        ensures
            Self::dot_spec(a, x.neg_spec()) == Self::dot_spec(a, x).neg_spec(),
    {
        lemma_neg_mul(x.x, a.x);
        lemma_neg_mul(x.y, a.y);
        lemma_neg_add(a.x.mul_spec(x.x), a.y.mul_spec(x.y));
    }

    /// A number times a sum is the sum of the products.
    pub proof fn lemma_times_sum(c: T, u: Vector2<T>)
        requires
            ring_laws::<T>(),
        ensures
            c.mul_spec(u.sum_spec()) == (Vector2 {
                x: c.mul_spec(u.x),
                y: c.mul_spec(u.y),
            }).sum_spec(),
    {
        lemma_distributes_left(c, u.x, u.y);
    }

    /// The cross product of two plane vectors, a single number:
    /// `a.x * b.y - a.y * b.x`.
    pub open spec fn cross_spec(a: Vector2<T>, b: Vector2<T>) -> T {
        a.x.mul_spec(b.y).sub_spec(a.y.mul_spec(b.x))
    }

    /// The operations of `cross` accept their operands.
    pub open spec fn cross_req(a: Vector2<T>, b: Vector2<T>) -> bool {
        if exact::<T>() {
            &&& a.x.mul_req(b.y)
            &&& a.y.mul_req(b.x)
            &&& a.x.mul_spec(b.y).sub_req(a.y.mul_spec(b.x))
        } else {
            total::<T>()
        }
    }

    /// Computes the cross product of `a` and `b`.
    pub fn cross(a: &Vector2<T>, b: &Vector2<T>) -> (r: T)
        requires
            Self::cross_req(*a, *b),
        ensures
            exact::<T>() ==> r == Self::cross_spec(*a, *b),
    {
        a.x * b.y - a.y * b.x
    }

    /// The cross product of the number `s` with `v`: `<-s * v.y, s * v.x>`.
    pub open spec fn cross_scalar_vec_spec(s: T, v: Vector2<T>) -> Vector2<T> {
        Vector2 { x: s.neg_spec().mul_spec(v.y), y: s.mul_spec(v.x) }
    }

    /// The operations of `cross_scalar_vec` accept their operands.
    pub open spec fn cross_scalar_vec_req(s: T, v: Vector2<T>) -> bool {
        if exact::<T>() {
            &&& s.neg_req()
            &&& s.neg_spec().mul_req(v.y)
            &&& s.mul_req(v.x)
        } else {
            total::<T>()
        }
    }

    /// Computes the cross product of the number `s` with `v`.
    pub fn cross_scalar_vec(s: T, v: &Vector2<T>) -> (r: Vector2<T>)
        requires
            Self::cross_scalar_vec_req(s, *v),
        ensures
            exact::<T>() ==> r == Self::cross_scalar_vec_spec(s, *v),
    {
        Vector2 { x: s.neg() * v.y, y: s * v.x }
    }

    /// The cross product of `v` with the number `s`: `<s * v.y, -s * v.x>`.
    pub open spec fn cross_vec_scalar_spec(v: Vector2<T>, s: T) -> Vector2<T> {
        Vector2 { x: s.mul_spec(v.y), y: s.neg_spec().mul_spec(v.x) }
    }

    /// The operations of `cross_vec_scalar` accept their operands.
    pub open spec fn cross_vec_scalar_req(v: Vector2<T>, s: T) -> bool {
        if exact::<T>() {
            &&& s.mul_req(v.y)
            &&& s.neg_req()
            &&& s.neg_spec().mul_req(v.x)
        } else {
            total::<T>()
        }
    }

    /// Computes the cross product of `v` with the number `s`.
    pub fn cross_vec_scalar(v: &Vector2<T>, s: T) -> (r: Vector2<T>)
        requires
            Self::cross_vec_scalar_req(*v, s),
        ensures
            exact::<T>() ==> r == Self::cross_vec_scalar_spec(*v, s),
    {
        Vector2 { x: s * v.y, y: s.neg() * v.x }
    }

    /// Turns the vector by a quarter turn: `<x, y>` becomes `<-y, x>`.
    pub fn skew(&mut self)
        requires
            old(self).y.neg_req(),
        ensures
            final(self).y == old(self).x,
            T::obeys_neg_spec() ==> final(self).x == old(self).y.neg_spec(),
    {
        let x = self.x;
        self.x = self.y.neg();
        self.y = x;
    }
}

impl<T> From<Vector3<T>> for Vector2<T> {
    /// Drops the `z` component.
    fn from(item: Vector3<T>) -> (v: Vector2<T>) {
        Vector2 { x: item.x, y: item.y }
    }
}

impl<T> FromSpecImpl<Vector3<T>> for Vector2<T> {
    open spec fn obeys_from_spec() -> bool {
        true
    }

    open spec fn from_spec(item: Vector3<T>) -> Vector2<T> {
        Vector2 { x: item.x, y: item.y }
    }
}

impl<T: Scalar> Neg for Vector2<T> {
    type Output = Vector2<T>;

    /// Negates every component.
    fn neg(self) -> (v: Vector2<T>) {
        Vector2 { x: self.x.neg(), y: self.y.neg() }
    }
}

impl<T: Scalar> vstd::std_specs::ops::NegSpecImpl for Vector2<T> {
    open spec fn obeys_neg_spec() -> bool {
        T::obeys_neg_spec()
    }

    open spec fn neg_req(self) -> bool {
        self.x.neg_req() && self.y.neg_req()
    }

    open spec fn neg_spec(self) -> Vector2<T> {
        Vector2 { x: self.x.neg_spec(), y: self.y.neg_spec() }
    }
}

impl<T: Scalar> Add<T> for Vector2<T> {
    type Output = Vector2<T>;

    /// Adds `rhs` to every component.
    fn add(self, rhs: T) -> (v: Vector2<T>) {
        Vector2 { x: self.x + rhs, y: self.y + rhs }
    }
}

impl<T: Scalar> vstd::std_specs::ops::AddSpecImpl<T> for Vector2<T> {
    open spec fn obeys_add_spec() -> bool {
        T::obeys_add_spec()
    }

    open spec fn add_req(self, rhs: T) -> bool {
        self.x.add_req(rhs) && self.y.add_req(rhs)
    }

    open spec fn add_spec(self, rhs: T) -> Vector2<T> {
        Vector2 { x: self.x.add_spec(rhs), y: self.y.add_spec(rhs) }
    }
}

impl<T: Scalar> AddAssign<T> for Vector2<T> {
    /// Adds `rhs` to every component. The result replaces `self`.
    fn add_assign(&mut self, rhs: T)
        requires
            old(self).add_req(rhs),
        ensures
            T::obeys_add_spec() ==> *final(self) == old(self).add_spec(rhs),
    {
        self.x = self.x + rhs;
        self.y = self.y + rhs;
    }
}

impl<T: Scalar> Add<Vector2<T>> for Vector2<T> {
    type Output = Vector2<T>;

    /// Adds the vectors component by component.
    fn add(self, rhs: Vector2<T>) -> (v: Vector2<T>) {
        Vector2 { x: self.x + rhs.x, y: self.y + rhs.y }
    }
}

impl<T: Scalar> vstd::std_specs::ops::AddSpecImpl<Vector2<T>> for Vector2<T> {
    open spec fn obeys_add_spec() -> bool {
        T::obeys_add_spec()
    }

    open spec fn add_req(self, rhs: Vector2<T>) -> bool {
        self.x.add_req(rhs.x) && self.y.add_req(rhs.y)
    }

    open spec fn add_spec(self, rhs: Vector2<T>) -> Vector2<T> {
        Vector2 { x: self.x.add_spec(rhs.x), y: self.y.add_spec(rhs.y) }
    }
}

impl<T: Scalar> AddAssign<Vector2<T>> for Vector2<T> {
    /// Adds the vectors component by component. The result replaces `self`.
    fn add_assign(&mut self, rhs: Vector2<T>)
        requires
            old(self).add_req(rhs),
        ensures
            T::obeys_add_spec() ==> *final(self) == old(self).add_spec(rhs),
    {
        self.x = self.x + rhs.x;
        self.y = self.y + rhs.y;
    }
}

impl<T: Scalar> Sub<T> for Vector2<T> {
    type Output = Vector2<T>;

    /// Subtracts `rhs` from every component.
    fn sub(self, rhs: T) -> (v: Vector2<T>) {
        Vector2 { x: self.x - rhs, y: self.y - rhs }
    }
}

impl<T: Scalar> vstd::std_specs::ops::SubSpecImpl<T> for Vector2<T> {
    open spec fn obeys_sub_spec() -> bool {
        T::obeys_sub_spec()
    }

    open spec fn sub_req(self, rhs: T) -> bool {
        self.x.sub_req(rhs) && self.y.sub_req(rhs)
    }

    open spec fn sub_spec(self, rhs: T) -> Vector2<T> {
        Vector2 { x: self.x.sub_spec(rhs), y: self.y.sub_spec(rhs) }
    }
}

impl<T: Scalar> SubAssign<T> for Vector2<T> {
    /// Subtracts `rhs` from every component. The result replaces `self`.
    fn sub_assign(&mut self, rhs: T)
        requires
            old(self).sub_req(rhs),
        ensures
            T::obeys_sub_spec() ==> *final(self) == old(self).sub_spec(rhs),
    {
        self.x = self.x - rhs;
        self.y = self.y - rhs;
    }
}

impl<T: Scalar> Sub<Vector2<T>> for Vector2<T> {
    type Output = Vector2<T>;

    /// Subtracts `rhs` component by component.
    fn sub(self, rhs: Vector2<T>) -> (v: Vector2<T>) {
        Vector2 { x: self.x - rhs.x, y: self.y - rhs.y }
    }
}

impl<T: Scalar> vstd::std_specs::ops::SubSpecImpl<Vector2<T>> for Vector2<T> {
    open spec fn obeys_sub_spec() -> bool {
        T::obeys_sub_spec()
    }

    open spec fn sub_req(self, rhs: Vector2<T>) -> bool {
        self.x.sub_req(rhs.x) && self.y.sub_req(rhs.y)
    }

    open spec fn sub_spec(self, rhs: Vector2<T>) -> Vector2<T> {
        Vector2 { x: self.x.sub_spec(rhs.x), y: self.y.sub_spec(rhs.y) }
    }
}

impl<T: Scalar> SubAssign<Vector2<T>> for Vector2<T> {
    /// Subtracts `rhs` component by component. The result replaces `self`.
    fn sub_assign(&mut self, rhs: Vector2<T>)
        requires
            old(self).sub_req(rhs),
        ensures
            T::obeys_sub_spec() ==> *final(self) == old(self).sub_spec(rhs),
    {
        self.x = self.x - rhs.x;
        self.y = self.y - rhs.y;
    }
}

impl<T: Scalar> Mul<T> for Vector2<T> {
    type Output = Vector2<T>;

    /// Multiplies every component by `rhs`.
    fn mul(self, rhs: T) -> (v: Vector2<T>) {
        Vector2 { x: self.x * rhs, y: self.y * rhs }
    }
}

impl<T: Scalar> vstd::std_specs::ops::MulSpecImpl<T> for Vector2<T> {
    open spec fn obeys_mul_spec() -> bool {
        T::obeys_mul_spec()
    }

    open spec fn mul_req(self, rhs: T) -> bool {
        self.x.mul_req(rhs) && self.y.mul_req(rhs)
    }

    open spec fn mul_spec(self, rhs: T) -> Vector2<T> {
        Vector2 { x: self.x.mul_spec(rhs), y: self.y.mul_spec(rhs) }
    }
}

impl<T: Scalar> MulAssign<T> for Vector2<T> {
    /// Multiplies every component by `rhs`. The result replaces `self`.
    fn mul_assign(&mut self, rhs: T)
        requires
            old(self).mul_req(rhs),
        ensures
            T::obeys_mul_spec() ==> *final(self) == old(self).mul_spec(rhs),
    {
        self.x = self.x * rhs;
        self.y = self.y * rhs;
    }
}

impl<T: Scalar> Mul<Vector2<T>> for Vector2<T> {
    type Output = Vector2<T>;

    /// Multiplies the vectors component by component.
    fn mul(self, rhs: Vector2<T>) -> (v: Vector2<T>) {
        Vector2 { x: self.x * rhs.x, y: self.y * rhs.y }
    }
}

impl<T: Scalar> vstd::std_specs::ops::MulSpecImpl<Vector2<T>> for Vector2<T> {
    open spec fn obeys_mul_spec() -> bool {
        T::obeys_mul_spec()
    }

    open spec fn mul_req(self, rhs: Vector2<T>) -> bool {
        self.x.mul_req(rhs.x) && self.y.mul_req(rhs.y)
    }

    open spec fn mul_spec(self, rhs: Vector2<T>) -> Vector2<T> {
        Vector2 { x: self.x.mul_spec(rhs.x), y: self.y.mul_spec(rhs.y) }
    }
}

impl<T: Scalar> MulAssign<Vector2<T>> for Vector2<T> {
    /// Multiplies the vectors component by component. The result replaces `self`.
    fn mul_assign(&mut self, rhs: Vector2<T>)
        requires
            old(self).mul_req(rhs),
        ensures
            T::obeys_mul_spec() ==> *final(self) == old(self).mul_spec(rhs),
    {
        self.x = self.x * rhs.x;
        self.y = self.y * rhs.y;
    }
}

impl<T: Scalar> Div<T> for Vector2<T> {
    type Output = Vector2<T>;

    /// Divides every component by `rhs`.
    fn div(self, rhs: T) -> (v: Vector2<T>) {
        Vector2 { x: self.x / rhs, y: self.y / rhs }
    }
}

impl<T: Scalar> vstd::std_specs::ops::DivSpecImpl<T> for Vector2<T> {
    open spec fn obeys_div_spec() -> bool {
        T::obeys_div_spec()
    }

    open spec fn div_req(self, rhs: T) -> bool {
        self.x.div_req(rhs) && self.y.div_req(rhs)
    }

    open spec fn div_spec(self, rhs: T) -> Vector2<T> {
        Vector2 { x: self.x.div_spec(rhs), y: self.y.div_spec(rhs) }
    }
}

impl<T: Scalar> DivAssign<T> for Vector2<T> {
    /// Divides every component by `rhs`. The result replaces `self`.
    fn div_assign(&mut self, rhs: T)
        requires
            old(self).div_req(rhs),
        ensures
            T::obeys_div_spec() ==> *final(self) == old(self).div_spec(rhs),
    {
        self.x = self.x / rhs;
        self.y = self.y / rhs;
    }
}

impl<T: Scalar> Div<Vector2<T>> for Vector2<T> {
    type Output = Vector2<T>;

    /// Divides by `rhs` component by component.
    fn div(self, rhs: Vector2<T>) -> (v: Vector2<T>) {
        Vector2 { x: self.x / rhs.x, y: self.y / rhs.y }
    }
}

impl<T: Scalar> vstd::std_specs::ops::DivSpecImpl<Vector2<T>> for Vector2<T> {
    open spec fn obeys_div_spec() -> bool {
        T::obeys_div_spec()
    }

    open spec fn div_req(self, rhs: Vector2<T>) -> bool {
        self.x.div_req(rhs.x) && self.y.div_req(rhs.y)
    }

    open spec fn div_spec(self, rhs: Vector2<T>) -> Vector2<T> {
        Vector2 { x: self.x.div_spec(rhs.x), y: self.y.div_spec(rhs.y) }
    }
}

impl<T: Scalar> DivAssign<Vector2<T>> for Vector2<T> {
    /// Divides by `rhs` component by component. The result replaces `self`.
    fn div_assign(&mut self, rhs: Vector2<T>)
        requires
            old(self).div_req(rhs),
        ensures
            T::obeys_div_spec() ==> *final(self) == old(self).div_spec(rhs),
    {
        self.x = self.x / rhs.x;
        self.y = self.y / rhs.y;
    }
}

impl<T: Scalar> PartialEq for Vector2<T> {
    /// Compares the vectors component by component.
    fn eq(&self, rhs: &Vector2<T>) -> (r: bool) {
        self.x == rhs.x && self.y == rhs.y
    }
}

impl<T: Scalar> vstd::std_specs::cmp::PartialEqSpecImpl for Vector2<T> {
    open spec fn obeys_eq_spec() -> bool {
        T::obeys_eq_spec()
    }

    open spec fn eq_spec(&self, rhs: &Vector2<T>) -> bool {
        self.x.eq_spec(&rhs.x) && self.y.eq_spec(&rhs.y)
    }
}

} // verus!
