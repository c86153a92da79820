//! Four-component vectors.
use crate::ring::commutative_mul;
use crate::ring::division_by_one;
use crate::ring::lemma_distributes_left;
use crate::ring::lemma_distributes_right;
use crate::ring::lemma_medial;
use crate::ring::lemma_min_max_symmetric;
use crate::ring::lemma_mul_associative;
use crate::ring::lemma_neg_add;
use crate::ring::lemma_neg_mul;
use crate::ring::ring_laws;
use crate::ring::ring_units;
use crate::ring::strict_total_order;
use crate::scalar::compares;
use crate::scalar::constant;
use crate::scalar::converts;
use crate::scalar::exact;
use crate::scalar::greater;
use crate::scalar::num;
use crate::scalar::Scalar;
use crate::scalar::total;
use crate::scalar;
use crate::vector3::Vector3;
use core::ops::Add;
use core::ops::AddAssign;
use core::ops::Div;
use core::ops::DivAssign;
use core::ops::Mul;
use core::ops::MulAssign;
use core::ops::Neg;
use core::ops::Sub;
use core::ops::SubAssign;
use vstd::prelude::*;
use vstd::std_specs::cmp::PartialEqSpec;
use vstd::std_specs::cmp::PartialOrdSpec;
use vstd::std_specs::convert::FromSpecImpl;
use vstd::std_specs::ops::AddSpec;
use vstd::std_specs::ops::DivSpec;
use vstd::std_specs::ops::MulSpec;
use vstd::std_specs::ops::NegSpec;
use vstd::std_specs::ops::SubSpec;

verus! {

/// A vector with the components `x`, `y`, `z` and `w`.
#[derive(Debug)]
pub struct Vector4<T> {
    pub x: T,
    pub y: T,
    pub z: T,
    pub w: T,
}

impl<T: Copy> Copy for Vector4<T> {

}

impl<T: Copy> Clone for Vector4<T> {
    fn clone(&self) -> (v: Vector4<T>)
        ensures
            v == *self,
    {
        *self
    }
}

impl<T> View for Vector4<T> {
    type V = Seq<T>;

    /// The components in index order.
    open spec fn view(&self) -> Seq<T> {
        seq![self.x, self.y, self.z, self.w]
    }
}

impl<T: Copy> Vector4<T> {
    /// Creates the vector with the given components.
    pub fn make(x: T, y: T, z: T, w: T) -> (v: Vector4<T>)
        ensures
            v == (Vector4 { x, y, z, w }),
    {
        Vector4 { x, y, z, w }
    }

    /// Overwrites all components.
    pub fn set(&mut self, x: T, y: T, z: T, w: T)
        ensures
            *final(self) == (Vector4 { x, y, z, w }),
    {
        self.x = x;
        self.y = y;
        self.z = z;
        self.w = w;
    }

    /// The component at `index`: `x` at 0, `y` at 1, `z` at 2, `w` at 3.
    pub fn index(&self, index: u32) -> (r: &T)
        requires
            index < 4,
        ensures
            *r == self@[index as int],
    {
        if index == 0 {
            &self.x
        } else if index == 1 {
            &self.y
        } else if index == 2 {
            &self.z
        } else {
            &self.w
        }
    }

    /// The component at `index`, for writing: what is stored through the
    /// result becomes that component, and the others stay.
    pub fn index_mut(&mut self, index: u32) -> (r: &mut T)
        requires
            index < 4,
        ensures
            *r == old(self)@[index as int],
            final(self)@ == old(self)@.update(index as int, *final(r)),
    {
        if index == 0 {
            &mut self.x
        } else if index == 1 {
            &mut self.y
        } else if index == 2 {
            &mut self.z
        } else {
            &mut self.w
        }
    }
}

impl<T: Scalar> Vector4<T> {
    /// Creates the vector `<0, 0, 0, 0>`.
    pub fn new() -> (v: Vector4<T>)
        ensures
            converts::<T>() ==> v == (Vector4 {
                x: num::<T>(0),
                y: num::<T>(0),
                z: num::<T>(0),
                w: num::<T>(0),
            }),
    {
        Vector4 { x: constant(0), y: constant(0), z: constant(0), w: constant(0) }
    }

    /// The dot product: the sum of the products of the components.
    pub open spec fn dot_spec(a: Vector4<T>, b: Vector4<T>) -> T {
        a.x.mul_spec(b.x)
            .add_spec(a.y.mul_spec(b.y))
            .add_spec(a.z.mul_spec(b.z))
            .add_spec(a.w.mul_spec(b.w))
    }

    /// The operations of `dot` accept their operands.
    pub open spec fn dot_req(a: Vector4<T>, b: Vector4<T>) -> bool {
        if exact::<T>() {
            &&& a.x.mul_req(b.x)
            &&& a.y.mul_req(b.y)
            &&& a.z.mul_req(b.z)
            &&& a.w.mul_req(b.w)
            &&& a.x.mul_spec(b.x).add_req(a.y.mul_spec(b.y))
            &&& a.x.mul_spec(b.x).add_spec(a.y.mul_spec(b.y)).add_req(a.z.mul_spec(b.z))
            &&& a.x.mul_spec(b.x)
                .add_spec(a.y.mul_spec(b.y))
                .add_spec(a.z.mul_spec(b.z))
                .add_req(a.w.mul_spec(b.w))
        } else {
            total::<T>()
        }
    }

    /// Computes the dot product of `a` and `b`.
    pub fn dot(a: &Vector4<T>, b: &Vector4<T>) -> (r: T)
        requires
            Self::dot_req(*a, *b),
        ensures
            exact::<T>() ==> r == Self::dot_spec(*a, *b),
    {
        a.x * b.x + a.y * b.y + a.z * b.z + a.w * b.w
    }

    /// The dot product does not depend on the order of the two vectors,
    /// where the multiplication of the components does not depend on the order
    /// of its factors.
    pub proof fn lemma_dot_symmetric(a: Vector4<T>, b: Vector4<T>)
        requires
            commutative_mul::<T>(),
        ensures
            Self::dot_spec(a, b) == Self::dot_spec(b, a),
    {
    }

    /// Computes the square of the magnitude: the dot product of the vector
    /// with itself.
    pub fn mag_sq(&self) -> (r: T)
        requires
            Self::dot_req(*self, *self),
        ensures
            exact::<T>() ==> r == Self::dot_spec(*self, *self),
    {
        self.x * self.x + self.y * self.y + self.z * self.z + self.w * self.w
    }

    /// Scales the vector to magnitude one, given its magnitude `length`, and
    /// returns `length`. Where `length` is not greater than `epsilon`, the
    /// vector is too short to be scaled: it stays as it is, and the result is
    /// zero.
    pub fn norm_by_length(&mut self, length: T, epsilon: T) -> (r: T)
        requires
            old(self).div_req(length) || (compares::<T>() && !greater(length, epsilon)),
        ensures
            r == length || *final(self) == *old(self),
            compares::<T>() && greater(length, epsilon) ==> r == length && (T::obeys_div_spec()
                ==> *final(self) == old(self).div_spec(length)),
            compares::<T>() && !greater(length, epsilon) ==> *final(self) == *old(self) && (
            converts::<T>() ==> r == num::<T>(0)),
    {
        if length > epsilon {
            self.x = self.x / length;
            self.y = self.y / length;
            self.z = self.z / length;
            self.w = self.w / length;
            length
        } else {
            constant(0)
        }
    }

    /// A vector of magnitude one is scaled to itself, where dividing by one
    /// changes nothing.
    pub proof fn lemma_unit_length(v: Vector4<T>)
        requires
            division_by_one::<T>(),
        ensures
            v.div_spec(num::<T>(1)) == v,
    {
    }

    /// The vector of the lesser components of `a` and `b`.
    pub open spec fn min_spec(a: Vector4<T>, b: Vector4<T>) -> Vector4<T> {
        Vector4 {
            x: scalar::min_spec(a.x, b.x),
            y: scalar::min_spec(a.y, b.y),
            z: scalar::min_spec(a.z, b.z),
            w: scalar::min_spec(a.w, b.w),
        }
    }

    /// Takes the lesser of the two components, component by component.
    pub fn min(a: &Vector4<T>, b: &Vector4<T>) -> (r: Vector4<T>)
        ensures
            compares::<T>() ==> r == Self::min_spec(*a, *b),
    {
        Vector4::make(
            scalar::min(a.x, b.x),
            scalar::min(a.y, b.y),
            scalar::min(a.z, b.z),
            scalar::min(a.w, b.w),
        )
    }

    /// The vector of the greater components of `a` and `b`.
    pub open spec fn max_spec(a: Vector4<T>, b: Vector4<T>) -> Vector4<T> {
        Vector4 {
            x: scalar::max_spec(a.x, b.x),
            y: scalar::max_spec(a.y, b.y),
            z: scalar::max_spec(a.z, b.z),
            w: scalar::max_spec(a.w, b.w),
        }
    }

    /// Takes the greater of the two components, component by component.
    pub fn max(a: &Vector4<T>, b: &Vector4<T>) -> (r: Vector4<T>)
        ensures
            compares::<T>() ==> r == Self::max_spec(*a, *b),
    {
        Vector4::make(
            scalar::max(a.x, b.x),
            scalar::max(a.y, b.y),
            scalar::max(a.z, b.z),
            scalar::max(a.w, b.w),
        )
    }

    /// The vector `v` with every component brought between those of `a` and
    /// `b`: the greater of the lower bound and of the lesser of `v` and the
    /// upper bound. The lower bound is the lesser of `a` and `b`, the upper
    /// bound the greater, so that the two can be given in either order.
    pub open spec fn clamp_spec(v: Vector4<T>, a: Vector4<T>, b: Vector4<T>) -> Vector4<T> {
        Self::max_spec(Self::min_spec(a, b), Self::min_spec(v, Self::max_spec(a, b)))
    }

    /// Brings every component between those of `a` and `b`.
    pub fn clamp(&mut self, a: &Vector4<T>, b: &Vector4<T>)
        ensures
            compares::<T>() ==> *final(self) == Self::clamp_spec(*old(self), *a, *b),
    {
        let low = Self::min(a, b);
        let high = Self::max(a, b);
        let result = Self::max(&low, &Self::min(self, &high));
        self.set(result.x, result.y, result.z, result.w);
    }

    /// The two bounds of `clamp` can change places, where the components are
    /// in a strict total order.
    pub proof fn lemma_clamp_symmetric(v: Vector4<T>, a: Vector4<T>, b: Vector4<T>)
        requires
            strict_total_order::<T>(),
        ensures
            Self::clamp_spec(v, a, b) == Self::clamp_spec(v, b, a),
    {
        lemma_min_max_symmetric(a.x, b.x);
        lemma_min_max_symmetric(a.y, b.y);
        lemma_min_max_symmetric(a.z, b.z);
        lemma_min_max_symmetric(a.w, b.w);
    }

    /// The sum of the components, taken from the first to the last.
    pub open spec fn sum_spec(self) -> T {
        self.x.add_spec(self.y).add_spec(self.z).add_spec(self.w)
    }

    /// The dot product is the sum of the components of the product.
    pub proof fn lemma_dot_is_sum(a: Vector4<T>, b: Vector4<T>)
        ensures
            Self::dot_spec(a, b) == a.mul_spec(b).sum_spec(),
    {
    }

    /// The sum of two sums is the sum of the vector sum.
    pub proof fn lemma_sum_add(u: Vector4<T>, v: Vector4<T>)
        requires
            ring_laws::<T>(),
        ensures
            u.sum_spec().add_spec(v.sum_spec()) == u.add_spec(v).sum_spec(),
    {
        lemma_medial(u.x.add_spec(u.y).add_spec(u.z), u.w, v.x.add_spec(v.y).add_spec(v.z), v.w);
        lemma_medial(u.x.add_spec(u.y), u.z, v.x.add_spec(v.y), v.z);
        lemma_medial(u.x, u.y, v.x, v.y);
    }

    /// A sum times a number is the sum of the products.
    pub proof fn lemma_sum_times(u: Vector4<T>, c: T)
        requires
            ring_laws::<T>(),
        ensures
            u.sum_spec().mul_spec(c) == u.mul_spec(c).sum_spec(),
    {
        lemma_distributes_right(u.x.add_spec(u.y).add_spec(u.z), u.w, c);
        lemma_distributes_right(u.x.add_spec(u.y), u.z, c);
        lemma_distributes_right(u.x, u.y, c);
    }

    /// A number can be taken out of the second vector of a dot product:
    /// `a . (x * k) == (a . x) * k`.
    pub proof fn lemma_dot_scaled(a: Vector4<T>, x: Vector4<T>, k: T)
        requires
            ring_laws::<T>(),
        ensures
            Self::dot_spec(a, x.mul_spec(k)) == Self::dot_spec(a, x).mul_spec(k),
    {
        lemma_mul_associative(a.x, x.x, k);
        lemma_mul_associative(a.y, x.y, k);
        lemma_mul_associative(a.z, x.z, k);
        lemma_mul_associative(a.w, x.w, k);
        Self::lemma_sum_times(a.mul_spec(x), k);
    }

    /// The dot product with a negated vector is the negated dot product.
    pub proof fn lemma_dot_neg(a: Vector4<T>, x: Vector4<T>)
        requires
            ring_laws::<T>(),
            ring_units::<T>(),
        ensures
            Self::dot_spec(a, x.neg_spec()) == Self::dot_spec(a, x).neg_spec(),
    {
        lemma_neg_mul(x.x, a.x);
        lemma_neg_mul(x.y, a.y);
        lemma_neg_mul(x.z, a.z);
        lemma_neg_mul(x.w, a.w);
        lemma_neg_add(a.x.mul_spec(x.x), a.y.mul_spec(x.y));
        lemma_neg_add(a.x.mul_spec(x.x).add_spec(a.y.mul_spec(x.y)), a.z.mul_spec(x.z));
        lemma_neg_add(
            a.x.mul_spec(x.x).add_spec(a.y.mul_spec(x.y)).add_spec(a.z.mul_spec(x.z)),
            a.w.mul_spec(x.w),
        );
    }

    /// A number times a sum is the sum of the products.
    pub proof fn lemma_times_sum(c: T, u: Vector4<T>)
        requires
            ring_laws::<T>(),
        ensures
            c.mul_spec(u.sum_spec()) == (Vector4 {
                x: c.mul_spec(u.x),
                y: c.mul_spec(u.y),
                z: c.mul_spec(u.z),
                w: c.mul_spec(u.w),
            }).sum_spec(),
    {
        lemma_distributes_left(c, u.x.add_spec(u.y).add_spec(u.z), u.w);
        lemma_distributes_left(c, u.x.add_spec(u.y), u.z);
        lemma_distributes_left(c, u.x, u.y);
    }
}

impl<T: Scalar> From<Vector3<T>> for Vector4<T> {
    /// Appends a `w` component of zero.
    fn from(item: Vector3<T>) -> (v: Vector4<T>) {
        Vector4 { x: item.x, y: item.y, z: item.z, w: constant(0) }
    }
}

impl<T: Scalar> FromSpecImpl<Vector3<T>> for Vector4<T> {
    open spec fn obeys_from_spec() -> bool {
        converts::<T>()
    }

    open spec fn from_spec(item: Vector3<T>) -> Vector4<T> {
        Vector4 { x: item.x, y: item.y, z: item.z, w: num::<T>(0) }
    }
}

impl<T: Scalar> Neg for Vector4<T> {
    type Output = Vector4<T>;

    /// Negates every component.
    fn neg(self) -> (v: Vector4<T>) {
        Vector4 { x: self.x.neg(), y: self.y.neg(), z: self.z.neg(), w: self.w.neg() }
    }
}

impl<T: Scalar> vstd::std_specs::ops::NegSpecImpl for Vector4<T> {
    open spec fn obeys_neg_spec() -> bool {
        T::obeys_neg_spec()
    }

    open spec fn neg_req(self) -> bool {
        self.x.neg_req() && self.y.neg_req() && self.z.neg_req() && self.w.neg_req()
    }

    open spec fn neg_spec(self) -> Vector4<T> {
        Vector4 {
            x: self.x.neg_spec(),
            y: self.y.neg_spec(),
            z: self.z.neg_spec(),
            w: self.w.neg_spec(),
        }
    }
}

impl<T: Scalar> Add<T> for Vector4<T> {
    type Output = Vector4<T>;

    /// Adds `rhs` to every component.
    fn add(self, rhs: T) -> (v: Vector4<T>) {
        Vector4 { x: self.x + rhs, y: self.y + rhs, z: self.z + rhs, w: self.w + rhs }
    }
}

impl<T: Scalar> vstd::std_specs::ops::AddSpecImpl<T> for Vector4<T> {
    open spec fn obeys_add_spec() -> bool {
        T::obeys_add_spec()
    }

    open spec fn add_req(self, rhs: T) -> bool {
        self.x.add_req(rhs) && self.y.add_req(rhs) && self.z.add_req(rhs) && self.w.add_req(rhs)
    }

    open spec fn add_spec(self, rhs: T) -> Vector4<T> {
        Vector4 {
            x: self.x.add_spec(rhs),
            y: self.y.add_spec(rhs),
            z: self.z.add_spec(rhs),
            w: self.w.add_spec(rhs),
        }
    }
}

impl<T: Scalar> AddAssign<T> for Vector4<T> {
    /// Adds `rhs` to every component. The result replaces `self`.
    fn add_assign(&mut self, rhs: T)
        requires
            old(self).add_req(rhs),
        ensures
            T::obeys_add_spec() ==> *final(self) == old(self).add_spec(rhs),
    {
        self.x = self.x + rhs;
        self.y = self.y + rhs;
        self.z = self.z + rhs;
        self.w = self.w + rhs;
    }
}

impl<T: Scalar> Add<Vector4<T>> for Vector4<T> {
    type Output = Vector4<T>;

    /// Adds the vectors component by component.
    fn add(self, rhs: Vector4<T>) -> (v: Vector4<T>) {
        Vector4 {
            x: self.x + rhs.x,
            y: self.y + rhs.y,
            z: self.z + rhs.z,
            w: self.w + rhs.w,
        }
    }
}

impl<T: Scalar> vstd::std_specs::ops::AddSpecImpl<Vector4<T>> for Vector4<T> {
    open spec fn obeys_add_spec() -> bool {
        T::obeys_add_spec()
    }

    open spec fn add_req(self, rhs: Vector4<T>) -> bool {
        &&& self.x.add_req(rhs.x)
        &&& self.y.add_req(rhs.y)
        &&& self.z.add_req(rhs.z)
        &&& self.w.add_req(rhs.w)
    }

    open spec fn add_spec(self, rhs: Vector4<T>) -> Vector4<T> {
        Vector4 {
            x: self.x.add_spec(rhs.x),
            y: self.y.add_spec(rhs.y),
            z: self.z.add_spec(rhs.z),
            w: self.w.add_spec(rhs.w),
        }
    }
}

impl<T: Scalar> AddAssign<Vector4<T>> for Vector4<T> {
    /// Adds the vectors component by component. The result replaces `self`.
    fn add_assign(&mut self, rhs: Vector4<T>)
        requires
            old(self).add_req(rhs),
        ensures
            T::obeys_add_spec() ==> *final(self) == old(self).add_spec(rhs),
    {
        self.x = self.x + rhs.x;
        self.y = self.y + rhs.y;
        self.z = self.z + rhs.z;
        self.w = self.w + rhs.w;
    }
}

impl<T: Scalar> Sub<T> for Vector4<T> {
    type Output = Vector4<T>;

    /// Subtracts `rhs` from every component.
    fn sub(self, rhs: T) -> (v: Vector4<T>) {
        Vector4 { x: self.x - rhs, y: self.y - rhs, z: self.z - rhs, w: self.w - rhs }
    }
}

impl<T: Scalar> vstd::std_specs::ops::SubSpecImpl<T> for Vector4<T> {
    open spec fn obeys_sub_spec() -> bool {
        T::obeys_sub_spec()
    }

    open spec fn sub_req(self, rhs: T) -> bool {
        self.x.sub_req(rhs) && self.y.sub_req(rhs) && self.z.sub_req(rhs) && self.w.sub_req(rhs)
    }

    open spec fn sub_spec(self, rhs: T) -> Vector4<T> {
        Vector4 {
            x: self.x.sub_spec(rhs),
            y: self.y.sub_spec(rhs),
            z: self.z.sub_spec(rhs),
            w: self.w.sub_spec(rhs),
        }
    }
}

impl<T: Scalar> SubAssign<T> for Vector4<T> {
    /// Subtracts `rhs` from every component. The result replaces `self`.
    fn sub_assign(&mut self, rhs: T)
        requires
            old(self).sub_req(rhs),
        ensures
            T::obeys_sub_spec() ==> *final(self) == old(self).sub_spec(rhs),
    {
        self.x = self.x - rhs;
        self.y = self.y - rhs;
        self.z = self.z - rhs;
        self.w = self.w - rhs;
    }
}

impl<T: Scalar> Sub<Vector4<T>> for Vector4<T> {
    type Output = Vector4<T>;

    /// Subtracts `rhs` component by component.
    fn sub(self, rhs: Vector4<T>) -> (v: Vector4<T>) {
        Vector4 {
            x: self.x - rhs.x,
            y: self.y - rhs.y,
            z: self.z - rhs.z,
            w: self.w - rhs.w,
        }
    }
}

impl<T: Scalar> vstd::std_specs::ops::SubSpecImpl<Vector4<T>> for Vector4<T> {
    open spec fn obeys_sub_spec() -> bool {
        T::obeys_sub_spec()
    }

    open spec fn sub_req(self, rhs: Vector4<T>) -> bool {
        &&& self.x.sub_req(rhs.x)
        &&& self.y.sub_req(rhs.y)
        &&& self.z.sub_req(rhs.z)
        &&& self.w.sub_req(rhs.w)
    }

    open spec fn sub_spec(self, rhs: Vector4<T>) -> Vector4<T> {
        Vector4 {
            x: self.x.sub_spec(rhs.x),
            y: self.y.sub_spec(rhs.y),
            z: self.z.sub_spec(rhs.z),
            w: self.w.sub_spec(rhs.w),
        }
    }
}

impl<T: Scalar> SubAssign<Vector4<T>> for Vector4<T> {
    /// Subtracts `rhs` component by component. The result replaces `self`.
    fn sub_assign(&mut self, rhs: Vector4<T>)
        requires
            old(self).sub_req(rhs),
        ensures
            T::obeys_sub_spec() ==> *final(self) == old(self).sub_spec(rhs),
    {
        self.x = self.x - rhs.x;
        self.y = self.y - rhs.y;
        self.z = self.z - rhs.z;
        self.w = self.w - rhs.w;
    }
}

impl<T: Scalar> Mul<T> for Vector4<T> {
    type Output = Vector4<T>;

    /// Multiplies every component by `rhs`.
    fn mul(self, rhs: T) -> (v: Vector4<T>) {
        Vector4 { x: self.x * rhs, y: self.y * rhs, z: self.z * rhs, w: self.w * rhs }
    }
}

impl<T: Scalar> vstd::std_specs::ops::MulSpecImpl<T> for Vector4<T> {
    open spec fn obeys_mul_spec() -> bool {
        T::obeys_mul_spec()
    }

    open spec fn mul_req(self, rhs: T) -> bool {
        self.x.mul_req(rhs) && self.y.mul_req(rhs) && self.z.mul_req(rhs) && self.w.mul_req(rhs)
    }

    open spec fn mul_spec(self, rhs: T) -> Vector4<T> {
        Vector4 {
            x: self.x.mul_spec(rhs),
            y: self.y.mul_spec(rhs),
            z: self.z.mul_spec(rhs),
            w: self.w.mul_spec(rhs),
        }
    }
}

impl<T: Scalar> MulAssign<T> for Vector4<T> {
    /// Multiplies every component by `rhs`. The result replaces `self`.
    fn mul_assign(&mut self, rhs: T)
        requires
            old(self).mul_req(rhs),
        ensures
            T::obeys_mul_spec() ==> *final(self) == old(self).mul_spec(rhs),
    {
        self.x = self.x * rhs;
        self.y = self.y * rhs;
        self.z = self.z * rhs;
        self.w = self.w * rhs;
    }
}

impl<T: Scalar> Mul<Vector4<T>> for Vector4<T> {
    type Output = Vector4<T>;

    /// Multiplies the vectors component by component.
    fn mul(self, rhs: Vector4<T>) -> (v: Vector4<T>) {
        Vector4 {
            x: self.x * rhs.x,
            y: self.y * rhs.y,
            z: self.z * rhs.z,
            w: self.w * rhs.w,
        }
    }
}

impl<T: Scalar> vstd::std_specs::ops::MulSpecImpl<Vector4<T>> for Vector4<T> {
    open spec fn obeys_mul_spec() -> bool {
        T::obeys_mul_spec()
    }

    open spec fn mul_req(self, rhs: Vector4<T>) -> bool {
        &&& self.x.mul_req(rhs.x)
        &&& self.y.mul_req(rhs.y)
        &&& self.z.mul_req(rhs.z)
        &&& self.w.mul_req(rhs.w)
    }

    open spec fn mul_spec(self, rhs: Vector4<T>) -> Vector4<T> {
        Vector4 {
            x: self.x.mul_spec(rhs.x),
            y: self.y.mul_spec(rhs.y),
            z: self.z.mul_spec(rhs.z),
            w: self.w.mul_spec(rhs.w),
        }
    }
}

impl<T: Scalar> MulAssign<Vector4<T>> for Vector4<T> {
    /// Multiplies the vectors component by component. The result replaces `self`.
    fn mul_assign(&mut self, rhs: Vector4<T>)
        requires
            old(self).mul_req(rhs),
        ensures
            T::obeys_mul_spec() ==> *final(self) == old(self).mul_spec(rhs),
    {
        self.x = self.x * rhs.x;
        self.y = self.y * rhs.y;
        self.z = self.z * rhs.z;
        self.w = self.w * rhs.w;
    }
}

impl<T: Scalar> Div<T> for Vector4<T> {
    type Output = Vector4<T>;

    /// Divides every component by `rhs`.
    fn div(self, rhs: T) -> (v: Vector4<T>) {
        Vector4 { x: self.x / rhs, y: self.y / rhs, z: self.z / rhs, w: self.w / rhs }
    }
}

impl<T: Scalar> vstd::std_specs::ops::DivSpecImpl<T> for Vector4<T> {
    open spec fn obeys_div_spec() -> bool {
        T::obeys_div_spec()
    }

    open spec fn div_req(self, rhs: T) -> bool {
        self.x.div_req(rhs) && self.y.div_req(rhs) && self.z.div_req(rhs) && self.w.div_req(rhs)
    }

    open spec fn div_spec(self, rhs: T) -> Vector4<T> {
        Vector4 {
            x: self.x.div_spec(rhs),
            y: self.y.div_spec(rhs),
            z: self.z.div_spec(rhs),
            w: self.w.div_spec(rhs),
        }
    }
}

impl<T: Scalar> DivAssign<T> for Vector4<T> {
    /// Divides every component by `rhs`. The result replaces `self`.
    fn div_assign(&mut self, rhs: T)
        requires
            old(self).div_req(rhs),
        ensures
            T::obeys_div_spec() ==> *final(self) == old(self).div_spec(rhs),
    {
        self.x = self.x / rhs;
        self.y = self.y / rhs;
        self.z = self.z / rhs;
        self.w = self.w / rhs;
    }
}

impl<T: Scalar> Div<Vector4<T>> for Vector4<T> {
    type Output = Vector4<T>;

    /// Divides by `rhs` component by component.
    fn div(self, rhs: Vector4<T>) -> (v: Vector4<T>) {
        Vector4 {
            x: self.x / rhs.x,
            y: self.y / rhs.y,
            z: self.z / rhs.z,
            w: self.w / rhs.w,
        }
    }
}

impl<T: Scalar> vstd::std_specs::ops::DivSpecImpl<Vector4<T>> for Vector4<T> {
    open spec fn obeys_div_spec() -> bool {
        T::obeys_div_spec()
    }

    open spec fn div_req(self, rhs: Vector4<T>) -> bool {
        &&& self.x.div_req(rhs.x)
        &&& self.y.div_req(rhs.y)
        &&& self.z.div_req(rhs.z)
        &&& self.w.div_req(rhs.w)
    }

    open spec fn div_spec(self, rhs: Vector4<T>) -> Vector4<T> {
        Vector4 {
            x: self.x.div_spec(rhs.x),
            y: self.y.div_spec(rhs.y),
            z: self.z.div_spec(rhs.z),
            w: self.w.div_spec(rhs.w),
        }
    }
}

impl<T: Scalar> DivAssign<Vector4<T>> for Vector4<T> {
    /// Divides by `rhs` component by component. The result replaces `self`.
    fn div_assign(&mut self, rhs: Vector4<T>)
        requires
            old(self).div_req(rhs),
        ensures
            T::obeys_div_spec() ==> *final(self) == old(self).div_spec(rhs),
    {
        self.x = self.x / rhs.x;
        self.y = self.y / rhs.y;
        self.z = self.z / rhs.z;
        self.w = self.w / rhs.w;
    }
}

impl<T: Scalar> PartialEq for Vector4<T> {
    /// Compares the vectors component by component.
    fn eq(&self, rhs: &Vector4<T>) -> (r: bool) {
        self.x == rhs.x && self.y == rhs.y && self.z == rhs.z && self.w == rhs.w
    }
}

impl<T: Scalar> vstd::std_specs::cmp::PartialEqSpecImpl for Vector4<T> {
    open spec fn obeys_eq_spec() -> bool {
        T::obeys_eq_spec()
    }

    open spec fn eq_spec(&self, rhs: &Vector4<T>) -> bool {
        &&& self.x.eq_spec(&rhs.x)
        &&& self.y.eq_spec(&rhs.y)
        &&& self.z.eq_spec(&rhs.z)
        &&& self.w.eq_spec(&rhs.w)
    }
}

} // verus!
