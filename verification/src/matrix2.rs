//! 2x2 matrices.
use crate::common::TransformPoint;
use crate::ring::lemma_add_commutative;
use crate::ring::lemma_cancel;
use crate::ring::lemma_factor_out;
use crate::ring::lemma_mul_associative;
use crate::ring::lemma_mul_commutative;
use crate::ring::lemma_neg_mul;
use crate::ring::lemma_sub_is_add_neg;
use crate::ring::ring_laws;
use crate::ring::ring_units;
use crate::scalar::Scalar;
use crate::scalar::constant;
use crate::scalar::converts;
use crate::scalar::exact;
use crate::scalar::num;
use crate::scalar::total;
use crate::vector2::Vector2;
use core::ops::Add;
use core::ops::AddAssign;
use core::ops::Div;
use core::ops::DivAssign;
use core::ops::Mul;
use core::ops::MulAssign;
use core::ops::Neg;
use core::ops::Sub;
use core::ops::SubAssign;
use vstd::prelude::*;
use vstd::std_specs::cmp::PartialEqSpec;
use vstd::std_specs::ops::AddSpec;
use vstd::std_specs::ops::DivSpec;
use vstd::std_specs::ops::MulSpec;
use vstd::std_specs::ops::NegSpec;
use vstd::std_specs::ops::SubSpec;

verus! {

/// A 2x2 matrix. The elements are stored column by column.
#[derive(Debug)]
pub struct Matrix2<T> {
    pub m: [T; 4],
}

impl<T: Copy> Copy for Matrix2<T> {

}

impl<T: Copy> Clone for Matrix2<T> {
    fn clone(&self) -> (a: Matrix2<T>)
        ensures
            a == *self,
    {
        *self
    }
}

impl<T> View for Matrix2<T> {
    type V = Seq<T>;

    /// The elements in storage order: the first column, then the second.
    open spec fn view(&self) -> Seq<T> {
        self.m@
    }
}

impl<T: Copy> Matrix2<T> {
    /// The element in row `row` and column `col`, both counted from 1.
    pub open spec fn at(self, row: int, col: int) -> T {
        self.m@[(col - 1) * 2 + (row - 1)]
    }

    /// The matrix whose element in row `row` and column `col` is
    /// `f(row, col)`.
    pub open spec fn tabulate(f: spec_fn(int, int) -> T) -> Matrix2<T> {
        Matrix2 { m: [f(1, 1), f(2, 1), f(1, 2), f(2, 2)] }
    }

    /// The matrix of the values of `f` at the elements.
    pub open spec fn map(self, f: spec_fn(T) -> T) -> Matrix2<T> {
        Self::tabulate(|row: int, col: int| f(self.at(row, col)))
    }

    /// The matrix of the values of `f` at the pairs of elements of `self`
    /// and `rhs` in the same place.
    pub open spec fn zip(self, rhs: Matrix2<T>, f: spec_fn(T, T) -> T) -> Matrix2<T> {
        Self::tabulate(|row: int, col: int| f(self.at(row, col), rhs.at(row, col)))
    }

    /// The matrix mirrored at its diagonal.
    pub open spec fn transposed(self) -> Matrix2<T> {
        Self::tabulate(|row: int, col: int| self.at(col, row))
    }

    /// The row `row` as a vector.
    pub open spec fn row(self, row: int) -> Vector2<T> {
        Vector2 { x: self.at(row, 1), y: self.at(row, 2) }
    }

    /// The column `col` as a vector.
    pub open spec fn col(self, col: int) -> Vector2<T> {
        Vector2 { x: self.at(1, col), y: self.at(2, col) }
    }

    /// Creates a matrix from its elements, given column by column.
    pub fn make(m11: T, m21: T, m12: T, m22: T) -> (a: Matrix2<T>)
        ensures
            a@ == seq![m11, m21, m12, m22],
    {
        Matrix2 { m: [m11, m21, m12, m22] }
    }

    /// The element in row 1 and column 1.
    pub fn m11(&self) -> (v: T)
        ensures
            v == self.at(1, 1),
    {
        self.m[0]
    }

    /// The element in row 2 and column 1.
    pub fn m21(&self) -> (v: T)
        ensures
            v == self.at(2, 1),
    {
        self.m[1]
    }

    /// The element in row 1 and column 2.
    pub fn m12(&self) -> (v: T)
        ensures
            v == self.at(1, 2),
    {
        self.m[2]
    }

    /// The element in row 2 and column 2.
    pub fn m22(&self) -> (v: T)
        ensures
            v == self.at(2, 2),
    {
        self.m[3]
    }

    /// Overwrites the element in row 1 and column 1.
    pub fn set_m11(&mut self, v: T)
        ensures
            final(self)@ == old(self)@.update(0, v),
    {
        self.m[0] = v;
    }

    /// Overwrites the element in row 2 and column 1.
    pub fn set_m21(&mut self, v: T)
        ensures
            final(self)@ == old(self)@.update(1, v),
    {
        self.m[1] = v;
    }

    /// Overwrites the element in row 1 and column 2.
    pub fn set_m12(&mut self, v: T)
        ensures
            final(self)@ == old(self)@.update(2, v),
    {
        self.m[2] = v;
    }

    /// Overwrites the element in row 2 and column 2.
    pub fn set_m22(&mut self, v: T)
        ensures
            final(self)@ == old(self)@.update(3, v),
    {
        self.m[3] = v;
    }

    /// Overwrites all elements, given column by column.
    pub fn set(&mut self, m11: T, m21: T, m12: T, m22: T)
        ensures
            final(self)@ == seq![m11, m21, m12, m22],
    {
        self.set_m11(m11);
        self.set_m21(m21);
        self.set_m12(m12);
        self.set_m22(m22);
        assert(self@ =~= seq![m11, m21, m12, m22]);
    }

    /// Mirrors the matrix at its diagonal.
    pub fn transpose(&mut self)
        ensures
            *final(self) == old(self).transposed(),
    {
        let temp = self.m[1];
        self.m[1] = self.m[2];
        self.m[2] = temp;
        assert(self.m =~= old(self).transposed().m);
    }

    /// Two matrices with the same elements are the same matrix.
    pub proof fn lemma_equal_by_elements(self, other: Matrix2<T>)
        requires
            forall|row: int, col: int|
                1 <= row <= 2 && 1 <= col <= 2 ==> self.at(row, col) == other.at(row, col),
        ensures
            self == other,
    {
        assert(self.at(1, 1) == other.at(1, 1));
        assert(self.at(2, 1) == other.at(2, 1));
        assert(self.at(1, 2) == other.at(1, 2));
        assert(self.at(2, 2) == other.at(2, 2));
        assert(self.m =~= other.m);
    }

    /// Transposing twice gives the matrix back.
    pub proof fn lemma_transpose_involution(self)
        ensures
            self.transposed().transposed() == self,
    {
        assert(self.transposed().transposed().m =~= self.m);
    }
}

impl<T: Scalar> Matrix2<T> {
    /// The identity matrix: ones on the diagonal, zeros elsewhere.
    pub open spec fn identity() -> Matrix2<T> {
        Self::tabulate(
            |row: int, col: int|
                if row == col {
                    num::<T>(1)
                } else {
                    num::<T>(0)
                },
        )
    }

    /// Creates the identity matrix.
    pub fn new() -> (a: Matrix2<T>)
        ensures
            converts::<T>() ==> a == Self::identity(),
    {
        let a = Matrix2 { m: [constant(1), constant(0), constant(0), constant(1)] };
        assert(converts::<T>() ==> a.m =~= Self::identity().m);
        a
    }

    /// The determinant: `m11 * m22 - m12 * m21`.
    pub open spec fn determinant_spec(self) -> T {
        self.at(1, 1).mul_spec(self.at(2, 2)).sub_spec(self.at(1, 2).mul_spec(self.at(2, 1)))
    }

    /// The operations of `determinant` accept their operands.
    pub open spec fn determinant_req(self) -> bool {
        if exact::<T>() {
            &&& self.at(1, 1).mul_req(self.at(2, 2))
            &&& self.at(1, 2).mul_req(self.at(2, 1))
            &&& self.at(1, 1).mul_spec(self.at(2, 2)).sub_req(
                self.at(1, 2).mul_spec(self.at(2, 1)),
            )
        } else {
            total::<T>()
        }
    }

    /// Computes the determinant.
    pub fn determinant(&self) -> (d: T)
        requires
            self.determinant_req(),
        ensures
            exact::<T>() ==> d == self.determinant_spec(),
    {
        self.m11() * self.m22() - self.m12() * self.m21()
    }

    /// The determinant equals zero, so that the matrix has no inverse.
    pub open spec fn singular(self) -> bool {
        self.determinant_spec().eq_spec(&num::<T>(0))
    }

    /// The reciprocal of the determinant.
    pub open spec fn inv_det_spec(self) -> T {
        num::<T>(1).div_spec(self.determinant_spec())
    }

    /// The element of the adjugate in row `row` and column `col`.
    pub open spec fn adjugate_spec(self, row: int, col: int) -> T {
        if row == 1 && col == 1 {
            self.at(2, 2)
        } else if row == 2 && col == 2 {
            self.at(1, 1)
        } else {
            self.at(row, col).neg_spec()
        }
    }

    /// The inverse: the adjugate, every element multiplied by the
    /// reciprocal of the determinant.
    pub open spec fn inverse_spec(self) -> Matrix2<T> {
        Self::tabulate(
            |row: int, col: int| self.adjugate_spec(row, col).mul_spec(self.inv_det_spec()),
        )
    }

    /// The operations of `inverse` accept their operands.
    pub open spec fn inverse_req(self) -> bool {
        if exact::<T>() {
            &&& self.determinant_req()
            &&& !self.singular() ==> {
                &&& num::<T>(1).div_req(self.determinant_spec())
                &&& self.at(2, 1).neg_req()
                &&& self.at(1, 2).neg_req()
                &&& forall|row: int, col: int|
                    1 <= row <= 2 && 1 <= col <= 2 ==> (#[trigger] self.adjugate_spec(
                        row,
                        col,
                    )).mul_req(self.inv_det_spec())
            }
        } else {
            total::<T>()
        }
    }

    /// Replaces the matrix by its inverse and returns `true`, unless the
    /// determinant equals zero: then the matrix stays as it is and the result
    /// is `false`.
    pub fn inverse(&mut self) -> (ok: bool)
        requires
            old(self).inverse_req(),
        ensures
            !ok ==> *final(self) == *old(self),
            exact::<T>() ==> ok == !old(self).singular(),
            exact::<T>() && ok ==> *final(self) == old(self).inverse_spec(),
    {
        let det = self.determinant();
        let zero: T = constant(0);
        if det == zero {
            return false;
        }
        let one: T = constant(1);
        let inv_det = one / det;
        proof {
            if exact::<T>() {
                assert(self.adjugate_spec(1, 1).mul_req(self.inv_det_spec()));
                assert(self.adjugate_spec(2, 1).mul_req(self.inv_det_spec()));
                assert(self.adjugate_spec(1, 2).mul_req(self.inv_det_spec()));
                assert(self.adjugate_spec(2, 2).mul_req(self.inv_det_spec()));
            }
        }
        let m11 = self.m22() * inv_det;
        let m21 = self.m21().neg() * inv_det;
        let m12 = self.m12().neg() * inv_det;
        let m22 = self.m11() * inv_det;
        self.set_m11(m11);
        self.set_m21(m21);
        self.set_m12(m12);
        self.set_m22(m22);
        assert(exact::<T>() ==> self.m =~= old(self).inverse_spec().m);
        true
    }
}

impl<T: Scalar> Neg for Matrix2<T> {
    type Output = Matrix2<T>;

    /// Negates every element.
    fn neg(self) -> (a: Matrix2<T>) {
        let mut m = self.m;
        let mut i: usize = 0;
        while i < 4
            invariant
                i <= 4,
                forall|j: int| 0 <= j < 4 ==> (#[trigger] self.m@[j]).neg_req(),
                forall|j: int| 0 <= j < i && T::obeys_neg_spec() ==> m@[j] == self.m@[j].neg_spec(),
                forall|j: int| i <= j < 4 ==> m@[j] == self.m@[j],
            decreases 4 - i,
        {
            m[i] = self.m[i].neg();
            i += 1;
        }
        assert(T::obeys_neg_spec() ==> m =~= self.map(|x: T| x.neg_spec()).m);
        Matrix2 { m }
    }
}

impl<T: Scalar> vstd::std_specs::ops::NegSpecImpl for Matrix2<T> {
    open spec fn obeys_neg_spec() -> bool {
        T::obeys_neg_spec()
    }

    open spec fn neg_req(self) -> bool {
        forall|i: int| 0 <= i < 4 ==> (#[trigger] self.m@[i]).neg_req()
    }

    open spec fn neg_spec(self) -> Matrix2<T> {
        self.map(|x: T| x.neg_spec())
    }
}

impl<T: Scalar> Add<T> for Matrix2<T> {
    type Output = Matrix2<T>;

    /// Adds `rhs` to every element.
    fn add(self, rhs: T) -> (a: Matrix2<T>) {
        let mut m = self.m;
        let mut i: usize = 0;
        while i < 4
            invariant
                i <= 4,
                forall|j: int| 0 <= j < 4 ==> (#[trigger] self.m@[j]).add_req(rhs),
                forall|j: int|
                    0 <= j < i && T::obeys_add_spec() ==> m@[j] == self.m@[j].add_spec(rhs),
                forall|j: int| i <= j < 4 ==> m@[j] == self.m@[j],
            decreases 4 - i,
        {
            m[i] = self.m[i] + rhs;
            i += 1;
        }
        assert(T::obeys_add_spec() ==> m =~= self.map(|x: T| x.add_spec(rhs)).m);
        Matrix2 { m }
    }
}

impl<T: Scalar> vstd::std_specs::ops::AddSpecImpl<T> for Matrix2<T> {
    open spec fn obeys_add_spec() -> bool {
        T::obeys_add_spec()
    }

    open spec fn add_req(self, rhs: T) -> bool {
        forall|i: int| 0 <= i < 4 ==> (#[trigger] self.m@[i]).add_req(rhs)
    }

    open spec fn add_spec(self, rhs: T) -> Matrix2<T> {
        self.map(|x: T| x.add_spec(rhs))
    }
}

impl<T: Scalar> AddAssign<T> for Matrix2<T> {
    /// Adds `rhs` to every element. The result replaces `self`.
    fn add_assign(&mut self, rhs: T)
        requires
            old(self).add_req(rhs),
        ensures
            T::obeys_add_spec() ==> *final(self) == old(self).add_spec(rhs),
    {
        let mut i: usize = 0;
        while i < 4
            invariant
                i <= 4,
                forall|j: int| 0 <= j < 4 ==> (#[trigger] old(self).m@[j]).add_req(rhs),
                forall|j: int|
                    0 <= j < i && T::obeys_add_spec() ==> self.m@[j] == old(self).m@[j].add_spec(
                        rhs,
                    ),
                forall|j: int| i <= j < 4 ==> self.m@[j] == old(self).m@[j],
            decreases 4 - i,
        {
            self.m[i] = self.m[i] + rhs;
            i += 1;
        }
        assert(T::obeys_add_spec() ==> self.m =~= old(self).add_spec(rhs).m);
    }
}

impl<T: Scalar> Add<Matrix2<T>> for Matrix2<T> {
    type Output = Matrix2<T>;

    /// Adds the matrices element by element.
    fn add(self, rhs: Matrix2<T>) -> (a: Matrix2<T>) {
        let mut m = self.m;
        let mut i: usize = 0;
        while i < 4
            invariant
                i <= 4,
                forall|j: int| 0 <= j < 4 ==> (#[trigger] self.m@[j]).add_req(rhs.m@[j]),
                forall|j: int|
                    0 <= j < i && T::obeys_add_spec() ==> m@[j] == self.m@[j].add_spec(rhs.m@[j]),
                forall|j: int| i <= j < 4 ==> m@[j] == self.m@[j],
            decreases 4 - i,
        {
            m[i] = self.m[i] + rhs.m[i];
            i += 1;
        }
        assert(T::obeys_add_spec() ==> m =~= self.zip(rhs, |x: T, y: T| x.add_spec(y)).m);
        Matrix2 { m }
    }
}

impl<T: Scalar> vstd::std_specs::ops::AddSpecImpl<Matrix2<T>> for Matrix2<T> {
    open spec fn obeys_add_spec() -> bool {
        T::obeys_add_spec()
    }

    open spec fn add_req(self, rhs: Matrix2<T>) -> bool {
        forall|i: int| 0 <= i < 4 ==> (#[trigger] self.m@[i]).add_req(rhs.m@[i])
    }

    open spec fn add_spec(self, rhs: Matrix2<T>) -> Matrix2<T> {
        self.zip(rhs, |x: T, y: T| x.add_spec(y))
    }
}

impl<T: Scalar> AddAssign<Matrix2<T>> for Matrix2<T> {
    /// Adds the matrices element by element. The result replaces `self`.
    fn add_assign(&mut self, rhs: Matrix2<T>)
        requires
            old(self).add_req(rhs),
        ensures
            T::obeys_add_spec() ==> *final(self) == old(self).add_spec(rhs),
    {
        let mut i: usize = 0;
        while i < 4
            invariant
                i <= 4,
                forall|j: int| 0 <= j < 4 ==> (#[trigger] old(self).m@[j]).add_req(rhs.m@[j]),
                forall|j: int|
                    0 <= j < i && T::obeys_add_spec() ==> self.m@[j] == old(self).m@[j].add_spec(
                        rhs.m@[j],
                    ),
                forall|j: int| i <= j < 4 ==> self.m@[j] == old(self).m@[j],
            decreases 4 - i,
        {
            self.m[i] = self.m[i] + rhs.m[i];
            i += 1;
        }
        assert(T::obeys_add_spec() ==> self.m =~= old(self).add_spec(rhs).m);
    }
}

impl<T: Scalar> Sub<T> for Matrix2<T> {
    type Output = Matrix2<T>;

    /// Subtracts `rhs` from every element.
    fn sub(self, rhs: T) -> (a: Matrix2<T>) {
        let mut m = self.m;
        let mut i: usize = 0;
        while i < 4
            invariant
                i <= 4,
                forall|j: int| 0 <= j < 4 ==> (#[trigger] self.m@[j]).sub_req(rhs),
                forall|j: int|
                    0 <= j < i && T::obeys_sub_spec() ==> m@[j] == self.m@[j].sub_spec(rhs),
                forall|j: int| i <= j < 4 ==> m@[j] == self.m@[j],
            decreases 4 - i,
        {
            m[i] = self.m[i] - rhs;
            i += 1;
        }
        assert(T::obeys_sub_spec() ==> m =~= self.map(|x: T| x.sub_spec(rhs)).m);
        Matrix2 { m }
    }
}

impl<T: Scalar> vstd::std_specs::ops::SubSpecImpl<T> for Matrix2<T> {
    open spec fn obeys_sub_spec() -> bool {
        T::obeys_sub_spec()
    }

    open spec fn sub_req(self, rhs: T) -> bool {
        forall|i: int| 0 <= i < 4 ==> (#[trigger] self.m@[i]).sub_req(rhs)
    }

    open spec fn sub_spec(self, rhs: T) -> Matrix2<T> {
        self.map(|x: T| x.sub_spec(rhs))
    }
}

impl<T: Scalar> SubAssign<T> for Matrix2<T> {
    /// Subtracts `rhs` from every element. The result replaces `self`.
    fn sub_assign(&mut self, rhs: T)
        requires
            old(self).sub_req(rhs),
        ensures
            T::obeys_sub_spec() ==> *final(self) == old(self).sub_spec(rhs),
    {
        let mut i: usize = 0;
        while i < 4
            invariant
                i <= 4,
                forall|j: int| 0 <= j < 4 ==> (#[trigger] old(self).m@[j]).sub_req(rhs),
                forall|j: int|
                    0 <= j < i && T::obeys_sub_spec() ==> self.m@[j] == old(self).m@[j].sub_spec(
                        rhs,
                    ),
                forall|j: int| i <= j < 4 ==> self.m@[j] == old(self).m@[j],
            decreases 4 - i,
        {
            self.m[i] = self.m[i] - rhs;
            i += 1;
        }
        assert(T::obeys_sub_spec() ==> self.m =~= old(self).sub_spec(rhs).m);
    }
}

impl<T: Scalar> Sub<Matrix2<T>> for Matrix2<T> {
    type Output = Matrix2<T>;

    /// Subtracts `rhs` element by element.
    fn sub(self, rhs: Matrix2<T>) -> (a: Matrix2<T>) {
        let mut m = self.m;
        let mut i: usize = 0;
        while i < 4
            invariant
                i <= 4,
                forall|j: int| 0 <= j < 4 ==> (#[trigger] self.m@[j]).sub_req(rhs.m@[j]),
                forall|j: int|
                    0 <= j < i && T::obeys_sub_spec() ==> m@[j] == self.m@[j].sub_spec(rhs.m@[j]),
                forall|j: int| i <= j < 4 ==> m@[j] == self.m@[j],
            decreases 4 - i,
        {
            m[i] = self.m[i] - rhs.m[i];
            i += 1;
        }
        assert(T::obeys_sub_spec() ==> m =~= self.zip(rhs, |x: T, y: T| x.sub_spec(y)).m);
        Matrix2 { m }
    }
}

impl<T: Scalar> vstd::std_specs::ops::SubSpecImpl<Matrix2<T>> for Matrix2<T> {
    open spec fn obeys_sub_spec() -> bool {
        T::obeys_sub_spec()
    }

    open spec fn sub_req(self, rhs: Matrix2<T>) -> bool {
        forall|i: int| 0 <= i < 4 ==> (#[trigger] self.m@[i]).sub_req(rhs.m@[i])
    }

    open spec fn sub_spec(self, rhs: Matrix2<T>) -> Matrix2<T> {
        self.zip(rhs, |x: T, y: T| x.sub_spec(y))
    }
}

impl<T: Scalar> SubAssign<Matrix2<T>> for Matrix2<T> {
    /// Subtracts `rhs` element by element. The result replaces `self`.
    fn sub_assign(&mut self, rhs: Matrix2<T>)
        requires
            old(self).sub_req(rhs),
        ensures
            T::obeys_sub_spec() ==> *final(self) == old(self).sub_spec(rhs),
    {
        let mut i: usize = 0;
        while i < 4
            invariant
                i <= 4,
                forall|j: int| 0 <= j < 4 ==> (#[trigger] old(self).m@[j]).sub_req(rhs.m@[j]),
                forall|j: int|
                    0 <= j < i && T::obeys_sub_spec() ==> self.m@[j] == old(self).m@[j].sub_spec(
                        rhs.m@[j],
                    ),
                forall|j: int| i <= j < 4 ==> self.m@[j] == old(self).m@[j],
            decreases 4 - i,
        {
            self.m[i] = self.m[i] - rhs.m[i];
            i += 1;
        }
        assert(T::obeys_sub_spec() ==> self.m =~= old(self).sub_spec(rhs).m);
    }
}

impl<T: Scalar> Mul<T> for Matrix2<T> {
    type Output = Matrix2<T>;

    /// Multiplies every element by `rhs`.
    fn mul(self, rhs: T) -> (a: Matrix2<T>) {
        let mut m = self.m;
        let mut i: usize = 0;
        while i < 4
            invariant
                i <= 4,
                forall|j: int| 0 <= j < 4 ==> (#[trigger] self.m@[j]).mul_req(rhs),
                forall|j: int|
                    0 <= j < i && T::obeys_mul_spec() ==> m@[j] == self.m@[j].mul_spec(rhs),
                forall|j: int| i <= j < 4 ==> m@[j] == self.m@[j],
            decreases 4 - i,
        {
            m[i] = self.m[i] * rhs;
            i += 1;
        }
        assert(T::obeys_mul_spec() ==> m =~= self.map(|x: T| x.mul_spec(rhs)).m);
        Matrix2 { m }
    }
}

impl<T: Scalar> vstd::std_specs::ops::MulSpecImpl<T> for Matrix2<T> {
    open spec fn obeys_mul_spec() -> bool {
        T::obeys_mul_spec()
    }

    open spec fn mul_req(self, rhs: T) -> bool {
        forall|i: int| 0 <= i < 4 ==> (#[trigger] self.m@[i]).mul_req(rhs)
    }

    open spec fn mul_spec(self, rhs: T) -> Matrix2<T> {
        self.map(|x: T| x.mul_spec(rhs))
    }
}

impl<T: Scalar> MulAssign<T> for Matrix2<T> {
    /// Multiplies every element by `rhs`. The result replaces `self`.
    fn mul_assign(&mut self, rhs: T)
        requires
            old(self).mul_req(rhs),
        ensures
            T::obeys_mul_spec() ==> *final(self) == old(self).mul_spec(rhs),
    {
        let mut i: usize = 0;
        while i < 4
            invariant
                i <= 4,
                forall|j: int| 0 <= j < 4 ==> (#[trigger] old(self).m@[j]).mul_req(rhs),
                forall|j: int|
                    0 <= j < i && T::obeys_mul_spec() ==> self.m@[j] == old(self).m@[j].mul_spec(
                        rhs,
                    ),
                forall|j: int| i <= j < 4 ==> self.m@[j] == old(self).m@[j],
            decreases 4 - i,
        {
            self.m[i] = self.m[i] * rhs;
            i += 1;
        }
        assert(T::obeys_mul_spec() ==> self.m =~= old(self).mul_spec(rhs).m);
    }
}

impl<T: Scalar> Mul<Matrix2<T>> for Matrix2<T> {
    type Output = Matrix2<T>;

    /// The matrix product: the element in row `row` and column `col` is the
    /// dot product of that row of `self` with that column of `rhs`.
    fn mul(self, rhs: Matrix2<T>) -> (a: Matrix2<T>) {
        proof {
            if exact::<T>() {
                assert(Vector2::dot_req(self.row(1), rhs.col(1)));
                assert(Vector2::dot_req(self.row(2), rhs.col(1)));
                assert(Vector2::dot_req(self.row(1), rhs.col(2)));
                assert(Vector2::dot_req(self.row(2), rhs.col(2)));
            }
        }
        let m11 = self.m11() * rhs.m11() + self.m12() * rhs.m21();
        let m21 = self.m21() * rhs.m11() + self.m22() * rhs.m21();
        let m12 = self.m11() * rhs.m12() + self.m12() * rhs.m22();
        let m22 = self.m21() * rhs.m12() + self.m22() * rhs.m22();
        let a = Matrix2::make(m11, m21, m12, m22);
        assert(exact::<T>() ==> a.m =~= Self::tabulate(
            |row: int, col: int| Vector2::dot_spec(self.row(row), rhs.col(col)),
        ).m);
        a
    }
}

impl<T: Scalar> vstd::std_specs::ops::MulSpecImpl<Matrix2<T>> for Matrix2<T> {
    open spec fn obeys_mul_spec() -> bool {
        exact::<T>()
    }

    open spec fn mul_req(self, rhs: Matrix2<T>) -> bool {
        if exact::<T>() {
            forall|row: int, col: int|
                1 <= row <= 2 && 1 <= col <= 2 ==> Vector2::dot_req(
                    #[trigger] self.row(row),
                    #[trigger] rhs.col(col),
                )
        } else {
            total::<T>()
        }
    }

    open spec fn mul_spec(self, rhs: Matrix2<T>) -> Matrix2<T> {
        Self::tabulate(|row: int, col: int| Vector2::dot_spec(self.row(row), rhs.col(col)))
    }
}

impl<T: Scalar> MulAssign<Matrix2<T>> for Matrix2<T> {
    /// Multiplies the matrix by `rhs` from the right.
    fn mul_assign(&mut self, rhs: Matrix2<T>)
        requires
            old(self).mul_req(rhs),
        ensures
            exact::<T>() ==> *final(self) == old(self).mul_spec(rhs),
    {
        let res = *self * rhs;
        self.m = res.m;
    }
}

impl<T: Scalar> Div<T> for Matrix2<T> {
    type Output = Matrix2<T>;

    /// Divides every element by `rhs`.
    fn div(self, rhs: T) -> (a: Matrix2<T>) {
        let mut m = self.m;
        let mut i: usize = 0;
        while i < 4
            invariant
                i <= 4,
                forall|j: int| 0 <= j < 4 ==> (#[trigger] self.m@[j]).div_req(rhs),
                forall|j: int|
                    0 <= j < i && T::obeys_div_spec() ==> m@[j] == self.m@[j].div_spec(rhs),
                forall|j: int| i <= j < 4 ==> m@[j] == self.m@[j],
            decreases 4 - i,
        {
            m[i] = self.m[i] / rhs;
            i += 1;
        }
        assert(T::obeys_div_spec() ==> m =~= self.map(|x: T| x.div_spec(rhs)).m);
        Matrix2 { m }
    }
}

impl<T: Scalar> vstd::std_specs::ops::DivSpecImpl<T> for Matrix2<T> {
    open spec fn obeys_div_spec() -> bool {
        T::obeys_div_spec()
    }

    open spec fn div_req(self, rhs: T) -> bool {
        forall|i: int| 0 <= i < 4 ==> (#[trigger] self.m@[i]).div_req(rhs)
    }

    open spec fn div_spec(self, rhs: T) -> Matrix2<T> {
        self.map(|x: T| x.div_spec(rhs))
    }
}

impl<T: Scalar> DivAssign<T> for Matrix2<T> {
    /// Divides every element by `rhs`. The result replaces `self`.
    fn div_assign(&mut self, rhs: T)
        requires
            old(self).div_req(rhs),
        ensures
            T::obeys_div_spec() ==> *final(self) == old(self).div_spec(rhs),
    {
        let mut i: usize = 0;
        while i < 4
            invariant
                i <= 4,
                forall|j: int| 0 <= j < 4 ==> (#[trigger] old(self).m@[j]).div_req(rhs),
                forall|j: int|
                    0 <= j < i && T::obeys_div_spec() ==> self.m@[j] == old(self).m@[j].div_spec(
                        rhs,
                    ),
                forall|j: int| i <= j < 4 ==> self.m@[j] == old(self).m@[j],
            decreases 4 - i,
        {
            self.m[i] = self.m[i] / rhs;
            i += 1;
        }
        assert(T::obeys_div_spec() ==> self.m =~= old(self).div_spec(rhs).m);
    }
}

impl<T: Scalar> PartialEq for Matrix2<T> {
    /// Compares the matrices element by element.
    fn eq(&self, rhs: &Matrix2<T>) -> (r: bool) {
        let mut i: usize = 0;
        while i < 4
            invariant
                i <= 4,
                forall|j: int| 0 <= j < i && T::obeys_eq_spec() ==> self.m@[j].eq_spec(&rhs.m@[j]),
            decreases 4 - i,
        {
            if self.m[i] != rhs.m[i] {
                return false;
            }
            i += 1;
        }
        true
    }
}

impl<T: Scalar> vstd::std_specs::cmp::PartialEqSpecImpl for Matrix2<T> {
    open spec fn obeys_eq_spec() -> bool {
        T::obeys_eq_spec()
    }

    open spec fn eq_spec(&self, rhs: &Matrix2<T>) -> bool {
        forall|i: int| 0 <= i < 4 ==> (#[trigger] self.m@[i]).eq_spec(&rhs.m@[i])
    }
}

impl<T: Scalar> TransformPoint<Vector2<T>> for Matrix2<T> {
    open spec fn obeys_transform_spec() -> bool {
        exact::<T>()
    }

    open spec fn transform_req(&self, point: &Vector2<T>) -> bool {
        &&& Vector2::dot_req(self.row(1), *point)
        &&& Vector2::dot_req(self.row(2), *point)
    }

    /// The product of the matrix with the column vector `point`.
    open spec fn transform_spec(&self, point: &Vector2<T>) -> Vector2<T> {
        Vector2 {
            x: Vector2::dot_spec(self.row(1), *point),
            y: Vector2::dot_spec(self.row(2), *point),
        }
    }

    fn transform_point(&self, point: &Vector2<T>) -> (r: Vector2<T>) {
        Vector2::make(
            self.m11() * point.x + self.m12() * point.y,
            self.m21() * point.x + self.m22() * point.y,
        )
    }
}

impl<T: Scalar> Matrix2<T> {
    /// The row vector `a` times the matrix: the dot products of `a` with the
    /// columns.
    pub open spec fn row_times(self, a: Vector2<T>) -> Vector2<T> {
        Vector2 { x: Vector2::dot_spec(a, self.col(1)), y: Vector2::dot_spec(a, self.col(2)) }
    }

    /// The matrix times the column vector `c`: the dot products of the rows
    /// with `c`.
    pub open spec fn times_col(self, c: Vector2<T>) -> Vector2<T> {
        Vector2 { x: Vector2::dot_spec(self.row(1), c), y: Vector2::dot_spec(self.row(2), c) }
    }

    /// A row vector, a matrix and a column vector can be multiplied in either
    /// order: `(a * self) * c == a * (self * c)`, where the components form a
    /// commutative ring.
    pub proof fn lemma_dot_associative(self, a: Vector2<T>, c: Vector2<T>)
        requires
            ring_laws::<T>(),
        ensures
            Vector2::dot_spec(self.row_times(a), c) == Vector2::dot_spec(a, self.times_col(c)),
    {
        let u1 = a.mul_spec(self.col(1)).mul_spec(c.x);
        let u2 = a.mul_spec(self.col(2)).mul_spec(c.y);
        Vector2::lemma_dot_is_sum(a, self.col(1));
        Vector2::lemma_sum_times(a.mul_spec(self.col(1)), c.x);
        Vector2::lemma_dot_is_sum(a, self.col(2));
        Vector2::lemma_sum_times(a.mul_spec(self.col(2)), c.y);
        Vector2::lemma_sum_add(u1, u2);
        Vector2::lemma_dot_is_sum(self.row(1), c);
        Vector2::lemma_times_sum(a.x, self.row(1).mul_spec(c));
        Vector2::lemma_dot_is_sum(self.row(2), c);
        Vector2::lemma_times_sum(a.y, self.row(2).mul_spec(c));
        lemma_mul_associative(a.x, self.at(1, 1), c.x);
        lemma_mul_associative(a.x, self.at(1, 2), c.y);
        lemma_mul_associative(a.y, self.at(2, 1), c.x);
        lemma_mul_associative(a.y, self.at(2, 2), c.y);
        let v = u1.add_spec(u2);
        assert(v.x == a.x.mul_spec(Vector2::dot_spec(self.row(1), c)));
        assert(v.y == a.y.mul_spec(Vector2::dot_spec(self.row(2), c)));
    }

    /// The matrix product is associative: `(a * b) * c == a * (b * c)`, where
    /// the components form a commutative ring.
    pub proof fn lemma_product_associative(a: Matrix2<T>, b: Matrix2<T>, c: Matrix2<T>)
        requires
            ring_laws::<T>(),
        ensures
            a.mul_spec(b).mul_spec(c) == a.mul_spec(b.mul_spec(c)),
    {
        let l = a.mul_spec(b).mul_spec(c);
        let r = a.mul_spec(b.mul_spec(c));
        assert(a.mul_spec(b).row(1) == b.row_times(a.row(1)));
        assert(a.mul_spec(b).row(2) == b.row_times(a.row(2)));
        assert(b.mul_spec(c).col(1) == b.times_col(c.col(1)));
        assert(b.mul_spec(c).col(2) == b.times_col(c.col(2)));
        b.lemma_dot_associative(a.row(1), c.col(1));
        b.lemma_dot_associative(a.row(2), c.col(1));
        b.lemma_dot_associative(a.row(1), c.col(2));
        b.lemma_dot_associative(a.row(2), c.col(2));
        assert(l.at(1, 1) == r.at(1, 1));
        assert(l.at(2, 1) == r.at(2, 1));
        assert(l.at(1, 2) == r.at(1, 2));
        assert(l.at(2, 2) == r.at(2, 2));
        assert(l.m =~= r.m);
    }
}

impl<T: Scalar> Matrix2<T> {
    /// A matrix times its inverse is the identity matrix, where the
    /// components form a commutative ring and the determinant times its
    /// reciprocal is one.
    pub proof fn lemma_times_inverse(self)
        requires
            ring_laws::<T>(),
            ring_units::<T>(),
            self.determinant_spec().mul_spec(self.inv_det_spec()) == num::<T>(1),
        ensures
            self.mul_spec(self.inverse_spec()) == Self::identity(),
    {
        let a = self.at(1, 1);
        let b = self.at(1, 2);
        let c = self.at(2, 1);
        let d = self.at(2, 2);
        let k = self.inv_det_spec();
        let o = num::<T>(0);
        let p = self.mul_spec(self.inverse_spec());
        lemma_factor_out(a, d, b, c.neg_spec(), k);
        lemma_factor_out(c, d, d, c.neg_spec(), k);
        lemma_factor_out(a, b.neg_spec(), b, a, k);
        lemma_factor_out(c, b.neg_spec(), d, a, k);
        lemma_neg_mul(c, b);
        lemma_neg_mul(c, d);
        lemma_neg_mul(b, a);
        lemma_neg_mul(b, c);
        lemma_neg_mul(o, k);
        lemma_sub_is_add_neg(a.mul_spec(d), b.mul_spec(c));
        lemma_mul_commutative(d, c);
        lemma_cancel(c.mul_spec(d));
        lemma_mul_commutative(b, a);
        lemma_cancel(a.mul_spec(b));
        lemma_mul_commutative(c, b);
        lemma_mul_commutative(d, a);
        lemma_add_commutative(b.mul_spec(c).neg_spec(), a.mul_spec(d));
        assert(p.at(1, 1) == num::<T>(1));
        assert(p.at(2, 1) == o);
        assert(p.at(1, 2) == o);
        assert(p.at(2, 2) == num::<T>(1));
        assert(p.m =~= Self::identity().m);
    }
}

} // verus!
