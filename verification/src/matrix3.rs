//! 3x3 matrices.
use crate::common::TransformPoint;
use crate::matrix2::Matrix2;
use crate::ring::lemma_add_associative;
use crate::ring::lemma_minuends_exchange;
use crate::ring::lemma_mul_associative;
use crate::ring::lemma_mul_commutative;
use crate::ring::lemma_mul_rotate;
use crate::ring::lemma_mul_swap;
use crate::ring::lemma_neg_mul;
use crate::ring::lemma_neg_sub;
use crate::ring::lemma_sub_is_add_neg;
use crate::ring::ring_laws;
use crate::ring::ring_units;
use crate::scalar::Scalar;
use crate::scalar::constant;
use crate::scalar::converts;
use crate::scalar::exact;
use crate::scalar::num;
use crate::scalar::total;
use crate::vector2::Vector2;
use crate::vector3::Vector3;
use core::ops::Add;
use core::ops::AddAssign;
use core::ops::Div;
use core::ops::DivAssign;
use core::ops::Mul;
use core::ops::MulAssign;
use core::ops::Neg;
use core::ops::Sub;
use core::ops::SubAssign;
use vstd::prelude::*;
use vstd::std_specs::cmp::PartialEqSpec;
use vstd::std_specs::ops::AddSpec;
use vstd::std_specs::ops::DivSpec;
use vstd::std_specs::ops::MulSpec;
use vstd::std_specs::ops::NegSpec;
use vstd::std_specs::ops::SubSpec;

verus! {

/// A 3x3 matrix. The elements are stored column by column.
#[derive(Debug)]
pub struct Matrix3<T> {
    pub m: [T; 9],
}

impl<T: Copy> Copy for Matrix3<T> {

}

impl<T: Copy> Clone for Matrix3<T> {
    fn clone(&self) -> (a: Matrix3<T>)
        ensures
            a == *self,
    {
        *self
    }
}

impl<T> View for Matrix3<T> {
    type V = Seq<T>;

    /// The elements in storage order: the first column, then the second, then the third.
    open spec fn view(&self) -> Seq<T> {
        self.m@
    }
}

impl<T: Copy> Matrix3<T> {
    /// The element in row `row` and column `col`, both counted from 1.
    pub open spec fn at(self, row: int, col: int) -> T {
        self.m@[(col - 1) * 3 + (row - 1)]
    }

    /// The matrix whose element in row `row` and column `col` is
    /// `f(row, col)`.
    pub open spec fn tabulate(f: spec_fn(int, int) -> T) -> Matrix3<T> {
        Matrix3 { m: [f(1, 1), f(2, 1), f(3, 1), f(1, 2), f(2, 2), f(3, 2), f(1, 3), f(2, 3), f(3, 3)] }
    }

    /// The matrix of the values of `f` at the elements.
    pub open spec fn map(self, f: spec_fn(T) -> T) -> Matrix3<T> {
        Self::tabulate(|row: int, col: int| f(self.at(row, col)))
    }

    /// The matrix of the values of `f` at the pairs of elements of `self`
    /// and `rhs` in the same place.
    pub open spec fn zip(self, rhs: Matrix3<T>, f: spec_fn(T, T) -> T) -> Matrix3<T> {
        Self::tabulate(|row: int, col: int| f(self.at(row, col), rhs.at(row, col)))
    }

    /// The matrix mirrored at its diagonal.
    pub open spec fn transposed(self) -> Matrix3<T> {
        Self::tabulate(|row: int, col: int| self.at(col, row))
    }

    /// The row `row` as a vector.
    pub open spec fn row(self, row: int) -> Vector3<T> {
        Vector3 { x: self.at(row, 1), y: self.at(row, 2), z: self.at(row, 3) }
    }

    /// The column `col` as a vector.
    pub open spec fn col(self, col: int) -> Vector3<T> {
        Vector3 { x: self.at(1, col), y: self.at(2, col), z: self.at(3, col) }
    }

    /// The minor of the element in row `row` and column `col`: the matrix
    /// without that row and that column.
    pub open spec fn minor(self, row: int, col: int) -> Matrix2<T> {
        Matrix2::tabulate(
            |r: int, c: int|
                self.at(
                    if r < row {
                        r
                    } else {
                        r + 1
                    },
                    if c < col {
                        c
                    } else {
                        c + 1
                    },
                ),
        )
    }

    /// Creates a matrix from its elements, given column by column.
    pub fn make(
        m11: T,
        m21: T,
        m31: T,
        m12: T,
        m22: T,
        m32: T,
        m13: T,
        m23: T,
        m33: T,
    ) -> (a: Matrix3<T>)
        ensures
            a@ == seq![m11, m21, m31, m12, m22, m32, m13, m23, m33],
    {
        Matrix3 { m: [m11, m21, m31, m12, m22, m32, m13, m23, m33] }
    }

    /// The element in row 1 and column 1.
    pub fn m11(&self) -> (v: T)
        ensures
            v == self.at(1, 1),
    {
        self.m[0]
    }

    /// The element in row 2 and column 1.
    pub fn m21(&self) -> (v: T)
        ensures
            v == self.at(2, 1),
    {
        self.m[1]
    }

    /// The element in row 3 and column 1.
    pub fn m31(&self) -> (v: T)
        ensures
            v == self.at(3, 1),
    {
        self.m[2]
    }

    /// The element in row 1 and column 2.
    pub fn m12(&self) -> (v: T)
        ensures
            v == self.at(1, 2),
    {
        self.m[3]
    }

    /// The element in row 2 and column 2.
    pub fn m22(&self) -> (v: T)
        ensures
            v == self.at(2, 2),
    {
        self.m[4]
    }

    /// The element in row 3 and column 2.
    pub fn m32(&self) -> (v: T)
        ensures
            v == self.at(3, 2),
    {
        self.m[5]
    }

    /// The element in row 1 and column 3.
    pub fn m13(&self) -> (v: T)
        ensures
            v == self.at(1, 3),
    {
        self.m[6]
    }

    /// The element in row 2 and column 3.
    pub fn m23(&self) -> (v: T)
        ensures
            v == self.at(2, 3),
    {
        self.m[7]
    }

    /// The element in row 3 and column 3.
    pub fn m33(&self) -> (v: T)
        ensures
            v == self.at(3, 3),
    {
        self.m[8]
    }

    /// The elements in storage order.
    pub fn m(&self) -> (m: [T; 9])
        ensures
            m@ == self@,
    {
        self.m
    }

    /// Overwrites the element in row 1 and column 1.
    pub fn set_m11(&mut self, v: T)
        ensures
            final(self)@ == old(self)@.update(0, v),
    {
        self.m[0] = v;
    }

    /// Overwrites the element in row 2 and column 1.
    pub fn set_m21(&mut self, v: T)
        ensures
            final(self)@ == old(self)@.update(1, v),
    {
        self.m[1] = v;
    }

    /// Overwrites the element in row 3 and column 1.
    pub fn set_m31(&mut self, v: T)
        ensures
            final(self)@ == old(self)@.update(2, v),
    {
        self.m[2] = v;
    }

    /// Overwrites the element in row 1 and column 2.
    pub fn set_m12(&mut self, v: T)
        ensures
            final(self)@ == old(self)@.update(3, v),
    {
        self.m[3] = v;
    }

    /// Overwrites the element in row 2 and column 2.
    pub fn set_m22(&mut self, v: T)
        ensures
            final(self)@ == old(self)@.update(4, v),
    {
        self.m[4] = v;
    }

    /// Overwrites the element in row 3 and column 2.
    pub fn set_m32(&mut self, v: T)
        ensures
            final(self)@ == old(self)@.update(5, v),
    {
        self.m[5] = v;
    }

    /// Overwrites the element in row 1 and column 3.
    pub fn set_m13(&mut self, v: T)
        ensures
            final(self)@ == old(self)@.update(6, v),
    {
        self.m[6] = v;
    }

    /// Overwrites the element in row 2 and column 3.
    pub fn set_m23(&mut self, v: T)
        ensures
            final(self)@ == old(self)@.update(7, v),
    {
        self.m[7] = v;
    }

    /// Overwrites the element in row 3 and column 3.
    pub fn set_m33(&mut self, v: T)
        ensures
            final(self)@ == old(self)@.update(8, v),
    {
        self.m[8] = v;
    }

    /// Overwrites all elements, given column by column.
    pub fn set(
        &mut self,
        m11: T,
        m21: T,
        m31: T,
        m12: T,
        m22: T,
        m32: T,
        m13: T,
        m23: T,
        m33: T,
    )
        ensures
            final(self)@ == seq![m11, m21, m31, m12, m22, m32, m13, m23, m33],
    {
        self.set_m11(m11);
        self.set_m21(m21);
        self.set_m31(m31);
        self.set_m12(m12);
        self.set_m22(m22);
        self.set_m32(m32);
        self.set_m13(m13);
        self.set_m23(m23);
        self.set_m33(m33);
        assert(self@ =~= seq![m11, m21, m31, m12, m22, m32, m13, m23, m33]);
    }

    /// Mirrors the matrix at its diagonal.
    pub fn transpose(&mut self)
        ensures
            *final(self) == old(self).transposed(),
    {
        let mut m = self.m;
        let temp = m[1];
        m[1] = m[3];
        m[3] = temp;
        let temp = m[5];
        m[5] = m[7];
        m[7] = temp;
        let temp = m[2];
        m[2] = m[6];
        m[6] = temp;
        self.m = m;
        assert(self.m =~= old(self).transposed().m);
    }

    /// Two matrices with the same elements are the same matrix.
    pub proof fn lemma_equal_by_elements(self, other: Matrix3<T>)
        requires
            forall|row: int, col: int|
                1 <= row <= 3 && 1 <= col <= 3 ==> self.at(row, col) == other.at(row, col),
        ensures
            self == other,
    {
        assert(self.at(1, 1) == other.at(1, 1));
        assert(self.at(2, 1) == other.at(2, 1));
        assert(self.at(3, 1) == other.at(3, 1));
        assert(self.at(1, 2) == other.at(1, 2));
        assert(self.at(2, 2) == other.at(2, 2));
        assert(self.at(3, 2) == other.at(3, 2));
        assert(self.at(1, 3) == other.at(1, 3));
        assert(self.at(2, 3) == other.at(2, 3));
        assert(self.at(3, 3) == other.at(3, 3));
        assert(self.m =~= other.m);
    }

    /// Transposing twice gives the matrix back.
    pub proof fn lemma_transpose_involution(self)
        ensures
            self.transposed().transposed() == self,
    {
        assert(self.transposed().transposed().m =~= self.m);
    }
}

impl<T: Scalar> Matrix3<T> {
    /// The identity matrix: ones on the diagonal, zeros elsewhere.
    pub open spec fn identity() -> Matrix3<T> {
        Self::tabulate(
            |row: int, col: int|
                if row == col {
                    num::<T>(1)
                } else {
                    num::<T>(0)
                },
        )
    }

    /// Creates the identity matrix.
    pub fn new() -> (a: Matrix3<T>)
        ensures
            converts::<T>() ==> a == Self::identity(),
    {
        let o: T = constant(0);
        let i: T = constant(1);
        let a = Matrix3 { m: [i, o, o, o, i, o, o, o, i] };
        assert(converts::<T>() ==> a.m =~= Self::identity().m);
        a
    }

    /// The term of the determinant that belongs to column `col`: the element
    /// of the first row in that column, times the determinant of its minor.
    pub open spec fn expansion_term(self, col: int) -> T {
        self.at(1, col).mul_spec(self.minor(1, col).determinant_spec())
    }

    /// The determinant, expanded along the first row: the term of the first
    /// column, minus that of the second, plus that of the third.
    pub open spec fn determinant_spec(self) -> T {
        self.expansion_term(1).sub_spec(self.expansion_term(2)).add_spec(self.expansion_term(3))
    }

    /// The operations of `determinant` accept their operands.
    pub open spec fn determinant_req(self) -> bool {
        if exact::<T>() {
            &&& forall|col: int|
                1 <= col <= 3 ==> {
                    &&& (#[trigger] self.minor(1, col)).determinant_req()
                    &&& self.at(1, col).mul_req(self.minor(1, col).determinant_spec())
                }
            &&& self.expansion_term(1).sub_req(self.expansion_term(2))
            &&& self.expansion_term(1).sub_spec(self.expansion_term(2)).add_req(
                self.expansion_term(3),
            )
        } else {
            total::<T>()
        }
    }

    /// Computes the determinant.
    pub fn determinant(&self) -> (d: T)
        requires
            self.determinant_req(),
        ensures
            exact::<T>() ==> d == self.determinant_spec(),
    {
        proof {
            if exact::<T>() {
                assert(self.minor(1, 1).determinant_req());
                assert(self.minor(1, 2).determinant_req());
                assert(self.minor(1, 3).determinant_req());
            }
        }
        self.m11() * (self.m22() * self.m33() - self.m23() * self.m32())
            - (self.m12() * (self.m21() * self.m33() - self.m23() * self.m31()))
            + (self.m13() * (self.m21() * self.m32() - self.m22() * self.m31()))
    }

    /// The determinant equals zero, so that the matrix has no inverse.
    pub open spec fn singular(self) -> bool {
        self.determinant_spec().eq_spec(&num::<T>(0))
    }

    /// The reciprocal of the determinant.
    pub open spec fn inv_det_spec(self) -> T {
        num::<T>(1).div_spec(self.determinant_spec())
    }

    /// The 2x2 matrix whose determinant is the element of the adjugate in row
    /// `row` and column `col`. It holds the elements of the minor that
    /// belongs to row `col` and column `row`, placed so that the determinant
    /// comes with the sign of the cofactor.
    pub open spec fn adjugate_minor(self, row: int, col: int) -> Matrix2<T> {
        if row == 1 && col == 1 {
            Matrix2 { m: [self.at(2, 2), self.at(2, 3), self.at(3, 2), self.at(3, 3)] }
        } else if row == 2 && col == 1 {
            Matrix2 { m: [self.at(2, 3), self.at(2, 1), self.at(3, 3), self.at(3, 1)] }
        } else if row == 3 && col == 1 {
            Matrix2 { m: [self.at(2, 1), self.at(2, 2), self.at(3, 1), self.at(3, 2)] }
        } else if row == 1 && col == 2 {
            Matrix2 { m: [self.at(1, 3), self.at(1, 2), self.at(3, 3), self.at(3, 2)] }
        } else if row == 2 && col == 2 {
            Matrix2 { m: [self.at(1, 1), self.at(1, 3), self.at(3, 1), self.at(3, 3)] }
        } else if row == 3 && col == 2 {
            Matrix2 { m: [self.at(1, 2), self.at(1, 1), self.at(3, 2), self.at(3, 1)] }
        } else if row == 1 && col == 3 {
            Matrix2 { m: [self.at(1, 2), self.at(1, 3), self.at(2, 2), self.at(2, 3)] }
        } else if row == 2 && col == 3 {
            Matrix2 { m: [self.at(1, 3), self.at(1, 1), self.at(2, 3), self.at(2, 1)] }
        } else {
            Matrix2 { m: [self.at(1, 1), self.at(1, 2), self.at(2, 1), self.at(2, 2)] }
        }
    }

    /// The inverse: the adjugate, every element multiplied by the
    /// reciprocal of the determinant.
    pub open spec fn inverse_spec(self) -> Matrix3<T> {
        Self::tabulate(
            |row: int, col: int|
                self.adjugate_minor(row, col).determinant_spec().mul_spec(self.inv_det_spec()),
        )
    }

    /// The operations of `inverse` accept their operands.
    pub open spec fn inverse_req(self) -> bool {
        if exact::<T>() {
            &&& self.determinant_req()
            &&& !self.singular() ==> {
                &&& num::<T>(1).div_req(self.determinant_spec())
                &&& forall|row: int, col: int|
                    1 <= row <= 3 && 1 <= col <= 3 ==> {
                        &&& (#[trigger] self.adjugate_minor(row, col)).determinant_req()
                        &&& self.adjugate_minor(row, col).determinant_spec().mul_req(
                            self.inv_det_spec(),
                        )
                    }
            }
        } else {
            total::<T>()
        }
    }

    /// Replaces the matrix by its inverse and returns `true`, unless the
    /// determinant equals zero: then the matrix stays as it is and the result
    /// is `false`.
    pub fn inverse(&mut self) -> (ok: bool)
        requires
            old(self).inverse_req(),
        ensures
            !ok ==> *final(self) == *old(self),
            exact::<T>() ==> ok == !old(self).singular(),
            exact::<T>() && ok ==> *final(self) == old(self).inverse_spec(),
    {
        let det = self.determinant();
        let zero: T = constant(0);
        if det == zero {
            return false;
        }
        let one: T = constant(1);
        let inv_det = one / det;
        proof {
            if exact::<T>() {
                let k = self.inv_det_spec();
                assert(self.adjugate_minor(1, 1).determinant_req());
                assert(self.adjugate_minor(1, 1).determinant_spec().mul_req(k));
                assert(self.adjugate_minor(2, 1).determinant_req());
                assert(self.adjugate_minor(2, 1).determinant_spec().mul_req(k));
                assert(self.adjugate_minor(3, 1).determinant_req());
                assert(self.adjugate_minor(3, 1).determinant_spec().mul_req(k));
                assert(self.adjugate_minor(1, 2).determinant_req());
                assert(self.adjugate_minor(1, 2).determinant_spec().mul_req(k));
                assert(self.adjugate_minor(2, 2).determinant_req());
                assert(self.adjugate_minor(2, 2).determinant_spec().mul_req(k));
                assert(self.adjugate_minor(3, 2).determinant_req());
                assert(self.adjugate_minor(3, 2).determinant_spec().mul_req(k));
                assert(self.adjugate_minor(1, 3).determinant_req());
                assert(self.adjugate_minor(1, 3).determinant_spec().mul_req(k));
                assert(self.adjugate_minor(2, 3).determinant_req());
                assert(self.adjugate_minor(2, 3).determinant_spec().mul_req(k));
                assert(self.adjugate_minor(3, 3).determinant_req());
                assert(self.adjugate_minor(3, 3).determinant_spec().mul_req(k));
            }
        }
        let m11 =
            Matrix2::make(self.m22(), self.m23(), self.m32(), self.m33()).determinant() * inv_det;
        let m21 =
            Matrix2::make(self.m23(), self.m21(), self.m33(), self.m31()).determinant() * inv_det;
        let m31 =
            Matrix2::make(self.m21(), self.m22(), self.m31(), self.m32()).determinant() * inv_det;
        let m12 =
            Matrix2::make(self.m13(), self.m12(), self.m33(), self.m32()).determinant() * inv_det;
        let m22 =
            Matrix2::make(self.m11(), self.m13(), self.m31(), self.m33()).determinant() * inv_det;
        let m32 =
            Matrix2::make(self.m12(), self.m11(), self.m32(), self.m31()).determinant() * inv_det;
        let m13 =
            Matrix2::make(self.m12(), self.m13(), self.m22(), self.m23()).determinant() * inv_det;
        let m23 =
            Matrix2::make(self.m13(), self.m11(), self.m23(), self.m21()).determinant() * inv_det;
        let m33 =
            Matrix2::make(self.m11(), self.m12(), self.m21(), self.m22()).determinant() * inv_det;

        self.set_m11(m11);
        self.set_m21(m21);
        self.set_m31(m31);
        self.set_m12(m12);
        self.set_m22(m22);
        self.set_m32(m32);
        self.set_m13(m13);
        self.set_m23(m23);
        self.set_m33(m33);
        assert(exact::<T>() ==> self.m =~= old(self).inverse_spec().m);
        true
    }
}

impl<T: Scalar> Neg for Matrix3<T> {
    type Output = Matrix3<T>;

    /// Negates every element.
    fn neg(self) -> (a: Matrix3<T>) {
        let mut m = self.m;
        let mut i: usize = 0;
        while i < 9
            invariant
                i <= 9,
                forall|j: int| 0 <= j < 9 ==> (#[trigger] self.m@[j]).neg_req(),
                forall|j: int| 0 <= j < i && T::obeys_neg_spec() ==> m@[j] == self.m@[j].neg_spec(),
                forall|j: int| i <= j < 9 ==> m@[j] == self.m@[j],
            decreases 9 - i,
        {
            m[i] = self.m[i].neg();
            i += 1;
        }
        assert(T::obeys_neg_spec() ==> m =~= self.map(|x: T| x.neg_spec()).m);
        Matrix3 { m }
    }
}

impl<T: Scalar> vstd::std_specs::ops::NegSpecImpl for Matrix3<T> {
    open spec fn obeys_neg_spec() -> bool {
        T::obeys_neg_spec()
    }

    open spec fn neg_req(self) -> bool {
        forall|i: int| 0 <= i < 9 ==> (#[trigger] self.m@[i]).neg_req()
    }

    open spec fn neg_spec(self) -> Matrix3<T> {
        self.map(|x: T| x.neg_spec())
    }
}

impl<T: Scalar> Add<T> for Matrix3<T> {
    type Output = Matrix3<T>;

    /// Adds `rhs` to every element.
    fn add(self, rhs: T) -> (a: Matrix3<T>) {
        let mut m = self.m;
        let mut i: usize = 0;
        while i < 9
            invariant
                i <= 9,
                forall|j: int| 0 <= j < 9 ==> (#[trigger] self.m@[j]).add_req(rhs),
                forall|j: int|
                    0 <= j < i && T::obeys_add_spec() ==> m@[j] == self.m@[j].add_spec(rhs),
                forall|j: int| i <= j < 9 ==> m@[j] == self.m@[j],
            decreases 9 - i,
        {
            m[i] = self.m[i] + rhs;
            i += 1;
        }
        assert(T::obeys_add_spec() ==> m =~= self.map(|x: T| x.add_spec(rhs)).m);
        Matrix3 { m }
    }
}

impl<T: Scalar> vstd::std_specs::ops::AddSpecImpl<T> for Matrix3<T> {
    open spec fn obeys_add_spec() -> bool {
        T::obeys_add_spec()
    }

    open spec fn add_req(self, rhs: T) -> bool {
        forall|i: int| 0 <= i < 9 ==> (#[trigger] self.m@[i]).add_req(rhs)
    }

    open spec fn add_spec(self, rhs: T) -> Matrix3<T> {
        self.map(|x: T| x.add_spec(rhs))
    }
}

impl<T: Scalar> AddAssign<T> for Matrix3<T> {
    /// Adds `rhs` to every element. The result replaces `self`.
    fn add_assign(&mut self, rhs: T)
        requires
            old(self).add_req(rhs),
        ensures
            T::obeys_add_spec() ==> *final(self) == old(self).add_spec(rhs),
    {
        let mut i: usize = 0;
        while i < 9
            invariant
                i <= 9,
                forall|j: int| 0 <= j < 9 ==> (#[trigger] old(self).m@[j]).add_req(rhs),
                forall|j: int|
                    0 <= j < i && T::obeys_add_spec() ==> self.m@[j] == old(self).m@[j].add_spec(
                        rhs,
                    ),
                forall|j: int| i <= j < 9 ==> self.m@[j] == old(self).m@[j],
            decreases 9 - i,
        {
            self.m[i] = self.m[i] + rhs;
            i += 1;
        }
        assert(T::obeys_add_spec() ==> self.m =~= old(self).add_spec(rhs).m);
    }
}

impl<T: Scalar> Add<Matrix3<T>> for Matrix3<T> {
    type Output = Matrix3<T>;

    /// Adds the matrices element by element.
    fn add(self, rhs: Matrix3<T>) -> (a: Matrix3<T>) {
        let mut m = self.m;
        let mut i: usize = 0;
        while i < 9
            invariant
                i <= 9,
                forall|j: int| 0 <= j < 9 ==> (#[trigger] self.m@[j]).add_req(rhs.m@[j]),
                forall|j: int|
                    0 <= j < i && T::obeys_add_spec() ==> m@[j] == self.m@[j].add_spec(rhs.m@[j]),
                forall|j: int| i <= j < 9 ==> m@[j] == self.m@[j],
            decreases 9 - i,
        {
            m[i] = self.m[i] + rhs.m[i];
            i += 1;
        }
        assert(T::obeys_add_spec() ==> m =~= self.zip(rhs, |x: T, y: T| x.add_spec(y)).m);
        Matrix3 { m }
    }
}

impl<T: Scalar> vstd::std_specs::ops::AddSpecImpl<Matrix3<T>> for Matrix3<T> {
    open spec fn obeys_add_spec() -> bool {
        T::obeys_add_spec()
    }

    open spec fn add_req(self, rhs: Matrix3<T>) -> bool {
        forall|i: int| 0 <= i < 9 ==> (#[trigger] self.m@[i]).add_req(rhs.m@[i])
    }

    open spec fn add_spec(self, rhs: Matrix3<T>) -> Matrix3<T> {
        self.zip(rhs, |x: T, y: T| x.add_spec(y))
    }
}

impl<T: Scalar> AddAssign<Matrix3<T>> for Matrix3<T> {
    /// Adds the matrices element by element. The result replaces `self`.
    fn add_assign(&mut self, rhs: Matrix3<T>)
        requires
            old(self).add_req(rhs),
        ensures
            T::obeys_add_spec() ==> *final(self) == old(self).add_spec(rhs),
    {
        let mut i: usize = 0;
        while i < 9
            invariant
                i <= 9,
                forall|j: int| 0 <= j < 9 ==> (#[trigger] old(self).m@[j]).add_req(rhs.m@[j]),
                forall|j: int|
                    0 <= j < i && T::obeys_add_spec() ==> self.m@[j] == old(self).m@[j].add_spec(
                        rhs.m@[j],
                    ),
                forall|j: int| i <= j < 9 ==> self.m@[j] == old(self).m@[j],
            decreases 9 - i,
        {
            self.m[i] = self.m[i] + rhs.m[i];
            i += 1;
        }
        assert(T::obeys_add_spec() ==> self.m =~= old(self).add_spec(rhs).m);
    }
}

impl<T: Scalar> Sub<T> for Matrix3<T> {
    type Output = Matrix3<T>;

    /// Subtracts `rhs` from every element.
    fn sub(self, rhs: T) -> (a: Matrix3<T>) {
        let mut m = self.m;
        let mut i: usize = 0;
        while i < 9
            invariant
                i <= 9,
                forall|j: int| 0 <= j < 9 ==> (#[trigger] self.m@[j]).sub_req(rhs),
                forall|j: int|
                    0 <= j < i && T::obeys_sub_spec() ==> m@[j] == self.m@[j].sub_spec(rhs),
                forall|j: int| i <= j < 9 ==> m@[j] == self.m@[j],
            decreases 9 - i,
        {
            m[i] = self.m[i] - rhs;
            i += 1;
        }
        assert(T::obeys_sub_spec() ==> m =~= self.map(|x: T| x.sub_spec(rhs)).m);
        Matrix3 { m }
    }
}

impl<T: Scalar> vstd::std_specs::ops::SubSpecImpl<T> for Matrix3<T> {
    open spec fn obeys_sub_spec() -> bool {
        T::obeys_sub_spec()
    }

    open spec fn sub_req(self, rhs: T) -> bool {
        forall|i: int| 0 <= i < 9 ==> (#[trigger] self.m@[i]).sub_req(rhs)
    }

    open spec fn sub_spec(self, rhs: T) -> Matrix3<T> {
        self.map(|x: T| x.sub_spec(rhs))
    }
}

impl<T: Scalar> SubAssign<T> for Matrix3<T> {
    /// Subtracts `rhs` from every element. The result replaces `self`.
    fn sub_assign(&mut self, rhs: T)
        requires
            old(self).sub_req(rhs),
        ensures
            T::obeys_sub_spec() ==> *final(self) == old(self).sub_spec(rhs),
    {
        let mut i: usize = 0;
        while i < 9
            invariant
                i <= 9,
                forall|j: int| 0 <= j < 9 ==> (#[trigger] old(self).m@[j]).sub_req(rhs),
                forall|j: int|
                    0 <= j < i && T::obeys_sub_spec() ==> self.m@[j] == old(self).m@[j].sub_spec(
                        rhs,
                    ),
                forall|j: int| i <= j < 9 ==> self.m@[j] == old(self).m@[j],
            decreases 9 - i,
        {
            self.m[i] = self.m[i] - rhs;
            i += 1;
        }
        assert(T::obeys_sub_spec() ==> self.m =~= old(self).sub_spec(rhs).m);
    }
}

impl<T: Scalar> Sub<Matrix3<T>> for Matrix3<T> {
    type Output = Matrix3<T>;

    /// Subtracts `rhs` element by element.
    fn sub(self, rhs: Matrix3<T>) -> (a: Matrix3<T>) {
        let mut m = self.m;
        let mut i: usize = 0;
        while i < 9
            invariant
                i <= 9,
                forall|j: int| 0 <= j < 9 ==> (#[trigger] self.m@[j]).sub_req(rhs.m@[j]),
                forall|j: int|
                    0 <= j < i && T::obeys_sub_spec() ==> m@[j] == self.m@[j].sub_spec(rhs.m@[j]),
                forall|j: int| i <= j < 9 ==> m@[j] == self.m@[j],
            decreases 9 - i,
        {
            m[i] = self.m[i] - rhs.m[i];
            i += 1;
        }
        assert(T::obeys_sub_spec() ==> m =~= self.zip(rhs, |x: T, y: T| x.sub_spec(y)).m);
        Matrix3 { m }
    }
}

impl<T: Scalar> vstd::std_specs::ops::SubSpecImpl<Matrix3<T>> for Matrix3<T> {
    open spec fn obeys_sub_spec() -> bool {
        T::obeys_sub_spec()
    }

    open spec fn sub_req(self, rhs: Matrix3<T>) -> bool {
        forall|i: int| 0 <= i < 9 ==> (#[trigger] self.m@[i]).sub_req(rhs.m@[i])
    }

    open spec fn sub_spec(self, rhs: Matrix3<T>) -> Matrix3<T> {
        self.zip(rhs, |x: T, y: T| x.sub_spec(y))
    }
}

impl<T: Scalar> SubAssign<Matrix3<T>> for Matrix3<T> {
    /// Subtracts `rhs` element by element. The result replaces `self`.
    fn sub_assign(&mut self, rhs: Matrix3<T>)
        requires
            old(self).sub_req(rhs),
        ensures
            T::obeys_sub_spec() ==> *final(self) == old(self).sub_spec(rhs),
    {
        let mut i: usize = 0;
        while i < 9
            invariant
                i <= 9,
                forall|j: int| 0 <= j < 9 ==> (#[trigger] old(self).m@[j]).sub_req(rhs.m@[j]),
                forall|j: int|
                    0 <= j < i && T::obeys_sub_spec() ==> self.m@[j] == old(self).m@[j].sub_spec(
                        rhs.m@[j],
                    ),
                forall|j: int| i <= j < 9 ==> self.m@[j] == old(self).m@[j],
            decreases 9 - i,
        {
            self.m[i] = self.m[i] - rhs.m[i];
            i += 1;
        }
        assert(T::obeys_sub_spec() ==> self.m =~= old(self).sub_spec(rhs).m);
    }
}

impl<T: Scalar> Mul<T> for Matrix3<T> {
    type Output = Matrix3<T>;

    /// Multiplies every element by `rhs`.
    fn mul(self, rhs: T) -> (a: Matrix3<T>) {
        let mut m = self.m;
        let mut i: usize = 0;
        while i < 9
            invariant
                i <= 9,
                forall|j: int| 0 <= j < 9 ==> (#[trigger] self.m@[j]).mul_req(rhs),
                forall|j: int|
                    0 <= j < i && T::obeys_mul_spec() ==> m@[j] == self.m@[j].mul_spec(rhs),
                forall|j: int| i <= j < 9 ==> m@[j] == self.m@[j],
            decreases 9 - i,
        {
            m[i] = self.m[i] * rhs;
            i += 1;
        }
        assert(T::obeys_mul_spec() ==> m =~= self.map(|x: T| x.mul_spec(rhs)).m);
        Matrix3 { m }
    }
}

impl<T: Scalar> vstd::std_specs::ops::MulSpecImpl<T> for Matrix3<T> {
    open spec fn obeys_mul_spec() -> bool {
        T::obeys_mul_spec()
    }

    open spec fn mul_req(self, rhs: T) -> bool {
        forall|i: int| 0 <= i < 9 ==> (#[trigger] self.m@[i]).mul_req(rhs)
    }

    open spec fn mul_spec(self, rhs: T) -> Matrix3<T> {
        self.map(|x: T| x.mul_spec(rhs))
    }
}

impl<T: Scalar> MulAssign<T> for Matrix3<T> {
    /// Multiplies every element by `rhs`. The result replaces `self`.
    fn mul_assign(&mut self, rhs: T)
        requires
            old(self).mul_req(rhs),
        ensures
            T::obeys_mul_spec() ==> *final(self) == old(self).mul_spec(rhs),
    {
        let mut i: usize = 0;
        while i < 9
            invariant
                i <= 9,
                forall|j: int| 0 <= j < 9 ==> (#[trigger] old(self).m@[j]).mul_req(rhs),
                forall|j: int|
                    0 <= j < i && T::obeys_mul_spec() ==> self.m@[j] == old(self).m@[j].mul_spec(
                        rhs,
                    ),
                forall|j: int| i <= j < 9 ==> self.m@[j] == old(self).m@[j],
            decreases 9 - i,
        {
            self.m[i] = self.m[i] * rhs;
            i += 1;
        }
        assert(T::obeys_mul_spec() ==> self.m =~= old(self).mul_spec(rhs).m);
    }
}

impl<T: Scalar> Mul<Matrix3<T>> for Matrix3<T> {
    type Output = Matrix3<T>;

    /// The matrix product: the element in row `row` and column `col` is the
    /// dot product of that row of `self` with that column of `rhs`.
    fn mul(self, rhs: Matrix3<T>) -> (a: Matrix3<T>) {
        proof {
            if exact::<T>() {
                assert(Vector3::dot_req(self.row(1), rhs.col(1)));
                assert(Vector3::dot_req(self.row(2), rhs.col(1)));
                assert(Vector3::dot_req(self.row(3), rhs.col(1)));
                assert(Vector3::dot_req(self.row(1), rhs.col(2)));
                assert(Vector3::dot_req(self.row(2), rhs.col(2)));
                assert(Vector3::dot_req(self.row(3), rhs.col(2)));
                assert(Vector3::dot_req(self.row(1), rhs.col(3)));
                assert(Vector3::dot_req(self.row(2), rhs.col(3)));
                assert(Vector3::dot_req(self.row(3), rhs.col(3)));
            }
        }
        let m11 = self.m11() * rhs.m11() + self.m12() * rhs.m21() + self.m13() * rhs.m31();
        let m21 = self.m21() * rhs.m11() + self.m22() * rhs.m21() + self.m23() * rhs.m31();
        let m31 = self.m31() * rhs.m11() + self.m32() * rhs.m21() + self.m33() * rhs.m31();
        let m12 = self.m11() * rhs.m12() + self.m12() * rhs.m22() + self.m13() * rhs.m32();
        let m22 = self.m21() * rhs.m12() + self.m22() * rhs.m22() + self.m23() * rhs.m32();
        let m32 = self.m31() * rhs.m12() + self.m32() * rhs.m22() + self.m33() * rhs.m32();
        let m13 = self.m11() * rhs.m13() + self.m12() * rhs.m23() + self.m13() * rhs.m33();
        let m23 = self.m21() * rhs.m13() + self.m22() * rhs.m23() + self.m23() * rhs.m33();
        let m33 = self.m31() * rhs.m13() + self.m32() * rhs.m23() + self.m33() * rhs.m33();
        let a = Matrix3::make(m11, m21, m31, m12, m22, m32, m13, m23, m33);
        assert(exact::<T>() ==> a.m =~= Self::tabulate(
            |row: int, col: int| Vector3::dot_spec(self.row(row), rhs.col(col)),
        ).m);
        a
    }
}

impl<T: Scalar> vstd::std_specs::ops::MulSpecImpl<Matrix3<T>> for Matrix3<T> {
    open spec fn obeys_mul_spec() -> bool {
        exact::<T>()
    }

    open spec fn mul_req(self, rhs: Matrix3<T>) -> bool {
        if exact::<T>() {
            forall|row: int, col: int|
                1 <= row <= 3 && 1 <= col <= 3 ==> Vector3::dot_req(
                    #[trigger] self.row(row),
                    #[trigger] rhs.col(col),
                )
        } else {
            total::<T>()
        }
    }

    open spec fn mul_spec(self, rhs: Matrix3<T>) -> Matrix3<T> {
        Self::tabulate(|row: int, col: int| Vector3::dot_spec(self.row(row), rhs.col(col)))
    }
}

impl<T: Scalar> MulAssign<Matrix3<T>> for Matrix3<T> {
    /// Multiplies the matrix by `rhs` from the right.
    fn mul_assign(&mut self, rhs: Matrix3<T>)
        requires
            old(self).mul_req(rhs),
        ensures
            exact::<T>() ==> *final(self) == old(self).mul_spec(rhs),
    {
        let res = *self * rhs;
        self.m = res.m;
    }
}

impl<T: Scalar> Div<T> for Matrix3<T> {
    type Output = Matrix3<T>;

    /// Divides every element by `rhs`.
    fn div(self, rhs: T) -> (a: Matrix3<T>) {
        let mut m = self.m;
        let mut i: usize = 0;
        while i < 9
            invariant
                i <= 9,
                forall|j: int| 0 <= j < 9 ==> (#[trigger] self.m@[j]).div_req(rhs),
                forall|j: int|
                    0 <= j < i && T::obeys_div_spec() ==> m@[j] == self.m@[j].div_spec(rhs),
                forall|j: int| i <= j < 9 ==> m@[j] == self.m@[j],
            decreases 9 - i,
        {
            m[i] = self.m[i] / rhs;
            i += 1;
        }
        assert(T::obeys_div_spec() ==> m =~= self.map(|x: T| x.div_spec(rhs)).m);
        Matrix3 { m }
    }
}

impl<T: Scalar> vstd::std_specs::ops::DivSpecImpl<T> for Matrix3<T> {
    open spec fn obeys_div_spec() -> bool {
        T::obeys_div_spec()
    }

    open spec fn div_req(self, rhs: T) -> bool {
        forall|i: int| 0 <= i < 9 ==> (#[trigger] self.m@[i]).div_req(rhs)
    }

    open spec fn div_spec(self, rhs: T) -> Matrix3<T> {
        self.map(|x: T| x.div_spec(rhs))
    }
}

impl<T: Scalar> DivAssign<T> for Matrix3<T> {
    /// Divides every element by `rhs`. The result replaces `self`.
    fn div_assign(&mut self, rhs: T)
        requires
            old(self).div_req(rhs),
        ensures
            T::obeys_div_spec() ==> *final(self) == old(self).div_spec(rhs),
    {
        let mut i: usize = 0;
        while i < 9
            invariant
                i <= 9,
                forall|j: int| 0 <= j < 9 ==> (#[trigger] old(self).m@[j]).div_req(rhs),
                forall|j: int|
                    0 <= j < i && T::obeys_div_spec() ==> self.m@[j] == old(self).m@[j].div_spec(
                        rhs,
                    ),
                forall|j: int| i <= j < 9 ==> self.m@[j] == old(self).m@[j],
            decreases 9 - i,
        {
            self.m[i] = self.m[i] / rhs;
            i += 1;
        }
        assert(T::obeys_div_spec() ==> self.m =~= old(self).div_spec(rhs).m);
    }
}

impl<T: Scalar> PartialEq for Matrix3<T> {
    /// Compares the matrices element by element.
    fn eq(&self, rhs: &Matrix3<T>) -> (r: bool) {
        let mut i: usize = 0;
        while i < 9
            invariant
                i <= 9,
                forall|j: int| 0 <= j < i && T::obeys_eq_spec() ==> self.m@[j].eq_spec(&rhs.m@[j]),
            decreases 9 - i,
        {
            if self.m[i] != rhs.m[i] {
                return false;
            }
            i += 1;
        }
        true
    }
}

impl<T: Scalar> vstd::std_specs::cmp::PartialEqSpecImpl for Matrix3<T> {
    open spec fn obeys_eq_spec() -> bool {
        T::obeys_eq_spec()
    }

    open spec fn eq_spec(&self, rhs: &Matrix3<T>) -> bool {
        forall|i: int| 0 <= i < 9 ==> (#[trigger] self.m@[i]).eq_spec(&rhs.m@[i])
    }
}

impl<T: Scalar> Matrix3<T> {
    /// The first two elements of the row `row`: the linear part of the row.
    pub open spec fn linear_row(self, row: int) -> Vector2<T> {
        Vector2 { x: self.at(row, 1), y: self.at(row, 2) }
    }

    /// The coordinate `row` of the image of `point` under the affine map:
    /// the dot product of the linear part of the row with the point, plus the
    /// last element of the row.
    pub open spec fn affine_spec(self, row: int, point: Vector2<T>) -> T {
        Vector2::dot_spec(self.linear_row(row), point).add_spec(self.at(row, 3))
    }

    /// The operations of `affine_spec` accept their operands.
    pub open spec fn affine_req(self, row: int, point: Vector2<T>) -> bool {
        &&& Vector2::dot_req(self.linear_row(row), point)
        &&& exact::<T>() ==> Vector2::dot_spec(self.linear_row(row), point).add_req(self.at(row, 3))
    }
}

impl<T: Scalar> TransformPoint<Vector2<T>> for Matrix3<T> {
    open spec fn obeys_transform_spec() -> bool {
        exact::<T>()
    }

    open spec fn transform_req(&self, point: &Vector2<T>) -> bool {
        &&& self.affine_req(1, *point)
        &&& self.affine_req(2, *point)
    }

    /// The image of `point` under the affine map: the point gets a last
    /// coordinate of one, and the last row of the matrix is left out.
    open spec fn transform_spec(&self, point: &Vector2<T>) -> Vector2<T> {
        Vector2 { x: self.affine_spec(1, *point), y: self.affine_spec(2, *point) }
    }

    fn transform_point(&self, point: &Vector2<T>) -> (r: Vector2<T>) {
        Vector2::make(
            self.m11() * point.x + self.m12() * point.y + self.m13(),
            self.m21() * point.x + self.m22() * point.y + self.m23(),
        )
    }
}

impl<T: Scalar> TransformPoint<Vector3<T>> for Matrix3<T> {
    open spec fn obeys_transform_spec() -> bool {
        exact::<T>()
    }

    open spec fn transform_req(&self, point: &Vector3<T>) -> bool {
        &&& Vector3::dot_req(self.row(1), *point)
        &&& Vector3::dot_req(self.row(2), *point)
        &&& Vector3::dot_req(self.row(3), *point)
    }

    /// The product of the matrix with the column vector `point`.
    open spec fn transform_spec(&self, point: &Vector3<T>) -> Vector3<T> {
        Vector3 {
            x: Vector3::dot_spec(self.row(1), *point),
            y: Vector3::dot_spec(self.row(2), *point),
            z: Vector3::dot_spec(self.row(3), *point),
        }
    }

    fn transform_point(&self, point: &Vector3<T>) -> (r: Vector3<T>) {
        Vector3::make(
            self.m11() * point.x + self.m12() * point.y + self.m13() * point.z,
            self.m21() * point.x + self.m22() * point.y + self.m23() * point.z,
            self.m31() * point.x + self.m32() * point.y + self.m33() * point.z,
        )
    }
}

impl<T: Scalar> Matrix3<T> {
    /// The row vector `a` times the matrix: the dot products of `a` with the
    /// columns.
    pub open spec fn row_times(self, a: Vector3<T>) -> Vector3<T> {
        Vector3 {
            x: Vector3::dot_spec(a, self.col(1)),
            y: Vector3::dot_spec(a, self.col(2)),
            z: Vector3::dot_spec(a, self.col(3)),
        }
    }

    /// The matrix times the column vector `c`: the dot products of the rows
    /// with `c`.
    pub open spec fn times_col(self, c: Vector3<T>) -> Vector3<T> {
        Vector3 {
            x: Vector3::dot_spec(self.row(1), c),
            y: Vector3::dot_spec(self.row(2), c),
            z: Vector3::dot_spec(self.row(3), c),
        }
    }

    /// A row vector, a matrix and a column vector can be multiplied in either
    /// order: `(a * self) * c == a * (self * c)`, where the components form a
    /// commutative ring.
    pub proof fn lemma_dot_associative(self, a: Vector3<T>, c: Vector3<T>)
        requires
            ring_laws::<T>(),
        ensures
            Vector3::dot_spec(self.row_times(a), c) == Vector3::dot_spec(a, self.times_col(c)),
    {
        let u1 = a.mul_spec(self.col(1)).mul_spec(c.x);
        let u2 = a.mul_spec(self.col(2)).mul_spec(c.y);
        let u3 = a.mul_spec(self.col(3)).mul_spec(c.z);
        Vector3::lemma_dot_is_sum(a, self.col(1));
        Vector3::lemma_sum_times(a.mul_spec(self.col(1)), c.x);
        Vector3::lemma_dot_is_sum(a, self.col(2));
        Vector3::lemma_sum_times(a.mul_spec(self.col(2)), c.y);
        Vector3::lemma_dot_is_sum(a, self.col(3));
        Vector3::lemma_sum_times(a.mul_spec(self.col(3)), c.z);
        Vector3::lemma_sum_add(u1, u2);
        Vector3::lemma_sum_add(u1.add_spec(u2), u3);
        Vector3::lemma_dot_is_sum(self.row(1), c);
        Vector3::lemma_times_sum(a.x, self.row(1).mul_spec(c));
        Vector3::lemma_dot_is_sum(self.row(2), c);
        Vector3::lemma_times_sum(a.y, self.row(2).mul_spec(c));
        Vector3::lemma_dot_is_sum(self.row(3), c);
        Vector3::lemma_times_sum(a.z, self.row(3).mul_spec(c));
        lemma_mul_associative(a.x, self.at(1, 1), c.x);
        lemma_mul_associative(a.x, self.at(1, 2), c.y);
        lemma_mul_associative(a.x, self.at(1, 3), c.z);
        lemma_mul_associative(a.y, self.at(2, 1), c.x);
        lemma_mul_associative(a.y, self.at(2, 2), c.y);
        lemma_mul_associative(a.y, self.at(2, 3), c.z);
        lemma_mul_associative(a.z, self.at(3, 1), c.x);
        lemma_mul_associative(a.z, self.at(3, 2), c.y);
        lemma_mul_associative(a.z, self.at(3, 3), c.z);
        let v = u1.add_spec(u2).add_spec(u3);
        assert(v.x == a.x.mul_spec(Vector3::dot_spec(self.row(1), c)));
        assert(v.y == a.y.mul_spec(Vector3::dot_spec(self.row(2), c)));
        assert(v.z == a.z.mul_spec(Vector3::dot_spec(self.row(3), c)));
    }

    /// The matrix product is associative: `(a * b) * c == a * (b * c)`, where
    /// the components form a commutative ring.
    pub proof fn lemma_product_associative(a: Matrix3<T>, b: Matrix3<T>, c: Matrix3<T>)
        requires
            ring_laws::<T>(),
        ensures
            a.mul_spec(b).mul_spec(c) == a.mul_spec(b.mul_spec(c)),
    {
        let l = a.mul_spec(b).mul_spec(c);
        let r = a.mul_spec(b.mul_spec(c));
        assert(a.mul_spec(b).row(1) == b.row_times(a.row(1)));
        assert(a.mul_spec(b).row(2) == b.row_times(a.row(2)));
        assert(a.mul_spec(b).row(3) == b.row_times(a.row(3)));
        assert(b.mul_spec(c).col(1) == b.times_col(c.col(1)));
        assert(b.mul_spec(c).col(2) == b.times_col(c.col(2)));
        assert(b.mul_spec(c).col(3) == b.times_col(c.col(3)));
        b.lemma_dot_associative(a.row(1), c.col(1));
        b.lemma_dot_associative(a.row(2), c.col(1));
        b.lemma_dot_associative(a.row(3), c.col(1));
        b.lemma_dot_associative(a.row(1), c.col(2));
        b.lemma_dot_associative(a.row(2), c.col(2));
        b.lemma_dot_associative(a.row(3), c.col(2));
        b.lemma_dot_associative(a.row(1), c.col(3));
        b.lemma_dot_associative(a.row(2), c.col(3));
        b.lemma_dot_associative(a.row(3), c.col(3));
        assert(l.at(1, 1) == r.at(1, 1));
        assert(l.at(2, 1) == r.at(2, 1));
        assert(l.at(3, 1) == r.at(3, 1));
        assert(l.at(1, 2) == r.at(1, 2));
        assert(l.at(2, 2) == r.at(2, 2));
        assert(l.at(3, 2) == r.at(3, 2));
        assert(l.at(1, 3) == r.at(1, 3));
        assert(l.at(2, 3) == r.at(2, 3));
        assert(l.at(3, 3) == r.at(3, 3));
        assert(l.m =~= r.m);
    }
}

impl<T: Scalar> Matrix3<T> {
    /// The determinant is the triple product of the rows.
    pub proof fn lemma_determinant_is_triple(self)
        requires
            ring_laws::<T>(),
            ring_units::<T>(),
        ensures
            self.determinant_spec() == Vector3::triple_spec(self.row(1), self.row(2), self.row(3)),
    {
        let x = Vector3::cross_spec(self.row(2), self.row(3));
        let d = self.minor(1, 2).determinant_spec();
        assert(self.minor(1, 1).determinant_spec() == x.x);
        assert(self.minor(1, 3).determinant_spec() == x.z);
        // the term of the second column is taken away, and the second
        // component of the cross product is the negative of its minor
        lemma_neg_sub(self.at(2, 3).mul_spec(self.at(3, 1)), self.at(2, 1).mul_spec(self.at(3, 3)));
        assert(x.y == d.neg_spec());
        lemma_neg_mul(d, self.at(1, 2));
        lemma_sub_is_add_neg(self.expansion_term(1), self.expansion_term(2));
    }

    /// The triple product of the columns is that of the rows.
    pub proof fn lemma_triple_transposed(self)
        requires
            ring_laws::<T>(),
            ring_units::<T>(),
        ensures
            Vector3::triple_spec(self.col(1), self.col(2), self.col(3)) == Vector3::triple_spec(
                self.row(1),
                self.row(2),
                self.row(3),
            ),
    {
        let (a, b, c) = (self.at(1, 1), self.at(1, 2), self.at(1, 3));
        let (d, e, f) = (self.at(2, 1), self.at(2, 2), self.at(2, 3));
        let (g, h, i) = (self.at(3, 1), self.at(3, 2), self.at(3, 3));
        let a0 = a.mul_spec(e.mul_spec(i));
        let a1 = a.mul_spec(f.mul_spec(h));
        let a2 = b.mul_spec(f.mul_spec(g));
        let a3 = b.mul_spec(d.mul_spec(i));
        let a4 = c.mul_spec(d.mul_spec(h));
        let a5 = c.mul_spec(e.mul_spec(g));
        Vector3::lemma_triple_expanded(self.row(1), self.row(2), self.row(3));
        Vector3::lemma_triple_expanded(self.col(1), self.col(2), self.col(3));
        lemma_mul_commutative(h, f);
        lemma_mul_rotate(d, h, c);
        lemma_mul_swap(d, b, i);
        lemma_mul_swap(g, b, f);
        lemma_mul_commutative(g, f);
        lemma_mul_rotate(g, e, c);
        lemma_mul_commutative(g, e);
        let x = a0.sub_spec(a1);
        assert(Vector3::triple_spec(self.col(1), self.col(2), self.col(3)) == x.add_spec(
            a4.sub_spec(a3),
        ).add_spec(a2.sub_spec(a5)));
        lemma_add_associative(x, a4.sub_spec(a3), a2.sub_spec(a5));
        lemma_minuends_exchange(a4, a3, a2, a5);
        lemma_add_associative(x, a2.sub_spec(a3), a4.sub_spec(a5));
    }

    /// The determinant of the transposed matrix is that of the matrix, where
    /// the components form a commutative ring.
    pub proof fn lemma_determinant_transposed(self)
        requires
            ring_laws::<T>(),
            ring_units::<T>(),
        ensures
            self.transposed().determinant_spec() == self.determinant_spec(),
    {
        let t = self.transposed();
        t.lemma_determinant_is_triple();
        self.lemma_determinant_is_triple();
        self.lemma_triple_transposed();
        assert(t.row(1) == self.col(1));
        assert(t.row(2) == self.col(2));
        assert(t.row(3) == self.col(3));
    }

    /// The column `col` of the adjugate is the cross product of the two rows
    /// that follow the row `col`, the first row following the third.
    proof fn lemma_adjugate_columns(self)
        requires
            ring_laws::<T>(),
        ensures
            forall|row: int|
                1 <= row <= 3 ==> #[trigger] self.adjugate_minor(row, 1).determinant_spec()
                    == Vector3::cross_spec(self.row(2), self.row(3))@[row - 1],
            forall|row: int|
                1 <= row <= 3 ==> #[trigger] self.adjugate_minor(row, 2).determinant_spec()
                    == Vector3::cross_spec(self.row(3), self.row(1))@[row - 1],
            forall|row: int|
                1 <= row <= 3 ==> #[trigger] self.adjugate_minor(row, 3).determinant_spec()
                    == Vector3::cross_spec(self.row(1), self.row(2))@[row - 1],
    {
        lemma_mul_commutative(self.at(3, 2), self.at(2, 3));
        lemma_mul_commutative(self.at(3, 3), self.at(2, 1));
        lemma_mul_commutative(self.at(3, 1), self.at(2, 2));
        lemma_mul_commutative(self.at(1, 3), self.at(3, 2));
        lemma_mul_commutative(self.at(1, 1), self.at(3, 3));
        lemma_mul_commutative(self.at(1, 2), self.at(3, 1));
        lemma_mul_commutative(self.at(2, 2), self.at(1, 3));
        lemma_mul_commutative(self.at(2, 3), self.at(1, 1));
        lemma_mul_commutative(self.at(2, 1), self.at(1, 2));
    }

    /// A matrix times its inverse is the identity matrix, where the
    /// components form a commutative ring and the determinant times its
    /// reciprocal is one.
    pub proof fn lemma_times_inverse(self)
        requires
            ring_laws::<T>(),
            ring_units::<T>(),
            self.determinant_spec().mul_spec(self.inv_det_spec()) == num::<T>(1),
        ensures
            self.mul_spec(self.inverse_spec()) == Self::identity(),
    {
        let (r1, r2, r3) = (self.row(1), self.row(2), self.row(3));
        let x1 = Vector3::cross_spec(r2, r3);
        let x2 = Vector3::cross_spec(r3, r1);
        let x3 = Vector3::cross_spec(r1, r2);
        let k = self.inv_det_spec();
        let o = num::<T>(0);
        let inv = self.inverse_spec();
        let p = self.mul_spec(inv);
        self.lemma_adjugate_columns();
        assert(inv.col(1) == x1.mul_spec(k));
        assert(inv.col(2) == x2.mul_spec(k));
        assert(inv.col(3) == x3.mul_spec(k));
        Vector3::lemma_dot_scaled(r1, x1, k);
        Vector3::lemma_dot_scaled(r2, x1, k);
        Vector3::lemma_dot_scaled(r3, x1, k);
        Vector3::lemma_dot_scaled(r1, x2, k);
        Vector3::lemma_dot_scaled(r2, x2, k);
        Vector3::lemma_dot_scaled(r3, x2, k);
        Vector3::lemma_dot_scaled(r1, x3, k);
        Vector3::lemma_dot_scaled(r2, x3, k);
        Vector3::lemma_dot_scaled(r3, x3, k);
        self.lemma_determinant_is_triple();
        Vector3::lemma_triple_cyclic(r1, r2, r3);
        Vector3::lemma_triple_cyclic(r2, r3, r1);
        Vector3::lemma_triple_repeated(r2, r3);
        Vector3::lemma_triple_repeated(r3, r1);
        Vector3::lemma_triple_repeated(r1, r2);
        lemma_neg_mul(o, k);
        assert(p.at(1, 1) == num::<T>(1));
        assert(p.at(2, 1) == o);
        assert(p.at(3, 1) == o);
        assert(p.at(1, 2) == o);
        assert(p.at(2, 2) == num::<T>(1));
        assert(p.at(3, 2) == o);
        assert(p.at(1, 3) == o);
        assert(p.at(2, 3) == o);
        assert(p.at(3, 3) == num::<T>(1));
        assert(p.m =~= Self::identity().m);
    }
}

} // verus!
