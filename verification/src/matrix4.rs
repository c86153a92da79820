//! 4x4 matrices.
use crate::common::TransformPoint;
use crate::matrix3::Matrix3;
use crate::ring::lemma_add_associative;
use crate::ring::lemma_add_commutative;
use crate::ring::lemma_add_sub;
use crate::ring::lemma_cancel;
use crate::ring::lemma_mul_associative;
use crate::ring::lemma_mul_commutative;
use crate::ring::lemma_mul_swap_neg;
use crate::ring::lemma_neg_add;
use crate::ring::lemma_neg_mul;
use crate::ring::lemma_neg_neg;
use crate::ring::lemma_neg_sub;
use crate::ring::lemma_neg_unique;
use crate::ring::lemma_sub_is_add_neg;
use crate::ring::lemma_zero;
use crate::ring::ring_laws;
use crate::ring::ring_units;
use crate::scalar::Scalar;
use crate::scalar::constant;
use crate::scalar::converts;
use crate::scalar::exact;
use crate::scalar::num;
use crate::scalar::product3_req;
use crate::scalar::product3_spec;
use crate::scalar::total;
use crate::vector3::Vector3;
use crate::vector4::Vector4;
use core::ops::Add;
use core::ops::AddAssign;
use core::ops::Div;
use core::ops::DivAssign;
use core::ops::Mul;
use core::ops::MulAssign;
use core::ops::Neg;
use core::ops::Sub;
use core::ops::SubAssign;
use vstd::prelude::*;
use vstd::std_specs::cmp::PartialEqSpec;
use vstd::std_specs::ops::AddSpec;
use vstd::std_specs::ops::DivSpec;
use vstd::std_specs::ops::MulSpec;
use vstd::std_specs::ops::NegSpec;
use vstd::std_specs::ops::SubSpec;

verus! {

/// A 4x4 matrix. The elements are stored column by column.
#[derive(Debug)]
pub struct Matrix4<T> {
    pub m: [T; 16],
}

impl<T: Copy> Copy for Matrix4<T> {

}

impl<T: Copy> Clone for Matrix4<T> {
    fn clone(&self) -> (a: Matrix4<T>)
        ensures
            a == *self,
    {
        *self
    }
}

impl<T> View for Matrix4<T> {
    type V = Seq<T>;

    /// The elements in storage order: the first column first, the fourth last.
    open spec fn view(&self) -> Seq<T> {
        self.m@
    }
}

impl<T: Copy> Matrix4<T> {
    /// The element in row `row` and column `col`, both counted from 1.
    pub open spec fn at(self, row: int, col: int) -> T {
        self.m@[(col - 1) * 4 + (row - 1)]
    }

    /// The matrix whose element in row `row` and column `col` is
    /// `f(row, col)`.
    pub open spec fn tabulate(f: spec_fn(int, int) -> T) -> Matrix4<T> {
        Matrix4 {
            m: [
                f(1, 1), f(2, 1), f(3, 1), f(4, 1),
                f(1, 2), f(2, 2), f(3, 2), f(4, 2),
                f(1, 3), f(2, 3), f(3, 3), f(4, 3),
                f(1, 4), f(2, 4), f(3, 4), f(4, 4),
            ],
        }
    }

    /// The matrix of the values of `f` at the elements.
    pub open spec fn map(self, f: spec_fn(T) -> T) -> Matrix4<T> {
        Self::tabulate(|row: int, col: int| f(self.at(row, col)))
    }

    /// The matrix of the values of `f` at the pairs of elements of `self`
    /// and `rhs` in the same place.
    pub open spec fn zip(self, rhs: Matrix4<T>, f: spec_fn(T, T) -> T) -> Matrix4<T> {
        Self::tabulate(|row: int, col: int| f(self.at(row, col), rhs.at(row, col)))
    }

    /// The matrix mirrored at its diagonal.
    pub open spec fn transposed(self) -> Matrix4<T> {
        Self::tabulate(|row: int, col: int| self.at(col, row))
    }

    /// The row `row` as a vector.
    pub open spec fn row(self, row: int) -> Vector4<T> {
        Vector4 { x: self.at(row, 1), y: self.at(row, 2), z: self.at(row, 3), w: self.at(row, 4) }
    }

    /// The column `col` as a vector.
    pub open spec fn col(self, col: int) -> Vector4<T> {
        Vector4 { x: self.at(1, col), y: self.at(2, col), z: self.at(3, col), w: self.at(4, col) }
    }

    /// The minor of the element in row `row` and column `col`: the matrix
    /// without that row and that column.
    pub open spec fn minor(self, row: int, col: int) -> Matrix3<T> {
        Matrix3::tabulate(
            |r: int, c: int|
                self.at(
                    if r < row {
                        r
                    } else {
                        r + 1
                    },
                    if c < col {
                        c
                    } else {
                        c + 1
                    },
                ),
        )
    }

    /// Creates a matrix from its elements, given column by column.
    pub fn make(
        m11: T,
        m21: T,
        m31: T,
        m41: T,
        m12: T,
        m22: T,
        m32: T,
        m42: T,
        m13: T,
        m23: T,
        m33: T,
        m43: T,
        m14: T,
        m24: T,
        m34: T,
        m44: T,
    ) -> (a: Matrix4<T>)
        ensures
            a@ == seq![
                m11, m21, m31, m41,
                m12, m22, m32, m42,
                m13, m23, m33, m43,
                m14, m24, m34, m44,
            ],
    {
        Matrix4 {
            m: [
                m11, m21, m31, m41,
                m12, m22, m32, m42,
                m13, m23, m33, m43,
                m14, m24, m34, m44,
            ],
        }
    }

    /// The element in row 1 and column 1.
    pub fn m11(&self) -> (v: T)
        ensures
            v == self.at(1, 1),
    {
        self.m[0]
    }

    /// The element in row 2 and column 1.
    pub fn m21(&self) -> (v: T)
        ensures
            v == self.at(2, 1),
    {
        self.m[1]
    }

    /// The element in row 3 and column 1.
    pub fn m31(&self) -> (v: T)
        ensures
            v == self.at(3, 1),
    {
        self.m[2]
    }

    /// The element in row 4 and column 1.
    pub fn m41(&self) -> (v: T)
        ensures
            v == self.at(4, 1),
    {
        self.m[3]
    }

    /// The element in row 1 and column 2.
    pub fn m12(&self) -> (v: T)
        ensures
            v == self.at(1, 2),
    {
        self.m[4]
    }

    /// The element in row 2 and column 2.
    pub fn m22(&self) -> (v: T)
        ensures
            v == self.at(2, 2),
    {
        self.m[5]
    }

    /// The element in row 3 and column 2.
    pub fn m32(&self) -> (v: T)
        ensures
            v == self.at(3, 2),
    {
        self.m[6]
    }

    /// The element in row 4 and column 2.
    pub fn m42(&self) -> (v: T)
        ensures
            v == self.at(4, 2),
    {
        self.m[7]
    }

    /// The element in row 1 and column 3.
    pub fn m13(&self) -> (v: T)
        ensures
            v == self.at(1, 3),
    {
        self.m[8]
    }

    /// The element in row 2 and column 3.
    pub fn m23(&self) -> (v: T)
        ensures
            v == self.at(2, 3),
    {
        self.m[9]
    }

    /// The element in row 3 and column 3.
    pub fn m33(&self) -> (v: T)
        ensures
            v == self.at(3, 3),
    {
        self.m[10]
    }

    /// The element in row 4 and column 3.
    pub fn m43(&self) -> (v: T)
        ensures
            v == self.at(4, 3),
    {
        self.m[11]
    }

    /// The element in row 1 and column 4.
    pub fn m14(&self) -> (v: T)
        ensures
            v == self.at(1, 4),
    {
        self.m[12]
    }

    /// The element in row 2 and column 4.
    pub fn m24(&self) -> (v: T)
        ensures
            v == self.at(2, 4),
    {
        self.m[13]
    }

    /// The element in row 3 and column 4.
    pub fn m34(&self) -> (v: T)
        ensures
            v == self.at(3, 4),
    {
        self.m[14]
    }

    /// The element in row 4 and column 4.
    pub fn m44(&self) -> (v: T)
        ensures
            v == self.at(4, 4),
    {
        self.m[15]
    }

    /// Overwrites the element in row 1 and column 1.
    pub fn set_m11(&mut self, v: T)
        ensures
            final(self)@ == old(self)@.update(0, v),
    {
        self.m[0] = v;
    }

    /// Overwrites the element in row 2 and column 1.
    pub fn set_m21(&mut self, v: T)
        ensures
            final(self)@ == old(self)@.update(1, v),
    {
        self.m[1] = v;
    }

    /// Overwrites the element in row 3 and column 1.
    pub fn set_m31(&mut self, v: T)
        ensures
            final(self)@ == old(self)@.update(2, v),
    {
        self.m[2] = v;
    }

    /// Overwrites the element in row 4 and column 1.
    pub fn set_m41(&mut self, v: T)
        ensures
            final(self)@ == old(self)@.update(3, v),
    {
        self.m[3] = v;
    }

    /// Overwrites the element in row 1 and column 2.
    pub fn set_m12(&mut self, v: T)
        ensures
            final(self)@ == old(self)@.update(4, v),
    {
        self.m[4] = v;
    }

    /// Overwrites the element in row 2 and column 2.
    pub fn set_m22(&mut self, v: T)
        ensures
            final(self)@ == old(self)@.update(5, v),
    {
        self.m[5] = v;
    }

    /// Overwrites the element in row 3 and column 2.
    pub fn set_m32(&mut self, v: T)
        ensures
            final(self)@ == old(self)@.update(6, v),
    {
        self.m[6] = v;
    }

    /// Overwrites the element in row 4 and column 2.
    pub fn set_m42(&mut self, v: T)
        ensures
            final(self)@ == old(self)@.update(7, v),
    {
        self.m[7] = v;
    }

    /// Overwrites the element in row 1 and column 3.
    pub fn set_m13(&mut self, v: T)
        ensures
            final(self)@ == old(self)@.update(8, v),
    {
        self.m[8] = v;
    }

    /// Overwrites the element in row 2 and column 3.
    pub fn set_m23(&mut self, v: T)
        ensures
            final(self)@ == old(self)@.update(9, v),
    {
        self.m[9] = v;
    }

    /// Overwrites the element in row 3 and column 3.
    pub fn set_m33(&mut self, v: T)
        ensures
            final(self)@ == old(self)@.update(10, v),
    {
        self.m[10] = v;
    }

    /// Overwrites the element in row 4 and column 3.
    pub fn set_m43(&mut self, v: T)
        ensures
            final(self)@ == old(self)@.update(11, v),
    {
        self.m[11] = v;
    }

    /// Overwrites the element in row 1 and column 4.
    pub fn set_m14(&mut self, v: T)
        ensures
            final(self)@ == old(self)@.update(12, v),
    {
        self.m[12] = v;
    }

    /// Overwrites the element in row 2 and column 4.
    pub fn set_m24(&mut self, v: T)
        ensures
            final(self)@ == old(self)@.update(13, v),
    {
        self.m[13] = v;
    }

    /// Overwrites the element in row 3 and column 4.
    pub fn set_m34(&mut self, v: T)
        ensures
            final(self)@ == old(self)@.update(14, v),
    {
        self.m[14] = v;
    }

    /// Overwrites the element in row 4 and column 4.
    pub fn set_m44(&mut self, v: T)
        ensures
            final(self)@ == old(self)@.update(15, v),
    {
        self.m[15] = v;
    }

    /// Overwrites all elements, given column by column.
    pub fn set(
        &mut self,
        m11: T,
        m21: T,
        m31: T,
        m41: T,
        m12: T,
        m22: T,
        m32: T,
        m42: T,
        m13: T,
        m23: T,
        m33: T,
        m43: T,
        m14: T,
        m24: T,
        m34: T,
        m44: T,
    )
        ensures
            final(self)@ == seq![
                m11, m21, m31, m41,
                m12, m22, m32, m42,
                m13, m23, m33, m43,
                m14, m24, m34, m44,
            ],
    {
        self.set_m11(m11);
        self.set_m21(m21);
        self.set_m31(m31);
        self.set_m41(m41);
        self.set_m12(m12);
        self.set_m22(m22);
        self.set_m32(m32);
        self.set_m42(m42);
        self.set_m13(m13);
        self.set_m23(m23);
        self.set_m33(m33);
        self.set_m43(m43);
        self.set_m14(m14);
        self.set_m24(m24);
        self.set_m34(m34);
        self.set_m44(m44);
        assert(self@ =~= seq![
            m11, m21, m31, m41,
            m12, m22, m32, m42,
            m13, m23, m33, m43,
            m14, m24, m34, m44,
        ]);
    }

    /// Mirrors the matrix at its diagonal.
    pub fn transpose(&mut self)
        ensures
            *final(self) == old(self).transposed(),
    {
        let mut m = self.m;
        let temp = m[1];
        m[1] = m[4];
        m[4] = temp;
        let temp = m[2];
        m[2] = m[8];
        m[8] = temp;
        let temp = m[6];
        m[6] = m[9];
        m[9] = temp;
        let temp = m[7];
        m[7] = m[13];
        m[13] = temp;
        let temp = m[11];
        m[11] = m[14];
        m[14] = temp;
        let temp = m[3];
        m[3] = m[12];
        m[12] = temp;
        self.m = m;
        assert(self.m =~= old(self).transposed().m);
    }

    /// Two matrices with the same elements are the same matrix.
    pub proof fn lemma_equal_by_elements(self, other: Matrix4<T>)
        requires
            forall|row: int, col: int|
                1 <= row <= 4 && 1 <= col <= 4 ==> self.at(row, col) == other.at(row, col),
        ensures
            self == other,
    {
        assert(self.at(1, 1) == other.at(1, 1));
        assert(self.at(2, 1) == other.at(2, 1));
        assert(self.at(3, 1) == other.at(3, 1));
        assert(self.at(4, 1) == other.at(4, 1));
        assert(self.at(1, 2) == other.at(1, 2));
        assert(self.at(2, 2) == other.at(2, 2));
        assert(self.at(3, 2) == other.at(3, 2));
        assert(self.at(4, 2) == other.at(4, 2));
        assert(self.at(1, 3) == other.at(1, 3));
        assert(self.at(2, 3) == other.at(2, 3));
        assert(self.at(3, 3) == other.at(3, 3));
        assert(self.at(4, 3) == other.at(4, 3));
        assert(self.at(1, 4) == other.at(1, 4));
        assert(self.at(2, 4) == other.at(2, 4));
        assert(self.at(3, 4) == other.at(3, 4));
        assert(self.at(4, 4) == other.at(4, 4));
        assert(self.m =~= other.m);
    }

    /// Transposing twice gives the matrix back.
    pub proof fn lemma_transpose_involution(self)
        ensures
            self.transposed().transposed() == self,
    {
        assert(self.transposed().transposed().m =~= self.m);
    }
}

impl<T: Scalar> Matrix4<T> {
    /// The identity matrix: ones on the diagonal, zeros elsewhere.
    pub open spec fn identity() -> Matrix4<T> {
        Self::tabulate(
            |row: int, col: int|
                if row == col {
                    num::<T>(1)
                } else {
                    num::<T>(0)
                },
        )
    }

    /// Creates the identity matrix.
    pub fn new() -> (a: Matrix4<T>)
        ensures
            converts::<T>() ==> a == Self::identity(),
    {
        let o: T = constant(0);
        let i: T = constant(1);
        let a = Matrix4 { m: [i, o, o, o, o, i, o, o, o, o, i, o, o, o, o, i] };
        assert(converts::<T>() ==> a.m =~= Self::identity().m);
        a
    }

    /// The matrix of the move by `<x, y, z>`: the identity matrix with these
    /// numbers in the fourth column.
    pub open spec fn translate_spec(x: T, y: T, z: T) -> Matrix4<T> {
        Self::tabulate(
            |row: int, col: int|
                if col == 4 && row == 1 {
                    x
                } else if col == 4 && row == 2 {
                    y
                } else if col == 4 && row == 3 {
                    z
                } else {
                    Self::identity().at(row, col)
                },
        )
    }

    /// Creates the matrix that moves a point by `<x, y, z>`.
    pub fn translate(x: T, y: T, z: T) -> (a: Matrix4<T>)
        ensures
            a.at(1, 4) == x,
            a.at(2, 4) == y,
            a.at(3, 4) == z,
            converts::<T>() ==> a == Self::translate_spec(x, y, z),
    {
        let mut mat = Matrix4::new();
        mat.set_m14(x);
        mat.set_m24(y);
        mat.set_m34(z);
        assert(converts::<T>() ==> mat.m =~= Self::translate_spec(x, y, z).m);
        mat
    }

    /// The matrix that scales the three axes by `x`, `y` and `z`: the
    /// identity matrix with these numbers on the diagonal.
    pub open spec fn scale_spec(x: T, y: T, z: T) -> Matrix4<T> {
        Self::tabulate(
            |row: int, col: int|
                if row == 1 && col == 1 {
                    x
                } else if row == 2 && col == 2 {
                    y
                } else if row == 3 && col == 3 {
                    z
                } else {
                    Self::identity().at(row, col)
                },
        )
    }

    /// Creates the matrix that scales the three axes by `x`, `y` and `z`.
    pub fn scale(x: T, y: T, z: T) -> (a: Matrix4<T>)
        ensures
            a.at(1, 1) == x,
            a.at(2, 2) == y,
            a.at(3, 3) == z,
            converts::<T>() ==> a == Self::scale_spec(x, y, z),
    {
        let mut mat = Matrix4::new();
        mat.set_m11(x);
        mat.set_m22(y);
        mat.set_m33(z);
        assert(converts::<T>() ==> mat.m =~= Self::scale_spec(x, y, z).m);
        mat
    }

    /// The scale of one axis of an orthographic projection that maps the
    /// range from `low` to `high` to the range from -1 to 1: `2 / (high - low)`.
    pub open spec fn ortho_scale(low: T, high: T) -> T {
        num::<T>(2).div_spec(high.sub_spec(low))
    }

    /// The move of one axis of that projection: `-(high + low) / (high - low)`.
    pub open spec fn ortho_shift(low: T, high: T) -> T {
        high.add_spec(low).neg_spec().div_spec(high.sub_spec(low))
    }

    /// The operations of `ortho_scale` and `ortho_shift` accept their
    /// operands, and so does the division of -2 by `high - low`.
    pub open spec fn ortho_axis_req(low: T, high: T) -> bool {
        &&& high.sub_req(low)
        &&& high.add_req(low)
        &&& high.add_spec(low).neg_req()
        &&& high.add_spec(low).neg_spec().div_req(high.sub_spec(low))
        &&& num::<T>(2).div_req(high.sub_spec(low))
        &&& num::<T>(-2).div_req(high.sub_spec(low))
    }

    /// The orthographic projection of the box between `left` and `right`,
    /// `bottom` and `top`, `near` and `far`. The depth axis is turned round:
    /// its scale is `-2 / (far - near)`.
    pub open spec fn ortho_spec(left: T, right: T, top: T, bottom: T, near: T, far: T) -> Matrix4<
        T,
    > {
        Self::tabulate(
            |row: int, col: int|
                if row == 1 && col == 1 {
                    Self::ortho_scale(left, right)
                } else if row == 2 && col == 2 {
                    Self::ortho_scale(bottom, top)
                } else if row == 3 && col == 3 {
                    num::<T>(-2).div_spec(far.sub_spec(near))
                } else if row == 1 && col == 4 {
                    Self::ortho_shift(left, right)
                } else if row == 2 && col == 4 {
                    Self::ortho_shift(bottom, top)
                } else if row == 3 && col == 4 {
                    Self::ortho_shift(near, far)
                } else {
                    Self::identity().at(row, col)
                },
        )
    }

    /// The operations of `ortho` accept their operands.
    pub open spec fn ortho_req(left: T, right: T, top: T, bottom: T, near: T, far: T) -> bool {
        if exact::<T>() {
            &&& Self::ortho_axis_req(left, right)
            &&& Self::ortho_axis_req(bottom, top)
            &&& Self::ortho_axis_req(near, far)
        } else {
            total::<T>()
        }
    }

    /// Creates the orthographic projection of the box between `left` and
    /// `right`, `bottom` and `top`, `near` and `far`.
    pub fn ortho(left: T, right: T, top: T, bottom: T, near: T, far: T) -> (a: Matrix4<T>)
        requires
            Self::ortho_req(left, right, top, bottom, near, far),
        ensures
            exact::<T>() ==> a == Self::ortho_spec(left, right, top, bottom, near, far),
    {
        let width = right - left;
        let height = top - bottom;
        let depth = far - near;
        let tx = (right + left).neg() / width;
        let ty = (top + bottom).neg() / height;
        let tz = (far + near).neg() / depth;
        let two: T = constant(2);
        let minus_two: T = constant(-2);
        let mut mat = Matrix4::new();

        mat.set_m11(two / width);
        mat.set_m22(two / height);
        mat.set_m33(minus_two / depth);
        mat.set_m14(tx);
        mat.set_m24(ty);
        mat.set_m34(tz);
        assert(exact::<T>() ==> mat.m =~= Self::ortho_spec(
            left,
            right,
            top,
            bottom,
            near,
            far,
        ).m);
        mat
    }

    /// The rotation about the `x` axis by the angle with the given cosine and
    /// sine: the identity matrix with the cosine in rows 2 and 3 of the
    /// diagonal, the sine in row 3 and column 2, and its negative in row 2 and
    /// column 3.
    pub open spec fn rotate_x_spec(cosine: T, sine: T) -> Matrix4<T> {
        Self::tabulate(
            |row: int, col: int|
                if (row == 2 && col == 2) || (row == 3 && col == 3) {
                    cosine
                } else if row == 3 && col == 2 {
                    sine
                } else if row == 2 && col == 3 {
                    sine.neg_spec()
                } else {
                    Self::identity().at(row, col)
                },
        )
    }

    /// Creates the rotation about the `x` axis from the cosine and the sine
    /// of its angle.
    pub fn rotate_x_by(cosine: T, sine: T) -> (a: Matrix4<T>)
        requires
            sine.neg_req(),
        ensures
            a.at(2, 2) == cosine,
            a.at(3, 2) == sine,
            a.at(3, 3) == cosine,
            converts::<T>() && T::obeys_neg_spec() ==> a == Self::rotate_x_spec(cosine, sine),
    {
        let mut mat = Matrix4::new();
        mat.set_m22(cosine);
        mat.set_m32(sine);
        mat.set_m23(sine.neg());
        mat.set_m33(cosine);
        assert(converts::<T>() && T::obeys_neg_spec() ==> mat.m =~= Self::rotate_x_spec(
            cosine,
            sine,
        ).m);
        mat
    }

    /// The matrix that `rotate_y_by` makes from the cosine and the sine of an
    /// angle: the identity matrix with the cosine in rows 1 and 3 of the
    /// diagonal and the sine in row 3 and column 1. Row 1 and column 3 keeps
    /// its zero.
    pub open spec fn rotate_y_spec(cosine: T, sine: T) -> Matrix4<T> {
        Self::tabulate(
            |row: int, col: int|
                if (row == 1 && col == 1) || (row == 3 && col == 3) {
                    cosine
                } else if row == 3 && col == 1 {
                    sine
                } else {
                    Self::identity().at(row, col)
                },
        )
    }

    /// Creates the matrix for the `y` axis from the cosine and the sine of an
    /// angle. The element in row 3 and column 1 is set twice, first to the
    /// negative of the sine and then to the sine, which stands.
    pub fn rotate_y_by(cosine: T, sine: T) -> (a: Matrix4<T>)
        requires
            sine.neg_req(),
        ensures
            a.at(1, 1) == cosine,
            a.at(3, 1) == sine,
            a.at(3, 3) == cosine,
            converts::<T>() ==> a == Self::rotate_y_spec(cosine, sine),
    {
        let mut mat = Matrix4::new();
        mat.set_m11(cosine);
        mat.set_m31(sine.neg());
        mat.set_m31(sine);
        mat.set_m33(cosine);
        assert(converts::<T>() ==> mat.m =~= Self::rotate_y_spec(cosine, sine).m);
        mat
    }

    /// The rotation about the `z` axis by the angle with the given cosine and
    /// sine: the identity matrix with the cosine in rows 1 and 2 of the
    /// diagonal, the negative of the sine in row 2 and column 1, and the sine
    /// in row 1 and column 2.
    pub open spec fn rotate_z_spec(cosine: T, sine: T) -> Matrix4<T> {
        Self::tabulate(
            |row: int, col: int|
                if (row == 1 && col == 1) || (row == 2 && col == 2) {
                    cosine
                } else if row == 2 && col == 1 {
                    sine.neg_spec()
                } else if row == 1 && col == 2 {
                    sine
                } else {
                    Self::identity().at(row, col)
                },
        )
    }

    /// Creates the rotation about the `z` axis from the cosine and the sine
    /// of its angle.
    pub fn rotate_z_by(cosine: T, sine: T) -> (a: Matrix4<T>)
        requires
            sine.neg_req(),
        ensures
            a.at(1, 1) == cosine,
            a.at(1, 2) == sine,
            a.at(2, 2) == cosine,
            converts::<T>() && T::obeys_neg_spec() ==> a == Self::rotate_z_spec(cosine, sine),
    {
        let mut mat = Matrix4::new();
        mat.set_m11(cosine);
        mat.set_m21(sine.neg());
        mat.set_m12(sine);
        mat.set_m22(cosine);
        assert(converts::<T>() && T::obeys_neg_spec() ==> mat.m =~= Self::rotate_z_spec(
            cosine,
            sine,
        ).m);
        mat
    }

    /// The cotangent of an angle, from its cosine and sine.
    pub open spec fn cotangent_spec(cosine: T, sine: T) -> T {
        cosine.div_spec(sine)
    }

    /// The matrix that `perspective_by` makes: the identity matrix with
    /// `cotangent / aspect_ratio` and `cotangent` in rows 1 and 2 of the
    /// diagonal, `-(far + near) / (far - near)` in row 3, zero in row 4, and
    /// `-2 * near * far / (far - near)` in row 4 and column 3. Row 3 and column
    /// 4 keeps its zero.
    pub open spec fn perspective_spec(
        cosine: T,
        sine: T,
        aspect_ratio: T,
        near: T,
        far: T,
    ) -> Matrix4<T> {
        let cotangent = Self::cotangent_spec(cosine, sine);
        let depth = far.sub_spec(near);
        Self::tabulate(
            |row: int, col: int|
                if row == 1 && col == 1 {
                    cotangent.div_spec(aspect_ratio)
                } else if row == 2 && col == 2 {
                    cotangent
                } else if row == 3 && col == 3 {
                    far.add_spec(near).neg_spec().div_spec(depth)
                } else if row == 4 && col == 3 {
                    num::<T>(-2).mul_spec(near).mul_spec(far).div_spec(depth)
                } else if row == 4 && col == 4 {
                    num::<T>(0)
                } else {
                    Self::identity().at(row, col)
                },
        )
    }

    /// The operations of `perspective_by` accept their operands.
    pub open spec fn perspective_req(
        cosine: T,
        sine: T,
        aspect_ratio: T,
        near: T,
        far: T,
    ) -> bool {
        if exact::<T>() {
            let cotangent = Self::cotangent_spec(cosine, sine);
            let depth = far.sub_spec(near);
            &&& cosine.div_req(sine)
            &&& far.sub_req(near)
            &&& cotangent.div_req(aspect_ratio)
            &&& far.add_req(near)
            &&& far.add_spec(near).neg_req()
            &&& far.add_spec(near).neg_spec().div_req(depth)
            &&& num::<T>(-2).mul_req(near)
            &&& num::<T>(-2).mul_spec(near).mul_req(far)
            &&& num::<T>(-2).mul_spec(near).mul_spec(far).div_req(depth)
        } else {
            total::<T>()
        }
    }

    /// Creates the matrix of a perspective from the cosine and the sine of
    /// half the field of view, the ratio of width to height, and the distances
    /// of the near and the far plane. The element in row 4 and column 3 is set
    /// twice, first to -1 and then to `-2 * near * far / (far - near)`, which
    /// stands.
    pub fn perspective_by(cosine: T, sine: T, aspect_ratio: T, near: T, far: T) -> (a: Matrix4<T>)
        requires
            Self::perspective_req(cosine, sine, aspect_ratio, near, far),
        ensures
            exact::<T>() ==> a == Self::perspective_spec(cosine, sine, aspect_ratio, near, far),
    {
        let cotangent = cosine / sine;
        let depth = far - near;
        let minus_one: T = constant(-1);
        let minus_two: T = constant(-2);

        let mut mat = Matrix4::new();
        mat.set_m11(cotangent / aspect_ratio);
        mat.set_m22(cotangent);
        mat.set_m33((far + near).neg() / depth);
        mat.set_m43(minus_one);
        mat.set_m43(minus_two * near * far / depth);
        mat.set_m44(constant(0));
        assert(exact::<T>() ==> mat.m =~= Self::perspective_spec(
            cosine,
            sine,
            aspect_ratio,
            near,
            far,
        ).m);
        mat
    }

    /// The matrix of a viewer: its columns are the viewer's axis to the
    /// right, its axis upwards, the negative of the direction in which it
    /// looks, and its position; the last row is `0, 0, 0, 1`.
    pub open spec fn look_at_spec(
        right: Vector3<T>,
        up: Vector3<T>,
        forward: Vector3<T>,
        position: Vector3<T>,
    ) -> Matrix4<T> {
        Matrix4 {
            m: [
                right.x, right.y, right.z, num::<T>(0),
                up.x, up.y, up.z, num::<T>(0),
                forward.x.neg_spec(), forward.y.neg_spec(), forward.z.neg_spec(), num::<T>(0),
                position.x, position.y, position.z, num::<T>(1),
            ],
        }
    }

    /// Creates the matrix of a viewer at `position` from its three axes.
    pub fn look_at_by(
        right: Vector3<T>,
        up: Vector3<T>,
        forward: Vector3<T>,
        position: Vector3<T>,
    ) -> (a: Matrix4<T>)
        requires
            forward.neg_req(),
        ensures
            a.col(1) == (Vector4 { x: right.x, y: right.y, z: right.z, w: a.at(4, 1) }),
            a.col(2) == (Vector4 { x: up.x, y: up.y, z: up.z, w: a.at(4, 2) }),
            a.col(4) == (Vector4 { x: position.x, y: position.y, z: position.z, w: a.at(4, 4) }),
            converts::<T>() && T::obeys_neg_spec() ==> a == Self::look_at_spec(
                right,
                up,
                forward,
                position,
            ),
    {
        let a = Matrix4::make(
            right.x,
            right.y,
            right.z,
            constant(0),
            up.x,
            up.y,
            up.z,
            constant(0),
            forward.x.neg(),
            forward.y.neg(),
            forward.z.neg(),
            constant(0),
            position.x,
            position.y,
            position.z,
            constant(1),
        );
        assert(converts::<T>() && T::obeys_neg_spec() ==> a.m =~= Self::look_at_spec(
            right,
            up,
            forward,
            position,
        ).m);
        a
    }

    /// The term of the determinant that belongs to column `col`: the
    /// determinant of the minor of the first row's element in that column,
    /// taken of the transposed minor, times that element.
    pub open spec fn expansion_term(self, col: int) -> T {
        self.minor(1, col).transposed().determinant_spec().mul_spec(self.at(1, col))
    }

    /// The determinant, expanded along the first row: the terms of the four
    /// columns with the signs plus, minus, plus, minus.
    pub open spec fn determinant_spec(self) -> T {
        self.expansion_term(1).sub_spec(self.expansion_term(2)).add_spec(
            self.expansion_term(3),
        ).sub_spec(self.expansion_term(4))
    }

    /// The operations of `determinant` accept their operands.
    pub open spec fn determinant_req(self) -> bool {
        if exact::<T>() {
            &&& forall|col: int|
                1 <= col <= 4 ==> {
                    &&& (#[trigger] self.minor(1, col)).transposed().determinant_req()
                    &&& self.minor(1, col).transposed().determinant_spec().mul_req(
                        self.at(1, col),
                    )
                }
            &&& self.expansion_term(1).sub_req(self.expansion_term(2))
            &&& self.expansion_term(1).sub_spec(self.expansion_term(2)).add_req(
                self.expansion_term(3),
            )
            &&& self.expansion_term(1).sub_spec(self.expansion_term(2)).add_spec(
                self.expansion_term(3),
            ).sub_req(self.expansion_term(4))
        } else {
            total::<T>()
        }
    }

    /// Computes the determinant.
    pub fn determinant(&self) -> (d: T)
        requires
            self.determinant_req(),
        ensures
            exact::<T>() ==> d == self.determinant_spec(),
    {
        let s1 = Matrix3::make(
            self.m22(),
            self.m23(),
            self.m24(),
            self.m32(),
            self.m33(),
            self.m34(),
            self.m42(),
            self.m43(),
            self.m44(),
        );
        let s2 = Matrix3::make(
            self.m21(),
            self.m23(),
            self.m24(),
            self.m31(),
            self.m33(),
            self.m34(),
            self.m41(),
            self.m43(),
            self.m44(),
        );
        let s3 = Matrix3::make(
            self.m21(),
            self.m22(),
            self.m24(),
            self.m31(),
            self.m32(),
            self.m34(),
            self.m41(),
            self.m42(),
            self.m44(),
        );
        let s4 = Matrix3::make(
            self.m21(),
            self.m22(),
            self.m23(),
            self.m31(),
            self.m32(),
            self.m33(),
            self.m41(),
            self.m42(),
            self.m43(),
        );
        proof {
            assert(s1.m =~= self.minor(1, 1).transposed().m);
            assert(s2.m =~= self.minor(1, 2).transposed().m);
            assert(s3.m =~= self.minor(1, 3).transposed().m);
            assert(s4.m =~= self.minor(1, 4).transposed().m);
            if exact::<T>() {
                assert(self.minor(1, 1).transposed().determinant_req());
                assert(self.minor(1, 2).transposed().determinant_req());
                assert(self.minor(1, 3).transposed().determinant_req());
                assert(self.minor(1, 4).transposed().determinant_req());
            }
        }
        let a = s1.determinant() * self.m11();
        let b = s2.determinant() * self.m12();
        let c = s3.determinant() * self.m13();
        let d = s4.determinant() * self.m14();

        a - b + c - d
    }

    /// The determinant equals zero, so that the matrix has no inverse.
    pub open spec fn singular(self) -> bool {
        self.determinant_spec().eq_spec(&num::<T>(0))
    }

    /// The reciprocal of the determinant.
    pub open spec fn inv_det_spec(self) -> T {
        num::<T>(1).div_spec(self.determinant_spec())
    }

    /// The first factor of the first product of a cofactor: the minor's first
    /// element, negated where the cofactor's sign is negative.
    pub open spec fn cofactor_lead(self, row: int, col: int) -> T {
        if (row + col) % 2 == 0 {
            self.minor(row, col).at(1, 1)
        } else {
            self.minor(row, col).at(1, 1).neg_spec()
        }
    }

    /// The six products of three elements of the minor `s` that make up its
    /// determinant, in the order in which a cofactor sums them. The first
    /// product starts with `lead` in place of the minor's first element.
    pub open spec fn cofactor_products(s: Matrix3<T>, lead: T) -> Seq<T> {
        seq![
            product3_spec(lead, s.at(2, 2), s.at(3, 3)),
            product3_spec(s.at(1, 1), s.at(3, 2), s.at(2, 3)),
            product3_spec(s.at(1, 2), s.at(2, 1), s.at(3, 3)),
            product3_spec(s.at(1, 2), s.at(3, 1), s.at(2, 3)),
            product3_spec(s.at(1, 3), s.at(2, 1), s.at(3, 2)),
            product3_spec(s.at(1, 3), s.at(3, 1), s.at(2, 2)),
        ]
    }

    /// The multiplications of `cofactor_products` accept their operands.
    pub open spec fn cofactor_products_req(s: Matrix3<T>, lead: T) -> bool {
        &&& product3_req(lead, s.at(2, 2), s.at(3, 3))
        &&& product3_req(s.at(1, 1), s.at(3, 2), s.at(2, 3))
        &&& product3_req(s.at(1, 2), s.at(2, 1), s.at(3, 3))
        &&& product3_req(s.at(1, 2), s.at(3, 1), s.at(2, 3))
        &&& product3_req(s.at(1, 3), s.at(2, 1), s.at(3, 2))
        &&& product3_req(s.at(1, 3), s.at(3, 1), s.at(2, 2))
    }

    /// The cofactor of the element in row `row` and column `col`: the
    /// determinant of its minor, written out as six products, with the sign
    /// plus where `row + col` is even and minus where it is odd. The sign is
    /// worked into the sum: for minus, the first product is negated through
    /// its first factor, and additions and subtractions change places.
    pub open spec fn cofactor_spec(self, row: int, col: int) -> T {
        let p = Self::cofactor_products(self.minor(row, col), self.cofactor_lead(row, col));
        if (row + col) % 2 == 0 {
            p[0].sub_spec(p[1]).sub_spec(p[2]).add_spec(p[3]).add_spec(p[4]).sub_spec(p[5])
        } else {
            p[0].add_spec(p[1]).add_spec(p[2]).sub_spec(p[3]).sub_spec(p[4]).add_spec(p[5])
        }
    }

    /// The operations of a cofactor accept their operands.
    pub open spec fn cofactor_req(self, row: int, col: int) -> bool {
        let s = self.minor(row, col);
        let p = Self::cofactor_products(s, self.cofactor_lead(row, col));
        &&& (row + col) % 2 == 0 || s.at(1, 1).neg_req()
        &&& Self::cofactor_products_req(s, self.cofactor_lead(row, col))
        &&& if (row + col) % 2 == 0 {
            &&& p[0].sub_req(p[1])
            &&& p[0].sub_spec(p[1]).sub_req(p[2])
            &&& p[0].sub_spec(p[1]).sub_spec(p[2]).add_req(p[3])
            &&& p[0].sub_spec(p[1]).sub_spec(p[2]).add_spec(p[3]).add_req(p[4])
            &&& p[0].sub_spec(p[1]).sub_spec(p[2]).add_spec(p[3]).add_spec(p[4]).sub_req(p[5])
        } else {
            &&& p[0].add_req(p[1])
            &&& p[0].add_spec(p[1]).add_req(p[2])
            &&& p[0].add_spec(p[1]).add_spec(p[2]).sub_req(p[3])
            &&& p[0].add_spec(p[1]).add_spec(p[2]).sub_spec(p[3]).sub_req(p[4])
            &&& p[0].add_spec(p[1]).add_spec(p[2]).sub_spec(p[3]).sub_spec(p[4]).add_req(p[5])
        }
    }

    /// The element in row `row` and column `col`.
    fn get(&self, row: usize, col: usize) -> (v: T)
        requires
            1 <= row <= 4,
            1 <= col <= 4,
        ensures
            v == self.at(row as int, col as int),
    {
        self.m[(col - 1) * 4 + (row - 1)]
    }

    /// Computes the cofactor of the element in row `row` and column `col`.
    fn cofactor(&self, row: usize, col: usize) -> (r: T)
        requires
            1 <= row <= 4,
            1 <= col <= 4,
            exact::<T>() ==> self.cofactor_req(row as int, col as int),
            !exact::<T>() ==> total::<T>(),
        ensures
            exact::<T>() ==> r == self.cofactor_spec(row as int, col as int),
    {
        let r1: usize = if 1 < row { 1 } else { 2 };
        let r2: usize = if 2 < row { 2 } else { 3 };
        let r3: usize = if 3 < row { 3 } else { 4 };
        let c1: usize = if 1 < col { 1 } else { 2 };
        let c2: usize = if 2 < col { 2 } else { 3 };
        let c3: usize = if 3 < col { 3 } else { 4 };
        let a = self.get(r1, c1);
        let b = self.get(r1, c2);
        let c = self.get(r1, c3);
        let d = self.get(r2, c1);
        let e = self.get(r2, c2);
        let f = self.get(r2, c3);
        let g = self.get(r3, c1);
        let h = self.get(r3, c2);
        let i = self.get(r3, c3);
        if (row + col) % 2 == 0 {
            a * e * i - a * h * f - b * d * i + b * g * f + c * d * h - c * g * e
        } else {
            a.neg() * e * i + a * h * f + b * d * i - b * g * f - c * d * h + c * g * e
        }
    }

    /// The inverse: the adjugate, every element multiplied by the reciprocal
    /// of the determinant. The element of the adjugate in row `row` and column
    /// `col` is the cofactor of the element in row `col` and column `row`.
    pub open spec fn inverse_spec(self) -> Matrix4<T> {
        Self::tabulate(
            |row: int, col: int| self.cofactor_spec(col, row).mul_spec(self.inv_det_spec()),
        )
    }

    /// The operations of `inverse` accept their operands.
    pub open spec fn inverse_req(self) -> bool {
        if exact::<T>() {
            &&& self.determinant_req()
            &&& !self.singular() ==> {
                &&& num::<T>(1).div_req(self.determinant_spec())
                &&& forall|row: int, col: int|
                    1 <= row <= 4 && 1 <= col <= 4 ==> {
                        &&& #[trigger] self.cofactor_req(row, col)
                        &&& self.cofactor_spec(row, col).mul_req(self.inv_det_spec())
                    }
            }
        } else {
            total::<T>()
        }
    }

    /// Replaces the matrix by its inverse and returns `true`, unless the
    /// determinant equals zero: then the matrix stays as it is and the result
    /// is `false`.
    pub fn inverse(&mut self) -> (ok: bool)
        requires
            old(self).inverse_req(),
        ensures
            !ok ==> *final(self) == *old(self),
            exact::<T>() ==> ok == !old(self).singular(),
            exact::<T>() && ok ==> *final(self) == old(self).inverse_spec(),
    {
        let det = self.determinant();
        let zero: T = constant(0);
        if det == zero {
            return false;
        }
        let one: T = constant(1);
        let inv_det = one / det;
        proof {
            if exact::<T>() {
                let k = self.inv_det_spec();
                assert(self.cofactor_req(1, 1));
                assert(self.cofactor_spec(1, 1).mul_req(k));
                assert(self.cofactor_req(1, 2));
                assert(self.cofactor_spec(1, 2).mul_req(k));
                assert(self.cofactor_req(1, 3));
                assert(self.cofactor_spec(1, 3).mul_req(k));
                assert(self.cofactor_req(1, 4));
                assert(self.cofactor_spec(1, 4).mul_req(k));
                assert(self.cofactor_req(2, 1));
                assert(self.cofactor_spec(2, 1).mul_req(k));
                assert(self.cofactor_req(2, 2));
                assert(self.cofactor_spec(2, 2).mul_req(k));
                assert(self.cofactor_req(2, 3));
                assert(self.cofactor_spec(2, 3).mul_req(k));
                assert(self.cofactor_req(2, 4));
                assert(self.cofactor_spec(2, 4).mul_req(k));
                assert(self.cofactor_req(3, 1));
                assert(self.cofactor_spec(3, 1).mul_req(k));
                assert(self.cofactor_req(3, 2));
                assert(self.cofactor_spec(3, 2).mul_req(k));
                assert(self.cofactor_req(3, 3));
                assert(self.cofactor_spec(3, 3).mul_req(k));
                assert(self.cofactor_req(3, 4));
                assert(self.cofactor_spec(3, 4).mul_req(k));
                assert(self.cofactor_req(4, 1));
                assert(self.cofactor_spec(4, 1).mul_req(k));
                assert(self.cofactor_req(4, 2));
                assert(self.cofactor_spec(4, 2).mul_req(k));
                assert(self.cofactor_req(4, 3));
                assert(self.cofactor_spec(4, 3).mul_req(k));
                assert(self.cofactor_req(4, 4));
                assert(self.cofactor_spec(4, 4).mul_req(k));
            }
        }

        // the first column
        let pre_m11 = self.cofactor(1, 1);
        let pre_m21 = self.cofactor(1, 2);
        let pre_m31 = self.cofactor(1, 3);
        let pre_m41 = self.cofactor(1, 4);

        // the second column
        let pre_m12 = self.cofactor(2, 1);
        let pre_m22 = self.cofactor(2, 2);
        let pre_m32 = self.cofactor(2, 3);
        let pre_m42 = self.cofactor(2, 4);

        // the third column
        let pre_m13 = self.cofactor(3, 1);
        let pre_m23 = self.cofactor(3, 2);
        let pre_m33 = self.cofactor(3, 3);
        let pre_m43 = self.cofactor(3, 4);

        // the fourth column
        let pre_m14 = self.cofactor(4, 1);
        let pre_m24 = self.cofactor(4, 2);
        let pre_m34 = self.cofactor(4, 3);
        let pre_m44 = self.cofactor(4, 4);

        self.set_m11(pre_m11 * inv_det);
        self.set_m21(pre_m21 * inv_det);
        self.set_m31(pre_m31 * inv_det);
        self.set_m41(pre_m41 * inv_det);
        self.set_m12(pre_m12 * inv_det);
        self.set_m22(pre_m22 * inv_det);
        self.set_m32(pre_m32 * inv_det);
        self.set_m42(pre_m42 * inv_det);
        self.set_m13(pre_m13 * inv_det);
        self.set_m23(pre_m23 * inv_det);
        self.set_m33(pre_m33 * inv_det);
        self.set_m43(pre_m43 * inv_det);
        self.set_m14(pre_m14 * inv_det);
        self.set_m24(pre_m24 * inv_det);
        self.set_m34(pre_m34 * inv_det);
        self.set_m44(pre_m44 * inv_det);
        assert(exact::<T>() ==> self.m =~= old(self).inverse_spec().m);
        true
    }
}

impl<T: Scalar> Neg for Matrix4<T> {
    type Output = Matrix4<T>;

    /// Negates every element.
    fn neg(self) -> (a: Matrix4<T>) {
        let mut m = self.m;
        let mut i: usize = 0;
        while i < 16
            invariant
                i <= 16,
                forall|j: int| 0 <= j < 16 ==> (#[trigger] self.m@[j]).neg_req(),
                forall|j: int| 0 <= j < i && T::obeys_neg_spec() ==> m@[j] == self.m@[j].neg_spec(),
                forall|j: int| i <= j < 16 ==> m@[j] == self.m@[j],
            decreases 16 - i,
        {
            m[i] = self.m[i].neg();
            i += 1;
        }
        assert(T::obeys_neg_spec() ==> m =~= self.map(|x: T| x.neg_spec()).m);
        Matrix4 { m }
    }
}

impl<T: Scalar> vstd::std_specs::ops::NegSpecImpl for Matrix4<T> {
    open spec fn obeys_neg_spec() -> bool {
        T::obeys_neg_spec()
    }

    open spec fn neg_req(self) -> bool {
        forall|i: int| 0 <= i < 16 ==> (#[trigger] self.m@[i]).neg_req()
    }

    open spec fn neg_spec(self) -> Matrix4<T> {
        self.map(|x: T| x.neg_spec())
    }
}

impl<T: Scalar> Add<T> for Matrix4<T> {
    type Output = Matrix4<T>;

    /// Adds `rhs` to every element.
    fn add(self, rhs: T) -> (a: Matrix4<T>) {
        let mut m = self.m;
        let mut i: usize = 0;
        while i < 16
            invariant
                i <= 16,
                forall|j: int| 0 <= j < 16 ==> (#[trigger] self.m@[j]).add_req(rhs),
                forall|j: int|
                    0 <= j < i && T::obeys_add_spec() ==> m@[j] == self.m@[j].add_spec(rhs),
                forall|j: int| i <= j < 16 ==> m@[j] == self.m@[j],
            decreases 16 - i,
        {
            m[i] = self.m[i] + rhs;
            i += 1;
        }
        assert(T::obeys_add_spec() ==> m =~= self.map(|x: T| x.add_spec(rhs)).m);
        Matrix4 { m }
    }
}

impl<T: Scalar> vstd::std_specs::ops::AddSpecImpl<T> for Matrix4<T> {
    open spec fn obeys_add_spec() -> bool {
        T::obeys_add_spec()
    }

    open spec fn add_req(self, rhs: T) -> bool {
        forall|i: int| 0 <= i < 16 ==> (#[trigger] self.m@[i]).add_req(rhs)
    }

    open spec fn add_spec(self, rhs: T) -> Matrix4<T> {
        self.map(|x: T| x.add_spec(rhs))
    }
}

impl<T: Scalar> AddAssign<T> for Matrix4<T> {
    /// Adds `rhs` to every element. The result replaces `self`.
    fn add_assign(&mut self, rhs: T)
        requires
            old(self).add_req(rhs),
        ensures
            T::obeys_add_spec() ==> *final(self) == old(self).add_spec(rhs),
    {
        let mut i: usize = 0;
        while i < 16
            invariant
                i <= 16,
                forall|j: int| 0 <= j < 16 ==> (#[trigger] old(self).m@[j]).add_req(rhs),
                forall|j: int|
                    0 <= j < i && T::obeys_add_spec() ==> self.m@[j] == old(self).m@[j].add_spec(
                        rhs,
                    ),
                forall|j: int| i <= j < 16 ==> self.m@[j] == old(self).m@[j],
            decreases 16 - i,
        {
            self.m[i] = self.m[i] + rhs;
            i += 1;
        }
        assert(T::obeys_add_spec() ==> self.m =~= old(self).add_spec(rhs).m);
    }
}

impl<T: Scalar> Add<Matrix4<T>> for Matrix4<T> {
    type Output = Matrix4<T>;

    /// Adds the matrices element by element.
    fn add(self, rhs: Matrix4<T>) -> (a: Matrix4<T>) {
        let mut m = self.m;
        let mut i: usize = 0;
        while i < 16
            invariant
                i <= 16,
                forall|j: int| 0 <= j < 16 ==> (#[trigger] self.m@[j]).add_req(rhs.m@[j]),
                forall|j: int|
                    0 <= j < i && T::obeys_add_spec() ==> m@[j] == self.m@[j].add_spec(rhs.m@[j]),
                forall|j: int| i <= j < 16 ==> m@[j] == self.m@[j],
            decreases 16 - i,
        {
            m[i] = self.m[i] + rhs.m[i];
            i += 1;
        }
        assert(T::obeys_add_spec() ==> m =~= self.zip(rhs, |x: T, y: T| x.add_spec(y)).m);
        Matrix4 { m }
    }
}

impl<T: Scalar> vstd::std_specs::ops::AddSpecImpl<Matrix4<T>> for Matrix4<T> {
    open spec fn obeys_add_spec() -> bool {
        T::obeys_add_spec()
    }

    open spec fn add_req(self, rhs: Matrix4<T>) -> bool {
        forall|i: int| 0 <= i < 16 ==> (#[trigger] self.m@[i]).add_req(rhs.m@[i])
    }

    open spec fn add_spec(self, rhs: Matrix4<T>) -> Matrix4<T> {
        self.zip(rhs, |x: T, y: T| x.add_spec(y))
    }
}

impl<T: Scalar> AddAssign<Matrix4<T>> for Matrix4<T> {
    /// Adds the matrices element by element. The result replaces `self`.
    fn add_assign(&mut self, rhs: Matrix4<T>)
        requires
            old(self).add_req(rhs),
        ensures
            T::obeys_add_spec() ==> *final(self) == old(self).add_spec(rhs),
    {
        let mut i: usize = 0;
        while i < 16
            invariant
                i <= 16,
                forall|j: int| 0 <= j < 16 ==> (#[trigger] old(self).m@[j]).add_req(rhs.m@[j]),
                forall|j: int|
                    0 <= j < i && T::obeys_add_spec() ==> self.m@[j] == old(self).m@[j].add_spec(
                        rhs.m@[j],
                    ),
                forall|j: int| i <= j < 16 ==> self.m@[j] == old(self).m@[j],
            decreases 16 - i,
        {
            self.m[i] = self.m[i] + rhs.m[i];
            i += 1;
        }
        assert(T::obeys_add_spec() ==> self.m =~= old(self).add_spec(rhs).m);
    }
}

impl<T: Scalar> Sub<T> for Matrix4<T> {
    type Output = Matrix4<T>;

    /// Subtracts `rhs` from every element.
    fn sub(self, rhs: T) -> (a: Matrix4<T>) {
        let mut m = self.m;
        let mut i: usize = 0;
        while i < 16
            invariant
                i <= 16,
                forall|j: int| 0 <= j < 16 ==> (#[trigger] self.m@[j]).sub_req(rhs),
                forall|j: int|
                    0 <= j < i && T::obeys_sub_spec() ==> m@[j] == self.m@[j].sub_spec(rhs),
                forall|j: int| i <= j < 16 ==> m@[j] == self.m@[j],
            decreases 16 - i,
        {
            m[i] = self.m[i] - rhs;
            i += 1;
        }
        assert(T::obeys_sub_spec() ==> m =~= self.map(|x: T| x.sub_spec(rhs)).m);
        Matrix4 { m }
    }
}

impl<T: Scalar> vstd::std_specs::ops::SubSpecImpl<T> for Matrix4<T> {
    open spec fn obeys_sub_spec() -> bool {
        T::obeys_sub_spec()
    }

    open spec fn sub_req(self, rhs: T) -> bool {
        forall|i: int| 0 <= i < 16 ==> (#[trigger] self.m@[i]).sub_req(rhs)
    }

    open spec fn sub_spec(self, rhs: T) -> Matrix4<T> {
        self.map(|x: T| x.sub_spec(rhs))
    }
}

impl<T: Scalar> SubAssign<T> for Matrix4<T> {
    /// Subtracts `rhs` from every element. The result replaces `self`.
    fn sub_assign(&mut self, rhs: T)
        requires
            old(self).sub_req(rhs),
        ensures
            T::obeys_sub_spec() ==> *final(self) == old(self).sub_spec(rhs),
    {
        let mut i: usize = 0;
        while i < 16
            invariant
                i <= 16,
                forall|j: int| 0 <= j < 16 ==> (#[trigger] old(self).m@[j]).sub_req(rhs),
                forall|j: int|
                    0 <= j < i && T::obeys_sub_spec() ==> self.m@[j] == old(self).m@[j].sub_spec(
                        rhs,
                    ),
                forall|j: int| i <= j < 16 ==> self.m@[j] == old(self).m@[j],
            decreases 16 - i,
        {
            self.m[i] = self.m[i] - rhs;
            i += 1;
        }
        assert(T::obeys_sub_spec() ==> self.m =~= old(self).sub_spec(rhs).m);
    }
}

impl<T: Scalar> Sub<Matrix4<T>> for Matrix4<T> {
    type Output = Matrix4<T>;

    /// Subtracts `rhs` element by element.
    fn sub(self, rhs: Matrix4<T>) -> (a: Matrix4<T>) {
        let mut m = self.m;
        let mut i: usize = 0;
        while i < 16
            invariant
                i <= 16,
                forall|j: int| 0 <= j < 16 ==> (#[trigger] self.m@[j]).sub_req(rhs.m@[j]),
                forall|j: int|
                    0 <= j < i && T::obeys_sub_spec() ==> m@[j] == self.m@[j].sub_spec(rhs.m@[j]),
                forall|j: int| i <= j < 16 ==> m@[j] == self.m@[j],
            decreases 16 - i,
        {
            m[i] = self.m[i] - rhs.m[i];
            i += 1;
        }
        assert(T::obeys_sub_spec() ==> m =~= self.zip(rhs, |x: T, y: T| x.sub_spec(y)).m);
        Matrix4 { m }
    }
}

impl<T: Scalar> vstd::std_specs::ops::SubSpecImpl<Matrix4<T>> for Matrix4<T> {
    open spec fn obeys_sub_spec() -> bool {
        T::obeys_sub_spec()
    }

    open spec fn sub_req(self, rhs: Matrix4<T>) -> bool {
        forall|i: int| 0 <= i < 16 ==> (#[trigger] self.m@[i]).sub_req(rhs.m@[i])
    }

    open spec fn sub_spec(self, rhs: Matrix4<T>) -> Matrix4<T> {
        self.zip(rhs, |x: T, y: T| x.sub_spec(y))
    }
}

impl<T: Scalar> SubAssign<Matrix4<T>> for Matrix4<T> {
    /// Subtracts `rhs` element by element. The result replaces `self`.
    fn sub_assign(&mut self, rhs: Matrix4<T>)
        requires
            old(self).sub_req(rhs),
        ensures
            T::obeys_sub_spec() ==> *final(self) == old(self).sub_spec(rhs),
    {
        let mut i: usize = 0;
        while i < 16
            invariant
                i <= 16,
                forall|j: int| 0 <= j < 16 ==> (#[trigger] old(self).m@[j]).sub_req(rhs.m@[j]),
                forall|j: int|
                    0 <= j < i && T::obeys_sub_spec() ==> self.m@[j] == old(self).m@[j].sub_spec(
                        rhs.m@[j],
                    ),
                forall|j: int| i <= j < 16 ==> self.m@[j] == old(self).m@[j],
            decreases 16 - i,
        {
            self.m[i] = self.m[i] - rhs.m[i];
            i += 1;
        }
        assert(T::obeys_sub_spec() ==> self.m =~= old(self).sub_spec(rhs).m);
    }
}

impl<T: Scalar> Mul<T> for Matrix4<T> {
    type Output = Matrix4<T>;

    /// Multiplies every element by `rhs`.
    fn mul(self, rhs: T) -> (a: Matrix4<T>) {
        let mut m = self.m;
        let mut i: usize = 0;
        while i < 16
            invariant
                i <= 16,
                forall|j: int| 0 <= j < 16 ==> (#[trigger] self.m@[j]).mul_req(rhs),
                forall|j: int|
                    0 <= j < i && T::obeys_mul_spec() ==> m@[j] == self.m@[j].mul_spec(rhs),
                forall|j: int| i <= j < 16 ==> m@[j] == self.m@[j],
            decreases 16 - i,
        {
            m[i] = self.m[i] * rhs;
            i += 1;
        }
        assert(T::obeys_mul_spec() ==> m =~= self.map(|x: T| x.mul_spec(rhs)).m);
        Matrix4 { m }
    }
}

impl<T: Scalar> vstd::std_specs::ops::MulSpecImpl<T> for Matrix4<T> {
    open spec fn obeys_mul_spec() -> bool {
        T::obeys_mul_spec()
    }

    open spec fn mul_req(self, rhs: T) -> bool {
        forall|i: int| 0 <= i < 16 ==> (#[trigger] self.m@[i]).mul_req(rhs)
    }

    open spec fn mul_spec(self, rhs: T) -> Matrix4<T> {
        self.map(|x: T| x.mul_spec(rhs))
    }
}

impl<T: Scalar> MulAssign<T> for Matrix4<T> {
    /// Multiplies every element by `rhs`. The result replaces `self`.
    fn mul_assign(&mut self, rhs: T)
        requires
            old(self).mul_req(rhs),
        ensures
            T::obeys_mul_spec() ==> *final(self) == old(self).mul_spec(rhs),
    {
        let mut i: usize = 0;
        while i < 16
            invariant
                i <= 16,
                forall|j: int| 0 <= j < 16 ==> (#[trigger] old(self).m@[j]).mul_req(rhs),
                forall|j: int|
                    0 <= j < i && T::obeys_mul_spec() ==> self.m@[j] == old(self).m@[j].mul_spec(
                        rhs,
                    ),
                forall|j: int| i <= j < 16 ==> self.m@[j] == old(self).m@[j],
            decreases 16 - i,
        {
            self.m[i] = self.m[i] * rhs;
            i += 1;
        }
        assert(T::obeys_mul_spec() ==> self.m =~= old(self).mul_spec(rhs).m);
    }
}

impl<T: Scalar> Mul<Matrix4<T>> for Matrix4<T> {
    type Output = Matrix4<T>;

    /// The matrix product: the element in row `row` and column `col` is the
    /// dot product of that row of `self` with that column of `rhs`.
    fn mul(self, rhs: Matrix4<T>) -> (a: Matrix4<T>) {
        proof {
            if exact::<T>() {
                assert(Vector4::dot_req(self.row(1), rhs.col(1)));
                assert(Vector4::dot_req(self.row(2), rhs.col(1)));
                assert(Vector4::dot_req(self.row(3), rhs.col(1)));
                assert(Vector4::dot_req(self.row(4), rhs.col(1)));
                assert(Vector4::dot_req(self.row(1), rhs.col(2)));
                assert(Vector4::dot_req(self.row(2), rhs.col(2)));
                assert(Vector4::dot_req(self.row(3), rhs.col(2)));
                assert(Vector4::dot_req(self.row(4), rhs.col(2)));
                assert(Vector4::dot_req(self.row(1), rhs.col(3)));
                assert(Vector4::dot_req(self.row(2), rhs.col(3)));
                assert(Vector4::dot_req(self.row(3), rhs.col(3)));
                assert(Vector4::dot_req(self.row(4), rhs.col(3)));
                assert(Vector4::dot_req(self.row(1), rhs.col(4)));
                assert(Vector4::dot_req(self.row(2), rhs.col(4)));
                assert(Vector4::dot_req(self.row(3), rhs.col(4)));
                assert(Vector4::dot_req(self.row(4), rhs.col(4)));
            }
        }
        let m11 = self.m11() * rhs.m11()
            + self.m12() * rhs.m21()
            + self.m13() * rhs.m31()
            + self.m14() * rhs.m41();
        let m21 = self.m21() * rhs.m11()
            + self.m22() * rhs.m21()
            + self.m23() * rhs.m31()
            + self.m24() * rhs.m41();
        let m31 = self.m31() * rhs.m11()
            + self.m32() * rhs.m21()
            + self.m33() * rhs.m31()
            + self.m34() * rhs.m41();
        let m41 = self.m41() * rhs.m11()
            + self.m42() * rhs.m21()
            + self.m43() * rhs.m31()
            + self.m44() * rhs.m41();
        let m12 = self.m11() * rhs.m12()
            + self.m12() * rhs.m22()
            + self.m13() * rhs.m32()
            + self.m14() * rhs.m42();
        let m22 = self.m21() * rhs.m12()
            + self.m22() * rhs.m22()
            + self.m23() * rhs.m32()
            + self.m24() * rhs.m42();
        let m32 = self.m31() * rhs.m12()
            + self.m32() * rhs.m22()
            + self.m33() * rhs.m32()
            + self.m34() * rhs.m42();
        let m42 = self.m41() * rhs.m12()
            + self.m42() * rhs.m22()
            + self.m43() * rhs.m32()
            + self.m44() * rhs.m42();
        let m13 = self.m11() * rhs.m13()
            + self.m12() * rhs.m23()
            + self.m13() * rhs.m33()
            + self.m14() * rhs.m43();
        let m23 = self.m21() * rhs.m13()
            + self.m22() * rhs.m23()
            + self.m23() * rhs.m33()
            + self.m24() * rhs.m43();
        let m33 = self.m31() * rhs.m13()
            + self.m32() * rhs.m23()
            + self.m33() * rhs.m33()
            + self.m34() * rhs.m43();
        let m43 = self.m41() * rhs.m13()
            + self.m42() * rhs.m23()
            + self.m43() * rhs.m33()
            + self.m44() * rhs.m43();
        let m14 = self.m11() * rhs.m14()
            + self.m12() * rhs.m24()
            + self.m13() * rhs.m34()
            + self.m14() * rhs.m44();
        let m24 = self.m21() * rhs.m14()
            + self.m22() * rhs.m24()
            + self.m23() * rhs.m34()
            + self.m24() * rhs.m44();
        let m34 = self.m31() * rhs.m14()
            + self.m32() * rhs.m24()
            + self.m33() * rhs.m34()
            + self.m34() * rhs.m44();
        let m44 = self.m41() * rhs.m14()
            + self.m42() * rhs.m24()
            + self.m43() * rhs.m34()
            + self.m44() * rhs.m44();
        let a = Matrix4::make(
            m11, m21, m31, m41,
            m12, m22, m32, m42,
            m13, m23, m33, m43,
            m14, m24, m34, m44,
        );
        assert(exact::<T>() ==> a.m =~= Self::tabulate(
            |row: int, col: int| Vector4::dot_spec(self.row(row), rhs.col(col)),
        ).m);
        a
    }
}

impl<T: Scalar> vstd::std_specs::ops::MulSpecImpl<Matrix4<T>> for Matrix4<T> {
    open spec fn obeys_mul_spec() -> bool {
        exact::<T>()
    }

    open spec fn mul_req(self, rhs: Matrix4<T>) -> bool {
        if exact::<T>() {
            forall|row: int, col: int|
                1 <= row <= 4 && 1 <= col <= 4 ==> Vector4::dot_req(
                    #[trigger] self.row(row),
                    #[trigger] rhs.col(col),
                )
        } else {
            total::<T>()
        }
    }

    open spec fn mul_spec(self, rhs: Matrix4<T>) -> Matrix4<T> {
        Self::tabulate(|row: int, col: int| Vector4::dot_spec(self.row(row), rhs.col(col)))
    }
}

impl<T: Scalar> MulAssign<Matrix4<T>> for Matrix4<T> {
    /// Multiplies the matrix by `rhs` from the right.
    fn mul_assign(&mut self, rhs: Matrix4<T>)
        requires
            old(self).mul_req(rhs),
        ensures
            exact::<T>() ==> *final(self) == old(self).mul_spec(rhs),
    {
        let res = *self * rhs;
        self.m = res.m;
    }
}

impl<T: Scalar> Div<T> for Matrix4<T> {
    type Output = Matrix4<T>;

    /// Divides every element by `rhs`.
    fn div(self, rhs: T) -> (a: Matrix4<T>) {
        let mut m = self.m;
        let mut i: usize = 0;
        while i < 16
            invariant
                i <= 16,
                forall|j: int| 0 <= j < 16 ==> (#[trigger] self.m@[j]).div_req(rhs),
                forall|j: int|
                    0 <= j < i && T::obeys_div_spec() ==> m@[j] == self.m@[j].div_spec(rhs),
                forall|j: int| i <= j < 16 ==> m@[j] == self.m@[j],
            decreases 16 - i,
        {
            m[i] = self.m[i] / rhs;
            i += 1;
        }
        assert(T::obeys_div_spec() ==> m =~= self.map(|x: T| x.div_spec(rhs)).m);
        Matrix4 { m }
    }
}

impl<T: Scalar> vstd::std_specs::ops::DivSpecImpl<T> for Matrix4<T> {
    open spec fn obeys_div_spec() -> bool {
        T::obeys_div_spec()
    }

    open spec fn div_req(self, rhs: T) -> bool {
        forall|i: int| 0 <= i < 16 ==> (#[trigger] self.m@[i]).div_req(rhs)
    }

    open spec fn div_spec(self, rhs: T) -> Matrix4<T> {
        self.map(|x: T| x.div_spec(rhs))
    }
}

impl<T: Scalar> DivAssign<T> for Matrix4<T> {
    /// Divides every element by `rhs`. The result replaces `self`.
    fn div_assign(&mut self, rhs: T)
        requires
            old(self).div_req(rhs),
        ensures
            T::obeys_div_spec() ==> *final(self) == old(self).div_spec(rhs),
    {
        let mut i: usize = 0;
        while i < 16
            invariant
                i <= 16,
                forall|j: int| 0 <= j < 16 ==> (#[trigger] old(self).m@[j]).div_req(rhs),
                forall|j: int|
                    0 <= j < i && T::obeys_div_spec() ==> self.m@[j] == old(self).m@[j].div_spec(
                        rhs,
                    ),
                forall|j: int| i <= j < 16 ==> self.m@[j] == old(self).m@[j],
            decreases 16 - i,
        {
            self.m[i] = self.m[i] / rhs;
            i += 1;
        }
        assert(T::obeys_div_spec() ==> self.m =~= old(self).div_spec(rhs).m);
    }
}

impl<T: Scalar> PartialEq for Matrix4<T> {
    /// Compares the matrices element by element.
    fn eq(&self, rhs: &Matrix4<T>) -> (r: bool) {
        let mut i: usize = 0;
        while i < 16
            invariant
                i <= 16,
                forall|j: int| 0 <= j < i && T::obeys_eq_spec() ==> self.m@[j].eq_spec(&rhs.m@[j]),
            decreases 16 - i,
        {
            if self.m[i] != rhs.m[i] {
                return false;
            }
            i += 1;
        }
        true
    }
}

impl<T: Scalar> vstd::std_specs::cmp::PartialEqSpecImpl for Matrix4<T> {
    open spec fn obeys_eq_spec() -> bool {
        T::obeys_eq_spec()
    }

    open spec fn eq_spec(&self, rhs: &Matrix4<T>) -> bool {
        forall|i: int| 0 <= i < 16 ==> (#[trigger] self.m@[i]).eq_spec(&rhs.m@[i])
    }
}

impl<T: Scalar> Matrix4<T> {
    /// The first three elements of the row `row`: the linear part of the row.
    pub open spec fn linear_row(self, row: int) -> Vector3<T> {
        Vector3 { x: self.at(row, 1), y: self.at(row, 2), z: self.at(row, 3) }
    }

    /// The coordinate `row` of the image of `point` under the affine map:
    /// the dot product of the linear part of the row with the point, plus the
    /// last element of the row.
    pub open spec fn affine_spec(self, row: int, point: Vector3<T>) -> T {
        Vector3::dot_spec(self.linear_row(row), point).add_spec(self.at(row, 4))
    }

    /// The operations of `affine_spec` accept their operands.
    pub open spec fn affine_req(self, row: int, point: Vector3<T>) -> bool {
        &&& Vector3::dot_req(self.linear_row(row), point)
        &&& exact::<T>() ==> Vector3::dot_spec(self.linear_row(row), point).add_req(self.at(row, 4))
    }
}

impl<T: Scalar> TransformPoint<Vector3<T>> for Matrix4<T> {
    open spec fn obeys_transform_spec() -> bool {
        exact::<T>()
    }

    open spec fn transform_req(&self, point: &Vector3<T>) -> bool {
        &&& self.affine_req(1, *point)
        &&& self.affine_req(2, *point)
        &&& self.affine_req(3, *point)
    }

    /// The image of `point` under the affine map: the point gets a last
    /// coordinate of one, and the last row of the matrix is left out.
    open spec fn transform_spec(&self, point: &Vector3<T>) -> Vector3<T> {
        Vector3 {
            x: self.affine_spec(1, *point),
            y: self.affine_spec(2, *point),
            z: self.affine_spec(3, *point),
        }
    }

    fn transform_point(&self, point: &Vector3<T>) -> (r: Vector3<T>) {
        Vector3::make(
            self.m11() * point.x + self.m12() * point.y + self.m13() * point.z + self.m14(),
            self.m21() * point.x + self.m22() * point.y + self.m23() * point.z + self.m24(),
            self.m31() * point.x + self.m32() * point.y + self.m33() * point.z + self.m34(),
        )
    }
}

impl<T: Scalar> TransformPoint<Vector4<T>> for Matrix4<T> {
    open spec fn obeys_transform_spec() -> bool {
        exact::<T>()
    }

    open spec fn transform_req(&self, point: &Vector4<T>) -> bool {
        &&& Vector4::dot_req(self.row(1), *point)
        &&& Vector4::dot_req(self.row(2), *point)
        &&& Vector4::dot_req(self.row(3), *point)
        &&& Vector4::dot_req(self.row(4), *point)
    }

    /// The product of the matrix with the column vector `point`.
    open spec fn transform_spec(&self, point: &Vector4<T>) -> Vector4<T> {
        Vector4 {
            x: Vector4::dot_spec(self.row(1), *point),
            y: Vector4::dot_spec(self.row(2), *point),
            z: Vector4::dot_spec(self.row(3), *point),
            w: Vector4::dot_spec(self.row(4), *point),
        }
    }

    fn transform_point(&self, point: &Vector4<T>) -> (r: Vector4<T>) {
        Vector4::make(
            self.m11() * point.x
                + self.m12() * point.y
                + self.m13() * point.z
                + self.m14() * point.w,
            self.m21() * point.x
                + self.m22() * point.y
                + self.m23() * point.z
                + self.m24() * point.w,
            self.m31() * point.x
                + self.m32() * point.y
                + self.m33() * point.z
                + self.m34() * point.w,
            self.m41() * point.x
                + self.m42() * point.y
                + self.m43() * point.z
                + self.m44() * point.w,
        )
    }
}

impl<T: Scalar> Matrix4<T> {
    /// The row vector `a` times the matrix: the dot products of `a` with the
    /// columns.
    pub open spec fn row_times(self, a: Vector4<T>) -> Vector4<T> {
        Vector4 {
            x: Vector4::dot_spec(a, self.col(1)),
            y: Vector4::dot_spec(a, self.col(2)),
            z: Vector4::dot_spec(a, self.col(3)),
            w: Vector4::dot_spec(a, self.col(4)),
        }
    }

    /// The matrix times the column vector `c`: the dot products of the rows
    /// with `c`.
    pub open spec fn times_col(self, c: Vector4<T>) -> Vector4<T> {
        Vector4 {
            x: Vector4::dot_spec(self.row(1), c),
            y: Vector4::dot_spec(self.row(2), c),
            z: Vector4::dot_spec(self.row(3), c),
            w: Vector4::dot_spec(self.row(4), c),
        }
    }

    /// A row vector, a matrix and a column vector can be multiplied in either
    /// order: `(a * self) * c == a * (self * c)`, where the components form a
    /// commutative ring.
    pub proof fn lemma_dot_associative(self, a: Vector4<T>, c: Vector4<T>)
        requires
            ring_laws::<T>(),
        ensures
            Vector4::dot_spec(self.row_times(a), c) == Vector4::dot_spec(a, self.times_col(c)),
    {
        let u1 = a.mul_spec(self.col(1)).mul_spec(c.x);
        let u2 = a.mul_spec(self.col(2)).mul_spec(c.y);
        let u3 = a.mul_spec(self.col(3)).mul_spec(c.z);
        let u4 = a.mul_spec(self.col(4)).mul_spec(c.w);
        Vector4::lemma_dot_is_sum(a, self.col(1));
        Vector4::lemma_sum_times(a.mul_spec(self.col(1)), c.x);
        Vector4::lemma_dot_is_sum(a, self.col(2));
        Vector4::lemma_sum_times(a.mul_spec(self.col(2)), c.y);
        Vector4::lemma_dot_is_sum(a, self.col(3));
        Vector4::lemma_sum_times(a.mul_spec(self.col(3)), c.z);
        Vector4::lemma_dot_is_sum(a, self.col(4));
        Vector4::lemma_sum_times(a.mul_spec(self.col(4)), c.w);
        Vector4::lemma_sum_add(u1, u2);
        Vector4::lemma_sum_add(u1.add_spec(u2), u3);
        Vector4::lemma_sum_add(u1.add_spec(u2).add_spec(u3), u4);
        Vector4::lemma_dot_is_sum(self.row(1), c);
        Vector4::lemma_times_sum(a.x, self.row(1).mul_spec(c));
        Vector4::lemma_dot_is_sum(self.row(2), c);
        Vector4::lemma_times_sum(a.y, self.row(2).mul_spec(c));
        Vector4::lemma_dot_is_sum(self.row(3), c);
        Vector4::lemma_times_sum(a.z, self.row(3).mul_spec(c));
        Vector4::lemma_dot_is_sum(self.row(4), c);
        Vector4::lemma_times_sum(a.w, self.row(4).mul_spec(c));
        lemma_mul_associative(a.x, self.at(1, 1), c.x);
        lemma_mul_associative(a.x, self.at(1, 2), c.y);
        lemma_mul_associative(a.x, self.at(1, 3), c.z);
        lemma_mul_associative(a.x, self.at(1, 4), c.w);
        lemma_mul_associative(a.y, self.at(2, 1), c.x);
        lemma_mul_associative(a.y, self.at(2, 2), c.y);
        lemma_mul_associative(a.y, self.at(2, 3), c.z);
        lemma_mul_associative(a.y, self.at(2, 4), c.w);
        lemma_mul_associative(a.z, self.at(3, 1), c.x);
        lemma_mul_associative(a.z, self.at(3, 2), c.y);
        lemma_mul_associative(a.z, self.at(3, 3), c.z);
        lemma_mul_associative(a.z, self.at(3, 4), c.w);
        lemma_mul_associative(a.w, self.at(4, 1), c.x);
        lemma_mul_associative(a.w, self.at(4, 2), c.y);
        lemma_mul_associative(a.w, self.at(4, 3), c.z);
        lemma_mul_associative(a.w, self.at(4, 4), c.w);
        let v = u1.add_spec(u2).add_spec(u3).add_spec(u4);
        assert(v.x == a.x.mul_spec(Vector4::dot_spec(self.row(1), c)));
        assert(v.y == a.y.mul_spec(Vector4::dot_spec(self.row(2), c)));
        assert(v.z == a.z.mul_spec(Vector4::dot_spec(self.row(3), c)));
        assert(v.w == a.w.mul_spec(Vector4::dot_spec(self.row(4), c)));
    }

    /// The matrix product is associative: `(a * b) * c == a * (b * c)`, where
    /// the components form a commutative ring.
    pub proof fn lemma_product_associative(a: Matrix4<T>, b: Matrix4<T>, c: Matrix4<T>)
        requires
            ring_laws::<T>(),
        ensures
            a.mul_spec(b).mul_spec(c) == a.mul_spec(b.mul_spec(c)),
    {
        let l = a.mul_spec(b).mul_spec(c);
        let r = a.mul_spec(b.mul_spec(c));
        assert(a.mul_spec(b).row(1) == b.row_times(a.row(1)));
        assert(a.mul_spec(b).row(2) == b.row_times(a.row(2)));
        assert(a.mul_spec(b).row(3) == b.row_times(a.row(3)));
        assert(a.mul_spec(b).row(4) == b.row_times(a.row(4)));
        assert(b.mul_spec(c).col(1) == b.times_col(c.col(1)));
        assert(b.mul_spec(c).col(2) == b.times_col(c.col(2)));
        assert(b.mul_spec(c).col(3) == b.times_col(c.col(3)));
        assert(b.mul_spec(c).col(4) == b.times_col(c.col(4)));
        b.lemma_dot_associative(a.row(1), c.col(1));
        b.lemma_dot_associative(a.row(2), c.col(1));
        b.lemma_dot_associative(a.row(3), c.col(1));
        b.lemma_dot_associative(a.row(4), c.col(1));
        b.lemma_dot_associative(a.row(1), c.col(2));
        b.lemma_dot_associative(a.row(2), c.col(2));
        b.lemma_dot_associative(a.row(3), c.col(2));
        b.lemma_dot_associative(a.row(4), c.col(2));
        b.lemma_dot_associative(a.row(1), c.col(3));
        b.lemma_dot_associative(a.row(2), c.col(3));
        b.lemma_dot_associative(a.row(3), c.col(3));
        b.lemma_dot_associative(a.row(4), c.col(3));
        b.lemma_dot_associative(a.row(1), c.col(4));
        b.lemma_dot_associative(a.row(2), c.col(4));
        b.lemma_dot_associative(a.row(3), c.col(4));
        b.lemma_dot_associative(a.row(4), c.col(4));
        assert(l.at(1, 1) == r.at(1, 1));
        assert(l.at(2, 1) == r.at(2, 1));
        assert(l.at(3, 1) == r.at(3, 1));
        assert(l.at(4, 1) == r.at(4, 1));
        assert(l.at(1, 2) == r.at(1, 2));
        assert(l.at(2, 2) == r.at(2, 2));
        assert(l.at(3, 2) == r.at(3, 2));
        assert(l.at(4, 2) == r.at(4, 2));
        assert(l.at(1, 3) == r.at(1, 3));
        assert(l.at(2, 3) == r.at(2, 3));
        assert(l.at(3, 3) == r.at(3, 3));
        assert(l.at(4, 3) == r.at(4, 3));
        assert(l.at(1, 4) == r.at(1, 4));
        assert(l.at(2, 4) == r.at(2, 4));
        assert(l.at(3, 4) == r.at(3, 4));
        assert(l.at(4, 4) == r.at(4, 4));
        assert(l.m =~= r.m);
    }
}

impl<T: Scalar> Matrix4<T> {
    /// The matrix of zeros.
    pub open spec fn zeros() -> Matrix4<T> {
        Self::tabulate(|row: int, col: int| num::<T>(0))
    }

    /// The sum of all elements: the sum of the sums of the rows.
    pub open spec fn total_spec(self) -> T {
        self.row(1).sum_spec().add_spec(self.row(2).sum_spec()).add_spec(
            self.row(3).sum_spec(),
        ).add_spec(self.row(4).sum_spec())
    }

    /// The elements can be summed by columns as well as by rows.
    pub proof fn lemma_total_transposed(self)
        requires
            ring_laws::<T>(),
        ensures
            self.transposed().total_spec() == self.total_spec(),
    {
        let (r1, r2, r3, r4) = (self.row(1), self.row(2), self.row(3), self.row(4));
        Vector4::lemma_sum_add(r1, r2);
        Vector4::lemma_sum_add(r1.add_spec(r2), r3);
        Vector4::lemma_sum_add(r1.add_spec(r2).add_spec(r3), r4);
        let t = self.transposed();
        assert(t.row(1) == self.col(1));
        assert(t.row(2) == self.col(2));
        assert(t.row(3) == self.col(3));
        assert(t.row(4) == self.col(4));
    }

    /// The sum of the elements of a sum of two matrices is the sum of the two
    /// sums.
    pub proof fn lemma_total_add(self, other: Matrix4<T>)
        requires
            ring_laws::<T>(),
        ensures
            self.add_spec(other).total_spec() == self.total_spec().add_spec(other.total_spec()),
    {
        let s = self.add_spec(other);
        assert(s.row(1) == self.row(1).add_spec(other.row(1)));
        assert(s.row(2) == self.row(2).add_spec(other.row(2)));
        assert(s.row(3) == self.row(3).add_spec(other.row(3)));
        assert(s.row(4) == self.row(4).add_spec(other.row(4)));
        Vector4::lemma_sum_add(self.row(1), other.row(1));
        Vector4::lemma_sum_add(self.row(2), other.row(2));
        Vector4::lemma_sum_add(self.row(3), other.row(3));
        Vector4::lemma_sum_add(self.row(4), other.row(4));
        let x = Vector4 {
            x: self.row(1).sum_spec(),
            y: self.row(2).sum_spec(),
            z: self.row(3).sum_spec(),
            w: self.row(4).sum_spec(),
        };
        let y = Vector4 {
            x: other.row(1).sum_spec(),
            y: other.row(2).sum_spec(),
            z: other.row(3).sum_spec(),
            w: other.row(4).sum_spec(),
        };
        Vector4::lemma_sum_add(x, y);
    }

    /// The elements of the matrix of zeros add up to zero.
    pub proof fn lemma_total_zeros()
        requires
            ring_laws::<T>(),
            ring_units::<T>(),
        ensures
            Self::zeros().total_spec() == num::<T>(0),
    {
        lemma_zero(num::<T>(0));
    }

    /// The elements of the negated matrix add up to the negative of the sum.
    pub proof fn lemma_total_neg(self)
        requires
            ring_laws::<T>(),
            ring_units::<T>(),
        ensures
            self.neg_spec().total_spec() == self.total_spec().neg_spec(),
    {
        let n = self.neg_spec();
        assert forall|row: int, col: int| 1 <= row <= 4 && 1 <= col <= 4 implies self.add_spec(
            n,
        ).at(row, col) == #[trigger] Self::zeros().at(row, col) by {
            lemma_cancel(self.at(row, col));
        }
        self.add_spec(n).lemma_equal_by_elements(Self::zeros());
        self.lemma_total_add(n);
        Self::lemma_total_zeros();
        lemma_neg_unique(self.total_spec(), n.total_spec());
    }

    /// A cofactor is the triple product of the rows of its minor, negated
    /// where the cofactor's sign is negative.
    pub proof fn lemma_cofactor_is_triple(self, row: int, col: int)
        requires
            ring_laws::<T>(),
            ring_units::<T>(),
        ensures
            self.cofactor_spec(row, col) == if (row + col) % 2 == 0 {
                Vector3::triple_spec(
                    self.minor(row, col).row(1),
                    self.minor(row, col).row(2),
                    self.minor(row, col).row(3),
                )
            } else {
                Vector3::triple_spec(
                    self.minor(row, col).row(1),
                    self.minor(row, col).row(2),
                    self.minor(row, col).row(3),
                ).neg_spec()
            },
    {
        let s = self.minor(row, col);
        let (a, b, c) = (s.at(1, 1), s.at(1, 2), s.at(1, 3));
        let (d, e, f) = (s.at(2, 1), s.at(2, 2), s.at(2, 3));
        let (g, h, i) = (s.at(3, 1), s.at(3, 2), s.at(3, 3));
        let a0 = a.mul_spec(e.mul_spec(i));
        let a1 = a.mul_spec(f.mul_spec(h));
        let a2 = b.mul_spec(f.mul_spec(g));
        let a3 = b.mul_spec(d.mul_spec(i));
        let a4 = c.mul_spec(d.mul_spec(h));
        let a5 = c.mul_spec(e.mul_spec(g));
        Vector3::lemma_triple_expanded(s.row(1), s.row(2), s.row(3));
        let t = Vector3::triple_spec(s.row(1), s.row(2), s.row(3));
        assert(t == a0.sub_spec(a1).add_spec(a2.sub_spec(a3)).add_spec(a4.sub_spec(a5)));
        // the six products, each with its factors from left to right
        lemma_mul_associative(a, e, i);
        lemma_mul_associative(a, h, f);
        lemma_mul_commutative(h, f);
        lemma_mul_associative(b, d, i);
        lemma_mul_associative(b, g, f);
        lemma_mul_commutative(g, f);
        lemma_mul_associative(c, d, h);
        lemma_mul_associative(c, g, e);
        lemma_mul_commutative(g, e);
        let p = Self::cofactor_products(s, self.cofactor_lead(row, col));
        assert(p[1] == a1);
        assert(p[2] == a3);
        assert(p[3] == a2);
        assert(p[4] == a4);
        assert(p[5] == a5);
        if (row + col) % 2 == 0 {
            assert(p[0] == a0);
            lemma_add_sub(a0.sub_spec(a1), a3, a2);
            lemma_add_sub(a0.sub_spec(a1).add_spec(a2.sub_spec(a3)), a4, a5);
        } else {
            lemma_neg_mul(a, e);
            lemma_neg_mul(a.mul_spec(e), i);
            assert(p[0] == a0.neg_spec());
            lemma_add_commutative(a0.neg_spec(), a1);
            lemma_sub_is_add_neg(a1, a0);
            lemma_add_sub(a1.sub_spec(a0), a3, a2);
            lemma_add_sub(a1.sub_spec(a0).add_spec(a3.sub_spec(a2)), a4, a5);
            lemma_neg_sub(a1, a0);
            lemma_neg_sub(a3, a2);
            lemma_neg_sub(a5, a4);
            lemma_neg_add(a0.sub_spec(a1), a2.sub_spec(a3));
            lemma_neg_add(a0.sub_spec(a1).add_spec(a2.sub_spec(a3)), a4.sub_spec(a5));
        }
    }

    /// The vector `v` without its component number `index`, counted from 1.
    pub open spec fn without(v: Vector4<T>, index: int) -> Vector3<T> {
        if index == 1 {
            Vector3 { x: v.y, y: v.z, z: v.w }
        } else if index == 2 {
            Vector3 { x: v.x, y: v.z, z: v.w }
        } else if index == 3 {
            Vector3 { x: v.x, y: v.y, z: v.w }
        } else {
            Vector3 { x: v.x, y: v.y, z: v.z }
        }
    }

    /// The triple product of three vectors, each without its component number
    /// `index`.
    pub open spec fn minor_triple(u: Vector4<T>, v: Vector4<T>, w: Vector4<T>, index: int) -> T {
        Vector3::triple_spec(
            Self::without(u, index),
            Self::without(v, index),
            Self::without(w, index),
        )
    }

    /// The cross product of three vectors of four components: its component
    /// `index` is the triple product of the vectors without that component,
    /// negated for the second and the fourth.
    pub open spec fn cross4_spec(u: Vector4<T>, v: Vector4<T>, w: Vector4<T>) -> Vector4<T> {
        Vector4 {
            x: Self::minor_triple(u, v, w, 1),
            y: Self::minor_triple(u, v, w, 2).neg_spec(),
            z: Self::minor_triple(u, v, w, 3),
            w: Self::minor_triple(u, v, w, 4).neg_spec(),
        }
    }

    /// The determinant of the matrix with the rows `a`, `u`, `v` and `w`,
    /// expanded along `a`.
    pub open spec fn quad_spec(a: Vector4<T>, u: Vector4<T>, v: Vector4<T>, w: Vector4<T>) -> T {
        Vector4::dot_spec(a, Self::cross4_spec(u, v, w))
    }

    /// One of the twelve products that `quad_spec` adds up: the component
    /// `row` of `a`, times the component `col` of `u`, times a component of the
    /// cross product of `v` and `w` without their component `row`; negated in
    /// the rows 2 and 4. Zero where `row == col`.
    pub open spec fn pairing_at(
        a: Vector4<T>,
        u: Vector4<T>,
        v: Vector4<T>,
        w: Vector4<T>,
        row: int,
        col: int,
    ) -> T {
        if row == col {
            num::<T>(0)
        } else {
            let k = Vector3::cross_spec(Self::without(v, row), Self::without(w, row));
            let pos = if col < row {
                col
            } else {
                col - 1
            };
            let val = a@[row - 1].mul_spec(u@[col - 1].mul_spec(k@[pos - 1]));
            if row % 2 == 1 {
                val
            } else {
                val.neg_spec()
            }
        }
    }

    /// The twelve products of `quad_spec`, laid out as a matrix.
    pub open spec fn pairing(a: Vector4<T>, u: Vector4<T>, v: Vector4<T>, w: Vector4<T>) -> Matrix4<
        T,
    > {
        Self::tabulate(|row: int, col: int| Self::pairing_at(a, u, v, w, row, col))
    }

    /// The product of the component 1 of `a` with that of the cross product
    /// is the sum of the row 1 of the pairing.
    proof fn lemma_pairing_row1(a: Vector4<T>, u: Vector4<T>, v: Vector4<T>, w: Vector4<T>)
        requires
            ring_laws::<T>(),
            ring_units::<T>(),
        ensures
            a.x.mul_spec(Self::cross4_spec(u, v, w).x) == Self::pairing(
                a,
                u,
                v,
                w,
            ).row(1).sum_spec(),
    {
        let uj = Self::without(u, 1);
        let k = Vector3::cross_spec(Self::without(v, 1), Self::without(w, 1));
        let t = uj.mul_spec(k);
        Vector3::lemma_dot_is_sum(uj, k);
        Vector3::lemma_times_sum(a.x, t);
        let (t1, t2, t3) = (a.x.mul_spec(t.x), a.x.mul_spec(t.y), a.x.mul_spec(t.z));
        let p = Self::pairing(a, u, v, w);
        assert(p.at(1, 2) == t1);
        assert(p.at(1, 3) == t2);
        assert(p.at(1, 4) == t3);
        assert(p.at(1, 1) == num::<T>(0));
        lemma_zero(t1);
    }

    /// The product of the component 2 of `a` with that of the cross product
    /// is the sum of the row 2 of the pairing.
    proof fn lemma_pairing_row2(a: Vector4<T>, u: Vector4<T>, v: Vector4<T>, w: Vector4<T>)
        requires
            ring_laws::<T>(),
            ring_units::<T>(),
        ensures
            a.y.mul_spec(Self::cross4_spec(u, v, w).y) == Self::pairing(
                a,
                u,
                v,
                w,
            ).row(2).sum_spec(),
    {
        let uj = Self::without(u, 2);
        let k = Vector3::cross_spec(Self::without(v, 2), Self::without(w, 2));
        let t = uj.mul_spec(k);
        Vector3::lemma_dot_is_sum(uj, k);
        Vector3::lemma_times_sum(a.y, t);
        let (t1, t2, t3) = (a.y.mul_spec(t.x), a.y.mul_spec(t.y), a.y.mul_spec(t.z));
        lemma_neg_mul(Self::minor_triple(u, v, w, 2), a.y);
        lemma_neg_add(t1.add_spec(t2), t3);
        lemma_neg_add(t1, t2);
        let p = Self::pairing(a, u, v, w);
        assert(p.at(2, 1) == t1.neg_spec());
        assert(p.at(2, 3) == t2.neg_spec());
        assert(p.at(2, 4) == t3.neg_spec());
        assert(p.at(2, 2) == num::<T>(0));
        lemma_zero(t1.neg_spec());
    }

    /// The product of the component 3 of `a` with that of the cross product
    /// is the sum of the row 3 of the pairing.
    proof fn lemma_pairing_row3(a: Vector4<T>, u: Vector4<T>, v: Vector4<T>, w: Vector4<T>)
        requires
            ring_laws::<T>(),
            ring_units::<T>(),
        ensures
            a.z.mul_spec(Self::cross4_spec(u, v, w).z) == Self::pairing(
                a,
                u,
                v,
                w,
            ).row(3).sum_spec(),
    {
        let uj = Self::without(u, 3);
        let k = Vector3::cross_spec(Self::without(v, 3), Self::without(w, 3));
        let t = uj.mul_spec(k);
        Vector3::lemma_dot_is_sum(uj, k);
        Vector3::lemma_times_sum(a.z, t);
        let (t1, t2, t3) = (a.z.mul_spec(t.x), a.z.mul_spec(t.y), a.z.mul_spec(t.z));
        let p = Self::pairing(a, u, v, w);
        assert(p.at(3, 1) == t1);
        assert(p.at(3, 2) == t2);
        assert(p.at(3, 4) == t3);
        assert(p.at(3, 3) == num::<T>(0));
        lemma_zero(t1.add_spec(t2));
    }

    /// The product of the component 4 of `a` with that of the cross product
    /// is the sum of the row 4 of the pairing.
    proof fn lemma_pairing_row4(a: Vector4<T>, u: Vector4<T>, v: Vector4<T>, w: Vector4<T>)
        requires
            ring_laws::<T>(),
            ring_units::<T>(),
        ensures
            a.w.mul_spec(Self::cross4_spec(u, v, w).w) == Self::pairing(
                a,
                u,
                v,
                w,
            ).row(4).sum_spec(),
    {
        let uj = Self::without(u, 4);
        let k = Vector3::cross_spec(Self::without(v, 4), Self::without(w, 4));
        let t = uj.mul_spec(k);
        Vector3::lemma_dot_is_sum(uj, k);
        Vector3::lemma_times_sum(a.w, t);
        let (t1, t2, t3) = (a.w.mul_spec(t.x), a.w.mul_spec(t.y), a.w.mul_spec(t.z));
        lemma_neg_mul(Self::minor_triple(u, v, w, 4), a.w);
        lemma_neg_add(t1.add_spec(t2), t3);
        lemma_neg_add(t1, t2);
        let p = Self::pairing(a, u, v, w);
        assert(p.at(4, 1) == t1.neg_spec());
        assert(p.at(4, 2) == t2.neg_spec());
        assert(p.at(4, 3) == t3.neg_spec());
        assert(p.at(4, 4) == num::<T>(0));
        lemma_zero(t1.neg_spec().add_spec(t2.neg_spec()).add_spec(t3.neg_spec()));
    }

    /// `quad_spec` is the sum of the elements of the pairing.
    pub proof fn lemma_quad_is_total(a: Vector4<T>, u: Vector4<T>, v: Vector4<T>, w: Vector4<T>)
        requires
            ring_laws::<T>(),
            ring_units::<T>(),
        ensures
            Self::quad_spec(a, u, v, w) == Self::pairing(a, u, v, w).total_spec(),
    {
        Self::lemma_pairing_row1(a, u, v, w);
        Self::lemma_pairing_row2(a, u, v, w);
        Self::lemma_pairing_row3(a, u, v, w);
        Self::lemma_pairing_row4(a, u, v, w);
    }

    /// Exchanging the first two vectors of the pairing transposes it and
    /// negates its elements.
    pub proof fn lemma_pairing_swapped(a: Vector4<T>, b: Vector4<T>, v: Vector4<T>, w: Vector4<T>)
        requires
            ring_laws::<T>(),
            ring_units::<T>(),
        ensures
            Self::pairing(b, a, v, w) == Self::pairing(a, b, v, w).transposed().neg_spec(),
    {
        let l = Self::pairing(b, a, v, w);
        let r = Self::pairing(a, b, v, w).transposed().neg_spec();
        lemma_zero(num::<T>(0));
        lemma_mul_swap_neg(a.y, b.x, v.z.mul_spec(w.w).sub_spec(v.w.mul_spec(w.z)));
        lemma_neg_sub(v.w.mul_spec(w.y), v.y.mul_spec(w.w));
        lemma_mul_swap_neg(a.z, b.x, v.y.mul_spec(w.w).sub_spec(v.w.mul_spec(w.y)));
        lemma_mul_swap_neg(a.w, b.x, v.y.mul_spec(w.z).sub_spec(v.z.mul_spec(w.y)));
        lemma_mul_swap_neg(a.x, b.y, v.z.mul_spec(w.w).sub_spec(v.w.mul_spec(w.z)));
        lemma_mul_swap_neg(a.z, b.y, v.w.mul_spec(w.x).sub_spec(v.x.mul_spec(w.w)));
        lemma_neg_sub(v.x.mul_spec(w.z), v.z.mul_spec(w.x));
        lemma_mul_swap_neg(a.w, b.y, v.z.mul_spec(w.x).sub_spec(v.x.mul_spec(w.z)));
        lemma_neg_sub(v.y.mul_spec(w.w), v.w.mul_spec(w.y));
        lemma_mul_swap_neg(a.x, b.z, v.w.mul_spec(w.y).sub_spec(v.y.mul_spec(w.w)));
        lemma_mul_swap_neg(a.y, b.z, v.w.mul_spec(w.x).sub_spec(v.x.mul_spec(w.w)));
        lemma_mul_swap_neg(a.w, b.z, v.x.mul_spec(w.y).sub_spec(v.y.mul_spec(w.x)));
        lemma_mul_swap_neg(a.x, b.w, v.y.mul_spec(w.z).sub_spec(v.z.mul_spec(w.y)));
        lemma_neg_sub(v.z.mul_spec(w.x), v.x.mul_spec(w.z));
        lemma_mul_swap_neg(a.y, b.w, v.x.mul_spec(w.z).sub_spec(v.z.mul_spec(w.x)));
        lemma_mul_swap_neg(a.z, b.w, v.x.mul_spec(w.y).sub_spec(v.y.mul_spec(w.x)));
        assert(l.at(1, 1) == r.at(1, 1));
        assert(l.at(1, 2) == r.at(1, 2));
        assert(l.at(1, 3) == r.at(1, 3));
        assert(l.at(1, 4) == r.at(1, 4));
        assert(l.at(2, 1) == r.at(2, 1));
        assert(l.at(2, 2) == r.at(2, 2));
        assert(l.at(2, 3) == r.at(2, 3));
        assert(l.at(2, 4) == r.at(2, 4));
        assert(l.at(3, 1) == r.at(3, 1));
        assert(l.at(3, 2) == r.at(3, 2));
        assert(l.at(3, 3) == r.at(3, 3));
        assert(l.at(3, 4) == r.at(3, 4));
        assert(l.at(4, 1) == r.at(4, 1));
        assert(l.at(4, 2) == r.at(4, 2));
        assert(l.at(4, 3) == r.at(4, 3));
        assert(l.at(4, 4) == r.at(4, 4));
        assert(l.m =~= r.m);
    }

    /// Exchanging the first two rows negates the determinant.
    pub proof fn lemma_quad_swapped(a: Vector4<T>, b: Vector4<T>, v: Vector4<T>, w: Vector4<T>)
        requires
            ring_laws::<T>(),
            ring_units::<T>(),
        ensures
            Self::quad_spec(b, a, v, w) == Self::quad_spec(a, b, v, w).neg_spec(),
    {
        let p = Self::pairing(a, b, v, w);
        Self::lemma_quad_is_total(a, b, v, w);
        Self::lemma_quad_is_total(b, a, v, w);
        Self::lemma_pairing_swapped(a, b, v, w);
        p.transposed().lemma_total_neg();
        p.lemma_total_transposed();
    }

    /// The elements of a matrix with zeros on its diagonal, in which the
    /// elements opposite each other are the negatives of each other, add up to
    /// zero.
    pub proof fn lemma_total_antisymmetric(self)
        requires
            ring_laws::<T>(),
            ring_units::<T>(),
            self == self.transposed().neg_spec(),
            forall|index: int| 1 <= index <= 4 ==> #[trigger] self.at(index, index) == num::<T>(0),
        ensures
            self.total_spec() == num::<T>(0),
    {
        let o = num::<T>(0);
        let upper = Self::tabulate(
            |row: int, col: int|
                if row < col {
                    self.at(row, col)
                } else {
                    o
                },
        );
        let lower = Self::tabulate(
            |row: int, col: int|
                if row > col {
                    self.at(row, col)
                } else {
                    o
                },
        );
        let both = upper.add_spec(lower);
        let folded = upper.add_spec(lower.transposed());
        assert forall|row: int, col: int|
            1 <= row <= 4 && 1 <= col <= 4 implies #[trigger] both.at(row, col) == self.at(
            row,
            col,
        ) by {
            lemma_zero(self.at(row, col));
            assert(self.at(row, row) == o);
        }
        both.lemma_equal_by_elements(self);
        assert forall|row: int, col: int|
            1 <= row <= 4 && 1 <= col <= 4 implies #[trigger] folded.at(row, col) == Self::zeros().at(
            row,
            col,
        ) by {
            lemma_zero(o);
            lemma_cancel(self.at(row, col));
            assert(self.at(col, row) == self.transposed().neg_spec().at(col, row));
        }
        folded.lemma_equal_by_elements(Self::zeros());
        upper.lemma_total_add(lower);
        upper.lemma_total_add(lower.transposed());
        lower.lemma_total_transposed();
        Self::lemma_total_zeros();
    }

    /// The determinant of a matrix whose first two rows are the same is
    /// zero.
    pub proof fn lemma_quad_repeated(a: Vector4<T>, v: Vector4<T>, w: Vector4<T>)
        requires
            ring_laws::<T>(),
            ring_units::<T>(),
        ensures
            Self::quad_spec(a, a, v, w) == num::<T>(0),
    {
        let p = Self::pairing(a, a, v, w);
        Self::lemma_quad_is_total(a, a, v, w);
        Self::lemma_pairing_swapped(a, a, v, w);
        p.lemma_total_antisymmetric();
    }

    /// The three vectors of the cross product can be turned round.
    pub proof fn lemma_cross4_cyclic(u: Vector4<T>, v: Vector4<T>, w: Vector4<T>)
        requires
            ring_laws::<T>(),
            ring_units::<T>(),
        ensures
            Self::cross4_spec(u, v, w) == Self::cross4_spec(v, w, u),
    {
        Vector3::lemma_triple_cyclic(Self::without(u, 1), Self::without(v, 1), Self::without(w, 1));
        Vector3::lemma_triple_cyclic(Self::without(u, 2), Self::without(v, 2), Self::without(w, 2));
        Vector3::lemma_triple_cyclic(Self::without(u, 3), Self::without(v, 3), Self::without(w, 3));
        Vector3::lemma_triple_cyclic(Self::without(u, 4), Self::without(v, 4), Self::without(w, 4));
    }

    /// The determinant is that of the rows, expanded along the first.
    pub proof fn lemma_determinant_is_quad(self)
        requires
            ring_laws::<T>(),
            ring_units::<T>(),
        ensures
            self.determinant_spec() == Self::quad_spec(
                self.row(1),
                self.row(2),
                self.row(3),
                self.row(4),
            ),
    {
        let s1 = self.minor(1, 1);
        s1.lemma_determinant_transposed();
        s1.lemma_determinant_is_triple();
        assert(s1.row(1) == Self::without(self.row(2), 1));
        assert(s1.row(2) == Self::without(self.row(3), 1));
        assert(s1.row(3) == Self::without(self.row(4), 1));
        let t1 = Self::minor_triple(self.row(2), self.row(3), self.row(4), 1);
        lemma_mul_commutative(t1, self.at(1, 1));
        let s2 = self.minor(1, 2);
        s2.lemma_determinant_transposed();
        s2.lemma_determinant_is_triple();
        assert(s2.row(1) == Self::without(self.row(2), 2));
        assert(s2.row(2) == Self::without(self.row(3), 2));
        assert(s2.row(3) == Self::without(self.row(4), 2));
        let t2 = Self::minor_triple(self.row(2), self.row(3), self.row(4), 2);
        lemma_mul_commutative(t2, self.at(1, 2));
        let s3 = self.minor(1, 3);
        s3.lemma_determinant_transposed();
        s3.lemma_determinant_is_triple();
        assert(s3.row(1) == Self::without(self.row(2), 3));
        assert(s3.row(2) == Self::without(self.row(3), 3));
        assert(s3.row(3) == Self::without(self.row(4), 3));
        let t3 = Self::minor_triple(self.row(2), self.row(3), self.row(4), 3);
        lemma_mul_commutative(t3, self.at(1, 3));
        let s4 = self.minor(1, 4);
        s4.lemma_determinant_transposed();
        s4.lemma_determinant_is_triple();
        assert(s4.row(1) == Self::without(self.row(2), 4));
        assert(s4.row(2) == Self::without(self.row(3), 4));
        assert(s4.row(3) == Self::without(self.row(4), 4));
        let t4 = Self::minor_triple(self.row(2), self.row(3), self.row(4), 4);
        lemma_mul_commutative(t4, self.at(1, 4));
        lemma_neg_mul(t2, self.at(1, 2));
        lemma_neg_mul(t4, self.at(1, 4));
        let (e1, e2) = (self.at(1, 1).mul_spec(t1), self.at(1, 2).mul_spec(t2));
        let (e3, e4) = (self.at(1, 3).mul_spec(t3), self.at(1, 4).mul_spec(t4));
        lemma_sub_is_add_neg(e1, e2);
        lemma_sub_is_add_neg(e1.sub_spec(e2).add_spec(e3), e4);
    }

    /// The dot products of the rows with the column 1 of the inverse: the
    /// determinant times its reciprocal for the row 1, zero for the others.
    proof fn lemma_inverse_column1(self)
        requires
            ring_laws::<T>(),
            ring_units::<T>(),
        ensures
            Vector4::dot_spec(self.row(1), self.inverse_spec().col(1))
                == self.determinant_spec().mul_spec(self.inv_det_spec()),
            Vector4::dot_spec(self.row(2), self.inverse_spec().col(1)) == num::<T>(0),
            Vector4::dot_spec(self.row(3), self.inverse_spec().col(1)) == num::<T>(0),
            Vector4::dot_spec(self.row(4), self.inverse_spec().col(1)) == num::<T>(0),
    {
        let (r1, r2, r3, r4) = (self.row(1), self.row(2), self.row(3), self.row(4));
        let k = self.inv_det_spec();
        let o = num::<T>(0);
        let x = Self::cross4_spec(r2, r3, r4);
        self.lemma_cofactor_is_triple(1, 1);
        assert(self.minor(1, 1).row(1) == Self::without(r2, 1));
        assert(self.minor(1, 1).row(2) == Self::without(r3, 1));
        assert(self.minor(1, 1).row(3) == Self::without(r4, 1));
        self.lemma_cofactor_is_triple(1, 2);
        assert(self.minor(1, 2).row(1) == Self::without(r2, 2));
        assert(self.minor(1, 2).row(2) == Self::without(r3, 2));
        assert(self.minor(1, 2).row(3) == Self::without(r4, 2));
        self.lemma_cofactor_is_triple(1, 3);
        assert(self.minor(1, 3).row(1) == Self::without(r2, 3));
        assert(self.minor(1, 3).row(2) == Self::without(r3, 3));
        assert(self.minor(1, 3).row(3) == Self::without(r4, 3));
        self.lemma_cofactor_is_triple(1, 4);
        assert(self.minor(1, 4).row(1) == Self::without(r2, 4));
        assert(self.minor(1, 4).row(2) == Self::without(r3, 4));
        assert(self.minor(1, 4).row(3) == Self::without(r4, 4));
        let g = Vector4 {
            x: self.cofactor_spec(1, 1),
            y: self.cofactor_spec(1, 2),
            z: self.cofactor_spec(1, 3),
            w: self.cofactor_spec(1, 4),
        };
        assert(g == x);
        assert(self.inverse_spec().col(1) == g.mul_spec(k));
        Vector4::lemma_dot_scaled(r1, g, k);
        Vector4::lemma_dot_scaled(r2, g, k);
        Vector4::lemma_dot_scaled(r3, g, k);
        Vector4::lemma_dot_scaled(r4, g, k);
        lemma_neg_mul(o, k);
        lemma_zero(o);
        self.lemma_determinant_is_quad();
        lemma_neg_neg(self.determinant_spec());
        Self::lemma_cross4_cyclic(r2, r3, r4);
        Self::lemma_cross4_cyclic(r3, r4, r2);
        Self::lemma_quad_repeated(r2, r3, r4);
        Self::lemma_quad_repeated(r3, r4, r2);
        Self::lemma_quad_repeated(r4, r2, r3);
        assert(Vector4::dot_spec(r1, g) == self.determinant_spec());
        assert(Vector4::dot_spec(r2, g) == o);
        assert(Vector4::dot_spec(r3, g) == o);
        assert(Vector4::dot_spec(r4, g) == o);
    }

    /// The dot products of the rows with the column 2 of the inverse: the
    /// determinant times its reciprocal for the row 2, zero for the others.
    proof fn lemma_inverse_column2(self)
        requires
            ring_laws::<T>(),
            ring_units::<T>(),
        ensures
            Vector4::dot_spec(self.row(1), self.inverse_spec().col(2)) == num::<T>(0),
            Vector4::dot_spec(self.row(2), self.inverse_spec().col(2))
                == self.determinant_spec().mul_spec(self.inv_det_spec()),
            Vector4::dot_spec(self.row(3), self.inverse_spec().col(2)) == num::<T>(0),
            Vector4::dot_spec(self.row(4), self.inverse_spec().col(2)) == num::<T>(0),
    {
        let (r1, r2, r3, r4) = (self.row(1), self.row(2), self.row(3), self.row(4));
        let k = self.inv_det_spec();
        let o = num::<T>(0);
        let x = Self::cross4_spec(r1, r3, r4);
        self.lemma_cofactor_is_triple(2, 1);
        assert(self.minor(2, 1).row(1) == Self::without(r1, 1));
        assert(self.minor(2, 1).row(2) == Self::without(r3, 1));
        assert(self.minor(2, 1).row(3) == Self::without(r4, 1));
        self.lemma_cofactor_is_triple(2, 2);
        assert(self.minor(2, 2).row(1) == Self::without(r1, 2));
        assert(self.minor(2, 2).row(2) == Self::without(r3, 2));
        assert(self.minor(2, 2).row(3) == Self::without(r4, 2));
        self.lemma_cofactor_is_triple(2, 3);
        assert(self.minor(2, 3).row(1) == Self::without(r1, 3));
        assert(self.minor(2, 3).row(2) == Self::without(r3, 3));
        assert(self.minor(2, 3).row(3) == Self::without(r4, 3));
        self.lemma_cofactor_is_triple(2, 4);
        assert(self.minor(2, 4).row(1) == Self::without(r1, 4));
        assert(self.minor(2, 4).row(2) == Self::without(r3, 4));
        assert(self.minor(2, 4).row(3) == Self::without(r4, 4));
        let g = Vector4 {
            x: self.cofactor_spec(2, 1),
            y: self.cofactor_spec(2, 2),
            z: self.cofactor_spec(2, 3),
            w: self.cofactor_spec(2, 4),
        };
        lemma_neg_neg(Self::minor_triple(r1, r3, r4, 2));
        lemma_neg_neg(Self::minor_triple(r1, r3, r4, 4));
        assert(g == x.neg_spec());
        assert(self.inverse_spec().col(2) == g.mul_spec(k));
        Vector4::lemma_dot_scaled(r1, g, k);
        Vector4::lemma_dot_neg(r1, x);
        Vector4::lemma_dot_scaled(r2, g, k);
        Vector4::lemma_dot_neg(r2, x);
        Vector4::lemma_dot_scaled(r3, g, k);
        Vector4::lemma_dot_neg(r3, x);
        Vector4::lemma_dot_scaled(r4, g, k);
        Vector4::lemma_dot_neg(r4, x);
        lemma_neg_mul(o, k);
        lemma_zero(o);
        self.lemma_determinant_is_quad();
        lemma_neg_neg(self.determinant_spec());
        Self::lemma_cross4_cyclic(r1, r3, r4);
        Self::lemma_cross4_cyclic(r3, r4, r1);
        Self::lemma_quad_repeated(r1, r3, r4);
        Self::lemma_quad_repeated(r3, r4, r1);
        Self::lemma_quad_repeated(r4, r1, r3);
        Self::lemma_quad_swapped(r1, r2, r3, r4);
        assert(Vector4::dot_spec(r1, g) == o);
        assert(Vector4::dot_spec(r2, g) == self.determinant_spec());
        assert(Vector4::dot_spec(r3, g) == o);
        assert(Vector4::dot_spec(r4, g) == o);
    }

    /// The dot products of the rows with the column 3 of the inverse: the
    /// determinant times its reciprocal for the row 3, zero for the others.
    proof fn lemma_inverse_column3(self)
        requires
            ring_laws::<T>(),
            ring_units::<T>(),
        ensures
            Vector4::dot_spec(self.row(1), self.inverse_spec().col(3)) == num::<T>(0),
            Vector4::dot_spec(self.row(2), self.inverse_spec().col(3)) == num::<T>(0),
            Vector4::dot_spec(self.row(3), self.inverse_spec().col(3))
                == self.determinant_spec().mul_spec(self.inv_det_spec()),
            Vector4::dot_spec(self.row(4), self.inverse_spec().col(3)) == num::<T>(0),
    {
        let (r1, r2, r3, r4) = (self.row(1), self.row(2), self.row(3), self.row(4));
        let k = self.inv_det_spec();
        let o = num::<T>(0);
        let x = Self::cross4_spec(r1, r2, r4);
        self.lemma_cofactor_is_triple(3, 1);
        assert(self.minor(3, 1).row(1) == Self::without(r1, 1));
        assert(self.minor(3, 1).row(2) == Self::without(r2, 1));
        assert(self.minor(3, 1).row(3) == Self::without(r4, 1));
        self.lemma_cofactor_is_triple(3, 2);
        assert(self.minor(3, 2).row(1) == Self::without(r1, 2));
        assert(self.minor(3, 2).row(2) == Self::without(r2, 2));
        assert(self.minor(3, 2).row(3) == Self::without(r4, 2));
        self.lemma_cofactor_is_triple(3, 3);
        assert(self.minor(3, 3).row(1) == Self::without(r1, 3));
        assert(self.minor(3, 3).row(2) == Self::without(r2, 3));
        assert(self.minor(3, 3).row(3) == Self::without(r4, 3));
        self.lemma_cofactor_is_triple(3, 4);
        assert(self.minor(3, 4).row(1) == Self::without(r1, 4));
        assert(self.minor(3, 4).row(2) == Self::without(r2, 4));
        assert(self.minor(3, 4).row(3) == Self::without(r4, 4));
        let g = Vector4 {
            x: self.cofactor_spec(3, 1),
            y: self.cofactor_spec(3, 2),
            z: self.cofactor_spec(3, 3),
            w: self.cofactor_spec(3, 4),
        };
        assert(g == x);
        assert(self.inverse_spec().col(3) == g.mul_spec(k));
        Vector4::lemma_dot_scaled(r1, g, k);
        Vector4::lemma_dot_scaled(r2, g, k);
        Vector4::lemma_dot_scaled(r3, g, k);
        Vector4::lemma_dot_scaled(r4, g, k);
        lemma_neg_mul(o, k);
        lemma_zero(o);
        self.lemma_determinant_is_quad();
        lemma_neg_neg(self.determinant_spec());
        Self::lemma_cross4_cyclic(r1, r2, r4);
        Self::lemma_cross4_cyclic(r2, r4, r1);
        Self::lemma_quad_repeated(r1, r2, r4);
        Self::lemma_quad_repeated(r2, r4, r1);
        Self::lemma_quad_repeated(r4, r1, r2);
        Self::lemma_quad_swapped(r2, r3, r4, r1);
        Self::lemma_cross4_cyclic(r1, r3, r4);
        Self::lemma_quad_swapped(r1, r2, r3, r4);
        assert(Vector4::dot_spec(r1, g) == o);
        assert(Vector4::dot_spec(r2, g) == o);
        assert(Vector4::dot_spec(r3, g) == self.determinant_spec());
        assert(Vector4::dot_spec(r4, g) == o);
    }

    /// The dot products of the rows with the column 4 of the inverse: the
    /// determinant times its reciprocal for the row 4, zero for the others.
    proof fn lemma_inverse_column4(self)
        requires
            ring_laws::<T>(),
            ring_units::<T>(),
        ensures
            Vector4::dot_spec(self.row(1), self.inverse_spec().col(4)) == num::<T>(0),
            Vector4::dot_spec(self.row(2), self.inverse_spec().col(4)) == num::<T>(0),
            Vector4::dot_spec(self.row(3), self.inverse_spec().col(4)) == num::<T>(0),
            Vector4::dot_spec(self.row(4), self.inverse_spec().col(4))
                == self.determinant_spec().mul_spec(self.inv_det_spec()),
    {
        let (r1, r2, r3, r4) = (self.row(1), self.row(2), self.row(3), self.row(4));
        let k = self.inv_det_spec();
        let o = num::<T>(0);
        let x = Self::cross4_spec(r1, r2, r3);
        self.lemma_cofactor_is_triple(4, 1);
        assert(self.minor(4, 1).row(1) == Self::without(r1, 1));
        assert(self.minor(4, 1).row(2) == Self::without(r2, 1));
        assert(self.minor(4, 1).row(3) == Self::without(r3, 1));
        self.lemma_cofactor_is_triple(4, 2);
        assert(self.minor(4, 2).row(1) == Self::without(r1, 2));
        assert(self.minor(4, 2).row(2) == Self::without(r2, 2));
        assert(self.minor(4, 2).row(3) == Self::without(r3, 2));
        self.lemma_cofactor_is_triple(4, 3);
        assert(self.minor(4, 3).row(1) == Self::without(r1, 3));
        assert(self.minor(4, 3).row(2) == Self::without(r2, 3));
        assert(self.minor(4, 3).row(3) == Self::without(r3, 3));
        self.lemma_cofactor_is_triple(4, 4);
        assert(self.minor(4, 4).row(1) == Self::without(r1, 4));
        assert(self.minor(4, 4).row(2) == Self::without(r2, 4));
        assert(self.minor(4, 4).row(3) == Self::without(r3, 4));
        let g = Vector4 {
            x: self.cofactor_spec(4, 1),
            y: self.cofactor_spec(4, 2),
            z: self.cofactor_spec(4, 3),
            w: self.cofactor_spec(4, 4),
        };
        lemma_neg_neg(Self::minor_triple(r1, r2, r3, 2));
        lemma_neg_neg(Self::minor_triple(r1, r2, r3, 4));
        assert(g == x.neg_spec());
        assert(self.inverse_spec().col(4) == g.mul_spec(k));
        Vector4::lemma_dot_scaled(r1, g, k);
        Vector4::lemma_dot_neg(r1, x);
        Vector4::lemma_dot_scaled(r2, g, k);
        Vector4::lemma_dot_neg(r2, x);
        Vector4::lemma_dot_scaled(r3, g, k);
        Vector4::lemma_dot_neg(r3, x);
        Vector4::lemma_dot_scaled(r4, g, k);
        Vector4::lemma_dot_neg(r4, x);
        lemma_neg_mul(o, k);
        lemma_zero(o);
        self.lemma_determinant_is_quad();
        lemma_neg_neg(self.determinant_spec());
        Self::lemma_cross4_cyclic(r1, r2, r3);
        Self::lemma_cross4_cyclic(r2, r3, r1);
        Self::lemma_quad_repeated(r1, r2, r3);
        Self::lemma_quad_repeated(r2, r3, r1);
        Self::lemma_quad_repeated(r3, r1, r2);
        Self::lemma_quad_swapped(r1, r4, r2, r3);
        Self::lemma_cross4_cyclic(r4, r2, r3);
        assert(Vector4::dot_spec(r1, g) == o);
        assert(Vector4::dot_spec(r2, g) == o);
        assert(Vector4::dot_spec(r3, g) == o);
        assert(Vector4::dot_spec(r4, g) == self.determinant_spec());
    }

    /// A matrix times its inverse is the identity matrix, where the
    /// components form a commutative ring and the determinant times its
    /// reciprocal is one.
    pub proof fn lemma_times_inverse(self)
        requires
            ring_laws::<T>(),
            ring_units::<T>(),
            self.determinant_spec().mul_spec(self.inv_det_spec()) == num::<T>(1),
        ensures
            self.mul_spec(self.inverse_spec()) == Self::identity(),
    {
        let p = self.mul_spec(self.inverse_spec());
        self.lemma_inverse_column1();
        self.lemma_inverse_column2();
        self.lemma_inverse_column3();
        self.lemma_inverse_column4();
        assert(p.at(1, 1) == Self::identity().at(1, 1));
        assert(p.at(2, 1) == Self::identity().at(2, 1));
        assert(p.at(3, 1) == Self::identity().at(3, 1));
        assert(p.at(4, 1) == Self::identity().at(4, 1));
        assert(p.at(1, 2) == Self::identity().at(1, 2));
        assert(p.at(2, 2) == Self::identity().at(2, 2));
        assert(p.at(3, 2) == Self::identity().at(3, 2));
        assert(p.at(4, 2) == Self::identity().at(4, 2));
        assert(p.at(1, 3) == Self::identity().at(1, 3));
        assert(p.at(2, 3) == Self::identity().at(2, 3));
        assert(p.at(3, 3) == Self::identity().at(3, 3));
        assert(p.at(4, 3) == Self::identity().at(4, 3));
        assert(p.at(1, 4) == Self::identity().at(1, 4));
        assert(p.at(2, 4) == Self::identity().at(2, 4));
        assert(p.at(3, 4) == Self::identity().at(3, 4));
        assert(p.at(4, 4) == Self::identity().at(4, 4));
        assert(p.m =~= Self::identity().m);
    }
}

} // verus!
