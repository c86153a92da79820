use vex::common::TransformPoint;
use vex::matrix2::Matrix2;
use vex::matrix3::Matrix3;
use vex::matrix4::Matrix4;
use vex::vector2::Vector2;
use vex::vector3::Vector3;
use vex::vector4::Vector4;

#[test]
fn matrix3_inverse_of_the_documented_example() {
    let mut actual = Matrix3::make(1.0f32, 0.0, 5.0, 2.0, 1.0, 6.0, 3.0, 4.0, 0.0);
    assert!(actual.inverse());
    let expected = Matrix3::make(-24.0f32, 20.0, -5.0, 18.0, -15.0, 4.0, 5.0, -4.0, 1.0);
    assert!(actual == expected);
}

#[test]
fn matrix4_inverse_of_the_documented_example() {
    let mut actual = Matrix4::make(
        1.0f32, 0.0, 2.0, 2.0, 0.0, 2.0, 1.0, 0.0, 0.0, 1.0, 0.0, 1.0, 1.0, 2.0, 1.0, 4.0,
    );
    assert!(actual.inverse());
    let expected = Matrix4::make(
        -2.0f32, 1.0, -8.0, 3.0, -0.5, 0.5, -1.0, 0.5, 1.0, 0.0, 2.0, -1.0, 0.5, -0.5, 2.0, -0.5,
    );
    assert!(actual == expected);
}

#[test]
fn matrix2_determinant_and_inverse_of_the_documented_example() {
    let mut actual = Matrix2::make(1.0f32, 2.0, 3.0, 4.0);
    assert_eq!(actual.determinant(), -2.0);
    assert!(actual.inverse());
    assert!(actual == Matrix2::make(-2.0, 1.0, 1.5, -0.5));
}

#[test]
fn inverse_of_a_singular_matrix_fails_and_changes_nothing() {
    let mut a = Matrix2::make(1.0f32, 1.0, 1.0, 1.0);
    assert!(!a.inverse());
    assert_eq!(a.m, [1.0, 1.0, 1.0, 1.0]);
    let mut b = Matrix3::make(1.0f32, 2.0, 3.0, 1.0, 2.0, 3.0, 1.0, 2.0, 3.0);
    assert!(!b.inverse());
    assert_eq!(b.m(), [1.0, 2.0, 3.0, 1.0, 2.0, 3.0, 1.0, 2.0, 3.0]);
    let mut c = Matrix4::make(
        1.0f32, 2.0, 3.0, 4.0, 1.0, 2.0, 3.0, 4.0, 1.0, 2.0, 3.0, 4.0, 1.0, 2.0, 3.0, 4.0,
    );
    assert!(!c.inverse());
    assert_eq!(
        c.m,
        [1.0, 2.0, 3.0, 4.0, 1.0, 2.0, 3.0, 4.0, 1.0, 2.0, 3.0, 4.0, 1.0, 2.0, 3.0, 4.0]
    );
}

#[test]
fn matrix3_product_of_the_documented_example() {
    let a = Matrix3::make(1.0f32, 2.0, 3.0, 4.0, 5.0, 6.0, 7.0, 8.0, 9.0);
    let b = Matrix3::make(9.0f32, 8.0, 7.0, 6.0, 5.0, 4.0, 3.0, 2.0, 1.0);
    let expected = Matrix3::make(90.0f32, 114.0, 138.0, 54.0, 69.0, 84.0, 18.0, 24.0, 30.0);
    assert!(a * b == expected);
}

#[test]
fn matrix3_transforms_points_and_vectors() {
    let m = Matrix3::make(1.0f32, 2.0, 3.0, 4.0, 5.0, 6.0, 7.0, 8.0, 9.0);
    let p = m.transform_point(&Vector2::make(1.0f32, 2.0));
    assert!(p == Vector2::make(16.0, 20.0));
    let v = m.transform_point(&Vector3::make(1.0f32, 2.0, 3.0));
    assert!(v == Vector3::make(30.0, 36.0, 42.0));
}

#[test]
fn matrix4_transposes() {
    let mut a = Matrix4::make(
        1.0f32, 2.0, 3.0, 4.0, 5.0, 6.0, 7.0, 8.0, 9.0, 10.0, 11.0, 12.0, 13.0, 14.0, 15.0, 16.0,
    );
    a.transpose();
    assert_eq!(
        a.m,
        [1.0, 5.0, 9.0, 13.0, 2.0, 6.0, 10.0, 14.0, 3.0, 7.0, 11.0, 15.0, 4.0, 8.0, 12.0, 16.0]
    );
    a.transpose();
    assert_eq!(a.m11(), 1.0);
    assert_eq!(a.m21(), 2.0);
    assert_eq!(a.m14(), 13.0);
}

#[test]
fn matrix4_moves_a_point() {
    let m = Matrix4::translate(1.0f32, 2.0, 3.0);
    let p = m.transform_point(&Vector3::make(1.0f32, 1.0, 1.0));
    assert!(p == Vector3::make(2.0, 3.0, 4.0));
    let q = m.transform_point(&Vector4::make(1.0f32, 1.0, 1.0, 0.0));
    assert!(q == Vector4::make(1.0, 1.0, 1.0, 0.0));
}

#[test]
fn matrices_start_as_the_identity() {
    assert_eq!(Matrix2::<f32>::new().m, [1.0, 0.0, 0.0, 1.0]);
    assert_eq!(Matrix3::<f32>::new().m(), [1.0, 0.0, 0.0, 0.0, 1.0, 0.0, 0.0, 0.0, 1.0]);
    assert_eq!(
        Matrix4::<f32>::new().m,
        [1.0, 0.0, 0.0, 0.0, 0.0, 1.0, 0.0, 0.0, 0.0, 0.0, 1.0, 0.0, 0.0, 0.0, 0.0, 1.0]
    );
}

#[test]
fn matrix2_elements_are_named_by_row_and_column() {
    let mut a = Matrix2::make(1.0f32, 2.0, 3.0, 4.0);
    assert_eq!(a.m, [1.0, 2.0, 3.0, 4.0]);
    assert_eq!(a.m11(), 1.0);
    assert_eq!(a.m21(), 2.0);
    assert_eq!(a.m12(), 3.0);
    assert_eq!(a.m22(), 4.0);
    a.set_m11(5.0);
    a.set_m21(6.0);
    a.set_m12(7.0);
    a.set_m22(8.0);
    assert_eq!(a.m, [5.0, 6.0, 7.0, 8.0]);
    a.set(1.0, 2.0, 3.0, 4.0);
    a.transpose();
    assert_eq!(a.m, [1.0, 3.0, 2.0, 4.0]);
}

#[test]
fn matrix3_elements_are_named_by_row_and_column() {
    let mut a = Matrix3::make(1.0f32, 2.0, 3.0, 4.0, 5.0, 6.0, 7.0, 8.0, 9.0);
    assert_eq!(a.m11(), 1.0);
    assert_eq!(a.m21(), 2.0);
    assert_eq!(a.m31(), 3.0);
    assert_eq!(a.m12(), 4.0);
    assert_eq!(a.m22(), 5.0);
    assert_eq!(a.m32(), 6.0);
    assert_eq!(a.m13(), 7.0);
    assert_eq!(a.m23(), 8.0);
    assert_eq!(a.m33(), 9.0);
    a.set_m32(60.0);
    a.set_m13(70.0);
    assert_eq!(a.m(), [1.0, 2.0, 3.0, 4.0, 5.0, 60.0, 70.0, 8.0, 9.0]);
    a.set(1.0, 2.0, 3.0, 4.0, 5.0, 6.0, 7.0, 8.0, 9.0);
    a.transpose();
    assert!(a == Matrix3::make(1.0, 4.0, 7.0, 2.0, 5.0, 8.0, 3.0, 6.0, 9.0));
}

#[test]
fn matrix4_elements_are_named_by_row_and_column() {
    let mut a = Matrix4::make(
        1.0f32, 2.0, 3.0, 4.0, 5.0, 6.0, 7.0, 8.0, 9.0, 10.0, 11.0, 12.0, 13.0, 14.0, 15.0, 16.0,
    );
    assert_eq!(a.m41(), 4.0);
    assert_eq!(a.m12(), 5.0);
    assert_eq!(a.m32(), 7.0);
    assert_eq!(a.m23(), 10.0);
    assert_eq!(a.m34(), 15.0);
    assert_eq!(a.m44(), 16.0);
    a.set_m41(40.0);
    a.set_m34(150.0);
    assert_eq!(a.m[3], 40.0);
    assert_eq!(a.m[14], 150.0);
    a.set(
        16.0, 15.0, 14.0, 13.0, 12.0, 11.0, 10.0, 9.0, 8.0, 7.0, 6.0, 5.0, 4.0, 3.0, 2.0, 1.0,
    );
    assert_eq!(a.m11(), 16.0);
    assert_eq!(a.m24(), 3.0);
}

#[test]
fn determinants_of_known_matrices() {
    assert_eq!(Matrix3::make(1.0f32, 2.0, 3.0, 4.0, 5.0, 6.0, 7.0, 8.0, 9.0).determinant(), 0.0);
    assert_eq!(Matrix3::make(1.0f32, 0.0, 5.0, 2.0, 1.0, 6.0, 3.0, 4.0, 0.0).determinant(), 1.0);
    assert_eq!(Matrix3::make(2i32, 0, 0, 0, 3, 0, 0, 0, 4).determinant(), 24);
    let a = Matrix4::make(
        1.0f32, 0.0, 2.0, 2.0, 0.0, 2.0, 1.0, 0.0, 0.0, 1.0, 0.0, 1.0, 1.0, 2.0, 1.0, 4.0,
    );
    assert_eq!(a.determinant(), 2.0);
    let b = Matrix4::make(2i64, 0, 0, 1, 1, 3, 0, 0, 0, 1, 1, 0, 0, 0, 2, 1);
    assert_eq!(b.determinant(), 4);
    assert_eq!(Matrix4::<f32>::new().determinant(), 1.0);
}

#[test]
fn matrix4_inverse_with_quarters() {
    let mut a = Matrix4::make(
        2.0f32, 0.0, 0.0, 1.0, 1.0, 3.0, 0.0, 0.0, 0.0, 1.0, 1.0, 0.0, 0.0, 0.0, 2.0, 1.0,
    );
    assert!(a.inverse());
    let expected = Matrix4::make(
        0.75f32, -0.5, 1.5, -0.75, -0.25, 0.5, -0.5, 0.25, 0.25, -0.5, 1.5, -0.25, -0.5, 1.0,
        -3.0, 1.5,
    );
    assert!(a == expected);
}

#[test]
fn matrix2_product_and_operators() {
    let a = Matrix2::make(1.0f32, 2.0, 3.0, 4.0);
    let b = Matrix2::make(5.0f32, 6.0, 7.0, 8.0);
    assert!(a * b == Matrix2::make(23.0, 34.0, 31.0, 46.0));
    assert!(a + b == Matrix2::make(6.0, 8.0, 10.0, 12.0));
    assert!(a - b == Matrix2::make(-4.0, -4.0, -4.0, -4.0));
    assert!(a + 1.0 == Matrix2::make(2.0, 3.0, 4.0, 5.0));
    assert!(a - 1.0 == Matrix2::make(0.0, 1.0, 2.0, 3.0));
    assert!(a * 2.0 == Matrix2::make(2.0, 4.0, 6.0, 8.0));
    assert!(a / 2.0 == Matrix2::make(0.5, 1.0, 1.5, 2.0));
    assert!(-a == Matrix2::make(-1.0, -2.0, -3.0, -4.0));
    let mut c = a;
    c += 1.0;
    c += a;
    c -= 2.0;
    c -= b;
    c *= 2.0;
    c /= 4.0;
    assert!(c == Matrix2::make(-2.0, -1.5, -1.0, -0.5));
    c = a;
    c *= b;
    assert!(c == a * b);
}

#[test]
fn matrix3_operators_work_element_by_element() {
    let a = Matrix3::make(1.0f32, 2.0, 3.0, 4.0, 5.0, 6.0, 7.0, 8.0, 9.0);
    assert!(a + a == a * 2.0);
    assert!(a - a == Matrix3::make(0.0, 0.0, 0.0, 0.0, 0.0, 0.0, 0.0, 0.0, 0.0));
    assert!(a / 2.0 == Matrix3::make(0.5, 1.0, 1.5, 2.0, 2.5, 3.0, 3.5, 4.0, 4.5));
    assert!(-a == a * -1.0);
    let mut b = a;
    b *= Matrix3::make(9.0, 8.0, 7.0, 6.0, 5.0, 4.0, 3.0, 2.0, 1.0);
    assert!(b == Matrix3::make(90.0, 114.0, 138.0, 54.0, 69.0, 84.0, 18.0, 24.0, 30.0));
}

#[test]
fn matrix4_product_of_known_matrices() {
    let a = Matrix4::make(
        1.0f32, 2.0, 3.0, 4.0, 5.0, 6.0, 7.0, 8.0, 9.0, 10.0, 11.0, 12.0, 13.0, 14.0, 15.0, 16.0,
    );
    let b = Matrix4::make(
        16.0f32, 15.0, 14.0, 13.0, 12.0, 11.0, 10.0, 9.0, 8.0, 7.0, 6.0, 5.0, 4.0, 3.0, 2.0, 1.0,
    );
    let expected = Matrix4::make(
        386.0f32, 444.0, 502.0, 560.0, 274.0, 316.0, 358.0, 400.0, 162.0, 188.0, 214.0, 240.0,
        50.0, 60.0, 70.0, 80.0,
    );
    assert!(a * b == expected);
    assert!(a * Matrix4::new() == a);
    assert!(a + 1.0 - 1.0 == a);
    assert!(-(-a) == a);
    assert!(a * 2.0 / 2.0 == a);
}

#[test]
fn matrix2_transforms_a_vector() {
    let m = Matrix2::make(1.0f32, 2.0, 3.0, 4.0);
    let v = m.transform_point(&Vector2::make(1.0f32, 2.0));
    assert!(v == Vector2::make(7.0, 10.0));
}

#[test]
fn matrix4_transforms_a_vector4() {
    let m = Matrix4::make(
        1.0f32, 2.0, 3.0, 4.0, 5.0, 6.0, 7.0, 8.0, 9.0, 10.0, 11.0, 12.0, 13.0, 14.0, 15.0, 16.0,
    );
    let v = m.transform_point(&Vector4::make(1.0f32, 2.0, 3.0, 4.0));
    assert!(v == Vector4::make(90.0, 100.0, 110.0, 120.0));
    let p = m.transform_point(&Vector3::make(1.0f32, 2.0, 3.0));
    assert!(p == Vector3::make(51.0, 58.0, 65.0));
}

#[test]
fn matrix4_scale_and_ortho() {
    let s = Matrix4::scale(2.0f32, 3.0, 4.0);
    assert_eq!(
        s.m,
        [2.0, 0.0, 0.0, 0.0, 0.0, 3.0, 0.0, 0.0, 0.0, 0.0, 4.0, 0.0, 0.0, 0.0, 0.0, 1.0]
    );
    let t = Matrix4::translate(5.0f32, 6.0, 7.0);
    assert_eq!(
        t.m,
        [1.0, 0.0, 0.0, 0.0, 0.0, 1.0, 0.0, 0.0, 0.0, 0.0, 1.0, 0.0, 5.0, 6.0, 7.0, 1.0]
    );
    let o = Matrix4::ortho(-1.0f32, 3.0, 2.0, -2.0, 1.0, 5.0);
    assert_eq!(
        o.m,
        [0.5, 0.0, 0.0, 0.0, 0.0, 0.5, 0.0, 0.0, 0.0, 0.0, -0.5, 0.0, -0.5, -0.0, -1.5, 1.0]
    );
}

#[test]
fn matrix4_rotations_from_cosine_and_sine() {
    let x = Matrix4::rotate_x_by(0.5f32, 0.25);
    assert_eq!(
        x.m,
        [1.0, 0.0, 0.0, 0.0, 0.0, 0.5, 0.25, 0.0, 0.0, -0.25, 0.5, 0.0, 0.0, 0.0, 0.0, 1.0]
    );
    let y = Matrix4::rotate_y_by(0.5f32, 0.25);
    assert_eq!(
        y.m,
        [0.5, 0.0, 0.25, 0.0, 0.0, 1.0, 0.0, 0.0, 0.0, 0.0, 0.5, 0.0, 0.0, 0.0, 0.0, 1.0]
    );
    let z = Matrix4::rotate_z_by(0.5f32, 0.25);
    assert_eq!(
        z.m,
        [0.5, -0.25, 0.0, 0.0, 0.25, 0.5, 0.0, 0.0, 0.0, 0.0, 1.0, 0.0, 0.0, 0.0, 0.0, 1.0]
    );
}

#[test]
fn matrix4_perspective_from_cosine_and_sine() {
    let p = Matrix4::perspective_by(1.0f32, 0.5, 2.0, 1.0, 3.0);
    assert_eq!(
        p.m,
        [1.0, 0.0, 0.0, 0.0, 0.0, 2.0, 0.0, 0.0, 0.0, 0.0, -2.0, -3.0, 0.0, 0.0, 0.0, 0.0]
    );
}

#[test]
fn matrix4_of_a_viewer() {
    let a = Matrix4::look_at_by(
        Vector3::make(1.0f32, 0.0, 0.0),
        Vector3::make(0.0f32, 1.0, 0.0),
        Vector3::make(0.0f32, 0.0, -1.0),
        Vector3::make(5.0f32, 6.0, 7.0),
    );
    assert_eq!(
        a.m,
        [1.0, 0.0, 0.0, 0.0, 0.0, 1.0, 0.0, 0.0, -0.0, -0.0, 1.0, 0.0, 5.0, 6.0, 7.0, 1.0]
    );
}
