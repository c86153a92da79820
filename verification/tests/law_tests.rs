use vex::matrix2::Matrix2;
use vex::matrix3::Matrix3;
use vex::matrix4::Matrix4;
use vex::vector2::Vector2;
use vex::vector3::Vector3;
use vex::vector4::Vector4;

#[test]
fn transposing_twice_gives_the_matrix_back() {
    let a = Matrix2::make(1.5f32, -2.0, 3.25, 4.0);
    let mut b = a;
    b.transpose();
    b.transpose();
    assert_eq!(a.m, b.m);
    let c = Matrix3::make(1.0f32, 2.0, 3.0, 4.0, 5.0, 6.0, 7.0, 8.0, 9.0);
    let mut d = c;
    d.transpose();
    assert!(d != c);
    d.transpose();
    assert_eq!(c.m(), d.m());
    let e = Matrix4::make(
        1.0f32, 2.0, 3.0, 4.0, 5.0, 6.0, 7.0, 8.0, 9.0, 10.0, 11.0, 12.0, 13.0, 14.0, 15.0, 16.0,
    );
    let mut f = e;
    f.transpose();
    assert!(f != e);
    f.transpose();
    assert_eq!(e.m, f.m);
}

#[test]
fn transposing_twice_keeps_even_nan_in_place() {
    let a = Matrix2::make(f32::NAN, 1.0, 2.0, f32::INFINITY);
    let mut b = a;
    b.transpose();
    b.transpose();
    assert!(b.m[0].is_nan());
    assert_eq!(b.m[1], 1.0);
    assert_eq!(b.m[2], 2.0);
    assert_eq!(b.m[3], f32::INFINITY);
}

#[test]
fn the_dot_product_is_symmetric() {
    let a = Vector2::make(1.5f32, -2.25);
    let b = Vector2::make(0.1f32, 7.0);
    assert_eq!(Vector2::dot(&a, &b), Vector2::dot(&b, &a));
    let c = Vector3::make(1.5f32, -2.25, 0.3);
    let d = Vector3::make(0.1f32, 7.0, -9.5);
    assert_eq!(Vector3::dot(&c, &d), Vector3::dot(&d, &c));
    let e = Vector4::make(3i64, -4, 5, 6);
    let f = Vector4::make(-7i64, 8, 9, -10);
    assert_eq!(Vector4::dot(&e, &f), Vector4::dot(&f, &e));
    assert_eq!(Vector4::dot(&e, &f), -68);
}

#[test]
fn exchanging_the_vectors_negates_the_cross_product() {
    let a = Vector3::make(1.5f32, -2.25, 0.3);
    let b = Vector3::make(0.1f32, 7.0, -9.5);
    assert!(Vector3::cross(&a, &b) == -Vector3::cross(&b, &a));
    let c = Vector3::make(1i32, 2, 3);
    let d = Vector3::make(-4i32, 5, 6);
    assert!(Vector3::cross(&c, &d) == -Vector3::cross(&d, &c));
}

#[test]
fn the_product_of_integer_matrices_is_associative() {
    let p = Matrix2::make(1i32, 2, 0, 1);
    let q = Matrix2::make(3i32, 1, 2, 4);
    let r = Matrix2::make(0i32, 1, 5, 2);
    assert!((p * q) * r == p * (q * r));
    assert!((p * q) * r == Matrix2::make(2, 8, 19, 51));
    let a = Matrix3::make(1i64, 2, 3, 4, 5, 6, 7, 8, 9);
    let b = Matrix3::make(-1i64, 0, 2, 3, 1, -2, 0, 4, 1);
    let c = Matrix3::make(2i64, -3, 1, 0, 5, 7, -4, 1, 1);
    assert!((a * b) * c == a * (b * c));
    let x = Matrix4::make(1i64, 2, 3, 4, 5, 6, 7, 8, 9, 10, 11, 12, 13, 14, 15, 16);
    let y = Matrix4::make(1i64, 0, 2, 2, 0, 2, 1, 0, 0, 1, 0, 1, 1, 2, 1, 4);
    let z = Matrix4::make(2i64, 0, 0, 1, 1, 3, 0, 0, 0, 1, 1, 0, 0, 0, 2, 1);
    assert!((x * y) * z == x * (y * z));
}

#[test]
fn a_matrix_times_its_inverse_is_the_identity() {
    let a = Matrix2::make(2i32, 1, 1, 1);
    let mut b = a;
    assert!(b.inverse());
    assert!(b == Matrix2::make(1, -1, -1, 2));
    assert!(a * b == Matrix2::new());
    let c = Matrix3::make(1i64, 0, 5, 2, 1, 6, 3, 4, 0);
    let mut d = c;
    assert!(d.inverse());
    assert!(d == Matrix3::make(-24, 20, -5, 18, -15, 4, 5, -4, 1));
    assert!(c * d == Matrix3::new());
    let e = Matrix4::make(
        1.0f32, 0.0, 2.0, 2.0, 0.0, 2.0, 1.0, 0.0, 0.0, 1.0, 0.0, 1.0, 1.0, 2.0, 1.0, 4.0,
    );
    let mut f = e;
    assert!(f.inverse());
    assert!(e * f == Matrix4::new());
    assert!(f * e == Matrix4::new());
}

#[test]
fn integer_matrices_with_determinant_zero_are_left_alone() {
    let mut a = Matrix2::make(2i32, 4, 1, 2);
    assert!(!a.inverse());
    assert_eq!(a.m, [2, 4, 1, 2]);
    let mut b = Matrix4::make(1i64, 2, 3, 4, 5, 6, 7, 8, 9, 10, 11, 12, 13, 14, 15, 16);
    assert!(!b.inverse());
    assert_eq!(b.m, [1, 2, 3, 4, 5, 6, 7, 8, 9, 10, 11, 12, 13, 14, 15, 16]);
}

#[test]
fn the_bounds_of_clamp_can_change_places() {
    let a = Vector2::make(1.0f32, 4.0);
    let b = Vector2::make(2.0f32, 3.0);
    let mut v = Vector2::make(0.0f32, 5.0);
    let mut w = v;
    v.clamp(&a, &b);
    w.clamp(&b, &a);
    assert!(v == w);
    assert!(v == Vector2::make(1.0, 4.0));
    let c = Vector3::make(-5i32, 7, 0);
    let d = Vector3::make(5i32, -7, 0);
    let mut p = Vector3::make(9i32, 1, -3);
    let mut q = p;
    p.clamp(&c, &d);
    q.clamp(&d, &c);
    assert!(p == q);
    assert!(p == Vector3::make(5, 1, 0));
    let e = Vector4::make(0.5f32, -1.0, 8.0, 2.0);
    let f = Vector4::make(-0.5f32, 1.0, 4.0, 2.0);
    let mut r = Vector4::make(0.0f32, -3.0, 9.0, 7.0);
    let mut s = r;
    r.clamp(&e, &f);
    s.clamp(&f, &e);
    assert!(r == s);
    assert!(r == Vector4::make(0.0, -1.0, 8.0, 2.0));
}

#[test]
fn min_and_max_agree_with_those_of_the_floats() {
    let values = [
        0.0f32,
        1.0,
        -1.0,
        2.5,
        -2.5,
        f32::MAX,
        f32::MIN,
        f32::MIN_POSITIVE,
        f32::INFINITY,
        f32::NEG_INFINITY,
        f32::NAN,
    ];
    for a in values {
        for b in values {
            let lo = vex::scalar::min(a, b);
            let hi = vex::scalar::max(a, b);
            if a.is_nan() && b.is_nan() {
                assert!(lo.is_nan());
                assert!(hi.is_nan());
            } else {
                assert_eq!(lo, a.min(b));
                assert_eq!(hi, a.max(b));
            }
        }
    }
}

#[test]
fn the_determinant_of_the_transposed_matrix_is_the_same() {
    let a = Matrix3::make(2i64, -3, 1, 0, 5, 7, -4, 1, 1);
    let mut b = a;
    b.transpose();
    assert_eq!(a.determinant(), b.determinant());
    assert_eq!(a.determinant(), 100);
}

#[test]
fn exchanging_two_rows_negates_the_determinant() {
    let a = Matrix4::make(2i64, 0, 0, 1, 1, 3, 0, 0, 0, 1, 1, 0, 0, 0, 2, 1);
    let b = Matrix4::make(0i64, 2, 0, 1, 3, 1, 0, 0, 1, 0, 1, 0, 0, 0, 2, 1);
    assert_eq!(a.determinant(), 4);
    assert_eq!(b.determinant(), -4);
}

#[test]
fn a_vector_of_magnitude_one_is_scaled_to_itself() {
    let mut v = Vector3::make(0.0f32, 1.0, 0.0);
    assert_eq!(v.norm_by_length(1.0, f32::EPSILON), 1.0);
    assert!(v == Vector3::make(0.0, 1.0, 0.0));
    let mut w = Vector2::make(0.6f32, 0.8);
    assert_eq!(w.norm_by_length(1.0, f32::EPSILON), 1.0);
    assert!(w == Vector2::make(0.6, 0.8));
    let mut u = Vector4::make(0i32, 0, 1, 0);
    assert_eq!(u.norm_by_length(1, 0), 1);
    assert!(u == Vector4::make(0, 0, 1, 0));
}
