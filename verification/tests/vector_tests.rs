use vex::vector2::Vector2;
use vex::vector3::Vector3;
use vex::vector4::Vector4;

#[test]
fn vector2_new_is_zero_and_one_is_one() {
    assert!(Vector2::<f32>::new() == Vector2 { x: 0.0, y: 0.0 });
    assert!(Vector2::<f32>::one() == Vector2 { x: 1.0, y: 1.0 });
}

#[test]
fn vector2_make_and_set_store_the_components() {
    let mut v = Vector2::make(1.0f32, 2.0);
    assert_eq!(v.x, 1.0);
    assert_eq!(v.y, 2.0);
    v.set(3.0, 4.0);
    assert!(v == Vector2::make(3.0, 4.0));
}

#[test]
fn vector2_dot_of_axes_is_zero() {
    let a = Vector2::make(1.0f32, 0.0);
    let b = Vector2::make(0.0f32, 1.0);
    assert_eq!(Vector2::dot(&a, &b), 0.0);
}

#[test]
fn vector2_dot_is_the_sum_of_products() {
    let a = Vector2::make(2i32, 3);
    let b = Vector2::make(5i32, 7);
    assert_eq!(Vector2::dot(&a, &b), 31);
}

#[test]
fn vector2_cross_of_axes_is_one() {
    let a = Vector2::make(1.0f32, 0.0);
    let b = Vector2::make(0.0f32, 1.0);
    assert_eq!(Vector2::cross(&a, &b), 1.0);
    assert_eq!(Vector2::cross(&Vector2::make(2i32, 3), &Vector2::make(5, 7)), -1);
}

#[test]
fn vector2_cross_with_a_number() {
    let v = Vector2::make(1.0f32, 0.0);
    assert!(Vector2::cross_scalar_vec(1.0, &v) == Vector2::make(0.0, 1.0));
    assert!(Vector2::cross_vec_scalar(&v, 1.0) == Vector2::make(0.0, -1.0));
    let w = Vector2::make(2i32, 3);
    assert!(Vector2::cross_scalar_vec(5, &w) == Vector2::make(-15, 10));
    assert!(Vector2::cross_vec_scalar(&w, 5) == Vector2::make(15, -10));
}

#[test]
fn vector2_mag_sq_is_the_sum_of_squares() {
    assert_eq!(Vector2::make(1.0f32, 2.0).mag_sq(), 5.0);
}

#[test]
fn vector2_skew_turns_by_a_quarter() {
    let mut v = Vector2::make(1.0f32, 2.0);
    v.skew();
    assert!(v == Vector2::make(-2.0, 1.0));
}

#[test]
fn vector2_from_vector3_drops_z() {
    let v = Vector2::from(Vector3::make(1.0f32, 2.0, 3.0));
    assert!(v == Vector2 { x: 1.0, y: 2.0 });
}

#[test]
fn vector2_index_reads_and_writes() {
    let mut v = Vector2::make(1.0f32, 2.0);
    assert_eq!(*v.index(0), 1.0);
    assert_eq!(*v.index(1), 2.0);
    *v.index_mut(0) = 3.0;
    *v.index_mut(1) = 4.0;
    assert!(v == Vector2::make(3.0, 4.0));
}

#[test]
fn vector2_operators_with_a_number() {
    assert!(Vector2::make(1.0f32, 2.0) + 1.0 == Vector2::make(2.0, 3.0));
    assert!(Vector2::make(1.0f32, 2.0) - 10.0 == Vector2::make(-9.0, -8.0));
    assert!(Vector2::make(1.0f32, 2.0) * 2.0 == Vector2::make(2.0, 4.0));
    assert!(Vector2::make(1.0f32, 2.0) / 2.0 == Vector2::make(0.5, 1.0));
    assert!(-Vector2::make(1.0f32, 2.0) == Vector2::make(-1.0, -2.0));
}

#[test]
fn vector2_operators_with_a_vector() {
    let a = Vector2::make(1.0f32, 2.0);
    assert!(a + Vector2::make(3.0, 4.0) == Vector2::make(4.0, 6.0));
    assert!(a - Vector2::make(4.0, 3.0) == Vector2::make(-3.0, -1.0));
    assert!(a * Vector2::make(2.0, 3.0) == Vector2::make(2.0, 6.0));
    assert!(a / Vector2::make(2.0, 8.0) == Vector2::make(0.5, 0.25));
}

#[test]
fn vector2_assigning_operators() {
    let mut v = Vector2::make(1.0f32, 2.0);
    v += 10.0;
    assert!(v == Vector2::make(11.0, 12.0));
    v -= 1.0;
    assert!(v == Vector2::make(10.0, 11.0));
    v *= 2.0;
    assert!(v == Vector2::make(20.0, 22.0));
    v /= 4.0;
    assert!(v == Vector2::make(5.0, 5.5));
    v += Vector2::make(1.0, 2.0);
    assert!(v == Vector2::make(6.0, 7.5));
    v -= Vector2::make(1.0, 0.5);
    assert!(v == Vector2::make(5.0, 7.0));
    v *= Vector2::make(2.0, 3.0);
    assert!(v == Vector2::make(10.0, 21.0));
    v /= Vector2::make(2.0, 7.0);
    assert!(v == Vector2::make(5.0, 3.0));
}

#[test]
fn vector2_equality_is_exact() {
    assert!(Vector2::<f32>::new() == Vector2::new());
    assert!(Vector2::make(1.0f32, 2.0) != Vector2::make(1.0, 2.000_000_2));
    assert!(Vector2::make(f32::NAN, 0.0) != Vector2::make(f32::NAN, 0.0));
}

#[test]
fn vector3_named_vectors() {
    assert!(Vector3::<f32>::new() == Vector3 { x: 0.0, y: 0.0, z: 0.0 });
    assert!(Vector3::<f32>::one() == Vector3 { x: 1.0, y: 1.0, z: 1.0 });
    assert!(Vector3::<f32>::right() == Vector3 { x: 1.0, y: 0.0, z: 0.0 });
    assert!(Vector3::<f32>::up() == Vector3 { x: 0.0, y: 1.0, z: 0.0 });
    assert!(Vector3::<f32>::forward() == Vector3 { x: 0.0, y: 0.0, z: -1.0 });
}

#[test]
fn vector3_cross_of_z_and_x_is_y() {
    let a = Vector3::make(0.0f32, 0.0, 1.0);
    let b = Vector3::make(1.0f32, 0.0, 0.0);
    let actual = Vector3::cross(&a, &b);
    assert!(actual == Vector3::make(0.0, 1.0, 0.0));
}

#[test]
fn vector3_cross_of_two_integer_vectors() {
    let a = Vector3::make(1i32, 2, 3);
    let b = Vector3::make(4i32, 5, 6);
    assert!(Vector3::cross(&a, &b) == Vector3::make(-3, 6, -3));
}

#[test]
fn vector3_dot_and_mag_sq() {
    let a = Vector3::make(1.0f32, 2.0, 3.0);
    let b = Vector3::make(4.0f32, 5.0, 6.0);
    assert_eq!(Vector3::dot(&a, &b), 32.0);
    assert_eq!(a.mag_sq(), 14.0);
}

#[test]
fn vector3_conversions() {
    let up = Vector3::from(Vector2::make(1.0f32, 2.0));
    assert!(up == Vector3 { x: 1.0, y: 2.0, z: 0.0 });
    let down = Vector3::from(Vector4::make(1.0f32, 2.0, 3.0, 4.0));
    assert!(down == Vector3 { x: 1.0, y: 2.0, z: 3.0 });
}

#[test]
fn vector3_index_and_set() {
    let mut v = Vector3::make(1.0f32, 2.0, 3.0);
    assert_eq!(*v.index(2), 3.0);
    *v.index_mut(1) = 9.0;
    assert!(v == Vector3::make(1.0, 9.0, 3.0));
    v.set(4.0, 5.0, 6.0);
    assert_eq!(*v.index(0), 4.0);
}

#[test]
fn vector3_operators() {
    let a = Vector3::make(1.0f32, 2.0, 3.0);
    let b = Vector3::make(2.0f32, 4.0, 8.0);
    assert!(a + b == Vector3::make(3.0, 6.0, 11.0));
    assert!(a - b == Vector3::make(-1.0, -2.0, -5.0));
    assert!(a * b == Vector3::make(2.0, 8.0, 24.0));
    assert!(a / b == Vector3::make(0.5, 0.5, 0.375));
    assert!(a + 1.0 == Vector3::make(2.0, 3.0, 4.0));
    assert!(a - 1.0 == Vector3::make(0.0, 1.0, 2.0));
    assert!(a * 2.0 == Vector3::make(2.0, 4.0, 6.0));
    assert!(a / 2.0 == Vector3::make(0.5, 1.0, 1.5));
    assert!(-a == Vector3::make(-1.0, -2.0, -3.0));
    let mut c = a;
    c += b;
    c *= 2.0;
    c -= Vector3::make(1.0, 1.0, 1.0);
    c /= Vector3::make(5.0, 11.0, 3.0);
    assert!(c == Vector3::make(1.0, 1.0, 7.0));
}

#[test]
fn vector4_new_make_and_dot() {
    assert!(Vector4::<f32>::new() == Vector4 { x: 0.0, y: 0.0, z: 0.0, w: 0.0 });
    let a = Vector4::make(1.0f32, 2.0, 3.0, 4.0);
    let b = Vector4::make(5.0f32, 6.0, 7.0, 8.0);
    assert_eq!(Vector4::dot(&a, &b), 70.0);
    assert_eq!(a.mag_sq(), 30.0);
}

#[test]
fn vector4_from_vector3_appends_zero() {
    let v = Vector4::from(Vector3::make(1.0f32, 2.0, 3.0));
    assert!(v == Vector4 { x: 1.0, y: 2.0, z: 3.0, w: 0.0 });
}

#[test]
fn vector4_index_set_and_operators() {
    let mut v = Vector4::make(1.0f32, 2.0, 3.0, 4.0);
    assert_eq!(*v.index(3), 4.0);
    *v.index_mut(3) = 8.0;
    assert!(v == Vector4::make(1.0, 2.0, 3.0, 8.0));
    v.set(1.0, 2.0, 3.0, 4.0);
    assert!(v + v == Vector4::make(2.0, 4.0, 6.0, 8.0));
    assert!(v - 1.0 == Vector4::make(0.0, 1.0, 2.0, 3.0));
    assert!(v * v == Vector4::make(1.0, 4.0, 9.0, 16.0));
    assert!(v / 2.0 == Vector4::make(0.5, 1.0, 1.5, 2.0));
    assert!(-v == Vector4::make(-1.0, -2.0, -3.0, -4.0));
    v /= Vector4::make(1.0, 2.0, 3.0, 4.0);
    assert!(v == Vector4::make(1.0, 1.0, 1.0, 1.0));
}

#[test]
fn vector2_min_max_and_clamp() {
    let a = Vector2::make(1.0f32, 4.0);
    let b = Vector2::make(2.0f32, 3.0);
    assert!(Vector2::min(&a, &b) == Vector2::make(1.0, 3.0));
    assert!(Vector2::max(&a, &b) == Vector2::make(2.0, 4.0));
    let low = Vector2::make(1.0f32, 3.0);
    let high = Vector2::make(2.0f32, 4.0);
    let mut v = Vector2::make(0.0f32, 5.0);
    v.clamp(&low, &high);
    assert!(v == Vector2::make(1.0, 4.0));
}

#[test]
fn vector3_min_max_and_clamp() {
    let a = Vector3::make(1.0f32, 4.0, 5.0);
    let b = Vector3::make(2.0f32, 3.0, 6.0);
    assert!(Vector3::min(&a, &b) == Vector3::make(1.0, 3.0, 5.0));
    assert!(Vector3::max(&a, &b) == Vector3::make(2.0, 4.0, 6.0));
    let mut v = Vector3::make(0.0f32, 5.0, 10.0);
    v.clamp(&Vector3::make(1.0, 3.0, 5.0), &Vector3::make(2.0, 4.0, 6.0));
    assert!(v == Vector3::make(1.0, 4.0, 6.0));
}

#[test]
fn vector4_min_max_and_clamp() {
    let a = Vector4::make(1.0f32, 4.0, 5.0, 7.0);
    let b = Vector4::make(2.0f32, 3.0, 6.0, 8.0);
    assert!(Vector4::min(&a, &b) == Vector4::make(1.0, 3.0, 5.0, 7.0));
    assert!(Vector4::max(&a, &b) == Vector4::make(2.0, 4.0, 6.0, 8.0));
    let mut v = Vector4::make(0.0f32, 5.0, 10.0, 7.5);
    v.clamp(&a, &b);
    assert!(v == Vector4::make(1.0, 4.0, 6.0, 7.5));
}

#[test]
fn norm_by_length_divides_by_the_magnitude() {
    let mut v = Vector2::make(3.0f32, 4.0);
    assert_eq!(v.norm_by_length(5.0, f32::EPSILON), 5.0);
    assert!(v == Vector2::make(0.6, 0.8));
    let mut w = Vector3::make(2.0f32, 4.0, 8.0);
    assert_eq!(w.norm_by_length(2.0, f32::EPSILON), 2.0);
    assert!(w == Vector3::make(1.0, 2.0, 4.0));
    let mut u = Vector4::make(2.0f32, 4.0, 8.0, 16.0);
    assert_eq!(u.norm_by_length(4.0, f32::EPSILON), 4.0);
    assert!(u == Vector4::make(0.5, 1.0, 2.0, 4.0));
}

#[test]
fn norm_by_length_leaves_a_short_vector_alone() {
    let mut v = Vector2::make(0.0f32, 0.0);
    assert_eq!(v.norm_by_length(0.0, f32::EPSILON), 0.0);
    assert!(v == Vector2::make(0.0, 0.0));
    let mut w = Vector3::make(1.0e-8f32, 0.0, 0.0);
    assert_eq!(w.norm_by_length(1.0e-8, f32::EPSILON), 0.0);
    assert!(w == Vector3::make(1.0e-8, 0.0, 0.0));
    let mut u = Vector4::make(1.0f32, 2.0, 3.0, 4.0);
    assert_eq!(u.norm_by_length(f32::NAN, f32::EPSILON), 0.0);
    assert!(u == Vector4::make(1.0, 2.0, 3.0, 4.0));
}
