use vex::common::is_power_of_two;
use vex::common::next_power_of_two;
use vex::common::sign;

#[test]
fn next_power_of_two_of_one_is_two() {
    assert_eq!(next_power_of_two(1), 2);
}

#[test]
fn next_power_of_two_of_two_is_four() {
    assert_eq!(next_power_of_two(2), 4);
}

#[test]
fn next_power_of_two_is_the_least_power_above() {
    assert_eq!(next_power_of_two(0), 1);
    assert_eq!(next_power_of_two(3), 4);
    assert_eq!(next_power_of_two(4), 8);
    assert_eq!(next_power_of_two(5), 8);
    assert_eq!(next_power_of_two(1000), 1024);
    assert_eq!(next_power_of_two(0x3fff_ffff), 0x4000_0000);
}

#[test]
fn next_power_of_two_of_a_negative_number_is_zero() {
    assert_eq!(next_power_of_two(-1), 0);
    assert_eq!(next_power_of_two(-1000), 0);
    assert_eq!(next_power_of_two(i32::MIN), 0);
}

#[test]
fn one_and_two_are_powers_of_two_and_three_is_not() {
    assert!(is_power_of_two(1));
    assert!(is_power_of_two(2));
    assert!(!is_power_of_two(3));
}

#[test]
fn zero_and_negative_numbers_are_no_powers_of_two() {
    assert!(!is_power_of_two(0));
    assert!(!is_power_of_two(-2));
    assert!(!is_power_of_two(i32::MIN));
}

#[test]
fn the_largest_power_of_two_is_found() {
    assert!(is_power_of_two(0x4000_0000));
    assert!(!is_power_of_two(i32::MAX));
    assert!(!is_power_of_two(0x4000_0001));
}

#[test]
fn every_result_of_next_power_of_two_is_a_power_of_two() {
    let mut x: i32 = 0;
    while x < 5000 {
        let p = next_power_of_two(x);
        assert!(is_power_of_two(p));
        assert!(p > x);
        assert!(p / 2 <= x);
        x += 1;
    }
}

#[test]
fn sign_of_a_positive_number_is_one() {
    assert_eq!(sign(1234.0f32), 1.0);
}

#[test]
fn sign_of_a_negative_number_is_minus_one() {
    assert_eq!(sign(-1234.0f32), -1.0);
}

#[test]
fn sign_of_zero_is_one() {
    assert_eq!(sign(0.0f32), 1.0);
    assert_eq!(sign(0i32), 1);
    assert_eq!(sign(-7i64), -1);
}
