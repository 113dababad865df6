//! Tests of heater fixed.

use isochron::heater::fixed::Fixed32;

#[test]
fn test_from_int() {
    assert_eq!(Fixed32::from_int(0).to_int(), 0);
    assert_eq!(Fixed32::from_int(1).to_int(), 1);
    assert_eq!(Fixed32::from_int(-1).to_int(), -1);
    assert_eq!(Fixed32::from_int(100).to_int(), 100);
    assert_eq!(Fixed32::from_int(-100).to_int(), -100);
}

#[test]
fn test_from_scaled_100() {
    assert_eq!(Fixed32::from_scaled_100(100).to_int(), 1);
    assert_eq!(Fixed32::from_scaled_100(150).to_int(), 1); // 1.5 truncates to 1
    assert_eq!(Fixed32::from_scaled_100(250).to_int(), 2); // 2.5 truncates to 2
                                                           // Note: right-shift on signed integers is arithmetic (floor division),
                                                           // so -1.5 truncates to -2 (toward negative infinity), not -1
    assert_eq!(Fixed32::from_scaled_100(-150).to_int(), -2);
}

#[test]
fn test_to_scaled_100() {
    assert_eq!(Fixed32::from_scaled_100(150).to_scaled_100(), 150);
    assert_eq!(Fixed32::from_scaled_100(75).to_scaled_100(), 75);
    assert_eq!(Fixed32::from_int(2).to_scaled_100(), 200);
}

#[test]
fn test_multiply() {
    let two = Fixed32::from_int(2);
    let three = Fixed32::from_int(3);
    assert_eq!(two.mul(three).to_int(), 6);

    let half = Fixed32::from_scaled_100(50);
    assert_eq!(two.mul(half).to_int(), 1);

    let one_point_five = Fixed32::from_scaled_100(150);
    assert_eq!(two.mul(one_point_five).to_int(), 3);
}

#[test]
fn test_divide() {
    let six = Fixed32::from_int(6);
    let two = Fixed32::from_int(2);
    assert_eq!(six.div(two).to_int(), 3);

    let ten = Fixed32::from_int(10);
    assert_eq!(ten.div_int(2).to_int(), 5);
}

#[test]
fn test_saturating_add() {
    let a = Fixed32::from_int(100);
    let b = Fixed32::from_int(50);
    assert_eq!(a.saturating_add(b).to_int(), 150);

    // Test near max
    let big = Fixed32::from_int(32000);
    let also_big = Fixed32::from_int(1000);
    let result = big.saturating_add(also_big);
    assert!(result.to_int() > 0); // Should saturate, not wrap negative
}

#[test]
fn test_clamp() {
    let value = Fixed32::from_int(50);
    let min = Fixed32::from_int(0);
    let max = Fixed32::from_int(100);
    assert_eq!(value.clamp(min, max).to_int(), 50);

    let too_low = Fixed32::from_int(-10);
    assert_eq!(too_low.clamp(min, max).to_int(), 0);

    let too_high = Fixed32::from_int(200);
    assert_eq!(too_high.clamp(min, max).to_int(), 100);
}

#[test]
fn test_ops() {
    let a = Fixed32::from_int(5);
    let b = Fixed32::from_int(3);

    assert_eq!((a + b).to_int(), 8);
    assert_eq!((a - b).to_int(), 2);
    assert_eq!((-a).to_int(), -5);
}

#[test]
fn scaled_round_trip_loses_a_hundredth_off_multiples_of_25() {
    assert_eq!(Fixed32::from_scaled_100(150).to_scaled_100(), 150);
    assert_eq!(Fixed32::from_scaled_100(1).to_scaled_100(), 0);
    assert_eq!(Fixed32::from_scaled_100(26).to_scaled_100(), 25);
    assert_eq!(Fixed32::from_scaled_100(-1).to_scaled_100(), -1);
    assert_eq!(Fixed32::from_scaled_100(-26).to_scaled_100(), -26);
}
