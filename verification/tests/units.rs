use roborace2023::units::{duty_cycle, product_duty};

#[test]
fn duty_cycle_rounds_towards_zero() {
    assert_eq!(duty_cycle(50_000), 50);
    assert_eq!(duty_cycle(99_999), 99);
    assert_eq!(duty_cycle(-99_999), -99);
    assert_eq!(duty_cycle(999), 0);
    assert_eq!(duty_cycle(-999), 0);
    assert_eq!(duty_cycle(0), 0);
}

#[test]
fn duty_cycle_is_limited() {
    assert_eq!(duty_cycle(100_000), 100);
    assert_eq!(duty_cycle(135_000), 100);
    assert_eq!(duty_cycle(-100_001), -100);
    assert_eq!(duty_cycle(i32::MAX), 100);
    assert_eq!(duty_cycle(i32::MIN), -100);
}

#[test]
fn product_duty_is_the_exact_quotient() {
    assert_eq!(product_duty(45, 3, 2), 67);
    assert_eq!(product_duty(-45, 3, 2), -67);
    assert_eq!(product_duty(45, -3, 2), -67);
    assert_eq!(product_duty(-45, -3, 2), 67);
    assert_eq!(product_duty(199, 1, 2), 99);
    assert_eq!(product_duty(200, 1, 2), 100);
    assert_eq!(product_duty(0, i128::MAX, 7), 0);
    assert_eq!(product_duty(i128::MIN, 0, 7), 0);
    assert_eq!(product_duty(1, 1, 2), 0);
    assert_eq!(product_duty(-1, 1, 2), 0);
}

#[test]
fn product_duty_is_limited_where_the_product_would_not_fit() {
    assert_eq!(product_duty(i128::MAX, i128::MAX, 1), 100);
    assert_eq!(product_duty(i128::MIN, i128::MAX, 1), -100);
    assert_eq!(product_duty(i128::MIN, i128::MIN, i128::MAX / 100), 100);
    assert_eq!(product_duty(i128::MAX, 1, i128::MAX / 100), 100);
    assert_eq!(product_duty(i128::MAX / 100 * 100 - 1, 1, i128::MAX / 100), 99);
    assert_eq!(product_duty(1 << 70, 1 << 56, 1 << 120), 64);
    assert_eq!(product_duty(1 << 70, -(1 << 57), 1 << 120), -100);
}
