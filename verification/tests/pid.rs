use roborace2023::pid::PidController;

const ONE: i32 = 1_000_000;
const BILLION: i128 = 1_000_000_000;

#[test]
fn proportional_trace() {
    let mut pid = PidController::new(ONE, 0, 0, 0);
    let outputs: Vec<i128> = [5_000, 5_000, 0].iter().map(|m| pid.update(*m)).collect();
    assert_eq!(outputs, vec![5 * BILLION, 5 * BILLION, 0]);
}

#[test]
fn derivative_trace() {
    let mut pid = PidController::new(0, 0, ONE, 0);
    pid.seed_error(0);
    assert_eq!(pid.update(10_000), -10 * BILLION);
    assert_eq!(pid.update(3_000), 7 * BILLION);
}

#[test]
fn last_error_is_that_of_the_latest_measurement() {
    let mut pid = PidController::new(-400_000, 3_000, 500_000, 50_000);
    for m in [12_000, 94_000, 50_000, -7_000, 50_001] {
        pid.update(m);
        assert_eq!(pid.last_error, (m - 50_000) as i64);
    }
}

#[test]
fn steady_state_is_silent() {
    let mut pid = PidController::new(-400_000, 0, 500_000, 50_000);
    for _ in 0..20 {
        assert_eq!(pid.update(50_000), 0);
        assert_eq!(pid.last_error, 0);
    }
}

#[test]
fn integral_counts_the_new_error_in_the_same_call() {
    let mut pid = PidController::new(0, ONE, 0, 1_000);
    assert_eq!(pid.update(3_000), 2 * BILLION);
    assert_eq!(pid.integral, 2_000);
    assert_eq!(pid.update(3_000), 4 * BILLION);
    assert_eq!(pid.integral, 4_000);
    assert_eq!(pid.update(0), 3 * BILLION);
    assert_eq!(pid.integral, 3_000);
}

#[test]
fn all_three_terms_add_up() {
    // 0.5 * 4 + 0.25 * (10 + 4) + 2 * (1 - 4) = 2 + 3.5 - 6 = -0.5
    let mut pid = PidController { center: 6_000, k_p: 500_000, k_i: 250_000, k_d: 2_000_000, last_error: 1_000, integral: 10_000 };
    assert_eq!(pid.update(10_000), -BILLION / 2);
    assert_eq!(pid.last_error, 4_000);
    assert_eq!(pid.integral, 14_000);
}

#[test]
fn derivative_uses_the_error_before_not_the_new_one() {
    let mut pid = PidController::new(0, 0, ONE, 0);
    pid.seed(2_000);
    assert_eq!(pid.update(5_000), -3 * BILLION);
}

#[test]
fn seed_takes_the_set_point_off_and_leaves_the_integral() {
    let mut pid = PidController::new(1, 2, 3, 50_000);
    pid.update(60_000);
    pid.seed(42_000);
    assert_eq!(pid.last_error, -8_000);
    assert_eq!(pid.integral, 10_000);
    pid.seed_error(77);
    assert_eq!(pid.last_error, 77);
    assert_eq!(pid.integral, 10_000);
    assert_eq!((pid.k_p, pid.k_i, pid.k_d, pid.center), (1, 2, 3, 50_000));
}

#[test]
fn clear_forgets_error_and_integral() {
    let mut pid = PidController::new(1, 2, 3, 50_000);
    pid.update(60_000);
    pid.clear();
    assert_eq!((pid.last_error, pid.integral), (0, 0));
    assert_eq!((pid.k_p, pid.k_i, pid.k_d, pid.center), (1, 2, 3, 50_000));
}

#[test]
fn accepts_until_the_integral_is_full() {
    let mut pid = PidController::new(0, 0, 0, 0);
    pid.integral = i64::MAX - 5;
    assert!(pid.accepts(5));
    assert!(!pid.accepts(6));
    assert!(pid.accepts(-1_000));
    pid.integral = i64::MIN + 5;
    assert!(pid.accepts(-5));
    assert!(!pid.accepts(-6));
    pid.center = i32::MIN;
    pid.integral = i64::MAX - (1i64 << 32) + 1;
    assert!(pid.accepts(i32::MAX));
    pid.integral += 1;
    assert!(!pid.accepts(i32::MAX));
}

#[test]
fn extreme_values_do_not_overflow() {
    let mut pid = PidController { center: i32::MAX, k_p: i32::MIN, k_i: i32::MIN, k_d: i32::MIN, last_error: i64::MAX, integral: i64::MIN + (1i64 << 32) };
    let e = i32::MIN as i128 - i32::MAX as i128;
    let expected = i32::MIN as i128 * e + i32::MIN as i128 * (i64::MIN as i128 + (1i128 << 32) + e) + i32::MIN as i128 * (i64::MAX as i128 - e);
    assert!(pid.accepts(i32::MIN));
    assert_eq!(pid.update(i32::MIN), expected);
}

#[test]
fn outputs_agree_with_the_formula_in_floating_point() {
    // Gains and readings that floating point holds exactly: eighths.
    let (k_p, k_i, k_d, center) = (-0.375f64, 0.125f64, 2.5f64, 12.25f64);
    let mut pid = PidController::new(-375_000, 125_000, 2_500_000, 12_250);
    pid.seed(9_000);
    let (mut last_error, mut integral) = (9.0 - center, 0.0);
    for measurement in [0.0f64, 12.25, 100.0, 3.125, -7.5, 12.375] {
        let error = measurement - center;
        integral += error;
        let expected = k_p * error + k_i * integral + k_d * (last_error - error);
        last_error = error;
        let output = pid.update((measurement * 1000.0) as i32);
        assert_eq!(output as f64 / 1e9, expected);
        assert_eq!(pid.last_error as f64 / 1000.0, last_error);
        assert_eq!(pid.integral as f64 / 1000.0, integral);
    }
}
