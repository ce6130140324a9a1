use syncing_circuits::series::exp_fix;
use syncing_circuits::series::sin_fix;
use syncing_circuits::Fixed;
use syncing_circuits::SCALE;

fn to_f64(x: Fixed) -> f64 {
    x.raw as f64 / SCALE as f64
}

#[test]
fn test_sin_of_zero_is_zero() {
    assert_eq!(sin_fix(Fixed { raw: 0 }).raw, 0);
}

#[test]
fn test_sin_of_one() {
    let r = to_f64(sin_fix(Fixed::from_units(1)));
    assert!((r - 0.8414709848).abs() < 1e-6);
}

#[test]
fn test_sin_is_odd_close() {
    let plus = to_f64(sin_fix(Fixed::from_milli(700)));
    let minus = to_f64(sin_fix(Fixed::from_milli(-700)));
    assert!((plus + minus).abs() < 1e-6);
}

#[test]
fn test_sin_large_angle_reduced() {
    // sin(10) = -0.5440211109; 10 is well past one turn.
    let r = to_f64(sin_fix(Fixed::from_units(10)));
    assert!((r - (-0.5440211109)).abs() < 1e-4);
}

#[test]
fn test_exp_of_zero_is_one() {
    assert_eq!(exp_fix(Fixed { raw: 0 }).raw, SCALE);
}

#[test]
fn test_exp_of_minus_one() {
    let r = to_f64(exp_fix(Fixed::from_units(-1)));
    assert!((r - 0.3678794412).abs() < 1e-6);
}

#[test]
fn test_exp_of_minus_five() {
    let r = to_f64(exp_fix(Fixed::from_units(-5)));
    assert!((r - 0.0067379470).abs() < 1e-5);
}

#[test]
fn test_exp_of_positive() {
    let r = to_f64(exp_fix(Fixed::from_units(1)));
    assert!((r - 2.7182818284).abs() < 1e-4);
}

#[test]
fn test_exp_underflows_to_zero() {
    assert_eq!(exp_fix(Fixed::from_units(-50)).raw, 0);
}

#[test]
fn test_exp_stays_in_unit_interval() {
    for raw in [0i64, 1, 999_999_999, SCALE, 7 * SCALE, 33 * SCALE] {
        let r = exp_fix(Fixed { raw: -raw });
        assert!(0 <= r.raw && r.raw <= SCALE);
    }
}

#[test]
fn test_sin_near_pi_boundary() {
    // Reduction maps pi + 0.1 to the far side of the circle.
    let just_past_pi = Fixed { raw: 3_241_592_653 };
    let r = to_f64(sin_fix(just_past_pi));
    assert!((r - (3.241592653f64).sin()).abs() < 1e-4);
}
