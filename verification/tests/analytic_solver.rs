use syncing_circuits::Fixed;
use syncing_circuits::Rlc;
use syncing_circuits::SCALE;

fn to_f64(x: Fixed) -> f64 {
    x.raw as f64 / SCALE as f64
}

fn underdamped() -> Rlc {
    // R = 0.2, L = 4.0, C = 6.0: comfortably underdamped.
    Rlc::with_constants(Fixed::from_milli(200), Fixed::from_units(4), Fixed::from_units(6))
}

#[test]
fn test_current_is_zero_at_release() {
    let c = underdamped();
    let i = c.current(Fixed::from_units(10), Fixed { raw: 0 });
    assert_eq!(i, Some(Fixed { raw: 0 }));
}

#[test]
fn test_angular_freq_underdamped_value() {
    let c = underdamped();
    let w = c.angular_freq().expect("underdamped circuit has a frequency");
    let expected = (1.0 / 24.0f64 - 0.025f64 * 0.025).sqrt();
    assert!((to_f64(w) - expected).abs() < 1e-6);
}

#[test]
fn test_angular_freq_overdamped_is_none() {
    // 1/(L C) = 1 < (R/(2 L))^2 = 2500: no real frequency.
    let c = Rlc::with_constants(
        Fixed::from_units(100),
        Fixed::from_units(1),
        Fixed::from_units(1),
    );
    assert_eq!(c.angular_freq(), None);
}

#[test]
fn test_current_overdamped_is_none() {
    let c = Rlc::with_constants(
        Fixed::from_units(100),
        Fixed::from_units(1),
        Fixed::from_units(1),
    );
    let q0 = Fixed::from_units(10);
    assert_eq!(c.current(q0, Fixed { raw: 0 }), None);
    assert_eq!(c.current(q0, Fixed::from_milli(500)), None);
    assert_eq!(c.current(q0, Fixed::from_units(50)), None);
}

#[test]
fn test_degenerate_constants_have_no_freq() {
    let c = Rlc::new();
    assert_eq!(c.angular_freq(), None);
}

#[test]
fn test_current_against_closed_form() {
    let c = underdamped();
    let q0 = Fixed::from_units(10);
    let t = Fixed::from_units(2);
    let i = to_f64(c.current(q0, t).expect("underdamped"));
    let w = (1.0 / 24.0f64 - 0.025f64 * 0.025).sqrt();
    let amp = w * 0.2 * 10.0 / 8.0;
    let expected = amp * (-0.025f64 * 2.0).exp() * (w * 2.0).sin();
    assert!((i - expected).abs() < 1e-4);
}
