use syncing_circuits::light_calculator::power;
use syncing_circuits::DisconnectLightCircuitCalculator;
use syncing_circuits::DisconnectedLightbulbCircuit;
use syncing_circuits::Fixed;
use syncing_circuits::SCALE;

#[test]
fn test_power_formula_exact() {
    // power(2, 3) == 2 * 2 * 3 == 12, to the raw step.
    let p = power(Fixed::from_units(2), Fixed::from_units(3));
    assert_eq!(p.raw, 12 * SCALE);
}

#[test]
fn test_power_of_zero_current() {
    assert_eq!(power(Fixed::zero(), Fixed::from_units(7)).raw, 0);
}

#[test]
fn test_power_of_zero_resistance() {
    assert_eq!(power(Fixed::from_units(5), Fixed::zero()).raw, 0);
}

#[test]
fn test_power_nonnegative_for_negative_current() {
    let p = power(Fixed::from_units(-3), Fixed::from_units(2));
    assert_eq!(p.raw, 18 * SCALE);
}

#[test]
fn test_lightbulb_power_matches_live_current() {
    let mut dlcc = DisconnectLightCircuitCalculator::with_constants(
        Fixed::from_units(10),
        Fixed::from_milli(200),
        Fixed::from_units(4),
        Fixed::from_units(6),
    );
    dlcc.circuit.tick(Fixed::from_milli(100));
    let i = dlcc.circuit.current();
    assert_eq!(dlcc.lightbulb_power(), power(i, dlcc.circuit.resistance));
    assert!(dlcc.lightbulb_power().raw >= 0);
}

#[test]
fn test_from_rlc_keeps_the_circuit() {
    let mut inner = syncing_circuits::RLCCalculator::with_constants(
        Fixed::from_units(10),
        Fixed::from_milli(200),
        Fixed::from_units(4),
        Fixed::from_units(6),
    );
    inner.tick(Fixed::from_milli(100));
    let dlcc = DisconnectLightCircuitCalculator::from_rlc(inner);
    assert_eq!(dlcc.circuit, inner);
}

#[test]
fn test_analytic_lightbulb_power_at_release() {
    let bulb = DisconnectedLightbulbCircuit::with_constants(
        Fixed::from_milli(200),
        Fixed::from_units(4),
        Fixed::from_units(6),
    );
    let p = bulb.lightbulb_power(Fixed::from_units(10), Fixed { raw: 0 });
    assert_eq!(p, Some(Fixed { raw: 0 }));
}

#[test]
fn test_analytic_lightbulb_power_overdamped_is_none() {
    let bulb = DisconnectedLightbulbCircuit::with_constants(
        Fixed::from_units(100),
        Fixed::from_units(1),
        Fixed::from_units(1),
    );
    let p = bulb.lightbulb_power(Fixed::from_units(10), Fixed::from_units(1));
    assert_eq!(p, None);
}
