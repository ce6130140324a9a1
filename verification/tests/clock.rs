use syncing_circuits::timer::reset_simulation;
use syncing_circuits::timer::update_time;
use syncing_circuits::timer::CircuitBundle;
use syncing_circuits::timer::CircuitTimer;
use syncing_circuits::timer::CircuitTimerMode;
use syncing_circuits::timer::CurrentTimePlot;
use syncing_circuits::timer::DLRCCircuit;
use syncing_circuits::timer::DELTA_T;
use syncing_circuits::timer::MAX_CIRCUIT_TIME;
use syncing_circuits::timer::MIN_CIRCUIT_TIME;
use syncing_circuits::DisconnectLightCircuitCalculator;
use syncing_circuits::Fixed;
use syncing_circuits::IntegratorPhase;

fn bundle() -> CircuitBundle {
    // R = 0.2, L = 4.0, C = 6.0, Q0 = 10.0, and a plot seeded with the
    // starting sample.
    let dlcc = DisconnectLightCircuitCalculator::with_constants(
        Fixed::from_units(10),
        Fixed::from_milli(200),
        Fixed::from_units(4),
        Fixed::from_units(6),
    );
    CircuitBundle {
        circuit: DLRCCircuit(dlcc),
        plot: CurrentTimePlot(vec![(Fixed { raw: MIN_CIRCUIT_TIME }, Fixed { raw: 0 })]),
    }
}

#[test]
fn test_paused_advance_is_a_noop() {
    let mut time = CircuitTimer {
        time: Fixed { raw: 42 * DELTA_T },
        mode: CircuitTimerMode::Pause,
    };
    let mut circs = vec![bundle()];
    let before_plot = circs[0].plot.0.clone();
    let before_circuit = circs[0].circuit.0;
    update_time(&mut time, &mut circs);
    assert_eq!(time.time.raw, 42 * DELTA_T);
    assert_eq!(time.mode, CircuitTimerMode::Pause);
    assert_eq!(circs[0].plot.0, before_plot);
    assert_eq!(circs[0].circuit.0, before_circuit);
}

#[test]
fn test_playing_advance_ticks_and_samples() {
    let mut time = CircuitTimer {
        time: Fixed { raw: MIN_CIRCUIT_TIME },
        mode: CircuitTimerMode::Play,
    };
    let mut circs = vec![bundle()];
    update_time(&mut time, &mut circs);
    assert_eq!(time.time.raw, DELTA_T);
    assert_eq!(time.mode, CircuitTimerMode::Play);
    assert_eq!(circs[0].plot.0.len(), 2);
    let (t, i) = circs[0].plot.0[1];
    assert_eq!(t.raw, DELTA_T);
    assert_eq!(i, circs[0].circuit.0.circuit.current());
}

#[test]
fn test_run_to_end_auto_pauses() {
    // A thousand playing frames of 0.1 reach exactly 100.0, the end of the
    // run: the clock pauses itself and the plot holds the seed plus one
    // sample per frame.
    let mut time = CircuitTimer {
        time: Fixed { raw: MIN_CIRCUIT_TIME },
        mode: CircuitTimerMode::Play,
    };
    let mut circs = vec![bundle()];
    for _ in 0..1000 {
        update_time(&mut time, &mut circs);
    }
    assert_eq!(time.time.raw, MAX_CIRCUIT_TIME);
    assert_eq!(MAX_CIRCUIT_TIME, 1000 * DELTA_T);
    assert_eq!(time.mode, CircuitTimerMode::Pause);
    assert_eq!(circs[0].plot.0.len(), 1001);
    assert_eq!(circs[0].plot.0[0], (Fixed { raw: 0 }, Fixed { raw: 0 }));
    // Once paused at the end, further frames change nothing.
    update_time(&mut time, &mut circs);
    assert_eq!(time.time.raw, MAX_CIRCUIT_TIME);
    assert_eq!(circs[0].plot.0.len(), 1001);
}

#[test]
fn test_advance_clamps_at_the_end() {
    let mut time = CircuitTimer {
        time: Fixed { raw: MAX_CIRCUIT_TIME - DELTA_T / 2 },
        mode: CircuitTimerMode::Play,
    };
    let mut circs = vec![bundle()];
    update_time(&mut time, &mut circs);
    assert_eq!(time.time.raw, MAX_CIRCUIT_TIME);
    assert_eq!(time.mode, CircuitTimerMode::Pause);
}

#[test]
fn test_reset_command_reseeds_everything() {
    let mut time = CircuitTimer {
        time: Fixed { raw: MIN_CIRCUIT_TIME },
        mode: CircuitTimerMode::Play,
    };
    let mut circs = vec![bundle()];
    for _ in 0..10 {
        update_time(&mut time, &mut circs);
    }
    reset_simulation(&mut time, &mut circs);
    assert_eq!(time.time.raw, MIN_CIRCUIT_TIME);
    assert_eq!(time.mode, CircuitTimerMode::Pause);
    assert_eq!(circs[0].plot.0, vec![(Fixed { raw: MIN_CIRCUIT_TIME }, Fixed { raw: 0 })]);
    assert_eq!(circs[0].circuit.0.circuit.phase, IntegratorPhase::Uninitialized);
    assert_eq!(circs[0].circuit.0.circuit.time_since_first_tick.raw, 0);
}

#[test]
fn test_two_circuits_advance_together() {
    let mut time = CircuitTimer {
        time: Fixed { raw: MIN_CIRCUIT_TIME },
        mode: CircuitTimerMode::Play,
    };
    let mut circs = vec![bundle(), bundle()];
    for _ in 0..3 {
        update_time(&mut time, &mut circs);
    }
    assert_eq!(circs[0].plot.0.len(), 4);
    assert_eq!(circs[0].plot.0, circs[1].plot.0);
    assert_eq!(circs[0].circuit.0, circs[1].circuit.0);
}

#[test]
fn test_advance_with_no_circuits() {
    let mut time = CircuitTimer {
        time: Fixed { raw: MIN_CIRCUIT_TIME },
        mode: CircuitTimerMode::Play,
    };
    let mut circs: Vec<CircuitBundle> = Vec::new();
    update_time(&mut time, &mut circs);
    assert_eq!(time.time.raw, DELTA_T);
    assert!(circs.is_empty());
}

#[test]
fn test_advance_clamps_below_the_start() {
    // A time dragged below the start is pulled back up to it.
    let mut time = CircuitTimer {
        time: Fixed { raw: -10 * DELTA_T },
        mode: CircuitTimerMode::Play,
    };
    let mut circs = vec![bundle()];
    update_time(&mut time, &mut circs);
    assert_eq!(time.time.raw, MIN_CIRCUIT_TIME);
    assert_eq!(time.mode, CircuitTimerMode::Play);
}
