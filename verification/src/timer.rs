//! The simulation clock.
//!
//! A [`CircuitTimer`] holds the simulated time, bounded to
//! [`MIN_CIRCUIT_TIME`, `MAX_CIRCUIT_TIME`], and a play/pause mode.  Once per
//! frame the driver calls [`update_time`]: while playing, the clock advances
//! by the fixed step [`DELTA_T`], ticks every registered circuit, appends a
//! `(time, current)` sample to each plot, and pauses itself when the end of
//! the run is reached.  While paused the frame is a no-op.

use crate::fixed::fx;
use crate::fixed::Fixed;
use crate::light_calculator::DisconnectLightCircuitCalculator;
use crate::rlc_calculator::RLCCalculator;
use vstd::prelude::*;

verus! {

/// At what time the simulation ends, in raw fixed-point steps (100 seconds).
pub const MAX_CIRCUIT_TIME: i64 = 100_000_000_000;

/// The minimum time of the simulation, the start.
pub const MIN_CIRCUIT_TIME: i64 = 0;

/// The amount of simulated time passing every playing frame, in raw
/// fixed-point steps (a tenth of a second).  This intentionally does not
/// make the simulation run in wall-clock time.
pub const DELTA_T: i64 = 100_000_000;

/// The two modes the simulation can be in, paused or playing.
#[derive(Clone, Copy, Debug, PartialEq, Eq, Structural)]
pub enum CircuitTimerMode {
    Play,
    Pause,
}

/// A timer keeping track of the current time in the simulation.
#[derive(Clone, Copy, Debug, PartialEq, Eq, Structural)]
pub struct CircuitTimer {
    pub time: Fixed,
    pub mode: CircuitTimerMode,
}

/// The circuit calculator itself, as the clock drives it.
#[derive(Clone, Debug)]
pub struct DLRCCircuit(pub DisconnectLightCircuitCalculator);

/// The computed `(time, current)` samples of a circuit, appended once per
/// playing frame.
#[derive(Clone, Debug)]
pub struct CurrentTimePlot(pub Vec<(Fixed, Fixed)>);

/// A circuit registered with the clock, together with its plot buffer.
#[derive(Clone, Debug)]
pub struct CircuitBundle {
    pub circuit: DLRCCircuit,
    pub plot: CurrentTimePlot,
}

impl CircuitTimer {
    /// The time lies within the simulation's bounds.
    pub open spec fn time_in_range(self) -> bool {
        MIN_CIRCUIT_TIME <= self.time.raw <= MAX_CIRCUIT_TIME
    }

    /// The clock after one playing frame: the time moves by [`DELTA_T`];
    /// reaching the end of the run clamps it there and pauses, and the time
    /// is never left below the start.
    pub open spec fn spec_advanced(self) -> CircuitTimer {
        let t1 = self.time.spec_add(fx(DELTA_T));
        if t1.raw >= MAX_CIRCUIT_TIME {
            CircuitTimer { time: fx(MAX_CIRCUIT_TIME), mode: CircuitTimerMode::Pause }
        } else if t1.raw < MIN_CIRCUIT_TIME {
            CircuitTimer { time: fx(MIN_CIRCUIT_TIME), mode: CircuitTimerMode::Play }
        } else {
            CircuitTimer { time: t1, mode: CircuitTimerMode::Play }
        }
    }
}

/// The integrator state a bundle's circuit reaches after one playing frame.
pub open spec fn spec_ticked(b: CircuitBundle) -> RLCCalculator {
    b.circuit.0.circuit.spec_tick(fx(DELTA_T))
}

/// The sample a playing frame appends to a bundle's plot: the frame's new
/// time paired with the circuit's new current.
pub open spec fn spec_sample(b: CircuitBundle, t1: Fixed) -> (Fixed, Fixed) {
    (t1, spec_ticked(b).dqdt.spec_neg())
}

/// Updates the timer and the time sensitive parts of the simulation, once
/// per frame.  A paused clock leaves everything untouched.
#[verifier::loop_isolation(false)]
pub fn update_time(time: &mut CircuitTimer, circs: &mut Vec<CircuitBundle>)
    requires
        forall|j: int|
            0 <= j < old(circs)@.len() ==> (#[trigger] old(circs)@[j]).circuit.0.circuit.valid_constants(),
    ensures
        old(time).mode == CircuitTimerMode::Pause ==> *final(time) == *old(time) && *final(circs)
            == *old(circs),
        old(time).mode == CircuitTimerMode::Play ==> {
            &&& *final(time) == old(time).spec_advanced()
            &&& final(time).time_in_range()
            &&& final(circs)@.len() == old(circs)@.len()
            &&& forall|j: int|
                0 <= j < old(circs)@.len() ==> {
                    &&& (#[trigger] final(circs)@[j]).circuit.0.circuit == spec_ticked(
                        old(circs)@[j],
                    )
                    &&& final(circs)@[j].plot.0@ == old(circs)@[j].plot.0@.push(
                        spec_sample(old(circs)@[j], old(time).time.spec_add(fx(DELTA_T))),
                    )
                }
        },
        forall|j: int|
            0 <= j < final(circs)@.len() ==> (#[trigger] final(circs)@[j]).circuit.0.circuit.valid_constants(),
{
    if time.mode == CircuitTimerMode::Play {
        let t1 = time.time.add_sat(Fixed { raw: DELTA_T });
        time.time = t1;
        let ghost orig = circs@;
        let n = circs.len();
        let mut i: usize = 0;
        while i < n
            invariant
                i <= n,
                circs@.len() == orig.len(),
                forall|j: int| i <= j < n ==> #[trigger] circs@[j] == orig[j],
                forall|j: int|
                    0 <= j < i ==> {
                        &&& (#[trigger] circs@[j]).circuit.0.circuit == spec_ticked(orig[j])
                        &&& circs@[j].plot.0@ == orig[j].plot.0@.push(spec_sample(orig[j], t1))
                    },
            decreases n - i,
        {
            let b = &mut circs[i];
            b.circuit.0.circuit.tick(Fixed { raw: DELTA_T });
            let cur = b.circuit.0.circuit.current();
            b.plot.0.push((t1, cur));
            i = i + 1;
        }
        if time.time.raw >= MAX_CIRCUIT_TIME {
            time.time = Fixed { raw: MAX_CIRCUIT_TIME };
            time.mode = CircuitTimerMode::Pause;
        }
        if time.time.raw < MIN_CIRCUIT_TIME {
            time.time = Fixed { raw: MIN_CIRCUIT_TIME };
        }
        proof {
            assert forall|j: int| 0 <= j < circs@.len() implies (#[trigger] circs@[j]).circuit.0.circuit.valid_constants() by {
                crate::rlc_calculator::lemma_tick_preserves_constants(
                    orig[j].circuit.0.circuit,
                    fx(DELTA_T),
                );
            }
        }
    }
}

/// The reset command: the clock returns to the start paused, every circuit
/// forgets its seeded state, and every plot is cleared and reseeded with the
/// starting sample.
#[verifier::loop_isolation(false)]
pub fn reset_simulation(time: &mut CircuitTimer, circs: &mut Vec<CircuitBundle>)
    ensures
        final(time).time == fx(MIN_CIRCUIT_TIME),
        final(time).mode == CircuitTimerMode::Pause,
        final(circs)@.len() == old(circs)@.len(),
        forall|j: int|
            0 <= j < old(circs)@.len() ==> {
                &&& (#[trigger] final(circs)@[j]).circuit.0.circuit == old(
                    circs,
                )@[j].circuit.0.circuit.spec_reset()
                &&& final(circs)@[j].plot.0@ == seq![(fx(MIN_CIRCUIT_TIME), fx(0))]
            },
{
    time.time = Fixed { raw: MIN_CIRCUIT_TIME };
    time.mode = CircuitTimerMode::Pause;
    let ghost orig = circs@;
    let n = circs.len();
    let mut i: usize = 0;
    while i < n
        invariant
            i <= n,
            circs@.len() == orig.len(),
            forall|j: int| i <= j < n ==> #[trigger] circs@[j] == orig[j],
            forall|j: int|
                0 <= j < i ==> {
                    &&& (#[trigger] circs@[j]).circuit.0.circuit == orig[j].circuit.0.circuit.spec_reset()
                    &&& circs@[j].plot.0@ == seq![(fx(MIN_CIRCUIT_TIME), fx(0))]
                },
        decreases n - i,
    {
        let b = &mut circs[i];
        b.circuit.0.circuit.reset();
        b.plot.0.clear();
        b.plot.0.push((Fixed { raw: MIN_CIRCUIT_TIME }, Fixed { raw: 0 }));
        proof {
            assert(circs@[i as int].plot.0@ =~= seq![(fx(MIN_CIRCUIT_TIME), fx(0))]);
        }
        i = i + 1;
    }
}

} // verus!
