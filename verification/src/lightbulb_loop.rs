//! Power of a lightbulb in the closed-form circuit.
//!
//! [`DisconnectedLightbulbCircuit`] pairs the analytic [`Rlc`] solver with
//! the Joule-heating metric: the bulb's power at time `t` is
//! `current(q0, t)^2 * R`, and is undefined exactly when the circuit has no
//! real frequency.

use crate::fixed::Fixed;
use crate::light_calculator::spec_power;
use crate::light_calculator::power;
use crate::rlc::Rlc;
use vstd::prelude::*;

verus! {

/// An RLC loop with a lightbulb as its resistive load, solved in closed
/// form.
#[derive(Clone, Copy, Debug, PartialEq, Eq, Structural)]
pub struct DisconnectedLightbulbCircuit {
    pub circuit: Rlc,
}

impl DisconnectedLightbulbCircuit {
    pub fn with_constants(resistance: Fixed, inductance: Fixed, capacitance: Fixed) -> (r:
        DisconnectedLightbulbCircuit)
        ensures
            r.circuit.resistance == resistance,
            r.circuit.inductance == inductance,
            r.circuit.capacitance == capacitance,
    {
        DisconnectedLightbulbCircuit { circuit: Rlc::with_constants(resistance, inductance, capacitance) }
    }

    pub fn from_rlc(circuit: Rlc) -> (r: DisconnectedLightbulbCircuit)
        ensures
            r.circuit == circuit,
    {
        DisconnectedLightbulbCircuit { circuit }
    }

    /// The power, in watts, output by the lightbulb at time `t` after the
    /// release of charge `q0`: the squared analytic current times the
    /// resistance, or `None` exactly when the circuit has no real
    /// frequency.
    pub fn lightbulb_power(&self, q0: Fixed, t: Fixed) -> (r: Option<Fixed>)
        ensures
            match self.circuit.spec_current(q0, t) {
                Some(i) => r == Some(spec_power(i, self.circuit.resistance)),
                None => r is None,
            },
            r.is_some() <==> self.circuit.spec_freq_defined(),
    {
        let current = self.circuit.current(q0, t);
        match current {
            None => None,
            Some(i) => Some(power(i, self.circuit.resistance)),
        }
    }
}

} // verus!
