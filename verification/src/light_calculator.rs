//! Power dissipated by a lightbulb driven from the stepped integrator.
//!
//! The lightbulb is a resistive load: its instantaneous power is the Joule
//! heating `i^2 R` of the live current.  [`DisconnectLightCircuitCalculator`]
//! bundles an [`RLCCalculator`] with that derived metric.

use crate::fixed::fx;
use crate::fixed::lemma_tdiv_bound;
use crate::fixed::Fixed;
use crate::fixed::SCALE;
use crate::rlc_calculator::IntegratorPhase;
use crate::rlc_calculator::RLCCalculator;
use vstd::prelude::*;

verus! {

/// The instantaneous power a resistive load dissipates from a current:
/// `i * i * R`.
pub open spec fn spec_power(current: Fixed, resistance: Fixed) -> Fixed {
    current.spec_mul(current).spec_mul(resistance)
}

/// Joule heating of a resistive load: `power(i, R) == i * i * R`.
pub fn power(current: Fixed, resistance: Fixed) -> (p: Fixed)
    ensures
        p == spec_power(current, resistance),
{
    current.mul_fix(current).mul_fix(resistance)
}

/// No current, or no resistance, dissipates no power.
pub proof fn lemma_power_zero(current: Fixed, resistance: Fixed)
    ensures
        spec_power(fx(0), resistance) == fx(0),
        spec_power(current, fx(0)) == fx(0),
{
    vstd::arithmetic::div_mod::lemma_div_of0(SCALE as int);
    vstd::arithmetic::mul::lemma_mul_basics(resistance.raw as int);
    vstd::arithmetic::mul::lemma_mul_basics(current.spec_mul(current).raw as int);
    assert(fx(0).spec_mul(resistance) == fx(0));
    assert(current.spec_mul(current).spec_mul(fx(0)) == fx(0));
}

/// A nonnegative resistance never dissipates negative power: the square of
/// the current is nonnegative, and so is the product.
pub proof fn lemma_power_nonneg(current: Fixed, resistance: Fixed)
    requires
        resistance.raw >= 0,
    ensures
        spec_power(current, resistance).raw >= 0,
{
    let squared = current.spec_mul(current);
    assert(current.raw * current.raw >= 0) by (nonlinear_arith);
    lemma_tdiv_bound(current.raw * current.raw, SCALE as int);
    assert(squared.raw * resistance.raw >= 0) by (nonlinear_arith)
        requires
            squared.raw >= 0,
            resistance.raw >= 0,
    ;
    lemma_tdiv_bound(squared.raw * resistance.raw, SCALE as int);
}

/// Helper struct for calculating the power of a lightbulb connected to an
/// RLC series circuit.
#[derive(Clone, Copy, Debug, PartialEq, Eq, Structural)]
pub struct DisconnectLightCircuitCalculator {
    pub circuit: RLCCalculator,
}

impl DisconnectLightCircuitCalculator {
    /// Returns a calculator representing an RLC series circuit connected to
    /// a lightbulb with the given constants and phase 0.
    pub fn with_constants(
        startcharge: Fixed,
        resistance: Fixed,
        inductance: Fixed,
        capacitance: Fixed,
    ) -> (r: DisconnectLightCircuitCalculator)
        ensures
            r.circuit == RLCCalculator::spec_with_constants(
                startcharge,
                resistance,
                inductance,
                capacitance,
            ),
    {
        DisconnectLightCircuitCalculator {
            circuit: RLCCalculator::with_constants(
                startcharge,
                resistance,
                inductance,
                capacitance,
            ),
        }
    }

    /// Consumes a [`RLCCalculator`] to return a calculator representing that
    /// RLC circuit connected to a lightbulb.
    pub fn from_rlc(circuit: RLCCalculator) -> (r: DisconnectLightCircuitCalculator)
        ensures
            r.circuit == circuit,
    {
        DisconnectLightCircuitCalculator { circuit }
    }

    /// Calculates the power, in watts, output by the lightbulb at the
    /// circuit's current moment: `current()^2 * R` on the live state.
    pub fn lightbulb_power(&self) -> (p: Fixed)
        requires
            self.circuit.phase == IntegratorPhase::Running,
        ensures
            p == spec_power(self.circuit.dqdt.spec_neg(), self.circuit.resistance),
    {
        let current = self.circuit.current();
        power(current, self.circuit.resistance)
    }
}

} // verus!
