//! The closed-form RLC solver.
//!
//! [`Rlc`] computes the exact current of a series RLC loop released from a
//! known capacitor charge, without a stepped simulation:
//! `i(t) = w R Q0 / (2 L) * exp(-R t / (2 L)) * sin(w t)` with the damped
//! angular frequency `w = sqrt(1/(L C) - (R/(2 L))^2)`.  The circuit must be
//! underdamped: constants whose radicand is negative (or whose divisors
//! vanish) have no real frequency, and every query answers `None` — callers
//! must reject such constants as a configuration error.

use crate::fixed::fx;
use crate::fixed::lemma_zero_times;
use crate::fixed::Fixed;
use crate::fixed::HALF_SCALE;
use crate::fixed::SCALE;
use crate::series::exp_fix;
use crate::series::lemma_sin_zero;
use crate::series::sin_fix;
use crate::series::spec_exp;
use crate::series::spec_sin;
use vstd::prelude::*;

verus! {

/// The constants of a series RLC loop, for the closed-form solver.
#[derive(Clone, Copy, Debug, PartialEq, Eq, Structural)]
pub struct Rlc {
    pub resistance: Fixed,
    pub inductance: Fixed,
    pub capacitance: Fixed,
}

impl Rlc {
    pub fn with_constants(resistance: Fixed, inductance: Fixed, capacitance: Fixed) -> (r: Rlc)
        ensures
            r.resistance == resistance,
            r.inductance == inductance,
            r.capacitance == capacitance,
    {
        Rlc { resistance, inductance, capacitance }
    }

    /// A circuit with every constant zero; it has no real frequency until
    /// the constants are edited.
    pub fn new() -> (r: Rlc)
        ensures
            r.resistance == fx(0),
            r.inductance == fx(0),
            r.capacitance == fx(0),
    {
        Rlc {
            resistance: Fixed { raw: 0 },
            inductance: Fixed { raw: 0 },
            capacitance: Fixed { raw: 0 },
        }
    }

    /// The quantity under the square root of the damped angular frequency:
    /// `1/(L C) - (R/(2 L))^2`.
    pub open spec fn spec_radicand(self) -> Fixed
        recommends
            self.inductance.spec_mul(self.capacitance).raw != 0,
            self.inductance.raw != 0,
    {
        let one = fx(SCALE);
        let half = fx(HALF_SCALE);
        let w_squared = one.spec_div(self.inductance.spec_mul(self.capacitance));
        let modifier = self.resistance.spec_mul(half).spec_mul(one.spec_div(self.inductance));
        w_squared.spec_sub(modifier.spec_mul(modifier))
    }

    /// The circuit has a real damped angular frequency: the divisors are
    /// representable and the radicand is not negative.  An overdamped or
    /// degenerate circuit fails this, and must be treated as a
    /// configuration error.
    pub open spec fn spec_freq_defined(self) -> bool {
        &&& self.inductance.spec_mul(self.capacitance).raw != 0
        &&& self.inductance.raw != 0
        &&& self.spec_radicand().raw >= 0
    }

    /// The damped angular frequency, when the circuit has one.
    pub open spec fn spec_angular_freq(self) -> Option<Fixed> {
        if self.spec_freq_defined() {
            Some(self.spec_radicand().spec_sqrt())
        } else {
            None
        }
    }

    /// This is the omega prime of the circuit:
    /// `sqrt(1/(L C) - (R/(2 L))^2)`, or `None` exactly when the circuit is
    /// overdamped or degenerate.
    pub fn angular_freq(&self) -> (r: Option<Fixed>)
        ensures
            r == self.spec_angular_freq(),
            r.is_some() <==> self.spec_freq_defined(),
    {
        let lc = self.inductance.mul_fix(self.capacitance);
        if lc.raw == 0 || self.inductance.raw == 0 {
            None
        } else {
            let one = Fixed { raw: SCALE };
            let half = Fixed { raw: HALF_SCALE };
            let w_squared = one.div_fix(lc);
            let modifier = self.resistance.mul_fix(half).mul_fix(one.div_fix(self.inductance));
            let radicand = w_squared.sub_sat(modifier.mul_fix(modifier));
            if radicand.raw < 0 {
                None
            } else {
                Some(radicand.sqrt_fix())
            }
        }
    }

    /// The exact current at time `t` of the loop released from charge `q0`:
    /// `w R q0 / (2 L) * exp(-R t / (2 L)) * sin(w t)` under the truncated
    /// fixed-point transcendentals, or `None` exactly when the circuit has
    /// no real frequency.
    pub open spec fn spec_current(self, q0: Fixed, t: Fixed) -> Option<Fixed> {
        if self.spec_freq_defined() {
            let w = self.spec_radicand().spec_sqrt();
            let one = fx(SCALE);
            let half = fx(HALF_SCALE);
            let half_recip_l = half.spec_mul(one.spec_div(self.inductance));
            let c = w.spec_mul(self.resistance).spec_mul(q0).spec_mul(half_recip_l);
            let tau = self.resistance.spec_neg().spec_mul(half_recip_l);
            Some(c.spec_mul(spec_exp(tau.spec_mul(t))).spec_mul(spec_sin(w.spec_mul(t))))
        } else {
            None
        }
    }

    /// `q0` is the initial charge on the capacitor; `t` is the time from the
    /// moment the capacitor held charge `q0`.  Sends the magnitude and
    /// direction of the current, positive in the fixed reference direction
    /// around the loop.  A negative `t` is permitted algebraically though it
    /// has no physical meaning.
    pub fn current(&self, q0: Fixed, t: Fixed) -> (r: Option<Fixed>)
        ensures
            r == self.spec_current(q0, t),
            r.is_some() <==> self.spec_freq_defined(),
    {
        let freq = self.angular_freq();
        match freq {
            None => None,
            Some(w) => {
                let one = Fixed { raw: SCALE };
                let half = Fixed { raw: HALF_SCALE };
                let half_recip_l = half.mul_fix(one.div_fix(self.inductance));
                let c = w.mul_fix(self.resistance).mul_fix(q0).mul_fix(half_recip_l);
                let tau = self.resistance.neg_sat().mul_fix(half_recip_l);
                Some(c.mul_fix(exp_fix(tau.mul_fix(t))).mul_fix(sin_fix(w.mul_fix(t))))
            },
        }
    }
}

/// At the release instant the current vanishes: the sine factor is the sine
/// of zero, and it multiplies everything else away.
pub proof fn lemma_current_zero_at_start(circuit: Rlc, q0: Fixed)
    requires
        circuit.spec_freq_defined(),
    ensures
        circuit.spec_current(q0, fx(0)) == Some(fx(0)),
{
    let w = circuit.spec_radicand().spec_sqrt();
    let one = fx(SCALE);
    let half = fx(HALF_SCALE);
    let half_recip_l = half.spec_mul(one.spec_div(circuit.inductance));
    let c = w.spec_mul(circuit.resistance).spec_mul(q0).spec_mul(half_recip_l);
    let tau = circuit.resistance.spec_neg().spec_mul(half_recip_l);
    lemma_zero_times(w);
    lemma_zero_times(tau);
    lemma_sin_zero();
    assert(spec_sin(w.spec_mul(fx(0))) == fx(0));
    lemma_zero_times(c.spec_mul(spec_exp(tau.spec_mul(fx(0)))));
}

} // verus!
