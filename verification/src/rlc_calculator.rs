//! The stepped RLC circuit integrator.
//!
//! [`RLCCalculator`] owns the "current moment in time" view of a series RLC
//! circuit released from a charged capacitor.  Each [`RLCCalculator::tick`]
//! advances the charge `q`, its rate `dqdt` and the rate's rate `d2qdt2` by a
//! fixed number of semi-implicit Euler sub-steps; the contract states the
//! exact recurrence applied.  The state is seeded from the circuit constants
//! on the first tick after construction or after [`RLCCalculator::reset`].

use crate::fixed::fx;
use crate::fixed::Fixed;
use crate::fixed::HALF_SCALE;
use crate::fixed::SCALE;
use vstd::prelude::*;

verus! {

/// Number of equal sub-steps a tick is divided into, to bound the local
/// truncation error of the explicit scheme.
pub const FIDELITY: i64 = 100;

/// Whether the integrator state has been seeded from the circuit constants
/// since construction or the last reset.
#[derive(Clone, Copy, Debug, PartialEq, Eq, Structural)]
pub enum IntegratorPhase {
    Uninitialized,
    Running,
}

/// Helper struct for calculating RLC series circuit current.
///
/// The four circuit constants may be edited freely between ticks; an edit
/// takes effect in the recomputed `d2qdt2` of the next sub-step, and an
/// edited `startcharge` only in the seeding after a reset.
#[derive(Clone, Copy, Debug, PartialEq, Eq, Structural)]
pub struct RLCCalculator {
    /// Q0, the starting and maximum charge present on the capacitor.
    pub startcharge: Fixed,
    /// R, the resistance.
    pub resistance: Fixed,
    /// L, the inductance.
    pub inductance: Fixed,
    /// C, the capacitance.
    pub capacitance: Fixed,
    /// Simulated time accumulated since the first tick.
    pub time_since_first_tick: Fixed,
    /// Charge on the capacitor.
    pub q: Fixed,
    /// Rate of change of the charge (the negated current).
    pub dqdt: Fixed,
    /// Rate of change of `dqdt` (the negated current rate).
    pub d2qdt2: Fixed,
    /// Whether the three derivatives above have been seeded yet.
    pub phase: IntegratorPhase,
}

impl RLCCalculator {
    /// The state a freshly constructed calculator holds: constants stored,
    /// derived state zero and unseeded.
    pub open spec fn spec_with_constants(
        startcharge: Fixed,
        resistance: Fixed,
        inductance: Fixed,
        capacitance: Fixed,
    ) -> RLCCalculator {
        RLCCalculator {
            startcharge,
            resistance,
            inductance,
            capacitance,
            time_since_first_tick: fx(0),
            q: fx(0),
            dqdt: fx(0),
            d2qdt2: fx(0),
            phase: IntegratorPhase::Uninitialized,
        }
    }

    /// Returns a calculator representing an RLC series circuit with the given
    /// constants and phase 0.
    pub fn with_constants(
        startcharge: Fixed,
        resistance: Fixed,
        inductance: Fixed,
        capacitance: Fixed,
    ) -> (r: RLCCalculator)
        ensures
            r == RLCCalculator::spec_with_constants(
                startcharge,
                resistance,
                inductance,
                capacitance,
            ),
    {
        RLCCalculator {
            startcharge,
            resistance,
            inductance,
            capacitance,
            time_since_first_tick: Fixed { raw: 0 },
            q: Fixed { raw: 0 },
            dqdt: Fixed { raw: 0 },
            d2qdt2: Fixed { raw: 0 },
            phase: IntegratorPhase::Uninitialized,
        }
    }

    /// The constants permit the divisions the integrator performs: positive
    /// inductance and capacitance whose product is at least one raw step.
    pub open spec fn valid_constants(self) -> bool {
        &&& self.inductance.raw > 0
        &&& self.capacitance.raw > 0
        &&& self.inductance.spec_mul(self.capacitance).raw > 0
    }

    /// An exec view of [`RLCCalculator::valid_constants`], for unverified
    /// callers that must check it before ticking.
    pub fn constants_ok(&self) -> (r: bool)
        ensures
            r == self.valid_constants(),
    {
        self.inductance.raw > 0 && self.capacitance.raw > 0
            && self.inductance.mul_fix(self.capacitance).raw > 0
    }

    /// The state seeded for the first tick: `q = Q0`, `dqdt = 0`, and
    /// `d2qdt2 = -Q0 (1/(L C) - (R/(2 L))^2)`, the analytic second derivative
    /// at the release instant.
    pub open spec fn spec_init(self) -> RLCCalculator
        recommends
            self.valid_constants(),
    {
        let one = fx(SCALE);
        let half = fx(HALF_SCALE);
        let w_squared = one.spec_div(self.inductance.spec_mul(self.capacitance));
        let modifier = self.resistance.spec_mul(half).spec_mul(one.spec_div(self.inductance));
        RLCCalculator {
            q: self.startcharge,
            dqdt: fx(0),
            d2qdt2: self.startcharge.spec_neg().spec_mul(
                w_squared.spec_sub(modifier.spec_mul(modifier)),
            ),
            ..self
        }
    }

    /// One semi-implicit Euler sub-step of size `dt`: the charge moves by the
    /// old rate, the rate by the old acceleration, and the acceleration is
    /// recomputed as `-(q/C + R dqdt)/L` from the just-updated pair.
    pub open spec fn spec_substep(self, dt: Fixed) -> RLCCalculator
        recommends
            self.valid_constants(),
    {
        let q2 = self.q.spec_add(self.dqdt.spec_mul(dt));
        let dqdt2 = self.dqdt.spec_add(self.d2qdt2.spec_mul(dt));
        let d2qdt22 = q2.spec_div(self.capacitance).spec_add(
            self.resistance.spec_mul(dqdt2),
        ).spec_neg().spec_div(self.inductance);
        RLCCalculator { q: q2, dqdt: dqdt2, d2qdt2: d2qdt22, ..self }
    }

    /// `n` sub-steps of size `dt` in sequence.
    pub open spec fn spec_substeps(self, dt: Fixed, n: nat) -> RLCCalculator
        recommends
            self.valid_constants(),
        decreases n,
    {
        if n == 0 {
            self
        } else {
            self.spec_substeps(dt, (n - 1) as nat).spec_substep(dt)
        }
    }

    /// A whole tick of size `delta_t`: seed the state if it is unseeded, run
    /// [`FIDELITY`] sub-steps of size `delta_t / FIDELITY`, and advance the
    /// accumulated time.
    pub open spec fn spec_tick(self, delta_t: Fixed) -> RLCCalculator
        recommends
            self.valid_constants(),
    {
        let seeded = if self.phase == IntegratorPhase::Uninitialized {
            self.spec_init()
        } else {
            self
        };
        let stepped = seeded.spec_substeps(delta_t.spec_div_int(FIDELITY), FIDELITY as nat);
        RLCCalculator {
            time_since_first_tick: self.time_since_first_tick.spec_add(delta_t),
            phase: IntegratorPhase::Running,
            ..stepped
        }
    }

    /// Increments the internal state of the circuit, passing time by
    /// `delta_t`.
    pub fn tick(&mut self, delta_t: Fixed)
        requires
            old(self).valid_constants(),
            delta_t.raw > 0,
        ensures
            *final(self) == old(self).spec_tick(delta_t),
    {
        if self.phase == IntegratorPhase::Uninitialized {
            let one = Fixed { raw: SCALE };
            let half = Fixed { raw: HALF_SCALE };
            let w_squared = one.div_fix(self.inductance.mul_fix(self.capacitance));
            let modifier = self.resistance.mul_fix(half).mul_fix(one.div_fix(self.inductance));
            self.q = self.startcharge;
            self.dqdt = Fixed { raw: 0 };
            self.d2qdt2 = self.startcharge.neg_sat().mul_fix(
                w_squared.sub_sat(modifier.mul_fix(modifier)),
            );
            proof {
                assert(*self == old(self).spec_init());
            }
        }
        let ghost seeded = *self;
        let dt = delta_t.div_int(FIDELITY);
        let mut i: i64 = 0;
        while i < FIDELITY
            invariant
                0 <= i <= FIDELITY,
                self.valid_constants(),
                self.inductance == seeded.inductance,
                self.capacitance == seeded.capacitance,
                self.resistance == seeded.resistance,
                self.startcharge == seeded.startcharge,
                self.time_since_first_tick == seeded.time_since_first_tick,
                self.phase == seeded.phase,
                *self == seeded.spec_substeps(dt, i as nat),
            decreases FIDELITY - i,
        {
            let q2 = self.q.add_sat(self.dqdt.mul_fix(dt));
            let dqdt2 = self.dqdt.add_sat(self.d2qdt2.mul_fix(dt));
            let d2qdt22 = q2.div_fix(self.capacitance).add_sat(
                self.resistance.mul_fix(dqdt2),
            ).neg_sat().div_fix(self.inductance);
            self.q = q2;
            self.dqdt = dqdt2;
            self.d2qdt2 = d2qdt22;
            i = i + 1;
        }
        self.time_since_first_tick = self.time_since_first_tick.add_sat(delta_t);
        self.phase = IntegratorPhase::Running;
    }

    /// Calculates the current in the circuit: the negated charge rate, since
    /// charge leaving the capacitor counts as positive current.
    pub fn current(&self) -> (r: Fixed)
        requires
            self.phase == IntegratorPhase::Running,
        ensures
            r == self.dqdt.spec_neg(),
    {
        self.dqdt.neg_sat()
    }

    /// The rate of change of the current.
    pub fn current_rate(&self) -> (r: Fixed)
        requires
            self.phase == IntegratorPhase::Running,
        ensures
            r == self.d2qdt2.spec_neg(),
    {
        self.d2qdt2.neg_sat()
    }

    /// The state after a reset: accumulated time cleared and the derived
    /// state marked unseeded, so the next tick re-derives it.
    pub open spec fn spec_reset(self) -> RLCCalculator {
        RLCCalculator {
            time_since_first_tick: fx(0),
            phase: IntegratorPhase::Uninitialized,
            ..self
        }
    }

    /// Resets the state of the circuit back to time 0.
    pub fn reset(&mut self)
        ensures
            *final(self) == old(self).spec_reset(),
    {
        self.time_since_first_tick = Fixed { raw: 0 };
        self.phase = IntegratorPhase::Uninitialized;
    }

    /// The state after a whole sequence of ticks, applied front to back.
    pub open spec fn spec_run(self, dts: Seq<Fixed>) -> RLCCalculator
        decreases dts.len(),
    {
        if dts.len() == 0 {
            self
        } else {
            self.spec_tick(dts[0]).spec_run(dts.drop_first())
        }
    }
}

/// Sub-steps never touch the circuit constants, the accumulated time or
/// the seeding flag: they move only `q`, `dqdt` and `d2qdt2`.
pub proof fn lemma_substeps_preserve_constants(s: RLCCalculator, dt: Fixed, n: nat)
    ensures
        s.spec_substeps(dt, n).startcharge == s.startcharge,
        s.spec_substeps(dt, n).resistance == s.resistance,
        s.spec_substeps(dt, n).inductance == s.inductance,
        s.spec_substeps(dt, n).capacitance == s.capacitance,
        s.spec_substeps(dt, n).time_since_first_tick == s.time_since_first_tick,
        s.spec_substeps(dt, n).phase == s.phase,
    decreases n,
{
    if n > 0 {
        lemma_substeps_preserve_constants(s, dt, (n - 1) as nat);
    }
}

/// A tick never touches the circuit constants; it leaves the calculator
/// running, with the tick's span added to the accumulated time.
pub proof fn lemma_tick_preserves_constants(s: RLCCalculator, delta_t: Fixed)
    ensures
        s.spec_tick(delta_t).startcharge == s.startcharge,
        s.spec_tick(delta_t).resistance == s.resistance,
        s.spec_tick(delta_t).inductance == s.inductance,
        s.spec_tick(delta_t).capacitance == s.capacitance,
        s.spec_tick(delta_t).time_since_first_tick == s.time_since_first_tick.spec_add(delta_t),
        s.spec_tick(delta_t).phase == IntegratorPhase::Running,
        s.valid_constants() ==> s.spec_tick(delta_t).valid_constants(),
{
    let seeded = if s.phase == IntegratorPhase::Uninitialized {
        s.spec_init()
    } else {
        s
    };
    lemma_substeps_preserve_constants(seeded, delta_t.spec_div_int(FIDELITY), FIDELITY as nat);
}

/// Re-initialization idempotence: a reset calculator follows, tick for tick
/// and bit for bit, the trajectory of a freshly constructed calculator with
/// the same constants.  The first tick after a reset re-seeds every derived
/// field from the constants alone, so the stale state a reset leaves behind
/// never reaches an observable value.
pub proof fn lemma_reset_matches_fresh(s: RLCCalculator, dts: Seq<Fixed>)
    ensures
        forall|i: int|
            1 <= i <= dts.len() ==> s.spec_reset().spec_run(#[trigger] dts.take(i))
                == RLCCalculator::spec_with_constants(
                s.startcharge,
                s.resistance,
                s.inductance,
                s.capacitance,
            ).spec_run(dts.take(i)),
        dts.len() >= 1 ==> s.spec_reset().spec_run(dts) == RLCCalculator::spec_with_constants(
            s.startcharge,
            s.resistance,
            s.inductance,
            s.capacitance,
        ).spec_run(dts),
{
    let a = s.spec_reset();
    let b = RLCCalculator::spec_with_constants(
        s.startcharge,
        s.resistance,
        s.inductance,
        s.capacitance,
    );
    assert forall|i: int| 1 <= i <= dts.len() implies a.spec_run(#[trigger] dts.take(i))
        == b.spec_run(dts.take(i)) by {
        let p = dts.take(i);
        assert(p.len() == i);
        assert(p[0] == dts[0]);
        assert(a.spec_init() == b.spec_init());
        assert(a.spec_tick(p[0]) == b.spec_tick(p[0]));
        assert(a.spec_run(p) == a.spec_tick(p[0]).spec_run(p.drop_first()));
        assert(b.spec_run(p) == b.spec_tick(p[0]).spec_run(p.drop_first()));
    }
    if dts.len() >= 1 {
        assert(dts.take(dts.len() as int) =~= dts);
        assert(a.spec_run(dts.take(dts.len() as int)) == b.spec_run(dts.take(dts.len() as int)));
    }
}

} // verus!
