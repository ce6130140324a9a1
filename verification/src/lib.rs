//! Simulation kernel for a series RLC circuit released from a charged
//! capacitor, and the instantaneous power it dissipates in a lightbulb load.
//!
//! All quantities are carried as [`fixed::Fixed`] fixed-point numbers, so the
//! arithmetic of the analytic solver, the stepped integrator and the
//! simulation clock is exact enough to state and verify.

pub mod effects;
pub mod fixed;
pub mod light_calculator;
pub mod lightbulb_loop;
pub mod rlc;
pub mod rlc_calculator;
pub mod series;
pub mod timer;

pub use effects::EffectsPlugin;
pub use effects::Foreground;
pub use fixed::Fixed;
pub use fixed::SCALE;
pub use light_calculator::DisconnectLightCircuitCalculator;
pub use lightbulb_loop::DisconnectedLightbulbCircuit;
pub use rlc::Rlc;
pub use rlc_calculator::IntegratorPhase;
pub use rlc_calculator::RLCCalculator;
pub use rlc_calculator::FIDELITY;
