//! Marker types for the display collaborator.
//!
//! The rendering layer that consumes this kernel tags its full-screen
//! overlay entity with these markers.  They carry no data and take part in
//! no computation; the kernel only defines them so display code has a
//! single shared name for them.

use vstd::prelude::*;

verus! {

/// Tag of the display layer's screen-effects stage.
#[derive(Clone, Copy, Debug, PartialEq, Eq, Structural)]
pub struct EffectsPlugin;

/// Tag of the full-screen foreground overlay entity.
#[derive(Clone, Copy, Debug, PartialEq, Eq, Structural)]
pub struct Foreground;

} // verus!
