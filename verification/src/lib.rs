//! Lifecycle management for a GPU-backed presentation surface.
//!
//! The crate models the negotiation of a surface configuration (pixel
//! format, alpha-compositing mode, present mode) and the per-frame
//! acquisition protocol with its recovery rules.  The backend calls
//! themselves (driver, window system) live outside; this library decides,
//! for every backend-reported outcome, what the next state and action are.

use vstd::prelude::*;

pub mod settings;
pub mod surface;

verus! {

/// Settings that are toggled while the program runs, as opposed to the
/// persistent ones under [`settings`].
pub struct RuntimeSettings {
    pub enable_uv: bool,
}

} // verus!
