//! The shape of the propagation model.
//!
//! The numerical constants and the per-call correction series work on
//! `f64` values and live outside the library; what remains here is the
//! choice of model branch.

use vstd::prelude::*;

verus! {

/// Which high-altitude handling the derived constants carry. Only the
/// near-Earth branch exists: the model covers perigees low enough for the
/// basic drag series, and no deep-space corrections are computed.
pub enum HighAltitude {
    No {},
}

} // verus!
