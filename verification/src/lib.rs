//! Verified core of a terminal satellite tracker.
//!
//! The interactive state of the tracker (message log, tab and list
//! navigation, coordinate input) is verified here. The SGP4 numerical
//! propagation itself works on `f64` values, which the verifier does not
//! accept, so it lives outside the library.

pub mod app;
pub mod input;
pub mod propagation;
pub mod selection;
pub mod tle;
pub mod ui_state;
