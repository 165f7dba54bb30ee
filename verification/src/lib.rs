//! Verified core of the CO2 panel: the wire protocol's data model, the
//! panel's display state machine, the decisions of the C interface and the
//! text that the panel shows.
//!
//! Measured values and limits travel through the library as the IEEE-754
//! bit patterns of the `f32` values that the C programs hand in
//! (`f32::to_bits`); the library stores and forwards them but never does
//! floating-point arithmetic on them.

pub mod text;
pub mod protocol;
pub mod panel;
pub mod display;
pub mod c_api;


