//! Verified core of a stepwise satellite-orbit simulator.
//!
//! The numerical stack (SGP4 propagation, reference-frame rotations,
//! atmosphere and sun models) works in floating point and runs outside this
//! crate; what is verified here is the discrete skeleton those numbers hang
//! on: the simulation clock and its frame-transform horizon clamp
//! (`sim_clock`), the batched worker protocol that couples a run to an
//! observer (`step_loop`), and the input-form field model (`fields`).

pub mod fields;
pub mod sim_clock;
pub mod step_loop;
