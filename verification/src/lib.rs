//! Index bookkeeping of a lifting-line wake model and of line force models made of several wings.
//!
//! The wake of a lifting-line simulation is a structured surface of points and panels, stored in
//! flat vectors ordered stream-wise major. The line force model stores several wings after each
//! other, and each wing is a contiguous range of line elements. This crate holds the index logic
//! of both and the updates of the wake at each time step, with its contracts proved; the
//! floating-point arithmetic of those updates enters as closures.

pub mod lifting_line;
pub mod line_force_model;
