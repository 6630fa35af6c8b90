//! The wake model of lifting-line simulations.

pub mod wake;
