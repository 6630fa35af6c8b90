//! Line force models: several wings stored after each other, each wing a contiguous range of
//! line elements.

pub mod wing_indices;
pub mod span_points;
pub mod corrections;
pub mod solver_utils;
