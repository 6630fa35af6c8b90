//! Wake structure: flat indices of points and panels, and operations on values stored per panel
//! or per point.

pub mod indices;
pub mod dynamic_wake;
pub mod update_data;
pub mod initialization;
pub mod induced_velocity_calc;
pub mod builders;
