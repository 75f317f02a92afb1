//! The parameters that govern one simulation step.

pub mod integration_parameters;
pub mod validation;
