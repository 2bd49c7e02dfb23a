//! Values and the state that holds them.

pub mod framedef;
pub mod objdef;
pub mod stackdef;
pub mod statedef;
