//! Verified core of a route calculator: the scenario registry, the layout of
//! the training table, the state machine behind the input form, and the
//! interval search that inverts a fitted surface.

pub mod scenario;
pub mod text;
pub mod form;
pub mod bisect;
pub mod training;
