//! A bounded entity-component simulation: a population of entities with
//! sparse spatial attributes, three independent per-tick mutation passes, and
//! a tick scheduler that ends in a final report.
//!
//! Attribute values are fixed-point integers: one whole unit (a degree, a
//! scale unit, a coordinate unit) is [`component::UNIT`] steps.

pub mod component;
pub mod store;
pub mod mode;
pub mod arguments;
pub mod passes;
pub mod generate;
pub mod scheduler;
pub mod simulation;
pub mod text;
pub mod laws;
