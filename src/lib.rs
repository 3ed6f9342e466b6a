//! A bounded-grid Langton's Ant engine, stepped one move at a time by a host
//! that renders the returned grid, together with a few small slice utilities.

pub mod direction;
pub mod engine;
pub mod grid;
pub mod laws;
pub mod slices;

pub use direction::Direction;
pub use engine::Ant;
pub use grid::{AntError, Grid};
