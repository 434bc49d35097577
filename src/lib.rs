//! Conway's Game of Life on a fixed, bounded grid: cell states, neighbour
//! counting, the B3/S23 transition rule and synchronous generation updates.

mod platform;
pub mod laws;
pub mod simulation;

pub use simulation::{CellState, ConfigError, SimulationState};
