//! A verified core for a grid-based snake simulation.
//!
//! A chain of body segments follows a head that advances one grid cell per
//! tick in a fixed direction; eating food grows the chain by one segment and
//! relocates the food to an unoccupied cell inside configured bounds.

pub mod chain;
pub mod clock;
pub mod grid;
pub mod signal;
pub mod sim;
pub mod spawner;
