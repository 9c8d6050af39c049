//! Observers of what the program does.
pub mod resilience;
pub mod traits;
