//! A deterministic single-tape Turing-machine interpreter.

pub mod config;
pub mod direction;
pub mod laws;
pub mod machine;

pub use config::ConfigError;
pub use direction::Direction;
pub use machine::{Instruction, StepError, TuringMachine};
