//! A step-driven interpreter for a two-dimensional, stack-based language
//! whose programs are grids of single-character instructions.
//!
//! [`FungedState`] is the interpreter; [`Machine`] is its mathematical model,
//! over which every contract is stated. The `laws` module holds what is
//! proved of every machine, and `editor` the decisions of an editor around
//! the interpreter.

pub mod cells;
pub mod chance;
pub mod editor;
pub mod laws;
pub mod listing;
pub mod machine;
pub mod numeral;
pub mod opcodes;
pub mod position;
pub mod program;
pub mod state;
pub mod strings;

pub use machine::{Machine, NeedsInputType};
pub use position::{Direction, Position};
pub use state::FungedState;
