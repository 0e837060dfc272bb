//! State-management core for an interactive pixel-painting surface:
//! an immutable image grid with structural sharing, and a linear
//! undo/redo history that can coalesce a drag gesture into one entry.

pub mod grid;
pub mod history;
pub mod state;
