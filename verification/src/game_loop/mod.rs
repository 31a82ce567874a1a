//! One game: its state and card actions, its clocks, its moves, and the
//! decisions of the loop that watches it.
pub mod state;
pub mod timer;
pub mod move_handler;
pub mod runner;
