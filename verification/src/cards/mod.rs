pub mod state;
pub mod types;
pub mod registry;
pub mod effects;
