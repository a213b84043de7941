pub mod scheduler;
pub mod state;
