pub mod error;
pub mod laws;
pub mod lifecycle;
pub mod pda;
pub mod state;
