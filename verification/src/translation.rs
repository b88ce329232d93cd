//! The translations of the user interface.

pub mod error;
pub mod events;
pub mod state;
