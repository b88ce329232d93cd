//! The settings of the application.

pub mod command;
pub mod error;
pub mod events;
pub mod state;
