//! Backend logic of a desktop Redis administration tool: the resumable key
//! scan engine, the connection registry around it, and the small data types
//! the command layer exchanges with the user interface.

pub mod cache;
pub mod client;
pub mod command;
pub mod commands;
pub mod config;
pub mod connections;
pub mod context;
pub mod demo;
pub mod error;
pub mod events;
pub mod guarantees;
pub mod guid;
pub mod info;
pub mod json;
pub mod key_type;
pub mod manager;
pub mod response;
pub mod scanner;
pub mod setting;
pub mod stream;
pub mod telemetry;
pub mod text;
pub mod text_map;
pub mod translation;
