//! The values that travel between a client and a server.

pub mod command;
pub mod config;
pub mod message;
