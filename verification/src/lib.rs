//! Shortcuts for talking to an IRC server: the commands a client sends, the
//! capability that a connected server offers, and a wrapper that builds the
//! common commands and hands them to the server.

pub mod data;
pub mod server;
