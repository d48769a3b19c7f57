//! What a connection was set up with.

use vstd::prelude::*;

verus! {

/// The settings of one connection. The server that holds it hands it out for
/// reading only.
#[derive(Debug, Clone, PartialEq, Eq)]
pub struct Config {
    /// The nickname that the client takes.
    pub nickname: String,
    /// The username that the client gives.
    pub username: String,
    /// The real name that the client gives.
    pub realname: String,
    /// The host that the connection goes to.
    pub server: String,
    /// The port on that host.
    pub port: u16,
}

} // verus!
