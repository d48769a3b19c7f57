//! What a server sends to a client.

use vstd::prelude::*;

verus! {

/// One message from the server, taken apart into its pieces.
#[derive(Debug, Clone, PartialEq, Eq)]
pub struct Message {
    /// Who the message comes from, where the server says so.
    pub prefix: Option<String>,
    /// The verb or the numeric of the message.
    pub command: String,
    /// The arguments in the middle.
    pub args: Vec<String>,
    /// The trailing argument, where there is one.
    pub suffix: Option<String>,
}

} // verus!
