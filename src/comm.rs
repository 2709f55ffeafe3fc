//! Messages on the front end's comm channels.
use vstd::prelude::*;

verus! {

/// Asks the kernel to start its language server for a client.
pub struct StartLsp {
    /// The address on which the client is listening for LSP requests.
    pub client_address: String,
}

} // verus!
