use vstd::prelude::*;

verus! {

/// Errors the RPC service answers with.
#[derive(Clone, Copy, Debug, PartialEq, Eq, Structural)]
pub enum RpcError {
    /// The store could not produce the state that a request needs
    /// (reported to clients with the gRPC code `Internal`).
    Internal,
}

} // verus!
