//! The gas-information endpoint of the node's RPC service, with the state
//! reader it consults, verified with Verus.

pub mod error;
pub mod proto;
pub mod reader;
pub mod service;
