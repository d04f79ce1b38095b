use vstd::prelude::*;

verus! {

/// Request of the `GetGasInfo` call; it carries no fields.
#[derive(Clone, Copy, Debug, PartialEq, Eq, Structural)]
pub struct GetGasInfoRequest {}

/// Response of the `GetGasInfo` call.
#[derive(Clone, Copy, Debug, PartialEq, Eq, Structural)]
pub struct GetGasInfoResponse {
    /// The reference gas price of the current epoch, when known.
    pub reference_gas_price: Option<u64>,
}

} // verus!
