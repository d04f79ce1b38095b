use vstd::prelude::*;

use crate::error::RpcError;

verus! {

/// The part of the on-chain system state summary that the service reports.
#[derive(Clone, Copy, Debug, PartialEq, Eq, Structural)]
pub struct SystemStateSummary {
    /// The reference gas price of the current epoch.
    pub reference_gas_price: u64,
}

/// Read access to the node's state, as the service sees it.
///
/// `system_state` is the summary of the system state object that the
/// store holds, or `None` when the store cannot produce it.
#[derive(Clone, Copy, Debug, PartialEq, Eq, Structural)]
pub struct StateReader {
    pub system_state: Option<SystemStateSummary>,
}

impl StateReader {
    /// What reading the system state summary gives: the summary, or an
    /// internal error when the store cannot produce it.
    pub open spec fn summary_result(self) -> Result<SystemStateSummary, RpcError> {
        match self.system_state {
            Some(summary) => Ok(summary),
            None => Err(RpcError::Internal),
        }
    }

    /// Reads the summary of the current system state.
    pub fn get_system_state_summary(&self) -> (res: Result<SystemStateSummary, RpcError>)
        ensures
            res == self.summary_result(),
    {
        match self.system_state {
            Some(summary) => Ok(summary),
            None => Err(RpcError::Internal),
        }
    }
}

} // verus!
