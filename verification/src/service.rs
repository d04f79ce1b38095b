use vstd::prelude::*;

use crate::error::RpcError;
use crate::proto::{GetGasInfoRequest, GetGasInfoResponse};
use crate::reader::{StateReader, SystemStateSummary};

verus! {

/// The node's RPC service.
pub struct RpcService {
    pub reader: StateReader,
}

/// The gas-information response built from a system state summary.
pub open spec fn gas_info_response(summary: SystemStateSummary) -> GetGasInfoResponse {
    GetGasInfoResponse { reference_gas_price: Some(summary.reference_gas_price) }
}

impl RpcService {
    /// What `get_gas_info` answers: the reference gas price of the system
    /// state summary, or the error that reading the summary gave.
    pub open spec fn gas_info_result(self) -> Result<GetGasInfoResponse, RpcError> {
        match self.reader.summary_result() {
            Ok(summary) => Ok(gas_info_response(summary)),
            Err(e) => Err(e),
        }
    }

    /// Answers a `GetGasInfo` request with the reference gas price of the
    /// current system state. The request carries nothing the answer depends on.
    pub fn get_gas_info(&self, _request: GetGasInfoRequest) -> (res: Result<GetGasInfoResponse, RpcError>)
        ensures
            res == self.gas_info_result(),
            res is Ok <==> self.reader.system_state is Some,
            res matches Ok(resp) ==> resp.reference_gas_price == Some(
                self.reader.system_state.unwrap().reference_gas_price,
            ),
            res matches Err(e) ==> e == RpcError::Internal,
    {
        let summary = match self.reader.get_system_state_summary() {
            Ok(summary) => summary,
            Err(e) => return Err(e),
        };
        Ok(GetGasInfoResponse { reference_gas_price: Some(summary.reference_gas_price) })
    }
}

/// The service answers a gas-information request exactly when its reader can
/// produce the system state summary; the answer then carries that summary's
/// reference gas price, and otherwise the reader's error.
pub proof fn lemma_gas_info_follows_summary(service: RpcService)
    ensures
        service.gas_info_result() is Ok <==> service.reader.summary_result() is Ok,
        service.reader.summary_result() matches Ok(summary) ==> service.gas_info_result()
            == Ok::<GetGasInfoResponse, RpcError>(
            GetGasInfoResponse { reference_gas_price: Some(summary.reference_gas_price) },
        ),
        service.reader.summary_result() matches Err(e) ==> service.gas_info_result()
            == Err::<GetGasInfoResponse, RpcError>(e),
{
}

} // verus!
