//! The execution dispatcher's static routing table: each variant kind binds
//! to exactly one named procedure on exactly one named service. The mapping
//! is stateless; transport-level failures of the caller-supplied channel
//! propagate unchanged, and no retry, backoff or response interpretation
//! ever happens here.

use vstd::prelude::*;

verus! {

/// The services of the remote-procedure surface.
#[derive(Debug, Clone, Copy, PartialEq, Eq, Structural)]
pub enum RpcService {
    /// The smart-contract service.
    SmartContract,
    /// The token service.
    Token,
    /// The schedule service.
    Schedule,
}

/// The named procedures this core dispatches to.
#[derive(Debug, Clone, Copy, PartialEq, Eq, Structural)]
pub enum RpcMethod {
    /// The smart-contract service's "call contract method" procedure.
    ContractCallMethod,
    /// The token service's "create token" procedure.
    CreateToken,
    /// The schedule service's "get schedule info" procedure.
    GetScheduleInfo,
}

/// One remote procedure: a service and a procedure on it.
#[derive(Debug, Clone, Copy, PartialEq, Eq, Structural)]
pub struct Route {
    pub service: RpcService,
    pub method: RpcMethod,
}

} // verus!
