//! Names of the deployable pieces: the ledger contract, the operator
//! components, and how the ledger authorizes callers.

use vstd::prelude::*;

verus! {

#[derive(Clone, Copy, Debug, PartialEq, Eq, Structural)]
pub enum ContractKind {
    Payments,
}

impl ContractKind {
    pub fn as_str(&self) -> (r: &'static str)
        ensures
            r@ == "payments"@,
    {
        match self {
            ContractKind::Payments => "payments",
        }
    }
}

#[derive(Clone, Copy, Debug, PartialEq, Eq, Structural)]
pub enum AuthKind {
    /// One account, given at set-up, is the admin.
    User,
    /// Signed payloads are checked by a manager service.
    ServiceManager,
}

impl AuthKind {
    pub fn as_str(&self) -> (r: &'static str)
        ensures
            r@ == match self {
                AuthKind::User => "user"@,
                AuthKind::ServiceManager => "service-manager"@,
            },
    {
        match self {
            AuthKind::User => "user",
            AuthKind::ServiceManager => "service-manager",
        }
    }
}

#[derive(Clone, Copy, Debug, PartialEq, Eq, Structural)]
pub enum ComponentKind {
    Operator,
    Aggregator,
}

impl ComponentKind {
    pub fn as_str(&self) -> (r: &'static str)
        ensures
            r@ == match self {
                ComponentKind::Operator => "operator"@,
                ComponentKind::Aggregator => "aggregator"@,
            },
    {
        match self {
            ComponentKind::Operator => "operator",
            ComponentKind::Aggregator => "aggregator",
        }
    }
}

#[derive(Clone, Copy, Debug, PartialEq, Eq, Structural)]
pub enum OutputFormat {
    Json,
}

/// A record of an uploaded contract.
#[derive(Debug)]
pub struct OutputContractUpload {
    pub kind: ContractKind,
    pub code_id: u64,
    pub tx_hash: String,
}

/// A record of an instantiated contract.
#[derive(Debug)]
pub struct OutputContractInstantiate {
    pub kind: ContractKind,
    pub address: String,
    pub tx_hash: String,
}

} // verus!
