//! Per-call parameters: evaluation options, fulfillment and escrow
//! parameters, and the engine's contract addresses.

use vstd::prelude::*;

use crate::filter::PyAttestationFilter;
use crate::statements::PyStringObligationStatementData;

verus! {

/// Policy switches for an arbitration call.
#[derive(Clone, Copy, Debug, PartialEq, Eq, Structural)]
pub struct PyArbitrateOptions {
    /// Evaluate an escrow pairing only when its demand names this engine's
    /// own oracle.
    pub require_oracle: bool,
    /// Drop fulfillments already flagged as arbitrated before invoking the
    /// predicate (the idempotency guard).
    pub skip_arbitrated: bool,
}

impl PyArbitrateOptions {
    /// Build options from their parts.
    pub fn __new__(require_oracle: bool, skip_arbitrated: bool) -> (r: Self)
        ensures
            r.require_oracle == require_oracle,
            r.skip_arbitrated == skip_arbitrated,
    {
        PyArbitrateOptions { require_oracle, skip_arbitrated }
    }
}

impl Default for PyArbitrateOptions {
    /// Both policies are off by default.
    fn default() -> (r: Self)
        ensures
            !r.require_oracle,
            !r.skip_arbitrated,
    {
        PyArbitrateOptions { require_oracle: false, skip_arbitrated: false }
    }
}

/// The contract addresses an oracle engine is wired to.
pub struct PyOracleAddresses {
    pub eas: String,
    pub trusted_oracle_arbiter: String,
}

impl PyOracleAddresses {
    /// Build an address pair from its parts.
    pub fn __new__(eas: String, trusted_oracle_arbiter: String) -> (r: Self)
        ensures
            r.eas@ == eas@,
            r.trusted_oracle_arbiter@ == trusted_oracle_arbiter@,
    {
        PyOracleAddresses { eas, trusted_oracle_arbiter }
    }
}

/// What to evaluate: the expected statement shape and the filter that
/// selects candidate fulfillment attestations.
pub struct PyFulfillmentParams {
    pub statement_abi: PyStringObligationStatementData,
    pub filter: PyAttestationFilter,
}

impl PyFulfillmentParams {
    /// Build fulfillment parameters from their parts.
    pub fn __new__(statement_abi: PyStringObligationStatementData, filter: PyAttestationFilter) -> (r:
        Self)
        ensures
            r.statement_abi.item@ == statement_abi.item@,
            r.filter@ == filter@,
    {
        PyFulfillmentParams { statement_abi, filter }
    }
}

/// Fulfillment parameters whose query deliberately ignores the
/// back-reference field: escrow-style matching correlates by demand data,
/// not by on-chain back-references.
pub struct PyFulfillmentParamsWithoutRefUid {
    pub statement_abi: PyStringObligationStatementData,
    pub filter: PyAttestationFilter,
}

impl PyFulfillmentParamsWithoutRefUid {
    /// Build back-reference-agnostic fulfillment parameters.
    pub fn __new__(statement_abi: PyStringObligationStatementData, filter: PyAttestationFilter) -> (r:
        Self)
        ensures
            r.statement_abi.item@ == statement_abi.item@,
            r.filter@ == filter@,
    {
        PyFulfillmentParamsWithoutRefUid { statement_abi, filter }
    }
}

/// What escrows to pair against: the caller's encoded demand payload and the
/// filter that selects escrow attestations.
pub struct PyEscrowParams {
    pub demand_abi: Vec<u8>,
    pub filter: PyAttestationFilter,
}

impl PyEscrowParams {
    /// Build escrow parameters from their parts.
    pub fn __new__(demand_abi: Vec<u8>, filter: PyAttestationFilter) -> (r: Self)
        ensures
            r.demand_abi@ == demand_abi@,
            r.filter@ == filter@,
    {
        PyEscrowParams { demand_abi, filter }
    }
}

} // verus!
