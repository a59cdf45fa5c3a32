//! The records an arbitration call hands back to its caller.

use vstd::prelude::*;

use crate::attestation::{PyAttV, PyOracleAttestation};
use crate::decision::TriState;

verus! {

/// One judged attestation: the attestation, the tri-state judgement, the
/// transaction hash it came from, the decoded statement payload, and, on the
/// escrow path, the oracle named by the demand it was paired with.
#[derive(Clone, Debug, PartialEq, Eq)]
pub struct PyDecision {
    pub attestation: PyOracleAttestation,
    pub decision: TriState,
    pub transaction_hash: String,
    pub statement_data: Option<Vec<u8>>,
    pub demand_data: Option<String>,
}

/// Mathematical view of a decision.
pub ghost struct DecisionV {
    pub attestation: PyAttV,
    pub decision: TriState,
    pub transaction_hash: Seq<char>,
    pub statement_data: Option<Seq<u8>>,
    pub demand_data: Option<Seq<char>>,
}

impl View for PyDecision {
    type V = DecisionV;

    open spec fn view(&self) -> DecisionV {
        DecisionV {
            attestation: self.attestation@,
            decision: self.decision,
            transaction_hash: self.transaction_hash@,
            statement_data: match self.statement_data {
                Some(v) => Some(v@),
                None => None,
            },
            demand_data: match self.demand_data {
                Some(s) => Some(s@),
                None => None,
            },
        }
    }
}

impl PyDecision {
    /// Build a decision record from its parts.
    pub fn __new__(
        attestation: PyOracleAttestation,
        decision: TriState,
        transaction_hash: String,
        statement_data: Option<Vec<u8>>,
        demand_data: Option<String>,
    ) -> (r: Self)
        ensures
            r.attestation@ == attestation@,
            r.decision == decision,
            r.transaction_hash@ == transaction_hash@,
            r.statement_data == statement_data,
            r.demand_data == demand_data,
    {
        PyDecision { attestation, decision, transaction_hash, statement_data, demand_data }
    }
}

/// The view of a decision vector.
pub open spec fn decisions_view(ds: Seq<PyDecision>) -> Seq<DecisionV> {
    ds.map_values(|d: PyDecision| d@)
}

/// The view of an attestation vector.
pub open spec fn atts_view(atts: Seq<PyOracleAttestation>) -> Seq<PyAttV> {
    atts.map_values(|a: PyOracleAttestation| a@)
}

/// The view of a string vector.
pub open spec fn strs_view(ss: Seq<String>) -> Seq<Seq<char>> {
    ss.map_values(|s: String| s@)
}

/// How many of these decisions accepted.
pub open spec fn count_accepted(ds: Seq<DecisionV>) -> nat
    decreases ds.len(),
{
    if ds.len() == 0 {
        0
    } else {
        count_accepted(ds.drop_last()) + if ds.last().decision == TriState::Accepted {
            1nat
        } else {
            0nat
        }
    }
}

/// The outcome of a bounded arbitration call: the ordered decisions, how
/// many accepted, and how many were evaluated in all.
#[derive(Clone, Debug, PartialEq, Eq)]
pub struct PyArbitrationResult {
    pub decisions: Vec<PyDecision>,
    pub successful_count: usize,
    pub total_count: usize,
}

impl PyArbitrationResult {
    /// Build a result from its parts.
    pub fn __new__(decisions: Vec<PyDecision>, successful_count: usize, total_count: usize) -> (r:
        Self)
        ensures
            decisions_view(r.decisions@) == decisions_view(decisions@),
            r.successful_count == successful_count,
            r.total_count == total_count,
    {
        PyArbitrationResult { decisions, successful_count, total_count }
    }
}

/// The escrow attestations a call considered, with their demand summaries.
#[derive(Clone, Debug, PartialEq, Eq)]
pub struct PyEscrowResult {
    pub escrow_attestations: Vec<PyOracleAttestation>,
    pub escrow_demands: Vec<String>,
}

impl PyEscrowResult {
    /// Build an escrow summary from its parts.
    pub fn __new__(escrow_attestations: Vec<PyOracleAttestation>, escrow_demands: Vec<String>) -> (r:
        Self)
        ensures
            atts_view(r.escrow_attestations@) == atts_view(escrow_attestations@),
            strs_view(r.escrow_demands@) == strs_view(escrow_demands@),
    {
        PyEscrowResult { escrow_attestations, escrow_demands }
    }
}

/// The outcome of an escrow arbitration call: the ordered decisions, the
/// escrow attestations that were paired, and their demand summaries.
#[derive(Clone, Debug, PartialEq, Eq)]
pub struct PyEscrowArbitrationResult {
    pub decisions: Vec<PyDecision>,
    pub escrow_attestations: Vec<PyOracleAttestation>,
    pub escrow_demands: Vec<String>,
}

impl PyEscrowArbitrationResult {
    /// Build an escrow result from its parts.
    pub fn __new__(
        decisions: Vec<PyDecision>,
        escrow_attestations: Vec<PyOracleAttestation>,
        escrow_demands: Vec<String>,
    ) -> (r: Self)
        ensures
            decisions_view(r.decisions@) == decisions_view(decisions@),
            atts_view(r.escrow_attestations@) == atts_view(escrow_attestations@),
            strs_view(r.escrow_demands@) == strs_view(escrow_demands@),
    {
        PyEscrowArbitrationResult { decisions, escrow_attestations, escrow_demands }
    }
}

/// A live subscription: its identifier and the decisions the backlog drain
/// already produced.
#[derive(Clone, Debug, PartialEq, Eq)]
pub struct PySubscriptionResult {
    pub subscription_id: String,
    pub initial_decisions: Vec<PyDecision>,
}

impl PySubscriptionResult {
    /// Build a subscription record from its parts.
    pub fn __new__(subscription_id: String, initial_decisions: Vec<PyDecision>) -> (r: Self)
        ensures
            r.subscription_id@ == subscription_id@,
            decisions_view(r.initial_decisions@) == decisions_view(initial_decisions@),
    {
        PySubscriptionResult { subscription_id, initial_decisions }
    }
}

/// A live escrow subscription: the backlog decisions, the escrow set, and
/// the two stream identifiers.
#[derive(Clone, Debug, PartialEq, Eq)]
pub struct PyEscrowSubscriptionResult {
    pub initial_decisions: Vec<PyDecision>,
    pub escrow_attestations: Vec<PyOracleAttestation>,
    pub escrow_subscription_id: String,
    pub fulfillment_subscription_id: String,
}

impl PyEscrowSubscriptionResult {
    /// Build an escrow subscription record from its parts.
    pub fn __new__(
        initial_decisions: Vec<PyDecision>,
        escrow_attestations: Vec<PyOracleAttestation>,
        escrow_subscription_id: String,
        fulfillment_subscription_id: String,
    ) -> (r: Self)
        ensures
            decisions_view(r.initial_decisions@) == decisions_view(initial_decisions@),
            atts_view(r.escrow_attestations@) == atts_view(escrow_attestations@),
            r.escrow_subscription_id@ == escrow_subscription_id@,
            r.fulfillment_subscription_id@ == fulfillment_subscription_id@,
    {
        PyEscrowSubscriptionResult {
            initial_decisions,
            escrow_attestations,
            escrow_subscription_id,
            fulfillment_subscription_id,
        }
    }
}

} // verus!
