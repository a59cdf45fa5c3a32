//! The tri-state decision model and the predicate capability.
//!
//! A predicate is an externally supplied rule that may return a boolean,
//! return some other value, or fail outright.  The adapter here maps every
//! such outcome to an explicit tri-state so that "the predicate could not
//! decide" is never collapsed into "the predicate rejected".

use vstd::prelude::*;

verus! {

/// The three possible judgements over an attestation.
#[derive(Clone, Copy, Debug, PartialEq, Eq, Structural)]
pub enum TriState {
    Accepted,
    Rejected,
    Indeterminate,
}

/// What a predicate invocation came back with, as marshalled by whatever
/// runtime hosts the rule.
#[derive(Clone, Copy, Debug, PartialEq, Eq, Structural)]
pub enum PredicateReply {
    /// The predicate returned a boolean.
    Boolean(bool),
    /// The predicate returned a non-boolean value that still coerces to a
    /// truth value.
    Coercible(bool),
    /// The predicate returned a non-boolean value with no usable truth
    /// value.
    Uncoercible,
    /// The predicate raised or the call into its runtime failed.
    Raised,
}

/// The tri-state judgement a reply maps to: booleans and coercible values
/// decide, everything else is indeterminate.
pub open spec fn tri_state_of(r: PredicateReply) -> TriState {
    match r {
        PredicateReply::Boolean(true) => TriState::Accepted,
        PredicateReply::Boolean(false) => TriState::Rejected,
        PredicateReply::Coercible(true) => TriState::Accepted,
        PredicateReply::Coercible(false) => TriState::Rejected,
        PredicateReply::Uncoercible => TriState::Indeterminate,
        PredicateReply::Raised => TriState::Indeterminate,
    }
}

/// Map a predicate reply to its tri-state judgement.
pub fn classify_reply(r: PredicateReply) -> (t: TriState)
    ensures
        t == tri_state_of(r),
{
    match r {
        PredicateReply::Boolean(b) => if b {
            TriState::Accepted
        } else {
            TriState::Rejected
        },
        PredicateReply::Coercible(b) => if b {
            TriState::Accepted
        } else {
            TriState::Rejected
        },
        PredicateReply::Uncoercible => TriState::Indeterminate,
        PredicateReply::Raised => TriState::Indeterminate,
    }
}

/// A decoded demand payload: the oracle it names and its opaque criteria.
pub struct DemandData {
    pub oracle: Vec<u8>,
    pub data: Vec<u8>,
}

/// Mathematical view of a decoded demand.
pub ghost struct DemandV {
    pub oracle: Seq<u8>,
    pub data: Seq<u8>,
}

impl View for DemandData {
    type V = DemandV;

    open spec fn view(&self) -> DemandV {
        DemandV { oracle: self.oracle@, data: self.data@ }
    }
}

/// A decision predicate over statement payloads.
///
/// `reply_spec` is the rule's meaning; `evaluate` is one serialized
/// invocation of the rule.  Implementations are deterministic in the
/// statement, which is what makes bounded arbitration a pure function of
/// ledger state, filter, and predicate.
pub trait DecisionArbiter {
    /// What the rule replies to a statement.
    spec fn reply_spec(&self, statement: Seq<u8>) -> PredicateReply;

    /// Invoke the rule on one decoded statement payload.
    fn evaluate(&self, statement: &Vec<u8>) -> (r: PredicateReply)
        ensures
            r == self.reply_spec(statement@),
    ;
}

/// A decision predicate over statement payloads paired with decoded demands,
/// for escrow matching.
pub trait EscrowArbiter {
    /// What the rule replies to a statement under a demand.
    spec fn escrow_reply_spec(&self, statement: Seq<u8>, demand: DemandV) -> PredicateReply;

    /// Invoke the rule on one statement payload and one decoded demand.
    fn evaluate_escrow(&self, statement: &Vec<u8>, demand: &DemandData) -> (r: PredicateReply)
        ensures
            r == self.escrow_reply_spec(statement@, demand@),
    ;
}

/// A predicate that accepts exactly one expected statement payload.
pub struct ExpectedStatement {
    pub expected: Vec<u8>,
}

impl DecisionArbiter for ExpectedStatement {
    open spec fn reply_spec(&self, statement: Seq<u8>) -> PredicateReply {
        PredicateReply::Boolean(statement == self.expected@)
    }

    fn evaluate(&self, statement: &Vec<u8>) -> (r: PredicateReply) {
        PredicateReply::Boolean(crate::abi::bytes_eq(statement, &self.expected))
    }
}

impl EscrowArbiter for ExpectedStatement {
    open spec fn escrow_reply_spec(&self, statement: Seq<u8>, demand: DemandV) -> PredicateReply {
        PredicateReply::Boolean(statement == self.expected@)
    }

    fn evaluate_escrow(&self, statement: &Vec<u8>, demand: &DemandData) -> (r: PredicateReply) {
        PredicateReply::Boolean(crate::abi::bytes_eq(statement, &self.expected))
    }
}

/// A predicate that gives the same reply to every statement: a rule that
/// always raises, always returns a non-boolean, or always decides one way.
pub struct ConstReply {
    pub reply: PredicateReply,
}

impl DecisionArbiter for ConstReply {
    open spec fn reply_spec(&self, statement: Seq<u8>) -> PredicateReply {
        self.reply
    }

    fn evaluate(&self, statement: &Vec<u8>) -> (r: PredicateReply) {
        self.reply
    }
}

impl EscrowArbiter for ConstReply {
    open spec fn escrow_reply_spec(&self, statement: Seq<u8>, demand: DemandV) -> PredicateReply {
        self.reply
    }

    fn evaluate_escrow(&self, statement: &Vec<u8>, demand: &DemandData) -> (r: PredicateReply) {
        self.reply
    }
}

} // verus!
