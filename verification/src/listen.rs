//! Unbounded ("listen") arbitration: a session judges matching attestations
//! as they arrive, until a timeout, a cancellation, or an exhausted ledger
//! retry budget stops it.
//!
//! The session is the state machine of the long-lived listen task: it begins
//! listening, each incoming entry is a transient evaluation that returns it
//! to listening, and an interruption stops it gracefully — the decisions
//! already produced are kept and handed back without error.  The driver that
//! owns the subscription stream, the clock, and the observer callback feeds
//! the session one entry at a time; predicate calls are thereby strictly
//! serialized, and an interruption is only observed between entries.

use vstd::prelude::*;

use crate::abi::{copy_bytes, decode_statement};
use crate::arbitrate::{
    arb_decisions, arbitrate_entries, count_successful, decide_entry, eligible, entry_matches,
    lemma_arb_decisions_push, lemma_eligible_push,
};
use crate::attestation::{ledger_view, EntryV, LedgerEntry, PyOracleAttestation};
use crate::decision::{DecisionArbiter, EscrowArbiter};
use crate::escrow::{
    demands_view, escrow_decisions, escrow_demands_of, escrow_entries, judge_fulfillments,
    judge_one_fulfillment, lemma_escrow_decisions_push, pair_decisions, select_escrows,
    EscrowError, EscrowSelection,
};
use crate::filter::{
    compile_filter, compile_filter_without_ref_uid, compile_spec, compile_without_ref_uid_spec,
    FilterError, LogQuery, QueryV,
};
use crate::hex::hex_string_of;
use crate::params::{
    PyArbitrateOptions, PyEscrowParams, PyFulfillmentParams, PyFulfillmentParamsWithoutRefUid,
};
use crate::results::{
    atts_view, count_accepted, decisions_view, strs_view, DecisionV, PyArbitrationResult,
    PyDecision, PyEscrowArbitrationResult,
};

verus! {

/// Where a listen session stands.
#[derive(Clone, Copy, Debug, PartialEq, Eq, Structural)]
pub enum ListenPhase {
    /// Waiting for the next matching attestation.
    Listening,
    /// Stopped; no further entry is evaluated.
    Stopped,
}

/// Why a session stopped.  All three ends are graceful: the decisions
/// already produced are kept.
#[derive(Clone, Copy, Debug, PartialEq, Eq, Structural)]
pub enum StopReason {
    /// The caller's timeout elapsed.
    TimedOut,
    /// The caller cancelled.
    Cancelled,
    /// The ledger connection failed and its retry budget was exhausted.
    LedgerFault,
}

/// A live listen-and-arbitrate session over plain fulfillments.
pub struct ListenSession {
    pub query: LogQuery,
    pub options: PyArbitrateOptions,
    pub decisions: Vec<PyDecision>,
    pub phase: ListenPhase,
    pub stop_reason: Option<StopReason>,
    /// The entries handed to the session so far, oldest first.
    pub history: Ghost<Seq<EntryV>>,
}

impl ListenSession {
    /// The session's decisions are exactly the judgements of the eligible
    /// entries it has seen, in arrival order.
    pub open spec fn tracks<P: DecisionArbiter>(self, p: P) -> bool {
        decisions_view(self.decisions@) == arb_decisions(self.history@, self.query@, self.options, p)
    }

    /// Begin listening with no backlog: only attestations that arrive after
    /// subscription start are evaluated.  Fails exactly when the filter
    /// fails to compile.
    pub fn begin(fulfillment: &PyFulfillmentParams, options: &PyArbitrateOptions) -> (r: Result<
        ListenSession,
        FilterError,
    >)
        ensures
            match r {
                Ok(s) => compile_spec(fulfillment.filter@) is Ok && s.query@ == compile_spec(
                    fulfillment.filter@,
                )->Ok_0 && s.options == *options && s.phase == ListenPhase::Listening
                    && s.stop_reason is None && s.history@ == Seq::<EntryV>::empty()
                    && s.decisions@.len() == 0,
                Err(e) => compile_spec(fulfillment.filter@) == Err::<QueryV, FilterError>(e),
            },
    {
        let query = compile_filter(&fulfillment.filter)?;
        Ok(ListenSession {
            query,
            options: *options,
            decisions: Vec::new(),
            phase: ListenPhase::Listening,
            stop_reason: None,
            history: Ghost(Seq::empty()),
        })
    }

    /// Begin listening after draining the backlog: the ledger's existing
    /// matches are judged first, then the session continues on new arrivals.
    /// Fails exactly when the filter fails to compile.
    pub fn begin_with_backlog<P: DecisionArbiter>(
        ledger: &Vec<LedgerEntry>,
        fulfillment: &PyFulfillmentParams,
        predicate: &P,
        options: &PyArbitrateOptions,
    ) -> (r: Result<ListenSession, FilterError>)
        ensures
            match r {
                Ok(s) => compile_spec(fulfillment.filter@) is Ok && s.query@ == compile_spec(
                    fulfillment.filter@,
                )->Ok_0 && s.options == *options && s.phase == ListenPhase::Listening
                    && s.stop_reason is None && s.history@ == ledger_view(ledger@) && s.tracks(
                    *predicate,
                ),
                Err(e) => compile_spec(fulfillment.filter@) == Err::<QueryV, FilterError>(e),
            },
    {
        let query = compile_filter(&fulfillment.filter)?;
        let decisions = arbitrate_entries(ledger, &query, predicate, options);
        Ok(ListenSession {
            query,
            options: *options,
            decisions,
            phase: ListenPhase::Listening,
            stop_reason: None,
            history: Ghost(ledger_view(ledger@)),
        })
    }

    /// A session that has seen nothing tracks every predicate.
    pub proof fn lemma_tracks_empty<P: DecisionArbiter>(self, p: P)
        requires
            self.history@ == Seq::<EntryV>::empty(),
            self.decisions@.len() == 0,
        ensures
            self.tracks(p),
    {
        assert(decisions_view(self.decisions@) =~= Seq::<DecisionV>::empty());
        assert(arb_decisions(self.history@, self.query@, self.options, p)
            =~= Seq::<DecisionV>::empty());
    }

    /// Evaluate one incoming entry: judge it if it is eligible, hand the
    /// decision out for the observer callback, and keep listening.  After
    /// the session has stopped, entries are ignored.
    pub fn on_entry<P: DecisionArbiter>(&mut self, entry: &LedgerEntry, predicate: &P) -> (d:
        Option<PyDecision>)
        requires
            old(self).tracks(*predicate),
        ensures
            final(self).query == old(self).query,
            final(self).options == old(self).options,
            final(self).phase == old(self).phase,
            final(self).stop_reason == old(self).stop_reason,
            final(self).tracks(*predicate),
            old(self).phase == ListenPhase::Stopped ==> *final(self) == *old(self) && d is None,
            old(self).phase == ListenPhase::Listening ==> {
                &&& final(self).history@ == old(self).history@.push(entry@)
                &&& (eligible(entry@, old(self).query@, old(self).options) ==> d is Some && d->0@
                    == decide_entry(entry@, *predicate) && decisions_view(final(self).decisions@)
                    == decisions_view(old(self).decisions@).push(decide_entry(entry@, *predicate)))
                &&& (!eligible(entry@, old(self).query@, old(self).options) ==> d is None
                    && decisions_view(final(self).decisions@) == decisions_view(
                    old(self).decisions@,
                ))
            },
    {
        match self.phase {
            ListenPhase::Stopped => {
                return None;
            },
            ListenPhase::Listening => {},
        }
        let ghost old_history = self.history@;
        self.history = Ghost(old_history.push(entry@));
        let mut produced: Option<PyDecision> = None;
        if entry_matches(&self.query, entry) && (!self.options.skip_arbitrated
            || !entry.arbitrated) {
            match decode_statement(&entry.attestation.data) {
                Some(stmt) => {
                    let reply = predicate.evaluate(&stmt);
                    let decision = crate::decision::classify_reply(reply);
                    let stored = PyDecision {
                        attestation: PyOracleAttestation::from_attestation(&entry.attestation),
                        decision,
                        transaction_hash: hex_string_of(&entry.tx_hash),
                        statement_data: Some(copy_bytes(&stmt)),
                        demand_data: None,
                    };
                    let handed = PyDecision {
                        attestation: PyOracleAttestation::from_attestation(&entry.attestation),
                        decision,
                        transaction_hash: hex_string_of(&entry.tx_hash),
                        statement_data: Some(stmt),
                        demand_data: None,
                    };
                    assert(stored@ == decide_entry(entry@, *predicate));
                    assert(handed@ == decide_entry(entry@, *predicate));
                    let ghost prev = decisions_view(self.decisions@);
                    self.decisions.push(stored);
                    proof {
                        assert(decisions_view(self.decisions@) =~= prev.push(
                            decide_entry(entry@, *predicate),
                        ));
                    }
                    produced = Some(handed);
                },
                None => {},
            }
        }
        proof {
            lemma_arb_decisions_push(old_history, entry@, self.query@, self.options, *predicate);
        }
        produced
    }

    /// Stop the session: the caller's timeout elapsed, the caller
    /// cancelled, or the ledger's retry budget ran out.  Graceful — the
    /// decisions produced so far are kept.
    pub fn interrupt(&mut self, reason: StopReason)
        ensures
            final(self).phase == ListenPhase::Stopped,
            final(self).stop_reason == Some(reason),
            final(self).query == old(self).query,
            final(self).options == old(self).options,
            final(self).decisions == old(self).decisions,
            final(self).history == old(self).history,
    {
        self.phase = ListenPhase::Stopped;
        self.stop_reason = Some(reason);
    }

    /// Hand back whatever was decided, with its counts — never an error,
    /// however the session ended.
    pub fn finish(self) -> (r: PyArbitrationResult)
        ensures
            decisions_view(r.decisions@) == decisions_view(self.decisions@),
            r.total_count == self.decisions@.len(),
            r.successful_count == count_accepted(decisions_view(self.decisions@)),
    {
        let successful_count = count_successful(&self.decisions);
        let total_count = self.decisions.len();
        PyArbitrationResult { decisions: self.decisions, successful_count, total_count }
    }
}

/// A live listen-and-arbitrate session over escrow pairings.  The escrow
/// set is fixed when the session begins; each incoming fulfillment is
/// judged against every selected escrow.
pub struct EscrowListenSession {
    pub fulfillment_query: LogQuery,
    pub options: PyArbitrateOptions,
    pub selection: EscrowSelection,
    pub decisions: Vec<PyDecision>,
    pub phase: ListenPhase,
    pub stop_reason: Option<StopReason>,
    /// The fulfillment entries handed to the session so far, oldest first.
    pub history: Ghost<Seq<EntryV>>,
}

impl EscrowListenSession {
    /// The escrow entries this session pairs against.
    pub open spec fn escrow_set(self) -> Seq<EntryV> {
        ledger_view(self.selection.escrows@)
    }

    /// The selection's demands stay aligned with its entries.
    pub open spec fn wf(self) -> bool {
        demands_view(self.selection.demands@) == escrow_demands_of(self.escrow_set())
            && self.selection.demands@.len() == self.selection.escrows@.len()
    }

    /// The session's decisions are exactly the pairings of the eligible
    /// fulfillments it has seen with its escrow set, in arrival order.
    pub open spec fn tracks<P: EscrowArbiter>(self, p: P) -> bool {
        decisions_view(self.decisions@) == escrow_decisions(
            crate::arbitrate::eligible_entries(
                self.history@,
                self.fulfillment_query@,
                self.options,
            ),
            self.escrow_set(),
            p,
        )
    }

    /// Begin an escrow session: select the escrow attestations from the
    /// ledger's backlog, and optionally judge the fulfillment backlog too.
    /// Fails, before anything is judged, exactly when the escrow filter
    /// fails to compile, then when the fulfillment filter does, then when
    /// the caller's demand payload is not canonical.
    pub fn begin_for_escrow<P: EscrowArbiter>(
        ledger: &Vec<LedgerEntry>,
        escrow: &PyEscrowParams,
        fulfillment: &PyFulfillmentParamsWithoutRefUid,
        predicate: &P,
        options: &PyArbitrateOptions,
        own_oracle: &Vec<u8>,
        drain_backlog: bool,
    ) -> (r: Result<EscrowListenSession, EscrowError>)
        ensures
            match r {
                Ok(s) => {
                    let eq = compile_spec(escrow.filter@)->Ok_0;
                    let fq = compile_without_ref_uid_spec(fulfillment.filter@)->Ok_0;
                    &&& compile_spec(escrow.filter@) is Ok
                    &&& compile_without_ref_uid_spec(fulfillment.filter@) is Ok
                    &&& crate::abi::demand_dec_ok(escrow.demand_abi@)
                    &&& s.fulfillment_query@ == fq
                    &&& s.options == *options
                    &&& s.phase == ListenPhase::Listening
                    &&& s.stop_reason is None
                    &&& s.escrow_set() == escrow_entries(
                        ledger_view(ledger@),
                        eq,
                        *options,
                        own_oracle@,
                    )
                    &&& s.wf()
                    &&& s.history@ == if drain_backlog {
                        ledger_view(ledger@)
                    } else {
                        Seq::<EntryV>::empty()
                    }
                    &&& s.tracks(*predicate)
                },
                Err(EscrowError::EscrowFilter(e)) => compile_spec(escrow.filter@) == Err::<
                    QueryV,
                    FilterError,
                >(e),
                Err(EscrowError::FulfillmentFilter(e)) => compile_spec(escrow.filter@) is Ok
                    && compile_without_ref_uid_spec(fulfillment.filter@) == Err::<
                    QueryV,
                    FilterError,
                >(e),
                Err(EscrowError::MalformedDemand) => compile_spec(escrow.filter@) is Ok
                    && compile_without_ref_uid_spec(fulfillment.filter@) is Ok
                    && !crate::abi::demand_dec_ok(escrow.demand_abi@),
            },
    {
        let eq = match compile_filter(&escrow.filter) {
            Ok(q) => q,
            Err(e) => {
                return Err(EscrowError::EscrowFilter(e));
            },
        };
        let fq = match compile_filter_without_ref_uid(&fulfillment.filter) {
            Ok(q) => q,
            Err(e) => {
                return Err(EscrowError::FulfillmentFilter(e));
            },
        };
        if crate::abi::decode_demand(&escrow.demand_abi).is_none() {
            return Err(EscrowError::MalformedDemand);
        }
        let selection = select_escrows(ledger, &eq, options, own_oracle);
        let mut decisions: Vec<PyDecision> = Vec::new();
        if drain_backlog {
            decisions = judge_fulfillments(ledger, &fq, options, &selection, predicate);
        }
        let s = if drain_backlog {
            EscrowListenSession {
                fulfillment_query: fq,
                options: *options,
                selection,
                decisions,
                phase: ListenPhase::Listening,
                stop_reason: None,
                history: Ghost(ledger_view(ledger@)),
            }
        } else {
            proof {
                assert(decisions_view(decisions@) =~= Seq::<DecisionV>::empty());
                assert(crate::arbitrate::eligible_entries(
                    Seq::<EntryV>::empty(),
                    fq@,
                    *options,
                ) =~= Seq::<EntryV>::empty());
            }
            EscrowListenSession {
                fulfillment_query: fq,
                options: *options,
                selection,
                decisions,
                phase: ListenPhase::Listening,
                stop_reason: None,
                history: Ghost(Seq::empty()),
            }
        };
        Ok(s)
    }

    /// Evaluate one incoming fulfillment against every selected escrow,
    /// handing the produced decisions out for the observer callback.  After
    /// the session has stopped, entries are ignored.
    pub fn on_fulfillment<P: EscrowArbiter>(&mut self, entry: &LedgerEntry, predicate: &P) -> (ds:
        Vec<PyDecision>)
        requires
            old(self).wf(),
            old(self).tracks(*predicate),
        ensures
            final(self).fulfillment_query == old(self).fulfillment_query,
            final(self).options == old(self).options,
            final(self).selection == old(self).selection,
            final(self).phase == old(self).phase,
            final(self).stop_reason == old(self).stop_reason,
            final(self).wf(),
            final(self).tracks(*predicate),
            old(self).phase == ListenPhase::Stopped ==> *final(self) == *old(self) && ds@.len()
                == 0,
            old(self).phase == ListenPhase::Listening ==> {
                &&& final(self).history@ == old(self).history@.push(entry@)
                &&& (eligible(entry@, old(self).fulfillment_query@, old(self).options)
                    ==> decisions_view(final(self).decisions@) == decisions_view(
                    old(self).decisions@,
                ) + pair_decisions(entry@, old(self).escrow_set(), *predicate) && decisions_view(
                    ds@,
                ) == pair_decisions(entry@, old(self).escrow_set(), *predicate))
                &&& (!eligible(entry@, old(self).fulfillment_query@, old(self).options)
                    ==> decisions_view(final(self).decisions@) == decisions_view(
                    old(self).decisions@,
                ) && ds@.len() == 0)
            },
    {
        match self.phase {
            ListenPhase::Stopped => {
                return Vec::new();
            },
            ListenPhase::Listening => {},
        }
        let ghost old_history = self.history@;
        self.history = Ghost(old_history.push(entry@));
        let mut handed: Vec<PyDecision> = Vec::new();
        if entry_matches(&self.fulfillment_query, entry) && (!self.options.skip_arbitrated
            || !entry.arbitrated) {
            match decode_statement(&entry.attestation.data) {
                Some(stmt) => {
                    judge_one_fulfillment(entry, &stmt, &self.selection, predicate, &mut handed);
                    judge_one_fulfillment(
                        entry,
                        &stmt,
                        &self.selection,
                        predicate,
                        &mut self.decisions,
                    );
                    proof {
                        assert(decisions_view(handed@) =~= pair_decisions(
                            entry@,
                            self.escrow_set(),
                            *predicate,
                        ));
                    }
                },
                None => {},
            }
        }
        proof {
            lemma_eligible_push(old_history, entry@, self.fulfillment_query@, self.options);
            let elig = crate::arbitrate::eligible_entries(
                old_history,
                self.fulfillment_query@,
                self.options,
            );
            if eligible(entry@, self.fulfillment_query@, self.options) {
                lemma_escrow_decisions_push(elig, entry@, self.escrow_set(), *predicate);
            }
        }
        handed
    }

    /// Stop the session: the caller's timeout elapsed, the caller
    /// cancelled, or the ledger's retry budget ran out.  Graceful — the
    /// decisions produced so far are kept.
    pub fn interrupt(&mut self, reason: StopReason)
        ensures
            final(self).phase == ListenPhase::Stopped,
            final(self).stop_reason == Some(reason),
            final(self).fulfillment_query == old(self).fulfillment_query,
            final(self).options == old(self).options,
            final(self).selection == old(self).selection,
            final(self).decisions == old(self).decisions,
            final(self).history == old(self).history,
    {
        self.phase = ListenPhase::Stopped;
        self.stop_reason = Some(reason);
    }

    /// Hand back whatever was decided, with the escrow attestations and
    /// demand summaries the session paired against — never an error,
    /// however the session ended.
    pub fn finish(self) -> (r: PyEscrowArbitrationResult)
        ensures
            decisions_view(r.decisions@) == decisions_view(self.decisions@),
            atts_view(r.escrow_attestations@) == atts_view(self.selection.escrow_atts@),
            strs_view(r.escrow_demands@) == strs_view(self.selection.demand_strs@),
    {
        PyEscrowArbitrationResult {
            decisions: self.decisions,
            escrow_attestations: self.selection.escrow_atts,
            escrow_demands: self.selection.demand_strs,
        }
    }
}

} // verus!
