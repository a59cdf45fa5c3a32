//! Escrow/fulfillment matching: pair escrow attestations with candidate
//! fulfillments through their decoded demand data.
//!
//! Escrows are selected by their own filter and their demand payloads
//! decoded — a decode failure excludes only that escrow.  Candidate
//! fulfillments are selected by a deliberately back-reference-agnostic
//! query, their statements decoded, and the idempotency guard applied.
//! When `require_oracle` is set, an escrow whose demand names another
//! oracle is excluded before any evaluation: it never yields a decision,
//! not even a rejection.  Each surviving fulfillment, in ledger order, is
//! then judged once against each surviving escrow's demand.

use vstd::prelude::*;

use crate::abi::{
    bytes_eq, copy_bytes, decode_demand, decode_statement, demand_dec, demand_dec_ok,
    statement_dec,
};
use crate::arbitrate::{
    eligible, eligible_entries, entry_matches, lemma_eligible_step, query_matches,
};
use crate::attestation::{
    ledger_view, py_att_of, EntryV, LedgerEntry, PyAttV, PyOracleAttestation,
};
use crate::decision::{tri_state_of, DemandData, DemandV, EscrowArbiter};
use crate::filter::{
    compile_filter, compile_filter_without_ref_uid, compile_spec, compile_without_ref_uid_spec,
    FilterError, LogQuery, QueryV,
};
use crate::hex::{hex_str_of, hex_string_of};
use crate::params::{PyArbitrateOptions, PyEscrowParams, PyFulfillmentParams};
use crate::results::{
    atts_view, decisions_view, strs_view, DecisionV, PyDecision, PyEscrowArbitrationResult,
};

verus! {

/// Why an escrow arbitration call failed before judging anything.
#[derive(Clone, Copy, Debug, PartialEq, Eq, Structural)]
pub enum EscrowError {
    /// The escrow filter failed to compile.
    EscrowFilter(FilterError),
    /// The fulfillment filter failed to compile.
    FulfillmentFilter(FilterError),
    /// The caller's own demand payload is not a canonical encoding.
    MalformedDemand,
}

/// Is this escrow attestation paired: it matches the escrow query, its
/// demand decodes, and — under `require_oracle` — its demand names our own
/// oracle.
pub open spec fn escrow_eligible(
    e: EntryV,
    q: QueryV,
    opts: PyArbitrateOptions,
    own: Seq<u8>,
) -> bool {
    query_matches(q, e) && demand_dec_ok(e.attestation.data) && (!opts.require_oracle
        || demand_dec(e.attestation.data).0 == own)
}

/// The escrow attestations a call pairs against, in ledger order.
pub open spec fn escrow_entries(
    l: Seq<EntryV>,
    q: QueryV,
    opts: PyArbitrateOptions,
    own: Seq<u8>,
) -> Seq<EntryV>
    decreases l.len(),
{
    if l.len() == 0 {
        Seq::empty()
    } else if escrow_eligible(l.last(), q, opts, own) {
        escrow_entries(l.drop_last(), q, opts, own).push(l.last())
    } else {
        escrow_entries(l.drop_last(), q, opts, own)
    }
}

/// The decoded demand of an escrow entry.
pub open spec fn entry_demand(e: EntryV) -> DemandV {
    DemandV { oracle: demand_dec(e.attestation.data).0, data: demand_dec(e.attestation.data).1 }
}

/// The decoded demands of these escrow entries.
pub open spec fn escrow_demands_of(es: Seq<EntryV>) -> Seq<DemandV> {
    es.map_values(|e: EntryV| entry_demand(e))
}

/// The caller-facing renderings of these escrow entries' attestations.
pub open spec fn escrow_atts_of(es: Seq<EntryV>) -> Seq<PyAttV> {
    es.map_values(|e: EntryV| py_att_of(e.attestation))
}

/// The demand summaries of these escrow entries: each demand's oracle,
/// rendered in hex.
pub open spec fn escrow_oracles_of(es: Seq<EntryV>) -> Seq<Seq<char>> {
    es.map_values(|e: EntryV| hex_str_of(entry_demand(e).oracle))
}

/// The view of a demand vector.
pub open spec fn demands_view(ds: Seq<DemandData>) -> Seq<DemandV> {
    ds.map_values(|d: DemandData| d@)
}

/// The decision one fulfillment yields against one escrow's demand.
pub open spec fn pair_decision<P: EscrowArbiter>(f: EntryV, es: EntryV, p: P) -> DecisionV {
    DecisionV {
        attestation: py_att_of(f.attestation),
        decision: tri_state_of(
            p.escrow_reply_spec(statement_dec(f.attestation.data), entry_demand(es)),
        ),
        transaction_hash: hex_str_of(f.tx_hash),
        statement_data: Some(statement_dec(f.attestation.data)),
        demand_data: Some(hex_str_of(entry_demand(es).oracle)),
    }
}

/// The decisions one fulfillment yields, one per escrow, in escrow order.
pub open spec fn pair_decisions<P: EscrowArbiter>(f: EntryV, escrows: Seq<EntryV>, p: P) -> Seq<
    DecisionV,
> {
    escrows.map_values(|e: EntryV| pair_decision(f, e, p))
}

/// Everything an escrow call decides: each surviving fulfillment, in ledger
/// order, judged against each surviving escrow.
pub open spec fn escrow_decisions<P: EscrowArbiter>(
    fs: Seq<EntryV>,
    escrows: Seq<EntryV>,
    p: P,
) -> Seq<DecisionV>
    decreases fs.len(),
{
    if fs.len() == 0 {
        Seq::empty()
    } else {
        escrow_decisions(fs.drop_last(), escrows, p) + pair_decisions(fs.last(), escrows, p)
    }
}

/// Taking one more ledger entry extends the escrow set by that entry
/// exactly when it is paired.
pub proof fn lemma_escrow_step(
    l: Seq<EntryV>,
    q: QueryV,
    opts: PyArbitrateOptions,
    own: Seq<u8>,
    i: int,
)
    requires
        0 <= i < l.len(),
    ensures
        escrow_entries(l.take(i + 1), q, opts, own) == if escrow_eligible(l[i], q, opts, own) {
            escrow_entries(l.take(i), q, opts, own).push(l[i])
        } else {
            escrow_entries(l.take(i), q, opts, own)
        },
{
    assert(l.take(i + 1).drop_last() =~= l.take(i));
    assert(l.take(i + 1).last() == l[i]);
}

/// One more fulfillment appends its pair decisions.
pub proof fn lemma_escrow_decisions_push<P: EscrowArbiter>(
    fs: Seq<EntryV>,
    x: EntryV,
    escrows: Seq<EntryV>,
    p: P,
)
    ensures
        escrow_decisions(fs.push(x), escrows, p) == escrow_decisions(fs, escrows, p)
            + pair_decisions(x, escrows, p),
{
    assert(fs.push(x).drop_last() =~= fs);
    assert(fs.push(x).last() == x);
}

/// The escrow side of a run: the selected entries, their decoded demands,
/// and their caller-facing renderings, kept aligned.
pub struct EscrowSelection {
    pub escrows: Vec<LedgerEntry>,
    pub demands: Vec<DemandData>,
    pub escrow_atts: Vec<PyOracleAttestation>,
    pub demand_strs: Vec<String>,
}

/// A selection is faithful to the escrow entries `es` it stands for.
pub open spec fn selection_wf(s: EscrowSelection, es: Seq<EntryV>) -> bool {
    &&& ledger_view(s.escrows@) == es
    &&& demands_view(s.demands@) == escrow_demands_of(es)
    &&& atts_view(s.escrow_atts@) == escrow_atts_of(es)
    &&& strs_view(s.demand_strs@) == escrow_oracles_of(es)
    &&& s.demands@.len() == s.escrows@.len()
}

/// Select the escrow attestations of the ledger and decode their demands;
/// an escrow whose demand does not decode, or — under `require_oracle` —
/// names another oracle, is left out.
pub fn select_escrows(
    ledger: &Vec<LedgerEntry>,
    eq: &LogQuery,
    options: &PyArbitrateOptions,
    own_oracle: &Vec<u8>,
) -> (r: EscrowSelection)
    ensures
        selection_wf(r, escrow_entries(ledger_view(ledger@), eq@, *options, own_oracle@)),
{
    let ghost lv = ledger_view(ledger@);
    let mut escrows: Vec<LedgerEntry> = Vec::new();
    let mut demands: Vec<DemandData> = Vec::new();
    let mut escrow_atts: Vec<PyOracleAttestation> = Vec::new();
    let mut demand_strs: Vec<String> = Vec::new();
    let mut i: usize = 0;
    while i < ledger.len()
        invariant
            i <= ledger@.len(),
            lv == ledger_view(ledger@),
            lv.len() == ledger@.len(),
            demands@.len() == escrows@.len(),
            ledger_view(escrows@) == escrow_entries(lv.take(i as int), eq@, *options, own_oracle@),
            demands_view(demands@) == escrow_demands_of(ledger_view(escrows@)),
            atts_view(escrow_atts@) == escrow_atts_of(ledger_view(escrows@)),
            strs_view(demand_strs@) == escrow_oracles_of(ledger_view(escrows@)),
        decreases ledger@.len() - i,
    {
        let e = &ledger[i];
        assert(lv[i as int] == e@);
        let mut kept = false;
        if entry_matches(eq, e) {
            match decode_demand(&e.attestation.data) {
                Some((oracle, data)) => {
                    if !options.require_oracle || bytes_eq(&oracle, own_oracle) {
                        let ghost prev_escrows = escrows@;
                        let ghost prev_demands = demands@;
                        let ghost prev_atts = escrow_atts@;
                        let ghost prev_strs = demand_strs@;
                        let oracle_hex = hex_string_of(&oracle);
                        escrows.push(clone_entry_local(e));
                        demands.push(DemandData { oracle, data });
                        escrow_atts.push(PyOracleAttestation::from_attestation(&e.attestation));
                        demand_strs.push(oracle_hex);
                        kept = true;
                        proof {
                            assert(escrow_eligible(lv[i as int], eq@, *options, own_oracle@));
                            assert(ledger_view(escrows@) =~= ledger_view(prev_escrows).push(
                                lv[i as int],
                            ));
                            assert(demands_view(demands@) =~= demands_view(prev_demands).push(
                                entry_demand(lv[i as int]),
                            ));
                            assert(atts_view(escrow_atts@) =~= atts_view(prev_atts).push(
                                py_att_of(lv[i as int].attestation),
                            ));
                            assert(strs_view(demand_strs@) =~= strs_view(prev_strs).push(
                                hex_str_of(entry_demand(lv[i as int]).oracle),
                            ));
                        }
                    }
                },
                None => {},
            }
        }
        proof {
            lemma_escrow_step(lv, eq@, *options, own_oracle@, i as int);
            if kept {
                assert(demands_view(demands@) =~= escrow_demands_of(ledger_view(escrows@)));
                assert(atts_view(escrow_atts@) =~= escrow_atts_of(ledger_view(escrows@)));
                assert(strs_view(demand_strs@) =~= escrow_oracles_of(ledger_view(escrows@)));
            } else {
                assert(!escrow_eligible(lv[i as int], eq@, *options, own_oracle@));
            }
        }
        i = i + 1;
    }
    assert(lv.take(lv.len() as int) =~= lv);
    EscrowSelection { escrows, demands, escrow_atts, demand_strs }
}

/// Judge one decoded fulfillment statement against every selected escrow's
/// demand, appending one decision per escrow, in escrow order.
pub fn judge_one_fulfillment<P: EscrowArbiter>(
    e: &LedgerEntry,
    stmt: &Vec<u8>,
    sel: &EscrowSelection,
    predicate: &P,
    decisions: &mut Vec<PyDecision>,
)
    requires
        stmt@ == statement_dec(e@.attestation.data),
        demands_view(sel.demands@) == escrow_demands_of(ledger_view(sel.escrows@)),
        sel.demands@.len() == sel.escrows@.len(),
    ensures
        decisions_view(final(decisions)@) == decisions_view(old(decisions)@) + pair_decisions(
            e@,
            ledger_view(sel.escrows@),
            *predicate,
        ),
{
    let ghost ev = ledger_view(sel.escrows@);
    let ghost pre = decisions_view(decisions@);
    assert(pair_decisions(e@, ev.take(0), *predicate) =~= Seq::<DecisionV>::empty());
    assert(decisions_view(decisions@) =~= pre + pair_decisions(e@, ev.take(0), *predicate));
    let mut j: usize = 0;
    while j < sel.escrows.len()
        invariant
            j <= sel.escrows@.len(),
            ev == ledger_view(sel.escrows@),
            ev.len() == sel.escrows@.len(),
            sel.demands@.len() == sel.escrows@.len(),
            demands_view(sel.demands@) == escrow_demands_of(ev),
            stmt@ == statement_dec(e@.attestation.data),
            decisions_view(decisions@) == pre + pair_decisions(e@, ev.take(j as int), *predicate),
        decreases sel.escrows@.len() - j,
    {
        let reply = predicate.evaluate_escrow(stmt, &sel.demands[j]);
        proof {
            assert(demands_view(sel.demands@)[j as int] == sel.demands@[j as int]@);
            assert(escrow_demands_of(ev)[j as int] == entry_demand(ev[j as int]));
        }
        assert(sel.demands@[j as int]@ == entry_demand(ev[j as int]));
        let d = PyDecision {
            attestation: PyOracleAttestation::from_attestation(&e.attestation),
            decision: crate::decision::classify_reply(reply),
            transaction_hash: hex_string_of(&e.tx_hash),
            statement_data: Some(copy_bytes(stmt)),
            demand_data: Some(hex_string_of(&sel.demands[j].oracle)),
        };
        assert(d@ == pair_decision(e@, ev[j as int], *predicate));
        let ghost prev = decisions_view(decisions@);
        decisions.push(d);
        proof {
            assert(decisions_view(decisions@) =~= prev.push(
                pair_decision(e@, ev[j as int], *predicate),
            ));
            assert(pair_decisions(e@, ev.take(j + 1), *predicate) =~= pair_decisions(
                e@,
                ev.take(j as int),
                *predicate,
            ).push(pair_decision(e@, ev[j as int], *predicate)));
            assert(decisions_view(decisions@) =~= pre + pair_decisions(
                e@,
                ev.take(j + 1),
                *predicate,
            ));
        }
        j = j + 1;
    }
    proof {
        assert(ev.take(ev.len() as int) =~= ev);
    }
}

/// Judge every surviving fulfillment of the ledger against every selected
/// escrow, in ledger order.
pub fn judge_fulfillments<P: EscrowArbiter>(
    ledger: &Vec<LedgerEntry>,
    fq: &LogQuery,
    options: &PyArbitrateOptions,
    sel: &EscrowSelection,
    predicate: &P,
) -> (r: Vec<PyDecision>)
    requires
        demands_view(sel.demands@) == escrow_demands_of(ledger_view(sel.escrows@)),
        sel.demands@.len() == sel.escrows@.len(),
    ensures
        decisions_view(r@) == escrow_decisions(
            eligible_entries(ledger_view(ledger@), fq@, *options),
            ledger_view(sel.escrows@),
            *predicate,
        ),
{
    let ghost lv = ledger_view(ledger@);
    let ghost ev = ledger_view(sel.escrows@);
    let mut decisions: Vec<PyDecision> = Vec::new();
    let mut k: usize = 0;
    while k < ledger.len()
        invariant
            k <= ledger@.len(),
            lv == ledger_view(ledger@),
            lv.len() == ledger@.len(),
            ev == ledger_view(sel.escrows@),
            sel.demands@.len() == sel.escrows@.len(),
            demands_view(sel.demands@) == escrow_demands_of(ev),
            decisions_view(decisions@) == escrow_decisions(
                eligible_entries(lv.take(k as int), fq@, *options),
                ev,
                *predicate,
            ),
        decreases ledger@.len() - k,
    {
        let e = &ledger[k];
        assert(lv[k as int] == e@);
        let mut judged = false;
        if entry_matches(fq, e) && (!options.skip_arbitrated || !e.arbitrated) {
            match decode_statement(&e.attestation.data) {
                Some(stmt) => {
                    judge_one_fulfillment(e, &stmt, sel, predicate, &mut decisions);
                    judged = true;
                },
                None => {},
            }
        }
        proof {
            lemma_eligible_step(lv, fq@, *options, k as int);
            let elig = eligible_entries(lv.take(k as int), fq@, *options);
            if judged {
                assert(eligible(lv[k as int], fq@, *options));
                lemma_escrow_decisions_push(elig, lv[k as int], ev, *predicate);
                assert(decisions_view(decisions@) =~= escrow_decisions(
                    eligible_entries(lv.take(k + 1), fq@, *options),
                    ev,
                    *predicate,
                ));
            } else {
                assert(!eligible(lv[k as int], fq@, *options));
            }
        }
        k = k + 1;
    }
    assert(lv.take(lv.len() as int) =~= lv);
    decisions
}

/// Pair every escrow attestation with every candidate fulfillment through
/// decoded demand data, and judge each surviving pair once.
///
/// `own_oracle` is this engine's own arbitration identity, as the ledger
/// reports it.  Fails, before anything is judged, exactly when the escrow
/// filter fails to compile, then when the fulfillment filter does, then
/// when the caller's demand payload is not canonical.
pub fn arbitrate_past_for_escrow<P: EscrowArbiter>(
    ledger: &Vec<LedgerEntry>,
    escrow: &PyEscrowParams,
    fulfillment: &PyFulfillmentParams,
    predicate: &P,
    options: &PyArbitrateOptions,
    own_oracle: &Vec<u8>,
) -> (r: Result<PyEscrowArbitrationResult, EscrowError>)
    ensures
        match r {
            Ok(res) => {
                let eq = compile_spec(escrow.filter@)->Ok_0;
                let fq = compile_without_ref_uid_spec(fulfillment.filter@)->Ok_0;
                let es = escrow_entries(ledger_view(ledger@), eq, *options, own_oracle@);
                &&& compile_spec(escrow.filter@) is Ok
                &&& compile_without_ref_uid_spec(fulfillment.filter@) is Ok
                &&& demand_dec_ok(escrow.demand_abi@)
                &&& decisions_view(res.decisions@) == escrow_decisions(
                    eligible_entries(ledger_view(ledger@), fq, *options),
                    es,
                    *predicate,
                )
                &&& atts_view(res.escrow_attestations@) == escrow_atts_of(es)
                &&& strs_view(res.escrow_demands@) == escrow_oracles_of(es)
            },
            Err(EscrowError::EscrowFilter(e)) => compile_spec(escrow.filter@) == Err::<
                QueryV,
                FilterError,
            >(e),
            Err(EscrowError::FulfillmentFilter(e)) => compile_spec(escrow.filter@) is Ok
                && compile_without_ref_uid_spec(fulfillment.filter@) == Err::<
                QueryV,
                FilterError,
            >(e),
            Err(EscrowError::MalformedDemand) => compile_spec(escrow.filter@) is Ok
                && compile_without_ref_uid_spec(fulfillment.filter@) is Ok && !demand_dec_ok(
                escrow.demand_abi@,
            ),
        },
{
    let eq = match compile_filter(&escrow.filter) {
        Ok(q) => q,
        Err(e) => {
            return Err(EscrowError::EscrowFilter(e));
        },
    };
    let fq = match compile_filter_without_ref_uid(&fulfillment.filter) {
        Ok(q) => q,
        Err(e) => {
            return Err(EscrowError::FulfillmentFilter(e));
        },
    };
    if decode_demand(&escrow.demand_abi).is_none() {
        return Err(EscrowError::MalformedDemand);
    }
    let sel = select_escrows(ledger, &eq, options, own_oracle);
    let decisions = judge_fulfillments(ledger, &fq, options, &sel, predicate);
    Ok(PyEscrowArbitrationResult {
        decisions,
        escrow_attestations: sel.escrow_atts,
        escrow_demands: sel.demand_strs,
    })
}

/// Copy a ledger entry.
fn clone_entry_local(e: &LedgerEntry) -> (r: LedgerEntry)
    ensures
        r@ == e@,
{
    LedgerEntry {
        attestation: crate::attestation::Attestation {
            uid: copy_bytes(&e.attestation.uid),
            schema: copy_bytes(&e.attestation.schema),
            ref_uid: copy_bytes(&e.attestation.ref_uid),
            attester: copy_bytes(&e.attestation.attester),
            recipient: copy_bytes(&e.attestation.recipient),
            time: e.attestation.time,
            expiration_time: e.attestation.expiration_time,
            revocation_time: e.attestation.revocation_time,
            revocable: e.attestation.revocable,
            data: copy_bytes(&e.attestation.data),
        },
        block_number: e.block_number,
        log_index: e.log_index,
        tx_hash: copy_bytes(&e.tx_hash),
        arbitrated: e.arbitrated,
    }
}

/// Every escrow entry a run pairs against is escrow-eligible.
pub proof fn lemma_escrow_all(l: Seq<EntryV>, q: QueryV, opts: PyArbitrateOptions, own: Seq<u8>)
    ensures
        forall|k: int|
            0 <= k < escrow_entries(l, q, opts, own).len() ==> escrow_eligible(
                #[trigger] escrow_entries(l, q, opts, own)[k],
                q,
                opts,
                own,
            ),
    decreases l.len(),
{
    if l.len() == 0 {
    } else {
        let l0 = l.drop_last();
        lemma_escrow_all(l0, q, opts, own);
        let es = escrow_entries(l, q, opts, own);
        let es0 = escrow_entries(l0, q, opts, own);
        assert forall|k: int| 0 <= k < es.len() implies escrow_eligible(
            #[trigger] es[k],
            q,
            opts,
            own,
        ) by {
            if escrow_eligible(l.last(), q, opts, own) {
                if k < es0.len() {
                    assert(es[k] == es0[k]);
                } else {
                    assert(es[k] == l.last());
                }
            } else {
                assert(es[k] == es0[k]);
            }
        }
    }
}

/// When every escrow's demand names `own`, every decision carries `own` as
/// its demand oracle.
proof fn lemma_escrow_decisions_oracle<P: EscrowArbiter>(
    fs: Seq<EntryV>,
    escrows: Seq<EntryV>,
    own: Seq<u8>,
    p: P,
)
    requires
        forall|b: int|
            0 <= b < escrows.len() ==> entry_demand(#[trigger] escrows[b]).oracle == own,
    ensures
        forall|k: int|
            0 <= k < escrow_decisions(fs, escrows, p).len() ==> (#[trigger] escrow_decisions(
                fs,
                escrows,
                p,
            )[k]).demand_data == Some(hex_str_of(own)),
    decreases fs.len(),
{
    if fs.len() == 0 {
    } else {
        lemma_escrow_decisions_oracle(fs.drop_last(), escrows, own, p);
        let ds = escrow_decisions(fs, escrows, p);
        let prev = escrow_decisions(fs.drop_last(), escrows, p);
        let pd = pair_decisions(fs.last(), escrows, p);
        assert forall|k: int| 0 <= k < ds.len() implies (#[trigger] ds[k]).demand_data == Some(
            hex_str_of(own),
        ) by {
            if k < prev.len() {
                assert(ds[k] == prev[k]);
            } else {
                assert(ds[k] == pd[k - prev.len()]);
                assert(pd[k - prev.len()] == pair_decision(
                    fs.last(),
                    escrows[k - prev.len()],
                    p,
                ));
                assert(entry_demand(escrows[k - prev.len()]).oracle == own);
            }
        }
    }
}

/// The `require_oracle` exclusion: with the policy on, an escrow whose
/// demand names another oracle is never evaluated — every decision of the
/// run carries our own oracle as its demand oracle, so such an escrow's
/// pairings never appear, not even as rejections.
pub proof fn lemma_require_oracle_exclusion<P: EscrowArbiter>(
    l: Seq<EntryV>,
    eq: QueryV,
    fq: QueryV,
    opts: PyArbitrateOptions,
    own: Seq<u8>,
    p: P,
)
    requires
        opts.require_oracle,
    ensures
        ({
            let ds = escrow_decisions(
                eligible_entries(l, fq, opts),
                escrow_entries(l, eq, opts, own),
                p,
            );
            forall|k: int|
                0 <= k < ds.len() ==> (#[trigger] ds[k]).demand_data == Some(hex_str_of(own))
        }),
{
    lemma_escrow_all(l, eq, opts, own);
    lemma_escrow_decisions_oracle(
        eligible_entries(l, fq, opts),
        escrow_entries(l, eq, opts, own),
        own,
        p,
    );
}

/// Every decision of an escrow run is a pairing of some fulfillment of the
/// run's fulfillment list.
pub proof fn lemma_escrow_decision_sources<P: EscrowArbiter>(
    fs: Seq<EntryV>,
    escrows: Seq<EntryV>,
    p: P,
)
    ensures
        forall|k: int|
            0 <= k < escrow_decisions(fs, escrows, p).len() ==> exists|a: int|
                0 <= a < fs.len() && (#[trigger] escrow_decisions(fs, escrows, p)[k]).attestation
                    == py_att_of(#[trigger] fs[a].attestation),
    decreases fs.len(),
{
    if fs.len() == 0 {
    } else {
        let fs0 = fs.drop_last();
        lemma_escrow_decision_sources(fs0, escrows, p);
        let ds = escrow_decisions(fs, escrows, p);
        let prev = escrow_decisions(fs0, escrows, p);
        let pd = pair_decisions(fs.last(), escrows, p);
        assert forall|k: int| 0 <= k < ds.len() implies exists|a: int|
            0 <= a < fs.len() && (#[trigger] ds[k]).attestation == py_att_of(
                #[trigger] fs[a].attestation,
            ) by {
            if k < prev.len() {
                assert(ds[k] == prev[k]);
                let a0 = choose|a0: int|
                    0 <= a0 < fs0.len() && prev[k].attestation == py_att_of(
                        #[trigger] fs0[a0].attestation,
                    );
                assert(fs0[a0] == fs[a0]);
                assert(ds[k].attestation == py_att_of(fs[a0].attestation));
            } else {
                assert(ds[k] == pd[k - prev.len()]);
                assert(pd[k - prev.len()] == pair_decision(fs.last(), escrows[k - prev.len()], p));
                assert(fs.last() == fs[fs.len() - 1]);
                assert(ds[k].attestation == py_att_of(fs[fs.len() - 1].attestation));
            }
        }
    }
}

/// The idempotency guard on the escrow path: after the decided fulfillments
/// of a first escrow run are flagged, a second run with `skip_arbitrated`
/// set pairs none of them again — no decision of the second run names a
/// fulfillment attestation the first run decided.  The second run's
/// queries, options, oracle identity, and predicate may differ.
pub proof fn lemma_skip_arbitrated_excludes_escrow<PA: EscrowArbiter, PB: EscrowArbiter>(
    l: Seq<EntryV>,
    eq1: QueryV,
    fq1: QueryV,
    o1: PyArbitrateOptions,
    own1: Seq<u8>,
    p1: PA,
    eq2: QueryV,
    fq2: QueryV,
    o2: PyArbitrateOptions,
    own2: Seq<u8>,
    p2: PB,
)
    requires
        o2.skip_arbitrated,
    ensures
        ({
            let first = escrow_decisions(
                crate::arbitrate::eligible_entries(l, fq1, o1),
                escrow_entries(l, eq1, o1, own1),
                p1,
            );
            let l2 = crate::arbitrate::mark_spec(l, first);
            let second = escrow_decisions(
                crate::arbitrate::eligible_entries(l2, fq2, o2),
                escrow_entries(l2, eq2, o2, own2),
                p2,
            );
            forall|a: int, b: int|
                0 <= a < second.len() && 0 <= b < first.len() ==> (#[trigger] second[a]).attestation.uid
                    != (#[trigger] first[b]).attestation.uid
        }),
{
    let first = escrow_decisions(
        crate::arbitrate::eligible_entries(l, fq1, o1),
        escrow_entries(l, eq1, o1, own1),
        p1,
    );
    let l2 = crate::arbitrate::mark_spec(l, first);
    let fs2 = crate::arbitrate::eligible_entries(l2, fq2, o2);
    let es2 = escrow_entries(l2, eq2, o2, own2);
    let second = escrow_decisions(fs2, es2, p2);
    lemma_escrow_decision_sources(fs2, es2, p2);
    crate::arbitrate::lemma_eligible_membership(l2, fq2, o2);
    crate::arbitrate::lemma_eligible_all(l2, fq2, o2);
    assert forall|a: int, b: int|
        0 <= a < second.len() && 0 <= b < first.len() implies (#[trigger] second[a]).attestation.uid
        != (#[trigger] first[b]).attestation.uid by {
        let fa = choose|fa: int|
            0 <= fa < fs2.len() && second[a].attestation == py_att_of(
                #[trigger] fs2[fa].attestation,
            );
        let i = choose|i: int| 0 <= i < l2.len() && #[trigger] fs2[fa] == #[trigger] l2[i];
        assert(eligible(fs2[fa], fq2, o2));
        assert(!l2[i].arbitrated);
        assert(l2[i].attestation == l[i].attestation);
        assert(!crate::arbitrate::uid_decided(first, hex_str_of(l2[i].attestation.uid)));
        assert(second[a].attestation.uid == hex_str_of(l2[i].attestation.uid));
        if second[a].attestation.uid == first[b].attestation.uid {
            assert(0 <= b < first.len() && first[b].attestation.uid == hex_str_of(
                l2[i].attestation.uid,
            ));
            assert(crate::arbitrate::uid_decided(first, hex_str_of(l2[i].attestation.uid)));
            assert(false);
        }
    }
}

} // verus!
